//! The options of a request, which go into the query string of its URL.

use vstd::prelude::*;
use vstd::string::StringExecFns;
use crate::text::{join, push_part, string_view};

verus! {

/// One named option. An option without a value is known but not set.
#[derive(Debug, PartialEq, Eq)]
pub struct QueryOption {
    pub name: String,
    pub value: Option<String>,
}

/// The options of a request, in the order in which they were given.
#[derive(Debug, PartialEq, Eq)]
pub struct Options {
    pub entries: Vec<QueryOption>,
}

/// The options that have a value, each written as `name=value`, in order.
pub open spec fn pairs(entries: Seq<QueryOption>) -> Seq<Seq<char>>
    decreases entries.len(),
{
    if entries.len() == 0 {
        Seq::empty()
    } else {
        let before = pairs(entries.drop_last());
        match entries.last().value {
            Some(value) => before.push(entries.last().name@ + "="@ + value@),
            None => before,
        }
    }
}

/// The query string: nothing where no option has a value, else a question
/// mark and the pairs with `&` between them.
pub open spec fn query_string(entries: Seq<QueryOption>) -> Seq<char> {
    if pairs(entries).len() == 0 {
        Seq::empty()
    } else {
        "?"@ + join(pairs(entries), "&"@)
    }
}

impl Options {
    /// No options.
    pub fn new() -> (options: Options)
        ensures
            options.entries@.len() == 0,
    {
        Options { entries: Vec::new() }
    }

    /// Whether no option was given.
    pub fn is_empty(&self) -> (r: bool)
        ensures
            r == (self.entries@.len() == 0),
    {
        self.entries.len() == 0
    }

    /// Adds an option behind those already given.
    pub fn push(&mut self, name: &str, value: Option<&str>)
        ensures
            final(self).entries@.len() == old(self).entries@.len() + 1,
            final(self).entries@.drop_last() == old(self).entries@,
            final(self).entries@.last().name@ == name@,
            string_view(final(self).entries@.last().value) == crate::text::str_view(value),
    {
        let value = match value {
            Some(text) => Some(text.to_owned()),
            None => None,
        };
        self.entries.push(QueryOption { name: name.to_owned(), value });
        assert(self.entries@.drop_last() =~= old(self).entries@);
    }

    /// The query string for these options.
    pub fn to_string(&self) -> (s: String)
        ensures
            s@ == query_string(self.entries@),
    {
        let mut s = String::new();
        let mut any = false;
        let mut i: usize = 0;
        assert(self.entries@.take(0) =~= Seq::empty());
        while i < self.entries.len()
            invariant
                i <= self.entries.len(),
                any == (pairs(self.entries@.take(i as int)).len() > 0),
                s@ == query_string(self.entries@.take(i as int)),
            decreases self.entries.len() - i,
        {
            let entry = &self.entries[i];
            proof {
                let next = self.entries@.take(i + 1);
                assert(next.drop_last() =~= self.entries@.take(i as int));
                assert(next.last() == self.entries@[i as int]);
            }
            match &entry.value {
                Some(value) => {
                    let ghost before = pairs(self.entries@.take(i as int));
                    if !any {
                        s.append("?");
                        assert(join(before, "&"@) =~= Seq::<char>::empty());
                    }
                    assert(s@ =~= "?"@ + join(before, "&"@));
                    let mut pair = String::new();
                    pair.append(entry.name.as_str());
                    pair.append("=");
                    pair.append(value.as_str());
                    assert(pair@ =~= entry.name@ + "="@ + value@);
                    push_part(&mut s, !any, "&", pair.as_str(), Ghost("?"@), Ghost(before));
                    any = true;
                },
                None => {},
            }
            i += 1;
        }
        assert(self.entries@.take(i as int) =~= self.entries@);
        s
    }
}

} // verus!
