//! A bulk operation: a batch of actions and where to send it.
//!
//! The operation is built, then encoded into the URL and the body of one
//! request. Sending the request and waiting for the answer is the caller's
//! part; `BulkResult::from_response` reads the answer. An operation that
//! cannot be encoded yields no request, so nothing of it is ever sent.

use vstd::prelude::*;
use vstd::string::StringExecFns;
use crate::action::{action_views, count_payload, Action, ActionView};
use crate::error::EsError;
use crate::options::{query_string, Options, QueryOption};
use crate::text::{lemma_line_feeds, lemma_unlines_concat, occurrences, str_view, unlines};

verus! {

/// The text of a batch: the encoded actions one after the other, or the
/// position of the first action that cannot be written.
pub open spec fn encode_all(actions: Seq<ActionView>) -> Result<Seq<char>, int>
    decreases actions.len(),
{
    if actions.len() == 0 {
        Ok(Seq::empty())
    } else {
        match encode_all(actions.drop_last()) {
            Err(index) => Err(index),
            Ok(before) => match actions.last().encoded() {
                Some(text) => Ok(before + text),
                None => Err(actions.len() - 1),
            },
        }
    }
}

/// A name as a part of the path: the name and a slash, or nothing where
/// there is no name.
pub open spec fn path_part(name: Option<Seq<char>>) -> Seq<char> {
    match name {
        Some(name) => name + "/"@,
        None => Seq::empty(),
    }
}

/// The URL of a bulk request, from the root of the store:
/// `/{index}/{doc_type}/_bulk{options}`.
pub open spec fn bulk_url(
    index: Option<Seq<char>>,
    doc_type: Option<Seq<char>>,
    options: Seq<QueryOption>,
) -> Seq<char> {
    "/"@ + path_part(index) + path_part(doc_type) + "_bulk"@ + query_string(options)
}

/// A batch of actions, the index and type that its actions default to, and
/// the options of the request.
pub struct BulkOperation<'b> {
    pub index: Option<&'b str>,
    pub doc_type: Option<&'b str>,
    pub actions: &'b [Action],
    pub options: Options,
}

/// An encoded bulk operation: what to post, and where.
#[derive(Debug, PartialEq, Eq)]
pub struct BulkRequest {
    /// The path and query string, from the root of the store.
    pub url: String,
    /// The newline-delimited body.
    pub body: String,
}

impl<'b> BulkOperation<'b> {
    /// The URL that the operation is posted to.
    pub open spec fn url(&self) -> Seq<char> {
        bulk_url(str_view(self.index), str_view(self.doc_type), self.options.entries@)
    }

    /// The body of the request, or the position of the first action that
    /// cannot be written.
    pub open spec fn body(&self) -> Result<Seq<char>, int> {
        encode_all(action_views(self.actions@))
    }

    /// Whether `r` is what encoding the actions was to give: the body, or
    /// an encoding error at the position of the first action that cannot be
    /// written.
    pub open spec fn encoded_as(&self, r: Result<String, EsError>) -> bool {
        match r {
            Ok(body) => self.body() == Ok::<Seq<char>, int>(body@),
            Err(e) => e matches EsError::EncodeError { index, .. } && self.body() == Err::<
                Seq<char>,
                int,
            >(index as int),
        }
    }

    /// An operation on these actions, with no default index or type and no
    /// options.
    pub fn new(actions: &'b [Action]) -> (operation: BulkOperation<'b>)
        ensures
            operation.index is None,
            operation.doc_type is None,
            operation.actions@ == actions@,
            operation.options.entries@.len() == 0,
    {
        BulkOperation { index: None, doc_type: None, actions, options: Options::new() }
    }

    /// Sets the index for the actions that name none.
    pub fn with_index(self, index: &'b str) -> (operation: BulkOperation<'b>)
        ensures
            operation.index == Some(index),
            operation.doc_type == self.doc_type,
            operation.actions == self.actions,
            operation.options == self.options,
    {
        let mut operation = self;
        operation.index = Some(index);
        operation
    }

    /// Sets the type for the actions that name none.
    pub fn with_doc_type(self, doc_type: &'b str) -> (operation: BulkOperation<'b>)
        ensures
            operation.index == self.index,
            operation.doc_type == Some(doc_type),
            operation.actions == self.actions,
            operation.options == self.options,
    {
        let mut operation = self;
        operation.doc_type = Some(doc_type);
        operation
    }

    /// Adds the option `consistency` to the request.
    pub fn with_consistency(self, val: &str) -> (operation: BulkOperation<'b>)
        ensures
            operation.index == self.index,
            operation.doc_type == self.doc_type,
            operation.actions == self.actions,
            operation.options.entries@.drop_last() == self.options.entries@,
            operation.options.entries@.len() == self.options.entries@.len() + 1,
            operation.options.entries@.last().name@ == "consistency"@,
            operation.options.entries@.last().value matches Some(value) && value@ == val@,
    {
        let mut operation = self;
        operation.options.push("consistency", Some(val));
        operation
    }

    /// Adds the option `refresh` to the request.
    pub fn with_refresh(self, val: &str) -> (operation: BulkOperation<'b>)
        ensures
            operation.index == self.index,
            operation.doc_type == self.doc_type,
            operation.actions == self.actions,
            operation.options.entries@.drop_last() == self.options.entries@,
            operation.options.entries@.len() == self.options.entries@.len() + 1,
            operation.options.entries@.last().name@ == "refresh"@,
            operation.options.entries@.last().value matches Some(value) && value@ == val@,
    {
        let mut operation = self;
        operation.options.push("refresh", Some(val));
        operation
    }

    /// The URL that the operation is posted to, from the root of the store.
    pub fn format_url(&self) -> (url: String)
        ensures
            url@ == self.url(),
    {
        let mut url = String::new();
        url.append("/");
        match self.index {
            Some(index) => {
                url.append(index);
                url.append("/");
            },
            None => {},
        }
        match self.doc_type {
            Some(doc_type) => {
                url.append(doc_type);
                url.append("/");
            },
            None => {},
        }
        url.append("_bulk");
        let options = self.options.to_string();
        url.append(options.as_str());
        assert(url@ =~= self.url());
        url
    }

    /// The body of the request: for each action in order its command line
    /// and, if it has a payload, its payload line.
    ///
    /// An action that cannot be written fails the whole batch: the error
    /// names the position of the first such action.
    pub fn format_actions(&self) -> (r: Result<String, EsError>)
        ensures
            self.encoded_as(r),
    {
        let mut actstr = String::new();
        let mut i: usize = 0;
        let ghost views = action_views(self.actions@);
        proof {
            assert(views.take(0) =~= Seq::<ActionView>::empty());
        }
        while i < self.actions.len()
            invariant
                i <= self.actions.len(),
                views == action_views(self.actions@),
                encode_all(views.take(i as int)) == Ok::<Seq<char>, int>(actstr@),
            decreases self.actions.len() - i,
        {
            proof {
                let next = views.take(i + 1);
                assert(next.drop_last() =~= views.take(i as int));
                assert(next.last() == self.actions@[i as int]@);
            }
            match self.actions[i].write(&mut actstr) {
                Ok(_) => {},
                Err(source) => {
                    proof {
                        lemma_first_failure(views, i as int);
                    }
                    return Err(EsError::EncodeError { index: i, source });
                },
            }
            i += 1;
        }
        proof {
            assert(views.take(i as int) =~= views);
        }
        Ok(actstr)
    }

    /// Encodes the operation into the request to send.
    pub fn request(&self) -> (r: Result<BulkRequest, EsError>)
        ensures
            match r {
                Ok(request) => request.url@ == self.url() && self.body() == Ok::<Seq<char>, int>(
                    request.body@,
                ),
                Err(e) => e matches EsError::EncodeError { index, .. } && self.body() == Err::<
                    Seq<char>,
                    int,
                >(index as int),
            },
    {
        let body = self.format_actions()?;
        Ok(BulkRequest { url: self.format_url(), body })
    }
}

/// The lines of a batch whose actions can all be written: the lines of each
/// action, in the order of the batch.
pub open spec fn batch_lines(actions: Seq<ActionView>) -> Seq<Seq<char>>
    decreases actions.len(),
{
    if actions.len() == 0 {
        Seq::empty()
    } else {
        batch_lines(actions.drop_last()) + actions.last().lines()->0
    }
}

/// How many actions of a batch have a payload.
pub open spec fn payload_count(actions: Seq<ActionView>) -> nat
    decreases actions.len(),
{
    if actions.len() == 0 {
        0
    } else {
        payload_count(actions.drop_last()) + count_payload(actions.last())
    }
}

/// A batch is encoded if and only if each of its actions can be written.
pub proof fn lemma_encoded_iff_all_written(actions: Seq<ActionView>)
    ensures
        encode_all(actions) is Ok <==> forall|i: int|
            0 <= i < actions.len() ==> (#[trigger] actions[i]).encoded() is Some,
    decreases actions.len(),
{
    if actions.len() > 0 {
        let before = actions.drop_last();
        lemma_encoded_iff_all_written(before);
        if encode_all(actions) is Ok {
            assert forall|i: int| 0 <= i < actions.len() implies (#[trigger] actions[i]).encoded() is Some by {
                if i < before.len() {
                    assert(before[i] == actions[i]);
                }
            }
        }
        if forall|i: int| 0 <= i < actions.len() ==> (#[trigger] actions[i]).encoded() is Some {
            assert forall|i: int| 0 <= i < before.len() implies (#[trigger] before[i]).encoded() is Some by {
                assert(before[i] == actions[i]);
            }
            assert(actions.last() == actions[actions.len() - 1]);
        }
    }
}

/// The body of a batch of N actions is made of lines, each followed by a
/// line feed: the lines of the first action, then those of the second, and
/// so on. There are N lines and one more for each action with a payload,
/// which is N at least and twice N at most.
pub proof fn lemma_line_count(actions: Seq<ActionView>)
    requires
        encode_all(actions) is Ok,
    ensures
        encode_all(actions)->Ok_0 == unlines(batch_lines(actions)),
        batch_lines(actions).len() == actions.len() + payload_count(actions),
        payload_count(actions) <= actions.len(),
    decreases actions.len(),
{
    if actions.len() > 0 {
        let before = actions.drop_last();
        let last = actions.last();
        lemma_line_count(before);
        last.lemma_lines_of_action();
        lemma_unlines_concat(batch_lines(before), last.lines()->0);
    }
}

/// Where no line of a batch holds a line feed, as it is with the compact
/// text that `serde_json` writes, the body of N actions holds exactly N line
/// feeds and one more for each action with a payload: a reader that cuts the
/// body at the line feeds finds the lines, and no others.
pub proof fn lemma_line_feed_count(actions: Seq<ActionView>)
    requires
        encode_all(actions) is Ok,
        forall|i: int|
            0 <= i < batch_lines(actions).len() ==> !(#[trigger] batch_lines(actions)[i]).contains(
                '\n',
            ),
    ensures
        occurrences(encode_all(actions)->Ok_0, '\n') == actions.len() + payload_count(actions),
{
    lemma_line_count(actions);
    lemma_line_feeds(batch_lines(actions));
}

/// The body depends on nothing but the lines of the actions and their
/// order: two batches of equal length whose actions are written alike, place
/// by place, have the same body, or fail at the same place.
pub proof fn lemma_body_follows_actions(a: Seq<ActionView>, b: Seq<ActionView>)
    requires
        a.len() == b.len(),
        forall|i: int| 0 <= i < a.len() ==> (#[trigger] a[i]).encoded() == b[i].encoded(),
    ensures
        encode_all(a) == encode_all(b),
    decreases a.len(),
{
    if a.len() > 0 {
        assert forall|i: int| 0 <= i < a.drop_last().len() implies (#[trigger] a.drop_last()[i]).encoded()
            == b.drop_last()[i].encoded() by {
            assert(a.drop_last()[i] == a[i]);
            assert(b.drop_last()[i] == b[i]);
        }
        lemma_body_follows_actions(a.drop_last(), b.drop_last());
        assert(a.last() == a[a.len() - 1]);
        assert(b.last() == b[b.len() - 1]);
    }
}

/// Encoding is repeatable: whatever two encodings of one operation return,
/// they return the same, character for character: the same body, or an
/// error at the same position.
pub proof fn lemma_encoding_is_repeatable(
    operation: BulkOperation,
    first: Result<String, EsError>,
    second: Result<String, EsError>,
)
    requires
        operation.encoded_as(first),
        operation.encoded_as(second),
    ensures
        first is Ok <==> second is Ok,
        first is Ok ==> first->Ok_0@ == second->Ok_0@,
        first is Err ==> first->Err_0->EncodeError_index == second->Err_0->EncodeError_index,
{
}

/// Where the actions before the one at `i` can all be written and that one
/// cannot, the batch fails at `i`.
pub proof fn lemma_first_failure(actions: Seq<ActionView>, i: int)
    requires
        0 <= i < actions.len(),
        encode_all(actions.take(i)) is Ok,
        actions[i].encoded() is None,
    ensures
        encode_all(actions) == Err::<Seq<char>, int>(i),
    decreases actions.len(),
{
    if i == actions.len() - 1 {
        assert(actions.drop_last() =~= actions.take(i));
    } else {
        assert(actions.drop_last().take(i) =~= actions.take(i));
        lemma_first_failure(actions.drop_last(), i);
    }
}

} // verus!
