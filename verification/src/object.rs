//! JSON objects whose members may be absent.
//!
//! The wire format leaves a member out when it has no value; it never writes
//! `null` for it. An object is therefore described by the members that it
//! has, in order, and written from that description.

use vstd::prelude::*;
use vstd::string::StringExecFns;
use crate::json::{json_string, json_text, string_value, value_text};
use crate::text::{decimal, decimal_string, join, push_part, str_view};

verus! {

/// The value of a member, before it is written.
pub enum FieldValue {
    /// A string, to be written as the text of the JSON string that holds it.
    Text(Seq<char>),
    /// A number, to be written in decimal notation.
    Number(u64),
    /// A truth value, to be written as `true` or `false`.
    Flag(bool),
    /// Any JSON value, to be written as its compact text.
    Json(serde_json::Value),
    /// An object that has been written already: its text.
    Nested(Seq<char>),
}

/// A member of an object: a key and a value.
pub struct Member {
    pub key: Seq<char>,
    pub value: FieldValue,
}

/// The JSON text of a value, or `None` where it cannot be written.
pub open spec fn written(value: FieldValue) -> Option<Seq<char>> {
    match value {
        FieldValue::Text(s) => json_text(json_string(s)),
        FieldValue::Number(n) => Some(decimal(n as nat)),
        FieldValue::Flag(b) => Some(
            if b {
                "true"@
            } else {
                "false"@
            },
        ),
        FieldValue::Json(v) => json_text(v),
        FieldValue::Nested(text) => Some(text),
    }
}

/// Whether every value of a list of members can be written.
pub open spec fn all_written(members: Seq<Member>) -> bool {
    forall|i: int| 0 <= i < members.len() ==> (#[trigger] written(members[i].value)) is Some
}

/// A member as it stands in an object: the key in quotes, a colon, the value.
pub open spec fn member_text(key: Seq<char>, value: Seq<char>) -> Seq<char> {
    "\""@ + key + "\":"@ + value
}

/// The members as they stand in an object, in order.
pub open spec fn member_texts(members: Seq<Member>) -> Seq<Seq<char>> {
    Seq::new(
        members.len(),
        |i: int| member_text(members[i].key, written(members[i].value)->0),
    )
}

/// The text of the object with these members: braces round the members, with
/// commas between them, and nothing else. `None` where a value cannot be
/// written.
pub open spec fn object_text(members: Seq<Member>) -> Option<Seq<char>> {
    if all_written(members) {
        Some("{"@ + join(member_texts(members), ","@) + "}"@)
    } else {
        None
    }
}

/// The list with a string member if it has a value, the empty list if not.
pub open spec fn text_field(key: Seq<char>, value: Option<Seq<char>>) -> Seq<Member> {
    match value {
        Some(s) => seq![Member { key, value: FieldValue::Text(s) }],
        None => Seq::empty(),
    }
}

/// The list with a number member if it has a value, the empty list if not.
pub open spec fn number_field(key: Seq<char>, value: Option<u64>) -> Seq<Member> {
    match value {
        Some(n) => seq![Member { key, value: FieldValue::Number(n) }],
        None => Seq::empty(),
    }
}

/// The list with a truth value member if it has a value, the empty list if not.
pub open spec fn flag_field(key: Seq<char>, value: Option<bool>) -> Seq<Member> {
    match value {
        Some(b) => seq![Member { key, value: FieldValue::Flag(b) }],
        None => Seq::empty(),
    }
}

/// The list with a JSON member if it has a value, the empty list if not.
pub open spec fn json_field(key: Seq<char>, value: Option<serde_json::Value>) -> Seq<Member> {
    match value {
        Some(v) => seq![Member { key, value: FieldValue::Json(v) }],
        None => Seq::empty(),
    }
}

/// The value of the first member with this key, if there is one.
pub open spec fn member_value(members: Seq<Member>, key: Seq<char>) -> Option<FieldValue>
    decreases members.len(),
{
    if members.len() == 0 {
        None
    } else if members[0].key == key {
        Some(members[0].value)
    } else {
        member_value(members.skip(1), key)
    }
}

/// A key is looked up in two lists put together by looking in the first,
/// then in the second.
pub proof fn lemma_member_value_concat(a: Seq<Member>, b: Seq<Member>, key: Seq<char>)
    ensures
        member_value(a + b, key) == match member_value(a, key) {
            Some(value) => Some(value),
            None => member_value(b, key),
        },
    decreases a.len(),
{
    if a.len() == 0 {
        assert(a + b =~= b);
    } else {
        assert((a + b)[0] == a[0]);
        assert((a + b).skip(1) =~= a.skip(1) + b);
        lemma_member_value_concat(a.skip(1), b, key);
    }
}

/// An object with a single member is written as braces round that member.
pub proof fn lemma_object_of_one(key: Seq<char>, value: FieldValue)
    requires
        written(value) is Some,
    ensures
        object_text(seq![Member { key, value }]) == Some(
            "{"@ + member_text(key, written(value)->0) + "}"@,
        ),
{
    let members = seq![Member { key, value }];
    assert(members[0].value == value);
    assert(member_texts(members) =~= seq![member_text(key, written(value)->0)]);
}

/// An object that is being written, member by member.
///
/// A value that cannot be written does not stop the writing: the writer
/// keeps the first such error and hands it out in place of the text at the
/// end, so that the members can be given one after the other. A key is
/// written between quotes as it is: the keys of the wire format are plain
/// names.
pub(crate) struct ObjectWriter {
    text: String,
    any: bool,
    failed: Option<serde_json::Error>,
    members: Ghost<Seq<Member>>,
}

impl ObjectWriter {
    /// The members given so far.
    pub closed spec fn members(&self) -> Seq<Member> {
        self.members@
    }

    /// The text so far is the opening brace and the members given so far,
    /// unless one of them could not be written.
    pub closed spec fn wf(&self) -> bool {
        match self.failed {
            Some(_) => !all_written(self.members@),
            None => {
                &&& all_written(self.members@)
                &&& self.any == (self.members@.len() > 0)
                &&& self.text@ == "{"@ + join(member_texts(self.members@), ","@)
            },
        }
    }

    /// An object without members yet.
    pub fn new() -> (w: ObjectWriter)
        ensures
            w.wf(),
            w.members() == Seq::<Member>::empty(),
    {
        let w = ObjectWriter {
            text: String::from_str("{"),
            any: false,
            failed: None,
            members: Ghost(Seq::empty()),
        };
        assert(w.text@ =~= "{"@ + join(member_texts(w.members@), ","@));
        w
    }

    /// Takes one member whose value is at hand as JSON text, or an error in
    /// place of the text where its value cannot be written.
    fn put(&mut self, key: &str, text: Result<String, serde_json::Error>, Ghost(value): Ghost<FieldValue>)
        requires
            old(self).wf(),
            match text {
                Ok(t) => written(value) == Some(t@),
                Err(_) => written(value) is None,
            },
        ensures
            final(self).wf(),
            final(self).members() == old(self).members().push(Member { key: key@, value }),
    {
        let ghost before = self.members@;
        let ghost after = before.push(Member { key: key@, value });
        self.members = Ghost(after);
        if self.failed.is_some() {
            proof {
                let i = choose|i: int| 0 <= i < before.len() && (#[trigger] written(before[i].value)) is None;
                assert(after[i] == before[i]);
            }
            return ;
        }
        match text {
            Err(e) => {
                self.failed = Some(e);
                proof {
                    assert(after[before.len() as int].value == value);
                }
            },
            Ok(t) => {
                let mut part = String::from_str("\"");
                part.append(key);
                part.append("\":");
                part.append(t.as_str());
                assert(part@ =~= member_text(key@, t@));
                push_part(
                    &mut self.text,
                    !self.any,
                    ",",
                    part.as_str(),
                    Ghost("{"@),
                    Ghost(member_texts(before)),
                );
                self.any = true;
                proof {
                    assert(member_texts(after) =~= member_texts(before).push(part@));
                    assert forall|i: int| 0 <= i < after.len() implies (#[trigger] written(
                        after[i].value,
                    )) is Some by {
                        if i < before.len() {
                            assert(after[i] == before[i]);
                        }
                    }
                }
            },
        }
    }

    /// Takes a string member if it has a value.
    pub fn put_text(&mut self, key: &str, value: Option<&str>)
        requires
            old(self).wf(),
        ensures
            final(self).wf(),
            final(self).members() == old(self).members() + text_field(key@, str_view(value)),
    {
        match value {
            None => {
                assert(self.members@ + Seq::<Member>::empty() =~= self.members@);
            },
            Some(s) => {
                let literal = string_value(s);
                self.put(key, value_text(&literal), Ghost(FieldValue::Text(s@)));
                assert(old(self).members@.push(Member { key: key@, value: FieldValue::Text(s@) })
                    =~= old(self).members@ + text_field(key@, Some(s@)));
            },
        }
    }

    /// Takes a number member if it has a value.
    pub fn put_number(&mut self, key: &str, value: Option<u64>)
        requires
            old(self).wf(),
        ensures
            final(self).wf(),
            final(self).members() == old(self).members() + number_field(key@, value),
    {
        match value {
            None => {
                assert(self.members@ + Seq::<Member>::empty() =~= self.members@);
            },
            Some(n) => {
                self.put(key, Ok(decimal_string(n)), Ghost(FieldValue::Number(n)));
                assert(old(self).members@.push(Member { key: key@, value: FieldValue::Number(n) })
                    =~= old(self).members@ + number_field(key@, Some(n)));
            },
        }
    }

    /// Takes a truth value member if it has a value.
    pub fn put_flag(&mut self, key: &str, value: Option<bool>)
        requires
            old(self).wf(),
        ensures
            final(self).wf(),
            final(self).members() == old(self).members() + flag_field(key@, value),
    {
        match value {
            None => {
                assert(self.members@ + Seq::<Member>::empty() =~= self.members@);
            },
            Some(b) => {
                let text = if b {
                    String::from_str("true")
                } else {
                    String::from_str("false")
                };
                self.put(key, Ok(text), Ghost(FieldValue::Flag(b)));
                assert(old(self).members@.push(Member { key: key@, value: FieldValue::Flag(b) })
                    =~= old(self).members@ + flag_field(key@, Some(b)));
            },
        }
    }

    /// Takes a JSON member if it has a value.
    pub fn put_json(&mut self, key: &str, value: &Option<serde_json::Value>)
        requires
            old(self).wf(),
        ensures
            final(self).wf(),
            final(self).members() == old(self).members() + json_field(key@, *value),
    {
        match value {
            None => {
                assert(self.members@ + Seq::<Member>::empty() =~= self.members@);
            },
            Some(v) => {
                self.put(key, value_text(v), Ghost(FieldValue::Json(*v)));
                assert(old(self).members@.push(Member { key: key@, value: FieldValue::Json(*v) })
                    =~= old(self).members@ + json_field(key@, Some(*v)));
            },
        }
    }

    /// Takes a member whose value is an object that has been written.
    pub fn put_nested(&mut self, key: &str, text: String)
        requires
            old(self).wf(),
        ensures
            final(self).wf(),
            final(self).members() == old(self).members().push(
                Member { key: key@, value: FieldValue::Nested(text@) },
            ),
    {
        let ghost value = FieldValue::Nested(text@);
        self.put(key, Ok(text), Ghost(value));
    }

    /// Closes the object and hands out its text, or the first error.
    pub fn finish(self) -> (r: Result<String, serde_json::Error>)
        requires
            self.wf(),
        ensures
            match r {
                Ok(text) => object_text(self.members()) == Some(text@),
                Err(_) => object_text(self.members()) is None,
            },
    {
        match self.failed {
            Some(e) => Err(e),
            None => {
                let mut text = self.text;
                text.append("}");
                Ok(text)
            },
        }
    }
}

} // verus!
