//! The write actions of a batch and the lines that each is written as.

use vstd::prelude::*;
use vstd::string::StringExecFns;
use crate::error::EsError;
use crate::json::{json_text, value_text};
use crate::object::{
    flag_field, json_field, lemma_member_value_concat, lemma_object_of_one, member_text,
    member_value, number_field, object_text, text_field, FieldValue, Member, ObjectWriter,
};
use crate::text::{
    borrowed, lemma_unlines_one, lemma_unlines_two, push_line, same_text, string_view, unlines,
};
use crate::units::Duration;

verus! {

/// What an action asks the store to do: its verb.
#[derive(Clone, Copy, Debug, PartialEq, Eq, Structural)]
pub enum ActionType {
    Index,
    Create,
    Delete,
    Update,
}

impl ActionType {
    /// The verb as the wire format spells it.
    pub open spec fn name(self) -> Seq<char> {
        match self {
            ActionType::Index => "index"@,
            ActionType::Create => "create"@,
            ActionType::Delete => "delete"@,
            ActionType::Update => "update"@,
        }
    }

    /// The verb that a key spells, if it spells one.
    pub open spec fn named(key: Seq<char>) -> Option<ActionType> {
        if key == "index"@ {
            Some(ActionType::Index)
        } else if key == "create"@ {
            Some(ActionType::Create)
        } else if key == "delete"@ {
            Some(ActionType::Delete)
        } else if key == "update"@ {
            Some(ActionType::Update)
        } else {
            None
        }
    }

    /// The four spellings differ, so a verb is found again from its name, and
    /// a key that spells a verb is that verb's name.
    pub proof fn lemma_names(self, key: Seq<char>)
        ensures
            Self::named(self.name()) == Some(self),
            Self::named(key) == Some(self) <==> key == self.name(),
    {
        reveal_strlit("index");
        reveal_strlit("create");
        reveal_strlit("delete");
        reveal_strlit("update");
        assert("index"@[0] == 'i');
        assert("create"@[0] == 'c');
        assert("delete"@[0] == 'd');
        assert("update"@[0] == 'u');
    }

    /// The verb as the wire format spells it.
    pub fn to_string(&self) -> (s: String)
        ensures
            s@ == self.name(),
    {
        match self {
            ActionType::Index => String::from_str("index"),
            ActionType::Create => String::from_str("create"),
            ActionType::Delete => String::from_str("delete"),
            ActionType::Update => String::from_str("update"),
        }
    }

    /// The verb that `key` spells, or `None` if it spells none of the four.
    pub fn parse(key: &str) -> (r: Option<ActionType>)
        ensures
            r == Self::named(key@),
    {
        if same_text(key, "index") {
            Some(ActionType::Index)
        } else if same_text(key, "create") {
            Some(ActionType::Create)
        } else if same_text(key, "delete") {
            Some(ActionType::Delete)
        } else if same_text(key, "update") {
            Some(ActionType::Update)
        } else {
            None
        }
    }

    /// The verb that `from` spells. The caller knows that it spells one.
    pub fn from(from: &String) -> (r: ActionType)
        requires
            Self::named(from@) is Some,
        ensures
            Self::named(from@) == Some(r),
            r.name() == from@,
    {
        if same_text(from.as_str(), "index") {
            ActionType::Index
        } else if same_text(from.as_str(), "create") {
            ActionType::Create
        } else if same_text(from.as_str(), "delete") {
            ActionType::Delete
        } else {
            ActionType::Update
        }
    }
}

/// The metadata of an action: where the document lives and how it is
/// addressed. Every field may be absent.
#[derive(Debug, PartialEq, Eq)]
pub struct ActionOptions {
    index: Option<String>,
    doc_type: Option<String>,
    id: Option<String>,
    version: Option<u64>,
    routing: Option<String>,
    parent: Option<String>,
    timestamp: Option<String>,
    ttl: Option<Duration>,
    retry_on_conflict: Option<u64>,
}

/// The metadata of an action, with its strings as plain characters.
pub struct ActionOptionsView {
    pub index: Option<Seq<char>>,
    pub doc_type: Option<Seq<char>>,
    pub id: Option<Seq<char>>,
    pub version: Option<u64>,
    pub routing: Option<Seq<char>>,
    pub parent: Option<Seq<char>>,
    pub timestamp: Option<Seq<char>>,
    pub ttl: Option<Duration>,
    pub retry_on_conflict: Option<u64>,
}

impl View for ActionOptions {
    type V = ActionOptionsView;

    closed spec fn view(&self) -> ActionOptionsView {
        ActionOptionsView {
            index: string_view(self.index),
            doc_type: string_view(self.doc_type),
            id: string_view(self.id),
            version: self.version,
            routing: string_view(self.routing),
            parent: string_view(self.parent),
            timestamp: string_view(self.timestamp),
            ttl: self.ttl,
            retry_on_conflict: self.retry_on_conflict,
        }
    }
}

impl ActionOptionsView {
    /// The metadata with every field absent.
    pub open spec fn none() -> ActionOptionsView {
        ActionOptionsView {
            index: None,
            doc_type: None,
            id: None,
            version: None,
            routing: None,
            parent: None,
            timestamp: None,
            ttl: None,
            retry_on_conflict: None,
        }
    }

    /// The time to live as the store writes it, if there is one.
    pub open spec fn ttl_text(self) -> Option<Seq<char>> {
        match self.ttl {
            Some(d) => Some(d.text()),
            None => None,
        }
    }

    /// The members of the metadata object: one for each field that has a
    /// value, under its wire name, and none for a field that has no value.
    pub open spec fn members(self) -> Seq<Member> {
        text_field("_index"@, self.index) + text_field("_type"@, self.doc_type) + text_field(
            "_id"@,
            self.id,
        ) + number_field("_version"@, self.version) + text_field("_routing"@, self.routing)
            + text_field("_parent"@, self.parent) + text_field("_timestamp"@, self.timestamp)
            + text_field("_ttl"@, self.ttl_text()) + number_field(
            "_retry_on_conflict"@,
            self.retry_on_conflict,
        )
    }
}

/// A string as the value of a member, if it is there.
pub open spec fn text_value(value: Option<Seq<char>>) -> Option<FieldValue> {
    match value {
        Some(s) => Some(FieldValue::Text(s)),
        None => None,
    }
}

/// A number as the value of a member, if it is there.
pub open spec fn number_value(value: Option<u64>) -> Option<FieldValue> {
    match value {
        Some(n) => Some(FieldValue::Number(n)),
        None => None,
    }
}

/// In the list for one string field, only the field's own name finds a
/// value, and only where the field has one.
proof fn lemma_value_of_text_field(name: Seq<char>, value: Option<Seq<char>>, key: Seq<char>)
    ensures
        member_value(text_field(name, value), key) == if key == name {
            text_value(value)
        } else {
            None
        },
{
    reveal_with_fuel(member_value, 2);
    let members = text_field(name, value);
    if value is Some {
        assert(members.skip(1).len() == 0);
    }
}

/// In the list for one number field, only the field's own name finds a
/// value, and only where the field has one.
proof fn lemma_value_of_number_field(name: Seq<char>, value: Option<u64>, key: Seq<char>)
    ensures
        member_value(number_field(name, value), key) == if key == name {
            number_value(value)
        } else {
            None
        },
{
    reveal_with_fuel(member_value, 2);
    let members = number_field(name, value);
    if value is Some {
        assert(members.skip(1).len() == 0);
    }
}

/// One if the value is there, zero if not.
pub open spec fn count<T>(value: Option<T>) -> nat {
    if value is Some {
        1
    } else {
        0
    }
}

impl ActionOptionsView {
    /// The value of the field with this wire name, if the name is that of a
    /// field and the field has a value.
    pub open spec fn field(self, key: Seq<char>) -> Option<FieldValue> {
        if key == "_index"@ {
            text_value(self.index)
        } else if key == "_type"@ {
            text_value(self.doc_type)
        } else if key == "_id"@ {
            text_value(self.id)
        } else if key == "_version"@ {
            number_value(self.version)
        } else if key == "_routing"@ {
            text_value(self.routing)
        } else if key == "_parent"@ {
            text_value(self.parent)
        } else if key == "_timestamp"@ {
            text_value(self.timestamp)
        } else if key == "_ttl"@ {
            text_value(self.ttl_text())
        } else if key == "_retry_on_conflict"@ {
            number_value(self.retry_on_conflict)
        } else {
            None
        }
    }

    /// How many fields have a value.
    pub open spec fn set_count(self) -> nat {
        count(self.index) + count(self.doc_type) + count(self.id) + count(self.version) + count(
            self.routing,
        ) + count(self.parent) + count(self.timestamp) + count(self.ttl) + count(
            self.retry_on_conflict,
        )
    }

    /// The metadata object holds the fields that have a value and nothing
    /// else. Under the wire name of a field that has a value stands that
    /// value; under the name of a field that has none, and under any other
    /// key, stands nothing; and there are as many members as fields with a
    /// value, so that no key stands twice.
    pub proof fn lemma_members_are_set_fields(self, key: Seq<char>)
        ensures
            member_value(self.members(), key) == self.field(key),
            self.members().len() == self.set_count(),
    {
        reveal_strlit("_index");
        reveal_strlit("_type");
        reveal_strlit("_id");
        reveal_strlit("_version");
        reveal_strlit("_routing");
        reveal_strlit("_parent");
        reveal_strlit("_timestamp");
        reveal_strlit("_ttl");
        reveal_strlit("_retry_on_conflict");
        assert("_index"@.len() == 6 && "_type"@.len() == 5 && "_id"@.len() == 3);
        assert("_version"@.len() == 8 && "_routing"@.len() == 8 && "_parent"@.len() == 7);
        assert("_timestamp"@.len() == 10 && "_ttl"@.len() == 4);
        assert("_retry_on_conflict"@.len() == 18);
        assert("_version"@[1] == 'v' && "_routing"@[1] == 'r');
        let f1 = text_field("_index"@, self.index);
        let f2 = text_field("_type"@, self.doc_type);
        let f3 = text_field("_id"@, self.id);
        let f4 = number_field("_version"@, self.version);
        let f5 = text_field("_routing"@, self.routing);
        let f6 = text_field("_parent"@, self.parent);
        let f7 = text_field("_timestamp"@, self.timestamp);
        let f8 = text_field("_ttl"@, self.ttl_text());
        let f9 = number_field("_retry_on_conflict"@, self.retry_on_conflict);
        lemma_value_of_text_field("_index"@, self.index, key);
        lemma_value_of_text_field("_type"@, self.doc_type, key);
        lemma_value_of_text_field("_id"@, self.id, key);
        lemma_value_of_number_field("_version"@, self.version, key);
        lemma_value_of_text_field("_routing"@, self.routing, key);
        lemma_value_of_text_field("_parent"@, self.parent, key);
        lemma_value_of_text_field("_timestamp"@, self.timestamp, key);
        lemma_value_of_text_field("_ttl"@, self.ttl_text(), key);
        lemma_value_of_number_field("_retry_on_conflict"@, self.retry_on_conflict, key);
        lemma_member_value_concat(f1, f2, key);
        lemma_member_value_concat(f1 + f2, f3, key);
        lemma_member_value_concat(f1 + f2 + f3, f4, key);
        lemma_member_value_concat(f1 + f2 + f3 + f4, f5, key);
        lemma_member_value_concat(f1 + f2 + f3 + f4 + f5, f6, key);
        lemma_member_value_concat(f1 + f2 + f3 + f4 + f5 + f6, f7, key);
        lemma_member_value_concat(f1 + f2 + f3 + f4 + f5 + f6 + f7, f8, key);
        lemma_member_value_concat(f1 + f2 + f3 + f4 + f5 + f6 + f7 + f8, f9, key);
    }
}

impl Default for ActionOptions {
    fn default() -> (options: ActionOptions)
        ensures
            options@ == ActionOptionsView::none(),
    {
        ActionOptions {
            index: None,
            doc_type: None,
            id: None,
            version: None,
            routing: None,
            parent: None,
            timestamp: None,
            ttl: None,
            retry_on_conflict: None,
        }
    }
}

impl ActionOptions {
    /// The metadata object as JSON text.
    pub fn envelope(&self) -> (r: Result<String, serde_json::Error>)
        ensures
            match r {
                Ok(text) => object_text(self@.members()) == Some(text@),
                Err(_) => object_text(self@.members()) is None,
            },
    {
        let mut w = ObjectWriter::new();
        w.put_text("_index", borrowed(&self.index));
        w.put_text("_type", borrowed(&self.doc_type));
        w.put_text("_id", borrowed(&self.id));
        w.put_number("_version", self.version);
        w.put_text("_routing", borrowed(&self.routing));
        w.put_text("_parent", borrowed(&self.parent));
        w.put_text("_timestamp", borrowed(&self.timestamp));
        let ttl = match &self.ttl {
            Some(d) => Some(d.to_string()),
            None => None,
        };
        w.put_text("_ttl", borrowed(&ttl));
        w.put_number("_retry_on_conflict", self.retry_on_conflict);
        assert(w.members() =~= self@.members());
        w.finish()
    }
}

/// What an update writes: a partial document, a document to insert where
/// there is none, or a script, with what goes with them.
#[derive(Debug, PartialEq, Eq)]
pub struct ActionSource {
    doc: Option<serde_json::Value>,
    upsert: Option<serde_json::Value>,
    doc_as_upsert: Option<bool>,
    script: Option<String>,
    params: Option<serde_json::Value>,
    lang: Option<String>,
}

/// The source of an update, with its strings as plain characters.
pub struct ActionSourceView {
    pub doc: Option<serde_json::Value>,
    pub upsert: Option<serde_json::Value>,
    pub doc_as_upsert: Option<bool>,
    pub script: Option<Seq<char>>,
    pub params: Option<serde_json::Value>,
    pub lang: Option<Seq<char>>,
}

impl View for ActionSource {
    type V = ActionSourceView;

    closed spec fn view(&self) -> ActionSourceView {
        ActionSourceView {
            doc: self.doc,
            upsert: self.upsert,
            doc_as_upsert: self.doc_as_upsert,
            script: string_view(self.script),
            params: self.params,
            lang: string_view(self.lang),
        }
    }
}

impl ActionSourceView {
    /// The source with every field absent.
    pub open spec fn none() -> ActionSourceView {
        ActionSourceView {
            doc: None,
            upsert: None,
            doc_as_upsert: None,
            script: None,
            params: None,
            lang: None,
        }
    }

    /// How many of the three ways to write are chosen: a partial document, a
    /// document to insert, a script.
    pub open spec fn choices(self) -> nat {
        let doc: nat = if self.doc is Some {
            1
        } else {
            0
        };
        let upsert: nat = if self.upsert is Some {
            1
        } else {
            0
        };
        let script: nat = if self.script is Some {
            1
        } else {
            0
        };
        doc + upsert + script
    }

    /// The members of the source object: one for each field that has a
    /// value, in the order of their names.
    pub open spec fn members(self) -> Seq<Member> {
        json_field("doc"@, self.doc) + flag_field("doc_as_upsert"@, self.doc_as_upsert)
            + text_field("lang"@, self.lang) + json_field("params"@, self.params) + text_field(
            "script"@,
            self.script,
        ) + json_field("upsert"@, self.upsert)
    }
}

impl Default for ActionSource {
    fn default() -> (source: ActionSource)
        ensures
            source@ == ActionSourceView::none(),
    {
        ActionSource {
            doc: None,
            upsert: None,
            doc_as_upsert: None,
            script: None,
            params: None,
            lang: None,
        }
    }
}

impl ActionSource {
    /// A source with nothing chosen yet.
    pub fn new() -> (source: ActionSource)
        ensures
            source@ == ActionSourceView::none(),
    {
        ActionSource {
            doc: None,
            upsert: None,
            doc_as_upsert: None,
            script: None,
            params: None,
            lang: None,
        }
    }

    /// Chooses a partial document to merge into the stored one.
    pub fn with_doc(self, val: serde_json::Value) -> (source: ActionSource)
        ensures
            source@ == (ActionSourceView { doc: Some(val), ..self@ }),
    {
        let mut source = self;
        source.doc = Some(val);
        source
    }

    /// Chooses a document to insert where none is stored.
    pub fn with_upsert(self, val: serde_json::Value) -> (source: ActionSource)
        ensures
            source@ == (ActionSourceView { upsert: Some(val), ..self@ }),
    {
        let mut source = self;
        source.upsert = Some(val);
        source
    }

    /// Says whether the partial document is inserted where none is stored.
    pub fn with_doc_as_upsert(self, val: bool) -> (source: ActionSource)
        ensures
            source@ == (ActionSourceView { doc_as_upsert: Some(val), ..self@ }),
    {
        let mut source = self;
        source.doc_as_upsert = Some(val);
        source
    }

    /// Chooses a script that changes the stored document.
    pub fn with_script(self, val: &str) -> (source: ActionSource)
        ensures
            source@ == (ActionSourceView { script: Some(val@), ..self@ }),
    {
        let mut source = self;
        source.script = Some(val.to_owned());
        source
    }

    /// Gives the script its parameters.
    pub fn with_params(self, val: serde_json::Value) -> (source: ActionSource)
        ensures
            source@ == (ActionSourceView { params: Some(val), ..self@ }),
    {
        let mut source = self;
        source.params = Some(val);
        source
    }

    /// Names the language of the script.
    pub fn with_lang(self, val: &str) -> (source: ActionSource)
        ensures
            source@ == (ActionSourceView { lang: Some(val@), ..self@ }),
    {
        let mut source = self;
        source.lang = Some(val.to_owned());
        source
    }

    /// Whether exactly one way to write is chosen.
    pub fn is_unambiguous(&self) -> (r: bool)
        ensures
            r == (self@.choices() == 1),
    {
        let mut chosen: u8 = 0;
        if self.doc.is_some() {
            chosen = chosen + 1;
        }
        if self.upsert.is_some() {
            chosen = chosen + 1;
        }
        if self.script.is_some() {
            chosen = chosen + 1;
        }
        chosen == 1
    }

    /// The source object as JSON text.
    pub fn to_json(&self) -> (r: Result<String, serde_json::Error>)
        ensures
            match r {
                Ok(text) => object_text(self@.members()) == Some(text@),
                Err(_) => object_text(self@.members()) is None,
            },
    {
        let mut w = ObjectWriter::new();
        w.put_json("doc", &self.doc);
        w.put_flag("doc_as_upsert", self.doc_as_upsert);
        w.put_text("lang", borrowed(&self.lang));
        w.put_json("params", &self.params);
        w.put_text("script", borrowed(&self.script));
        w.put_json("upsert", &self.upsert);
        assert(w.members() =~= self@.members());
        w.finish()
    }
}

/// What an action carries besides its metadata. The verb and the payload go
/// together, so that a delete cannot hold a document.
#[derive(Debug, PartialEq, Eq)]
enum Body {
    Index(serde_json::Value),
    Create(serde_json::Value),
    Delete,
    Update(ActionSource),
}

/// What an action carries besides its metadata, with strings as plain
/// characters.
pub enum BodyView {
    /// Store the document, whether or not one is stored under the id.
    Index(serde_json::Value),
    /// Store the document if none is stored under the id.
    Create(serde_json::Value),
    /// Remove the document.
    Delete,
    /// Change the stored document.
    Update(ActionSourceView),
}

/// One write intent of a batch, with its strings as plain characters.
pub struct ActionView {
    pub options: ActionOptionsView,
    pub body: BodyView,
}

/// One write intent of a batch: a verb, the metadata, and for all verbs but
/// delete a payload.
#[derive(Debug, PartialEq, Eq)]
pub struct Action {
    options: ActionOptions,
    body: Body,
}

impl View for Action {
    type V = ActionView;

    closed spec fn view(&self) -> ActionView {
        ActionView {
            options: self.options@,
            body: match self.body {
                Body::Index(document) => BodyView::Index(document),
                Body::Create(document) => BodyView::Create(document),
                Body::Delete => BodyView::Delete,
                Body::Update(source) => BodyView::Update(source@),
            },
        }
    }
}

/// The details of the error for an update that does not choose exactly one
/// way to write.
pub open spec fn ambiguous_update() -> Seq<char> {
    "an update takes exactly one of doc, upsert and script"@
}

impl ActionView {
    /// The verb of the action.
    pub open spec fn kind(self) -> ActionType {
        match self.body {
            BodyView::Index(_) => ActionType::Index,
            BodyView::Create(_) => ActionType::Create,
            BodyView::Delete => ActionType::Delete,
            BodyView::Update(_) => ActionType::Update,
        }
    }

    /// An update chooses exactly one way to write. The other verbs ask for
    /// nothing: their payload is there or not by their shape.
    pub open spec fn valid(self) -> bool {
        self.body matches BodyView::Update(source) ==> source.choices() == 1
    }

    /// The members of the command object, given the metadata object's text:
    /// the verb as the only key, the metadata as its value.
    pub open spec fn command_members(self, envelope: Seq<char>) -> Seq<Member> {
        seq![Member { key: self.kind().name(), value: FieldValue::Nested(envelope) }]
    }

    /// The command line: `{"<verb>":{<metadata>}}`. `None` where a string of
    /// the metadata cannot be written.
    pub open spec fn command(self) -> Option<Seq<char>> {
        match object_text(self.options.members()) {
            Some(envelope) => object_text(self.command_members(envelope)),
            None => None,
        }
    }

    /// Whether a payload line follows the command line.
    pub open spec fn has_payload(self) -> bool {
        !(self.body is Delete)
    }

    /// The payload line of an action that has one: the document's own JSON
    /// text, or the source object of an update. `None` where it cannot be
    /// written.
    pub open spec fn payload(self) -> Option<Seq<char>> {
        match self.body {
            BodyView::Index(document) => json_text(document),
            BodyView::Create(document) => json_text(document),
            BodyView::Delete => None,
            BodyView::Update(source) => object_text(source.members()),
        }
    }

    /// The lines of the action: the command line, then the payload line if
    /// the action has a payload. `None` where one of them cannot be written.
    pub open spec fn lines(self) -> Option<Seq<Seq<char>>> {
        match self.command() {
            None => None,
            Some(command) => if self.has_payload() {
                match self.payload() {
                    Some(payload) => Some(seq![command, payload]),
                    None => None,
                }
            } else {
                Some(seq![command])
            },
        }
    }

    /// The action as it stands in the request body: its lines, each followed
    /// by a line feed.
    pub open spec fn encoded(self) -> Option<Seq<char>> {
        match self.lines() {
            Some(lines) => Some(unlines(lines)),
            None => None,
        }
    }
}

impl ActionView {
    /// The command object has exactly one key, and the key is the verb: the
    /// command line is `{"<verb>":<metadata>}`.
    pub proof fn lemma_command_has_one_key(self, envelope: Seq<char>)
        ensures
            self.command_members(envelope).len() == 1,
            self.command_members(envelope)[0].key == self.kind().name(),
            object_text(self.command_members(envelope)) == Some(
                "{"@ + "\""@ + self.kind().name() + "\":"@ + envelope + "}"@,
            ),
    {
        lemma_object_of_one(self.kind().name(), FieldValue::Nested(envelope));
        assert("{"@ + member_text(self.kind().name(), envelope) + "}"@ =~= "{"@ + "\""@
            + self.kind().name() + "\":"@ + envelope + "}"@);
    }

    /// A delete is written as its command line alone. An index or a create
    /// is written as its command line and, right behind it, one payload
    /// line, which is the document's own JSON text; an update as its command
    /// line and its source object.
    pub proof fn lemma_lines_of_action(self)
        requires
            self.lines() is Some,
        ensures
            self.command() is Some,
            self.lines()->0[0] == self.command()->0,
            match self.body {
                BodyView::Delete => self.lines()->0 == seq![self.command()->0],
                BodyView::Index(document) => json_text(document) is Some && self.lines()->0
                    == seq![self.command()->0, json_text(document)->0],
                BodyView::Create(document) => json_text(document) is Some && self.lines()->0
                    == seq![self.command()->0, json_text(document)->0],
                BodyView::Update(source) => object_text(source.members()) is Some
                    && self.lines()->0 == seq![
                    self.command()->0,
                    object_text(source.members())->0,
                ],
            },
            self.lines()->0.len() == 1 + count_payload(self),
    {
    }
}

/// One for an action with a payload, zero for one without.
pub open spec fn count_payload(action: ActionView) -> nat {
    if action.has_payload() {
        1
    } else {
        0
    }
}

impl Action {
    #[verifier::type_invariant]
    spec fn well_formed(self) -> bool {
        self@.valid()
    }

    /// An index action.
    ///
    /// Takes the document to be indexed; the metadata can be set on the
    /// action that is returned.
    pub fn index(document: serde_json::Value) -> (action: Action)
        ensures
            action@ == (ActionView {
                options: ActionOptionsView::none(),
                body: BodyView::Index(document),
            }),
    {
        Action { options: ActionOptions::default(), body: Body::Index(document) }
    }

    /// A create action.
    ///
    /// Takes the document to be stored; the metadata can be set on the
    /// action that is returned.
    pub fn create(document: serde_json::Value) -> (action: Action)
        ensures
            action@ == (ActionView {
                options: ActionOptionsView::none(),
                body: BodyView::Create(document),
            }),
    {
        Action { options: ActionOptions::default(), body: Body::Create(document) }
    }

    /// A delete action for the document with this id.
    pub fn delete(id: &str) -> (action: Action)
        ensures
            action@ == (ActionView {
                options: ActionOptionsView { id: Some(id@), ..ActionOptionsView::none() },
                body: BodyView::Delete,
            }),
    {
        let mut options = ActionOptions::default();
        options.id = Some(id.to_owned());
        Action { options, body: Body::Delete }
    }

    /// An update action for the document with this id.
    ///
    /// The source must choose exactly one way to write: a partial document,
    /// a document to insert, or a script. Any other source is refused here,
    /// before a batch is built from the action.
    pub fn update(id: &str, update: ActionSource) -> (r: Result<Action, EsError>)
        ensures
            match r {
                Ok(action) => update@.choices() == 1 && action@ == (ActionView {
                    options: ActionOptionsView { id: Some(id@), ..ActionOptionsView::none() },
                    body: BodyView::Update(update@),
                }),
                Err(e) => update@.choices() != 1 && (e matches EsError::EsError { details }
                    && details@ == ambiguous_update()),
            },
    {
        if !update.is_unambiguous() {
            return Err(
                EsError::EsError {
                    details: String::from_str(
                        "an update takes exactly one of doc, upsert and script",
                    ),
                },
            );
        }
        let mut options = ActionOptions::default();
        options.id = Some(id.to_owned());
        Ok(Action { options, body: Body::Update(update) })
    }

    /// Sets the index that the document lives in.
    pub fn with_index(self, val: &str) -> (action: Action)
        ensures
            action@ == (ActionView {
                options: ActionOptionsView { index: Some(val@), ..self@.options },
                body: self@.body,
            }),
    {
        proof {
            use_type_invariant(&self);
        }
        let mut action = self;
        action.options.index = Some(val.to_owned());
        action
    }

    /// Sets the document's type.
    pub fn with_doc_type(self, val: &str) -> (action: Action)
        ensures
            action@ == (ActionView {
                options: ActionOptionsView { doc_type: Some(val@), ..self@.options },
                body: self@.body,
            }),
    {
        proof {
            use_type_invariant(&self);
        }
        let mut action = self;
        action.options.doc_type = Some(val.to_owned());
        action
    }

    /// Sets the document's id.
    pub fn with_id(self, val: &str) -> (action: Action)
        ensures
            action@ == (ActionView {
                options: ActionOptionsView { id: Some(val@), ..self@.options },
                body: self@.body,
            }),
    {
        proof {
            use_type_invariant(&self);
        }
        let mut action = self;
        action.options.id = Some(val.to_owned());
        action
    }

    /// Sets the version that the stored document is expected to have.
    pub fn with_version(self, val: u64) -> (action: Action)
        ensures
            action@ == (ActionView {
                options: ActionOptionsView { version: Some(val), ..self@.options },
                body: self@.body,
            }),
    {
        proof {
            use_type_invariant(&self);
        }
        let mut action = self;
        action.options.version = Some(val);
        action
    }

    /// Sets the routing key.
    pub fn with_routing(self, val: &str) -> (action: Action)
        ensures
            action@ == (ActionView {
                options: ActionOptionsView { routing: Some(val@), ..self@.options },
                body: self@.body,
            }),
    {
        proof {
            use_type_invariant(&self);
        }
        let mut action = self;
        action.options.routing = Some(val.to_owned());
        action
    }

    /// Sets the id of the parent document.
    pub fn with_parent(self, val: &str) -> (action: Action)
        ensures
            action@ == (ActionView {
                options: ActionOptionsView { parent: Some(val@), ..self@.options },
                body: self@.body,
            }),
    {
        proof {
            use_type_invariant(&self);
        }
        let mut action = self;
        action.options.parent = Some(val.to_owned());
        action
    }

    /// Sets the document's timestamp.
    pub fn with_timestamp(self, val: &str) -> (action: Action)
        ensures
            action@ == (ActionView {
                options: ActionOptionsView { timestamp: Some(val@), ..self@.options },
                body: self@.body,
            }),
    {
        proof {
            use_type_invariant(&self);
        }
        let mut action = self;
        action.options.timestamp = Some(val.to_owned());
        action
    }

    /// Sets the time that the document is to live.
    pub fn with_ttl(self, val: Duration) -> (action: Action)
        ensures
            action@ == (ActionView {
                options: ActionOptionsView { ttl: Some(val), ..self@.options },
                body: self@.body,
            }),
    {
        proof {
            use_type_invariant(&self);
        }
        let mut action = self;
        action.options.ttl = Some(val);
        action
    }

    /// Sets how often an update is tried again after a conflict.
    pub fn with_retry_on_conflict(self, val: u64) -> (action: Action)
        ensures
            action@ == (ActionView {
                options: ActionOptionsView { retry_on_conflict: Some(val), ..self@.options },
                body: self@.body,
            }),
    {
        proof {
            use_type_invariant(&self);
        }
        let mut action = self;
        action.options.retry_on_conflict = Some(val);
        action
    }

    /// The verb of the action.
    pub fn action_type(&self) -> (kind: ActionType)
        ensures
            kind == self@.kind(),
    {
        match &self.body {
            Body::Index(_) => ActionType::Index,
            Body::Create(_) => ActionType::Create,
            Body::Delete => ActionType::Delete,
            Body::Update(_) => ActionType::Update,
        }
    }

    /// The metadata of the action.
    pub fn options(&self) -> (options: &ActionOptions)
        ensures
            options@ == self@.options,
    {
        &self.options
    }

    /// The document of an index or a create; `None` for the other verbs.
    pub fn document(&self) -> (document: Option<&serde_json::Value>)
        ensures
            match document {
                Some(d) => self@.body == BodyView::Index(*d) || self@.body == BodyView::Create(*d),
                None => self@.body is Delete || self@.body is Update,
            },
    {
        match &self.body {
            Body::Index(document) => Some(document),
            Body::Create(document) => Some(document),
            Body::Delete => None,
            Body::Update(_) => None,
        }
    }

    /// The source of an update, which chooses exactly one way to write;
    /// `None` for the other verbs.
    pub fn source(&self) -> (source: Option<&ActionSource>)
        ensures
            self@.valid(),
            match source {
                Some(s) => self@.body == BodyView::Update(s@) && s@.choices() == 1,
                None => !(self@.body is Update),
            },
    {
        proof {
            use_type_invariant(self);
        }
        match &self.body {
            Body::Update(source) => Some(source),
            Body::Index(_) => None,
            Body::Create(_) => None,
            Body::Delete => None,
        }
    }

    /// The command line of the action.
    pub fn command(&self) -> (r: Result<String, serde_json::Error>)
        ensures
            match r {
                Ok(text) => self@.command() == Some(text@),
                Err(_) => self@.command() is None,
            },
    {
        let envelope = self.options.envelope()?;
        let mut w = ObjectWriter::new();
        let verb = self.action_type().to_string();
        w.put_nested(verb.as_str(), envelope);
        assert(w.members() =~= self@.command_members(envelope@));
        w.finish()
    }

    /// The payload line of the action, if it has one.
    pub fn payload(&self) -> (r: Result<Option<String>, serde_json::Error>)
        ensures
            match r {
                Ok(Some(text)) => self@.has_payload() && self@.payload() == Some(text@),
                Ok(None) => !self@.has_payload(),
                Err(_) => self@.has_payload() && self@.payload() is None,
            },
    {
        match &self.body {
            Body::Delete => Ok(None),
            Body::Index(document) => Ok(Some(value_text(document)?)),
            Body::Create(document) => Ok(Some(value_text(document)?)),
            Body::Update(source) => Ok(Some(source.to_json()?)),
        }
    }

    /// Adds the lines of this action to a text, or leaves the text as it
    /// was and hands out the error where the action cannot be written.
    pub(crate) fn write(&self, out: &mut String) -> (r: Result<(), serde_json::Error>)
        ensures
            match r {
                Ok(_) => self@.encoded() matches Some(text) && final(out)@ == old(out)@ + text,
                Err(_) => self@.encoded() is None && final(out)@ == old(out)@,
            },
    {
        let command = self.command()?;
        let payload = self.payload()?;
        push_line(out, command.as_str());
        match payload {
            Some(text) => {
                push_line(out, text.as_str());
                proof {
                    lemma_unlines_two(command@, text@);
                    assert(out@ =~= old(out)@ + unlines(seq![command@, text@]));
                }
            },
            None => {
                proof {
                    lemma_unlines_one(command@);
                    assert(out@ =~= old(out)@ + unlines(seq![command@]));
                }
            },
        }
        Ok(())
    }

    /// Adds the lines of this action to the request body.
    ///
    /// Where the action cannot be written, the body is left as it was, and
    /// the error says why.
    pub fn add(&self, actstr: &mut String) -> (r: Result<(), EsError>)
        ensures
            match r {
                Ok(_) => self@.encoded() matches Some(text) && final(actstr)@ == old(actstr)@
                    + text,
                Err(e) => self@.encoded() is None && e is JsonError && final(actstr)@ == old(
                    actstr,
                )@,
            },
    {
        match self.write(actstr) {
            Ok(_) => Ok(()),
            Err(source) => Err(EsError::JsonError { source }),
        }
    }
}

/// The actions of a list, each with its strings as plain characters.
pub open spec fn action_views(actions: Seq<Action>) -> Seq<ActionView> {
    actions.map_values(|action: Action| action@)
}

} // verus!
