//! The store's answer to a batch: one result per action, in the batch's order.
//!
//! The answer is read in two steps. `serde_json` turns the text into a JSON
//! value; the functions here walk that value and check its shape. Each says in
//! its contract which value gives which result and which error.

use vstd::prelude::*;
use vstd::string::StringExecFns;
use crate::action::ActionType;
use crate::error::{DecodeError, DecodeErrorView, EsError, Field};
use crate::json::{
    as_array, as_bool, as_object, as_str, as_u64, json_array, json_bool, json_object,
    json_parsed, json_str, json_u64, members, members_of, parse,
};
use crate::text::{decimal, push_decimal, string_view};

verus! {

/// How many shards an action reached.
#[derive(Clone, Copy, Debug, PartialEq, Eq, Structural)]
pub struct ShardCountResult {
    pub total: u64,
    pub successful: u64,
    pub failed: u64,
}

/// What the store reports of one action.
#[derive(Debug, PartialEq, Eq)]
pub struct ActionResultInner {
    pub index: String,
    pub doc_type: String,
    pub version: u64,
    pub status: u64,
    pub shards: ShardCountResult,
    pub found: bool,
}

/// The result of one action: its verb and the store's report.
#[derive(Debug, PartialEq, Eq)]
pub struct ActionResult {
    pub action: ActionType,
    pub inner: ActionResultInner,
}

/// The result of a bulk operation.
#[derive(Debug, PartialEq, Eq)]
pub struct BulkResult {
    /// Whether the store refused any action of the batch.
    pub errors: bool,
    /// One result per action, in the order of the batch.
    pub items: Vec<ActionResult>,
    /// The milliseconds that the store spent.
    pub took: u64,
}

/// The store's report of one action, with its strings as plain characters.
pub struct ActionResultInnerView {
    pub index: Seq<char>,
    pub doc_type: Seq<char>,
    pub version: u64,
    pub status: u64,
    pub shards: ShardCountResult,
    pub found: bool,
}

/// The result of one action, with its strings as plain characters.
pub struct ActionResultView {
    pub action: ActionType,
    pub inner: ActionResultInnerView,
}

/// The result of a bulk operation, with its strings as plain characters.
pub struct BulkResultView {
    pub errors: bool,
    pub items: Seq<ActionResultView>,
    pub took: u64,
}

impl View for ShardCountResult {
    type V = ShardCountResult;

    open spec fn view(&self) -> ShardCountResult {
        *self
    }
}

impl View for ActionResultInner {
    type V = ActionResultInnerView;

    open spec fn view(&self) -> ActionResultInnerView {
        ActionResultInnerView {
            index: self.index@,
            doc_type: self.doc_type@,
            version: self.version,
            status: self.status,
            shards: self.shards,
            found: self.found,
        }
    }
}

impl View for ActionResult {
    type V = ActionResultView;

    open spec fn view(&self) -> ActionResultView {
        ActionResultView { action: self.action, inner: self.inner@ }
    }
}

/// The results of a list, each with its strings as plain characters.
pub open spec fn result_views(items: Seq<ActionResult>) -> Seq<ActionResultView> {
    items.map_values(|item: ActionResult| item@)
}

impl View for BulkResult {
    type V = BulkResultView;

    open spec fn view(&self) -> BulkResultView {
        BulkResultView { errors: self.errors, items: result_views(self.items@), took: self.took }
    }
}

/// The members of a JSON object: keys and values in the object's order.
pub type Members = Seq<(Seq<char>, serde_json::Value)>;

/// What decoding gives: a value, or the reason why there is none.
pub type Decoded<T> = Result<T, DecodeErrorView>;

/// The value of the first member with this key, if there is one.
pub open spec fn lookup(members: Members, key: Seq<char>) -> Option<serde_json::Value>
    decreases members.len(),
{
    if members.len() == 0 {
        None
    } else if members[0].0 == key {
        Some(members[0].1)
    } else {
        lookup(members.skip(1), key)
    }
}

/// A member that must be there, whatever it is.
pub open spec fn any_member(members: Members, key: Seq<char>, field: Field) -> Decoded<
    serde_json::Value,
> {
    match lookup(members, key) {
        None => Err(DecodeErrorView::MissingField { field }),
        Some(v) => Ok(v),
    }
}

/// A member that must be there and be a number that fits in 64 bits.
pub open spec fn u64_member(members: Members, key: Seq<char>, field: Field) -> Decoded<u64> {
    match lookup(members, key) {
        None => Err(DecodeErrorView::MissingField { field }),
        Some(v) => match json_u64(v) {
            None => Err(DecodeErrorView::InvalidType { field }),
            Some(n) => Ok(n),
        },
    }
}

/// A member that must be there and be `true` or `false`.
pub open spec fn bool_member(members: Members, key: Seq<char>, field: Field) -> Decoded<bool> {
    match lookup(members, key) {
        None => Err(DecodeErrorView::MissingField { field }),
        Some(v) => match json_bool(v) {
            None => Err(DecodeErrorView::InvalidType { field }),
            Some(b) => Ok(b),
        },
    }
}

/// A member that must be there and be a string.
pub open spec fn str_member(members: Members, key: Seq<char>, field: Field) -> Decoded<
    Seq<char>,
> {
    match lookup(members, key) {
        None => Err(DecodeErrorView::MissingField { field }),
        Some(v) => match json_str(v) {
            None => Err(DecodeErrorView::InvalidType { field }),
            Some(s) => Ok(s),
        },
    }
}

impl ShardCountResult {
    /// What a JSON value is as a shard count: an object with the three
    /// counts. They are read in the order total, successful, failed, and the
    /// first that fails decides the error. Other members are passed over.
    pub open spec fn decoded(v: serde_json::Value) -> Decoded<ShardCountResult> {
        match json_object(v) {
            None => Err(DecodeErrorView::InvalidType { field: Field::Shards }),
            Some(members) => {
                let total = u64_member(members, "total"@, Field::ShardsTotal);
                let successful = u64_member(members, "successful"@, Field::ShardsSuccessful);
                let failed = u64_member(members, "failed"@, Field::ShardsFailed);
                if total is Err {
                    Err(total->Err_0)
                } else if successful is Err {
                    Err(successful->Err_0)
                } else if failed is Err {
                    Err(failed->Err_0)
                } else {
                    Ok(
                        ShardCountResult {
                            total: total->Ok_0,
                            successful: successful->Ok_0,
                            failed: failed->Ok_0,
                        },
                    )
                }
            },
        }
    }

    /// The member `_shards`, which must be there and be a shard count.
    pub open spec fn member(members: Members) -> Decoded<ShardCountResult> {
        match any_member(members, "_shards"@, Field::Shards) {
            Err(e) => Err(e),
            Ok(v) => Self::decoded(v),
        }
    }
}

impl ActionResultInnerView {
    /// What a JSON value is as the report of one action: an object whose
    /// members `_index`, `_type`, `_version`, `status`, `_shards` and `found`
    /// are there and of the right type. They are read in that order, and the
    /// first that fails decides the error. Other members are passed over.
    pub open spec fn decoded(v: serde_json::Value) -> Decoded<ActionResultInnerView> {
        match json_object(v) {
            None => Err(DecodeErrorView::InvalidType { field: Field::Verb }),
            Some(members) => {
                let index = str_member(members, "_index"@, Field::Index);
                let doc_type = str_member(members, "_type"@, Field::DocType);
                let version = u64_member(members, "_version"@, Field::Version);
                let status = u64_member(members, "status"@, Field::Status);
                let shards = ShardCountResult::member(members);
                let found = bool_member(members, "found"@, Field::Found);
                if index is Err {
                    Err(index->Err_0)
                } else if doc_type is Err {
                    Err(doc_type->Err_0)
                } else if version is Err {
                    Err(version->Err_0)
                } else if status is Err {
                    Err(status->Err_0)
                } else if shards is Err {
                    Err(shards->Err_0)
                } else if found is Err {
                    Err(found->Err_0)
                } else {
                    Ok(
                        ActionResultInnerView {
                            index: index->Ok_0,
                            doc_type: doc_type->Ok_0,
                            version: version->Ok_0,
                            status: status->Ok_0,
                            shards: shards->Ok_0,
                            found: found->Ok_0,
                        },
                    )
                }
            },
        }
    }
}

impl ActionResultView {
    /// What a JSON value is as the result of one action. It must be an object
    /// with exactly one member; the member's key must spell a verb; and the
    /// member's value must be a report. The three are checked in that order.
    pub open spec fn decoded(v: serde_json::Value) -> Decoded<ActionResultView> {
        match json_object(v) {
            None => Err(DecodeErrorView::InvalidType { field: Field::Item }),
            Some(members) => if members.len() != 1 {
                Err(DecodeErrorView::MissingField { field: Field::Verb })
            } else {
                match ActionType::named(members[0].0) {
                    None => Err(DecodeErrorView::UnrecognizedVerb { key: members[0].0 }),
                    Some(action) => match ActionResultInnerView::decoded(members[0].1) {
                        Err(e) => Err(e),
                        Ok(inner) => Ok(ActionResultView { action, inner }),
                    },
                }
            },
        }
    }

    /// What a list of JSON values is as a list of results: each value's
    /// result at the value's place, or the error of the first value that has
    /// none.
    pub open spec fn decoded_all(items: Seq<serde_json::Value>) -> Decoded<Seq<ActionResultView>>
        decreases items.len(),
    {
        if items.len() == 0 {
            Ok(Seq::empty())
        } else {
            match Self::decoded_all(items.drop_last()) {
                Err(e) => Err(e),
                Ok(results) => match Self::decoded(items.last()) {
                    Err(e) => Err(e),
                    Ok(result) => Ok(results.push(result)),
                },
            }
        }
    }

    /// The member `items`, which must be there and be an array of results.
    pub open spec fn member(members: Members) -> Decoded<Seq<ActionResultView>> {
        match any_member(members, "items"@, Field::Items) {
            Err(e) => Err(e),
            Ok(list) => match json_array(list) {
                None => Err(DecodeErrorView::InvalidType { field: Field::Items }),
                Some(values) => Self::decoded_all(values),
            },
        }
    }
}

impl BulkResultView {
    /// What a JSON value is as a bulk result: an object whose members
    /// `errors`, `items` and `took` are there and of the right type. They are
    /// read in that order, and the first that fails decides the error. Other
    /// members are passed over.
    pub open spec fn decoded(v: serde_json::Value) -> Decoded<BulkResultView> {
        match json_object(v) {
            None => Err(DecodeErrorView::InvalidType { field: Field::Response }),
            Some(members) => {
                let errors = bool_member(members, "errors"@, Field::Errors);
                let items = ActionResultView::member(members);
                let took = u64_member(members, "took"@, Field::Took);
                if errors is Err {
                    Err(errors->Err_0)
                } else if items is Err {
                    Err(items->Err_0)
                } else if took is Err {
                    Err(took->Err_0)
                } else {
                    Ok(
                        BulkResultView {
                            errors: errors->Ok_0,
                            items: items->Ok_0,
                            took: took->Ok_0,
                        },
                    )
                }
            },
        }
    }

    /// What the text of an answer is as a bulk result: `None` where the text
    /// is not JSON, else what its value is as a bulk result.
    pub open spec fn read(body: Seq<char>) -> Option<Decoded<BulkResultView>> {
        match json_parsed(body) {
            None => None,
            Some(v) => Some(Self::decoded(v)),
        }
    }
}

/// Whether `r` is what decoding was to give: the value whose view was
/// expected, or the error whose view was expected.
pub open spec fn decoding<T: View>(r: Result<T, DecodeError>, expected: Decoded<T::V>) -> bool {
    match r {
        Ok(x) => expected == Ok::<T::V, DecodeErrorView>(x@),
        Err(e) => expected == Err::<T::V, DecodeErrorView>(e@),
    }
}

/// Whether a status is one of the successes, 200 to 299.
pub open spec fn is_success(status: u16) -> bool {
    200 <= status < 300
}

/// The details of the error for a success that is not 200.
pub open spec fn unexpected_status(status: u16) -> Seq<char> {
    "Unexpected status: "@ + decimal(status as nat)
}

proof fn lemma_lookup_found(members: Members, key: Seq<char>, i: int)
    requires
        0 <= i < members.len(),
        members[i].0 == key,
        forall|j: int| 0 <= j < i ==> members[j].0 != key,
    ensures
        lookup(members, key) == Some(members[i].1),
    decreases i,
{
    if i > 0 {
        let rest = members.skip(1);
        assert forall|j: int| 0 <= j < i - 1 implies rest[j].0 != key by {
            assert(rest[j] == members[j + 1]);
        }
        lemma_lookup_found(rest, key, i - 1);
    }
}

proof fn lemma_lookup_absent(members: Members, key: Seq<char>)
    requires
        forall|j: int| 0 <= j < members.len() ==> members[j].0 != key,
    ensures
        lookup(members, key) is None,
    decreases members.len(),
{
    if members.len() > 0 {
        let rest = members.skip(1);
        assert forall|j: int| 0 <= j < rest.len() implies rest[j].0 != key by {
            assert(rest[j] == members[j + 1]);
        }
        lemma_lookup_absent(rest, key);
    }
}

/// The members of an object value, keys and values, in the order of its map.
fn object_members<'a>(v: &'a serde_json::Value) -> (r: Option<
    Vec<(&'a String, &'a serde_json::Value)>,
>)
    ensures
        match r {
            Some(borrowed) => json_object(*v) == Some(members_of(borrowed@)),
            None => json_object(*v) is None,
        },
{
    match as_object(v) {
        Some(map) => Some(members(map)),
        None => None,
    }
}

/// The first member with this key.
fn find<'a>(borrowed: &Vec<(&'a String, &'a serde_json::Value)>, key: &str) -> (r: Option<
    &'a serde_json::Value,
>)
    ensures
        match r {
            Some(v) => lookup(members_of(borrowed@), key@) == Some(*v),
            None => lookup(members_of(borrowed@), key@) is None,
        },
{
    let wanted = key.to_owned();
    let mut i: usize = 0;
    while i < borrowed.len()
        invariant
            i <= borrowed.len(),
            wanted@ == key@,
            forall|j: int| 0 <= j < i ==> members_of(borrowed@)[j].0 != key@,
        decreases borrowed.len() - i,
    {
        if *borrowed[i].0 == wanted {
            proof {
                lemma_lookup_found(members_of(borrowed@), key@, i as int);
            }
            return Some(borrowed[i].1);
        }
        i += 1;
    }
    proof {
        lemma_lookup_absent(members_of(borrowed@), key@);
    }
    None
}

fn read_any<'a>(borrowed: &Vec<(&'a String, &'a serde_json::Value)>, key: &str, field: Field) -> (r:
    Result<&'a serde_json::Value, DecodeError>)
    ensures
        match r {
            Ok(v) => any_member(members_of(borrowed@), key@, field) == Ok::<
                serde_json::Value,
                DecodeErrorView,
            >(*v),
            Err(e) => any_member(members_of(borrowed@), key@, field) == Err::<
                serde_json::Value,
                DecodeErrorView,
            >(e@),
        },
{
    match find(borrowed, key) {
        None => Err(DecodeError::MissingField { field }),
        Some(v) => Ok(v),
    }
}

fn read_u64(borrowed: &Vec<(&String, &serde_json::Value)>, key: &str, field: Field) -> (r: Result<
    u64,
    DecodeError,
>)
    ensures
        decoding(r, u64_member(members_of(borrowed@), key@, field)),
{
    match as_u64(read_any(borrowed, key, field)?) {
        None => Err(DecodeError::InvalidType { field }),
        Some(n) => Ok(n),
    }
}

fn read_bool(borrowed: &Vec<(&String, &serde_json::Value)>, key: &str, field: Field) -> (r: Result<
    bool,
    DecodeError,
>)
    ensures
        decoding(r, bool_member(members_of(borrowed@), key@, field)),
{
    match as_bool(read_any(borrowed, key, field)?) {
        None => Err(DecodeError::InvalidType { field }),
        Some(b) => Ok(b),
    }
}

fn read_string(borrowed: &Vec<(&String, &serde_json::Value)>, key: &str, field: Field) -> (r:
    Result<String, DecodeError>)
    ensures
        decoding(r, str_member(members_of(borrowed@), key@, field)),
{
    match as_str(read_any(borrowed, key, field)?) {
        None => Err(DecodeError::InvalidType { field }),
        Some(s) => Ok(s.to_owned()),
    }
}

impl ShardCountResult {
    /// Reads a shard count from the value of `_shards`.
    pub fn from_json(v: &serde_json::Value) -> (r: Result<ShardCountResult, DecodeError>)
        ensures
            decoding(r, Self::decoded(*v)),
    {
        let borrowed = match object_members(v) {
            None => return Err(DecodeError::InvalidType { field: Field::Shards }),
            Some(borrowed) => borrowed,
        };
        let total = read_u64(&borrowed, "total", Field::ShardsTotal)?;
        let successful = read_u64(&borrowed, "successful", Field::ShardsSuccessful)?;
        let failed = read_u64(&borrowed, "failed", Field::ShardsFailed)?;
        Ok(ShardCountResult { total, successful, failed })
    }
}

impl ActionResultInner {
    /// Reads the store's report of one action from the value under the verb.
    pub fn from_json(v: &serde_json::Value) -> (r: Result<ActionResultInner, DecodeError>)
        ensures
            decoding(r, ActionResultInnerView::decoded(*v)),
    {
        let borrowed = match object_members(v) {
            None => return Err(DecodeError::InvalidType { field: Field::Verb }),
            Some(borrowed) => borrowed,
        };
        let index = read_string(&borrowed, "_index", Field::Index)?;
        let doc_type = read_string(&borrowed, "_type", Field::DocType)?;
        let version = read_u64(&borrowed, "_version", Field::Version)?;
        let status = read_u64(&borrowed, "status", Field::Status)?;
        let shards = ShardCountResult::from_json(read_any(&borrowed, "_shards", Field::Shards)?)?;
        let found = read_bool(&borrowed, "found", Field::Found)?;
        Ok(ActionResultInner { index, doc_type, version, status, shards, found })
    }
}

impl ActionResult {
    /// Reads the result of one action from an element of `items`.
    ///
    /// The element is an object with a single member. Its key selects the
    /// verb; only then is its value read as the store's report.
    pub fn from_json(v: &serde_json::Value) -> (r: Result<ActionResult, DecodeError>)
        ensures
            decoding(r, ActionResultView::decoded(*v)),
    {
        let borrowed = match object_members(v) {
            None => return Err(DecodeError::InvalidType { field: Field::Item }),
            Some(borrowed) => borrowed,
        };
        if borrowed.len() != 1 {
            return Err(DecodeError::MissingField { field: Field::Verb });
        }
        let key: &String = borrowed[0].0;
        let action = match ActionType::parse(key.as_str()) {
            None => return Err(DecodeError::UnrecognizedVerb { key: key.clone() }),
            Some(action) => action,
        };
        let inner = ActionResultInner::from_json(borrowed[0].1)?;
        Ok(ActionResult { action, inner })
    }

    /// Reads the results of a batch from the elements of `items`, in order.
    pub fn all_from_json(values: &Vec<serde_json::Value>) -> (r: Result<
        Vec<ActionResult>,
        DecodeError,
    >)
        ensures
            match r {
                Ok(items) => ActionResultView::decoded_all(values@) == Ok::<
                    Seq<ActionResultView>,
                    DecodeErrorView,
                >(result_views(items@)),
                Err(e) => ActionResultView::decoded_all(values@) == Err::<
                    Seq<ActionResultView>,
                    DecodeErrorView,
                >(e@),
            },
    {
        let mut items: Vec<ActionResult> = Vec::new();
        let mut i: usize = 0;
        proof {
            assert(result_views(items@) =~= Seq::empty());
            assert(values@.take(0) =~= Seq::empty());
        }
        while i < values.len()
            invariant
                i <= values.len(),
                ActionResultView::decoded_all(values@.take(i as int)) == Ok::<
                    Seq<ActionResultView>,
                    DecodeErrorView,
                >(result_views(items@)),
            decreases values.len() - i,
        {
            match ActionResult::from_json(&values[i]) {
                Err(e) => {
                    proof {
                        lemma_first_error(values@, i as int);
                    }
                    return Err(e);
                },
                Ok(item) => {
                    proof {
                        let next = values@.take(i + 1);
                        assert(next.drop_last() =~= values@.take(i as int));
                        assert(next.last() == values@[i as int]);
                        assert(result_views(items@.push(item)) =~= result_views(items@).push(
                            item@,
                        ));
                    }
                    items.push(item);
                },
            }
            i += 1;
        }
        proof {
            assert(values@.take(i as int) =~= values@);
        }
        Ok(items)
    }
}

impl BulkResult {
    /// Reads a bulk result from the store's answer as a JSON value.
    ///
    /// Item `i` of the result answers action `i` of the batch: the order of
    /// `items` is kept, and nothing else relates a result to its action.
    pub fn from_json(v: &serde_json::Value) -> (r: Result<BulkResult, DecodeError>)
        ensures
            decoding(r, BulkResultView::decoded(*v)),
    {
        let borrowed = match object_members(v) {
            None => return Err(DecodeError::InvalidType { field: Field::Response }),
            Some(borrowed) => borrowed,
        };
        let errors = read_bool(&borrowed, "errors", Field::Errors)?;
        let values = match as_array(read_any(&borrowed, "items", Field::Items)?) {
            None => return Err(DecodeError::InvalidType { field: Field::Items }),
            Some(values) => values,
        };
        let items = ActionResult::all_from_json(values)?;
        let took = read_u64(&borrowed, "took", Field::Took)?;
        Ok(BulkResult { errors, items, took })
    }

    /// Whether `r` is what reading the text of an answer was to give: the
    /// error of the JSON reader where the text is not JSON, else the result
    /// or the decoding error that the value gives.
    pub open spec fn read_from(r: Result<BulkResult, EsError>, body: Seq<char>) -> bool {
        match BulkResultView::read(body) {
            None => r matches Err(EsError::JsonError { .. }),
            Some(Ok(result)) => r matches Ok(x) && x@ == result,
            Some(Err(e)) => r matches Err(EsError::DecodeError { error }) && error@ == e,
        }
    }

    /// Whether `r` is what an answer with this status and body was to give.
    pub open spec fn answered_with(r: Result<BulkResult, EsError>, status: u16, body: Seq<char>) -> bool {
        if status == 200 {
            Self::read_from(r, body)
        } else if is_success(status) {
            r matches Err(EsError::EsError { details }) && details@ == unexpected_status(status)
        } else {
            r matches Err(EsError::EsServerError { status: s, body: b }) && s == status
                && string_view(b) == Some(body)
        }
    }

    /// Reads a bulk result from the text of the store's answer.
    pub fn from_body(body: &str) -> (r: Result<BulkResult, EsError>)
        ensures
            Self::read_from(r, body@),
    {
        match parse(body) {
            Err(source) => Err(EsError::JsonError { source }),
            Ok(v) => match Self::from_json(&v) {
                Ok(result) => Ok(result),
                Err(error) => Err(EsError::DecodeError { error }),
            },
        }
    }

    /// Judges the store's answer by its status and reads it.
    ///
    /// A status outside the successes is a server error that carries the
    /// status and the raw body; the body is not read as a result. A bulk
    /// request is answered with status 200, also where the store refused some
    /// or all of its actions: those show in the result, not as an error.
    /// Another success is not an answer to a bulk request.
    pub fn from_response(status: u16, body: &str) -> (r: Result<BulkResult, EsError>)
        ensures
            Self::answered_with(r, status, body@),
    {
        if status == 200 {
            Self::from_body(body)
        } else if 200 <= status && status < 300 {
            let mut details = String::from_str("Unexpected status: ");
            push_decimal(&mut details, status as u64);
            Err(EsError::EsError { details })
        } else {
            Err(EsError::from_response(status, Some(body)))
        }
    }
}

/// Where the values before the one at `i` all have results and that one has
/// none, its error is the error of the whole list.
pub proof fn lemma_first_error(items: Seq<serde_json::Value>, i: int)
    requires
        0 <= i < items.len(),
        ActionResultView::decoded_all(items.take(i)) is Ok,
        ActionResultView::decoded(items[i]) is Err,
    ensures
        ActionResultView::decoded_all(items) == Err::<Seq<ActionResultView>, DecodeErrorView>(
            ActionResultView::decoded(items[i])->Err_0,
        ),
    decreases items.len(),
{
    if i == items.len() - 1 {
        assert(items.drop_last() =~= items.take(i));
    } else {
        assert(items.drop_last().take(i) =~= items.take(i));
        lemma_first_error(items.drop_last(), i);
    }
}

/// A list of values has results only if each value has one: a single value
/// without a result fails the list, wherever it stands.
pub proof fn lemma_one_error_fails_all(items: Seq<serde_json::Value>, i: int)
    requires
        0 <= i < items.len(),
        ActionResultView::decoded(items[i]) is Err,
    ensures
        ActionResultView::decoded_all(items) is Err,
    decreases items.len(),
{
    if i < items.len() - 1 {
        lemma_one_error_fails_all(items.drop_last(), i);
    }
}

/// The results of a list stand in the order of the values: as many results
/// as values, and the result at each place is that of the value at that
/// place.
pub proof fn lemma_results_in_order(items: Seq<serde_json::Value>)
    requires
        ActionResultView::decoded_all(items) is Ok,
    ensures
        ActionResultView::decoded_all(items)->Ok_0.len() == items.len(),
        forall|i: int|
            0 <= i < items.len() ==> ActionResultView::decoded(#[trigger] items[i]) == Ok::<
                ActionResultView,
                DecodeErrorView,
            >(ActionResultView::decoded_all(items)->Ok_0[i]),
    decreases items.len(),
{
    if items.len() > 0 {
        lemma_results_in_order(items.drop_last());
        assert forall|i: int| 0 <= i < items.len() implies ActionResultView::decoded(
            #[trigger] items[i],
        ) == Ok::<ActionResultView, DecodeErrorView>(
            ActionResultView::decoded_all(items)->Ok_0[i],
        ) by {
            if i < items.len() - 1 {
                assert(items.drop_last()[i] == items[i]);
            }
        }
    }
}

/// Whether a JSON value is an answer whose `items` holds `item` at place `i`.
pub open spec fn has_item(response: serde_json::Value, i: int, item: serde_json::Value) -> bool {
    &&& json_object(response) matches Some(members)
    &&& lookup(members, "items"@) matches Some(list)
    &&& json_array(list) matches Some(items)
    &&& 0 <= i < items.len()
    &&& items[i] == item
}

/// An item that is an object without exactly one member, be it none or two
/// or more, has no result: it fails as a missing verb. An answer that holds
/// such an item, at whatever place, is no bulk result.
pub proof fn lemma_item_needs_one_key(response: serde_json::Value, i: int, item: serde_json::Value)
    requires
        has_item(response, i, item),
        json_object(item) matches Some(members) && members.len() != 1,
    ensures
        ActionResultView::decoded(item) == Err::<ActionResultView, DecodeErrorView>(
            DecodeErrorView::MissingField { field: Field::Verb },
        ),
        BulkResultView::decoded(response) is Err,
{
    let items = json_array(lookup(json_object(response)->0, "items"@)->0)->0;
    lemma_one_error_fails_all(items, i);
}

/// An item whose single key is none of `index`, `create`, `delete` and
/// `update` has no result: it fails as an unrecognized verb, and the error
/// holds the key. An answer that holds such an item, at whatever place, is
/// no bulk result.
pub proof fn lemma_item_needs_known_verb(
    response: serde_json::Value,
    i: int,
    item: serde_json::Value,
)
    requires
        has_item(response, i, item),
        json_object(item) matches Some(members) && members.len() == 1 && members[0].0
            != ActionType::Index.name() && members[0].0 != ActionType::Create.name()
            && members[0].0 != ActionType::Delete.name() && members[0].0
            != ActionType::Update.name(),
    ensures
        ActionResultView::decoded(item) == Err::<ActionResultView, DecodeErrorView>(
            DecodeErrorView::UnrecognizedVerb { key: json_object(item)->0[0].0 },
        ),
        BulkResultView::decoded(response) is Err,
{
    let items = json_array(lookup(json_object(response)->0, "items"@)->0)->0;
    lemma_one_error_fails_all(items, i);
}

/// A text that is JSON but no bulk result is read as a decoding error, and as
/// nothing else: no result comes of it, whole or in part.
pub proof fn lemma_no_partial_result(body: Seq<char>, r: Result<BulkResult, EsError>)
    requires
        BulkResult::read_from(r, body),
        json_parsed(body) matches Some(v) && BulkResultView::decoded(v) is Err,
    ensures
        r matches Err(EsError::DecodeError { error }) && error@ == BulkResultView::decoded(
            json_parsed(body)->0,
        )->Err_0,
{
}

} // verus!
