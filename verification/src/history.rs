//! Switching the active leaf of a session's history.
//!
//! A history operation names its target in one flat object. Fences that are
//! left out differ from fences that are given as `null` or as empty: the former
//! ask for nothing, the latter for an empty history.
use vstd::prelude::*;

use crate::interop::{
    self, decode_bool, decode_i64, decode_nullable, decode_string, decode_strings, object_keys,
};
use crate::json::{self, Json, JsonObject, JsonView};
use crate::records;
use crate::text::{self, same};
use crate::types::RpcError;

verus! {

/// A field that must be there and may be `null`.
#[derive(Debug, PartialEq, Eq)]
pub enum RequiredNullableString {
    String(String),
    Null,
}

impl RequiredNullableString {
    pub fn into_option(self) -> (r: Option<String>)
        ensures
            r == (match self {
                RequiredNullableString::String(value) => Some(value),
                RequiredNullableString::Null => None,
            }),
    {
        match self {
            RequiredNullableString::String(value) => Some(value),
            RequiredNullableString::Null => None,
        }
    }

    /// Takes a string or `null`.
    pub fn decode(value: &Json) -> (r: Result<RequiredNullableString, RpcError>)
        ensures
            match value@ {
                JsonView::Text(s) => r matches Ok(RequiredNullableString::String(t)) && t@ == s,
                JsonView::Null => r matches Ok(RequiredNullableString::Null),
                _ => r matches Err(e) && e@ == ("invalid_params"@, unmatched_message()),
            },
    {
        match value {
            Json::Text(s) => Ok(RequiredNullableString::String(s.clone())),
            Json::Null => Ok(RequiredNullableString::Null),
            _ => Err(
                RpcError::new(
                    "invalid_params",
                    "data did not match any variant of untagged enum RequiredNullableString",
                ),
            ),
        }
    }
}

pub open spec fn unmatched_message() -> Seq<char> {
    "data did not match any variant of untagged enum RequiredNullableString"@
}

/// The target of a history operation.
#[derive(Debug, PartialEq, Eq)]
pub struct ParsedHistoryTarget {
    pub session_id: String,
    pub leaf_id: Option<String>,
    pub expected_active_leaf_id: Option<Option<String>>,
    pub expected_transcript_revision: Option<i64>,
    pub active_branch_entry_ids: Option<Vec<String>>,
}

/// The view of a target.
pub ghost struct TargetView {
    pub session_id: Seq<char>,
    pub leaf_id: Option<Seq<char>>,
    pub expected_active_leaf_id: Option<Option<Seq<char>>>,
    pub expected_transcript_revision: Option<i64>,
    pub active_branch_entry_ids: Option<Seq<Seq<char>>>,
}

pub open spec fn strings_view(v: Option<Vec<String>>) -> Option<Seq<Seq<char>>> {
    match v {
        Some(items) => Some(items@.map_values(|s: String| s@)),
        None => None,
    }
}

impl View for ParsedHistoryTarget {
    type V = TargetView;

    open spec fn view(&self) -> TargetView {
        TargetView {
            session_id: self.session_id@,
            leaf_id: records::opt_view(self.leaf_id),
            expected_active_leaf_id: match self.expected_active_leaf_id {
                Some(expected) => Some(records::opt_view(expected)),
                None => None,
            },
            expected_transcript_revision: self.expected_transcript_revision,
            active_branch_entry_ids: strings_view(self.active_branch_entry_ids),
        }
    }
}

// ---------------------------------------------------------------------------
// Decoding

/// A field that is left out, or decodes, or is refused with a message.
pub ghost enum Field<T> {
    Absent,
    Given(T),
    Refused(Seq<char>),
}

pub open spec fn text_field(o: Map<Seq<char>, JsonView>, key: Seq<char>) -> Field<Seq<char>> {
    if !o.contains_key(key) {
        Field::Absent
    } else {
        match o[key] {
            JsonView::Text(s) => Field::Given(s),
            other => Field::Refused(interop::string_refusal(other)),
        }
    }
}

pub open spec fn leaf_field(o: Map<Seq<char>, JsonView>, key: Seq<char>) -> Field<Option<Seq<char>>> {
    if !o.contains_key(key) {
        Field::Absent
    } else {
        match o[key] {
            JsonView::Text(s) => Field::Given(Some(s)),
            JsonView::Null => Field::Given(None),
            _ => Field::Refused(unmatched_message()),
        }
    }
}

pub open spec fn nullable_field(o: Map<Seq<char>, JsonView>, key: Seq<char>) -> Field<
    Option<Seq<char>>,
> {
    if !o.contains_key(key) {
        Field::Absent
    } else {
        match o[key] {
            JsonView::Text(s) => Field::Given(Some(s)),
            JsonView::Null => Field::Given(None),
            other => Field::Refused(interop::nullable_refusal(other)),
        }
    }
}

pub open spec fn i64_field(o: Map<Seq<char>, JsonView>, key: Seq<char>) -> Field<i64> {
    if !o.contains_key(key) {
        Field::Absent
    } else {
        match interop::i64_of(o[key]) {
            Some(i) => Field::Given(i),
            None => Field::Refused(interop::i64_refusal(o[key])),
        }
    }
}

pub open spec fn bool_field(o: Map<Seq<char>, JsonView>, key: Seq<char>) -> Field<bool> {
    if !o.contains_key(key) {
        Field::Absent
    } else {
        match o[key] {
            JsonView::Bool(b) => Field::Given(b),
            other => Field::Refused(interop::bool_refusal(other)),
        }
    }
}

pub open spec fn strings_field(o: Map<Seq<char>, JsonView>, key: Seq<char>) -> Field<Seq<Seq<char>>> {
    if !o.contains_key(key) {
        Field::Absent
    } else {
        match interop::strings_of(o[key]) {
            Some(items) => Field::Given(items),
            None => Field::Refused(interop::strings_refusal(o[key])),
        }
    }
}

pub open spec fn given<T>(field: Field<T>) -> Option<T> {
    match field {
        Field::Given(v) => Some(v),
        _ => None,
    }
}

/// What the fields of a target come to: the first that is refused, in the order
/// of their names, then a missing session, then a missing leaf.
pub open spec fn target_outcome(o: Map<Seq<char>, JsonView>) -> Result<TargetView, Seq<char>> {
    let branch = strings_field(o, "active_branch_entry_ids"@);
    let expected = nullable_field(o, "expected_active_leaf_id"@);
    let revision = i64_field(o, "expected_transcript_revision"@);
    let leaf = leaf_field(o, "leaf_id"@);
    let session = text_field(o, "session_id"@);
    if branch is Refused {
        Err(branch->Refused_0)
    } else if expected is Refused {
        Err(expected->Refused_0)
    } else if revision is Refused {
        Err(revision->Refused_0)
    } else if leaf is Refused {
        Err(leaf->Refused_0)
    } else if session is Refused {
        Err(session->Refused_0)
    } else if session is Absent {
        Err("missing field `session_id`"@)
    } else if leaf is Absent {
        Err("missing field `leaf_id`"@)
    } else {
        Ok(
            TargetView {
                session_id: session->Given_0,
                leaf_id: leaf->Given_0,
                expected_active_leaf_id: given(expected),
                expected_transcript_revision: given(revision),
                active_branch_entry_ids: given(branch),
            },
        )
    }
}

/// The outcome is this target, or this refusal of the parameters.
pub open spec fn target_comes_to(
    r: Result<ParsedHistoryTarget, RpcError>,
    outcome: Result<TargetView, Seq<char>>,
) -> bool {
    match outcome {
        Ok(target) => r matches Ok(t) && t@ == target,
        Err(message) => r matches Err(e) && e@ == ("invalid_params"@, message),
    }
}

fn refused_field<T>(message: String) -> (r: Result<T, RpcError>)
    ensures
        r is Err,
        r->Err_0@ == ("invalid_params"@, message@),
{
    Err(RpcError::with_message("invalid_params", message))
}

fn decode_target(o: &JsonObject) -> (r: Result<ParsedHistoryTarget, RpcError>)
    ensures
        target_comes_to(r, target_outcome(o@)),
{
    let active_branch_entry_ids = match o.get("active_branch_entry_ids") {
        Some(value) => match decode_strings(&value) {
            Ok(items) => Some(items),
            Err(message) => {
                return refused_field(message);
            },
        },
        None => None,
    };
    let expected_active_leaf_id = match o.get("expected_active_leaf_id") {
        Some(value) => match decode_nullable(&value) {
            Ok(leaf) => Some(leaf),
            Err(message) => {
                return refused_field(message);
            },
        },
        None => None,
    };
    let expected_transcript_revision = match o.get("expected_transcript_revision") {
        Some(value) => match decode_i64(&value) {
            Ok(revision) => Some(revision),
            Err(message) => {
                return refused_field(message);
            },
        },
        None => None,
    };
    let leaf_id = match o.get("leaf_id") {
        Some(value) => match RequiredNullableString::decode(&value) {
            Ok(leaf) => Some(leaf),
            Err(e) => {
                return Err(e);
            },
        },
        None => None,
    };
    let session_id = match o.get("session_id") {
        Some(value) => match decode_string(&value) {
            Ok(id) => id,
            Err(message) => {
                return refused_field(message);
            },
        },
        None => {
            return Err(RpcError::new("invalid_params", "missing field `session_id`"));
        },
    };
    let leaf_id = match leaf_id {
        Some(leaf) => leaf.into_option(),
        None => {
            return Err(RpcError::new("invalid_params", "missing field `leaf_id`"));
        },
    };
    Ok(
        ParsedHistoryTarget {
            session_id,
            leaf_id,
            expected_active_leaf_id,
            expected_transcript_revision,
            active_branch_entry_ids,
        },
    )
}

/// The fields that every history operation takes.
pub open spec fn common_field(key: Seq<char>) -> bool {
    ||| key == "session_id"@
    ||| key == "leaf_id"@
    ||| key == "expected_active_leaf_id"@
    ||| key == "expected_transcript_revision"@
    ||| key == "active_branch_entry_ids"@
}

pub open spec fn operation_field(operation_fields: Seq<&str>, key: Seq<char>) -> bool {
    exists|i: int| 0 <= i < operation_fields.len() && (#[trigger] operation_fields[i])@ == key
}

/// A key that the operation does not take.
pub open spec fn unknown_field(
    o: Map<Seq<char>, JsonView>,
    operation_fields: Seq<&str>,
    key: Seq<char>,
) -> bool {
    o.contains_key(key) && !common_field(key) && !operation_field(operation_fields, key)
}

/// The least of the keys that the operation does not take.
pub open spec fn least_unknown(
    o: Map<Seq<char>, JsonView>,
    operation_fields: Seq<&str>,
    key: Seq<char>,
) -> bool {
    &&& unknown_field(o, operation_fields, key)
    &&& forall|other: Seq<char>| #[trigger]
        unknown_field(o, operation_fields, other) && other != key ==> text::precedes(key, other)
}

/// The least key that the operation does not take, where there is one.
pub open spec fn first_unknown(o: Map<Seq<char>, JsonView>, operation_fields: Seq<&str>) -> Option<
    Seq<char>,
> {
    if exists|key: Seq<char>| unknown_field(o, operation_fields, key) {
        Some(choose|key: Seq<char>| least_unknown(o, operation_fields, key))
    } else {
        None
    }
}

/// There is but one least key that the operation does not take.
pub proof fn lemma_first_unknown(
    o: Map<Seq<char>, JsonView>,
    operation_fields: Seq<&str>,
    key: Seq<char>,
)
    requires
        least_unknown(o, operation_fields, key),
    ensures
        first_unknown(o, operation_fields) == Some(key),
{
    let chosen = choose|k: Seq<char>| least_unknown(o, operation_fields, k);
    assert(unknown_field(o, operation_fields, key));
    assert(unknown_field(o, operation_fields, chosen));
    text::lemma_precedes_one_way(key, chosen);
}

fn takes_field(operation_fields: &[&str], key: &str) -> (r: bool)
    ensures
        r == (common_field(key@) || operation_field(operation_fields@, key@)),
{
    if same(key, "session_id") || same(key, "leaf_id") || same(key, "expected_active_leaf_id")
        || same(key, "expected_transcript_revision") || same(key, "active_branch_entry_ids") {
        return true;
    }
    let mut i: usize = 0;
    while i < operation_fields.len()
        invariant
            i <= operation_fields.len(),
            forall|j: int| 0 <= j < i ==> (#[trigger] operation_fields@[j])@ != key@,
        decreases operation_fields.len() - i,
    {
        if same(operation_fields[i], key) {
            assert(operation_fields@[i as int]@ == key@);
            return true;
        }
        i += 1;
    }
    false
}

fn find_unknown(o: &JsonObject, operation_fields: &[&str]) -> (r: Option<String>)
    ensures
        records::opt_view(r) == first_unknown(o@, operation_fields@),
{
    let keys = object_keys(&o.map);
    let mut i: usize = 0;
    while i < keys.len()
        invariant
            i <= keys.len(),
            forall|j: int|
                0 <= j < i ==> !unknown_field(o@, operation_fields@, (#[trigger] keys@[j])@),
            forall|j: int| 0 <= j < keys@.len() ==> o@.contains_key((#[trigger] keys@[j])@),
            forall|key: Seq<char>| #[trigger]
                o@.contains_key(key) ==> exists|j: int|
                    0 <= j < keys@.len() && (#[trigger] keys@[j])@ == key,
            forall|j: int, k: int|
                0 <= j < k < keys@.len() ==> text::precedes(
                    (#[trigger] keys@[j])@,
                    (#[trigger] keys@[k])@,
                ),
        decreases keys.len() - i,
    {
        if !takes_field(operation_fields, keys[i].as_str()) {
            proof {
                let key = keys@[i as int]@;
                assert forall|other: Seq<char>| #[trigger]
                    unknown_field(o@, operation_fields@, other) && other
                        != key implies text::precedes(key, other) by {
                    let j = choose|j: int| 0 <= j < keys@.len() && (#[trigger] keys@[j])@ == other;
                    assert(keys@[j]@ == other);
                }
                lemma_first_unknown(o@, operation_fields@, key);
            }
            return Some(keys[i].clone());
        }
        i += 1;
    }
    None
}

/// What the parameters of a history operation come to.
pub open spec fn params_outcome(params: JsonView, operation_fields: Seq<&str>) -> Result<
    TargetView,
    Seq<char>,
> {
    match params {
        JsonView::Object(o) => match first_unknown(o, operation_fields) {
            Some(field) => Err("unknown field `"@ + field + "`"@),
            None => target_outcome(o),
        },
        _ => Err("params must be an object"@),
    }
}

/// Reads the target of a history operation. Common fields and those of the
/// operation share one object; any other field is refused.
pub fn parse_history_target(params: &Json, operation_fields: &[&str]) -> (r: Result<
    ParsedHistoryTarget,
    RpcError,
>)
    ensures
        target_comes_to(r, params_outcome(params@, operation_fields@)),
{
    match params {
        Json::Object(o) => match find_unknown(o, operation_fields) {
            Some(field) => Err(
                RpcError::with_message(
                    "invalid_params",
                    "unknown field `".to_owned().concat(field.as_str()).concat("`"),
                ),
            ),
            None => decode_target(o),
        },
        _ => Err(RpcError::new("invalid_params", "params must be an object")),
    }
}

/// What only a switch takes.
#[derive(Debug, PartialEq, Eq)]
pub struct SwitchOnlyParams {
    pub return_active_branch: Option<bool>,
    pub missing_body_ids: Option<Vec<String>>,
}

impl SwitchOnlyParams {
    /// Reads the fields of a switch; a field that is there must not be `null`.
    pub fn from_object(o: &JsonObject) -> (r: Result<SwitchOnlyParams, RpcError>)
        ensures
            ({
                let bodies = strings_field(o@, "missing_body_ids"@);
                let branch = bool_field(o@, "return_active_branch"@);
                if bodies is Refused {
                    r matches Err(e) && e@ == ("invalid_params"@, bodies->Refused_0)
                } else if branch is Refused {
                    r matches Err(e) && e@ == ("invalid_params"@, branch->Refused_0)
                } else {
                    r matches Ok(s) && s.return_active_branch == given(branch) && strings_view(
                        s.missing_body_ids,
                    ) == given(bodies)
                }
            }),
    {
        let missing_body_ids = match o.get("missing_body_ids") {
            Some(value) => match decode_strings(&value) {
                Ok(items) => Some(items),
                Err(message) => {
                    return refused_field(message);
                },
            },
            None => None,
        };
        let return_active_branch = match o.get("return_active_branch") {
            Some(value) => match decode_bool(&value) {
                Ok(b) => Some(b),
                Err(message) => {
                    return refused_field(message);
                },
            },
            None => None,
        };
        Ok(SwitchOnlyParams { return_active_branch, missing_body_ids })
    }
}

/// A switch with its target.
#[derive(Debug, PartialEq, Eq)]
pub struct HistorySwitch {
    pub target: ParsedHistoryTarget,
    pub return_active_branch: bool,
    pub missing_body_ids: Option<Vec<String>>,
}

/// The fields that a switch takes besides the common ones.
pub open spec fn switch_fields() -> Seq<&'static str> {
    seq!["return_active_branch", "missing_body_ids"]
}

impl HistorySwitch {
    /// Reads a switch: its target, then what only a switch takes.
    pub fn parse(params: &Json) -> (r: Result<HistorySwitch, RpcError>)
        ensures
            match params_outcome(params@, switch_fields()) {
                Err(message) => r matches Err(e) && e@ == ("invalid_params"@, message),
                Ok(target) => {
                    let o = params@->Object_0;
                    let bodies = strings_field(o, "missing_body_ids"@);
                    let branch = bool_field(o, "return_active_branch"@);
                    if bodies is Refused {
                        r matches Err(e) && e@ == ("invalid_params"@, bodies->Refused_0)
                    } else if branch is Refused {
                        r matches Err(e) && e@ == ("invalid_params"@, branch->Refused_0)
                    } else {
                        r matches Ok(s) && s.target@ == target && s.return_active_branch == (given(
                            branch,
                        ) == Some(true)) && strings_view(s.missing_body_ids) == given(bodies)
                    }
                },
            },
    {
        let fields = ["return_active_branch", "missing_body_ids"];
        assert(fields@ == switch_fields());
        let target = match parse_history_target(params, &fields) {
            Ok(target) => target,
            Err(e) => {
                return Err(e);
            },
        };
        match params {
            Json::Object(o) => match SwitchOnlyParams::from_object(o) {
                Ok(only) => {
                    let return_active_branch = match only.return_active_branch {
                        Some(b) => b,
                        None => false,
                    };
                    Ok(
                        HistorySwitch {
                            target,
                            return_active_branch,
                            missing_body_ids: only.missing_body_ids,
                        },
                    )
                },
                Err(e) => Err(e),
            },
            _ => Err(RpcError::new("invalid_params", "params must be an object")),
        }
    }
}

// ---------------------------------------------------------------------------
// Conditions

/// The target of an operation on a session whose delegations are idle.
#[derive(Debug, PartialEq, Eq)]
pub struct IdleTarget {
    target: ParsedHistoryTarget,
}

/// The target of an operation whose fence on the active leaf holds too.
#[derive(Debug, PartialEq, Eq)]
pub struct FencedTarget {
    target: ParsedHistoryTarget,
}

/// A target that may be worked on: the session is idle, the fence holds, and
/// the leaf is a turn boundary.
#[derive(Debug, PartialEq, Eq)]
pub struct PreparedTarget {
    target: ParsedHistoryTarget,
}

/// A history operation needs the session's delegations to be idle.
pub fn ensure_history_source_idle(
    target: ParsedHistoryTarget,
    parent_has_running_delegation: bool,
) -> (r: Result<IdleTarget, RpcError>)
    ensures
        r is Ok <==> !parent_has_running_delegation,
        r matches Ok(idle) ==> idle.of() == target,
        r matches Err(e) ==> e@ == (
            "session_busy"@,
            "history operations require all delegations to be idle"@,
        ),
{
    if parent_has_running_delegation {
        Err(
            RpcError::new(
                "session_busy",
                "history operations require all delegations to be idle",
            ),
        )
    } else {
        Ok(IdleTarget { target })
    }
}

/// The active leaf is the one that the target expects, where it expects one.
pub open spec fn fence_holds(target: TargetView, active_leaf_id: Option<Seq<char>>) -> bool {
    target.expected_active_leaf_id is Some ==> target.expected_active_leaf_id->0 == active_leaf_id
}

fn same_leaf(a: &Option<String>, b: Option<&str>) -> (r: bool)
    ensures
        r == (records::opt_view(*a) == records::opt_str_view(b)),
{
    match a {
        Some(a) => match b {
            Some(b) => same(a.as_str(), b),
            None => false,
        },
        None => b.is_none(),
    }
}

impl IdleTarget {
    pub closed spec fn of(self) -> ParsedHistoryTarget {
        self.target
    }

    pub fn target(&self) -> (r: &ParsedHistoryTarget)
        ensures
            *r == self.of(),
    {
        &self.target
    }

    /// The active leaf must be the one that the request expects, where it
    /// expects one.
    pub fn require_active_leaf(self, active_leaf_id: Option<&str>) -> (r: Result<
        FencedTarget,
        RpcError,
    >)
        ensures
            r is Ok <==> fence_holds(self.of()@, records::opt_str_view(active_leaf_id)),
            r matches Ok(fenced) ==> fenced.of() == self.of(),
            r matches Err(e) ==> e@ == (
                "history_changed"@,
                "session active leaf changed before the request was applied"@,
            ),
    {
        if let Some(expected) = &self.target.expected_active_leaf_id {
            if !same_leaf(expected, active_leaf_id) {
                return Err(
                    RpcError::new(
                        "history_changed",
                        "session active leaf changed before the request was applied",
                    ),
                );
            }
        }
        Ok(FencedTarget { target: self.target })
    }
}

impl FencedTarget {
    pub closed spec fn of(self) -> ParsedHistoryTarget {
        self.target
    }

    pub fn target(&self) -> (r: &ParsedHistoryTarget)
        ensures
            *r == self.of(),
    {
        &self.target
    }

    /// The target must be a turn boundary.
    pub fn require_boundary(self, leaf_is_boundary: bool) -> (r: Result<PreparedTarget, RpcError>)
        ensures
            r is Ok <==> leaf_is_boundary,
            r matches Ok(prepared) ==> prepared.of() == self.of(),
            r matches Err(e) ==> e@ == (
                "not_turn_boundary"@,
                "history operation requires a turn boundary"@,
            ),
    {
        if leaf_is_boundary {
            Ok(PreparedTarget { target: self.target })
        } else {
            Err(RpcError::new("not_turn_boundary", "history operation requires a turn boundary"))
        }
    }
}

impl PreparedTarget {
    pub closed spec fn of(self) -> ParsedHistoryTarget {
        self.target
    }

    pub fn target(&self) -> (r: &ParsedHistoryTarget)
        ensures
            *r == self.of(),
    {
        &self.target
    }
}

/// Why a target cannot be worked on.
pub open spec fn target_refusal(
    target: TargetView,
    active_leaf_id: Option<Seq<char>>,
    leaf_is_boundary: bool,
) -> Option<(Seq<char>, Seq<char>)> {
    if !fence_holds(target, active_leaf_id) {
        Some(
            (
                "history_changed"@,
                "session active leaf changed before the request was applied"@,
            ),
        )
    } else if !leaf_is_boundary {
        Some(("not_turn_boundary"@, "history operation requires a turn boundary"@))
    } else {
        None
    }
}

/// Both conditions at once: the active leaf must be the one that the request
/// expects, where it expects one, and the target must be a turn boundary.
pub fn prepare_history_target(
    target: IdleTarget,
    active_leaf_id: Option<&str>,
    leaf_is_boundary: bool,
) -> (r: Result<PreparedTarget, RpcError>)
    ensures
        r is Ok <==> target_refusal(
            target.of()@,
            records::opt_str_view(active_leaf_id),
            leaf_is_boundary,
        ) is None,
        r matches Ok(prepared) ==> prepared.of() == target.of(),
        r matches Err(e) ==> Some(e@) == target_refusal(
            target.of()@,
            records::opt_str_view(active_leaf_id),
            leaf_is_boundary,
        ),
{
    match target.require_active_leaf(active_leaf_id) {
        Ok(fenced) => fenced.require_boundary(leaf_is_boundary),
        Err(e) => Err(e),
    }
}

// ---------------------------------------------------------------------------
// Laws

/// A fence that is left out and one that is given as empty are told apart: the
/// former holds for every history, the latter for one without an active leaf.
pub proof fn law_left_out_fences_hold_always(o: Map<Seq<char>, JsonView>, leaf: Option<Seq<char>>)
    requires
        target_outcome(o) is Ok,
    ensures
        ({
            let target = target_outcome(o)->Ok_0;
            let key = "expected_active_leaf_id"@;
            &&& !o.contains_key(key) <==> target.expected_active_leaf_id is None
            &&& o.contains_key(key) && o[key] == JsonView::Null <==> target.expected_active_leaf_id
                == Some(None::<Seq<char>>)
            &&& !o.contains_key(key) ==> target_refusal(target, leaf, true) is None
            &&& o.contains_key(key) && o[key] == JsonView::Null ==> (target_refusal(
                target,
                leaf,
                true,
            ) is None <==> leaf is None)
            &&& !o.contains_key("active_branch_entry_ids"@)
                <==> target.active_branch_entry_ids is None
        }),
{
}

/// A target that carries an expected active leaf is refused as changed exactly
/// when the active leaf is another one, whatever else the target says: an
/// expected text lets through only a session whose active leaf is that text,
/// and an expected `null` only one without an active leaf. A target that
/// carries none is never refused as changed.
pub proof fn law_expected_leaves_are_compared(
    target: ParsedHistoryTarget,
    active_leaf_id: Option<Seq<char>>,
    leaf_is_boundary: bool,
)
    ensures
        ({
            let refusal = target_refusal(target@, active_leaf_id, leaf_is_boundary);
            let changed = Some(
                (
                    "history_changed"@,
                    "session active leaf changed before the request was applied"@,
                ),
            );
            &&& match target.expected_active_leaf_id {
                Some(Some(x)) => (refusal == changed <==> active_leaf_id != Some(x@)) && (
                fence_holds(target@, active_leaf_id) <==> active_leaf_id == Some(x@)),
                Some(None) => (refusal == changed <==> active_leaf_id is Some) && (fence_holds(
                    target@,
                    active_leaf_id,
                ) <==> active_leaf_id is None),
                None => refusal != changed && fence_holds(target@, active_leaf_id),
            }
            &&& refusal != changed ==> (refusal is None <==> leaf_is_boundary)
            &&& refusal != changed && !leaf_is_boundary ==> refusal == Some(
                ("not_turn_boundary"@, "history operation requires a turn boundary"@),
            )
        }),
{
    reveal_strlit("history_changed");
    reveal_strlit("not_turn_boundary");
    assert("history_changed"@.len() == 15);
    assert("not_turn_boundary"@.len() == 17);
}

/// Of a target only the expected leaf decides: two targets that expect the same
/// are refused alike, whatever session, leaf, revision or branch they name.
pub proof fn law_only_the_expected_leaf_decides(
    a: TargetView,
    b: TargetView,
    active_leaf_id: Option<Seq<char>>,
    leaf_is_boundary: bool,
)
    requires
        a.expected_active_leaf_id == b.expected_active_leaf_id,
    ensures
        target_refusal(a, active_leaf_id, leaf_is_boundary) == target_refusal(
            b,
            active_leaf_id,
            leaf_is_boundary,
        ),
        fence_holds(a, active_leaf_id) == fence_holds(b, active_leaf_id),
{
}

/// A target that expects a leaf is let through for at most one active leaf.
pub proof fn law_one_leaf_is_let_through(
    target: TargetView,
    one: Option<Seq<char>>,
    other: Option<Seq<char>>,
)
    requires
        target.expected_active_leaf_id is Some,
        fence_holds(target, one),
        fence_holds(target, other),
    ensures
        one == other,
{
}

/// A target that decodes holds what the parameters hold, field by field: the
/// session and the leaf as they stand there, and each optional field exactly
/// when its key is there.
pub proof fn law_targets_hold_the_parameters(o: Map<Seq<char>, JsonView>)
    requires
        target_outcome(o) is Ok,
    ensures
        ({
            let t = target_outcome(o)->Ok_0;
            let expected = "expected_active_leaf_id"@;
            &&& o["session_id"@] == JsonView::Text(t.session_id)
            &&& match t.leaf_id {
                Some(leaf) => o["leaf_id"@] == JsonView::Text(leaf),
                None => o["leaf_id"@] == JsonView::Null,
            }
            &&& match t.expected_active_leaf_id {
                Some(Some(leaf)) => o.contains_key(expected) && o[expected] == JsonView::Text(leaf),
                Some(None) => o.contains_key(expected) && o[expected] == JsonView::Null,
                None => !o.contains_key(expected),
            }
            &&& match t.expected_transcript_revision {
                Some(n) => o.contains_key("expected_transcript_revision"@)
                    && o["expected_transcript_revision"@] == json::int_view(n as int),
                None => !o.contains_key("expected_transcript_revision"@),
            }
            &&& match t.active_branch_entry_ids {
                Some(ids) => o.contains_key("active_branch_entry_ids"@)
                    && o["active_branch_entry_ids"@] is List
                    && o["active_branch_entry_ids"@]->List_0.len() == ids.len() && forall|i: int|
                    0 <= i < ids.len() ==> o["active_branch_entry_ids"@]->List_0[i]
                        == JsonView::Text(#[trigger] ids[i]),
                None => !o.contains_key("active_branch_entry_ids"@),
            }
        }),
{
}

/// Parameters decode exactly when the session is a text, the leaf is a text or
/// `null`, and each optional field is left out or of its own kind.
pub proof fn law_well_formed_targets_decode(o: Map<Seq<char>, JsonView>)
    ensures
        target_outcome(o) is Ok <==> {
            &&& o.contains_key("session_id"@) && o["session_id"@] is Text
            &&& o.contains_key("leaf_id"@) && (o["leaf_id"@] is Text || o["leaf_id"@] is Null)
            &&& o.contains_key("expected_active_leaf_id"@) ==> (o["expected_active_leaf_id"@] is Text
                || o["expected_active_leaf_id"@] is Null)
            &&& o.contains_key("expected_transcript_revision"@) ==> exists|n: i64|
                o["expected_transcript_revision"@] == json::int_view(n as int)
            &&& o.contains_key("active_branch_entry_ids"@) ==> {
                &&& o["active_branch_entry_ids"@] is List
                &&& forall|i: int|
                    0 <= i < o["active_branch_entry_ids"@]->List_0.len() ==> (
                    #[trigger] o["active_branch_entry_ids"@]->List_0[i]) is Text
            }
        },
{
    let revision = o["expected_transcript_revision"@];
    if interop::i64_of(revision) is Some {
        assert(revision == json::int_view(interop::i64_of(revision)->0 as int));
    }
}

/// Parameters with a key that is none of the five common ones and none of the
/// operation's own are refused for the least such key; without one they are
/// read as a target.
pub proof fn law_unknown_fields_are_refused(
    o: Map<Seq<char>, JsonView>,
    operation_fields: Seq<&str>,
    key: Seq<char>,
)
    ensures
        ({
            let known = |k: Seq<char>|
                {
                    ||| k == "session_id"@
                    ||| k == "leaf_id"@
                    ||| k == "expected_active_leaf_id"@
                    ||| k == "expected_transcript_revision"@
                    ||| k == "active_branch_entry_ids"@
                    ||| exists|i: int|
                        0 <= i < operation_fields.len() && (#[trigger] operation_fields[i])@ == k
                };
            let outcome = params_outcome(JsonView::Object(o), operation_fields);
            &&& (forall|k: Seq<char>| #[trigger] o.contains_key(k) ==> known(k)) ==> outcome
                == target_outcome(o)
            &&& o.contains_key(key) && !known(key) && (forall|k: Seq<char>| #[trigger]
                o.contains_key(k) && !known(k) && k != key ==> text::precedes(key, k)) ==> outcome
                == Err::<TargetView, Seq<char>>("unknown field `"@ + key + "`"@)
        }),
{
    if unknown_field(o, operation_fields, key) && (forall|k: Seq<char>| #[trigger]
        unknown_field(o, operation_fields, k) && k != key ==> text::precedes(key, k)) {
        lemma_first_unknown(o, operation_fields, key);
    }
}

/// A target that decodes always names its session and always says something of
/// its leaf.
pub proof fn law_targets_are_complete(o: Map<Seq<char>, JsonView>)
    requires
        target_outcome(o) is Ok,
    ensures
        o.contains_key("session_id"@) && o["session_id"@] is Text,
        o.contains_key("leaf_id"@) && (o["leaf_id"@] is Text || o["leaf_id"@] is Null),
{
}

/// A target that is read is handed out field by field, and one that is refused
/// is refused as invalid parameters with its message.
pub proof fn law_read_targets_are_handed_out(
    r: Result<ParsedHistoryTarget, RpcError>,
    outcome: Result<TargetView, Seq<char>>,
)
    requires
        target_comes_to(r, outcome),
    ensures
        r is Ok <==> outcome is Ok,
        outcome matches Ok(t) ==> {
            &&& r->Ok_0.session_id@ == t.session_id
            &&& records::opt_view(r->Ok_0.leaf_id) == t.leaf_id
            &&& r->Ok_0.expected_active_leaf_id is Some <==> t.expected_active_leaf_id is Some
            &&& r->Ok_0.expected_active_leaf_id matches Some(leaf) ==> records::opt_view(leaf)
                == t.expected_active_leaf_id->0
            &&& r->Ok_0.expected_transcript_revision == t.expected_transcript_revision
            &&& r->Ok_0.active_branch_entry_ids is Some <==> t.active_branch_entry_ids is Some
            &&& r->Ok_0.active_branch_entry_ids matches Some(ids) ==> {
                &&& ids@.len() == t.active_branch_entry_ids->0.len()
                &&& forall|i: int|
                    0 <= i < ids@.len() ==> (#[trigger] ids@[i])@
                        == t.active_branch_entry_ids->0[i]
            }
        },
        outcome matches Err(message) ==> r->Err_0.code@ == "invalid_params"@ && r->Err_0.message@
            == message,
{
}

/// A switch takes these two fields besides the common ones.
pub proof fn law_switches_take_two_fields(key: Seq<char>)
    ensures
        operation_field(switch_fields(), key) <==> key == "return_active_branch"@ || key
            == "missing_body_ids"@,
{
    assert(switch_fields()[0]@ == "return_active_branch"@);
    assert(switch_fields()[1]@ == "missing_body_ids"@);
}

/// An optional field of a switch is read exactly when its key is there, and must
/// then be of its own kind: `null` is none.
pub proof fn law_switch_fields_are_read(o: Map<Seq<char>, JsonView>, key: Seq<char>, b: bool)
    ensures
        given(bool_field(o, key)) == Some(b) <==> o.contains_key(key) && o[key] == JsonView::Bool(
            b,
        ),
        bool_field(o, key) is Refused <==> o.contains_key(key) && !(o[key] is Bool),
        strings_field(o, key) is Refused <==> o.contains_key(key) && !(o[key] is List && forall|
            i: int,
        |
            0 <= i < o[key]->List_0.len() ==> (#[trigger] o[key]->List_0[i]) is Text),
        given(strings_field(o, key)) is Some ==> o.contains_key(key) && o[key]->List_0.len()
            == given(strings_field(o, key))->0.len() && forall|i: int|
            0 <= i < o[key]->List_0.len() ==> #[trigger] o[key]->List_0[i] == JsonView::Text(
                given(strings_field(o, key))->0[i],
            ),
        !o.contains_key(key) ==> given(bool_field(o, key)) is None && given(
            strings_field(o, key),
        ) is None,
{
}

/// What parameters are refused for: not being an object; else the first field,
/// in the order of the names, that is of a wrong kind; else a missing session,
/// and then a missing leaf.
pub proof fn law_targets_are_refused_in_order(
    o: Map<Seq<char>, JsonView>,
    params: JsonView,
    operation_fields: Seq<&str>,
)
    ensures
        !(params is Object) ==> params_outcome(params, operation_fields) == Err::<
            TargetView,
            Seq<char>,
        >("params must be an object"@),
        ({
            let branch = "active_branch_entry_ids"@;
            let expected = "expected_active_leaf_id"@;
            let revision = "expected_transcript_revision"@;
            let leaf = "leaf_id"@;
            let session = "session_id"@;
            let branch_reads = o.contains_key(branch) ==> interop::strings_of(o[branch]) is Some;
            let expected_reads = o.contains_key(expected) ==> o[expected] is Text
                || o[expected] is Null;
            let revision_reads = o.contains_key(revision) ==> interop::i64_of(o[revision]) is Some;
            let leaf_reads = o.contains_key(leaf) ==> o[leaf] is Text || o[leaf] is Null;
            let session_reads = o.contains_key(session) ==> o[session] is Text;
            let refusal = target_outcome(o)->Err_0;
            let optional_read = branch_reads && expected_reads && revision_reads;
            &&& !branch_reads ==> refusal == interop::strings_refusal(o[branch])
            &&& branch_reads && !expected_reads ==> refusal == interop::nullable_refusal(
                o[expected],
            )
            &&& branch_reads && expected_reads && !revision_reads ==> refusal
                == interop::i64_refusal(o[revision])
            &&& optional_read && !leaf_reads ==> refusal
                == "data did not match any variant of untagged enum RequiredNullableString"@
            &&& optional_read && leaf_reads && !session_reads ==> refusal
                == interop::string_refusal(o[session])
            &&& optional_read && leaf_reads && session_reads && !o.contains_key(session) ==> refusal
                == "missing field `session_id`"@
            &&& optional_read && leaf_reads && session_reads && o.contains_key(session)
                && !o.contains_key(leaf) ==> refusal == "missing field `leaf_id`"@
        }),
{
}

} // verus!
