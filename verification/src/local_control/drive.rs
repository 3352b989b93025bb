//! Warp Drive requests: which objects are listed, in what order, and what
//! an inspection returns.
use vstd::prelude::*;
use crate::json::{str_eq, JsonValue};
use crate::local_control::protocol::{action_name, ActionKind, ControlError, ErrorCode};
use crate::local_control::selectors::TargetSelector;
use crate::text::{chars_le, chars_lt, concat, lemma_chars_order_facts, str_lt};

verus! {

/// The Drive object types a client can see.
#[derive(Debug, Clone, Copy, PartialEq, Eq, Structural)]
pub enum DriveObjectType {
    Workflow,
    Prompt,
    Notebook,
    EnvVarCollection,
    Folder,
    AiFact,
    McpServer,
    Space,
    Trash,
}

/// The position of a type in Drive listings.
pub open spec fn type_rank(object_type: DriveObjectType) -> u8 {
    match object_type {
        DriveObjectType::Workflow => 0,
        DriveObjectType::Prompt => 1,
        DriveObjectType::Notebook => 2,
        DriveObjectType::EnvVarCollection => 3,
        DriveObjectType::Folder => 4,
        DriveObjectType::AiFact => 5,
        DriveObjectType::McpServer => 6,
        DriveObjectType::Space => 7,
        DriveObjectType::Trash => 8,
    }
}

/// The position of a type in Drive listings: workflows, prompts,
/// notebooks, environment variables, folders, facts, MCP servers, spaces,
/// trash.
pub fn drive_object_type_rank(object_type: DriveObjectType) -> (rank: u8)
    ensures
        rank == type_rank(object_type),
{
    match object_type {
        DriveObjectType::Workflow => 0,
        DriveObjectType::Prompt => 1,
        DriveObjectType::Notebook => 2,
        DriveObjectType::EnvVarCollection => 3,
        DriveObjectType::Folder => 4,
        DriveObjectType::AiFact => 5,
        DriveObjectType::McpServer => 6,
        DriveObjectType::Space => 7,
        DriveObjectType::Trash => 8,
    }
}

/// Refuses a Drive request that also selects a window, tab, pane or session.
pub fn validate_drive_target(target: &TargetSelector, action: ActionKind) -> (result: Result<(), ControlError>)
    ensures
        result is Ok <==> (target.window is None && target.tab is None && target.pane is None && target.session is None),
        result matches Err(e) ==> e.code == ErrorCode::InvalidSelector
            && e.message@ == action_name(action) + " does not accept window, tab, pane, or session selectors"@,
{
    if target.window.is_some() || target.tab.is_some() || target.pane.is_some() || target.session.is_some() {
        return Err(ControlError::new(
            ErrorCode::InvalidSelector,
            concat(action.as_str(), " does not accept window, tab, pane, or session selectors"),
        ));
    }
    Ok(())
}

/// What kind of cloud object a Drive entry is, as far as listings tell
/// them apart.
#[derive(Debug, Clone, Copy, PartialEq, Eq, Structural)]
pub enum CloudObjectKind {
    /// A workflow; an agent-mode workflow is shown as a prompt.
    Workflow { agent_mode: bool },
    Notebook,
    Folder,
    EnvVarCollection,
    AiFact,
    McpServer,
    TemplatableMcpServer,
    /// Any other object, which Drive requests do not show.
    Other,
}

/// The Drive type shown for a cloud object.
pub open spec fn shown_type(kind: CloudObjectKind) -> Option<DriveObjectType> {
    match kind {
        CloudObjectKind::Workflow { agent_mode } => Some(if agent_mode { DriveObjectType::Prompt } else { DriveObjectType::Workflow }),
        CloudObjectKind::Notebook => Some(DriveObjectType::Notebook),
        CloudObjectKind::Folder => Some(DriveObjectType::Folder),
        CloudObjectKind::EnvVarCollection => Some(DriveObjectType::EnvVarCollection),
        CloudObjectKind::AiFact => Some(DriveObjectType::AiFact),
        CloudObjectKind::McpServer | CloudObjectKind::TemplatableMcpServer => Some(DriveObjectType::McpServer),
        CloudObjectKind::Other => None,
    }
}

/// The Drive type shown for a cloud object, if Drive requests show it.
pub fn control_drive_object_type(kind: CloudObjectKind) -> (object_type: Option<DriveObjectType>)
    ensures
        object_type == shown_type(kind),
{
    match kind {
        CloudObjectKind::Workflow { agent_mode } => {
            if agent_mode {
                Some(DriveObjectType::Prompt)
            } else {
                Some(DriveObjectType::Workflow)
            }
        },
        CloudObjectKind::Notebook => Some(DriveObjectType::Notebook),
        CloudObjectKind::Folder => Some(DriveObjectType::Folder),
        CloudObjectKind::EnvVarCollection => Some(DriveObjectType::EnvVarCollection),
        CloudObjectKind::AiFact => Some(DriveObjectType::AiFact),
        CloudObjectKind::McpServer | CloudObjectKind::TemplatableMcpServer => Some(DriveObjectType::McpServer),
        CloudObjectKind::Other => None,
    }
}

/// A cloud object of the Drive: its kind, id and display name.
#[derive(Debug, Clone)]
pub struct CloudObjectEntry {
    pub kind: CloudObjectKind,
    pub id: String,
    pub name: String,
}

/// One object of a Drive listing.
#[derive(Debug, Clone)]
pub struct DriveObjectSummary {
    pub object_type: DriveObjectType,
    pub id: String,
    pub name: String,
}

/// The plain value of a summary: type, id and name.
pub open spec fn summary_view(s: DriveObjectSummary) -> (DriveObjectType, Seq<char>, Seq<char>) {
    (s.object_type, s.id@, s.name@)
}

/// The plain values of a list of summaries.
pub open spec fn summary_views(s: Seq<DriveObjectSummary>) -> Seq<(DriveObjectType, Seq<char>, Seq<char>)> {
    s.map_values(|x: DriveObjectSummary| summary_view(x))
}

/// The summary of a cloud object that Drive requests show.
pub fn drive_object_summary(object: &CloudObjectEntry) -> (summary: Option<DriveObjectSummary>)
    ensures
        match shown_type(object.kind) {
            Some(t) => summary matches Some(s) && summary_view(s) == (t, object.id@, object.name@),
            None => summary is None,
        },
{
    match control_drive_object_type(object.kind) {
        Some(object_type) => Some(DriveObjectSummary { object_type, id: object.id.clone(), name: object.name.clone() }),
        None => None,
    }
}

/// Listing order: by type rank, then by name, then by id.
pub open spec fn listed_before(a: (DriveObjectType, Seq<char>, Seq<char>), b: (DriveObjectType, Seq<char>, Seq<char>)) -> bool {
    ||| type_rank(a.0) < type_rank(b.0)
    ||| type_rank(a.0) == type_rank(b.0) && chars_lt(a.2, b.2)
    ||| type_rank(a.0) == type_rank(b.0) && a.2 == b.2 && chars_lt(a.1, b.1)
}

/// Whether `a` may come before `b` in a listing.
pub open spec fn listed_no_later(a: (DriveObjectType, Seq<char>, Seq<char>), b: (DriveObjectType, Seq<char>, Seq<char>)) -> bool {
    listed_before(a, b) || (type_rank(a.0) == type_rank(b.0) && a.2 == b.2 && a.1 == b.1)
}

/// Whether a listing is in listing order.
pub open spec fn listing_sorted(s: Seq<(DriveObjectType, Seq<char>, Seq<char>)>) -> bool {
    forall|a: int, b: int| 0 <= a < b < s.len() ==> listed_no_later(#[trigger] s[a], #[trigger] s[b])
}

/// The summaries a listing holds, in Drive order, before sorting: the
/// shown objects, of the requested type if one was given.
pub open spec fn listed_objects(objects: Seq<CloudObjectEntry>, filter: Option<DriveObjectType>) -> Seq<(DriveObjectType, Seq<char>, Seq<char>)>
    decreases objects.len(),
{
    if objects.len() == 0 {
        Seq::empty()
    } else {
        let rest = listed_objects(objects.drop_last(), filter);
        let last = objects.last();
        match shown_type(last.kind) {
            Some(t) => if filter is None || filter == Some(t) { rest.push((t, last.id@, last.name@)) } else { rest },
            None => rest,
        }
    }
}

proof fn lemma_listing_order(
    a: (DriveObjectType, Seq<char>, Seq<char>),
    b: (DriveObjectType, Seq<char>, Seq<char>),
    c: (DriveObjectType, Seq<char>, Seq<char>),
)
    ensures
        !listed_before(a, a),
        !(listed_before(a, b) && listed_before(b, a)),
        listed_before(a, b) && listed_no_later(b, c) ==> listed_before(a, c),
        listed_no_later(a, b) && listed_no_later(b, c) ==> listed_no_later(a, c),
        listed_before(a, b) || listed_no_later(b, a),
{
    lemma_chars_order_facts(a.1, b.1, c.1);
    lemma_chars_order_facts(a.2, b.2, c.2);
    lemma_chars_order_facts(b.1, a.1, c.1);
    lemma_chars_order_facts(b.2, a.2, c.2);
}

/// Whether summary `a` goes strictly before summary `b`.
fn summary_before(a: &DriveObjectSummary, b: &DriveObjectSummary) -> (before: bool)
    ensures
        before == listed_before(summary_view(*a), summary_view(*b)),
{
    let ra = drive_object_type_rank(a.object_type);
    let rb = drive_object_type_rank(b.object_type);
    if ra != rb {
        return ra < rb;
    }
    if str_lt(a.name.as_str(), b.name.as_str()) {
        return true;
    }
    if str_lt(b.name.as_str(), a.name.as_str()) {
        proof {
            lemma_chars_order_facts(a.name@, b.name@, a.name@);
        }
        return false;
    }
    proof {
        lemma_chars_order_facts(a.name@, b.name@, a.name@);
    }
    str_lt(a.id.as_str(), b.id.as_str())
}

/// Inserts `x` after the summaries that do not go after it.
fn insert_listed(out: &mut Vec<DriveObjectSummary>, x: DriveObjectSummary)
    requires
        listing_sorted(summary_views(old(out)@)),
    ensures
        listing_sorted(summary_views(final(out)@)),
        summary_views(final(out)@).to_multiset() == summary_views(old(out)@).to_multiset().insert(summary_view(x)),
{
    let len = out.len();
    let mut p: usize = 0;
    while p < len && !summary_before(&x, &out[p])
        invariant
            len == out@.len(),
            p <= len,
            forall|q: int| 0 <= q < p ==> listed_no_later(summary_view(#[trigger] out@[q]), summary_view(x)),
        decreases len - p,
    {
        proof {
            lemma_listing_order(summary_view(x), summary_view(out@[p as int]), summary_view(x));
        }
        p = p + 1;
    }
    let ghost before = summary_views(out@);
    let ghost xv = summary_view(x);
    out.insert(p, x);
    proof {
        let after = summary_views(out@);
        assert(after =~= before.insert(p as int, xv));
        vstd::seq_lib::to_multiset_insert(before, p as int, xv);
        assert forall|q: int| 0 <= q < p implies listed_no_later(#[trigger] before[q], xv) by {}
        if p < len {
            assert(listed_before(xv, before[p as int]));
        }
        assert forall|a: int, b: int| 0 <= a < b < after.len() implies listed_no_later(#[trigger] after[a], #[trigger] after[b]) by {
            if b < p {
                assert(after[a] == before[a] && after[b] == before[b]);
            } else if b == p {
                assert(after[a] == before[a]);
            } else if a < p {
                assert(after[b] == before[b - 1]);
                assert(after[a] == before[a]);
                if b - 1 > p {
                    assert(listed_no_later(before[p as int], before[b - 1]));
                }
                lemma_listing_order(before[a], xv, before[p as int]);
                lemma_listing_order(xv, before[p as int], before[b - 1]);
                lemma_listing_order(before[a], before[p as int], before[b - 1]);
            } else if a == p {
                assert(after[b] == before[b - 1]);
                if b - 1 > p {
                    assert(listed_no_later(before[p as int], before[b - 1]));
                }
                lemma_listing_order(xv, before[p as int], before[b - 1]);
                lemma_listing_order(xv, before[p as int], before[p as int]);
            } else {
                assert(after[a] == before[a - 1]);
                assert(after[b] == before[b - 1]);
            }
        }
    }
}

/// The Drive listing: the objects Drive requests show, of the requested
/// type if one was given, ordered by type rank, name and id.
pub fn drive_list_objects(objects: &Vec<CloudObjectEntry>, object_type: Option<DriveObjectType>) -> (listing: Vec<DriveObjectSummary>)
    ensures
        listing_sorted(summary_views(listing@)),
        summary_views(listing@).to_multiset() == listed_objects(objects@, object_type).to_multiset(),
{
    let n = objects.len();
    let mut listing: Vec<DriveObjectSummary> = Vec::new();
    let mut i: usize = 0;
    assert(summary_views(listing@) =~= listed_objects(objects@.take(0), object_type));
    while i < n
        invariant
            n == objects@.len(),
            i <= n,
            listing_sorted(summary_views(listing@)),
            summary_views(listing@).to_multiset() == listed_objects(objects@.take(i as int), object_type).to_multiset(),
        decreases n - i,
    {
        proof {
            let prefix = objects@.take(i + 1);
            assert(prefix.drop_last() =~= objects@.take(i as int));
            assert(prefix.last() == objects@[i as int]);
        }
        match drive_object_summary(&objects[i]) {
            Some(summary) => {
                let wanted = match object_type {
                    Some(t) => t == summary.object_type,
                    None => true,
                };
                if wanted {
                    let ghost v = summary_view(summary);
                    insert_listed(&mut listing, summary);
                    proof {
                        vstd::seq_lib::to_multiset_build(listed_objects(objects@.take(i as int), object_type), v);
                    }
                }
            },
            None => {},
        }
        i = i + 1;
    }
    assert(objects@.take(n as int) =~= objects@);
    listing
}

/// The error when an object is not of the type its kind claims.
pub fn drive_type_mismatch_error() -> (error: ControlError)
    ensures
        error.code == ErrorCode::TargetStateConflict,
        error.message@ == "drive.inspect Drive object type does not match the resolved object"@,
        error.details is None,
{
    ControlError::new(
        ErrorCode::TargetStateConflict,
        "drive.inspect Drive object type does not match the resolved object".to_owned(),
    )
}

/// The error when the content of an object type cannot be read.
pub fn drive_unsupported_type_error() -> (error: ControlError)
    ensures
        error.code == ErrorCode::UnsupportedAction,
        error.message@ == "drive.inspect content reads are not supported for this Drive object type"@,
        error.details is None,
{
    ControlError::new(
        ErrorCode::UnsupportedAction,
        "drive.inspect content reads are not supported for this Drive object type".to_owned(),
    )
}

/// Finds the Drive object with id `id`.
pub fn resolve_drive_object(objects: &Vec<CloudObjectEntry>, id: &str) -> (found: Result<usize, ControlError>)
    ensures
        match found {
            Ok(i) => i < objects@.len() && objects@[i as int].id@ == id@
                && forall|k: int| 0 <= k < i ==> (#[trigger] objects@[k]).id@ != id@,
            Err(e) => e.code == ErrorCode::StaleTarget
                && e.message@ == "drive.inspect could not resolve the requested Drive object id"@
                && forall|k: int| 0 <= k < objects@.len() ==> (#[trigger] objects@[k]).id@ != id@,
        },
{
    let n = objects.len();
    let mut i: usize = 0;
    while i < n
        invariant
            n == objects@.len(),
            i <= n,
            forall|k: int| 0 <= k < i ==> (#[trigger] objects@[k]).id@ != id@,
        decreases n - i,
    {
        if str_eq(objects[i].id.as_str(), id) {
            return Ok(i);
        }
        i = i + 1;
    }
    Err(ControlError::new(
        ErrorCode::StaleTarget,
        "drive.inspect could not resolve the requested Drive object id".to_owned(),
    ))
}

/// The stored data of a Drive object, as far as an inspection reads it.
#[derive(Debug)]
pub enum DriveObjectBody {
    /// A workflow's data, already in JSON form.
    Workflow(JsonValue),
    Notebook { title: String, data: String, ai_document_id: Option<String>, conversation_id: Option<String> },
    /// An environment-variable collection's data, already in JSON form.
    EnvVarCollection(JsonValue),
    Folder { name: String, is_open: bool, is_warp_pack: bool },
    /// Data an inspection does not read.
    Opaque,
}

/// A JSON string, or `null` for no string.
pub open spec fn optional_string(value: Option<String>) -> JsonValue {
    match value {
        Some(s) => JsonValue::String(s),
        None => JsonValue::Null,
    }
}

fn optional_string_value(value: Option<String>) -> (json: JsonValue)
    ensures
        json == optional_string(value),
{
    match value {
        Some(s) => JsonValue::String(s),
        None => JsonValue::Null,
    }
}

/// The error for data of another type than the object's.
pub open spec fn is_type_mismatch(e: ControlError) -> bool {
    e.code == ErrorCode::TargetStateConflict
        && e.message@ == "drive.inspect Drive object type does not match the resolved object"@
        && e.details is None
}

/// The error for an object type whose content cannot be read.
pub open spec fn is_unsupported_content(e: ControlError) -> bool {
    e.code == ErrorCode::UnsupportedAction
        && e.message@ == "drive.inspect content reads are not supported for this Drive object type"@
        && e.details is None
}

/// Whether `result` is what an inspection of an object of kind `kind` with
/// data `body` answers: the content for workflows, prompts, notebooks,
/// environment variables and folders whose data is of that type; a type
/// conflict when the data is of another type; unsupported for the other
/// types.
pub open spec fn inspected_content(kind: CloudObjectKind, body: DriveObjectBody, result: Result<JsonValue, ControlError>) -> bool {
    match shown_type(kind) {
        Some(DriveObjectType::Workflow) | Some(DriveObjectType::Prompt) => match body {
            DriveObjectBody::Workflow(v) => result == Ok::<JsonValue, ControlError>(v),
            _ => result matches Err(e) && is_type_mismatch(e),
        },
        Some(DriveObjectType::EnvVarCollection) => match body {
            DriveObjectBody::EnvVarCollection(v) => result == Ok::<JsonValue, ControlError>(v),
            _ => result matches Err(e) && is_type_mismatch(e),
        },
        Some(DriveObjectType::Notebook) => match body {
            DriveObjectBody::Notebook { title, data, ai_document_id, conversation_id } =>
                result matches Ok(JsonValue::Object(m)) && m@.len() == 4
                    && m@[0].0@ == "title"@ && m@[0].1 == JsonValue::String(title)
                    && m@[1].0@ == "data"@ && m@[1].1 == JsonValue::String(data)
                    && m@[2].0@ == "ai_document_id"@ && m@[2].1 == optional_string(ai_document_id)
                    && m@[3].0@ == "conversation_id"@ && m@[3].1 == optional_string(conversation_id),
            _ => result matches Err(e) && is_type_mismatch(e),
        },
        Some(DriveObjectType::Folder) => match body {
            DriveObjectBody::Folder { name, is_open, is_warp_pack } =>
                result matches Ok(JsonValue::Object(m)) && m@.len() == 3
                    && m@[0].0@ == "name"@ && m@[0].1 == JsonValue::String(name)
                    && m@[1].0@ == "is_open"@ && m@[1].1 == JsonValue::Bool(is_open)
                    && m@[2].0@ == "is_warp_pack"@ && m@[2].1 == JsonValue::Bool(is_warp_pack),
            _ => result matches Err(e) && is_type_mismatch(e),
        },
        _ => result matches Err(e) && is_unsupported_content(e),
    }
}

/// The content an inspection returns for an object of kind `kind` whose
/// stored data is `body`.
pub fn drive_object_content(kind: CloudObjectKind, body: DriveObjectBody) -> (content: Result<JsonValue, ControlError>)
    ensures
        inspected_content(kind, body, content),
{
    let object_type = match control_drive_object_type(kind) {
        Some(t) => t,
        None => return Err(drive_unsupported_type_error()),
    };
    match object_type {
        DriveObjectType::Workflow | DriveObjectType::Prompt => match body {
            DriveObjectBody::Workflow(v) => Ok(v),
            _ => Err(drive_type_mismatch_error()),
        },
        DriveObjectType::EnvVarCollection => match body {
            DriveObjectBody::EnvVarCollection(v) => Ok(v),
            _ => Err(drive_type_mismatch_error()),
        },
        DriveObjectType::Notebook => match body {
            DriveObjectBody::Notebook { title, data, ai_document_id, conversation_id } => {
                let mut members: Vec<(String, JsonValue)> = Vec::new();
                members.push(("title".to_owned(), JsonValue::String(title)));
                members.push(("data".to_owned(), JsonValue::String(data)));
                members.push(("ai_document_id".to_owned(), optional_string_value(ai_document_id)));
                members.push(("conversation_id".to_owned(), optional_string_value(conversation_id)));
                Ok(JsonValue::Object(members))
            },
            _ => Err(drive_type_mismatch_error()),
        },
        DriveObjectType::Folder => match body {
            DriveObjectBody::Folder { name, is_open, is_warp_pack } => {
                let mut members: Vec<(String, JsonValue)> = Vec::new();
                members.push(("name".to_owned(), JsonValue::String(name)));
                members.push(("is_open".to_owned(), JsonValue::Bool(is_open)));
                members.push(("is_warp_pack".to_owned(), JsonValue::Bool(is_warp_pack)));
                Ok(JsonValue::Object(members))
            },
            _ => Err(drive_type_mismatch_error()),
        },
        DriveObjectType::AiFact | DriveObjectType::McpServer | DriveObjectType::Space | DriveObjectType::Trash => {
            Err(drive_unsupported_type_error())
        },
    }
}

/// What an inspection of a Drive object returns: its summary and its
/// content; unsupported for objects Drive requests do not show.
pub fn drive_object_get_result(object: &CloudObjectEntry, body: DriveObjectBody) -> (result: Result<(DriveObjectSummary, JsonValue), ControlError>)
    ensures
        match shown_type(object.kind) {
            None => result matches Err(e) && e.code == ErrorCode::UnsupportedAction
                && e.message@ == "drive.inspect does not support this Drive object type"@,
            Some(t) => match result {
                Ok((s, c)) => summary_view(s) == (t, object.id@, object.name@)
                    && inspected_content(object.kind, body, Ok::<JsonValue, ControlError>(c)),
                Err(e) => inspected_content(object.kind, body, Err::<JsonValue, ControlError>(e)),
            },
        },
{
    let summary = match drive_object_summary(object) {
        Some(s) => s,
        None => {
            return Err(ControlError::new(
                ErrorCode::UnsupportedAction,
                "drive.inspect does not support this Drive object type".to_owned(),
            ));
        },
    };
    match drive_object_content(object.kind, body) {
        Ok(content) => Ok((summary, content)),
        Err(e) => Err(e),
    }
}

} // verus!
