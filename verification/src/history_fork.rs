//! Forking a session's history into a new top-level session.
use vstd::prelude::*;

use crate::adjacent_sessions::{self, new_session_id};
use crate::history::PreparedTarget;
use crate::interop;
use crate::json::{self, Json, JsonObject, JsonView};
use crate::records::{self, opt_str};
use crate::types::RpcError;

verus! {

/// Only sessions of a project are forked.
pub fn require_project(has_project: bool) -> (r: Result<(), RpcError>)
    ensures
        r is Ok <==> has_project,
        r matches Err(e) ==> e@ == (
            "project_required"@,
            "history.fork requires a managed project session"@,
        ),
{
    if has_project {
        Ok(())
    } else {
        Err(RpcError::new("project_required", "history.fork requires a managed project session"))
    }
}

/// A random id for the child's workspace.
pub fn new_workspace_id() -> (r: String)
    ensures
        exists|fresh: Seq<char>|
            #![trigger interop::uuid_text(fresh)]
            interop::uuid_text(fresh) && r@ == "workspace_"@ + fresh,
{
    let fresh = interop::fresh_uuid();
    "workspace_".to_owned().concat(fresh.as_str())
}

/// A random id for the child: tried again where it is taken.
pub fn fork_candidate() -> (r: String)
    ensures
        exists|fresh: Seq<char>|
            interop::uuid_text(fresh) && r@ == #[trigger] adjacent_sessions::generated_session_id(
                fresh,
            ),
{
    new_session_id()
}

/// What describes the life of a session and is not inherited.
pub open spec fn lifecycle_key(key: Seq<char>) -> bool {
    ||| key == "archived"@
    ||| key == "hidden"@
    ||| key == "subagent"@
    ||| key == "subagent_type"@
    ||| key == "role_name"@
    ||| key == "task"@
    ||| key == "role_file_path"@
    ||| key == "subagent_parent_idle_notification_key"@
}

/// The entries without those that describe the life of a session.
pub open spec fn without_lifecycle(o: Map<Seq<char>, JsonView>) -> Map<Seq<char>, JsonView> {
    o.remove("archived"@).remove("hidden"@).remove("subagent"@).remove("subagent_type"@).remove(
        "role_name"@,
    ).remove("task"@).remove("role_file_path"@).remove("subagent_parent_idle_notification_key"@)
}

/// The entries with the state of automatic compaction left behind.
pub open spec fn without_auto_state(o: Map<Seq<char>, JsonView>) -> Map<Seq<char>, JsonView> {
    if o.contains_key("compaction"@) && o["compaction"@] is Object {
        o.insert("compaction"@, JsonView::Object(o["compaction"@]->Object_0.remove("auto_state"@)))
    } else {
        o
    }
}

pub open spec fn provenance_view(source_session_id: Seq<char>, source_leaf_id: Option<Seq<char>>) -> JsonView {
    JsonView::Object(
        json::no_entries().insert("source_session_id"@, JsonView::Text(source_session_id)).insert(
            "source_leaf_id"@,
            json::opt_text_view(source_leaf_id),
        ),
    )
}

/// The metadata of a fork: the source's, without what describes its life and
/// with where it was forked from.
pub open spec fn fork_metadata_view(
    metadata: JsonView,
    source_session_id: Seq<char>,
    source_leaf_id: Option<Seq<char>>,
) -> JsonView {
    JsonView::Object(
        without_auto_state(
            without_lifecycle(adjacent_sessions::object_entries(metadata)),
        ).insert("prompt_profile"@, JsonView::Text("parent"@)).insert(
            "fork"@,
            provenance_view(source_session_id, source_leaf_id),
        ),
    )
}

/// A fork keeps the source's title and preferences so that it remains
/// recognisable; its life starts afresh.
pub fn fork_metadata(metadata: Json, source_session_id: &str, source_leaf_id: Option<&str>) -> (r:
    Json)
    ensures
        r@ == fork_metadata_view(
            metadata@,
            source_session_id@,
            records::opt_str_view(source_leaf_id),
        ),
{
    let mut object = match metadata {
        Json::Object(object) => object,
        _ => JsonObject::new(),
    };
    object.remove("archived");
    object.remove("hidden");
    object.remove("subagent");
    object.remove("subagent_type");
    object.remove("role_name");
    object.remove("task");
    object.remove("role_file_path");
    object.remove("subagent_parent_idle_notification_key");
    let compaction = match object.get("compaction") {
        Some(Json::Object(compaction)) => {
            let mut kept = compaction;
            kept.remove("auto_state");
            Some(kept)
        },
        _ => None,
    };
    if let Some(compaction) = compaction {
        object.insert("compaction", Json::Object(compaction));
    }
    object.insert("prompt_profile", Json::text("parent"));
    let provenance = JsonObject::new().with("source_session_id", Json::text(source_session_id)).with(
        "source_leaf_id",
        Json::opt_text(source_leaf_id),
    );
    object.insert("fork", Json::Object(provenance));
    Json::Object(object)
}

/// The metadata of a fork of a prepared target.
pub fn forked_metadata(target: &PreparedTarget, metadata: Json) -> (r: Json)
    ensures
        r@ == fork_metadata_view(
            metadata@,
            target.of()@.session_id,
            target.of()@.leaf_id,
        ),
{
    let target = target.target();
    fork_metadata(metadata, target.session_id.as_str(), opt_str(&target.leaf_id))
}

/// What the store reports of a fork.
#[derive(Debug, PartialEq, Eq)]
pub struct ForkResult {
    pub session_id: String,
    pub source_session_id: String,
    pub source_leaf_id: Option<String>,
    pub active_leaf_id: Option<String>,
    pub session_revision: i64,
    pub queue_revision: i64,
    pub transcript_revision: i64,
    pub last_event_id: Option<i64>,
}

pub open spec fn fork_answer_view(f: ForkResult) -> JsonView {
    JsonView::Object(
        json::no_entries().insert("session_id"@, JsonView::Text(f.session_id@)).insert(
            "source_session_id"@,
            JsonView::Text(f.source_session_id@),
        ).insert(
            "source_leaf_id"@,
            json::opt_text_view(records::opt_view(f.source_leaf_id)),
        ).insert(
            "active_leaf_id"@,
            json::opt_text_view(records::opt_view(f.active_leaf_id)),
        ).insert("session_revision"@, json::int_view(f.session_revision as int)).insert(
            "queue_revision"@,
            json::int_view(f.queue_revision as int),
        ).insert("transcript_revision"@, json::int_view(f.transcript_revision as int)).insert(
            "last_event_id"@,
            match f.last_event_id {
                Some(id) => json::int_view(id as int),
                None => JsonView::Null,
            },
        ),
    )
}

/// What the creation of a fork comes to.
#[derive(Debug, PartialEq, Eq)]
pub enum ForkOutcome {
    Answer(Json),
    /// The child's workspace is destroyed again and the error reported.
    CleanUp(RpcError),
}

/// A fork that was created is answered; one that failed leaves no workspace.
pub fn fork_outcome(created: Result<ForkResult, RpcError>) -> (r: ForkOutcome)
    ensures
        match created {
            Ok(f) => r matches ForkOutcome::Answer(a) && a@ == fork_answer_view(f),
            Err(e) => r == ForkOutcome::CleanUp(e),
        },
{
    match created {
        Ok(f) => {
            let last_event_id = match f.last_event_id {
                Some(id) => Json::number(id),
                None => Json::Null,
            };
            ForkOutcome::Answer(
                Json::Object(
                    JsonObject::new().with("session_id", Json::text(f.session_id.as_str())).with(
                        "source_session_id",
                        Json::text(f.source_session_id.as_str()),
                    ).with("source_leaf_id", Json::opt_text(opt_str(&f.source_leaf_id))).with(
                        "active_leaf_id",
                        Json::opt_text(opt_str(&f.active_leaf_id)),
                    ).with("session_revision", Json::number(f.session_revision)).with(
                        "queue_revision",
                        Json::number(f.queue_revision),
                    ).with("transcript_revision", Json::number(f.transcript_revision)).with(
                        "last_event_id",
                        last_event_id,
                    ),
                ),
            )
        },
        Err(e) => ForkOutcome::CleanUp(e),
    }
}

// ---------------------------------------------------------------------------
// Laws

proof fn reveal_fork_keys()
    ensures
        !lifecycle_key("compaction"@),
        !lifecycle_key("prompt_profile"@),
        !lifecycle_key("fork"@),
        "compaction"@ != "prompt_profile"@,
        "compaction"@ != "fork"@,
        "prompt_profile"@ != "fork"@,
{
    reveal_strlit("compaction");
    reveal_strlit("prompt_profile");
    reveal_strlit("fork");
    reveal_strlit("archived");
    reveal_strlit("hidden");
    reveal_strlit("subagent");
    reveal_strlit("subagent_type");
    reveal_strlit("role_name");
    reveal_strlit("task");
    reveal_strlit("role_file_path");
    reveal_strlit("subagent_parent_idle_notification_key");
    assert("compaction"@.len() == 10);
    assert("prompt_profile"@.len() == 14);
    assert("prompt_profile"@[0] == 'p');
    assert("fork"@.len() == 4);
    assert("fork"@[0] == 'f');
    assert("archived"@.len() == 8);
    assert("hidden"@.len() == 6);
    assert("subagent"@.len() == 8);
    assert("subagent_type"@.len() == 13);
    assert("role_name"@.len() == 9);
    assert("task"@.len() == 4);
    assert("task"@[0] == 't');
    assert("role_file_path"@.len() == 14);
    assert("role_file_path"@[0] == 'r');
    assert("subagent_parent_idle_notification_key"@.len() == 37);
}

/// A fork is never archived, hidden or a subagent, whatever the source was; it
/// runs under the parent profile and tells where it was forked from.
pub proof fn law_forks_start_afresh(
    metadata: JsonView,
    source_session_id: Seq<char>,
    source_leaf_id: Option<Seq<char>>,
    key: Seq<char>,
)
    ensures
        ({
            let r = fork_metadata_view(metadata, source_session_id, source_leaf_id);
            &&& lifecycle_key(key) ==> json::get_view(r, key) is None
            &&& json::get_view(r, "prompt_profile"@) == Some(JsonView::Text("parent"@))
            &&& json::get_view(r, "fork"@) == Some(
                provenance_view(source_session_id, source_leaf_id),
            )
            &&& (json::get_view(r, "compaction"@) matches Some(c) ==> json::get_view(
                c,
                "auto_state"@,
            ) is None)
        }),
{
    reveal_fork_keys();
}

/// Everything else is inherited: other entries as they are, and the compaction
/// settings apart from their automatic state.
pub proof fn law_forks_inherit_the_rest(
    metadata: JsonView,
    source_session_id: Seq<char>,
    source_leaf_id: Option<Seq<char>>,
    key: Seq<char>,
    setting: Seq<char>,
)
    requires
        setting != "auto_state"@,
    ensures
        ({
            let r = fork_metadata_view(metadata, source_session_id, source_leaf_id);
            &&& !lifecycle_key(key) && key != "compaction"@ && key != "prompt_profile"@ && key
                != "fork"@ ==> json::get_view(r, key) == json::get_view(metadata, key)
            &&& json::get_view(metadata, "compaction"@) matches Some(c) ==> {
                &&& json::get_view(r, "compaction"@) is Some
                &&& c is Object ==> json::get_view(
                    json::get_view(r, "compaction"@)->0,
                    setting,
                ) == json::get_view(c, setting)
                &&& !(c is Object) ==> json::get_view(r, "compaction"@) == Some(c)
            }
        }),
{
    reveal_fork_keys();
}

/// Forking what is a fork of the same place already changes nothing more.
pub proof fn law_fork_metadata_settles(
    metadata: JsonView,
    source_session_id: Seq<char>,
    source_leaf_id: Option<Seq<char>>,
)
    ensures
        fork_metadata_view(
            fork_metadata_view(metadata, source_session_id, source_leaf_id),
            source_session_id,
            source_leaf_id,
        ) == fork_metadata_view(metadata, source_session_id, source_leaf_id),
{
    reveal_fork_keys();
    let once = fork_metadata_view(metadata, source_session_id, source_leaf_id);
    let twice = fork_metadata_view(once, source_session_id, source_leaf_id);
    let a = once->Object_0;
    let b = twice->Object_0;
    if a.contains_key("compaction"@) && a["compaction"@] is Object {
        let c = a["compaction"@]->Object_0;
        assert(c.remove("auto_state"@) =~= c);
    }
    assert(b =~= a);
}

/// The keys that describe the life of a session are these eight and no others.
pub proof fn law_lifecycle_keys(key: Seq<char>)
    ensures
        lifecycle_key(key) <==> key == "archived"@ || key == "hidden"@ || key == "subagent"@ || key
            == "subagent_type"@ || key == "role_name"@ || key == "task"@ || key
            == "role_file_path"@ || key == "subagent_parent_idle_notification_key"@,
{
}

/// A fork tells the session and the leaf that it was forked from.
pub proof fn law_forks_tell_their_source(
    source_session_id: Seq<char>,
    source_leaf_id: Option<Seq<char>>,
)
    ensures
        ({
            let p = provenance_view(source_session_id, source_leaf_id);
            &&& json::get_view(p, "source_session_id"@) == Some(JsonView::Text(source_session_id))
            &&& json::get_view(p, "source_leaf_id"@) == Some(
                match source_leaf_id {
                    Some(leaf) => JsonView::Text(leaf),
                    None => JsonView::Null,
                },
            )
        }),
{
    reveal_strlit("source_session_id");
    reveal_strlit("source_leaf_id");
    assert("source_session_id"@.len() == 17);
    assert("source_leaf_id"@.len() == 14);
}

/// The answer of a fork tells every field of what was created under its own
/// name.
pub proof fn law_fork_answers_tell_the_fork(f: ForkResult)
    ensures
        ({
            let answer = fork_answer_view(f);
            &&& json::get_view(answer, "session_id"@) == Some(JsonView::Text(f.session_id@))
            &&& json::get_view(answer, "source_session_id"@) == Some(
                JsonView::Text(f.source_session_id@),
            )
            &&& json::get_view(answer, "source_leaf_id"@) == Some(
                match f.source_leaf_id {
                    Some(leaf) => JsonView::Text(leaf@),
                    None => JsonView::Null,
                },
            )
            &&& json::get_view(answer, "active_leaf_id"@) == Some(
                match f.active_leaf_id {
                    Some(leaf) => JsonView::Text(leaf@),
                    None => JsonView::Null,
                },
            )
            &&& json::get_view(answer, "session_revision"@) == Some(
                json::int_view(f.session_revision as int),
            )
            &&& json::get_view(answer, "queue_revision"@) == Some(
                json::int_view(f.queue_revision as int),
            )
            &&& json::get_view(answer, "transcript_revision"@) == Some(
                json::int_view(f.transcript_revision as int),
            )
            &&& json::get_view(answer, "last_event_id"@) == Some(
                match f.last_event_id {
                    Some(id) => json::int_view(id as int),
                    None => JsonView::Null,
                },
            )
        }),
{
    reveal_strlit("session_id");
    reveal_strlit("source_session_id");
    reveal_strlit("source_leaf_id");
    reveal_strlit("active_leaf_id");
    reveal_strlit("session_revision");
    reveal_strlit("queue_revision");
    reveal_strlit("transcript_revision");
    reveal_strlit("last_event_id");
    assert("session_id"@.len() == 10);
    assert("source_session_id"@.len() == 17);
    assert("source_leaf_id"@.len() == 14);
    assert("source_leaf_id"@[0] == 's');
    assert("active_leaf_id"@.len() == 14);
    assert("active_leaf_id"@[0] == 'a');
    assert("session_revision"@.len() == 16);
    assert("queue_revision"@.len() == 14);
    assert("queue_revision"@[0] == 'q');
    assert("transcript_revision"@.len() == 19);
    assert("last_event_id"@.len() == 13);
}

} // verus!
