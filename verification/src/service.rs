//! The service operations. Each one is a flow of decisions between calls to
//! the record store: an operation starts as a `Flow`, which either is
//! finished or waits for the answer to one `StoreCall`; the caller performs
//! the call against the store and hands the `StoreReply` back to
//! `Flow::resume`, until the flow is finished with the operation's result.

use vstd::prelude::*;

use crate::embedding::{embed, profile_of, RawEmbedding};
use crate::error::AppError;
use crate::model::{EdgeData, Memory, MemoryId, Timestamp, TABLE, format_record_id, id_prefix};
use crate::outside::{current_time, is_v4_uuid_text, new_uuid_text};
use crate::text::{is_blank, is_blank_text};

verus! {

/// How many memories a search returns at most.
pub const SEARCH_LIMIT: usize = 5;

/// One call to the record store.
#[derive(Debug)]
pub enum StoreCall {
    /// Load the memory with this identifier.
    Select(MemoryId),
    /// Store a new memory, with the embedding of its content.
    Create(Memory, RawEmbedding),
    /// Replace a stored memory, with the embedding of its new content.
    Update(Memory, RawEmbedding),
    /// Delete the memory with this identifier, and its edges.
    Delete(MemoryId),
    /// Create or replace the edge from the first memory to the second.
    Relate(MemoryId, MemoryId, EdgeData),
    /// Remove the edge from the first memory to the second.
    Unrelate(MemoryId, MemoryId),
    /// List the targets of the edges that leave this memory.
    Targets(MemoryId),
    /// Find at most this many memories whose embeddings lie nearest.
    Nearest(RawEmbedding, usize),
}

/// The store's answer to a call.
#[derive(Debug)]
pub enum StoreReply {
    /// The loaded memory, or nothing where there is none.
    Selected(Option<Memory>),
    /// The new memory was stored.
    Created,
    /// Whether the memory to replace existed.
    Updated(bool),
    /// Whether the memory to delete existed.
    Deleted(bool),
    /// The edge was created or replaced.
    Related,
    /// The edge was removed.
    Unrelated,
    /// The targets of the edges that leave the memory.
    Targets(Vec<MemoryId>),
    /// The memories nearest to the query, nearest first.
    Matches(Vec<Memory>),
    /// The store failed.
    Failed,
}

/// What a finished operation gives back.
#[derive(Debug)]
pub enum Outcome {
    Memory(Memory),
    Done,
    Targets(Vec<MemoryId>),
    Memories(Vec<Memory>),
}

/// What a waiting flow does with the store's reply.
#[derive(Debug)]
pub enum Stage {
    /// Give back the loaded memory.
    ReturnLoaded,
    /// Give back the memory once it is stored.
    ConfirmCreated(Memory),
    /// Replace the loaded memory's content and embedding.
    ReviseLoaded(String, RawEmbedding),
    /// Give back the replaced memory once it is stored.
    ConfirmUpdated(Memory),
    /// Confirm the deletion.
    ConfirmDeleted,
    /// Relate the two memories if the target exists.
    RelateIfTarget(MemoryId, MemoryId, EdgeData),
    /// Confirm the new edge.
    ConfirmRelated,
    /// The source of the edge to remove exists: look for its target.
    CheckTarget(MemoryId, MemoryId),
    /// Remove the edge if its target exists.
    UnrelateIfTarget(MemoryId, MemoryId),
    /// Confirm the removal.
    ConfirmUnrelated,
    /// List the memory's edges if it exists.
    ListIfPresent(MemoryId),
    /// Give back the listed targets.
    ReturnTargets,
    /// Give back the memories found.
    ReturnMatches,
}

/// A service operation in progress.
#[derive(Debug)]
pub enum Flow {
    /// Waiting for the answer to the call.
    Waiting(StoreCall, Stage),
    /// Finished with this result.
    Finished(Result<Outcome, AppError>),
}

/// The error that refuses an edge from a memory to itself.
pub open spec fn self_edge_error(e: AppError) -> bool {
    e is BadRequest && e->BadRequest_0@ == "cannot create an edge to the same memory"@
}

/// The error that refuses an edge with blank content.
pub open spec fn blank_edge_error(e: AppError) -> bool {
    e is BadRequest && e->BadRequest_0@ == "edge content cannot be empty"@
}

/// The flow that answers a request that names a missing memory.
pub open spec fn not_found() -> Flow {
    Flow::Finished(Err(AppError::NotFound))
}

/// The flow that answers a store failure, or a reply that does not answer
/// the call.
pub open spec fn internal() -> Flow {
    Flow::Finished(Err(AppError::Internal))
}

/// What the flow in `stage` does with `reply`, at time `now`.
pub open spec fn resumed(stage: Stage, reply: StoreReply, now: Timestamp) -> Flow {
    match stage {
        Stage::ReturnLoaded => match reply {
            StoreReply::Selected(Some(m)) => Flow::Finished(Ok(Outcome::Memory(m))),
            StoreReply::Selected(None) => not_found(),
            _ => internal(),
        },
        Stage::ConfirmCreated(m) => match reply {
            StoreReply::Created => Flow::Finished(Ok(Outcome::Memory(m))),
            _ => internal(),
        },
        Stage::ReviseLoaded(content, embedding) => match reply {
            StoreReply::Selected(Some(m)) => {
                let revised = revised_memory(m, content, now);
                Flow::Waiting(StoreCall::Update(revised, embedding), Stage::ConfirmUpdated(revised))
            },
            StoreReply::Selected(None) => not_found(),
            _ => internal(),
        },
        Stage::ConfirmUpdated(m) => match reply {
            StoreReply::Updated(true) => Flow::Finished(Ok(Outcome::Memory(m))),
            StoreReply::Updated(false) => not_found(),
            _ => internal(),
        },
        Stage::ConfirmDeleted => match reply {
            StoreReply::Deleted(true) => Flow::Finished(Ok(Outcome::Done)),
            StoreReply::Deleted(false) => not_found(),
            _ => internal(),
        },
        Stage::RelateIfTarget(from, to, data) => match reply {
            StoreReply::Selected(Some(_)) => Flow::Waiting(
                StoreCall::Relate(from, to, data),
                Stage::ConfirmRelated,
            ),
            StoreReply::Selected(None) => not_found(),
            _ => internal(),
        },
        Stage::ConfirmRelated => match reply {
            StoreReply::Related => Flow::Finished(Ok(Outcome::Done)),
            _ => internal(),
        },
        Stage::CheckTarget(from, to) => match reply {
            StoreReply::Selected(Some(_)) => Flow::Waiting(
                StoreCall::Select(to),
                Stage::UnrelateIfTarget(from, to),
            ),
            StoreReply::Selected(None) => not_found(),
            _ => internal(),
        },
        Stage::UnrelateIfTarget(from, to) => match reply {
            StoreReply::Selected(Some(_)) => Flow::Waiting(
                StoreCall::Unrelate(from, to),
                Stage::ConfirmUnrelated,
            ),
            StoreReply::Selected(None) => not_found(),
            _ => internal(),
        },
        Stage::ConfirmUnrelated => match reply {
            StoreReply::Unrelated => Flow::Finished(Ok(Outcome::Done)),
            _ => internal(),
        },
        Stage::ListIfPresent(id) => match reply {
            StoreReply::Selected(Some(_)) => Flow::Waiting(StoreCall::Targets(id), Stage::ReturnTargets),
            StoreReply::Selected(None) => not_found(),
            _ => internal(),
        },
        Stage::ReturnTargets => match reply {
            StoreReply::Targets(ids) => Flow::Finished(Ok(Outcome::Targets(ids))),
            _ => internal(),
        },
        Stage::ReturnMatches => match reply {
            StoreReply::Matches(found) => Flow::Finished(Ok(Outcome::Memories(found))),
            _ => internal(),
        },
    }
}

/// `loaded` with new content, changed at `now`; its identifier and creation
/// time stay.
pub open spec fn revised_memory(loaded: Memory, content: String, now: Timestamp) -> Memory {
    Memory { id: loaded.id, content, created_at: loaded.created_at, updated_at: now }
}

/// The flow after `reply` at time `now`: a finished flow stays as it is.
pub open spec fn advanced(flow: Flow, reply: StoreReply, now: Timestamp) -> Flow {
    match flow {
        Flow::Waiting(_, stage) => resumed(stage, reply, now),
        Flow::Finished(_) => flow,
    }
}

impl Flow {
    /// Whether the flow is finished.
    pub fn is_finished(&self) -> (done: bool)
        ensures
            done == (*self is Finished),
    {
        match self {
            Flow::Finished(_) => true,
            Flow::Waiting(_, _) => false,
        }
    }

    /// Hands the store's reply to the flow, reading the clock for the time
    /// that a changed memory records.
    pub fn resume(self, reply: StoreReply) -> (next: Flow)
        ensures
            exists|now: Timestamp| next == advanced(self, reply, now),
    {
        let now = current_time();
        self.resume_at(reply, now)
    }

    /// Hands the store's reply to the flow, at time `now`.
    pub fn resume_at(self, reply: StoreReply, now: Timestamp) -> (next: Flow)
        ensures
            next == advanced(self, reply, now),
    {
        match self {
            Flow::Finished(result) => Flow::Finished(result),
            Flow::Waiting(_, stage) => resume_stage(stage, reply, now),
        }
    }
}

/// The byte profile of `text`, as `embed` computes it.
pub open spec fn profile_of_text(text: Seq<char>) -> Seq<int> {
    profile_of(vstd::utf8::encode_utf8(text))
}

/// Whether `id` is one that `generate_id` gives out: `memory:` and a random
/// UUID.
pub open spec fn is_generated_id(id: Seq<char>) -> bool {
    exists|uuid: Seq<char>| is_v4_uuid_text(uuid) && id == id_prefix() + uuid
}

/// A fresh identifier: `memory:` and a random UUID.
pub fn generate_id() -> (id: MemoryId)
    ensures
        is_generated_id(id@),
{
    proof {
        reveal_strlit("memory");
    }
    let uuid = new_uuid_text();
    let text = format_record_id(TABLE, uuid.as_str());
    assert(text@ =~= id_prefix() + uuid@);
    MemoryId(text)
}

/// The flow that loads the memory `id`.
pub open spec fn get_flow(id: MemoryId) -> Flow {
    Flow::Waiting(StoreCall::Select(id), Stage::ReturnLoaded)
}

/// Loads the memory `id`: found, it is given back; missing, `NotFound`.
pub fn get_memory(id: MemoryId) -> (flow: Flow)
    ensures
        flow == get_flow(id),
{
    Flow::Waiting(StoreCall::Select(id), Stage::ReturnLoaded)
}

/// The memory that is made of `content` under `id` at time `now`.
pub open spec fn new_memory(id: MemoryId, content: String, now: Timestamp) -> Memory {
    Memory { id, content, created_at: now, updated_at: now }
}

/// Whether `flow` creates a memory of `content` under `id` at `now`: blank
/// content is refused before any store call; otherwise the new memory and
/// the embedding of its content are stored, and the memory is given back.
pub open spec fn creates(flow: Flow, content: String, id: MemoryId, now: Timestamp) -> bool {
    if is_blank_text(content@) {
        flow matches Flow::Finished(Err(e)) && crate::embedding::blank_content_error(e)
    } else {
        flow matches Flow::Waiting(StoreCall::Create(m, e), Stage::ConfirmCreated(r))
            && m == new_memory(id, content, now) && r == m && e@ == profile_of_text(content@)
    }
}

/// Creates a memory of `content` under a fresh identifier, at the time the
/// clock shows.
pub fn create_memory(content: String) -> (flow: Flow)
    ensures
        exists|id: MemoryId, now: Timestamp|
            is_generated_id(id@) && now.seconds >= 0 && now.nanos < 1_000_000_000 && creates(
                flow,
                content,
                id,
                now,
            ),
{
    let id = generate_id();
    let now = current_time();
    create_memory_as(content, id, now)
}

/// Creates a memory of `content` under `id` at time `now`.
pub fn create_memory_as(content: String, id: MemoryId, now: Timestamp) -> (flow: Flow)
    ensures
        creates(flow, content, id, now),
{
    match embed(content.as_str()) {
        Err(e) => Flow::Finished(Err(e)),
        Ok(embedding) => {
            let memory = Memory { id, content, created_at: now, updated_at: now };
            let copy = memory.duplicate();
            Flow::Waiting(StoreCall::Create(copy, embedding), Stage::ConfirmCreated(memory))
        },
    }
}

/// Whether `flow` replaces the content of memory `id` with `content`: blank
/// content is refused before any store call; otherwise the memory is loaded
/// first.
pub open spec fn updates(flow: Flow, id: MemoryId, content: String) -> bool {
    if is_blank_text(content@) {
        flow matches Flow::Finished(Err(e)) && crate::embedding::blank_content_error(e)
    } else {
        flow matches Flow::Waiting(StoreCall::Select(target), Stage::ReviseLoaded(c, e))
            && target == id && c == content && e@ == profile_of_text(content@)
    }
}

/// Replaces the content of memory `id` with `content`, and its embedding
/// with that of `content`; its identifier and creation time stay, and the
/// time of the change is recorded.
pub fn update_memory(id: MemoryId, content: String) -> (flow: Flow)
    ensures
        updates(flow, id, content),
{
    match embed(content.as_str()) {
        Err(e) => Flow::Finished(Err(e)),
        Ok(embedding) => Flow::Waiting(StoreCall::Select(id), Stage::ReviseLoaded(content, embedding)),
    }
}

/// The flow that deletes the memory `id`.
pub open spec fn delete_flow(id: MemoryId) -> Flow {
    Flow::Waiting(StoreCall::Delete(id), Stage::ConfirmDeleted)
}

/// Deletes the memory `id` with its edges: `NotFound` where it is missing.
pub fn delete_memory(id: MemoryId) -> (flow: Flow)
    ensures
        flow == delete_flow(id),
{
    Flow::Waiting(StoreCall::Delete(id), Stage::ConfirmDeleted)
}

/// Whether `flow` relates `from` to `to` with `data`: an edge from a memory
/// to itself is refused, then one with blank content, before any store
/// call; otherwise the target is loaded first.
pub open spec fn relates(flow: Flow, from: MemoryId, to: MemoryId, data: EdgeData) -> bool {
    if from@ == to@ {
        flow matches Flow::Finished(Err(e)) && self_edge_error(e)
    } else if is_blank_text(data.content@) {
        flow matches Flow::Finished(Err(e)) && blank_edge_error(e)
    } else {
        flow == Flow::Waiting(StoreCall::Select(to), Stage::RelateIfTarget(from, to, data))
    }
}

/// Creates or replaces the edge from `from` to `to`, which must exist,
/// storing `data` on it.
pub fn add_edge(from: MemoryId, to: MemoryId, data: EdgeData) -> (flow: Flow)
    ensures
        relates(flow, from, to, data),
{
    proof {
        reveal_strlit("cannot create an edge to the same memory");
        reveal_strlit("edge content cannot be empty");
    }
    if from.0 == to.0 {
        return Flow::Finished(
            Err(AppError::BadRequest(String::from_str("cannot create an edge to the same memory"))),
        );
    }
    if is_blank(data.content.as_str()) {
        return Flow::Finished(
            Err(AppError::BadRequest(String::from_str("edge content cannot be empty"))),
        );
    }
    let target = to.duplicate();
    Flow::Waiting(StoreCall::Select(target), Stage::RelateIfTarget(from, to, data))
}

/// The flow that removes the edge from `from` to `to`.
pub open spec fn unrelate_flow(from: MemoryId, to: MemoryId) -> Flow {
    Flow::Waiting(StoreCall::Select(from), Stage::CheckTarget(from, to))
}

/// Removes the edge from `from` to `to`; both memories must exist.
pub fn remove_edge(from: MemoryId, to: MemoryId) -> (flow: Flow)
    ensures
        flow == unrelate_flow(from, to),
{
    let source = from.duplicate();
    Flow::Waiting(StoreCall::Select(source), Stage::CheckTarget(from, to))
}

/// The flow that lists the targets of the edges leaving `id`.
pub open spec fn list_flow(id: MemoryId) -> Flow {
    Flow::Waiting(StoreCall::Select(id), Stage::ListIfPresent(id))
}

/// Lists the targets of the edges that leave memory `id`, which must exist.
pub fn list_edges(id: MemoryId) -> (flow: Flow)
    ensures
        flow == list_flow(id),
{
    let source = id.duplicate();
    Flow::Waiting(StoreCall::Select(source), Stage::ListIfPresent(id))
}

/// Whether `flow` searches for the memories nearest to `query`: a blank
/// query is refused before any store call; otherwise the nearest
/// `SEARCH_LIMIT` memories to its embedding are asked for.
pub open spec fn searches(flow: Flow, query: Seq<char>) -> bool {
    if is_blank_text(query) {
        flow matches Flow::Finished(Err(e)) && crate::embedding::blank_content_error(e)
    } else {
        flow matches Flow::Waiting(StoreCall::Nearest(e, limit), Stage::ReturnMatches)
            && e@ == profile_of_text(query) && limit == SEARCH_LIMIT
    }
}

/// Searches for the memories whose embeddings lie nearest to that of
/// `query`.
pub fn search_memory(query: &str) -> (flow: Flow)
    ensures
        searches(flow, query@),
{
    match embed(query) {
        Err(e) => Flow::Finished(Err(e)),
        Ok(embedding) => Flow::Waiting(StoreCall::Nearest(embedding, SEARCH_LIMIT), Stage::ReturnMatches),
    }
}

fn resume_stage(stage: Stage, reply: StoreReply, now: Timestamp) -> (next: Flow)
    ensures
        next == resumed(stage, reply, now),
{
    match stage {
        Stage::ReturnLoaded => match reply {
            StoreReply::Selected(Some(m)) => Flow::Finished(Ok(Outcome::Memory(m))),
            StoreReply::Selected(None) => Flow::Finished(Err(AppError::NotFound)),
            _ => Flow::Finished(Err(AppError::Internal)),
        },
        Stage::ConfirmCreated(m) => match reply {
            StoreReply::Created => Flow::Finished(Ok(Outcome::Memory(m))),
            _ => Flow::Finished(Err(AppError::Internal)),
        },
        Stage::ReviseLoaded(content, embedding) => match reply {
            StoreReply::Selected(Some(m)) => {
                let revised = Memory {
                    id: m.id,
                    content,
                    created_at: m.created_at,
                    updated_at: now,
                };
                let copy = revised.duplicate();
                Flow::Waiting(StoreCall::Update(copy, embedding), Stage::ConfirmUpdated(revised))
            },
            StoreReply::Selected(None) => Flow::Finished(Err(AppError::NotFound)),
            _ => Flow::Finished(Err(AppError::Internal)),
        },
        Stage::ConfirmUpdated(m) => match reply {
            StoreReply::Updated(true) => Flow::Finished(Ok(Outcome::Memory(m))),
            StoreReply::Updated(false) => Flow::Finished(Err(AppError::NotFound)),
            _ => Flow::Finished(Err(AppError::Internal)),
        },
        Stage::ConfirmDeleted => match reply {
            StoreReply::Deleted(true) => Flow::Finished(Ok(Outcome::Done)),
            StoreReply::Deleted(false) => Flow::Finished(Err(AppError::NotFound)),
            _ => Flow::Finished(Err(AppError::Internal)),
        },
        Stage::RelateIfTarget(from, to, data) => match reply {
            StoreReply::Selected(Some(_)) => Flow::Waiting(
                StoreCall::Relate(from, to, data),
                Stage::ConfirmRelated,
            ),
            StoreReply::Selected(None) => Flow::Finished(Err(AppError::NotFound)),
            _ => Flow::Finished(Err(AppError::Internal)),
        },
        Stage::ConfirmRelated => match reply {
            StoreReply::Related => Flow::Finished(Ok(Outcome::Done)),
            _ => Flow::Finished(Err(AppError::Internal)),
        },
        Stage::CheckTarget(from, to) => match reply {
            StoreReply::Selected(Some(_)) => {
                let target = to.duplicate();
                Flow::Waiting(StoreCall::Select(target), Stage::UnrelateIfTarget(from, to))
            },
            StoreReply::Selected(None) => Flow::Finished(Err(AppError::NotFound)),
            _ => Flow::Finished(Err(AppError::Internal)),
        },
        Stage::UnrelateIfTarget(from, to) => match reply {
            StoreReply::Selected(Some(_)) => Flow::Waiting(
                StoreCall::Unrelate(from, to),
                Stage::ConfirmUnrelated,
            ),
            StoreReply::Selected(None) => Flow::Finished(Err(AppError::NotFound)),
            _ => Flow::Finished(Err(AppError::Internal)),
        },
        Stage::ConfirmUnrelated => match reply {
            StoreReply::Unrelated => Flow::Finished(Ok(Outcome::Done)),
            _ => Flow::Finished(Err(AppError::Internal)),
        },
        Stage::ListIfPresent(id) => match reply {
            StoreReply::Selected(Some(_)) => Flow::Waiting(StoreCall::Targets(id), Stage::ReturnTargets),
            StoreReply::Selected(None) => Flow::Finished(Err(AppError::NotFound)),
            _ => Flow::Finished(Err(AppError::Internal)),
        },
        Stage::ReturnTargets => match reply {
            StoreReply::Targets(ids) => Flow::Finished(Ok(Outcome::Targets(ids))),
            _ => Flow::Finished(Err(AppError::Internal)),
        },
        Stage::ReturnMatches => match reply {
            StoreReply::Matches(found) => Flow::Finished(Ok(Outcome::Memories(found))),
            _ => Flow::Finished(Err(AppError::Internal)),
        },
    }
}

} // verus!
