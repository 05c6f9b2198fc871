//! What the service promises as a whole. The record store is described by
//! `StoreModel`: the memories it holds, by identifier, and the edges between
//! them, by source and target. `after` and `fits` state what a correct store
//! does with each call and may answer; `serves` runs a flow against such a
//! store. The laws below hold of every run in which the store keeps to
//! that description.

use vstd::prelude::*;

use crate::error::AppError;
use crate::embedding::profile_of;
use crate::model::{EdgeData, Memory, MemoryId, Timestamp, id_prefix, record_id_text, record_key_of};
use crate::service::{
    Flow, Outcome, Stage, StoreCall, StoreReply, SEARCH_LIMIT, advanced, creates, delete_flow,
    get_flow, list_flow, relates, searches, unrelate_flow,
    updates,
};
use crate::text::is_blank_text;

verus! {

/// The contents of the record store.
pub struct StoreModel {
    /// The memories, by identifier.
    pub records: Map<Seq<char>, Memory>,
    /// The data of each edge, by source and target.
    pub edges: Map<(Seq<char>, Seq<char>), EdgeData>,
}

/// Every memory is filed under its own identifier.
pub open spec fn well_formed(store: StoreModel) -> bool {
    forall|k: Seq<char>| #[trigger] store.records.contains_key(k) ==> store.records[k].id@ == k
}

/// The targets of the edges that leave `source`.
pub open spec fn targets_of(store: StoreModel, source: Seq<char>) -> Set<Seq<char>> {
    Set::new(|t: Seq<char>| store.edges.contains_key((source, t)))
}

/// The edges that do not touch `id`.
pub open spec fn edges_without(store: StoreModel, id: Seq<char>) -> Map<(Seq<char>, Seq<char>), EdgeData> {
    store.edges.filter_keys(|k: (Seq<char>, Seq<char>)| k.0 != id && k.1 != id)
}

/// The store's contents after `call`: a new memory is stored unless its
/// identifier is taken; a replacement only where the memory exists; a
/// deletion takes the memory's edges with it; relating creates or replaces
/// the edge; the other calls change nothing.
pub open spec fn after(store: StoreModel, call: StoreCall) -> StoreModel {
    match call {
        StoreCall::Create(m, _) => if store.records.contains_key(m.id@) {
            store
        } else {
            StoreModel { records: store.records.insert(m.id@, m), ..store }
        },
        StoreCall::Update(m, _) => if store.records.contains_key(m.id@) {
            StoreModel { records: store.records.insert(m.id@, m), ..store }
        } else {
            store
        },
        StoreCall::Delete(id) => if store.records.contains_key(id@) {
            StoreModel { records: store.records.remove(id@), edges: edges_without(store, id@) }
        } else {
            store
        },
        StoreCall::Relate(from, to, data) => StoreModel {
            edges: store.edges.insert((from@, to@), data),
            ..store
        },
        StoreCall::Unrelate(from, to) => StoreModel { edges: store.edges.remove((from@, to@)), ..store },
        _ => store,
    }
}

/// Whether `reply` is an answer that a correct store may give to `call`:
/// a load gives the stored memory or nothing; creating a taken identifier
/// fails; a replacement or deletion tells whether the memory existed; a
/// listing gives each target once; a search gives at most the asked number
/// of stored memories, in an order of the store's choosing.
pub open spec fn fits(store: StoreModel, call: StoreCall, reply: StoreReply) -> bool {
    match call {
        StoreCall::Select(id) => reply == StoreReply::Selected(
            if store.records.contains_key(id@) { Some(store.records[id@]) } else { None },
        ),
        StoreCall::Create(m, _) => if store.records.contains_key(m.id@) {
            reply == StoreReply::Failed
        } else {
            reply == StoreReply::Created
        },
        StoreCall::Update(m, _) => reply == StoreReply::Updated(store.records.contains_key(m.id@)),
        StoreCall::Delete(id) => reply == StoreReply::Deleted(store.records.contains_key(id@)),
        StoreCall::Relate(_, _, _) => reply == StoreReply::Related,
        StoreCall::Unrelate(_, _) => reply == StoreReply::Unrelated,
        StoreCall::Targets(id) => reply matches StoreReply::Targets(ids) && lists_targets(
            store,
            id@,
            ids@,
        ),
        StoreCall::Nearest(_, limit) => reply matches StoreReply::Matches(found) && finds(
            store,
            limit,
            found@,
        ),
    }
}

/// Whether `ids` names each target of the edges leaving `source` once, and
/// nothing else.
pub open spec fn lists_targets(store: StoreModel, source: Seq<char>, ids: Seq<MemoryId>) -> bool {
    &&& forall|i: int, j: int| 0 <= i < j < ids.len() ==> #[trigger] ids[i]@ != #[trigger] ids[j]@
    &&& forall|i: int| 0 <= i < ids.len() ==> targets_of(store, source).contains(#[trigger] ids[i]@)
    &&& forall|t: Seq<char>| #[trigger] targets_of(store, source).contains(t) ==> exists|i: int|
        0 <= i < ids.len() && #[trigger] ids[i]@ == t
}

/// Whether `found` is a search answer of a store: as many stored memories
/// as the limit allows, each as it is stored and none twice. Their order is
/// the store's nearness ranking, which is left open.
pub open spec fn finds(store: StoreModel, limit: usize, found: Seq<Memory>) -> bool {
    &&& found.len() == if store.records.len() < limit { store.records.len() } else { limit as nat }
    &&& forall|k: int| 0 <= k < found.len() ==> #[trigger] holds(store, found[k])
    &&& forall|i: int, j: int| 0 <= i < j < found.len() ==> #[trigger] found[i].id@ != #[trigger] found[j].id@
}

/// The identifiers that `ids` names.
pub open spec fn named(ids: Seq<MemoryId>) -> Set<Seq<char>> {
    Set::new(|t: Seq<char>| exists|i: int| 0 <= i < ids.len() && #[trigger] ids[i]@ == t)
}

/// Whether the store holds `m` as it is.
pub open spec fn holds(store: StoreModel, m: Memory) -> bool {
    store.records.contains_key(m.id@) && store.records[m.id@] == m
}

/// Runs `flow` against a correct store that starts as `store`, the store
/// answering with `replies` in turn, at time `now`: the store's final
/// contents and the flow's result, where the replies fit the calls and end
/// with the flow; nothing otherwise.
pub open spec fn serves(
    store: StoreModel,
    flow: Flow,
    replies: Seq<StoreReply>,
    now: Timestamp,
) -> Option<(StoreModel, Result<Outcome, AppError>)>
    decreases replies.len(),
{
    match flow {
        Flow::Finished(result) => if replies.len() == 0 {
            Some((store, result))
        } else {
            None
        },
        Flow::Waiting(call, _) => if replies.len() > 0 && fits(store, call, replies[0]) {
            serves(after(store, call), advanced(flow, replies[0], now), replies.drop_first(), now)
        } else {
            None
        },
    }
}

/// The number of store calls that a flow makes at most before it finishes.
pub open spec fn calls_left(flow: Flow) -> nat {
    match flow {
        Flow::Finished(_) => 0,
        Flow::Waiting(_, stage) => match stage {
            Stage::ReviseLoaded(_, _) => 2,
            Stage::RelateIfTarget(_, _, _) => 2,
            Stage::CheckTarget(_, _) => 3,
            Stage::UnrelateIfTarget(_, _) => 2,
            Stage::ListIfPresent(_) => 2,
            _ => 1,
        },
    }
}

/// Every reply brings a waiting flow nearer its end, and no operation makes
/// more than three store calls: every flow finishes.
pub proof fn law_flows_finish(flow: Flow, reply: StoreReply, now: Timestamp)
    requires
        flow is Waiting,
    ensures
        calls_left(advanced(flow, reply, now)) < calls_left(flow),
        calls_left(flow) <= 3,
{
}

/// A failure of the store ends any waiting flow with an internal error.
pub proof fn law_store_failure_is_internal(flow: Flow, now: Timestamp)
    requires
        flow is Waiting,
    ensures
        advanced(flow, StoreReply::Failed, now) == Flow::Finished(Err(AppError::Internal)),
{
}

/// The identifier of the record under which a memory is stored,
/// `memory:key`, is the memory's own identifier again.
pub proof fn law_record_id_round_trip(id: MemoryId)
    requires
        id_prefix().is_prefix_of(id@),
    ensures
        record_id_text(seq!['m', 'e', 'm', 'o', 'r', 'y'], record_key_of(id@)) == id@,
{
    assert(record_id_text(seq!['m', 'e', 'm', 'o', 'r', 'y'], record_key_of(id@)) =~= id@);
}

/// The store's contents after a run of `serves`.
pub open spec fn store_after(
    store: StoreModel,
    flow: Flow,
    replies: Seq<StoreReply>,
    now: Timestamp,
) -> StoreModel {
    serves(store, flow, replies, now).unwrap().0
}

/// The result of a run of `serves`.
pub open spec fn result_of(
    store: StoreModel,
    flow: Flow,
    replies: Seq<StoreReply>,
    now: Timestamp,
) -> Result<Outcome, AppError> {
    serves(store, flow, replies, now).unwrap().1
}

/// A memory created under a fresh identifier is given back, made and last
/// changed at the time of its creation, and a later load of that
/// identifier gives back the same memory.
pub proof fn law_create_then_get(
    store: StoreModel,
    content: String,
    id: MemoryId,
    now: Timestamp,
    create: Flow,
    replies: Seq<StoreReply>,
    lookup: Seq<StoreReply>,
    later: Timestamp,
)
    requires
        !is_blank_text(content@),
        !store.records.contains_key(id@),
        creates(create, content, id, now),
        serves(store, create, replies, now) is Some,
        serves(store_after(store, create, replies, now), get_flow(id), lookup, later) is Some,
    ensures
        result_of(store, create, replies, now) == Ok::<Outcome, AppError>(
            Outcome::Memory(Memory { id, content, created_at: now, updated_at: now }),
        ),
        result_of(store_after(store, create, replies, now), get_flow(id), lookup, later) == Ok::<
            Outcome,
            AppError,
        >(Outcome::Memory(Memory { id, content, created_at: now, updated_at: now })),
{
    reveal_with_fuel(serves, 3);
}

/// A create never overwrites: where it succeeds, its identifier was free
/// and every memory stored before stays as it was. So two creates that
/// both succeed have different identifiers, and both memories load back.
pub proof fn law_creates_never_overwrite(
    store: StoreModel,
    first_content: String,
    first_id: MemoryId,
    first_time: Timestamp,
    first: Flow,
    first_replies: Seq<StoreReply>,
    second_content: String,
    second_id: MemoryId,
    second_time: Timestamp,
    second: Flow,
    second_replies: Seq<StoreReply>,
    first_lookup: Seq<StoreReply>,
    second_lookup: Seq<StoreReply>,
    later: Timestamp,
)
    requires
        creates(first, first_content, first_id, first_time),
        creates(second, second_content, second_id, second_time),
        serves(store, first, first_replies, first_time) is Some,
        result_of(store, first, first_replies, first_time) is Ok,
        serves(store_after(store, first, first_replies, first_time), second, second_replies, second_time) is Some,
        result_of(store_after(store, first, first_replies, first_time), second, second_replies, second_time) is Ok,
        serves(
            store_after(store_after(store, first, first_replies, first_time), second, second_replies, second_time),
            get_flow(first_id),
            first_lookup,
            later,
        ) is Some,
        serves(
            store_after(store_after(store, first, first_replies, first_time), second, second_replies, second_time),
            get_flow(second_id),
            second_lookup,
            later,
        ) is Some,
    ensures
        ({
            let once = store_after(store, first, first_replies, first_time);
            let twice = store_after(once, second, second_replies, second_time);
            &&& !store.records.contains_key(first_id@)
            &&& forall|k: Seq<char>| #[trigger] store.records.contains_key(k) ==> once.records.contains_key(k)
                && once.records[k] == store.records[k]
            &&& first_id@ != second_id@
            &&& result_of(twice, get_flow(first_id), first_lookup, later) == Ok::<Outcome, AppError>(
                Outcome::Memory(Memory { id: first_id, content: first_content, created_at: first_time, updated_at: first_time }),
            )
            &&& result_of(twice, get_flow(second_id), second_lookup, later) == Ok::<Outcome, AppError>(
                Outcome::Memory(Memory { id: second_id, content: second_content, created_at: second_time, updated_at: second_time }),
            )
        }),
{
    reveal_with_fuel(serves, 3);
}

/// Changing the content of a stored memory gives back the memory with the
/// new content, its identifier and creation time kept and the time of the
/// change recorded, and a later load gives back the same.
pub proof fn law_update_then_get(
    store: StoreModel,
    id: MemoryId,
    content: String,
    update: Flow,
    replies: Seq<StoreReply>,
    now: Timestamp,
    lookup: Seq<StoreReply>,
    later: Timestamp,
)
    requires
        well_formed(store),
        !is_blank_text(content@),
        store.records.contains_key(id@),
        updates(update, id, content),
        serves(store, update, replies, now) is Some,
        serves(store_after(store, update, replies, now), get_flow(id), lookup, later) is Some,
    ensures
        ({
            let stored = store.records[id@];
            let revised = Memory {
                id: stored.id,
                content,
                created_at: stored.created_at,
                updated_at: now,
            };
            &&& revised.id@ == id@
            &&& revised.created_at == store.records[id@].created_at
            &&& revised.updated_at == now
            &&& result_of(store, update, replies, now) == Ok::<Outcome, AppError>(
                Outcome::Memory(revised),
            )
            &&& result_of(store_after(store, update, replies, now), get_flow(id), lookup, later)
                == Ok::<Outcome, AppError>(Outcome::Memory(revised))
        }),
{
    reveal_with_fuel(serves, 4);
}

/// Loading answers with the stored memory, whatever it holds, or with
/// `NotFound` where there is none; the store is left as it was.
pub proof fn law_get_gives_stored(store: StoreModel, id: MemoryId, replies: Seq<StoreReply>, now: Timestamp)
    requires
        serves(store, get_flow(id), replies, now) is Some,
    ensures
        store_after(store, get_flow(id), replies, now) == store,
        result_of(store, get_flow(id), replies, now) == if store.records.contains_key(id@) {
            Ok::<Outcome, AppError>(Outcome::Memory(store.records[id@]))
        } else {
            Err::<Outcome, AppError>(AppError::NotFound)
        },
{
    reveal_with_fuel(serves, 2);
}

/// A search asks the store for the `SEARCH_LIMIT` memories nearest to the
/// byte profile of the whole query: every byte of the query, whatever its
/// length, counts towards its slot.
pub proof fn law_search_embeds_whole_query(query: Seq<char>, search: Flow)
    requires
        !is_blank_text(query),
        searches(search, query),
    ensures
        search matches Flow::Waiting(StoreCall::Nearest(e, limit), Stage::ReturnMatches) && limit == 5
            && e@ == profile_of(vstd::utf8::encode_utf8(query)),
{
}

/// Blank content is refused before the store is asked anything, with the
/// same request error whichever operation meets it: creating, changing or
/// searching with blank text, or relating with blank edge content. An edge
/// from a memory to itself is refused the same way, whatever its content.
pub proof fn law_refusals(
    text: String,
    id: MemoryId,
    now: Timestamp,
    create: Flow,
    update: Flow,
    search: Flow,
    from: MemoryId,
    to: MemoryId,
    data: EdgeData,
    relate: Flow,
)
    requires
        creates(create, text, id, now),
        updates(update, id, text),
        searches(search, text@),
        relates(relate, from, to, data),
    ensures
        is_blank_text(text@) ==> (create matches Flow::Finished(Err(AppError::BadRequest(m)))
            && m@ == "content cannot be empty"@),
        is_blank_text(text@) ==> (update matches Flow::Finished(Err(AppError::BadRequest(m)))
            && m@ == "content cannot be empty"@),
        is_blank_text(text@) ==> (search matches Flow::Finished(Err(AppError::BadRequest(m)))
            && m@ == "content cannot be empty"@),
        from@ == to@ ==> (relate matches Flow::Finished(Err(AppError::BadRequest(m)))
            && m@ == "cannot create an edge to the same memory"@),
        from@ != to@ && is_blank_text(data.content@) ==> (relate matches Flow::Finished(
            Err(AppError::BadRequest(m)),
        ) && m@ == "edge content cannot be empty"@),
        !is_blank_text(text@) ==> create is Waiting && update is Waiting && search is Waiting,
        from@ != to@ && !is_blank_text(data.content@) ==> relate is Waiting,
{
}

/// A new memory is stored with the byte profile of its whole content, and
/// a changed one with that of its whole new content.
pub proof fn law_writes_carry_the_profile(
    text: String,
    id: MemoryId,
    now: Timestamp,
    create: Flow,
    update: Flow,
)
    requires
        !is_blank_text(text@),
        creates(create, text, id, now),
        updates(update, id, text),
    ensures
        create matches Flow::Waiting(StoreCall::Create(m, e), _) && m.content == text && e@
            == profile_of(vstd::utf8::encode_utf8(text@)),
        update matches Flow::Waiting(StoreCall::Select(target), Stage::ReviseLoaded(c, e))
            && target == id && c == text && e@ == profile_of(vstd::utf8::encode_utf8(text@)),
{
}

/// Changing the content of a missing memory is answered with `NotFound`,
/// and the store is left as it was.
pub proof fn law_update_missing(
    store: StoreModel,
    id: MemoryId,
    content: String,
    update: Flow,
    replies: Seq<StoreReply>,
    now: Timestamp,
)
    requires
        !store.records.contains_key(id@),
        updates(update, id, content),
        serves(store, update, replies, now) is Some,
    ensures
        result_of(store, update, replies, now) is Err,
        store_after(store, update, replies, now) == store,
        !is_blank_text(content@) ==> result_of(store, update, replies, now) == Err::<
            Outcome,
            AppError,
        >(AppError::NotFound),
{
    reveal_with_fuel(serves, 3);
}

/// Deleting a stored memory succeeds, and a later load of it is answered
/// with `NotFound`; deleting a missing memory is answered with `NotFound`.
pub proof fn law_delete_then_get(
    store: StoreModel,
    id: MemoryId,
    replies: Seq<StoreReply>,
    now: Timestamp,
    lookup: Seq<StoreReply>,
    later: Timestamp,
)
    requires
        serves(store, delete_flow(id), replies, now) is Some,
        serves(store_after(store, delete_flow(id), replies, now), get_flow(id), lookup, later) is Some,
    ensures
        result_of(store, delete_flow(id), replies, now) == if store.records.contains_key(id@) {
            Ok::<Outcome, AppError>(Outcome::Done)
        } else {
            Err::<Outcome, AppError>(AppError::NotFound)
        },
        result_of(store_after(store, delete_flow(id), replies, now), get_flow(id), lookup, later)
            == Err::<Outcome, AppError>(AppError::NotFound),
{
    reveal_with_fuel(serves, 3);
}

/// Deleting a stored memory removes it alone among the memories, and takes
/// every edge that touches it, and no other edge, with it: each other
/// memory's targets lose just the deleted one.
pub proof fn law_delete_takes_its_edges(
    store: StoreModel,
    id: MemoryId,
    replies: Seq<StoreReply>,
    now: Timestamp,
)
    requires
        store.records.contains_key(id@),
        serves(store, delete_flow(id), replies, now) is Some,
    ensures
        ({
            let after_delete = store_after(store, delete_flow(id), replies, now);
            &&& result_of(store, delete_flow(id), replies, now) == Ok::<Outcome, AppError>(Outcome::Done)
            &&& after_delete.records == store.records.remove(id@)
            &&& forall|k: (Seq<char>, Seq<char>)| #[trigger] after_delete.edges.contains_key(k) ==> k.0
                != id@ && k.1 != id@
            &&& forall|k: (Seq<char>, Seq<char>)|
                #[trigger] store.edges.contains_key(k) && k.0 != id@ && k.1 != id@
                    ==> after_delete.edges.contains_key(k) && after_delete.edges[k] == store.edges[k]
            &&& forall|source: Seq<char>| source != id@ ==> #[trigger] targets_of(after_delete, source)
                == targets_of(store, source).remove(id@)
        }),
{
    reveal_with_fuel(serves, 3);
    let after_delete = store_after(store, delete_flow(id), replies, now);
    assert(after_delete.edges == edges_without(store, id@));
    assert forall|source: Seq<char>| source != id@ implies #[trigger] targets_of(after_delete, source)
        == targets_of(store, source).remove(id@) by {
        assert(targets_of(after_delete, source) =~= targets_of(store, source).remove(id@));
    }
}

/// Deleting a memory takes the edges that lead to it away: a later listing
/// of the edges of another memory does not name it.
pub proof fn law_delete_removes_edges(
    store: StoreModel,
    id: MemoryId,
    other: MemoryId,
    replies: Seq<StoreReply>,
    now: Timestamp,
    listing: Seq<StoreReply>,
    later: Timestamp,
)
    requires
        store.records.contains_key(id@),
        serves(store, delete_flow(id), replies, now) is Some,
        serves(store_after(store, delete_flow(id), replies, now), list_flow(other), listing, later) is Some,
    ensures
        result_of(store_after(store, delete_flow(id), replies, now), list_flow(other), listing, later) matches Ok(
            Outcome::Targets(ids),
        ) ==> forall|i: int| 0 <= i < ids@.len() ==> #[trigger] ids@[i]@ != id@,
{
    reveal_with_fuel(serves, 4);
    let s1 = store_after(store, delete_flow(id), replies, now);
    let r = result_of(s1, list_flow(other), listing, later);
    if let Ok(Outcome::Targets(ids)) = r {
        assert forall|i: int| 0 <= i < ids@.len() implies #[trigger] ids@[i]@ != id@ by {
            assert(targets_of(s1, other@).contains(ids@[i]@));
        }
    }
}

/// Relating two stored memories succeeds, and a later listing of the
/// source's edges names the target; where the source had no edges before,
/// the listing names the target alone.
pub proof fn law_add_edge_then_list(
    store: StoreModel,
    from: MemoryId,
    to: MemoryId,
    data: EdgeData,
    relate: Flow,
    replies: Seq<StoreReply>,
    now: Timestamp,
    listing: Seq<StoreReply>,
    later: Timestamp,
)
    requires
        from@ != to@,
        !is_blank_text(data.content@),
        store.records.contains_key(from@),
        store.records.contains_key(to@),
        relates(relate, from, to, data),
        serves(store, relate, replies, now) is Some,
        serves(store_after(store, relate, replies, now), list_flow(from), listing, later) is Some,
    ensures
        result_of(store, relate, replies, now) == Ok::<Outcome, AppError>(Outcome::Done),
        result_of(store_after(store, relate, replies, now), list_flow(from), listing, later) matches Ok(
            Outcome::Targets(ids),
        ) && (exists|i: int| 0 <= i < ids@.len() && #[trigger] ids@[i]@ == to@) && (targets_of(
            store,
            from@,
        ).is_empty() ==> ids@.len() == 1 && ids@[0]@ == to@),
{
    reveal_with_fuel(serves, 4);
    let s1 = store_after(store, relate, replies, now);
    assert(s1.edges == store.edges.insert((from@, to@), data));
    assert(targets_of(s1, from@).contains(to@));
    let r = result_of(s1, list_flow(from), listing, later);
    if let Ok(Outcome::Targets(ids)) = r {
        if targets_of(store, from@).is_empty() {
            assert(ids@.len() >= 1);
            if ids@.len() > 1 {
                assert(targets_of(s1, from@).contains(ids@[0]@));
                assert(targets_of(s1, from@).contains(ids@[1]@));
                if ids@[0]@ != to@ {
                    assert(targets_of(store, from@).contains(ids@[0]@));
                } else {
                    assert(targets_of(store, from@).contains(ids@[1]@));
                }
            }
            if ids@[0]@ != to@ {
                assert(targets_of(store, from@).contains(ids@[0]@));
            }
        }
    }
}

/// Removing the edge between two stored memories succeeds, and a later
/// listing of the source's edges does not name the target.
pub proof fn law_remove_edge_then_list(
    store: StoreModel,
    from: MemoryId,
    to: MemoryId,
    replies: Seq<StoreReply>,
    now: Timestamp,
    listing: Seq<StoreReply>,
    later: Timestamp,
)
    requires
        store.records.contains_key(from@),
        store.records.contains_key(to@),
        serves(store, unrelate_flow(from, to), replies, now) is Some,
        serves(store_after(store, unrelate_flow(from, to), replies, now), list_flow(from), listing, later) is Some,
    ensures
        result_of(store, unrelate_flow(from, to), replies, now) == Ok::<Outcome, AppError>(Outcome::Done),
        result_of(store_after(store, unrelate_flow(from, to), replies, now), list_flow(from), listing, later) matches Ok(
            Outcome::Targets(ids),
        ) && forall|i: int| 0 <= i < ids@.len() ==> #[trigger] ids@[i]@ != to@,
{
    reveal_with_fuel(serves, 5);
    let s1 = store_after(store, unrelate_flow(from, to), replies, now);
    assert(s1.edges == store.edges.remove((from@, to@)));
    let r = result_of(s1, list_flow(from), listing, later);
    if let Ok(Outcome::Targets(ids)) = r {
        assert forall|i: int| 0 <= i < ids@.len() implies #[trigger] ids@[i]@ != to@ by {
            assert(targets_of(s1, from@).contains(ids@[i]@));
        }
    }
}

/// Edges are directed, and a listing names outgoing targets only: relating
/// `from` to `to` leaves what a listing of `to` names as it was before, each
/// listing naming exactly the targets of `to`'s own edges, once each.
pub proof fn law_edges_are_directed(
    store: StoreModel,
    from: MemoryId,
    to: MemoryId,
    data: EdgeData,
    relate: Flow,
    before: Seq<StoreReply>,
    replies: Seq<StoreReply>,
    after_relate: Seq<StoreReply>,
    now: Timestamp,
)
    requires
        from@ != to@,
        !is_blank_text(data.content@),
        store.records.contains_key(to@),
        relates(relate, from, to, data),
        serves(store, list_flow(to), before, now) is Some,
        serves(store, relate, replies, now) is Some,
        serves(store_after(store, relate, replies, now), list_flow(to), after_relate, now) is Some,
    ensures
        result_of(store, list_flow(to), before, now) matches Ok(Outcome::Targets(earlier))
            && result_of(store_after(store, relate, replies, now), list_flow(to), after_relate, now) matches Ok(
            Outcome::Targets(later),
        ) && named(earlier@) == targets_of(store, to@) && named(later@) == targets_of(store, to@)
            && lists_targets(store, to@, earlier@) && lists_targets(store, to@, later@),
{
    reveal_with_fuel(serves, 4);
    let s1 = store_after(store, relate, replies, now);
    assert(targets_of(s1, to@) =~= targets_of(store, to@));
    if let Ok(Outcome::Targets(earlier)) = result_of(store, list_flow(to), before, now) {
        assert(named(earlier@) =~= targets_of(store, to@));
    }
    if let Ok(Outcome::Targets(later)) = result_of(s1, list_flow(to), after_relate, now) {
        assert(lists_targets(s1, to@, later@));
        assert(named(later@) =~= targets_of(store, to@));
    }
}

/// Removing an edge just added undoes the addition: where the edge was not
/// there before, adding and then removing it leaves the edges and the
/// memories as they were.
pub proof fn law_remove_undoes_add(
    store: StoreModel,
    from: MemoryId,
    to: MemoryId,
    data: EdgeData,
    relate: Flow,
    replies: Seq<StoreReply>,
    removals: Seq<StoreReply>,
    now: Timestamp,
    later: Timestamp,
)
    requires
        !store.edges.contains_key((from@, to@)),
        store.records.contains_key(from@),
        relates(relate, from, to, data),
        serves(store, relate, replies, now) is Some,
        result_of(store, relate, replies, now) is Ok,
        serves(store_after(store, relate, replies, now), unrelate_flow(from, to), removals, later) is Some,
    ensures
        ({
            let undone = store_after(store_after(store, relate, replies, now), unrelate_flow(from, to), removals, later);
            &&& result_of(store_after(store, relate, replies, now), unrelate_flow(from, to), removals, later)
                == Ok::<Outcome, AppError>(Outcome::Done)
            &&& undone.edges == store.edges
            &&& undone.records == store.records
        }),
{
    reveal_with_fuel(serves, 4);
    let once = store_after(store, relate, replies, now);
    let undone = store_after(once, unrelate_flow(from, to), removals, later);
    assert(undone.edges =~= store.edges);
}

/// A search gives back at most `SEARCH_LIMIT` memories, each of them stored
/// as it is, and changes nothing.
pub proof fn law_search_gives_stored(
    store: StoreModel,
    query: Seq<char>,
    search: Flow,
    replies: Seq<StoreReply>,
    now: Timestamp,
)
    requires
        !is_blank_text(query),
        searches(search, query),
        serves(store, search, replies, now) is Some,
    ensures
        store_after(store, search, replies, now) == store,
        result_of(store, search, replies, now) matches Ok(Outcome::Memories(found)) && found@.len()
            <= SEARCH_LIMIT && finds(store, SEARCH_LIMIT, found@),
{
    reveal_with_fuel(serves, 3);
}

/// Edges are kept apart from the memories: adding or removing an edge, or
/// listing edges, leaves every stored memory as it was.
pub proof fn law_edges_leave_memories(
    store: StoreModel,
    from: MemoryId,
    to: MemoryId,
    data: EdgeData,
    relate: Flow,
    replies: Seq<StoreReply>,
    removals: Seq<StoreReply>,
    listing: Seq<StoreReply>,
    now: Timestamp,
)
    requires
        relates(relate, from, to, data),
        serves(store, relate, replies, now) is Some,
        serves(store, unrelate_flow(from, to), removals, now) is Some,
        serves(store, list_flow(from), listing, now) is Some,
    ensures
        store_after(store, relate, replies, now).records == store.records,
        store_after(store, unrelate_flow(from, to), removals, now).records == store.records,
        store_after(store, list_flow(from), listing, now) == store,
{
    reveal_with_fuel(serves, 4);
}

/// A refused request makes no store call and leaves the store as it was:
/// a flow that starts finished is served with no reply.
pub proof fn law_refusals_change_nothing(
    store: StoreModel,
    result: Result<Outcome, AppError>,
    now: Timestamp,
)
    ensures
        serves(store, Flow::Finished(result), Seq::empty(), now) == Some((store, result)),
{
}

/// Relating two memories again replaces the data of their edge and adds no
/// second edge: the source's targets stay as the first relation left them.
pub proof fn law_relate_replaces(
    store: StoreModel,
    from: MemoryId,
    to: MemoryId,
    first: EdgeData,
    second: EdgeData,
    relate_first: Flow,
    relate_second: Flow,
    replies: Seq<StoreReply>,
    more: Seq<StoreReply>,
    now: Timestamp,
    later: Timestamp,
)
    requires
        relates(relate_first, from, to, first),
        relates(relate_second, from, to, second),
        !is_blank_text(second.content@),
        serves(store, relate_first, replies, now) is Some,
        serves(store_after(store, relate_first, replies, now), relate_second, more, later) is Some,
        result_of(store, relate_first, replies, now) is Ok,
    ensures
        ({
            let once = store_after(store, relate_first, replies, now);
            let twice = store_after(once, relate_second, more, later);
            &&& result_of(once, relate_second, more, later) == Ok::<Outcome, AppError>(Outcome::Done)
            &&& twice.edges.contains_key((from@, to@))
            &&& twice.edges[(from@, to@)] == second
            &&& targets_of(twice, from@) == targets_of(once, from@)
        }),
{
    reveal_with_fuel(serves, 3);
    let once = store_after(store, relate_first, replies, now);
    let twice = store_after(once, relate_second, more, later);
    assert(targets_of(twice, from@) =~= targets_of(once, from@));
}

} // verus!
