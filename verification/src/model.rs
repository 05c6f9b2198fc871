//! The data of the service: memories, their identifiers, edges and the
//! payloads that clients send, and the identifiers of store records.

use vstd::prelude::*;

verus! {

/// A point in time, in UTC: whole seconds since the Unix epoch and the
/// nanoseconds past that second.
#[derive(Clone, Copy, Debug, PartialEq, Eq, Structural)]
pub struct Timestamp {
    pub seconds: i64,
    pub nanos: u32,
}

/// The identifier of a memory, such as `memory:67e55044-10b1-426f-9247-bb680e5fe0c8`.
#[derive(Clone, Debug, PartialEq, Eq)]
pub struct MemoryId(pub String);

impl View for MemoryId {
    type V = Seq<char>;

    open spec fn view(&self) -> Seq<char> {
        self.0@
    }
}

/// The name of the store table that holds memories.
pub const TABLE: &'static str = "memory";

/// The prefix of every identifier that the service gives out.
pub open spec fn id_prefix() -> Seq<char> {
    seq!['m', 'e', 'm', 'o', 'r', 'y', ':']
}

/// The record key under which a memory with identifier `id` is stored: the
/// identifier without its `memory:` prefix, or the whole identifier where it
/// has none.
pub open spec fn record_key_of(id: Seq<char>) -> Seq<char> {
    if id_prefix().is_prefix_of(id) {
        id.skip(id_prefix().len() as int)
    } else {
        id
    }
}

impl MemoryId {
    /// The record key under which this memory is stored.
    pub fn key(&self) -> (key: &str)
        ensures
            key@ == record_key_of(self@),
    {
        let text = self.0.as_str();
        let n = text.unicode_len();
        if n >= 7 && text.get_char(0) == 'm' && text.get_char(1) == 'e' && text.get_char(2) == 'm'
            && text.get_char(3) == 'o' && text.get_char(4) == 'r' && text.get_char(5) == 'y'
            && text.get_char(6) == ':' {
            assert(id_prefix() =~= self@.take(7));
            text.substring_char(7, n)
        } else {
            assert(!id_prefix().is_prefix_of(self@)) by {
                if id_prefix().is_prefix_of(self@) {
                    assert(self@[0] == id_prefix()[0]);
                    assert(self@[1] == id_prefix()[1]);
                    assert(self@[2] == id_prefix()[2]);
                    assert(self@[3] == id_prefix()[3]);
                    assert(self@[4] == id_prefix()[4]);
                    assert(self@[5] == id_prefix()[5]);
                    assert(self@[6] == id_prefix()[6]);
                }
            }
            text
        }
    }

    /// A copy of this identifier.
    pub fn duplicate(&self) -> (copy: MemoryId)
        ensures
            copy == *self,
    {
        MemoryId(self.0.clone())
    }
}

/// The identifier `table:key` of a store record.
pub open spec fn record_id_text(table: Seq<char>, key: Seq<char>) -> Seq<char> {
    table + seq![':'] + key
}

/// Writes the identifier of the record with key `key` in table `table`, as
/// `table:key`.
pub fn format_record_id(table: &str, key: &str) -> (id: String)
    ensures
        id@ == record_id_text(table@, key@),
{
    proof {
        reveal_strlit(":");
    }
    let mut id = String::from_str(table);
    id.append(":");
    id.append(key);
    assert(id@ =~= record_id_text(table@, key@));
    id
}

/// A stored memory: its text and when it was made and last changed. Its
/// embedding is a function of its content (see `crate::embedding::embed`).
#[derive(Clone, Debug, PartialEq, Eq)]
pub struct Memory {
    pub id: MemoryId,
    pub content: String,
    pub created_at: Timestamp,
    pub updated_at: Timestamp,
}

impl Memory {
    /// A copy of this memory.
    pub fn duplicate(&self) -> (copy: Memory)
        ensures
            copy == *self,
    {
        Memory {
            id: self.id.duplicate(),
            content: self.content.clone(),
            created_at: self.created_at,
            updated_at: self.updated_at,
        }
    }
}

/// The data stored on an edge: its required text and any further fields
/// that the client sent, kept as they came.
#[derive(Debug, PartialEq)]
pub struct EdgeData {
    pub content: String,
    pub extra: serde_json::Map<String, serde_json::Value>,
}

/// The body of a request that creates or changes a memory.
#[derive(Clone, Debug, PartialEq, Eq)]
pub struct MemoryPayload {
    pub content: String,
}

/// The query of a search request.
#[derive(Clone, Debug, PartialEq, Eq)]
pub struct SearchQuery {
    pub q: String,
}

} // verus!
