//! The embedding of a text: its UTF-8 bytes spread over a fixed number of
//! slots, byte `i` going to slot `i % EMBEDDING_SIZE`. This module computes
//! the byte mass of each slot exactly; scaling each slot by 1/255 and the
//! whole vector to unit length is floating-point work done by the caller.

use vstd::prelude::*;
use vstd::string::StringSliceAdditionalSpecFns;

use crate::error::AppError;
use crate::text::{is_blank, is_blank_text};

verus! {

/// The name of the embedding model that the stored vectors follow.
pub const EMBEDDING_MODEL: &'static str = "google-embedding-2";

/// The number of slots of an embedding.
pub const EMBEDDING_SIZE: usize = 8;

/// The sum of the bytes among the first `n` of `bytes` whose position falls
/// in `slot`.
pub open spec fn slot_mass(bytes: Seq<u8>, n: nat, slot: int) -> int
    decreases n,
{
    if n == 0 {
        0
    } else {
        let i = (n - 1) as int;
        slot_mass(bytes, (n - 1) as nat, slot) + if i % (EMBEDDING_SIZE as int) == slot {
            bytes[i] as int
        } else {
            0
        }
    }
}

/// The byte mass of every slot of `bytes`.
pub open spec fn profile_of(bytes: Seq<u8>) -> Seq<int> {
    Seq::new(EMBEDDING_SIZE as nat, |slot: int| slot_mass(bytes, bytes.len(), slot))
}

/// A slot never holds more than 255 for each byte seen.
pub proof fn lemma_slot_mass_bound(bytes: Seq<u8>, n: nat, slot: int)
    ensures
        0 <= slot_mass(bytes, n, slot) <= 255 * n,
    decreases n,
{
    if n > 0 {
        lemma_slot_mass_bound(bytes, (n - 1) as nat, slot);
    }
}

/// The slots of a prefix are those of the whole sequence up to its end.
pub proof fn lemma_slot_mass_prefix(bytes: Seq<u8>, more: Seq<u8>, n: nat, slot: int)
    requires
        n <= bytes.len(),
    ensures
        slot_mass(bytes + more, n, slot) == slot_mass(bytes, n, slot),
    decreases n,
{
    if n > 0 {
        lemma_slot_mass_prefix(bytes, more, (n - 1) as nat, slot);
        assert((bytes + more)[n - 1] == bytes[n - 1]);
    }
}

/// The profile of no bytes is all zeros, in `EMBEDDING_SIZE` slots.
pub proof fn law_profile_of_nothing()
    ensures
        profile_of(Seq::<u8>::empty()) == Seq::new(8, |slot: int| 0int),
{
    assert(profile_of(Seq::<u8>::empty()) =~= Seq::new(8, |slot: int| 0int));
}

/// Every byte counts at its full value in exactly one slot: one byte more
/// adds its value to slot `len % 8` and changes no other slot.
pub proof fn law_profile_of_one_more(bytes: Seq<u8>, b: u8)
    ensures
        profile_of(bytes.push(b)) == profile_of(bytes).update(
            (bytes.len() % 8) as int,
            profile_of(bytes)[(bytes.len() % 8) as int] + b as int,
        ),
{
    let longer = bytes.push(b);
    assert forall|slot: int| 0 <= slot < 8 implies #[trigger] profile_of(longer)[slot] == profile_of(
        bytes,
    ).update((bytes.len() % 8) as int, profile_of(bytes)[(bytes.len() % 8) as int] + b as int)[slot] by {
        assert(longer == bytes + seq![b]);
        lemma_slot_mass_prefix(bytes, seq![b], bytes.len(), slot);
        assert(longer[bytes.len() as int] == b);
    }
    assert(profile_of(longer) =~= profile_of(bytes).update(
        (bytes.len() % 8) as int,
        profile_of(bytes)[(bytes.len() % 8) as int] + b as int,
    ));
}

/// A block of `EMBEDDING_SIZE` NUL characters.
pub open spec fn nul_block() -> Seq<char> {
    Seq::new(EMBEDDING_SIZE as nat, |i: int| '\0')
}

/// The UTF-8 encoding of two texts one after the other is the encoding of
/// the first followed by that of the second.
pub proof fn lemma_encode_concat(a: Seq<char>, b: Seq<char>)
    ensures
        vstd::utf8::encode_utf8(a + b) == vstd::utf8::encode_utf8(a) + vstd::utf8::encode_utf8(b),
    decreases a.len(),
{
    if a.len() == 0 {
        assert(a + b =~= b);
        assert(vstd::utf8::encode_utf8(a) + vstd::utf8::encode_utf8(b) =~= vstd::utf8::encode_utf8(b));
    } else {
        lemma_encode_concat(a.drop_first(), b);
        assert((a + b).drop_first() =~= a.drop_first() + b);
        assert((a + b)[0] == a[0]);
        let head = vstd::utf8::encode_scalar(a[0] as u32);
        assert(head + (vstd::utf8::encode_utf8(a.drop_first()) + vstd::utf8::encode_utf8(b))
            =~= (head + vstd::utf8::encode_utf8(a.drop_first())) + vstd::utf8::encode_utf8(b));
    }
}

/// Each NUL character is encoded as one zero byte.
pub proof fn lemma_encode_nul_block(k: nat)
    requires
        k <= EMBEDDING_SIZE,
    ensures
        vstd::utf8::encode_utf8(nul_block().take(k as int)) == Seq::new(k, |i: int| 0u8),
    decreases k,
{
    let chars = nul_block().take(k as int);
    if k > 0 {
        lemma_encode_nul_block((k - 1) as nat);
        assert(chars.drop_first() =~= nul_block().take(k - 1));
        assert(0u32 & 0x7F == 0) by (bit_vector);
        assert(chars[0] == '\0');
        assert(vstd::utf8::encode_scalar(chars[0] as u32) =~= seq![0u8]);
        assert(seq![0u8] + Seq::new((k - 1) as nat, |i: int| 0u8) =~= Seq::new(k, |i: int| 0u8));
    } else {
        assert(chars =~= Seq::<char>::empty());
        assert(Seq::new(k, |i: int| 0u8) =~= Seq::<u8>::empty());
    }
}

/// Putting a block of `EMBEDDING_SIZE` zero bytes in front moves every
/// byte by a whole round of slots: each slot keeps its mass.
pub proof fn lemma_zero_block_mass(bytes: Seq<u8>, n: nat, slot: int)
    requires
        n <= bytes.len(),
    ensures
        slot_mass(Seq::new(EMBEDDING_SIZE as nat, |i: int| 0u8) + bytes, n + EMBEDDING_SIZE as nat, slot)
            == slot_mass(bytes, n, slot),
    decreases n,
{
    let zeros = Seq::new(EMBEDDING_SIZE as nat, |i: int| 0u8);
    let padded = zeros + bytes;
    if n == 0 {
        reveal_with_fuel(slot_mass, 9);
    } else {
        lemma_zero_block_mass(bytes, (n - 1) as nat, slot);
        let i = (n - 1) as int;
        assert(padded[i + 8] == bytes[i]);
        assert((i + 8) % 8 == i % 8);
    }
}

/// A text with `EMBEDDING_SIZE` NUL characters put in front is never blank,
/// and it has the byte profile of the text itself: `embed` gives the same
/// slot masses for both wherever the text itself is not blank.
pub proof fn law_nul_block_keeps_profile(text: Seq<char>)
    ensures
        !is_blank_text(nul_block() + text),
        profile_of(vstd::utf8::encode_utf8(nul_block() + text)) == profile_of(vstd::utf8::encode_utf8(text)),
{
    assert((nul_block() + text)[0] == '\0');
    let bytes = vstd::utf8::encode_utf8(text);
    lemma_encode_concat(nul_block(), text);
    lemma_encode_nul_block(EMBEDDING_SIZE as nat);
    assert(nul_block().take(EMBEDDING_SIZE as int) =~= nul_block());
    let padded = vstd::utf8::encode_utf8(nul_block() + text);
    assert forall|slot: int| 0 <= slot < EMBEDDING_SIZE implies #[trigger] profile_of(padded)[slot]
        == profile_of(bytes)[slot] by {
        lemma_zero_block_mass(bytes, bytes.len(), slot);
    }
    assert(profile_of(padded) =~= profile_of(bytes));
}

/// The byte mass of each slot of a text, before it is scaled into a unit
/// vector.
#[derive(Clone, Debug)]
pub struct RawEmbedding {
    pub slots: Vec<u128>,
}

impl View for RawEmbedding {
    type V = Seq<int>;

    open spec fn view(&self) -> Seq<int> {
        self.slots@.map_values(|v: u128| v as int)
    }
}

/// The error that refuses blank content.
pub open spec fn blank_content_error(e: AppError) -> bool {
    e is BadRequest && e->BadRequest_0@ == "content cannot be empty"@
}

/// Embeds `text`: refused with `BadRequest` when it is blank, and otherwise
/// the byte mass of each slot of its UTF-8 encoding.
pub fn embed(text: &str) -> (result: Result<RawEmbedding, AppError>)
    ensures
        is_blank_text(text@) <==> result is Err,
        result matches Err(e) ==> blank_content_error(e),
        result matches Ok(embedding) ==> embedding@ == profile_of(text.spec_bytes()),
{
    if is_blank(text) {
        return Err(AppError::BadRequest(String::from_str("content cannot be empty")));
    }
    let bytes = text.as_bytes();
    let mut slots: Vec<u128> = Vec::new();
    let mut k: usize = 0;
    while k < EMBEDDING_SIZE
        invariant
            k <= EMBEDDING_SIZE,
            slots@.len() == k,
            forall|s: int| 0 <= s < k ==> slots@[s] == 0,
        decreases EMBEDDING_SIZE - k,
    {
        slots.push(0);
        k = k + 1;
    }
    let n = bytes.len();
    let mut i: usize = 0;
    while i < n
        invariant
            n == bytes@.len(),
            bytes@ == text.spec_bytes(),
            i <= n,
            slots@.len() == EMBEDDING_SIZE,
            forall|s: int| 0 <= s < EMBEDDING_SIZE ==> slots@[s] == slot_mass(bytes@, i as nat, s),
        decreases n - i,
    {
        let slot = i % EMBEDDING_SIZE;
        proof {
            lemma_slot_mass_bound(bytes@, i as nat, slot as int);
            assert(255 * (i as int) < 255 * 0x1_0000_0000_0000_0000int);
        }
        let value = slots[slot] + bytes[i] as u128;
        slots.set(slot, value);
        i = i + 1;
    }
    let embedding = RawEmbedding { slots };
    assert(embedding@ =~= profile_of(text.spec_bytes()));
    Ok(embedding)
}

} // verus!
