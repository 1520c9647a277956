//! The fixed order in which the bytes of a reading are laid into a seed.
//!
//! A clock or an address changes mostly in its low bytes, and a generator
//! may take every byte of its seed to be equally unpredictable. So the
//! bytes are spread: the even places of the seed take the source bytes from
//! the last backwards, the odd places take them from the first forwards,
//! and no two of the eight low bytes end up side by side.

use vstd::prelude::*;

verus! {

/// Place `i` of the seed takes the byte at place `spread()[i]` of the source.
pub open spec fn spread() -> Seq<int> {
    seq![15int, 0, 13, 2, 11, 4, 9, 6, 7, 8, 5, 10, 3, 12, 1, 14]
}

/// Place `p` of the source is found at place `gather()[p]` of the seed.
pub open spec fn gather() -> Seq<int> {
    seq![1int, 14, 3, 12, 5, 10, 7, 8, 9, 6, 11, 4, 13, 2, 15, 0]
}

/// Sixteen bytes in seed order.
pub open spec fn permuted(bytes: Seq<u8>) -> Seq<u8> {
    Seq::new(16, |i: int| bytes[spread()[i]])
}

/// Sixteen bytes of a seed, back in source order.
pub open spec fn unpermuted(bytes: Seq<u8>) -> Seq<u8> {
    Seq::new(16, |p: int| bytes[gather()[p]])
}

/// The sixteen places as bytes, in their own order.
pub open spec fn places() -> Seq<u8> {
    Seq::new(16, |i: int| i as u8)
}

/// Lays sixteen bytes into seed order.
pub fn permute(bytes: [u8; 16]) -> (out: [u8; 16])
    ensures
        out@ == permuted(bytes@),
{
    let out: [u8; 16] = [
        bytes[15],
        bytes[0],
        bytes[13],
        bytes[2],
        bytes[11],
        bytes[4],
        bytes[9],
        bytes[6],
        bytes[7],
        bytes[8],
        bytes[5],
        bytes[10],
        bytes[3],
        bytes[12],
        bytes[1],
        bytes[14],
    ];
    assert(out@ =~= permuted(bytes@));
    out
}

/// Puts the bytes of a seed back into source order.
pub fn unpermute(bytes: [u8; 16]) -> (out: [u8; 16])
    ensures
        out@ == unpermuted(bytes@),
{
    let out: [u8; 16] = [
        bytes[1],
        bytes[14],
        bytes[3],
        bytes[12],
        bytes[5],
        bytes[10],
        bytes[7],
        bytes[8],
        bytes[9],
        bytes[6],
        bytes[11],
        bytes[4],
        bytes[13],
        bytes[2],
        bytes[15],
        bytes[0],
    ];
    assert(out@ =~= unpermuted(bytes@));
    out
}

/// The spread is a bijection on the sixteen places: it stays within them,
/// no two places take the same source byte, every source byte is taken,
/// and `gather` is its inverse.
pub proof fn lemma_spread_is_bijection()
    ensures
        spread().len() == 16,
        gather().len() == 16,
        forall|i: int| 0 <= i < 16 ==> 0 <= #[trigger] spread()[i] < 16,
        forall|i: int, j: int|
            0 <= i < 16 && 0 <= j < 16 && i != j ==> #[trigger] spread()[i] != #[trigger] spread()[j],
        forall|p: int| 0 <= p < 16 ==> 0 <= #[trigger] gather()[p] < 16 && spread()[gather()[p]] == p,
        forall|i: int| 0 <= i < 16 ==> gather()[#[trigger] spread()[i]] == i,
{
}

/// The rule behind the table: an even place takes the source byte as far
/// from the end as the place is from the front, an odd place takes the one
/// just before it.
pub proof fn lemma_spread_rule()
    ensures
        forall|i: int| 0 <= i < 16 && i % 2 == 0 ==> #[trigger] spread()[i] == 15 - i,
        forall|i: int| 0 <= i < 16 && i % 2 == 1 ==> #[trigger] spread()[i] == i - 1,
{
}

/// The places `0, 1, .., 15` themselves, laid into seed order, hold each
/// place exactly once: place `p` stands at `gather()[p]` and nowhere else.
pub proof fn lemma_places_each_once()
    ensures
        forall|p: int| 0 <= p < 16 ==> permuted(places())[#[trigger] gather()[p]] == p,
        forall|i: int, j: int|
            0 <= i < 16 && 0 <= j < 16 && i != j ==> #[trigger] permuted(places())[i]
                != #[trigger] permuted(places())[j],
{
    lemma_spread_is_bijection();
}

/// The eight low bytes of a reading, which change most from one reading to
/// the next, stand apart in the seed: no two of them are neighbours.
pub proof fn lemma_low_bytes_stand_apart()
    ensures
        forall|p: int, q: int|
            8 <= p < 16 && 8 <= q < 16 && p != q ==> #[trigger] gather()[p] - #[trigger] gather()[q]
                >= 2 || gather()[q] - gather()[p] >= 2,
{
}

/// Spreading and gathering undo each other.
pub proof fn lemma_permute_round_trip(bytes: Seq<u8>)
    requires
        bytes.len() == 16,
    ensures
        unpermuted(permuted(bytes)) == bytes,
        permuted(unpermuted(bytes)) == bytes,
{
    lemma_spread_is_bijection();
    assert(unpermuted(permuted(bytes)) =~= bytes);
    assert(permuted(unpermuted(bytes)) =~= bytes);
}

/// Spreading loses nothing: different sources give different seeds.
pub proof fn lemma_permuted_injective(a: Seq<u8>, b: Seq<u8>)
    requires
        a.len() == 16,
        b.len() == 16,
        permuted(a) == permuted(b),
    ensures
        a == b,
{
    lemma_permute_round_trip(a);
    lemma_permute_round_trip(b);
}

} // verus!
