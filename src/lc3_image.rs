use itertools::Itertools;
use vstd::prelude::*;

verus! {

/// Relies on itertools' `Itertools::tuples`: the bytes taken two at a time,
/// in order and without overlap; an odd last byte is left out.
#[verifier::external_body]
fn byte_pairs(bytes: &Vec<u8>) -> (r: Vec<(u8, u8)>)
    ensures
        r@.len() == bytes@.len() / 2,
        forall|i: int| 0 <= i < r@.len() ==> #[trigger] r@[i] == (bytes@[2 * i], bytes@[2 * i + 1]),
{
    bytes.iter().tuples().map(|(a, b): (&u8, &u8)| (*a, *b)).collect()
}

/// The `i`-th big-endian word of `bytes`.
pub open spec fn word_at(bytes: Seq<u8>, i: int) -> u16 {
    (bytes[2 * i] * 0x100 + bytes[2 * i + 1]) as u16
}

/// All the whole big-endian words of `bytes`, in order.
pub open spec fn words_of(bytes: Seq<u8>) -> Seq<u16> {
    Seq::new(bytes.len() / 2, |i: int| word_at(bytes, i))
}

/// Splits an object image into its program and its origin: the image is a
/// big-endian stream of words whose first word is the origin. `None` when
/// the image does not hold a whole first word.
pub fn parse_image(bytes: &Vec<u8>) -> (r: Option<(Vec<u16>, u16)>)
    ensures
        r is None <==> bytes@.len() < 2,
        r matches Some((program, origin)) ==> origin == word_at(bytes@, 0) && program@
            == words_of(bytes@).drop_first(),
{
    let pairs = byte_pairs(bytes);
    if pairs.len() == 0 {
        return None;
    }
    let origin = pairs[0].0 as u16 * 0x100 + pairs[0].1 as u16;
    let mut program: Vec<u16> = Vec::new();
    let mut i: usize = 1;
    while i < pairs.len()
        invariant
            1 <= i <= pairs@.len(),
            pairs@.len() == bytes@.len() / 2,
            forall|k: int| 0 <= k < pairs@.len() ==> #[trigger] pairs@[k] == (bytes@[2 * k], bytes@[2 * k + 1]),
            program@ == words_of(bytes@).subrange(1, i as int),
        decreases pairs@.len() - i,
    {
        let (a, b) = pairs[i];
        program.push(a as u16 * 0x100 + b as u16);
        assert(program@ =~= words_of(bytes@).subrange(1, i + 1));
        i = i + 1;
    }
    assert(words_of(bytes@).drop_first() =~= words_of(bytes@).subrange(1, i as int));
    Some((program, origin))
}

} // verus!
