//! Chance.

use vstd::prelude::*;

use rand::Rng;

verus! {

/// `rand::Rng::fill` of the thread's generator on sixteen bytes. They come
/// by chance: nothing is claimed of them.
#[verifier::external_body]
fn random_bytes() -> [u8; 16] {
    let mut bytes = [0u8; 16];
    rand::thread_rng().fill(&mut bytes);
    bytes
}

/// `rand::Rng::gen_range` of the thread's generator over `0..=max`. The
/// number comes by chance; claimed is that it lies in the range.
#[verifier::external_body]
fn random_up_to(max: u64) -> (n: u64)
    ensures
        n <= max,
{
    rand::thread_rng().gen_range(0..=max)
}

/// Chance can give these sixteen bytes.
pub closed spec fn bytes_drawn(bytes: Seq<u8>) -> bool {
    exists|drawn: [u8; 16]| #[trigger] call_ensures(random_bytes, (), drawn) && drawn@ == bytes
}

/// Chance can give the number `n` out of `0..=max`.
pub closed spec fn number_drawn(max: u64, n: u64) -> bool {
    call_ensures(random_up_to, (max,), n)
}

/// Draw sixteen bytes.
pub(crate) fn draw_bytes() -> (bytes: [u8; 16])
    ensures
        bytes_drawn(bytes@),
{
    random_bytes()
}

/// Draw a number out of `0..=max`.
pub(crate) fn draw_up_to(max: u64) -> (n: u64)
    ensures
        n <= max,
        number_drawn(max, n),
{
    random_up_to(max)
}

} // verus!
