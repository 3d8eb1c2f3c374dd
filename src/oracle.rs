use vstd::prelude::*;
use std::collections::hash_map::DefaultHasher;
use std::hash::Hasher;
use vstd::std_specs::hash::DefaultHasherAdditionalSpecFns;

verus! {

/// The outcome of revealing one cell.
#[derive(Clone, Copy, Debug, PartialEq, Eq, Structural)]
pub enum StepStatus {
    Empty,
    Exploded,
    Gold,
}

/// Outcome of a draw `random` against what is left of the grid: with
/// `r = random % remaining_all`, `Empty` when `r <= remaining_empty`, else
/// `Gold` when `r <= remaining_empty + remaining_gold`, else `Exploded`.
pub open spec fn classify_spec(
    remaining_all: int,
    remaining_empty: int,
    remaining_gold: int,
    random: int,
) -> StepStatus {
    let r = random % remaining_all;
    if r <= remaining_empty {
        StepStatus::Empty
    } else if r <= remaining_empty + remaining_gold {
        StepStatus::Gold
    } else {
        StepStatus::Exploded
    }
}

/// Classifies a draw against the cells left on the grid.
pub fn classify(remaining_all: u16, remaining_empty: u16, remaining_gold: u16, random: u64) -> (r:
    StepStatus)
    requires
        remaining_all > 0,
    ensures
        r == classify_spec(
            remaining_all as int,
            remaining_empty as int,
            remaining_gold as int,
            random as int,
        ),
{
    let rem: u64 = random % (remaining_all as u64);
    if rem <= remaining_empty as u64 {
        StepStatus::Empty
    } else if rem <= remaining_empty as u64 + remaining_gold as u64 {
        StepStatus::Gold
    } else {
        StepStatus::Exploded
    }
}

/// Little-endian bytes of a `u64`.
pub open spec fn le_bytes_u64(x: u64) -> Seq<u8> {
    seq![
        (x & 0xff) as u8,
        ((x >> 8) & 0xff) as u8,
        ((x >> 16) & 0xff) as u8,
        ((x >> 24) & 0xff) as u8,
        ((x >> 32) & 0xff) as u8,
        ((x >> 40) & 0xff) as u8,
        ((x >> 48) & 0xff) as u8,
        ((x >> 56) & 0xff) as u8,
    ]
}

/// Little-endian bytes of a `u32`.
pub open spec fn le_bytes_u32(x: u32) -> Seq<u8> {
    seq![
        (x & 0xff) as u8,
        ((x >> 8) & 0xff) as u8,
        ((x >> 16) & 0xff) as u8,
        ((x >> 24) & 0xff) as u8,
    ]
}

/// The value drawn from a timestamp, a counter and a balance: the default
/// hasher's digest of their little-endian bytes, in that order.
pub open spec fn draw_spec(now: u64, counter: u32, balance: u64) -> u64 {
    DefaultHasher::spec_finish(seq![le_bytes_u64(now), le_bytes_u32(counter), le_bytes_u64(balance)])
}

fn u64_bytes(x: u64) -> (r: [u8; 8])
    ensures
        r@ == le_bytes_u64(x),
{
    let r = [
        (x & 0xff) as u8,
        ((x >> 8) & 0xff) as u8,
        ((x >> 16) & 0xff) as u8,
        ((x >> 24) & 0xff) as u8,
        ((x >> 32) & 0xff) as u8,
        ((x >> 40) & 0xff) as u8,
        ((x >> 48) & 0xff) as u8,
        ((x >> 56) & 0xff) as u8,
    ];
    assert(r@ =~= le_bytes_u64(x));
    r
}

fn u32_bytes(x: u32) -> (r: [u8; 4])
    ensures
        r@ == le_bytes_u32(x),
{
    let r = [
        (x & 0xff) as u8,
        ((x >> 8) & 0xff) as u8,
        ((x >> 16) & 0xff) as u8,
        ((x >> 24) & 0xff) as u8,
    ];
    assert(r@ =~= le_bytes_u32(x));
    r
}

/// Mixes a timestamp, a counter and a balance into a pseudo-random value.
/// Not resistant to an adversary who can steer any of the three inputs.
pub fn draw(now: u64, counter: u32, balance: u64) -> (r: u64)
    ensures
        r == draw_spec(now, counter, balance),
{
    let mut hasher = DefaultHasher::new();
    let a = u64_bytes(now);
    let b = u32_bytes(counter);
    let c = u64_bytes(balance);
    hasher.write(a.as_slice());
    hasher.write(b.as_slice());
    hasher.write(c.as_slice());
    assert(hasher@ =~= seq![le_bytes_u64(now), le_bytes_u32(counter), le_bytes_u64(balance)]);
    hasher.finish()
}

} // verus!
