use vstd::prelude::*;

verus! {

/// Number of columns of the grid.
pub const X_GRID: u8 = 10;

/// Number of rows of the grid.
pub const Y_GRID: u8 = 10;

/// Number of cells of the grid.
pub const TOTAL_GRID: u8 = 100;

/// Whether `(x, y)` lies on the grid.
pub open spec fn in_grid(x: int, y: int) -> bool {
    0 <= x < X_GRID && 0 <= y < Y_GRID
}

/// Bit position of cell `(x, y)` in a cell mask.
pub open spec fn cell_index(x: int, y: int) -> int {
    10 * x + y
}

/// Whether bit `n` of `mask` is set.
pub open spec fn bit_set(mask: u128, n: int) -> bool {
    ((mask >> (n as u128)) & 1u128) == 1u128
}

/// `mask` with bit `n` set.
pub open spec fn with_bit(mask: u128, n: int) -> u128 {
    mask | (1u128 << (n as u128))
}

/// Whether a cell counts as mined for the purpose of reaching its
/// neighbours: the origin always does, every other cell by its bit.
pub open spec fn is_mined(mask: u128, x: int, y: int) -> bool {
    (x == 0 && y == 0) || bit_set(mask, cell_index(x, y))
}

/// Whether one of the four cells beside `(x, y)` on the grid is mined.
pub open spec fn has_mined_neighbor(mask: u128, x: int, y: int) -> bool {
    ||| (x > 0 && is_mined(mask, x - 1, y))
    ||| (x + 1 < X_GRID && is_mined(mask, x + 1, y))
    ||| (y > 0 && is_mined(mask, x, y - 1))
    ||| (y + 1 < Y_GRID && is_mined(mask, x, y + 1))
}

/// Whether cell `(x, y)` may be revealed next: it is on the grid, it has not
/// been revealed in this round, and it is the origin or touches a mined cell.
pub open spec fn can_reveal(mask: u128, x: int, y: int) -> bool {
    &&& in_grid(x, y)
    &&& !bit_set(mask, cell_index(x, y))
    &&& ((x == 0 && y == 0) || has_mined_neighbor(mask, x, y))
}

proof fn lemma_test_bit_bv(mask: u128, n: u128)
    by (bit_vector)
    requires
        n < 128,
    ensures
        ((mask & (1u128 << n)) != 0u128) == (((mask >> n) & 1u128) == 1u128),
{
}

proof fn lemma_set_bit_bv(mask: u128, n: u128, k: u128)
    by (bit_vector)
    requires
        n < 128,
        k < 128,
    ensures
        (((mask | (1u128 << n)) >> k) & 1u128 == 1u128) == (k == n || ((mask >> k) & 1u128)
            == 1u128),
{
}

proof fn lemma_zero_bv(k: u128)
    by (bit_vector)
    ensures
        ((0u128 >> k) & 1u128) != 1u128,
{
}

/// An empty mask has no bit set.
pub proof fn lemma_empty_mask(n: int)
    ensures
        !bit_set(0u128, n),
{
    lemma_zero_bv(n as u128);
}

/// Setting bit `n` sets that bit and leaves every other bit as it was.
pub proof fn lemma_with_bit(mask: u128, n: int)
    requires
        0 <= n < 128,
    ensures
        forall|k: int| 0 <= k < 128 ==> #[trigger] bit_set(with_bit(mask, n), k) == (k == n
            || bit_set(mask, k)),
{
    assert forall|k: int| 0 <= k < 128 implies #[trigger] bit_set(with_bit(mask, n), k) == (k
        == n || bit_set(mask, k)) by {
        lemma_set_bit_bv(mask, n as u128, k as u128);
    }
}

/// Tests bit `n` of `mask`.
pub fn test_bit(mask: u128, n: u8) -> (r: bool)
    requires
        n < 128,
    ensures
        r == bit_set(mask, n as int),
{
    proof {
        lemma_test_bit_bv(mask, n as u128);
    }
    (mask & (1u128 << n)) != 0
}

/// Sets bit `n` of `mask`.
pub fn set_bit(mask: u128, n: u8) -> (r: u128)
    requires
        n < 128,
    ensures
        r == with_bit(mask, n as int),
        forall|k: int| 0 <= k < 128 ==> #[trigger] bit_set(r, k) == (k == n || bit_set(mask, k)),
{
    proof {
        lemma_with_bit(mask, n as int);
    }
    mask | (1u128 << n)
}

} // verus!
