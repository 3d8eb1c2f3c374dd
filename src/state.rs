use vstd::prelude::*;
use crate::errors::LaunchpadErrorCode;
use crate::grid::{
    bit_set, can_reveal, cell_index, in_grid, is_mined, set_bit, test_bit,
    with_bit, TOTAL_GRID, X_GRID, Y_GRID,
};
use crate::oracle::{classify, classify_spec, draw, draw_spec, StepStatus};

verus! {

/// Scale of `Pool::allocation_percentage`: a percentage of `p` pays
/// `p / ALLOCATION_PERCENTAGE` of the available amount per gold cell.
pub const ALLOCATION_PERCENTAGE: u64 = 10000;

/// Largest value of the pool's randomness counter plus one: the counter
/// advances modulo this.
pub const VRF_MODULUS: u64 = 4294967295;

/// Cooldown durations are given in minutes.
pub const SECONDS_PER_MINUTE: u32 = 60;

/// An account identity (a public key) as its 32 bytes.
#[derive(Clone, Copy, Debug)]
pub struct Identity {
    pub bytes: [u8; 32],
}

impl Identity {
    /// Whether two identities are the same key.
    pub fn same(&self, other: &Identity) -> (r: bool)
        ensures
            r == (self.bytes@ == other.bytes@),
    {
        let mut i: usize = 0;
        while i < 32
            invariant
                0 <= i <= 32,
                forall|j: int| 0 <= j < i ==> self.bytes@[j] == other.bytes@[j],
            decreases 32 - i,
        {
            if self.bytes[i] != other.bytes[i] {
                return false;
            }
            i = i + 1;
        }
        assert(self.bytes@ =~= other.bytes@);
        true
    }
}

/// Status of a session's current round.
#[derive(Clone, Copy, Debug, PartialEq, Eq, Structural)]
pub enum GameStatus {
    Idle,
    Working,
    Collected,
    Exploded,
}

/// How a pool sizes its reward.
#[derive(Clone, Copy, Debug, PartialEq, Eq, Structural)]
pub enum AllocationType {
    Percentages,
    FixedAmount,
}

impl Default for AllocationType {
    fn default() -> (r: AllocationType)
        ensures
            r == AllocationType::Percentages,
    {
        AllocationType::Percentages
    }
}

/// The global configuration of the launchpad.
#[derive(Clone, Copy, Debug)]
pub struct Launchpad {
    pub last_pool_id: u64,
    pub gogr_mint: Identity,
    pub gogr_fee: u64,
    pub gogr_receiver: Identity,
    pub manager: Identity,
    pub burn_rate: u8,
}

/// A funded game: its reward token, its funds, its grid composition and
/// its reward policy.
#[derive(Clone, Debug)]
pub struct Pool {
    pub pool_id: u64,
    pub owner: Identity,
    pub token_mint: Identity,
    pub token_amount: u64,
    pub available_token_amount: u64,
    pub icon_url: String,
    pub web_site: String,
    pub gogr_ext: u64,
    pub gold_grid: u8,
    pub bomb_grid: u8,
    pub cooldown_duration: u16,
    pub allocation_value: u64,
    pub allocation_percentage: u64,
    pub vrf_count: u32,
    pub game_count: u64,
}

/// A player's session on one pool: the round in progress and the history
/// that survives from one round to the next.
#[derive(Clone, Copy, Debug)]
pub struct GameInfo {
    pub user: Identity,
    pub pool_id: u64,
    pub game_counter: u32,
    pub step: u8,
    pub token_amount: u64,
    pub game_status: GameStatus,
    pub mined_empty_grid: u8,
    pub mined_gold_grid: u8,
    pub grid_info: u128,
    pub grid_gold_info: u128,
    pub exploded_grid: u8,
    pub cooldown_timestamp: u32,
}

impl Pool {
    /// A pool's standing invariants: its grid holds at least one and fewer
    /// than all cells as gold or bomb, its percentage is below the scale,
    /// and it never has more available than it was funded with.
    pub open spec fn wf(&self) -> bool {
        &&& 0 < self.gold_grid + self.bomb_grid < TOTAL_GRID
        &&& self.allocation_percentage < ALLOCATION_PERCENTAGE
        &&& self.available_token_amount <= self.token_amount
    }

    /// Reward paid for one gold cell: with a positive percentage, that share
    /// of the available amount, capped at `allocation_value`; otherwise
    /// `allocation_value`.
    pub open spec fn reward_per_gold_cell(&self) -> int {
        if self.allocation_percentage > 0 {
            let per = self.available_token_amount * self.allocation_percentage
                / ALLOCATION_PERCENTAGE as int;
            if per > self.allocation_value {
                self.allocation_value as int
            } else {
                per
            }
        } else {
            self.allocation_value as int
        }
    }

    pub fn total_grid(&self) -> (r: u8)
        ensures
            r == TOTAL_GRID,
    {
        X_GRID * Y_GRID
    }

    /// Reward for the next gold cell revealed in this pool.
    pub fn get_reward_amt(&self) -> (r: u64)
        ensures
            r == self.reward_per_gold_cell(),
    {
        if self.allocation_percentage > 0 {
            let a = self.available_token_amount as u128;
            let p = self.allocation_percentage as u128;
            assert(a * p <= 0xffff_ffff_ffff_ffffu128 * 0xffff_ffff_ffff_ffffu128) by (nonlinear_arith)
                requires
                    a <= 0xffff_ffff_ffff_ffffu128,
                    p <= 0xffff_ffff_ffff_ffffu128,
            ;
            let per = a * p / (ALLOCATION_PERCENTAGE as u128);
            if per > self.allocation_value as u128 {
                self.allocation_value
            } else {
                per as u64
            }
        } else {
            self.allocation_value
        }
    }

    /// Advances the randomness counter and draws from it, the timestamp
    /// `cur` and the available amount.
    pub fn get_vrf(&mut self, cur: u64) -> (r: u64)
        ensures
            final(self).vrf_count == next_vrf_count(old(self).vrf_count),
            *final(self) == (Pool { vrf_count: final(self).vrf_count, ..*old(self) }),
            r == draw_spec(cur, final(self).vrf_count, old(self).available_token_amount),
    {
        self.vrf_count = ((self.vrf_count as u64 + 1) % VRF_MODULUS) as u32;
        draw(cur, self.vrf_count, self.available_token_amount)
    }
}

/// The randomness counter after one advance.
pub open spec fn next_vrf_count(count: u32) -> u32 {
    ((count + 1) % (VRF_MODULUS as int)) as u32
}

/// Cells of the grid not yet revealed in this round.
pub open spec fn remaining_all(pool: Pool, g: GameInfo) -> int {
    TOTAL_GRID - g.mined_empty_grid - g.mined_gold_grid
}

/// Empty cells of the pool's composition not yet revealed in this round.
pub open spec fn remaining_empty(pool: Pool, g: GameInfo) -> int {
    TOTAL_GRID - pool.gold_grid - pool.bomb_grid - g.mined_empty_grid
}

/// Gold cells of the pool's composition not yet revealed in this round.
pub open spec fn remaining_gold(pool: Pool, g: GameInfo) -> int {
    pool.gold_grid - g.mined_gold_grid
}

/// Whether a draw can be classified: a cell is left, and the session has
/// not revealed more empty or gold cells than the composition holds.
pub open spec fn composition_left(pool: Pool, g: GameInfo) -> bool {
    &&& remaining_all(pool, g) > 0
    &&& remaining_empty(pool, g) >= 0
    &&& remaining_gold(pool, g) >= 0
}

/// Cooldown expiry of a round that ends at `now`.
pub open spec fn cooldown_until(pool: Pool, now: u32) -> int {
    now + pool.cooldown_duration * SECONDS_PER_MINUTE
}

/// The outcome of a draw `random` for session `g` on `pool` at time `now`,
/// with the session as it stands afterwards (cells are marked separately).
pub open spec fn vrf_resolution(g: GameInfo, pool: Pool, random: u64, now: u32) -> Result<
    (StepStatus, GameInfo),
    LaunchpadErrorCode,
> {
    if !composition_left(pool, g) {
        Err(LaunchpadErrorCode::GameGridErr)
    } else {
        match classify_spec(
            remaining_all(pool, g),
            remaining_empty(pool, g),
            remaining_gold(pool, g),
            random as int,
        ) {
            StepStatus::Empty => Ok(
                (
                    StepStatus::Empty,
                    GameInfo {
                        game_status: GameStatus::Working,
                        mined_empty_grid: (g.mined_empty_grid + 1) as u8,
                        ..g
                    },
                ),
            ),
            StepStatus::Gold => {
                let total = g.token_amount + pool.reward_per_gold_cell();
                if total > u64::MAX {
                    Err(LaunchpadErrorCode::ArithmeticOverflow)
                } else {
                    Ok(
                        (
                            StepStatus::Gold,
                            GameInfo {
                                game_status: GameStatus::Working,
                                token_amount: total as u64,
                                mined_gold_grid: (g.mined_gold_grid + 1) as u8,
                                ..g
                            },
                        ),
                    )
                }
            },
            StepStatus::Exploded => {
                let until = cooldown_until(pool, now);
                if until > u32::MAX {
                    Err(LaunchpadErrorCode::ArithmeticOverflow)
                } else {
                    Ok(
                        (
                            StepStatus::Exploded,
                            GameInfo {
                                game_status: GameStatus::Exploded,
                                cooldown_timestamp: until as u32,
                                ..g
                            },
                        ),
                    )
                }
            },
        }
    }
}

/// Session `g` at the start of a new round: progress and accrued reward
/// are reset, identity and round counter are kept.
pub open spec fn cleared(g: GameInfo) -> GameInfo {
    GameInfo {
        step: 0,
        token_amount: 0,
        game_status: GameStatus::Idle,
        mined_empty_grid: 0,
        mined_gold_grid: 0,
        grid_info: 0,
        cooldown_timestamp: 0,
        grid_gold_info: 0,
        exploded_grid: 0,
        ..g
    }
}

/// Session `g` with cell `(x, y)` marked as revealed with outcome `status`.
pub open spec fn marked(g: GameInfo, x: int, y: int, status: StepStatus) -> GameInfo {
    let n = cell_index(x, y);
    GameInfo {
        grid_info: with_bit(g.grid_info, n),
        grid_gold_info: if status == StepStatus::Gold {
            with_bit(g.grid_gold_info, n)
        } else {
            g.grid_gold_info
        },
        exploded_grid: if status == StepStatus::Exploded {
            n as u8
        } else {
            g.exploded_grid
        },
        ..g
    }
}

impl GameInfo {
    /// Classifies the draw `random` against what is left of the pool's
    /// composition for this session, and records the outcome: an empty or
    /// gold cell counts towards the session (gold also adds the pool's
    /// reward per gold cell); a bomb ends the round and starts the cooldown
    /// from `now`. On an error the session is unchanged.
    pub fn handle_vrf(&mut self, pool: &Pool, random: u64, now: u32) -> (r: Result<
        StepStatus,
        LaunchpadErrorCode,
    >)
        ensures
            match vrf_resolution(*old(self), *pool, random, now) {
                Ok((s, g)) => r == Ok::<StepStatus, LaunchpadErrorCode>(s) && *final(self) == g,
                Err(e) => r == Err::<StepStatus, LaunchpadErrorCode>(e) && *final(self) == *old(
                    self,
                ),
            },
    {
        let total = pool.total_grid() as u16;
        let mined_empty = self.mined_empty_grid as u16;
        let mined_gold = self.mined_gold_grid as u16;
        let gold = pool.gold_grid as u16;
        let bomb = pool.bomb_grid as u16;
        if mined_empty + mined_gold >= total || gold + bomb + mined_empty > total || mined_gold
            > gold {
            return Err(LaunchpadErrorCode::GameGridErr);
        }
        let left_all_grid = total - mined_empty - mined_gold;
        let left_gold_grid = gold - mined_gold;
        let left_empty_grid = total - gold - bomb - mined_empty;
        let status = classify(left_all_grid, left_empty_grid, left_gold_grid, random);
        match status {
            StepStatus::Empty => {
                self.game_status = GameStatus::Working;
                self.mined_empty_grid = self.mined_empty_grid + 1;
            },
            StepStatus::Gold => {
                let amt = pool.get_reward_amt();
                if self.token_amount > u64::MAX - amt {
                    return Err(LaunchpadErrorCode::ArithmeticOverflow);
                }
                self.token_amount = self.token_amount + amt;
                self.game_status = GameStatus::Working;
                self.mined_gold_grid = self.mined_gold_grid + 1;
            },
            StepStatus::Exploded => {
                let wait = (pool.cooldown_duration as u32) * SECONDS_PER_MINUTE;
                if now > u32::MAX - wait {
                    return Err(LaunchpadErrorCode::ArithmeticOverflow);
                }
                self.game_status = GameStatus::Exploded;
                self.cooldown_timestamp = now + wait;
            },
        }
        Ok(status)
    }

    /// Resets the round's progress, keeping identity and round counter.
    pub fn clear_data(&mut self)
        ensures
            *final(self) == cleared(*old(self)),
    {
        self.step = 0;
        self.token_amount = 0;
        self.game_status = GameStatus::Idle;
        self.mined_empty_grid = 0;
        self.mined_gold_grid = 0;
        self.grid_info = 0;
        self.cooldown_timestamp = 0;
        self.grid_gold_info = 0;
        self.exploded_grid = 0;
    }

    /// Whether cell `(x, y)` counts as mined; the origin always does.
    pub fn get_grid_mined(&self, x: u8, y: u8) -> (r: bool)
        requires
            in_grid(x as int, y as int),
        ensures
            r == is_mined(self.grid_info, x as int, y as int),
    {
        if x == 0 && y == 0 {
            return true;
        }
        test_bit(self.grid_info, 10 * x + y)
    }

    /// Marks cell `(x, y)` as revealed with outcome `step_status`: a gold
    /// cell is also marked in the gold mask, a bomb is recorded as the
    /// round's exploded cell.
    pub fn set_grid_mined(&mut self, x: u8, y: u8, step_status: StepStatus)
        requires
            in_grid(x as int, y as int),
        ensures
            *final(self) == marked(*old(self), x as int, y as int, step_status),
            forall|k: int|
                0 <= k < 128 ==> #[trigger] bit_set(final(self).grid_info, k) == (k == cell_index(
                    x as int,
                    y as int,
                ) || bit_set(old(self).grid_info, k)),
    {
        let n = 10 * x + y;
        self.grid_info = set_bit(self.grid_info, n);
        if step_status == StepStatus::Gold {
            self.grid_gold_info = set_bit(self.grid_gold_info, n);
        } else if step_status == StepStatus::Exploded {
            self.exploded_grid = n;
        }
    }

    /// Accepts cell `(x, y)` as the next to reveal exactly when it is on the
    /// grid, not yet revealed, and the origin or beside a mined cell.
    pub fn check_grid(&self, x: u8, y: u8) -> (r: Result<(), LaunchpadErrorCode>)
        ensures
            r is Ok <==> can_reveal(self.grid_info, x as int, y as int),
            r is Err ==> r == Err::<(), LaunchpadErrorCode>(LaunchpadErrorCode::GameStepPosErr),
    {
        if x >= X_GRID || y >= Y_GRID {
            return Err(LaunchpadErrorCode::GameStepPosErr);
        }
        if test_bit(self.grid_info, 10 * x + y) {
            return Err(LaunchpadErrorCode::GameStepPosErr);
        }
        if x == 0 && y == 0 {
            return Ok(());
        }
        let left_mined = x > 0 && self.get_grid_mined(x - 1, y);
        let right_mined = x < X_GRID - 1 && self.get_grid_mined(x + 1, y);
        let up_mined = y > 0 && self.get_grid_mined(x, y - 1);
        let down_mined = y < Y_GRID - 1 && self.get_grid_mined(x, y + 1);
        if left_mined || right_mined || up_mined || down_mined {
            Ok(())
        } else {
            Err(LaunchpadErrorCode::GameStepPosErr)
        }
    }
}

} // verus!
