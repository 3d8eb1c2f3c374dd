use vstd::prelude::*;
use crate::collect::collect_result;
use crate::errors::LaunchpadErrorCode;
use crate::grid::{bit_set, cell_index, has_mined_neighbor, lemma_empty_mask, lemma_with_bit};
use crate::mine::{mine_result, restarts, session_for_step, step_gate, MineArgs};
use crate::oracle::classify_spec;
use crate::state::{cooldown_until, GameInfo, GameStatus, Pool};

verus! {

/// A mining step on a cell other than the origin that has no mined cell
/// beside it, in the mask the step plays on, is rejected.
pub proof fn lemma_isolated_cell_rejected(pool: Pool, g: GameInfo, args: MineArgs, now: u32)
    requires
        !(args.pos_x == 0 && args.pos_y == 0),
        !has_mined_neighbor(
            session_for_step(g, args.step).grid_info,
            args.pos_x as int,
            args.pos_y as int,
        ),
    ensures
        mine_result(pool, g, args, now) is Err,
{
}

/// A mining step that passes the round's sequencing on an unrevealed cell
/// of the grid beside a mined cell is not rejected for its cell: it
/// succeeds, unless the draw finds the composition exhausted or a counter
/// would overflow.
pub proof fn lemma_adjacent_cell_accepted(pool: Pool, g: GameInfo, args: MineArgs, now: u32)
    requires
        step_gate(pool, g, args.step, now) is None,
        args.pos_x < 10,
        args.pos_y < 10,
        !bit_set(
            session_for_step(g, args.step).grid_info,
            cell_index(args.pos_x as int, args.pos_y as int),
        ),
        has_mined_neighbor(
            session_for_step(g, args.step).grid_info,
            args.pos_x as int,
            args.pos_y as int,
        ),
    ensures
        mine_result(pool, g, args, now) is Ok || mine_result(pool, g, args, now) == Err::<
            (Pool, GameInfo),
            LaunchpadErrorCode,
        >(LaunchpadErrorCode::GameGridErr) || mine_result(pool, g, args, now) == Err::<
            (Pool, GameInfo),
            LaunchpadErrorCode,
        >(LaunchpadErrorCode::ArithmeticOverflow),
{
}

/// A first step is rejected while a round is in progress.
pub proof fn lemma_no_restart_while_working(pool: Pool, g: GameInfo, args: MineArgs, now: u32)
    requires
        args.step == 1,
        g.game_status == GameStatus::Working,
    ensures
        mine_result(pool, g, args, now) is Err,
{
}

/// A first step on a funded pool before the session's cooldown expires is
/// rejected as cooling down.
pub proof fn lemma_cooldown_blocks_start(pool: Pool, g: GameInfo, args: MineArgs, now: u32)
    requires
        args.step == 1,
        pool.available_token_amount > 0,
        g.cooldown_timestamp != 0,
        now < g.cooldown_timestamp,
    ensures
        mine_result(pool, g, args, now) == Err::<(Pool, GameInfo), LaunchpadErrorCode>(
            LaunchpadErrorCode::UserCoolDownPosErr,
        ),
{
}

/// A new round after an earlier one starts from a reset session: after its
/// first step the session's mask holds only the cell just revealed, its
/// step is 1, at most one cell counts as empty or gold, and its reward is
/// at most one gold cell's.
pub proof fn lemma_restart_resets_session(pool: Pool, g: GameInfo, args: MineArgs, now: u32)
    requires
        restarts(g, args.step),
    ensures
        mine_result(pool, g, args, now) matches Ok((_, after)) ==> {
            &&& after.step == 1
            &&& after.mined_empty_grid + after.mined_gold_grid <= 1
            &&& after.token_amount <= pool.reward_per_gold_cell()
            &&& forall|k: int|
                0 <= k < 128 && #[trigger] bit_set(after.grid_info, k) ==> k == cell_index(
                    args.pos_x as int,
                    args.pos_y as int,
                )
        },
{
    if mine_result(pool, g, args, now) is Ok {
        let n = cell_index(args.pos_x as int, args.pos_y as int);
        lemma_with_bit(0u128, n);
        assert forall|k: int| 0 <= k < 128 implies !bit_set(0u128, k) by {
            lemma_empty_mask(k);
        }
    }
}

/// Classification depends on its four inputs alone: equal inputs give
/// equal outcomes.
pub proof fn lemma_classify_deterministic(
    remaining_all: int,
    remaining_empty: int,
    remaining_gold: int,
    random: int,
    other_all: int,
    other_empty: int,
    other_gold: int,
    other_random: int,
)
    requires
        remaining_all == other_all,
        remaining_empty == other_empty,
        remaining_gold == other_gold,
        random == other_random,
    ensures
        classify_spec(remaining_all, remaining_empty, remaining_gold, random) == classify_spec(
            other_all,
            other_empty,
            other_gold,
            other_random,
        ),
{
}

/// The reward per gold cell never exceeds the pool's allocation value.
pub proof fn lemma_reward_capped(pool: Pool)
    ensures
        pool.reward_per_gold_cell() <= pool.allocation_value,
{
}

/// A collect on a round in progress with a positive reward succeeds even
/// when the reward exceeds what the pool has left; it pays the smaller of
/// the two, and the pool's available amount falls by exactly that.
pub proof fn lemma_collect_pays_capped(pool: Pool, g: GameInfo, now: u32)
    requires
        g.game_status == GameStatus::Working,
        g.token_amount > 0,
        pool.game_count < u64::MAX,
        g.game_counter < u32::MAX,
        cooldown_until(pool, now) <= u32::MAX,
    ensures
        collect_result(pool, g, now) matches Ok((p, _, paid)) && paid == (if g.token_amount
            < pool.available_token_amount {
            g.token_amount
        } else {
            pool.available_token_amount
        }) && p.available_token_amount == pool.available_token_amount - paid,
{
}

/// Mining keeps a well-formed pool well-formed.
pub proof fn lemma_mine_preserves_pool(pool: Pool, g: GameInfo, args: MineArgs, now: u32)
    requires
        pool.wf(),
    ensures
        mine_result(pool, g, args, now) matches Ok((p, _)) ==> p.wf(),
{
}

/// Collecting keeps a well-formed pool well-formed.
pub proof fn lemma_collect_preserves_pool(pool: Pool, g: GameInfo, now: u32)
    requires
        pool.wf(),
    ensures
        collect_result(pool, g, now) matches Ok((p, _, _)) ==> p.wf(),
{
}

/// Within a round, a revealed cell stays revealed: a step that continues
/// the round keeps every bit of the session's mask.
pub proof fn lemma_mined_cells_kept(pool: Pool, g: GameInfo, args: MineArgs, now: u32)
    requires
        !restarts(g, args.step),
    ensures
        mine_result(pool, g, args, now) matches Ok((_, after)) ==> forall|k: int|
            0 <= k < 128 && bit_set(g.grid_info, k) ==> #[trigger] bit_set(after.grid_info, k),
{
    if mine_result(pool, g, args, now) is Ok {
        lemma_with_bit(g.grid_info, cell_index(args.pos_x as int, args.pos_y as int));
    }
}

} // verus!
