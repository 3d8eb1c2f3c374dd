use vstd::prelude::*;
use crate::errors::LaunchpadErrorCode;
use crate::grid::can_reveal;
use crate::oracle::{draw_spec, StepStatus};
use crate::state::{
    cleared, marked, next_vrf_count, vrf_resolution, GameInfo, GameStatus, Pool,
};

verus! {

/// A request to reveal cell `(pos_x, pos_y)` as step `step` of a round.
#[derive(Clone, Copy, Debug)]
pub struct MineArgs {
    pub pool_id: u64,
    pub pos_x: u8,
    pub pos_y: u8,
    pub step: u8,
}

/// Whether step `step` starts a new round over a session that has
/// finished one before, and so resets it.
pub open spec fn restarts(g: GameInfo, step: u8) -> bool {
    step == 1 && g.game_counter > 0
}

/// The session that step `step` plays on.
pub open spec fn session_for_step(g: GameInfo, step: u8) -> GameInfo {
    if restarts(g, step) {
        cleared(g)
    } else {
        g
    }
}

/// The rejection, if any, of step `step` on session `g` at time `now`,
/// before the cell is looked at: the pool must have funds; a first step
/// needs the cooldown over and no round in progress, and after an earlier
/// round that round collected or exploded; a later step must follow the
/// previous one directly within a round in progress.
pub open spec fn step_gate(pool: Pool, g: GameInfo, step: u8, now: u32) -> Option<
    LaunchpadErrorCode,
> {
    if pool.available_token_amount == 0 {
        Some(LaunchpadErrorCode::PoolEndedErr)
    } else if step == 1 {
        if !(g.cooldown_timestamp == 0 || g.cooldown_timestamp <= now) {
            Some(LaunchpadErrorCode::UserCoolDownPosErr)
        } else if g.game_status == GameStatus::Working || (g.game_counter > 0 && g.game_status
            == GameStatus::Idle) {
            Some(LaunchpadErrorCode::GameStatusErr)
        } else {
            None
        }
    } else if g.step + 1 != step {
        Some(LaunchpadErrorCode::GameStepPosErr)
    } else if g.game_status != GameStatus::Working {
        Some(LaunchpadErrorCode::GameStatusErr)
    } else {
        None
    }
}

/// The pool and session after a mining step, or its rejection. The draw
/// advances the pool's counter and mixes it with `now` and the available
/// amount; a bomb also counts a finished round on both records.
pub open spec fn mine_result(pool: Pool, g: GameInfo, args: MineArgs, now: u32) -> Result<
    (Pool, GameInfo),
    LaunchpadErrorCode,
> {
    let x = args.pos_x as int;
    let y = args.pos_y as int;
    match step_gate(pool, g, args.step, now) {
        Some(e) => Err(e),
        None => {
            let s = session_for_step(g, args.step);
            if !can_reveal(s.grid_info, x, y) {
                Err(LaunchpadErrorCode::GameStepPosErr)
            } else {
                let count = next_vrf_count(pool.vrf_count);
                let drawn = Pool { vrf_count: count, ..pool };
                let random = draw_spec(now as u64, count, pool.available_token_amount);
                match vrf_resolution(GameInfo { step: args.step, ..s }, drawn, random, now) {
                    Err(e) => Err(e),
                    Ok((status, after)) => {
                        let done = marked(after, x, y, status);
                        if status != StepStatus::Exploded {
                            Ok((drawn, done))
                        } else if pool.game_count == u64::MAX || g.game_counter == u32::MAX {
                            Err(LaunchpadErrorCode::ArithmeticOverflow)
                        } else {
                            Ok(
                                (
                                    Pool { game_count: (pool.game_count + 1) as u64, ..drawn },
                                    GameInfo { game_counter: (g.game_counter + 1) as u32, ..done },
                                ),
                            )
                        }
                    },
                }
            }
        },
    }
}

/// Plays one step of a round: reveals the requested cell at time `now`.
/// On a rejection neither record changes.
pub fn mine_handler(pool: &mut Pool, game_info: &mut GameInfo, args: MineArgs, now: u32) -> (r:
    Result<(), LaunchpadErrorCode>)
    ensures
        match mine_result(*old(pool), *old(game_info), args, now) {
            Ok((p, g)) => r is Ok && *final(pool) == p && *final(game_info) == g,
            Err(e) => r == Err::<(), LaunchpadErrorCode>(e) && *final(pool) == *old(pool)
                && *final(game_info) == *old(game_info),
        },
{
    if pool.available_token_amount == 0 {
        return Err(LaunchpadErrorCode::PoolEndedErr);
    }
    let mut next = *game_info;
    if args.step == 1 {
        if !(game_info.cooldown_timestamp == 0 || game_info.cooldown_timestamp <= now) {
            return Err(LaunchpadErrorCode::UserCoolDownPosErr);
        }
        if game_info.game_status == GameStatus::Working || (game_info.game_counter > 0
            && game_info.game_status == GameStatus::Idle) {
            return Err(LaunchpadErrorCode::GameStatusErr);
        }
        if game_info.game_counter > 0 {
            next.clear_data();
        }
    } else {
        if game_info.step as u16 + 1 != args.step as u16 {
            return Err(LaunchpadErrorCode::GameStepPosErr);
        }
        if game_info.game_status != GameStatus::Working {
            return Err(LaunchpadErrorCode::GameStatusErr);
        }
    }
    next.check_grid(args.pos_x, args.pos_y)?;
    next.step = args.step;
    let saved_count = pool.vrf_count;
    let random = pool.get_vrf(now as u64);
    let status = match next.handle_vrf(pool, random, now) {
        Ok(s) => s,
        Err(e) => {
            pool.vrf_count = saved_count;
            return Err(e);
        },
    };
    next.set_grid_mined(args.pos_x, args.pos_y, status);
    if status == StepStatus::Exploded {
        if pool.game_count == u64::MAX || game_info.game_counter == u32::MAX {
            pool.vrf_count = saved_count;
            return Err(LaunchpadErrorCode::ArithmeticOverflow);
        }
        pool.game_count = pool.game_count + 1;
        next.game_counter = game_info.game_counter + 1;
    }
    *game_info = next;
    Ok(())
}

} // verus!
