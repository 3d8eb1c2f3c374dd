use vstd::prelude::*;
use crate::errors::LaunchpadErrorCode;
use crate::state::{cooldown_until, GameInfo, GameStatus, Pool, SECONDS_PER_MINUTE};

verus! {

/// A request to withdraw the reward accrued in the current round.
#[derive(Clone, Copy, Debug)]
pub struct CollectArgs {
    pub pool_id: u64,
}

/// What a collect pays: the accrued reward, or what the pool still has if
/// that is less. The difference is forfeited.
pub open spec fn payout(accrued: u64, available: u64) -> u64 {
    if accrued > available {
        available
    } else {
        accrued
    }
}

/// The pool, the session and the amount paid after a collect at `now`, or
/// its rejection: the round must be in progress with a positive reward.
pub open spec fn collect_result(pool: Pool, g: GameInfo, now: u32) -> Result<
    (Pool, GameInfo, u64),
    LaunchpadErrorCode,
> {
    if g.game_status != GameStatus::Working {
        Err(LaunchpadErrorCode::GameStatusErr)
    } else if g.token_amount == 0 {
        Err(LaunchpadErrorCode::TokenAmtErr)
    } else if pool.game_count == u64::MAX || g.game_counter == u32::MAX || cooldown_until(
        pool,
        now,
    ) > u32::MAX {
        Err(LaunchpadErrorCode::ArithmeticOverflow)
    } else {
        let paid = payout(g.token_amount, pool.available_token_amount);
        Ok(
            (
                Pool {
                    available_token_amount: (pool.available_token_amount - paid) as u64,
                    game_count: (pool.game_count + 1) as u64,
                    ..pool
                },
                GameInfo {
                    game_status: GameStatus::Collected,
                    game_counter: (g.game_counter + 1) as u32,
                    cooldown_timestamp: cooldown_until(pool, now) as u32,
                    ..g
                },
                paid,
            ),
        )
    }
}

/// Ends the round in progress by withdrawing its reward at time `now`, and
/// returns the amount to pay out of the pool's reserve to the player.
/// On a rejection neither record changes.
pub fn collect_handler(pool: &mut Pool, game_info: &mut GameInfo, args: CollectArgs, now: u32) -> (r:
    Result<u64, LaunchpadErrorCode>)
    ensures
        match collect_result(*old(pool), *old(game_info), now) {
            Ok((p, g, paid)) => r == Ok::<u64, LaunchpadErrorCode>(paid) && *final(pool) == p
                && *final(game_info) == g,
            Err(e) => r == Err::<u64, LaunchpadErrorCode>(e) && *final(pool) == *old(pool)
                && *final(game_info) == *old(game_info),
        },
{
    if game_info.game_status != GameStatus::Working {
        return Err(LaunchpadErrorCode::GameStatusErr);
    }
    let token_amount = game_info.token_amount;
    if token_amount == 0 {
        return Err(LaunchpadErrorCode::TokenAmtErr);
    }
    let wait = (pool.cooldown_duration as u32) * SECONDS_PER_MINUTE;
    if pool.game_count == u64::MAX || game_info.game_counter == u32::MAX || now > u32::MAX - wait {
        return Err(LaunchpadErrorCode::ArithmeticOverflow);
    }
    pool.game_count = pool.game_count + 1;
    game_info.game_status = GameStatus::Collected;
    game_info.game_counter = game_info.game_counter + 1;
    game_info.cooldown_timestamp = now + wait;
    let mut amt = token_amount;
    if amt > pool.available_token_amount {
        amt = pool.available_token_amount;
    }
    pool.available_token_amount = pool.available_token_amount - amt;
    Ok(amt)
}

} // verus!
