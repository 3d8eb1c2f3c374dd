use vstd::prelude::*;
use crate::errors::LaunchpadErrorCode;
use crate::state::Pool;

verus! {

/// A top-up of a pool: extra fee tokens, and extra reward tokens.
#[derive(Clone, Copy, Debug)]
pub struct UpdatePoolArgs {
    pub gogr_ext: u64,
    pub token_amount: u64,
}

/// The token movements that a top-up requires: fee tokens to the fee
/// receiver (none burnt), and reward tokens into the pool's reserve. The
/// top-up stands only if both do.
#[derive(Clone, Copy, Debug)]
pub struct PoolTopUp {
    pub gogr_transfer: u64,
    pub pool_token_transfer: u64,
}

/// The pool after a top-up, or `None` when an amount would overflow.
pub open spec fn topped_up(pool: Pool, args: UpdatePoolArgs) -> Option<Pool> {
    if pool.gogr_ext + args.gogr_ext > u64::MAX || pool.token_amount + args.token_amount > u64::MAX
        || pool.available_token_amount + args.token_amount > u64::MAX {
        None
    } else {
        Some(
            Pool {
                gogr_ext: (pool.gogr_ext + args.gogr_ext) as u64,
                token_amount: (pool.token_amount + args.token_amount) as u64,
                available_token_amount: (pool.available_token_amount + args.token_amount) as u64,
                ..pool
            },
        )
    }
}

/// Adds `args.gogr_ext` to the pool's fee accumulator and `args.token_amount`
/// to both its funded and its available amount, and returns the token
/// movements that must go with it. On a rejection the pool does not change.
pub fn update_pool_handler(pool: &mut Pool, args: UpdatePoolArgs) -> (r: Result<
    PoolTopUp,
    LaunchpadErrorCode,
>)
    ensures
        match topped_up(*old(pool), args) {
            Some(p) => r == Ok::<PoolTopUp, LaunchpadErrorCode>(
                PoolTopUp { gogr_transfer: args.gogr_ext, pool_token_transfer: args.token_amount },
            ) && *final(pool) == p,
            None => r == Err::<PoolTopUp, LaunchpadErrorCode>(
                LaunchpadErrorCode::ArithmeticOverflow,
            ) && *final(pool) == *old(pool),
        },
        old(pool).wf() ==> final(pool).wf(),
{
    if pool.gogr_ext > u64::MAX - args.gogr_ext || pool.token_amount > u64::MAX - args.token_amount
        || pool.available_token_amount > u64::MAX - args.token_amount {
        return Err(LaunchpadErrorCode::ArithmeticOverflow);
    }
    if args.gogr_ext > 0 {
        pool.gogr_ext = pool.gogr_ext + args.gogr_ext;
    }
    if args.token_amount > 0 {
        pool.token_amount = pool.token_amount + args.token_amount;
        pool.available_token_amount = pool.available_token_amount + args.token_amount;
    }
    Ok(PoolTopUp { gogr_transfer: args.gogr_ext, pool_token_transfer: args.token_amount })
}

} // verus!
