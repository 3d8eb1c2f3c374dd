use vstd::prelude::*;
use crate::errors::LaunchpadErrorCode;
use crate::grid::TOTAL_GRID;
use crate::state::{Identity, Launchpad, Pool, ALLOCATION_PERCENTAGE};

verus! {

/// The parameters of a new pool.
#[derive(Clone, Debug)]
pub struct CreatePoolArgs {
    pub icon_url: String,
    pub web_site: String,
    pub gold_grid: u8,
    pub bomb_grid: u8,
    pub cooldown_duration: u16,
    pub allocation_value: u64,
    pub allocation_percentage: u64,
    pub gogr_ext: u64,
    pub token_amount: u64,
}

/// The token movements that creating a pool requires: fee tokens to the
/// fee receiver, fee tokens to burn, and reward tokens from the creator
/// into the pool's reserve. The creation stands only if all of them do.
#[derive(Clone, Copy, Debug)]
pub struct PoolFunding {
    pub gogr_transfer: u64,
    pub gogr_burn: u64,
    pub pool_token_transfer: u64,
}

/// Fee tokens skimmed when a pool whose reward token is `token_mint` is
/// created with an extra fee of `gogr_ext`: none for a pool paying in the
/// fee token itself, else the extra fee plus the registry's fixed fee.
pub open spec fn skim(launchpad: Launchpad, token_mint: Identity, gogr_ext: u64) -> int {
    if launchpad.gogr_mint.bytes@ == token_mint.bytes@ {
        0
    } else {
        gogr_ext + launchpad.gogr_fee
    }
}

/// The part of a skim that is burnt: `burn_rate` percent, rounded down.
pub open spec fn burn_part(total: int, burn_rate: u8) -> int {
    total * burn_rate / 100
}

/// The rejection, if any, of a pool creation.
pub open spec fn create_pool_error(
    launchpad: Launchpad,
    token_mint: Identity,
    args: CreatePoolArgs,
) -> Option<LaunchpadErrorCode> {
    let cells = args.gold_grid + args.bomb_grid;
    let total = skim(launchpad, token_mint, args.gogr_ext);
    if args.allocation_percentage >= ALLOCATION_PERCENTAGE {
        Some(LaunchpadErrorCode::ParamErr)
    } else if !(0 < cells < TOTAL_GRID) {
        Some(LaunchpadErrorCode::GameGridErr)
    } else if launchpad.last_pool_id == u64::MAX {
        Some(LaunchpadErrorCode::ArithmeticOverflow)
    } else if args.token_amount == 0 {
        Some(LaunchpadErrorCode::TokenAmtErr)
    } else if total > u64::MAX {
        Some(LaunchpadErrorCode::ArithmeticOverflow)
    } else if burn_part(total, launchpad.burn_rate) > total {
        Some(LaunchpadErrorCode::ParamErr)
    } else {
        None
    }
}

/// Creates pool number `launchpad.last_pool_id`, owned by `owner` and paying
/// in `token_mint`, funded with `args.token_amount`, and advances the
/// registry's pool counter. Returns the pool and the token movements that
/// must go with it. On a rejection the registry does not change.
pub fn create_pool_handler(
    launchpad: &mut Launchpad,
    owner: Identity,
    token_mint: Identity,
    args: CreatePoolArgs,
) -> (r: Result<(Pool, PoolFunding), LaunchpadErrorCode>)
    ensures
        match create_pool_error(*old(launchpad), token_mint, args) {
            Some(e) => r == Err::<(Pool, PoolFunding), LaunchpadErrorCode>(e) && *final(launchpad)
                == *old(launchpad),
            None => r is Ok,
        },
        r matches Ok((pool, funding)) ==> {
            let total = skim(*old(launchpad), token_mint, args.gogr_ext);
            let burnt = burn_part(total, old(launchpad).burn_rate);
            &&& *final(launchpad) == (Launchpad {
                last_pool_id: (old(launchpad).last_pool_id + 1) as u64,
                ..*old(launchpad)
            })
            &&& pool == (Pool {
                pool_id: old(launchpad).last_pool_id,
                owner: owner,
                token_mint: token_mint,
                token_amount: args.token_amount,
                available_token_amount: args.token_amount,
                icon_url: args.icon_url,
                web_site: args.web_site,
                gogr_ext: total as u64,
                gold_grid: args.gold_grid,
                bomb_grid: args.bomb_grid,
                cooldown_duration: args.cooldown_duration,
                allocation_value: args.allocation_value,
                allocation_percentage: args.allocation_percentage,
                vrf_count: 0,
                game_count: 0,
            })
            &&& pool.wf()
            &&& funding.gogr_burn == burnt
            &&& funding.gogr_transfer == total - burnt
            &&& funding.pool_token_transfer == args.token_amount
        },
{
    if args.allocation_percentage >= ALLOCATION_PERCENTAGE {
        return Err(LaunchpadErrorCode::ParamErr);
    }
    let cells = args.gold_grid as u16 + args.bomb_grid as u16;
    if !(cells < TOTAL_GRID as u16 && cells > 0) {
        return Err(LaunchpadErrorCode::GameGridErr);
    }
    if launchpad.last_pool_id == u64::MAX {
        return Err(LaunchpadErrorCode::ArithmeticOverflow);
    }
    if args.token_amount == 0 {
        return Err(LaunchpadErrorCode::TokenAmtErr);
    }
    let mut gogr_amt: u64 = 0;
    if !launchpad.gogr_mint.same(&token_mint) {
        if args.gogr_ext > u64::MAX - launchpad.gogr_fee {
            return Err(LaunchpadErrorCode::ArithmeticOverflow);
        }
        gogr_amt = args.gogr_ext + launchpad.gogr_fee;
    }
    let amt_wide = gogr_amt as u128;
    let rate_wide = launchpad.burn_rate as u128;
    assert(amt_wide * rate_wide <= 0xffff_ffff_ffff_ffffu128 * 255) by (nonlinear_arith)
        requires
            amt_wide <= 0xffff_ffff_ffff_ffffu128,
            rate_wide <= 255,
    ;
    let wide = amt_wide * rate_wide;
    let burn_wide = wide / 100;
    if burn_wide > gogr_amt as u128 {
        return Err(LaunchpadErrorCode::ParamErr);
    }
    let burn_amt = burn_wide as u64;
    let left_amt = gogr_amt - burn_amt;
    let pool_id = launchpad.last_pool_id;
    launchpad.last_pool_id = pool_id + 1;
    let pool = Pool {
        pool_id,
        owner,
        token_mint,
        token_amount: args.token_amount,
        available_token_amount: args.token_amount,
        icon_url: args.icon_url,
        web_site: args.web_site,
        gogr_ext: gogr_amt,
        gold_grid: args.gold_grid,
        bomb_grid: args.bomb_grid,
        cooldown_duration: args.cooldown_duration,
        allocation_value: args.allocation_value,
        allocation_percentage: args.allocation_percentage,
        vrf_count: 0,
        game_count: 0,
    };
    let funding = PoolFunding {
        gogr_transfer: left_amt,
        gogr_burn: burn_amt,
        pool_token_transfer: args.token_amount,
    };
    Ok((pool, funding))
}

} // verus!
