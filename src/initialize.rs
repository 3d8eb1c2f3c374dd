use vstd::prelude::*;
use crate::state::{Identity, Launchpad};

verus! {

/// The settings of a new registry.
#[derive(Clone, Copy, Debug)]
pub struct InitLaunchpadArgs {
    pub gogr_mint: Identity,
    pub gogr_fee: u64,
    pub gogr_receiver: Identity,
    pub manager: Identity,
    pub burn_rate: u8,
}

/// Creates the registry with the given settings; pool numbering starts at 0.
pub fn initialize_handler(args: InitLaunchpadArgs) -> (r: Launchpad)
    ensures
        r == (Launchpad {
            last_pool_id: 0,
            gogr_mint: args.gogr_mint,
            gogr_fee: args.gogr_fee,
            gogr_receiver: args.gogr_receiver,
            manager: args.manager,
            burn_rate: args.burn_rate,
        }),
{
    Launchpad {
        last_pool_id: 0,
        gogr_mint: args.gogr_mint,
        gogr_fee: args.gogr_fee,
        gogr_receiver: args.gogr_receiver,
        manager: args.manager,
        burn_rate: args.burn_rate,
    }
}

} // verus!
