use vstd::prelude::*;
use crate::errors::LaunchpadErrorCode;
use crate::state::{Identity, Launchpad};

verus! {

/// A change of the registry's settings; an absent field is left as it is.
#[derive(Clone, Copy, Debug)]
pub struct UpdateArgs {
    pub gogr_fee: Option<u64>,
    pub gogr_receiver: Option<Identity>,
    pub manager: Option<Identity>,
    pub burn_rate: Option<u8>,
}

/// `current`, or the new value where one is given.
pub open spec fn given_or<T>(value: Option<T>, current: T) -> T {
    match value {
        Some(v) => v,
        None => current,
    }
}

/// The registry with the settings of `args` applied.
pub open spec fn updated(launchpad: Launchpad, args: UpdateArgs) -> Launchpad {
    Launchpad {
        gogr_fee: given_or(args.gogr_fee, launchpad.gogr_fee),
        gogr_receiver: given_or(args.gogr_receiver, launchpad.gogr_receiver),
        manager: given_or(args.manager, launchpad.manager),
        burn_rate: given_or(args.burn_rate, launchpad.burn_rate),
        ..launchpad
    }
}

/// Applies `args` to the registry when `signer` is its admin; otherwise
/// rejects with `AdminErr` and leaves it unchanged.
pub fn update_handler(launchpad: &mut Launchpad, signer: &Identity, args: UpdateArgs) -> (r:
    Result<(), LaunchpadErrorCode>)
    ensures
        signer.bytes@ == old(launchpad).manager.bytes@ ==> r is Ok && *final(launchpad) == updated(
            *old(launchpad),
            args,
        ),
        signer.bytes@ != old(launchpad).manager.bytes@ ==> r == Err::<(), LaunchpadErrorCode>(
            LaunchpadErrorCode::AdminErr,
        ) && *final(launchpad) == *old(launchpad),
{
    if !launchpad.manager.same(signer) {
        return Err(LaunchpadErrorCode::AdminErr);
    }
    if let Some(gogr_fee) = args.gogr_fee {
        launchpad.gogr_fee = gogr_fee;
    }
    if let Some(gogr_receiver) = args.gogr_receiver {
        launchpad.gogr_receiver = gogr_receiver;
    }
    if let Some(manager) = args.manager {
        launchpad.manager = manager;
    }
    if let Some(burn_rate) = args.burn_rate {
        launchpad.burn_rate = burn_rate;
    }
    Ok(())
}

} // verus!
