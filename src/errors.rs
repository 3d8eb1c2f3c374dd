use vstd::prelude::*;

verus! {

/// Every way an action of the launchpad can be rejected. A rejected action
/// leaves every record it was given exactly as it was.
#[derive(Clone, Copy, Debug, PartialEq, Eq, Structural)]
pub enum LaunchpadErrorCode {
    /// A funding amount or an accrued reward is zero.
    TokenAmtErr,
    /// The grid composition is invalid, or the pool has no cells of a kind left to draw.
    GameGridErr,
    PoolCreateErr,
    PoolOwnerErr,
    GamePreStepErr,
    GameUserErr,
    GameFirstStepErr,
    /// The session's status does not allow the attempted transition.
    GameStatusErr,
    /// The step is out of sequence, or the cell cannot be revealed.
    GameStepPosErr,
    /// A new round was attempted before the cooldown expired.
    UserCoolDownPosErr,
    /// The pool has no funds left.
    PoolEndedErr,
    VrfForceErr,
    VrfStatusErr,
    VrfResultErr,
    GameIdErr,
    /// A parameter is out of its range.
    ParamErr,
    TokenExistErr,
    /// The caller is not the registry's admin.
    AdminErr,
    /// A counter, amount or timestamp would not fit its width.
    ArithmeticOverflow,
}

} // verus!
