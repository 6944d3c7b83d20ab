//! Error taxonomy of the compound proxy.
//!
//! Every error aborts the whole transaction on the host ledger; no step
//! recovers locally, since a partial compound (swap executed but deposit
//! failed) would strand unbalanced assets.

use vstd::prelude::*;

verus! {

/// An error raised by one of the compound steps.
#[derive(Clone, Copy, Debug, PartialEq, Eq, Structural)]
pub enum ContractError {
    /// An internal callback step was invoked by an identity other than the
    /// contract's own address.
    Unauthorized,
    /// A reward asset is neither of the target pool's two assets and the
    /// pair-proxy registry holds no route for it.
    NoPairProxy,
    /// A declared native reward amount exceeds the funds attached to the
    /// invocation.
    InsufficientFunds,
    /// A fee or ratio computation left the fixed-point domain; fatal.
    ArithmeticOverflow,
}

} // verus!
