//! The interfaces of the external collaborators the engine talks to:
//! the smart-swap router and the insurance fund.  Only the shapes the
//! engine consumes are modelled; the collaborators themselves stay
//! outside the library.

use vstd::prelude::*;

verus! {

/// A transferable asset: either a token contract or a native denomination.
#[derive(Clone, Debug, PartialEq, Eq)]
pub enum AssetInfo {
    Token { contract_addr: String },
    NativeToken { denom: String },
}

/// Handle to the smart-swap router collaborator, by address.
#[derive(Clone, Debug, PartialEq, Eq)]
pub struct SmartRouterController(pub String);

impl SmartRouterController {
    /// The router's address.
    pub fn addr(&self) -> (r: String)
        ensures
            r@ == self.0@,
    {
        self.0.clone()
    }
}

/// One hop of a routed swap.
#[derive(Clone, Debug, PartialEq, Eq)]
pub enum SwapOperation {
    OraiSwap { offer_asset_info: AssetInfo, ask_asset_info: AssetInfo },
}

/// Whether an address is a registered vAMM, as the insurance fund answers.
#[derive(Clone, Copy, Debug, PartialEq, Eq, Structural)]
pub struct VammResponse {
    pub is_vamm: bool,
}

/// Whether a vAMM is currently open, as the insurance fund answers.
#[derive(Clone, Copy, Debug, PartialEq, Eq, Structural)]
pub struct VammStatusResponse {
    pub vamm_status: bool,
}

} // verus!
