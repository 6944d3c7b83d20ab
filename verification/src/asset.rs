//! Asset identities and amounts.
//!
//! An asset is either a contract-managed token, identified by the token
//! contract's address, or a native coin, identified by its denomination.
//! Amounts are plain 128-bit integers.

use vstd::prelude::*;

verus! {

/// The identity of an asset.
#[derive(Clone, Debug, PartialEq, Eq)]
pub enum AssetInfo {
    /// A contract-managed token, identified by its contract address.
    Token { contract_addr: String },
    /// A native coin, identified by its denomination.
    Native { denom: String },
}

/// Mathematical model of an [`AssetInfo`]: the same choice over character
/// sequences.
pub ghost enum AssetInfoView {
    Token { contract_addr: Seq<char> },
    Native { denom: Seq<char> },
}

impl View for AssetInfo {
    type V = AssetInfoView;

    open spec fn view(&self) -> AssetInfoView {
        match self {
            AssetInfo::Token { contract_addr } => AssetInfoView::Token {
                contract_addr: contract_addr@,
            },
            AssetInfo::Native { denom } => AssetInfoView::Native { denom: denom@ },
        }
    }
}

impl DeepView for AssetInfo {
    type V = AssetInfoView;

    open spec fn deep_view(&self) -> AssetInfoView {
        self.view()
    }
}

/// The string under which an asset is keyed: the token contract address or
/// the native denomination.
pub open spec fn spec_asset_key(info: AssetInfoView) -> Seq<char> {
    match info {
        AssetInfoView::Token { contract_addr } => contract_addr,
        AssetInfoView::Native { denom } => denom,
    }
}

impl AssetInfo {
    /// Whether two asset identities denote the same asset.
    pub fn matches(&self, other: &AssetInfo) -> (r: bool)
        ensures
            r == (self@ == other@),
    {
        match (self, other) {
            (
                AssetInfo::Token { contract_addr: a },
                AssetInfo::Token { contract_addr: b },
            ) => *a == *b,
            (AssetInfo::Native { denom: a }, AssetInfo::Native { denom: b }) => *a == *b,
            _ => false,
        }
    }

    /// The string under which this asset is keyed in the proxy registry.
    pub fn key(&self) -> (r: &String)
        ensures
            r@ == spec_asset_key(self@),
    {
        match self {
            AssetInfo::Token { contract_addr } => contract_addr,
            AssetInfo::Native { denom } => denom,
        }
    }

    /// An owned copy of this identity.
    pub fn duplicate(&self) -> (r: AssetInfo)
        ensures
            r == *self,
    {
        match self {
            AssetInfo::Token { contract_addr } => AssetInfo::Token {
                contract_addr: contract_addr.clone(),
            },
            AssetInfo::Native { denom } => AssetInfo::Native { denom: denom.clone() },
        }
    }
}

/// An asset identity together with an amount of it.
#[derive(Clone, Debug, PartialEq, Eq)]
pub struct Asset {
    pub info: AssetInfo,
    pub amount: u128,
}

/// Mathematical model of an [`Asset`].
pub ghost struct AssetView {
    pub info: AssetInfoView,
    pub amount: int,
}

impl View for Asset {
    type V = AssetView;

    open spec fn view(&self) -> AssetView {
        AssetView { info: self.info@, amount: self.amount as int }
    }
}

impl DeepView for Asset {
    type V = AssetView;

    open spec fn deep_view(&self) -> AssetView {
        self.view()
    }
}

impl Asset {
    /// An owned copy of this asset.
    pub fn duplicate(&self) -> (r: Asset)
        ensures
            r == *self,
    {
        Asset { info: self.info.duplicate(), amount: self.amount }
    }
}

/// An amount of a native coin.
#[derive(Clone, Debug, PartialEq, Eq)]
pub struct Coin {
    pub denom: String,
    pub amount: u128,
}

/// Mathematical model of a [`Coin`].
pub ghost struct CoinView {
    pub denom: Seq<char>,
    pub amount: int,
}

impl View for Coin {
    type V = CoinView;

    open spec fn view(&self) -> CoinView {
        CoinView { denom: self.denom@, amount: self.amount as int }
    }
}

impl DeepView for Coin {
    type V = CoinView;

    open spec fn deep_view(&self) -> CoinView {
        self.view()
    }
}

/// The total amount of `denom` among `funds`.
pub open spec fn spec_funds_amount(funds: Seq<CoinView>, denom: Seq<char>) -> int
    decreases funds.len(),
{
    if funds.len() == 0 {
        0
    } else {
        spec_funds_amount(funds.drop_last(), denom) + if funds.last().denom == denom {
            funds.last().amount
        } else {
            0
        }
    }
}

} // verus!
