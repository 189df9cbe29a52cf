//! Assets and single swap operations, with their mathematical views.

use vstd::prelude::*;

verus! {

/// An asset: a token issued by a contract, or a native denomination.
#[derive(Debug, PartialEq, Eq)]
pub enum AssetInfo {
    Token { contract_addr: String },
    NativeToken { denom: String },
}

/// What an [`AssetInfo`] is in contracts: the same variants over character sequences.
pub enum AssetInfoView {
    Token { contract_addr: Seq<char> },
    NativeToken { denom: Seq<char> },
}

impl View for AssetInfo {
    type V = AssetInfoView;

    open spec fn view(&self) -> AssetInfoView {
        match self {
            AssetInfo::Token { contract_addr } => AssetInfoView::Token { contract_addr: contract_addr@ },
            AssetInfo::NativeToken { denom } => AssetInfoView::NativeToken { denom: denom@ },
        }
    }
}

/// The text by which an asset is told apart when a chain is validated: the
/// contract address of a token, the denomination of a native asset.
pub open spec fn asset_key(asset: AssetInfoView) -> Seq<char> {
    match asset {
        AssetInfoView::Token { contract_addr } => contract_addr,
        AssetInfoView::NativeToken { denom } => denom,
    }
}

impl Clone for AssetInfo {
    fn clone(&self) -> (copy: Self)
        ensures
            copy@ == self@,
    {
        match self {
            AssetInfo::Token { contract_addr } => AssetInfo::Token { contract_addr: contract_addr.clone() },
            AssetInfo::NativeToken { denom } => AssetInfo::NativeToken { denom: denom.clone() },
        }
    }
}

impl AssetInfo {
    /// The asset's key as an owned string.
    pub fn key(&self) -> (key: String)
        ensures
            key@ == asset_key(self@),
    {
        match self {
            AssetInfo::Token { contract_addr } => contract_addr.clone(),
            AssetInfo::NativeToken { denom } => denom.clone(),
        }
    }
}

/// One hop of a chain: the native exchange, or a pair of one of three
/// automated market makers, each resolved against its own factory.
#[derive(Debug, PartialEq, Eq)]
pub enum SwapOperation {
    NativeSwap { offer_denom: String, ask_denom: String },
    TerraSwap { offer_asset_info: AssetInfo, ask_asset_info: AssetInfo },
    Loop { offer_asset_info: AssetInfo, ask_asset_info: AssetInfo },
    Astroport { offer_asset_info: AssetInfo, ask_asset_info: AssetInfo },
}

/// What a [`SwapOperation`] is in contracts.
pub enum SwapOperationView {
    NativeSwap { offer_denom: Seq<char>, ask_denom: Seq<char> },
    TerraSwap { offer_asset_info: AssetInfoView, ask_asset_info: AssetInfoView },
    Loop { offer_asset_info: AssetInfoView, ask_asset_info: AssetInfoView },
    Astroport { offer_asset_info: AssetInfoView, ask_asset_info: AssetInfoView },
}

impl View for SwapOperation {
    type V = SwapOperationView;

    open spec fn view(&self) -> SwapOperationView {
        match self {
            SwapOperation::NativeSwap { offer_denom, ask_denom } => SwapOperationView::NativeSwap {
                offer_denom: offer_denom@,
                ask_denom: ask_denom@,
            },
            SwapOperation::TerraSwap { offer_asset_info, ask_asset_info } => SwapOperationView::TerraSwap {
                offer_asset_info: offer_asset_info@,
                ask_asset_info: ask_asset_info@,
            },
            SwapOperation::Loop { offer_asset_info, ask_asset_info } => SwapOperationView::Loop {
                offer_asset_info: offer_asset_info@,
                ask_asset_info: ask_asset_info@,
            },
            SwapOperation::Astroport { offer_asset_info, ask_asset_info } => SwapOperationView::Astroport {
                offer_asset_info: offer_asset_info@,
                ask_asset_info: ask_asset_info@,
            },
        }
    }
}

/// The asset that a hop takes in.
pub open spec fn offer_asset(op: SwapOperationView) -> AssetInfoView {
    match op {
        SwapOperationView::NativeSwap { offer_denom, .. } => AssetInfoView::NativeToken { denom: offer_denom },
        SwapOperationView::TerraSwap { offer_asset_info, .. } => offer_asset_info,
        SwapOperationView::Loop { offer_asset_info, .. } => offer_asset_info,
        SwapOperationView::Astroport { offer_asset_info, .. } => offer_asset_info,
    }
}

/// The asset that a hop gives out.
pub open spec fn ask_asset(op: SwapOperationView) -> AssetInfoView {
    match op {
        SwapOperationView::NativeSwap { ask_denom, .. } => AssetInfoView::NativeToken { denom: ask_denom },
        SwapOperationView::TerraSwap { ask_asset_info, .. } => ask_asset_info,
        SwapOperationView::Loop { ask_asset_info, .. } => ask_asset_info,
        SwapOperationView::Astroport { ask_asset_info, .. } => ask_asset_info,
    }
}

/// A chain of hops as the sequence of their views.
pub open spec fn chain_view(operations: Seq<SwapOperation>) -> Seq<SwapOperationView> {
    Seq::new(operations.len(), |i: int| operations[i]@)
}

impl Clone for SwapOperation {
    fn clone(&self) -> (copy: Self)
        ensures
            copy@ == self@,
    {
        match self {
            SwapOperation::NativeSwap { offer_denom, ask_denom } => SwapOperation::NativeSwap {
                offer_denom: offer_denom.clone(),
                ask_denom: ask_denom.clone(),
            },
            SwapOperation::TerraSwap { offer_asset_info, ask_asset_info } => SwapOperation::TerraSwap {
                offer_asset_info: offer_asset_info.clone(),
                ask_asset_info: ask_asset_info.clone(),
            },
            SwapOperation::Loop { offer_asset_info, ask_asset_info } => SwapOperation::Loop {
                offer_asset_info: offer_asset_info.clone(),
                ask_asset_info: ask_asset_info.clone(),
            },
            SwapOperation::Astroport { offer_asset_info, ask_asset_info } => SwapOperation::Astroport {
                offer_asset_info: offer_asset_info.clone(),
                ask_asset_info: ask_asset_info.clone(),
            },
        }
    }
}

impl SwapOperation {
    /// The asset that this hop takes in.
    pub fn get_offer_asset_info(&self) -> (asset: AssetInfo)
        ensures
            asset@ == offer_asset(self@),
    {
        match self {
            SwapOperation::NativeSwap { offer_denom, .. } => AssetInfo::NativeToken { denom: offer_denom.clone() },
            SwapOperation::TerraSwap { offer_asset_info, .. } => offer_asset_info.clone(),
            SwapOperation::Loop { offer_asset_info, .. } => offer_asset_info.clone(),
            SwapOperation::Astroport { offer_asset_info, .. } => offer_asset_info.clone(),
        }
    }

    /// The asset that this hop gives out.
    pub fn get_target_asset_info(&self) -> (asset: AssetInfo)
        ensures
            asset@ == ask_asset(self@),
    {
        match self {
            SwapOperation::NativeSwap { ask_denom, .. } => AssetInfo::NativeToken { denom: ask_denom.clone() },
            SwapOperation::TerraSwap { ask_asset_info, .. } => ask_asset_info.clone(),
            SwapOperation::Loop { ask_asset_info, .. } => ask_asset_info.clone(),
            SwapOperation::Astroport { ask_asset_info, .. } => ask_asset_info.clone(),
        }
    }
}

} // verus!
