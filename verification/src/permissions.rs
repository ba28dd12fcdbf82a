//! What is switched on, and what locked funds may still be used for.

use frame_support::traits::WithdrawReasons as FrameWithdrawReasons;
use pallet_nfts::{PalletFeature, PalletFeatures};
use vstd::prelude::*;

verus! {

/// The parts of the NFT pallet that can be switched off.
#[derive(Clone, Copy, PartialEq, Eq, Structural, Debug)]
pub struct NftFeatures {
    pub trading: bool,
    pub attributes: bool,
    pub approvals: bool,
    pub swaps: bool,
}

/// `pallet_nfts::PalletFeatures::all_enabled`: settings in which every feature is
/// enabled, read feature by feature.
#[verifier::external_body]
pub(crate) fn all_enabled() -> (features: NftFeatures)
    ensures
        features.trading,
        features.attributes,
        features.approvals,
        features.swaps,
{
    let features = PalletFeatures::all_enabled();
    NftFeatures {
        trading: features.is_enabled(PalletFeature::Trading),
        attributes: features.is_enabled(PalletFeature::Attributes),
        approvals: features.is_enabled(PalletFeature::Approvals),
        swaps: features.is_enabled(PalletFeature::Swaps),
    }
}

/// The parts of the NFT pallet that are switched on: all of them.
pub struct Features;

impl Features {
    /// The switches.
    pub fn get() -> (features: NftFeatures)
        ensures
            features == (NftFeatures {
                trading: true,
                attributes: true,
                approvals: true,
                swaps: true,
            }),
    {
        all_enabled()
    }
}

/// A set of reasons for which funds leave an account.
#[derive(Clone, Copy, PartialEq, Eq, Structural, Debug)]
pub struct WithdrawReasons {
    /// To pay for a transaction.
    pub transaction_payment: bool,
    /// To hand them over to someone else.
    pub transfer: bool,
    /// To reserve them for a later return.
    pub reserve: bool,
    /// To pay some other fee.
    pub fee: bool,
    /// To tip a block author.
    pub tip: bool,
}

/// `frame_support::traits::WithdrawReasons::except`: all reasons but the given ones.
#[verifier::external_body]
pub(crate) fn except(reasons: WithdrawReasons) -> (others: WithdrawReasons)
    ensures
        others.transaction_payment == !reasons.transaction_payment,
        others.transfer == !reasons.transfer,
        others.reserve == !reasons.reserve,
        others.fee == !reasons.fee,
        others.tip == !reasons.tip,
{
    let mut flags = FrameWithdrawReasons::empty();
    flags.set(FrameWithdrawReasons::TRANSACTION_PAYMENT, reasons.transaction_payment);
    flags.set(FrameWithdrawReasons::TRANSFER, reasons.transfer);
    flags.set(FrameWithdrawReasons::RESERVE, reasons.reserve);
    flags.set(FrameWithdrawReasons::FEE, reasons.fee);
    flags.set(FrameWithdrawReasons::TIP, reasons.tip);
    let others = FrameWithdrawReasons::except(flags);
    WithdrawReasons {
        transaction_payment: others.contains(FrameWithdrawReasons::TRANSACTION_PAYMENT),
        transfer: others.contains(FrameWithdrawReasons::TRANSFER),
        reserve: others.contains(FrameWithdrawReasons::RESERVE),
        fee: others.contains(FrameWithdrawReasons::FEE),
        tip: others.contains(FrameWithdrawReasons::TIP),
    }
}

/// What funds that have not vested yet may still be used for: they can be
/// neither transferred nor reserved.
pub struct UnvestedFundsAllowedWithdrawReasons;

impl UnvestedFundsAllowedWithdrawReasons {
    /// The reasons.
    pub fn get() -> (reasons: WithdrawReasons)
        ensures
            reasons == (WithdrawReasons {
                transaction_payment: true,
                transfer: false,
                reserve: false,
                fee: true,
                tip: true,
            }),
    {
        except(
            WithdrawReasons {
                transaction_payment: false,
                transfer: true,
                reserve: true,
                fee: false,
                tip: false,
            },
        )
    }
}

} // verus!
