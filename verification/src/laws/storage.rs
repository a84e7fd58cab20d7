//! The space that accounts are created with.
use vstd::prelude::*;

#[allow(unused_imports)]
use crate::state::{
    ConfigView, EscrowAccount, EscrowView, MerchantAccount, MerchantView, SettlConfig,
};

verus! {

/// A configuration fits its account, behind the discriminator's eight bytes.
pub proof fn law_config_fits(config: ConfigView)
    ensures
        8 + config.stored_len() <= SettlConfig::SPACE,
{
}

/// A valid merchant's entry fits its account, behind the discriminator's eight
/// bytes.
pub proof fn law_merchant_fits(merchant: MerchantView)
    requires
        merchant.wf(),
    ensures
        8 + merchant.stored_len() <= MerchantAccount::SPACE,
{
}

/// A valid escrow fits its account, behind the discriminator's eight bytes.
pub proof fn law_escrow_fits(escrow: EscrowView)
    requires
        escrow.wf(),
    ensures
        8 + escrow.stored_len() <= EscrowAccount::SPACE,
{
}

} // verus!
