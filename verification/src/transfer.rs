//! The token movements that the program orders.
use vstd::prelude::*;

#[allow(unused_imports)]
use crate::address;
use crate::pubkey::Pubkey;

verus! {

/// An order to the token program.
#[derive(Clone, Debug, PartialEq, Eq)]
pub struct TokenTransfer {
    pub from: Pubkey,
    pub to: Pubkey,
    /// Who signs for `from`.
    pub authority: Pubkey,
    pub amount: u64,
    /// The seeds, bump last, by which the program signs for `authority`; none
    /// where `authority` has signed the transaction itself.
    pub signer_seeds: Vec<Vec<u8>>,
}

/// An order to the token program as a mathematical value.
pub struct TransferView {
    pub from: Pubkey,
    pub to: Pubkey,
    pub authority: Pubkey,
    pub amount: nat,
    pub signer_seeds: Seq<Seq<u8>>,
}

impl View for TokenTransfer {
    type V = TransferView;

    open spec fn view(&self) -> TransferView {
        TransferView {
            from: self.from,
            to: self.to,
            authority: self.authority,
            amount: self.amount as nat,
            signer_seeds: address::owned_seed_bytes(self.signer_seeds@),
        }
    }
}

/// What a transfer adds to the balance of an account.
pub open spec fn flow(transfer: TransferView, account: Pubkey) -> int {
    let received: int = if transfer.to == account { transfer.amount as int } else { 0 };
    let sent: int = if transfer.from == account { transfer.amount as int } else { 0 };
    received - sent
}

/// What transfers add, all together, to the balance of an account.
pub open spec fn total_flow(transfers: Seq<TransferView>, account: Pubkey) -> int
    decreases transfers.len(),
{
    if transfers.len() == 0 {
        0
    } else {
        total_flow(transfers.drop_last(), account) + flow(transfers.last(), account)
    }
}

/// The orders of a list, as mathematical values.
pub open spec fn transfers_view(transfers: Seq<TokenTransfer>) -> Seq<TransferView> {
    transfers.map_values(|transfer: TokenTransfer| transfer@)
}

} // verus!
