//! The reward handler's side: it claims, once per epoch, the royalties and
//! mint payments that the minter contract accumulated.

use vstd::prelude::*;

use crate::collection::ContractError;
use crate::store::StorageKey;
use crate::token::EsdtTokenPayment;

verus! {

/// A share of the rewards: an address and its percentage.
#[derive(Debug, Clone, PartialEq, Eq)]
pub struct AddressPair {
    pub address: Vec<u8>,
    pub percent: u128,
}

/// Rewards received: EGLD and ESDT payments.
#[derive(Debug, Clone, PartialEq, Eq)]
pub struct RewardEntry {
    pub egld_amount: u128,
    pub esdt_payments: Vec<EsdtTokenPayment>,
}

/// The minter endpoints that the reward handler calls.
#[derive(Debug, PartialEq, Eq, Structural, Clone, Copy)]
pub enum MinterEndpoint {
    ClaimRoyalties,
    ClaimMintPayments,
}

/// A synchronous call of a minter endpoint at an address; what it returns
/// goes into the reward handler's balance.
#[derive(Debug, Clone, PartialEq, Eq)]
pub struct ProxyCall {
    pub to: Vec<u8>,
    pub endpoint: MinterEndpoint,
}

/// The storage of the reward handler, as values.
pub struct InteractorState {
    pub nft_collection_sc_address: Seq<u8>,
    pub last_claim_epoch: u64,
}

/// The reward handler's storage that its claims use.
pub struct DutyNftMinterInteractorModule {
    nft_collection_sc_address: Vec<u8>,
    last_claim_epoch: u64,
}

impl View for DutyNftMinterInteractorModule {
    type V = InteractorState;

    closed spec fn view(&self) -> InteractorState {
        InteractorState {
            nft_collection_sc_address: self.nft_collection_sc_address@,
            last_claim_epoch: self.last_claim_epoch,
        }
    }
}

/// Why a claim in `current_epoch` is refused, if it is.
pub open spec fn claim_error(
    s: InteractorState,
    caller: Seq<u8>,
    owner: Seq<u8>,
    current_epoch: u64,
) -> Option<ContractError> {
    if caller != owner {
        Some(ContractError::OnlyOwner)
    } else if !(current_epoch > s.last_claim_epoch) {
        Some(ContractError::AlreadyClaimedThisEpoch)
    } else {
        None
    }
}

impl DutyNftMinterInteractorModule {
    /// Storage that names the minter contract; no claim was made yet.
    pub fn new(nft_collection_sc_address: Vec<u8>) -> (s: Self)
        ensures
            s@.nft_collection_sc_address == nft_collection_sc_address@,
            s@.last_claim_epoch == 0,
    {
        DutyNftMinterInteractorModule { nft_collection_sc_address, last_claim_epoch: 0 }
    }

    /// The address of the minter contract.
    pub fn nft_collection_sc_address(&self) -> (r: &Vec<u8>)
        ensures
            r@ == self@.nft_collection_sc_address,
    {
        &self.nft_collection_sc_address
    }

    /// The last epoch in which a claim was made.
    pub fn last_claim_epoch(&self) -> (r: u64)
        ensures
            r == self@.last_claim_epoch,
    {
        self.last_claim_epoch
    }

    /// The call that claims the minter's royalties.
    pub fn call_claim_royalties(&self, sc_address: Vec<u8>) -> (r: ProxyCall)
        ensures
            r.to == sc_address,
            r.endpoint == MinterEndpoint::ClaimRoyalties,
    {
        ProxyCall { to: sc_address, endpoint: MinterEndpoint::ClaimRoyalties }
    }

    /// The call that claims the minter's mint payments.
    pub fn call_claim_mint_payments(&self, sc_address: Vec<u8>) -> (r: ProxyCall)
        ensures
            r.to == sc_address,
            r.endpoint == MinterEndpoint::ClaimMintPayments,
    {
        ProxyCall { to: sc_address, endpoint: MinterEndpoint::ClaimMintPayments }
    }

    /// Owner only, at most once per epoch: records the epoch and hands back
    /// the two calls to make, in order, the royalties first and the mint
    /// payments second, each at the minter's address.
    pub fn claim_nft_collection_payments_and_royalties(
        &mut self,
        caller: &Vec<u8>,
        owner: &Vec<u8>,
        current_epoch: u64,
    ) -> (r: Result<(ProxyCall, ProxyCall), ContractError>)
        ensures
            match claim_error(old(self)@, caller@, owner@, current_epoch) {
                Some(e) => r == Err::<(ProxyCall, ProxyCall), ContractError>(e) && final(self)@ == old(self)@,
                None => {
                    &&& final(self)@ == (InteractorState {
                        last_claim_epoch: current_epoch,
                        ..old(self)@
                    })
                    &&& r matches Ok(calls)
                    &&& calls.0.to@ == old(self)@.nft_collection_sc_address
                    &&& calls.0.endpoint == MinterEndpoint::ClaimRoyalties
                    &&& calls.1.to@ == old(self)@.nft_collection_sc_address
                    &&& calls.1.endpoint == MinterEndpoint::ClaimMintPayments
                },
            },
    {
        if !caller.same_key(owner) {
            return Err(ContractError::OnlyOwner);
        }
        if !(current_epoch > self.last_claim_epoch) {
            return Err(ContractError::AlreadyClaimedThisEpoch);
        }
        self.last_claim_epoch = current_epoch;
        let sc_address = self.nft_collection_sc_address.copy_key();
        let royalties = self.call_claim_royalties(sc_address.copy_key());
        let mint_payments = self.call_claim_mint_payments(sc_address);
        Ok((royalties, mint_payments))
    }
}

} // verus!
