use vstd::prelude::*;

use crate::address::Address;

verus! {

/// Why an instruction was rejected. A rejected instruction changes nothing.
#[derive(Clone, Copy, Debug, PartialEq, Eq, Structural)]
pub enum RepoError {
    /// An account is not the one that its derivation or the record names.
    IdentityMismatch,
    /// An account that the instruction creates exists already.
    AlreadyInitialized,
    /// A transfer would overdraw its source account.
    InsufficientFunds,
    /// The creator cannot pay for the accounts it creates.
    AllocationFailure,
    /// The repository record has not been created.
    NotInitialized,
    /// A transfer would take a balance past the largest amount an account holds.
    ArithmeticOverflow,
}

/// Error codes that the program publishes for its clients.
#[derive(Clone, Copy, Debug, PartialEq, Eq, Structural)]
pub enum CustomError {
    WrongInput,
    TimeError,
    SameUser,
    WrongUser,
    ChallengeNotExpired,
    ChallengeExpired,
    NoFullConsent,
    NotEnoughFunds,
    VotingAgain,
    LockPeriodNotEnded,
}

/// The persistent state of one repository.
#[derive(Clone, Debug)]
pub struct Repository {
    /// Pointer to the off-chain metadata.
    pub ipfs_hash: String,
    /// The reference token that buyers pay with.
    pub exchange_token_mint: Address,
    /// Salt of the vault's derivation; written once, at creation.
    pub vault_bump: u8,
    /// Salt of the treasury's derivation; written once, at creation.
    pub treasury_bump: u8,
}

/// What a repository record holds, as mathematical values.
pub struct RecordView {
    pub ipfs_hash: Seq<char>,
    pub exchange_token_mint: Seq<u8>,
    pub vault_bump: u8,
    pub treasury_bump: u8,
}

impl View for Repository {
    type V = RecordView;

    open spec fn view(&self) -> RecordView {
        RecordView {
            ipfs_hash: self.ipfs_hash@,
            exchange_token_mint: self.exchange_token_mint@,
            vault_bump: self.vault_bump,
            treasury_bump: self.treasury_bump,
        }
    }
}

/// A record account is either still empty or holds an active repository.
/// Only creation moves it from the first state to the second.
#[derive(Clone, Debug)]
pub enum RecordState {
    Uninitialized,
    Active(Repository),
}

/// The account that holds a repository record, at its fixed address.
#[derive(Clone, Debug)]
pub struct RepoAccount {
    pub key: Address,
    pub state: RecordState,
}

impl RepoAccount {
    /// An account at `key` that holds no record yet.
    pub fn empty(key: Address) -> (r: RepoAccount)
        ensures
            r.key == key,
            r.record() is None,
    {
        RepoAccount { key, state: RecordState::Uninitialized }
    }

    /// The record held, if any.
    pub open spec fn record(&self) -> Option<RecordView> {
        match self.state {
            RecordState::Uninitialized => None,
            RecordState::Active(rec) => Some(rec@),
        }
    }
}

/// The record after its metadata pointer is replaced by `ipfs_hash`.
pub open spec fn with_ipfs_hash(rec: RecordView, ipfs_hash: Seq<char>) -> RecordView {
    RecordView { ipfs_hash, ..rec }
}

/// The result of an instruction whose first failing check, if any, is `err`.
pub open spec fn outcome_of(err: Option<RepoError>) -> Result<(), RepoError> {
    match err {
        Some(e) => Err(e),
        None => Ok(()),
    }
}

} // verus!
