//! A repository that issues its own token into a program-owned vault and sells
//! it one for one against a reference token, which collects in a treasury.
//!
//! The accounts are plain values. Each instruction checks every account it is
//! handed before it changes anything, then applies all of its effects; its
//! contract says exactly which inputs succeed, which error each failure gives,
//! and what a success leaves behind.

mod address;
mod custody;
mod instructions;
mod record;

pub use address::{
    Address,
    Custody,
    check_custody_address,
    custody_address,
    custody_label,
    custody_matches,
    program_address,
};
pub use custody::{
    MintAccount,
    TokenAccount,
    check_leg_bound,
    leg_bound,
    leg_fits,
    leg_funded,
    mint_to,
    move_tokens,
    with_amount,
};
pub use instructions::{
    BuyTokens,
    INITIAL_SUPPLY,
    InitializeRepo,
    MINT_DECIMALS,
    UpdateRepo,
    buy_applied,
    buy_error,
    buy_identity_error,
    buy_tokens,
    init_applied,
    init_error,
    initialize_repo,
    lemma_foreign_salt_refused,
    lemma_overdraw_refused,
    lemma_purchase_all_or_nothing,
    lemma_substituted_vault_refused,
    lemma_update_twice,
    update_repo,
};
pub use record::{
    CustomError,
    RecordState,
    RecordView,
    RepoAccount,
    RepoError,
    Repository,
    outcome_of,
    with_ipfs_hash,
};
