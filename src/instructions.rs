use vstd::prelude::*;

use crate::address::{Address, Custody, check_custody_address, custody_address, custody_matches};
use crate::custody::{
    MintAccount,
    TokenAccount,
    check_leg_bound,
    leg_bound,
    leg_fits,
    leg_funded,
    mint_to,
    move_tokens,
    with_amount,
};
use crate::record::{
    RecordState,
    RecordView,
    RepoAccount,
    RepoError,
    Repository,
    outcome_of,
    with_ipfs_hash,
};

verus! {

/// Units of its own token that a new repository issues into its vault.
pub const INITIAL_SUPPLY: u64 = 1000000;

/// Decimal places of a repository's own token.
pub const MINT_DECIMALS: u8 = 9;

/// The accounts that creating a repository touches.
#[derive(Clone, Debug)]
pub struct InitializeRepo {
    /// The record to create.
    pub repo_account: RepoAccount,
    /// The creator, who pays and holds the new token's authorities.
    pub signer: Address,
    /// What the creator holds to pay for the new accounts.
    pub signer_lamports: u64,
    /// The reference token that buyers will pay with.
    pub exchange_token_mint: Address,
    /// The repository's own token, to create.
    pub mint: MintAccount,
    /// The vault to create.
    pub repo_vault: TokenAccount,
    /// The treasury to create.
    pub repo_treasury: TokenAccount,
    /// What creating the new accounts costs the creator.
    pub creation_cost: u64,
}

/// The first check that creating a repository fails, if any.
pub open spec fn init_error(
    program: Seq<u8>,
    ctx: InitializeRepo,
    bump: u8,
    treasury_bump: u8,
) -> Option<RepoError> {
    let key = ctx.repo_account.key@;
    if ctx.repo_account.record() is Some || ctx.mint.initialized || ctx.repo_vault.initialized
        || ctx.repo_treasury.initialized {
        Some(RepoError::AlreadyInitialized)
    } else if !custody_matches(program, Custody::Vault, key, bump, bump, ctx.repo_vault.address@)
        || !custody_matches(
        program,
        Custody::Treasury,
        key,
        treasury_bump,
        treasury_bump,
        ctx.repo_treasury.address@,
    ) {
        Some(RepoError::IdentityMismatch)
    } else if ctx.signer_lamports < ctx.creation_cost {
        Some(RepoError::AllocationFailure)
    } else {
        None
    }
}

/// `new` is `old` after a repository was created in it.
pub open spec fn init_applied(
    old: InitializeRepo,
    new: InitializeRepo,
    ipfs_hash: Seq<char>,
    bump: u8,
    treasury_bump: u8,
) -> bool {
    &&& new.repo_account.key == old.repo_account.key
    &&& new.repo_account.record() == Some(
        RecordView {
            ipfs_hash,
            exchange_token_mint: old.exchange_token_mint@,
            vault_bump: bump,
            treasury_bump,
        },
    )
    &&& new.signer == old.signer
    &&& new.signer_lamports == old.signer_lamports - old.creation_cost
    &&& new.exchange_token_mint == old.exchange_token_mint
    &&& new.creation_cost == old.creation_cost
    &&& new.mint == (MintAccount {
        address: old.mint.address,
        initialized: true,
        decimals: MINT_DECIMALS,
        mint_authority: old.signer,
        freeze_authority: old.signer,
        supply: INITIAL_SUPPLY,
    })
    &&& new.repo_vault == (TokenAccount {
        address: old.repo_vault.address,
        initialized: true,
        mint: old.mint.address,
        owner: old.repo_vault.address,
        amount: INITIAL_SUPPLY,
    })
    &&& new.repo_treasury == (TokenAccount {
        address: old.repo_treasury.address,
        initialized: true,
        mint: old.exchange_token_mint,
        owner: old.repo_treasury.address,
        amount: 0,
    })
}

/// Creates the record, the repository's token, its vault and its treasury,
/// and issues the initial supply into the vault. The vault and the treasury
/// must be at the addresses that `bump` and `treasury_bump` derive; those
/// salts are stored for every later instruction.
pub fn initialize_repo(
    program_id: &Address,
    ctx: &mut InitializeRepo,
    ipfs_hash: String,
    bump: u8,
    treasury_bump: u8,
) -> (r: Result<(), RepoError>)
    ensures
        r == outcome_of(init_error(program_id@, *old(ctx), bump, treasury_bump)),
        r is Err ==> *final(ctx) == *old(ctx),
        r is Ok ==> init_applied(*old(ctx), *final(ctx), ipfs_hash@, bump, treasury_bump),
{
    let created = match ctx.repo_account.state {
        RecordState::Active(_) => true,
        RecordState::Uninitialized => false,
    };
    if created || ctx.mint.initialized || ctx.repo_vault.initialized || ctx.repo_treasury.initialized {
        return Err(RepoError::AlreadyInitialized);
    }
    if let Err(e) = check_custody_address(
        program_id,
        Custody::Vault,
        &ctx.repo_account.key,
        bump,
        bump,
        &ctx.repo_vault.address,
    ) {
        return Err(e);
    }
    if let Err(e) = check_custody_address(
        program_id,
        Custody::Treasury,
        &ctx.repo_account.key,
        treasury_bump,
        treasury_bump,
        &ctx.repo_treasury.address,
    ) {
        return Err(e);
    }
    if ctx.signer_lamports < ctx.creation_cost {
        return Err(RepoError::AllocationFailure);
    }
    ctx.signer_lamports = ctx.signer_lamports - ctx.creation_cost;
    ctx.mint = MintAccount {
        address: ctx.mint.address,
        initialized: true,
        decimals: MINT_DECIMALS,
        mint_authority: ctx.signer,
        freeze_authority: ctx.signer,
        supply: 0,
    };
    ctx.repo_vault = TokenAccount {
        address: ctx.repo_vault.address,
        initialized: true,
        mint: ctx.mint.address,
        owner: ctx.repo_vault.address,
        amount: 0,
    };
    ctx.repo_treasury = TokenAccount {
        address: ctx.repo_treasury.address,
        initialized: true,
        mint: ctx.exchange_token_mint,
        owner: ctx.repo_treasury.address,
        amount: 0,
    };
    mint_to(&mut ctx.mint, &mut ctx.repo_vault, INITIAL_SUPPLY);
    ctx.repo_account.state = RecordState::Active(
        Repository {
            ipfs_hash,
            exchange_token_mint: ctx.exchange_token_mint,
            vault_bump: bump,
            treasury_bump,
        },
    );
    Ok(())
}

/// The accounts that replacing a repository's metadata pointer touches.
#[derive(Clone, Debug)]
pub struct UpdateRepo {
    pub repo_account: RepoAccount,
    /// Whoever submits the change. Any signer is accepted: the record keeps no
    /// owner to compare against.
    pub signer: Address,
}

/// Replaces the record's metadata pointer and nothing else.
pub fn update_repo(ctx: &mut UpdateRepo, ipfs_hash: String) -> (r: Result<(), RepoError>)
    ensures
        r is Ok <==> old(ctx).repo_account.record() is Some,
        r is Err ==> r == Err::<(), RepoError>(RepoError::NotInitialized) && *final(ctx) == *old(
            ctx,
        ),
        r is Ok ==> {
            &&& final(ctx).signer == old(ctx).signer
            &&& final(ctx).repo_account.key == old(ctx).repo_account.key
            &&& final(ctx).repo_account.record() == Some(
                with_ipfs_hash(old(ctx).repo_account.record().unwrap(), ipfs_hash@),
            )
        },
{
    match &mut ctx.repo_account.state {
        RecordState::Active(rec) => {
            rec.ipfs_hash = ipfs_hash;
            Ok(())
        },
        RecordState::Uninitialized => Err(RepoError::NotInitialized),
    }
}

/// Two updates leave the second pointer, and the salts and the reference
/// token as they were at creation.
pub proof fn lemma_update_twice(rec: RecordView, s1: Seq<char>, s2: Seq<char>)
    ensures
        with_ipfs_hash(with_ipfs_hash(rec, s1), s2).ipfs_hash == s2,
        with_ipfs_hash(with_ipfs_hash(rec, s1), s2).vault_bump == rec.vault_bump,
        with_ipfs_hash(with_ipfs_hash(rec, s1), s2).treasury_bump == rec.treasury_bump,
        with_ipfs_hash(with_ipfs_hash(rec, s1), s2).exchange_token_mint == rec.exchange_token_mint,
{
}

/// The accounts that a purchase touches.
#[derive(Clone, Debug)]
pub struct BuyTokens {
    /// The buyer, who signs for the payment.
    pub signer: Address,
    pub repo_account: RepoAccount,
    /// The reference token the buyer pays with.
    pub exchange_token_mint: Address,
    pub repo_vault: TokenAccount,
    pub repo_treasury: TokenAccount,
    /// The buyer's account of the reference token, which pays.
    pub user_exchange_token_account: TokenAccount,
    /// The buyer's account of the repository's token, which receives.
    pub user_token_account: TokenAccount,
}

/// The first identity check that a purchase fails, if any: the record
/// exists, the vault and the treasury are at the addresses that the stored
/// salts derive, the reference token is the recorded one, and each leg's
/// accounts hold one token and are signed for by their owner.
pub open spec fn buy_identity_error(program: Seq<u8>, ctx: BuyTokens) -> Option<RepoError> {
    match ctx.repo_account.record() {
        None => Some(RepoError::NotInitialized),
        Some(rec) => {
            let key = ctx.repo_account.key@;
            if !custody_matches(
                program,
                Custody::Vault,
                key,
                rec.vault_bump,
                rec.vault_bump,
                ctx.repo_vault.address@,
            ) || !custody_matches(
                program,
                Custody::Treasury,
                key,
                rec.treasury_bump,
                rec.treasury_bump,
                ctx.repo_treasury.address@,
            ) || ctx.exchange_token_mint@ != rec.exchange_token_mint || ctx.repo_treasury.mint@
                != rec.exchange_token_mint || !leg_bound(
                ctx.repo_vault,
                ctx.user_token_account,
                ctx.repo_vault.address@,
            ) || !leg_bound(ctx.user_exchange_token_account, ctx.repo_treasury, ctx.signer@) {
                Some(RepoError::IdentityMismatch)
            } else {
                None
            }
        },
    }
}

/// The first check that a purchase of `amount` fails, if any.
pub open spec fn buy_error(program: Seq<u8>, ctx: BuyTokens, amount: u64) -> Option<RepoError> {
    if buy_identity_error(program, ctx) is Some {
        buy_identity_error(program, ctx)
    } else if !leg_funded(ctx.repo_vault, amount) || !leg_funded(
        ctx.user_exchange_token_account,
        amount,
    ) {
        Some(RepoError::InsufficientFunds)
    } else if !leg_fits(ctx.user_token_account, amount) || !leg_fits(ctx.repo_treasury, amount) {
        Some(RepoError::ArithmeticOverflow)
    } else {
        None
    }
}

/// `new` is `old` after both legs of a purchase of `amount` moved.
pub open spec fn buy_applied(old: BuyTokens, new: BuyTokens, amount: u64) -> bool {
    new == (BuyTokens {
        repo_vault: with_amount(old.repo_vault, old.repo_vault.amount - amount),
        user_token_account: with_amount(
            old.user_token_account,
            old.user_token_account.amount + amount,
        ),
        user_exchange_token_account: with_amount(
            old.user_exchange_token_account,
            old.user_exchange_token_account.amount - amount,
        ),
        repo_treasury: with_amount(old.repo_treasury, old.repo_treasury.amount + amount),
        ..old
    })
}

/// Sells `amount` of the repository's token for the same amount of the
/// reference token: the vault pays the buyer, signed for by its derived
/// identity, and the buyer pays the treasury. Both legs move or neither.
pub fn buy_tokens(program_id: &Address, ctx: &mut BuyTokens, amount: u64) -> (r: Result<
    (),
    RepoError,
>)
    ensures
        r == outcome_of(buy_error(program_id@, *old(ctx), amount)),
        r is Err ==> *final(ctx) == *old(ctx),
        r is Ok ==> buy_applied(*old(ctx), *final(ctx), amount),
{
    let (vault_bump, treasury_bump, exchange_mint) = match &ctx.repo_account.state {
        RecordState::Active(rec) => (rec.vault_bump, rec.treasury_bump, rec.exchange_token_mint),
        RecordState::Uninitialized => {
            return Err(RepoError::NotInitialized);
        },
    };
    if let Err(e) = check_custody_address(
        program_id,
        Custody::Vault,
        &ctx.repo_account.key,
        vault_bump,
        vault_bump,
        &ctx.repo_vault.address,
    ) {
        return Err(e);
    }
    if let Err(e) = check_custody_address(
        program_id,
        Custody::Treasury,
        &ctx.repo_account.key,
        treasury_bump,
        treasury_bump,
        &ctx.repo_treasury.address,
    ) {
        return Err(e);
    }
    if !ctx.exchange_token_mint.same(&exchange_mint) || !ctx.repo_treasury.mint.same(
        &exchange_mint,
    ) {
        return Err(RepoError::IdentityMismatch);
    }
    if let Err(e) = check_leg_bound(
        &ctx.repo_vault,
        &ctx.user_token_account,
        &ctx.repo_vault.address,
    ) {
        return Err(e);
    }
    if let Err(e) = check_leg_bound(
        &ctx.user_exchange_token_account,
        &ctx.repo_treasury,
        &ctx.signer,
    ) {
        return Err(e);
    }
    if amount > ctx.repo_vault.amount || amount > ctx.user_exchange_token_account.amount {
        return Err(RepoError::InsufficientFunds);
    }
    if amount > u64::MAX - ctx.user_token_account.amount || amount > u64::MAX
        - ctx.repo_treasury.amount {
        return Err(RepoError::ArithmeticOverflow);
    }
    move_tokens(&mut ctx.repo_vault, &mut ctx.user_token_account, amount);
    move_tokens(&mut ctx.user_exchange_token_account, &mut ctx.repo_treasury, amount);
    Ok(())
}

/// A purchase among the right accounts that either leg's source cannot pay
/// for is refused as an overdraft, and so moves no balance.
pub proof fn lemma_overdraw_refused(program: Seq<u8>, ctx: BuyTokens, amount: u64)
    requires
        buy_identity_error(program, ctx) is None,
        amount > ctx.repo_vault.amount || amount > ctx.user_exchange_token_account.amount,
    ensures
        buy_error(program, ctx, amount) == Some(RepoError::InsufficientFunds),
{
}

/// A purchase that both sources can pay for, among the right accounts, either
/// moves all four balances by `amount` or, where a destination is full,
/// moves none.
pub proof fn lemma_purchase_all_or_nothing(program: Seq<u8>, ctx: BuyTokens, amount: u64)
    requires
        buy_identity_error(program, ctx) is None,
        amount <= ctx.repo_vault.amount,
        amount <= ctx.user_exchange_token_account.amount,
    ensures
        buy_error(program, ctx, amount) is None || buy_error(program, ctx, amount) == Some(
            RepoError::ArithmeticOverflow,
        ),
        buy_error(program, ctx, amount) is None <==> (leg_fits(ctx.user_token_account, amount)
            && leg_fits(ctx.repo_treasury, amount)),
{
}

/// A custody address rebuilt from any salt but the stored one is refused,
/// whatever account it is checked against.
pub proof fn lemma_foreign_salt_refused(
    program: Seq<u8>,
    which: Custody,
    repo: Seq<u8>,
    stored: u8,
    supplied: u8,
    account: Seq<u8>,
)
    requires
        supplied != stored,
    ensures
        !custody_matches(program, which, repo, stored, supplied, account),
{
}

/// A purchase whose vault is not at the address that the stored salt
/// derives is refused as a mismatch of identity, before any balance moves.
pub proof fn lemma_substituted_vault_refused(program: Seq<u8>, ctx: BuyTokens, amount: u64)
    requires
        ctx.repo_account.record() is Some,
        custody_address(
            program,
            Custody::Vault,
            ctx.repo_account.key@,
            ctx.repo_account.record().unwrap().vault_bump,
        ) != Some(ctx.repo_vault.address@),
    ensures
        buy_error(program, ctx, amount) == Some(RepoError::IdentityMismatch),
{
}

} // verus!
