use anchor_lang::prelude::Pubkey;
use defi_os::{
    check_custody_address, buy_tokens, initialize_repo, update_repo, Address, BuyTokens, Custody,
    InitializeRepo, MintAccount, RecordState, RepoAccount, RepoError, TokenAccount, UpdateRepo,
    INITIAL_SUPPLY, MINT_DECIMALS,
};

const VAULT_LABEL: &[u8] = b"repo-vault";
const TREASURY_LABEL: &[u8] = b"repo-treasury";

fn addr(tag: u8) -> Address {
    Address::new([tag; 32])
}

fn program() -> Address {
    addr(200)
}

fn derive(label: &[u8], repo: &Address, salt: u8) -> Option<Address> {
    let program = Pubkey::new_from_array(program().bytes);
    Pubkey::create_program_address(&[label, &repo.bytes, &[salt]], &program)
        .ok()
        .map(|k| Address::new(k.to_bytes()))
}

/// A record key for which both salts derive a custody address.
fn repo_key_for(vault_salt: u8, treasury_salt: u8) -> Address {
    for tag in 0..=255u8 {
        let key = Address::new([tag; 32]);
        if derive(VAULT_LABEL, &key, vault_salt).is_some()
            && derive(TREASURY_LABEL, &key, treasury_salt).is_some()
        {
            return key;
        }
    }
    panic!("no record key derives both custody accounts");
}

fn empty_token(address: Address) -> TokenAccount {
    TokenAccount { address, initialized: false, mint: addr(0), owner: addr(0), amount: 0 }
}

fn init_ctx(key: Address, vault_salt: u8, treasury_salt: u8, exchange: Address) -> InitializeRepo {
    InitializeRepo {
        repo_account: RepoAccount::empty(key),
        signer: addr(1),
        signer_lamports: 10_000,
        exchange_token_mint: exchange,
        mint: MintAccount {
            address: addr(3),
            initialized: false,
            decimals: 0,
            mint_authority: addr(0),
            freeze_authority: addr(0),
            supply: 0,
        },
        repo_vault: empty_token(derive(VAULT_LABEL, &key, vault_salt).unwrap()),
        repo_treasury: empty_token(derive(TREASURY_LABEL, &key, treasury_salt).unwrap()),
        creation_cost: 4_000,
    }
}

/// A created repository and a buyer holding `paying` units of the reference token.
fn bought_ctx(paying: u64) -> BuyTokens {
    let key = repo_key_for(7, 9);
    let mut init = init_ctx(key, 7, 9, addr(2));
    initialize_repo(&program(), &mut init, String::from("Qm123"), 7, 9).unwrap();
    BuyTokens {
        signer: addr(5),
        repo_account: init.repo_account,
        exchange_token_mint: addr(2),
        repo_vault: init.repo_vault,
        repo_treasury: init.repo_treasury,
        user_exchange_token_account: TokenAccount {
            address: addr(6),
            initialized: true,
            mint: addr(2),
            owner: addr(5),
            amount: paying,
        },
        user_token_account: TokenAccount {
            address: addr(7),
            initialized: true,
            mint: addr(3),
            owner: addr(5),
            amount: 0,
        },
    }
}

fn record(acc: &RepoAccount) -> defi_os::Repository {
    match &acc.state {
        RecordState::Active(rec) => rec.clone(),
        RecordState::Uninitialized => panic!("record not created"),
    }
}

fn balances(ctx: &BuyTokens) -> [u64; 4] {
    [
        ctx.repo_vault.amount,
        ctx.user_token_account.amount,
        ctx.user_exchange_token_account.amount,
        ctx.repo_treasury.amount,
    ]
}

#[test]
fn initialize_then_buy_scenario() {
    let key = repo_key_for(7, 9);
    let mut ctx = init_ctx(key, 7, 9, addr(2));
    assert_eq!(initialize_repo(&program(), &mut ctx, String::from("Qm123"), 7, 9), Ok(()));
    let rec = record(&ctx.repo_account);
    assert_eq!(rec.ipfs_hash, "Qm123");
    assert_eq!(rec.exchange_token_mint.bytes, addr(2).bytes);
    assert_eq!(rec.vault_bump, 7);
    assert_eq!(rec.treasury_bump, 9);
    assert_eq!(ctx.repo_vault.amount, 1_000_000);
    assert_eq!(ctx.repo_treasury.amount, 0);
    assert_eq!(ctx.mint.supply, INITIAL_SUPPLY);
    assert_eq!(ctx.mint.decimals, MINT_DECIMALS);
    assert_eq!(ctx.signer_lamports, 6_000);
    assert!(ctx.repo_vault.mint.same(&addr(3)));
    assert!(ctx.repo_vault.owner.same(&ctx.repo_vault.address));
    assert!(ctx.repo_treasury.mint.same(&addr(2)));

    let mut buy = bought_ctx(1_000);
    assert_eq!(buy_tokens(&program(), &mut buy, 500), Ok(()));
    assert_eq!(balances(&buy), [999_500, 500, 500, 500]);
}

#[test]
fn initialize_twice_is_refused() {
    let key = repo_key_for(7, 9);
    let mut ctx = init_ctx(key, 7, 9, addr(2));
    initialize_repo(&program(), &mut ctx, String::from("Qm123"), 7, 9).unwrap();
    let vault_before = ctx.repo_vault.amount;
    let again = initialize_repo(&program(), &mut ctx, String::from("other"), 7, 9);
    assert_eq!(again, Err(RepoError::AlreadyInitialized));
    assert_eq!(record(&ctx.repo_account).ipfs_hash, "Qm123");
    assert_eq!(ctx.repo_vault.amount, vault_before);
}

#[test]
fn initialize_with_wrong_salt_is_refused() {
    let key = repo_key_for(7, 9);
    let mut ctx = init_ctx(key, 7, 9, addr(2));
    let r = initialize_repo(&program(), &mut ctx, String::from("Qm123"), 8, 9);
    assert_eq!(r, Err(RepoError::IdentityMismatch));
    assert!(matches!(ctx.repo_account.state, RecordState::Uninitialized));
    assert!(!ctx.repo_vault.initialized);
    assert_eq!(ctx.signer_lamports, 10_000);
}

#[test]
fn initialize_without_funds_is_refused() {
    let key = repo_key_for(7, 9);
    let mut ctx = init_ctx(key, 7, 9, addr(2));
    ctx.signer_lamports = 3_999;
    let r = initialize_repo(&program(), &mut ctx, String::from("Qm123"), 7, 9);
    assert_eq!(r, Err(RepoError::AllocationFailure));
    assert!(!ctx.mint.initialized);
}

#[test]
fn update_twice_keeps_salts_and_mint() {
    let key = repo_key_for(7, 9);
    let mut init = init_ctx(key, 7, 9, addr(2));
    initialize_repo(&program(), &mut init, String::from("Qm123"), 7, 9).unwrap();
    let mut ctx = UpdateRepo { repo_account: init.repo_account, signer: addr(9) };
    assert_eq!(update_repo(&mut ctx, String::from("first")), Ok(()));
    assert_eq!(update_repo(&mut ctx, String::from("second")), Ok(()));
    let rec = record(&ctx.repo_account);
    assert_eq!(rec.ipfs_hash, "second");
    assert_eq!(rec.vault_bump, 7);
    assert_eq!(rec.treasury_bump, 9);
    assert_eq!(rec.exchange_token_mint.bytes, addr(2).bytes);
}

#[test]
fn update_before_creation_is_refused() {
    let mut ctx = UpdateRepo { repo_account: RepoAccount::empty(addr(4)), signer: addr(9) };
    assert_eq!(update_repo(&mut ctx, String::from("x")), Err(RepoError::NotInitialized));
    assert!(matches!(ctx.repo_account.state, RecordState::Uninitialized));
}

#[test]
fn buy_more_than_buyer_holds_is_refused() {
    let mut buy = bought_ctx(1_000);
    let before = balances(&buy);
    assert_eq!(buy_tokens(&program(), &mut buy, 1_001), Err(RepoError::InsufficientFunds));
    assert_eq!(balances(&buy), before);
}

#[test]
fn buy_more_than_vault_holds_is_refused() {
    let mut buy = bought_ctx(2_000_000);
    let before = balances(&buy);
    assert_eq!(buy_tokens(&program(), &mut buy, 1_000_001), Err(RepoError::InsufficientFunds));
    assert_eq!(balances(&buy), before);
}

#[test]
fn buy_whole_vault() {
    let mut buy = bought_ctx(1_000_000);
    assert_eq!(buy_tokens(&program(), &mut buy, 1_000_000), Ok(()));
    assert_eq!(balances(&buy), [0, 1_000_000, 0, 1_000_000]);
}

#[test]
fn buy_nothing_moves_nothing() {
    let mut buy = bought_ctx(10);
    assert_eq!(buy_tokens(&program(), &mut buy, 0), Ok(()));
    assert_eq!(balances(&buy), [1_000_000, 0, 10, 0]);
}

#[test]
fn buy_with_tampered_salt_is_refused() {
    let mut buy = bought_ctx(1_000);
    if let RecordState::Active(rec) = &mut buy.repo_account.state {
        rec.vault_bump = 8;
    }
    let before = balances(&buy);
    assert_eq!(buy_tokens(&program(), &mut buy, 500), Err(RepoError::IdentityMismatch));
    assert_eq!(balances(&buy), before);
}

#[test]
fn buy_with_substituted_vault_is_refused() {
    let mut buy = bought_ctx(1_000);
    buy.repo_vault.address = addr(8);
    buy.repo_vault.owner = addr(8);
    assert_eq!(buy_tokens(&program(), &mut buy, 500), Err(RepoError::IdentityMismatch));
    assert_eq!(buy.repo_vault.amount, 1_000_000);
}

#[test]
fn buy_signed_by_another_is_refused() {
    let mut buy = bought_ctx(1_000);
    buy.signer = addr(11);
    assert_eq!(buy_tokens(&program(), &mut buy, 500), Err(RepoError::IdentityMismatch));
    assert_eq!(balances(&buy), [1_000_000, 0, 1_000, 0]);
}

#[test]
fn buy_with_other_reference_token_is_refused() {
    let mut buy = bought_ctx(1_000);
    buy.exchange_token_mint = addr(12);
    assert_eq!(buy_tokens(&program(), &mut buy, 500), Err(RepoError::IdentityMismatch));
}

#[test]
fn buy_into_full_account_overflows() {
    let mut buy = bought_ctx(1_000);
    buy.user_token_account.amount = u64::MAX - 10;
    let before = balances(&buy);
    assert_eq!(buy_tokens(&program(), &mut buy, 500), Err(RepoError::ArithmeticOverflow));
    assert_eq!(balances(&buy), before);
}

#[test]
fn buy_before_creation_is_refused() {
    let mut buy = bought_ctx(1_000);
    buy.repo_account.state = RecordState::Uninitialized;
    assert_eq!(buy_tokens(&program(), &mut buy, 500), Err(RepoError::NotInitialized));
}

#[test]
fn custody_address_is_the_derived_one() {
    let key = repo_key_for(7, 9);
    let vault = derive(VAULT_LABEL, &key, 7).unwrap();
    let treasury = derive(TREASURY_LABEL, &key, 9).unwrap();
    assert_eq!(check_custody_address(&program(), Custody::Vault, &key, 7, 7, &vault), Ok(()));
    assert_eq!(
        check_custody_address(&program(), Custody::Treasury, &key, 9, 9, &treasury),
        Ok(())
    );
    assert_eq!(
        check_custody_address(&program(), Custody::Vault, &key, 7, 7, &treasury),
        Err(RepoError::IdentityMismatch)
    );
    assert_eq!(
        check_custody_address(&program(), Custody::Vault, &key, 7, 7, &key),
        Err(RepoError::IdentityMismatch)
    );
}

#[test]
fn custody_address_from_foreign_salt_is_refused() {
    let key = repo_key_for(7, 9);
    let vault = derive(VAULT_LABEL, &key, 7).unwrap();
    assert_eq!(
        check_custody_address(&program(), Custody::Vault, &key, 7, 8, &vault),
        Err(RepoError::IdentityMismatch)
    );
}
