use vstd::prelude::*;

use crate::address::Address;
use crate::record::RepoError;

verus! {

/// An account that holds a balance of one token.
#[derive(Clone, Copy, Debug)]
pub struct TokenAccount {
    pub address: Address,
    /// Whether the account has been created.
    pub initialized: bool,
    /// The token it holds.
    pub mint: Address,
    /// The authority that may move its balance out.
    pub owner: Address,
    pub amount: u64,
}

/// The account that issues a token.
#[derive(Clone, Copy, Debug)]
pub struct MintAccount {
    pub address: Address,
    /// Whether the mint has been created.
    pub initialized: bool,
    pub decimals: u8,
    pub mint_authority: Address,
    pub freeze_authority: Address,
    pub supply: u64,
}

/// A transfer of `from`'s token to `to`, signed by `authority`, is allowed
/// by the accounts' identities: both exist, hold the same token, and
/// `authority` owns the source.
pub open spec fn leg_bound(from: TokenAccount, to: TokenAccount, authority: Seq<u8>) -> bool {
    from.initialized && to.initialized && from.mint@ == to.mint@ && from.owner@ == authority
}

/// The source holds at least `amount`.
pub open spec fn leg_funded(from: TokenAccount, amount: u64) -> bool {
    amount <= from.amount
}

/// The destination can take `amount` more.
pub open spec fn leg_fits(to: TokenAccount, amount: u64) -> bool {
    to.amount + amount <= u64::MAX
}

/// The account with its balance changed to `amount`.
pub open spec fn with_amount(a: TokenAccount, amount: int) -> TokenAccount {
    TokenAccount { amount: amount as u64, ..a }
}

pub fn check_leg_bound(from: &TokenAccount, to: &TokenAccount, authority: &Address) -> (r: Result<
    (),
    RepoError,
>)
    ensures
        r is Ok <==> leg_bound(*from, *to, authority@),
        r is Err ==> r == Err::<(), RepoError>(RepoError::IdentityMismatch),
{
    if from.initialized && to.initialized && from.mint.same(&to.mint) && from.owner.same(authority) {
        Ok(())
    } else {
        Err(RepoError::IdentityMismatch)
    }
}

/// Moves `amount` from `from` to `to`.
pub fn move_tokens(from: &mut TokenAccount, to: &mut TokenAccount, amount: u64)
    requires
        leg_funded(*old(from), amount),
        leg_fits(*old(to), amount),
    ensures
        *final(from) == with_amount(*old(from), old(from).amount - amount),
        *final(to) == with_amount(*old(to), old(to).amount + amount),
{
    from.amount = from.amount - amount;
    to.amount = to.amount + amount;
}

/// Issues `amount` new units of `mint`'s token into `to`.
pub fn mint_to(mint: &mut MintAccount, to: &mut TokenAccount, amount: u64)
    requires
        old(to).mint@ == old(mint).address@,
        old(mint).supply + amount <= u64::MAX,
        leg_fits(*old(to), amount),
    ensures
        *final(mint) == (MintAccount { supply: (old(mint).supply + amount) as u64, ..*old(mint) }),
        *final(to) == with_amount(*old(to), old(to).amount + amount),
{
    mint.supply = mint.supply + amount;
    to.amount = to.amount + amount;
}

} // verus!
