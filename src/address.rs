use vstd::prelude::*;

use crate::record::RepoError;

verus! {

/// A 32-byte account identity.
#[derive(Clone, Copy, Debug)]
pub struct Address {
    pub bytes: [u8; 32],
}

impl View for Address {
    type V = Seq<u8>;

    open spec fn view(&self) -> Seq<u8> {
        self.bytes@
    }
}

impl Address {
    pub fn new(bytes: [u8; 32]) -> (r: Address)
        ensures
            r@ == bytes@,
    {
        Address { bytes }
    }

    /// Byte-wise equality of two identities.
    pub fn same(&self, other: &Address) -> (r: bool)
        ensures
            r == (self@ == other@),
    {
        let mut i: usize = 0;
        while i < 32
            invariant
                i <= 32,
                forall|j: int| 0 <= j < i ==> self@[j] == other@[j],
            decreases 32 - i,
        {
            if self.bytes[i] != other.bytes[i] {
                return false;
            }
            i += 1;
        }
        assert(self@ =~= other@);
        true
    }

    /// The identity's bytes, as a seed for a derivation.
    pub fn to_vec(&self) -> (r: Vec<u8>)
        ensures
            r@ == self@,
    {
        let mut v: Vec<u8> = Vec::new();
        let mut i: usize = 0;
        while i < 32
            invariant
                i <= 32,
                v@ == self@.subrange(0, i as int),
            decreases 32 - i,
        {
            v.push(self.bytes[i]);
            i += 1;
        }
        assert(v@ =~= self@);
        v
    }
}

/// The address that the runtime derives from `seeds` for the program
/// `program`, or `None` where the seeds give none.
pub uninterp spec fn program_address(seeds: Seq<Seq<u8>>, program: Seq<u8>) -> Option<Seq<u8>>;

/// Relies on `Pubkey::create_program_address` of solana-program (re-exported by
/// anchor-lang): a function of the seeds and the program id alone, which
/// refuses more than sixteen seeds or a seed longer than thirty-two bytes.
#[verifier::external_body]
fn create_program_address(seeds: &Vec<Vec<u8>>, program_id: &Address) -> (r: Option<Address>)
    ensures
        r is Some <==> program_address(seeds.deep_view(), program_id@) is Some,
        r is Some ==> program_address(seeds.deep_view(), program_id@) == Some(r.unwrap()@),
        seeds@.len() > 16 ==> r is None,
        (exists|i: int| 0 <= i < seeds@.len() && #[trigger] seeds@[i]@.len() > 32) ==> r is None,
{
    let slices: Vec<&[u8]> = seeds.iter().map(|s| s.as_slice()).collect();
    let program = anchor_lang::prelude::Pubkey::new_from_array(program_id.bytes);
    anchor_lang::prelude::Pubkey::create_program_address(&slices, &program).ok().map(
        |k| Address { bytes: k.to_bytes() },
    )
}

/// The two program-owned custody accounts of a repository.
#[derive(Clone, Copy, Debug, PartialEq, Eq, Structural)]
pub enum Custody {
    Vault,
    Treasury,
}

/// The fixed label that starts the seeds of each custody account.
pub open spec fn custody_label(which: Custody) -> Seq<u8> {
    match which {
        Custody::Vault => seq![114u8, 101u8, 112u8, 111u8, 45u8, 118u8, 97u8, 117u8, 108u8, 116u8],
        Custody::Treasury => seq![
            114u8, 101u8, 112u8, 111u8, 45u8, 116u8, 114u8, 101u8, 97u8, 115u8, 117u8, 114u8, 121u8
        ],
    }
}

/// The address of a repository's custody account for a given salt.
pub open spec fn custody_address(program: Seq<u8>, which: Custody, repo: Seq<u8>, salt: u8) -> Option<
    Seq<u8>,
> {
    program_address(seq![custody_label(which), repo, seq![salt]], program)
}

/// Whether `account` is the custody account that the stored salt derives,
/// reconstructed from the salt `supplied`.
pub open spec fn custody_matches(
    program: Seq<u8>,
    which: Custody,
    repo: Seq<u8>,
    stored: u8,
    supplied: u8,
    account: Seq<u8>,
) -> bool {
    supplied == stored && custody_address(program, which, repo, supplied) == Some(account)
}

fn custody_label_bytes(which: Custody) -> (r: Vec<u8>)
    ensures
        r@ == custody_label(which),
{
    match which {
        Custody::Vault => vec![114u8, 101u8, 112u8, 111u8, 45u8, 118u8, 97u8, 117u8, 108u8, 116u8],
        Custody::Treasury => vec![
            114u8, 101u8, 112u8, 111u8, 45u8, 116u8, 114u8, 101u8, 97u8, 115u8, 117u8, 114u8, 121u8
        ],
    }
}

/// Reconstructs a custody account's address from the salt `supplied` and
/// checks it against both the salt stored in the record and the account that
/// was handed in. Any difference fails closed.
pub fn check_custody_address(
    program_id: &Address,
    which: Custody,
    repo_key: &Address,
    stored_salt: u8,
    supplied_salt: u8,
    account: &Address,
) -> (r: Result<(), RepoError>)
    ensures
        r is Ok <==> custody_matches(
            program_id@,
            which,
            repo_key@,
            stored_salt,
            supplied_salt,
            account@,
        ),
        r is Err ==> r == Err::<(), RepoError>(RepoError::IdentityMismatch),
{
    if supplied_salt != stored_salt {
        return Err(RepoError::IdentityMismatch);
    }
    let label = custody_label_bytes(which);
    let repo = repo_key.to_vec();
    let salt = vec![supplied_salt];
    assert(label.deep_view() =~= label@);
    assert(repo.deep_view() =~= repo@);
    assert(salt.deep_view() =~= seq![supplied_salt]);
    let seeds: Vec<Vec<u8>> = vec![label, repo, salt];
    assert(seeds.deep_view() =~= seq![custody_label(which), repo_key@, seq![supplied_salt]]);
    match create_program_address(&seeds, program_id) {
        Some(derived) => {
            if derived.same(account) {
                Ok(())
            } else {
                Err(RepoError::IdentityMismatch)
            }
        },
        None => Err(RepoError::IdentityMismatch),
    }
}

} // verus!
