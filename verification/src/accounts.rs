//! Binding of the caller's ordered account list to named roles.
//!
//! Accounts are consumed strictly by position from the front of the list:
//! `state`, `user`, `authority`, `taker`, `taker_stats`, `user_stats`,
//! `external_program`; everything after that prefix is passed through
//! uninterpreted as `remaining_accounts`.

use vstd::prelude::*;

verus! {

/// Number of role accounts that must lead the account list.
pub const REQUIRED_PREFIX_LEN: usize = 7;

/// A non-owning view of one account supplied with the transaction: its
/// address, the program that owns it, and its transaction flags.
#[derive(Debug)]
pub struct AccountHandle {
    /// The account's address.
    pub key: Vec<u8>,
    /// The address of the program that owns the account.
    pub owner: Vec<u8>,
    /// Whether this account signed the enclosing transaction.
    pub is_signer: bool,
    /// Whether this account may be mutated in the enclosing transaction.
    pub is_writable: bool,
}

/// The account list bound to named roles, with the uninterpreted tail kept
/// in its original order.
#[derive(Debug)]
pub struct AccountContext {
    pub state: AccountHandle,
    pub user: AccountHandle,
    pub authority: AccountHandle,
    pub taker: AccountHandle,
    pub taker_stats: AccountHandle,
    pub user_stats: AccountHandle,
    pub external_program: AccountHandle,
    pub remaining_accounts: Vec<AccountHandle>,
}

/// Why an account list was rejected.
#[derive(Clone, Copy, Debug, PartialEq, Eq, Structural)]
pub enum AccountError {
    /// The list is shorter than the required role prefix.
    MissingAccount,
    /// The `authority` account did not sign the transaction.
    MissingSigner,
    /// A protocol-owned account is not owned by the external program.
    InvalidOwner,
    /// An account the downstream call mutates is not marked writable.
    NotWritable,
}

/// The `authority` account signed the transaction.
pub open spec fn spec_authority_signed(s: Seq<AccountHandle>) -> bool
    recommends
        s.len() >= REQUIRED_PREFIX_LEN,
{
    s[2].is_signer
}

/// Every account whose data the external program reads as its own state is
/// owned by that program.
pub open spec fn spec_owners_ok(s: Seq<AccountHandle>) -> bool
    recommends
        s.len() >= REQUIRED_PREFIX_LEN,
{
    &&& s[0].owner@ == s[6].key@
    &&& s[1].owner@ == s[6].key@
    &&& s[4].owner@ == s[6].key@
    &&& s[5].owner@ == s[6].key@
}

/// Every account the downstream call mutates is marked writable.
pub open spec fn spec_writable_ok(s: Seq<AccountHandle>) -> bool
    recommends
        s.len() >= REQUIRED_PREFIX_LEN,
{
    &&& s[1].is_writable
    &&& s[3].is_writable
    &&& s[4].is_writable
    &&& s[5].is_writable
}

/// An account list that `resolve` accepts.
pub open spec fn spec_resolve_ok(s: Seq<AccountHandle>) -> bool {
    &&& s.len() >= REQUIRED_PREFIX_LEN
    &&& spec_authority_signed(s)
    &&& spec_owners_ok(s)
    &&& spec_writable_ok(s)
}

/// The error reported for an account list that `resolve` rejects: the first
/// failed check, in the order the checks run.
pub open spec fn spec_resolve_err(s: Seq<AccountHandle>) -> AccountError
    recommends
        !spec_resolve_ok(s),
{
    if s.len() < REQUIRED_PREFIX_LEN {
        AccountError::MissingAccount
    } else if !spec_authority_signed(s) {
        AccountError::MissingSigner
    } else if !spec_owners_ok(s) {
        AccountError::InvalidOwner
    } else {
        AccountError::NotWritable
    }
}

/// Law: an account list shorter than the required prefix never resolves, and
/// the error it draws is always the missing account — so, by the pipeline's
/// contract, no plan and no call can come of it.
pub proof fn lemma_short_list_rejected(s: Seq<AccountHandle>)
    requires
        s.len() < REQUIRED_PREFIX_LEN,
    ensures
        !spec_resolve_ok(s),
        spec_resolve_err(s) == AccountError::MissingAccount,
{
}

/// Whether two addresses are the same byte sequence.
pub fn keys_equal(a: &Vec<u8>, b: &Vec<u8>) -> (r: bool)
    ensures
        r == (a@ == b@),
{
    if a.len() != b.len() {
        return false;
    }
    let mut i: usize = 0;
    while i < a.len()
        invariant
            i <= a@.len(),
            a@.len() == b@.len(),
            forall|j: int| 0 <= j < i ==> a@[j] == b@[j],
        decreases a@.len() - i,
    {
        if a[i] != b[i] {
            return false;
        }
        i += 1;
    }
    proof {
        assert(a@ =~= b@);
    }
    true
}

/// Binds the ordered account list to named roles.
///
/// Fails if the list is shorter than the required prefix, if `authority` did
/// not sign, if a protocol-owned account has the wrong owner, or if a mutated
/// account is not writable; the checks run in that order and the first failed
/// one names the error. On success every role holds the account at its fixed
/// position and the tail beyond the prefix is kept unchanged, in order.
pub fn resolve(accounts: Vec<AccountHandle>) -> (r: Result<AccountContext, AccountError>)
    ensures
        r is Ok <==> spec_resolve_ok(accounts@),
        !spec_resolve_ok(accounts@) ==> r == Err::<AccountContext, AccountError>(
            spec_resolve_err(accounts@),
        ),
        r matches Ok(ctx) ==> {
            &&& ctx.state == accounts@[0]
            &&& ctx.user == accounts@[1]
            &&& ctx.authority == accounts@[2]
            &&& ctx.taker == accounts@[3]
            &&& ctx.taker_stats == accounts@[4]
            &&& ctx.user_stats == accounts@[5]
            &&& ctx.external_program == accounts@[6]
            &&& ctx.remaining_accounts@ == accounts@.skip(REQUIRED_PREFIX_LEN as int)
        },
{
    if accounts.len() < REQUIRED_PREFIX_LEN {
        return Err(AccountError::MissingAccount);
    }
    if !accounts[2].is_signer {
        return Err(AccountError::MissingSigner);
    }
    let owners_ok = keys_equal(&accounts[0].owner, &accounts[6].key) && keys_equal(
        &accounts[1].owner,
        &accounts[6].key,
    ) && keys_equal(&accounts[4].owner, &accounts[6].key) && keys_equal(
        &accounts[5].owner,
        &accounts[6].key,
    );
    if !owners_ok {
        return Err(AccountError::InvalidOwner);
    }
    if !(accounts[1].is_writable && accounts[3].is_writable && accounts[4].is_writable
        && accounts[5].is_writable) {
        return Err(AccountError::NotWritable);
    }
    let ghost input = accounts@;
    let mut rest = accounts;
    let state = rest.remove(0);
    let user = rest.remove(0);
    let authority = rest.remove(0);
    let taker = rest.remove(0);
    let taker_stats = rest.remove(0);
    let user_stats = rest.remove(0);
    let external_program = rest.remove(0);
    proof {
        assert(rest@ =~= input.skip(REQUIRED_PREFIX_LEN as int));
    }
    Ok(
        AccountContext {
            state,
            user,
            authority,
            taker,
            taker_stats,
            user_stats,
            external_program,
            remaining_accounts: rest,
        },
    )
}

} // verus!
