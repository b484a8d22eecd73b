use vstd::prelude::*;

use crate::authority::AuthenticatedCaller;
use crate::error::{AuthorizationError, CustomError, TrustError};
use crate::identity::Identity;

verus! {

/// An account handed to a delegated call, with the program recorded as its owner.
#[derive(Clone, Copy, Debug)]
pub struct AccountRef {
    pub key: Identity,
    pub owner: Identity,
}

/// A token account: its address, the program that owns it, and the mint of its tokens.
#[derive(Clone, Copy, Debug)]
pub struct TokenAccountRef {
    pub key: Identity,
    pub owner: Identity,
    pub mint: Identity,
}

/// The programs that delegated calls may target; fixed once built.
#[derive(Clone, Debug)]
pub struct AllowList {
    entries: Vec<Identity>,
}

/// An admitted delegated call: target program, its two accounts and payload.
#[derive(Clone, Debug)]
pub struct DelegatedCall {
    pub program: Identity,
    pub user_data: Identity,
    pub owner: Identity,
    pub data: Vec<u8>,
}

/// An admitted token transfer.
#[derive(Clone, Copy, Debug)]
pub struct TokenTransfer {
    pub from: Identity,
    pub to: Identity,
    pub authority: Identity,
    pub amount: u64,
}

/// An admitted transfer whose authority is a derived signer, with the seed and the
/// presented bump it is to be signed with; a bump that cannot sign makes the transfer fail.
#[derive(Clone, Debug)]
pub struct SignedTransfer {
    pub transfer: TokenTransfer,
    pub seed: Vec<u8>,
    pub bump: u8,
}

/// Where a pool's derived signer comes from: a seed and the deriving program.
#[derive(Clone, Debug)]
pub struct DerivationConfig {
    pub seed: Vec<u8>,
    pub program_id: Identity,
}

impl View for AllowList {
    type V = Seq<Seq<u8>>;

    closed spec fn view(&self) -> Seq<Seq<u8>> {
        self.entries@.map_values(|e: Identity| e@)
    }
}

impl AllowList {
    /// Builds the list once; there is no way to change it afterwards.
    pub fn new(entries: Vec<Identity>) -> (r: AllowList)
        ensures
            r@ == entries@.map_values(|e: Identity| e@),
    {
        AllowList { entries }
    }

    pub fn contains(&self, id: &Identity) -> (r: bool)
        ensures
            r == self@.contains(id@),
    {
        let mut i: usize = 0;
        while i < self.entries.len()
            invariant
                0 <= i <= self.entries@.len(),
                self@ == self.entries@.map_values(|e: Identity| e@),
                forall|j: int| 0 <= j < i ==> self.entries@[j]@ != id@,
            decreases self.entries@.len() - i,
        {
            if self.entries[i].same_as(id) {
                assert(self@[i as int] == id@);
                return true;
            }
            i = i + 1;
        }
        assert(!self@.contains(id@)) by {
            if self@.contains(id@) {
                let k = choose|k: int| 0 <= k < self@.len() && self@[k] == id@;
                assert(self.entries@[k]@ == id@);
            }
        }
        false
    }
}

/// The canonical identity of the token program.
pub open spec fn token_program_bytes() -> Seq<u8> {
    seq![
        6u8, 221, 246, 225, 215, 101, 161, 147, 217, 203, 225, 70, 206, 235, 121, 172,
        28, 180, 133, 237, 95, 91, 55, 145, 58, 140, 245, 133, 126, 255, 0, 169,
    ]
}

/// The program address derived from `seed` under `program_id`, with its bump, if one exists.
pub uninterp spec fn program_address_of(seed: Seq<u8>, program_id: Seq<u8>) -> Option<(Seq<u8>, u8)>;

pub open spec fn derived_view(d: Option<(Identity, u8)>) -> Option<(Seq<u8>, u8)> {
    match d {
        Some((a, b)) => Some((a@, b)),
        None => None,
    }
}

/// Relies on anchor_spl::token::ID, the token program's declared identity.
#[verifier::external_body]
fn token_program_id() -> (r: Identity)
    ensures
        r@ == token_program_bytes(),
{
    Identity { bytes: anchor_spl::token::ID.to_bytes() }
}

/// Relies on Pubkey::try_find_program_address (re-exported by anchor_lang): the
/// derived address and bump depend on the seed and the program identity alone.
#[verifier::external_body]
fn find_derived_signer(seed: &Vec<u8>, program_id: &Identity) -> (r: Option<(Identity, u8)>)
    ensures
        derived_view(r) == program_address_of(seed@, program_id@),
{
    let program = anchor_lang::prelude::Pubkey::new_from_array(program_id.bytes);
    anchor_lang::prelude::Pubkey::try_find_program_address(&[seed.as_slice()], &program).map(
        |(a, b)| (Identity { bytes: a.to_bytes() }, b),
    )
}

/// Every referenced account is recorded as owned by `target`.
pub open spec fn owners_match(accounts: Seq<AccountRef>, target: Seq<u8>) -> bool {
    forall|i: int| 0 <= i < accounts.len() ==> (#[trigger] accounts[i]).owner@ == target
}

pub open spec fn invocation_outcome(
    allowed: Seq<Seq<u8>>,
    target: Seq<u8>,
    accounts: Seq<AccountRef>,
) -> Result<(), TrustError> {
    if !allowed.contains(target) {
        Err(TrustError::UntrustedTarget)
    } else if !owners_match(accounts, target) {
        Err(TrustError::WrongAccountOwner)
    } else {
        Ok(())
    }
}

/// The checks a delegated call must pass before it is issued.
pub open spec fn delegate_check(
    allowed: Seq<Seq<u8>>,
    target: Seq<u8>,
    user_data: AccountRef,
    owner: AuthenticatedCaller,
) -> Result<(), CustomError> {
    if !owner.is_signer {
        Err(CustomError::Authorization(AuthorizationError::MissingAuthentication))
    } else {
        match invocation_outcome(allowed, target, seq![user_data]) {
            Err(e) => Err(CustomError::Trust(e)),
            Ok(_) => Ok(()),
        }
    }
}

pub open spec fn transfer_check(token_program: Seq<u8>, authority: AuthenticatedCaller) -> Result<(), CustomError> {
    if !authority.is_signer {
        Err(CustomError::Authorization(AuthorizationError::MissingAuthentication))
    } else if token_program != token_program_bytes() {
        Err(CustomError::Trust(TrustError::InvalidTransferProgram))
    } else {
        Ok(())
    }
}

pub open spec fn token_accounts_check(
    token_program: Seq<u8>,
    mint: Seq<u8>,
    from: TokenAccountRef,
    to: TokenAccountRef,
    authority: AuthenticatedCaller,
) -> Result<(), CustomError> {
    match transfer_check(token_program, authority) {
        Err(e) => Err(e),
        Ok(_) => if from.owner@ != token_program || to.owner@ != token_program {
            Err(CustomError::Trust(TrustError::WrongAccountOwner))
        } else if from.mint@ != mint || to.mint@ != mint {
            Err(CustomError::Trust(TrustError::MintMismatch))
        } else {
            Ok(())
        },
    }
}

/// The derivation found an address, and it is the presented signer.
pub open spec fn derived_signer_ok(derived: Option<(Seq<u8>, u8)>, presented: Seq<u8>) -> bool {
    derived matches Some((address, _)) && address == presented
}

pub open spec fn pda_transfer_check(
    token_program: Seq<u8>,
    derived: Option<(Seq<u8>, u8)>,
    pda_signer: Seq<u8>,
) -> Result<(), CustomError> {
    if token_program != token_program_bytes() {
        Err(CustomError::Trust(TrustError::InvalidTransferProgram))
    } else if !derived_signer_ok(derived, pda_signer) {
        Err(CustomError::Trust(TrustError::InvalidDerivedSigner))
    } else {
        Ok(())
    }
}

/// A delegated call is admitted only when its target is allow-listed and owns every
/// referenced account; otherwise a trust error is reported and hands out no call.
pub proof fn lemma_delegation_requires_trust(
    allowed: Seq<Seq<u8>>,
    target: Seq<u8>,
    accounts: Seq<AccountRef>,
    user_data: AccountRef,
    owner: AuthenticatedCaller,
)
    ensures
        invocation_outcome(allowed, target, accounts) is Ok <==> (allowed.contains(target)
            && owners_match(accounts, target)),
        delegate_check(allowed, target, user_data, owner) is Ok ==> allowed.contains(target)
            && user_data.owner@ == target,
        owner.is_signer && !(allowed.contains(target) && user_data.owner@ == target) ==> delegate_check(
            allowed,
            target,
            user_data,
            owner,
        ) matches Err(CustomError::Trust(_)),
{
    if owners_match(seq![user_data], target) {
        assert(seq![user_data][0] == user_data);
    }
}

/// Admits a delegated call only to an allow-listed target whose accounts it owns.
pub fn authorize_invocation(
    allow: &AllowList,
    target: &Identity,
    referenced_accounts: &Vec<AccountRef>,
) -> (r: Result<(), TrustError>)
    ensures
        r == invocation_outcome(allow@, target@, referenced_accounts@),
{
    if !allow.contains(target) {
        return Err(TrustError::UntrustedTarget);
    }
    let mut i: usize = 0;
    while i < referenced_accounts.len()
        invariant
            0 <= i <= referenced_accounts@.len(),
            allow@.contains(target@),
            forall|j: int| 0 <= j < i ==> (#[trigger] referenced_accounts@[j]).owner@ == target@,
        decreases referenced_accounts@.len() - i,
    {
        if !referenced_accounts[i].owner.same_as(target) {
            assert(!owners_match(referenced_accounts@, target@)) by {
                assert(referenced_accounts@[i as int].owner@ != target@);
            }
            return Err(TrustError::WrongAccountOwner);
        }
        i = i + 1;
    }
    Ok(())
}

/// Accepts `program` only when it is byte for byte the canonical token program.
pub fn check_transfer_program(program: &Identity) -> (r: Result<(), TrustError>)
    ensures
        r is Ok <==> program@ == token_program_bytes(),
        !(r is Ok) ==> r == Err::<(), TrustError>(TrustError::InvalidTransferProgram),
{
    let canonical = token_program_id();
    if program.same_as(&canonical) {
        Ok(())
    } else {
        Err(TrustError::InvalidTransferProgram)
    }
}

/// Accepts the presented signer only when it is the address the derivation found.
pub fn check_derived_signer(derived: Option<(Identity, u8)>, presented: &Identity) -> (r: Result<(), TrustError>)
    ensures
        r is Ok <==> derived_signer_ok(derived_view(derived), presented@),
        !(r is Ok) ==> r == Err::<(), TrustError>(TrustError::InvalidDerivedSigner),
{
    match derived {
        Some((address, _)) => {
            if address.same_as(presented) {
                Ok(())
            } else {
                Err(TrustError::InvalidDerivedSigner)
            }
        },
        None => Err(TrustError::InvalidDerivedSigner),
    }
}

/// Inspects what a delegated call returned; a failure is never turned into success.
pub fn settle_delegated_call<E>(result: Result<(), E>) -> (r: Result<(), TrustError>)
    ensures
        result is Ok ==> r is Ok,
        !(result is Ok) ==> r == Err::<(), TrustError>(TrustError::DelegatedCallFailed),
{
    match result {
        Ok(()) => Ok(()),
        Err(_) => Err(TrustError::DelegatedCallFailed),
    }
}

/// Admits a token transfer signed by `authority` through the canonical token program.
pub fn safe_token_transfer(
    token_program: &Identity,
    from: &Identity,
    to: &Identity,
    authority: &AuthenticatedCaller,
    amount: u64,
) -> (r: Result<TokenTransfer, CustomError>)
    ensures
        match r {
            Ok(t) => transfer_check(token_program@, *authority) is Ok && t == (TokenTransfer {
                from: *from,
                to: *to,
                authority: authority.identity,
                amount,
            }),
            Err(e) => transfer_check(token_program@, *authority) == Err::<(), CustomError>(e),
        },
{
    if !authority.is_signer {
        return Err(CustomError::Authorization(AuthorizationError::MissingAuthentication));
    }
    match check_transfer_program(token_program) {
        Err(e) => return Err(CustomError::Trust(e)),
        Ok(()) => {},
    }
    Ok(TokenTransfer { from: *from, to: *to, authority: authority.identity, amount })
}

/// Admits a token transfer between two accounts of `mint` that the token program owns.
pub fn transfer_tokens_safe(
    token_program: &Identity,
    mint: &Identity,
    from: &TokenAccountRef,
    to: &TokenAccountRef,
    authority: &AuthenticatedCaller,
    amount: u64,
) -> (r: Result<TokenTransfer, CustomError>)
    ensures
        match r {
            Ok(t) => token_accounts_check(token_program@, mint@, *from, *to, *authority) is Ok
                && t == (TokenTransfer {
                from: from.key,
                to: to.key,
                authority: authority.identity,
                amount,
            }),
            Err(e) => token_accounts_check(token_program@, mint@, *from, *to, *authority) == Err::<
                (),
                CustomError,
            >(e),
        },
{
    let admitted = safe_token_transfer(token_program, &from.key, &to.key, authority, amount)?;
    if !from.owner.same_as(token_program) || !to.owner.same_as(token_program) {
        return Err(CustomError::Trust(TrustError::WrongAccountOwner));
    }
    if !from.mint.same_as(mint) || !to.mint.same_as(mint) {
        return Err(CustomError::Trust(TrustError::MintMismatch));
    }
    Ok(admitted)
}

/// Admits a delegated call to `target` on `user_data`, signed by `owner`.
pub fn safe_delegate_call(
    allow: &AllowList,
    target: &Identity,
    user_data: &AccountRef,
    owner: &AuthenticatedCaller,
    instruction_data: Vec<u8>,
) -> (r: Result<DelegatedCall, CustomError>)
    ensures
        match r {
            Ok(call) => {
                &&& delegate_check(allow@, target@, *user_data, *owner) is Ok
                &&& call.program == *target
                &&& call.user_data == user_data.key
                &&& call.owner == owner.identity
                &&& call.data@ == instruction_data@
            },
            Err(e) => delegate_check(allow@, target@, *user_data, *owner) == Err::<(), CustomError>(e),
        },
{
    if !owner.is_signer {
        return Err(CustomError::Authorization(AuthorizationError::MissingAuthentication));
    }
    let referenced = vec![*user_data];
    assert(referenced@ =~= seq![*user_data]);
    match authorize_invocation(allow, target, &referenced) {
        Err(e) => return Err(CustomError::Trust(e)),
        Ok(()) => {},
    }
    Ok(DelegatedCall { program: *target, user_data: user_data.key, owner: owner.identity, data: instruction_data })
}

/// Admits a transfer signed by a derived signer, given the derivation's result for `seed`.
pub fn transfer_with_derived_signer(
    token_program: &Identity,
    seed: &Vec<u8>,
    derived: Option<(Identity, u8)>,
    pda_signer: &Identity,
    bump: u8,
    from: &Identity,
    to: &Identity,
    amount: u64,
) -> (r: Result<SignedTransfer, CustomError>)
    ensures
        match r {
            Ok(t) => {
                &&& pda_transfer_check(token_program@, derived_view(derived), pda_signer@) is Ok
                &&& t.transfer == (TokenTransfer { from: *from, to: *to, authority: *pda_signer, amount })
                &&& t.seed@ == seed@
                &&& t.bump == bump
            },
            Err(e) => pda_transfer_check(token_program@, derived_view(derived), pda_signer@)
                == Err::<(), CustomError>(e),
        },
{
    match check_transfer_program(token_program) {
        Err(e) => return Err(CustomError::Trust(e)),
        Ok(()) => {},
    }
    match check_derived_signer(derived, pda_signer) {
        Err(e) => return Err(CustomError::Trust(e)),
        Ok(()) => {},
    }
    let signing_seed = seed.clone();
    assert(signing_seed@ =~= seed@);
    Ok(
        SignedTransfer {
            transfer: TokenTransfer { from: *from, to: *to, authority: *pda_signer, amount },
            seed: signing_seed,
            bump,
        },
    )
}

/// Recomputes the pool's derived signer, compares it with the presented one, and admits
/// a transfer to be signed with the seed and the presented bump.
pub fn safe_delegate_with_pda(
    config: &DerivationConfig,
    token_program: &Identity,
    pda_signer: &Identity,
    bump: u8,
    from: &Identity,
    to: &Identity,
    amount: u64,
) -> (r: Result<SignedTransfer, CustomError>)
    ensures
        match r {
            Ok(t) => {
                &&& pda_transfer_check(
                    token_program@,
                    program_address_of(config.seed@, config.program_id@),
                    pda_signer@,
                ) is Ok
                &&& t.transfer == (TokenTransfer { from: *from, to: *to, authority: *pda_signer, amount })
                &&& t.seed@ == config.seed@
                &&& t.bump == bump
            },
            Err(e) => pda_transfer_check(
                token_program@,
                program_address_of(config.seed@, config.program_id@),
                pda_signer@,
            ) == Err::<(), CustomError>(e),
        },
{
    let derived = find_derived_signer(&config.seed, &config.program_id);
    transfer_with_derived_signer(token_program, &config.seed, derived, pda_signer, bump, from, to, amount)
}

} // verus!
