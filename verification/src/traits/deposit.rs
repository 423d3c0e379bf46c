//! Deposits across protocols: the capability every protocol offers, the
//! context that holds the accounts of the protocol a list was attributed to,
//! and the entry points that attribute, parse and deposit.

use crate::account::AccountHandle;
use crate::registry::{
    discriminate, first_match, lemma_first_match_none, lemma_first_match_selects, Protocol,
    Registration,
};
use pinocchio::instruction::Signer;
use pinocchio::program_error::ProgramError;
use pinocchio::pubkey::Pubkey;
use pinocchio::ProgramResult;
use vstd::prelude::*;

verus! {

/// Core trait for deposit operations across different protocols.
///
/// Each protocol implements this trait with its specific account
/// requirements and invocation logic. Nothing is assumed of an
/// implementation: contracts speak of what a call of it may return.
pub trait Deposit<'info> {
    /// Protocol-specific accounts required for the deposit.
    type Accounts;

    /// Execute a deposit of `amount`, authorized by `signer_seeds`.
    fn deposit_signed(ctx: &Self::Accounts, amount: u64, signer_seeds: &[Signer]) -> ProgramResult;

    /// Execute a deposit of `amount` without signing (the user is the direct
    /// signer).
    fn deposit(ctx: &Self::Accounts, amount: u64) -> ProgramResult;
}

/// A protocol that can be registered for discrimination: it has an identity
/// token and parses a list of account handles into its own account set.
pub trait DepositProtocol<'info, T>: Deposit<'info> {
    /// Identity token: the program identifier that owns the first account of
    /// every list meant for this protocol.
    const PROGRAM_ID: Pubkey;

    /// Parses the full list into the protocol's account set, or rejects its
    /// layout.
    ///
    /// Only ever called on a list whose first account is owned by
    /// `PROGRAM_ID`.
    fn try_from_accounts(accounts: &'info [AccountHandle<T>]) -> Result<
        Self::Accounts,
        ProgramError,
    >
        requires
            accounts@.len() > 0,
            accounts@[0].owner@ == Self::PROGRAM_ID@,
    ;
}

/// Typed context for deposit operations, discriminated by protocol.
///
/// Holds the account set of exactly one protocol. Callers can match on it to
/// validate the accounts themselves before they deposit.
pub enum DepositContext<'info, K: Deposit<'info>, J: Deposit<'info>> {
    Kamino(K::Accounts),
    Jupiter(J::Accounts),
}

impl<'info, K: Deposit<'info>, J: Deposit<'info>> DepositContext<'info, K, J> {
    /// The protocol whose accounts the context holds.
    pub open spec fn spec_protocol(&self) -> Protocol {
        match self {
            DepositContext::Kamino(_) => Protocol::Kamino,
            DepositContext::Jupiter(_) => Protocol::Jupiter,
        }
    }

    /// The protocol whose accounts the context holds.
    #[verifier::when_used_as_spec(spec_protocol)]
    pub fn protocol(&self) -> (protocol: Protocol)
        ensures
            protocol == self.spec_protocol(),
    {
        match self {
            DepositContext::Kamino(_) => Protocol::Kamino,
            DepositContext::Jupiter(_) => Protocol::Jupiter,
        }
    }

    /// Whether `result` is something the signed deposit of the protocol held
    /// in the context may return for `amount` and for seeds that read
    /// `signer_seeds`.
    pub open spec fn signed_outcome(
        &self,
        amount: u64,
        signer_seeds: Seq<Signer>,
        result: ProgramResult,
    ) -> bool {
        match self {
            DepositContext::Kamino(kamino_ctx) => exists|seeds: &[Signer]|
                seeds@ == signer_seeds && #[trigger] call_ensures(
                    K::deposit_signed,
                    (kamino_ctx, amount, seeds),
                    result,
                ),
            DepositContext::Jupiter(jupiter_ctx) => exists|seeds: &[Signer]|
                seeds@ == signer_seeds && #[trigger] call_ensures(
                    J::deposit_signed,
                    (jupiter_ctx, amount, seeds),
                    result,
                ),
        }
    }

    /// What a list attributed to the first protocol resolves to, given what
    /// that protocol's parse returned.
    pub open spec fn spec_from_kamino(parsed: Result<K::Accounts, ProgramError>) -> Result<
        Self,
        ProgramError,
    > {
        match parsed {
            Ok(accounts) => Ok(DepositContext::Kamino(accounts)),
            Err(error) => Err(error),
        }
    }

    /// What a list attributed to the second protocol resolves to, given what
    /// that protocol's parse returned.
    pub open spec fn spec_from_jupiter(parsed: Result<J::Accounts, ProgramError>) -> Result<
        Self,
        ProgramError,
    > {
        match parsed {
            Ok(accounts) => Ok(DepositContext::Jupiter(accounts)),
            Err(error) => Err(error),
        }
    }

    /// Wraps the account set that the first protocol parsed; a rejection is
    /// handed on as it came.
    #[verifier::when_used_as_spec(spec_from_kamino)]
    pub fn from_kamino(parsed: Result<K::Accounts, ProgramError>) -> (resolved: Result<
        Self,
        ProgramError,
    >)
        ensures
            resolved == Self::spec_from_kamino(parsed),
    {
        match parsed {
            Ok(accounts) => Ok(DepositContext::Kamino(accounts)),
            Err(error) => Err(error),
        }
    }

    /// Wraps the account set that the second protocol parsed; a rejection is
    /// handed on as it came.
    #[verifier::when_used_as_spec(spec_from_jupiter)]
    pub fn from_jupiter(parsed: Result<J::Accounts, ProgramError>) -> (resolved: Result<
        Self,
        ProgramError,
    >)
        ensures
            resolved == Self::spec_from_jupiter(parsed),
    {
        match parsed {
            Ok(accounts) => Ok(DepositContext::Jupiter(accounts)),
            Err(error) => Err(error),
        }
    }
}

impl<'info, K: Deposit<'info>, J: Deposit<'info>> Deposit<'info> for DepositContext<'info, K, J> {
    type Accounts = Self;

    /// Routes to the signed deposit of the protocol held in `ctx`, with
    /// `amount` and `signer_seeds` as they came, and returns what it returned.
    fn deposit_signed(ctx: &Self::Accounts, amount: u64, signer_seeds: &[Signer]) -> (result:
        ProgramResult)
        ensures
            ctx.signed_outcome(amount, signer_seeds@, result),
    {
        match ctx {
            DepositContext::Kamino(kamino_ctx) => K::deposit_signed(
                kamino_ctx,
                amount,
                signer_seeds,
            ),
            DepositContext::Jupiter(jupiter_ctx) => J::deposit_signed(
                jupiter_ctx,
                amount,
                signer_seeds,
            ),
        }
    }

    /// The signed deposit with no seeds: no other path exists.
    fn deposit(ctx: &Self::Accounts, amount: u64) -> (result: ProgramResult)
        ensures
            ctx.signed_outcome(amount, Seq::empty(), result),
    {
        let no_seeds: [Signer; 0] = [];
        assert(no_seeds@ =~= Seq::<Signer>::empty());
        Self::deposit_signed(ctx, amount, no_seeds.as_slice())
    }
}

/// The priority list: the first protocol's identity token, then the second's.
pub open spec fn registered<'info, T, K: DepositProtocol<'info, T>, J: DepositProtocol<'info, T>>(
) -> Seq<Registration> {
    seq![
        Registration { protocol: Protocol::Kamino, program_id: K::PROGRAM_ID },
        Registration { protocol: Protocol::Jupiter, program_id: J::PROGRAM_ID },
    ]
}

/// The protocol that a list whose first account is owned by `owner` is
/// attributed to.
pub open spec fn selected<'info, T, K: DepositProtocol<'info, T>, J: DepositProtocol<'info, T>>(
    owner: Seq<u8>,
) -> Option<Protocol> {
    first_match(registered::<T, K, J>(), owner)
}

/// Builds the priority list.
pub fn registry<'info, T, K: DepositProtocol<'info, T>, J: DepositProtocol<'info, T>>() -> (list:
    [Registration; 2])
    ensures
        list@ == registered::<T, K, J>(),
{
    let list = [
        Registration { protocol: Protocol::Kamino, program_id: K::PROGRAM_ID },
        Registration { protocol: Protocol::Jupiter, program_id: J::PROGRAM_ID },
    ];
    assert(list@ =~= registered::<T, K, J>());
    list
}

/// Whether `result` is what `accounts` may resolve to.
///
/// An empty list resolves to `NotEnoughAccountKeys`. A list whose first
/// account is owned by no registered protocol resolves to
/// `InvalidAccountData`. Any other list resolves to what the selected
/// protocol's parse returns for the full list: its account set wrapped in the
/// protocol's variant, or its error unchanged.
pub open spec fn resolves<'info, T, K: DepositProtocol<'info, T>, J: DepositProtocol<'info, T>>(
    accounts: &'info [AccountHandle<T>],
    result: Result<DepositContext<'info, K, J>, ProgramError>,
) -> bool {
    if accounts@.len() == 0 {
        result == Err::<DepositContext<'info, K, J>, ProgramError>(
            ProgramError::NotEnoughAccountKeys,
        )
    } else {
        match selected::<T, K, J>(accounts@[0].owner@) {
            None => result == Err::<DepositContext<'info, K, J>, ProgramError>(
                ProgramError::InvalidAccountData,
            ),
            Some(Protocol::Kamino) => exists|parsed: Result<K::Accounts, ProgramError>|
                #[trigger] call_ensures(K::try_from_accounts, (accounts,), parsed) && result
                    == DepositContext::<'info, K, J>::spec_from_kamino(parsed),
            Some(Protocol::Jupiter) => exists|parsed: Result<J::Accounts, ProgramError>|
                #[trigger] call_ensures(J::try_from_accounts, (accounts,), parsed) && result
                    == DepositContext::<'info, K, J>::spec_from_jupiter(parsed),
        }
    }
}

/// Whether `result` is what resolving `accounts` and then depositing `amount`
/// with seeds that read `signer_seeds` may return: the error of the
/// resolution if it fails, else what the deposit on the resolved context
/// returns.
pub open spec fn deposits<'info, T, K: DepositProtocol<'info, T>, J: DepositProtocol<'info, T>>(
    accounts: &'info [AccountHandle<T>],
    amount: u64,
    signer_seeds: Seq<Signer>,
    result: ProgramResult,
) -> bool {
    exists|resolved: Result<DepositContext<'info, K, J>, ProgramError>|
        #[trigger] resolves::<T, K, J>(accounts, resolved) && match resolved {
            Ok(ctx) => ctx.signed_outcome(amount, signer_seeds, result),
            Err(error) => result == Err::<(), ProgramError>(error),
        }
}

/// A token is attributed to the first registered protocol that carries it:
/// to the first protocol if it is that protocol's token, to the second if it
/// is the second's and not the first's, and to none otherwise.
pub proof fn lemma_selected_by_priority<
    'info,
    T,
    K: DepositProtocol<'info, T>,
    J: DepositProtocol<'info, T>,
>(owner: Seq<u8>)
    ensures
        owner == K::PROGRAM_ID@ ==> selected::<T, K, J>(owner) == Some(Protocol::Kamino),
        owner != K::PROGRAM_ID@ && owner == J::PROGRAM_ID@ ==> selected::<T, K, J>(owner) == Some(
            Protocol::Jupiter,
        ),
        owner != K::PROGRAM_ID@ && owner != J::PROGRAM_ID@ ==> selected::<T, K, J>(owner) is None,
{
    let list = registered::<T, K, J>();
    if owner == K::PROGRAM_ID@ {
        lemma_first_match_selects(list, owner, 0);
    } else if owner == J::PROGRAM_ID@ {
        lemma_first_match_selects(list, owner, 1);
    } else {
        lemma_first_match_none(list, owner);
    }
}

/// Parses accounts and discriminates the protocol based on the first
/// account's owner.
///
/// Returns a typed `DepositContext` that callers can match on to validate the
/// accounts before they deposit.
pub fn try_from_deposit_context<
    'info,
    T,
    K: DepositProtocol<'info, T>,
    J: DepositProtocol<'info, T>,
>(accounts: &'info [AccountHandle<T>]) -> (result: Result<
    DepositContext<'info, K, J>,
    ProgramError,
>)
    ensures
        resolves::<T, K, J>(accounts, result),
        accounts@.len() == 0 ==> result == Err::<DepositContext<'info, K, J>, ProgramError>(
            ProgramError::NotEnoughAccountKeys,
        ),
        accounts@.len() > 0 && accounts@[0].owner@ != K::PROGRAM_ID@ && accounts@[0].owner@
            != J::PROGRAM_ID@ ==> result == Err::<DepositContext<'info, K, J>, ProgramError>(
            ProgramError::InvalidAccountData,
        ),
        result matches Ok(ctx) ==> accounts@.len() > 0 && selected::<T, K, J>(
            accounts@[0].owner@,
        ) == Some(ctx.protocol()),
{
    if accounts.len() == 0 {
        return Err(ProgramError::NotEnoughAccountKeys);
    }
    let detector_account = &accounts[0];
    let list = registry::<T, K, J>();
    proof {
        lemma_selected_by_priority::<T, K, J>(detector_account.owner@);
    }
    match discriminate(list.as_slice(), &detector_account.owner) {
        None => Err(ProgramError::InvalidAccountData),
        Some(Protocol::Kamino) => DepositContext::from_kamino(K::try_from_accounts(accounts)),
        Some(Protocol::Jupiter) => DepositContext::from_jupiter(J::try_from_accounts(accounts)),
    }
}

/// Parses accounts, discriminates the protocol, and executes the deposit with
/// signing.
///
/// Equivalent to `try_from_deposit_context` followed by
/// `DepositContext::deposit_signed`; the error of whichever stage fails is
/// returned as it is.
pub fn deposit_signed<'info, T, K: DepositProtocol<'info, T>, J: DepositProtocol<'info, T>>(
    accounts: &'info [AccountHandle<T>],
    amount: u64,
    signer_seeds: &[Signer],
) -> (result: ProgramResult)
    ensures
        deposits::<T, K, J>(accounts, amount, signer_seeds@, result),
        accounts@.len() == 0 ==> result == Err::<(), ProgramError>(
            ProgramError::NotEnoughAccountKeys,
        ),
        accounts@.len() > 0 && accounts@[0].owner@ != K::PROGRAM_ID@ && accounts@[0].owner@
            != J::PROGRAM_ID@ ==> result == Err::<(), ProgramError>(
            ProgramError::InvalidAccountData,
        ),
{
    let ctx = try_from_deposit_context::<T, K, J>(accounts)?;
    DepositContext::deposit_signed(&ctx, amount, signer_seeds)
}

/// Parses accounts, discriminates the protocol, and executes the deposit
/// without seeds.
pub fn deposit<'info, T, K: DepositProtocol<'info, T>, J: DepositProtocol<'info, T>>(
    accounts: &'info [AccountHandle<T>],
    amount: u64,
) -> (result: ProgramResult)
    ensures
        deposits::<T, K, J>(accounts, amount, Seq::empty(), result),
        accounts@.len() == 0 ==> result == Err::<(), ProgramError>(
            ProgramError::NotEnoughAccountKeys,
        ),
        accounts@.len() > 0 && accounts@[0].owner@ != K::PROGRAM_ID@ && accounts@[0].owner@
            != J::PROGRAM_ID@ ==> result == Err::<(), ProgramError>(
            ProgramError::InvalidAccountData,
        ),
{
    let no_seeds: [Signer; 0] = [];
    assert(no_seeds@ =~= Seq::<Signer>::empty());
    deposit_signed::<T, K, J>(accounts, amount, no_seeds.as_slice())
}

/// Attribution goes by the owner of the first account alone, in priority
/// order. A list owned by the first protocol's token resolves to what the
/// first protocol's parse returns; one owned by the second's token, and not
/// the first's, to what the second's parse returns; the other protocol is
/// never tried. A list owned by neither resolves to `InvalidAccountData`.
pub proof fn lemma_resolution_by_owner<
    'info,
    T,
    K: DepositProtocol<'info, T>,
    J: DepositProtocol<'info, T>,
>(accounts: &'info [AccountHandle<T>], result: Result<DepositContext<'info, K, J>, ProgramError>)
    requires
        accounts@.len() > 0,
        resolves::<T, K, J>(accounts, result),
    ensures
        accounts@[0].owner@ == K::PROGRAM_ID@ ==> result !is Ok || result->Ok_0 is Kamino,
        accounts@[0].owner@ == K::PROGRAM_ID@ ==> exists|parsed: Result<K::Accounts, ProgramError>|
            #[trigger] call_ensures(K::try_from_accounts, (accounts,), parsed) && result
                == DepositContext::<'info, K, J>::spec_from_kamino(parsed),
        accounts@[0].owner@ != K::PROGRAM_ID@ && accounts@[0].owner@ == J::PROGRAM_ID@ ==> result
            !is Ok || result->Ok_0 is Jupiter,
        accounts@[0].owner@ != K::PROGRAM_ID@ && accounts@[0].owner@ == J::PROGRAM_ID@
            ==> exists|parsed: Result<J::Accounts, ProgramError>|
            #[trigger] call_ensures(J::try_from_accounts, (accounts,), parsed) && result
                == DepositContext::<'info, K, J>::spec_from_jupiter(parsed),
        accounts@[0].owner@ != K::PROGRAM_ID@ && accounts@[0].owner@ != J::PROGRAM_ID@ ==> result
            == Err::<DepositContext<'info, K, J>, ProgramError>(ProgramError::InvalidAccountData),
{
    lemma_selected_by_priority::<T, K, J>(accounts@[0].owner@);
}

/// Resolving the same list again attributes it to the same protocol: two
/// contexts resolved from one list hold the same variant, and where the list
/// is empty or owned by no registered protocol the two results are the same
/// error.
pub proof fn lemma_resolution_repeats<
    'info,
    T,
    K: DepositProtocol<'info, T>,
    J: DepositProtocol<'info, T>,
>(
    accounts: &'info [AccountHandle<T>],
    first: Result<DepositContext<'info, K, J>, ProgramError>,
    second: Result<DepositContext<'info, K, J>, ProgramError>,
)
    requires
        resolves::<T, K, J>(accounts, first),
        resolves::<T, K, J>(accounts, second),
    ensures
        first is Ok && second is Ok ==> first->Ok_0.protocol() == second->Ok_0.protocol(),
        accounts@.len() == 0 || selected::<T, K, J>(accounts@[0].owner@) is None ==> first
            == second && first is Err,
{
}

/// Where each protocol rejects a layout with `InvalidAccountData` only, a
/// failed resolution has one of two errors: `NotEnoughAccountKeys` exactly
/// when the list is empty, `InvalidAccountData` otherwise.
pub proof fn lemma_resolution_errors<
    'info,
    T,
    K: DepositProtocol<'info, T>,
    J: DepositProtocol<'info, T>,
>(accounts: &'info [AccountHandle<T>], error: ProgramError)
    requires
        resolves::<T, K, J>(
            accounts,
            Err::<DepositContext<'info, K, J>, ProgramError>(error),
        ),
        forall|parsed: Result<K::Accounts, ProgramError>| #[trigger]
            call_ensures(K::try_from_accounts, (accounts,), parsed) && parsed is Err ==> parsed
                == Err::<K::Accounts, ProgramError>(ProgramError::InvalidAccountData),
        forall|parsed: Result<J::Accounts, ProgramError>| #[trigger]
            call_ensures(J::try_from_accounts, (accounts,), parsed) && parsed is Err ==> parsed
                == Err::<J::Accounts, ProgramError>(ProgramError::InvalidAccountData),
    ensures
        accounts@.len() == 0 <==> error == ProgramError::NotEnoughAccountKeys,
        accounts@.len() > 0 <==> error == ProgramError::InvalidAccountData,
{
}

/// The unsigned deposit is the signed deposit with no seeds: whatever a call
/// of `DepositContext::deposit` returns is something that
/// `DepositContext::deposit_signed` may return for the same context, the same
/// amount and an empty list of seeds.
pub proof fn lemma_unsigned_is_signed_without_seeds<
    'info,
    K: Deposit<'info>,
    J: Deposit<'info>,
>(ctx: &DepositContext<'info, K, J>, amount: u64, result: ProgramResult)
    requires
        call_ensures(DepositContext::<'info, K, J>::deposit, (ctx, amount), result),
    ensures
        ctx.signed_outcome(amount, Seq::empty(), result),
{
}

/// The composite is the two stages in sequence and nothing more: `result` is
/// an outcome of it exactly when the resolution fails with the error in
/// `result`, or the list resolves to a context and `result` is an outcome of
/// the deposit on that context. So it succeeds exactly when both stages
/// succeed, and an error of it is the error of the stage that failed.
pub proof fn lemma_deposit_is_sequencing<
    'info,
    T,
    K: DepositProtocol<'info, T>,
    J: DepositProtocol<'info, T>,
>(accounts: &'info [AccountHandle<T>], amount: u64, signer_seeds: Seq<Signer>, result: ProgramResult)
    ensures
        deposits::<T, K, J>(accounts, amount, signer_seeds, result) <==> (result is Err
            && resolves::<T, K, J>(
            accounts,
            Err::<DepositContext<'info, K, J>, ProgramError>(result->Err_0),
        )) || exists|ctx: DepositContext<'info, K, J>|
            #[trigger] resolves::<T, K, J>(accounts, Ok(ctx)) && ctx.signed_outcome(
                amount,
                signer_seeds,
                result,
            ),
{
    if deposits::<T, K, J>(accounts, amount, signer_seeds, result) {
        let resolved = choose|resolved: Result<DepositContext<'info, K, J>, ProgramError>|
            #[trigger] resolves::<T, K, J>(accounts, resolved) && match resolved {
                Ok(ctx) => ctx.signed_outcome(amount, signer_seeds, result),
                Err(error) => result == Err::<(), ProgramError>(error),
            };
        if resolved is Ok {
            assert(resolves::<T, K, J>(accounts, Ok(resolved->Ok_0)));
        }
    }
}

} // verus!
