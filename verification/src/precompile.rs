//! The action dispatcher.
//!
//! A call runs in two steps. [`MultiCurrencyPrecompile::execute`] reads the
//! call, prices it and holds the price against the gas ceiling. It ends the
//! call there, or names the one request that has to be put to the ledger or
//! to the asset metadata. [`Pending::complete`] takes the reply and gives the
//! outcome. Between the two steps stands whoever owns the ledger: this crate
//! never touches it.

use vstd::prelude::*;
use vstd::slice::slice_to_vec;
use crate::action::Action;
use crate::currency::{CurrencyId, EvmAddress};
use crate::error::DecodeError;
use crate::input::{decode_account, decode_action, decode_amount, Input};
use crate::output::{encoded_bytes, Output};
use crate::pricer::Pricer;
use crate::runtime::Runtime;
use crate::word::{be_bytes, has_word};

verus! {

/// Why a call was aborted.
#[derive(Clone, Copy, Debug, PartialEq, Eq, Structural)]
pub enum FatalKind {
    /// The gas ceiling is below the cost of the call.
    OutOfGas,
}

/// How a call ended.
#[derive(Clone, Debug, PartialEq, Eq)]
pub enum ExecutionOutcome {
    /// The call was carried out.
    Success { output: Vec<u8>, cost: u64 },
    /// The call failed on the caller's account. The ledger is as it was.
    Revert { message: Vec<u8>, cost: u64 },
    /// The call was aborted before anything was done.
    FatalError { kind: FatalKind },
}

/// An [`ExecutionOutcome`] over sequences.
pub enum ExecutionOutcomeView {
    Success { output: Seq<u8>, cost: u64 },
    Revert { message: Seq<u8>, cost: u64 },
    FatalError { kind: FatalKind },
}

impl View for ExecutionOutcome {
    type V = ExecutionOutcomeView;

    open spec fn view(&self) -> ExecutionOutcomeView {
        match *self {
            ExecutionOutcome::Success { output, cost } => ExecutionOutcomeView::Success {
                output: output@,
                cost,
            },
            ExecutionOutcome::Revert { message, cost } => ExecutionOutcomeView::Revert {
                message: message@,
                cost,
            },
            ExecutionOutcome::FatalError { kind } => ExecutionOutcomeView::FatalError { kind },
        }
    }
}

/// What a call needs from outside the bridge. The first three go to the
/// asset metadata, the others to the ledger; only `Transfer` changes it.
#[derive(Clone, Copy, Debug, PartialEq, Eq)]
pub enum Request {
    /// The display name of an asset.
    Name(CurrencyId),
    /// The symbol of an asset.
    Symbol(CurrencyId),
    /// The decimal precision of an asset.
    Decimals(CurrencyId),
    /// The total issuance of an asset.
    TotalIssuance(CurrencyId),
    /// The balance that the native-currency accessor keeps for an account.
    NativeBalance(EvmAddress),
    /// The balance of an account in an asset that is not the native one.
    Balance(CurrencyId, EvmAddress),
    /// A transfer of `amount` of an asset from one account to another.
    Transfer { currency_id: CurrencyId, from: EvmAddress, to: EvmAddress, amount: u128 },
}

/// What came back for a [`Request`].
#[derive(Debug, PartialEq, Eq)]
pub enum Reply {
    /// The name, if the asset has one.
    Name(Option<Vec<u8>>),
    /// The symbol, if the asset has one.
    Symbol(Option<Vec<u8>>),
    /// The decimal precision, if the asset has one.
    Decimals(Option<u8>),
    /// The total issuance; zero for an asset that was never issued.
    TotalIssuance(u128),
    /// The balance of the account.
    Balance(u128),
    /// Nothing where the transfer was made, else the ledger's description
    /// of its error.
    Transfer(Result<(), String>),
}

/// A [`Reply`] over sequences.
pub enum ReplyView {
    Name(Option<Seq<u8>>),
    Symbol(Option<Seq<u8>>),
    Decimals(Option<u8>),
    TotalIssuance(u128),
    Balance(u128),
    Transfer(Result<(), Seq<char>>),
}

impl View for Reply {
    type V = ReplyView;

    open spec fn view(&self) -> ReplyView {
        match *self {
            Reply::Name(Some(name)) => ReplyView::Name(Some(name@)),
            Reply::Name(None) => ReplyView::Name(None),
            Reply::Symbol(Some(symbol)) => ReplyView::Symbol(Some(symbol@)),
            Reply::Symbol(None) => ReplyView::Symbol(None),
            Reply::Decimals(decimals) => ReplyView::Decimals(decimals),
            Reply::TotalIssuance(amount) => ReplyView::TotalIssuance(amount),
            Reply::Balance(amount) => ReplyView::Balance(amount),
            Reply::Transfer(Ok(_)) => ReplyView::Transfer(Ok(())),
            Reply::Transfer(Err(description)) => ReplyView::Transfer(Err(description@)),
        }
    }
}

impl ReplyView {
    /// Whether this is a reply of the kind that `request` asks for.
    pub open spec fn answers(self, request: Request) -> bool {
        match request {
            Request::Name(_) => self is Name,
            Request::Symbol(_) => self is Symbol,
            Request::Decimals(_) => self is Decimals,
            Request::TotalIssuance(_) => self is TotalIssuance,
            Request::NativeBalance(_) | Request::Balance(_, _) => self is Balance,
            Request::Transfer { .. } => self is Transfer,
        }
    }
}

impl Reply {
    /// Whether this is a reply of the kind that `request` asks for.
    pub fn answers(&self, request: &Request) -> (fits: bool)
        ensures
            fits == self@.answers(*request),
    {
        match request {
            Request::Name(_) => matches!(self, Reply::Name(_)),
            Request::Symbol(_) => matches!(self, Reply::Symbol(_)),
            Request::Decimals(_) => matches!(self, Reply::Decimals(_)),
            Request::TotalIssuance(_) => matches!(self, Reply::TotalIssuance(_)),
            Request::NativeBalance(_) | Request::Balance(_, _) => matches!(self, Reply::Balance(_)),
            Request::Transfer { .. } => matches!(self, Reply::Transfer(_)),
        }
    }
}

/// A call that passed the gas check and waits for the reply to its request.
#[derive(Clone, Copy, Debug, PartialEq, Eq)]
pub struct Pending {
    /// What has to be asked.
    pub request: Request,
    /// The cost of the call, charged however it ends.
    pub cost: u64,
}

/// Where a call stands after [`MultiCurrencyPrecompile::execute`].
#[derive(Clone, Debug, PartialEq, Eq)]
pub enum Step {
    /// The call ended; nothing is to be asked.
    Done(ExecutionOutcome),
    /// The call goes on with the reply to a request.
    Call(Pending),
}

/// A [`Step`] over sequences.
pub enum StepView {
    Done(ExecutionOutcomeView),
    Call(Pending),
}

impl View for Step {
    type V = StepView;

    open spec fn view(&self) -> StepView {
        match *self {
            Step::Done(outcome) => StepView::Done(outcome@),
            Step::Call(pending) => StepView::Call(pending),
        }
    }
}

/// The revert that carries `text` as its message.
pub open spec fn revert_with(text: Seq<char>, cost: u64) -> ExecutionOutcomeView {
    ExecutionOutcomeView::Revert { message: vstd::utf8::encode_utf8(text), cost }
}

/// The revert of a call through an address that stands for no asset. It
/// takes the whole gas ceiling, where there is one.
pub open spec fn invalid_currency_revert(target_gas: Option<u64>) -> ExecutionOutcomeView {
    revert_with(
        "invalid currency id"@,
        match target_gas {
            Some(limit) => limit,
            None => 0,
        },
    )
}

/// The revert with the UTF-8 bytes of `text` as its message.
fn revert(text: &str, cost: u64) -> (outcome: ExecutionOutcome)
    ensures
        outcome@ == revert_with(text@, cost),
{
    ExecutionOutcome::Revert { message: slice_to_vec(text.as_bytes()), cost }
}

impl Pending {
    /// The outcome of this call for a reply.
    pub open spec fn spec_complete(self, reply: ReplyView) -> ExecutionOutcomeView {
        match reply {
            ReplyView::Name(Some(name)) => ExecutionOutcomeView::Success {
                output: encoded_bytes(name),
                cost: self.cost,
            },
            ReplyView::Name(None) => revert_with("Get name failed"@, self.cost),
            ReplyView::Symbol(Some(symbol)) => ExecutionOutcomeView::Success {
                output: encoded_bytes(symbol),
                cost: self.cost,
            },
            ReplyView::Symbol(None) => revert_with("Get symbol failed"@, self.cost),
            ReplyView::Decimals(Some(decimals)) => ExecutionOutcomeView::Success {
                output: be_bytes(decimals as nat, 32),
                cost: self.cost,
            },
            ReplyView::Decimals(None) => revert_with("Get decimals failed"@, self.cost),
            ReplyView::TotalIssuance(amount) => ExecutionOutcomeView::Success {
                output: be_bytes(amount as nat, 32),
                cost: self.cost,
            },
            ReplyView::Balance(amount) => ExecutionOutcomeView::Success {
                output: be_bytes(amount as nat, 32),
                cost: self.cost,
            },
            ReplyView::Transfer(Ok(_)) => ExecutionOutcomeView::Success {
                output: Seq::empty(),
                cost: self.cost,
            },
            ReplyView::Transfer(Err(description)) => revert_with(description, self.cost),
        }
    }

    /// Ends the call with the reply to its request.
    ///
    /// A name or a symbol is returned as an encoded byte string, the decimals,
    /// an issuance or a balance as one word, a transfer that was made as the
    /// empty output. A name, symbol or precision that the asset lacks, and a
    /// transfer that the ledger refused, revert the call; the message of the
    /// latter is the ledger's description of its error. The cost of the call
    /// is charged in every case.
    pub fn complete(&self, reply: Reply) -> (outcome: ExecutionOutcome)
        requires
            reply@.answers(self.request),
        ensures
            outcome@ == self.spec_complete(reply@),
    {
        let cost = self.cost;
        match reply {
            Reply::Name(Some(name)) => ExecutionOutcome::Success {
                output: Output::default().encode_bytes(name.as_slice()),
                cost,
            },
            Reply::Name(None) => revert("Get name failed", cost),
            Reply::Symbol(Some(symbol)) => ExecutionOutcome::Success {
                output: Output::default().encode_bytes(symbol.as_slice()),
                cost,
            },
            Reply::Symbol(None) => revert("Get symbol failed", cost),
            Reply::Decimals(Some(decimals)) => ExecutionOutcome::Success {
                output: Output::default().encode_u8(decimals),
                cost,
            },
            Reply::Decimals(None) => revert("Get decimals failed", cost),
            Reply::TotalIssuance(amount) => ExecutionOutcome::Success {
                output: Output::default().encode_u128(amount),
                cost,
            },
            Reply::Balance(amount) => ExecutionOutcome::Success {
                output: Output::default().encode_u128(amount),
                cost,
            },
            Reply::Transfer(Ok(_)) => ExecutionOutcome::Success { output: Vec::new(), cost },
            Reply::Transfer(Err(description)) => revert(description.as_str(), cost),
        }
    }
}

/// The bridge of a chain.
#[derive(Clone, Copy, Debug)]
pub struct MultiCurrencyPrecompile {
    pub runtime: Runtime,
}

impl MultiCurrencyPrecompile {
    /// The pricer of the chain.
    pub open spec fn spec_pricer(self) -> Pricer {
        Pricer { runtime: self.runtime }
    }

    /// What a call of `action` on the asset `currency_id` asks for, with the
    /// arguments read from the buffer.
    pub open spec fn spec_request(
        self,
        content: Seq<u8>,
        action: Action,
        currency_id: CurrencyId,
    ) -> Result<Request, DecodeError> {
        match action {
            Action::QueryName => Ok(Request::Name(currency_id)),
            Action::QuerySymbol => Ok(Request::Symbol(currency_id)),
            Action::QueryDecimals => Ok(Request::Decimals(currency_id)),
            Action::QueryTotalIssuance => Ok(Request::TotalIssuance(currency_id)),
            Action::QueryBalance => match decode_account(content, 1) {
                Ok(who) => Ok(
                    if currency_id == self.runtime.native_currency_id {
                        Request::NativeBalance(who)
                    } else {
                        Request::Balance(currency_id, who)
                    },
                ),
                Err(e) => Err(e),
            },
            Action::Transfer => match decode_account(content, 1) {
                Ok(from) => match decode_account(content, 2) {
                    Ok(to) => match decode_amount(content, 3) {
                        Ok(amount) => Ok(Request::Transfer { currency_id, from, to, amount }),
                        Err(e) => Err(e),
                    },
                    Err(e) => Err(e),
                },
                Err(e) => Err(e),
            },
        }
    }

    /// Where a call stands once it was read, priced and held against its gas
    /// ceiling.
    pub open spec fn spec_execute(
        self,
        content: Seq<u8>,
        target_gas: Option<u64>,
        currency_id: Option<CurrencyId>,
    ) -> Result<StepView, DecodeError> {
        match currency_id {
            None => Ok(StepView::Done(invalid_currency_revert(target_gas))),
            Some(currency_id) => match decode_action(content) {
                Err(e) => Err(e),
                Ok(action) => {
                    let cost = self.spec_pricer().spec_action_cost(action, currency_id);
                    if target_gas matches Some(limit) && limit < cost {
                        Ok(
                            StepView::Done(
                                ExecutionOutcomeView::FatalError { kind: FatalKind::OutOfGas },
                            ),
                        )
                    } else {
                        match self.spec_request(content, action, currency_id) {
                            Ok(request) => Ok(StepView::Call(Pending { request, cost })),
                            Err(e) => Err(e),
                        }
                    }
                },
            },
        }
    }

    /// The asset that a call is about: the one that the calling address
    /// stands for. A call through an address that stands for none reverts.
    pub fn resolve(currency_id: Option<CurrencyId>, target_gas: Option<u64>) -> (resolved: Result<
        CurrencyId,
        ExecutionOutcome,
    >)
        ensures
            match resolved {
                Ok(found) => currency_id == Some(found),
                Err(outcome) => currency_id is None && outcome@ == invalid_currency_revert(
                    target_gas,
                ),
            },
    {
        match currency_id {
            Some(found) => Ok(found),
            None => {
                let cost = match target_gas {
                    Some(limit) => limit,
                    None => 0,
                };
                Err(revert("invalid currency id", cost))
            },
        }
    }

    /// Reads the call in `input`, made with the gas ceiling `target_gas`
    /// through an address that stands for the asset `currency_id`, if for any.
    ///
    /// In this order: a call through an address that stands for no asset
    /// reverts; a selector that cannot be read or stands for no action is a
    /// decode error; a gas ceiling below the cost of the action aborts the
    /// call with `OutOfGas`; an argument that cannot be read is a decode
    /// error. What is left is a call that can be afforded: the step names its
    /// request and its cost.
    pub fn execute(
        &self,
        input: &[u8],
        target_gas: Option<u64>,
        currency_id: Option<CurrencyId>,
    ) -> (step: Result<Step, DecodeError>)
        ensures
            match step {
                Ok(step) => self.spec_execute(input@, target_gas, currency_id) == Ok::<
                    StepView,
                    DecodeError,
                >(step@),
                Err(e) => self.spec_execute(input@, target_gas, currency_id) == Err::<
                    StepView,
                    DecodeError,
                >(e),
            },
    {
        let input = Input::new(input, target_gas);
        let currency_id = match Self::resolve(currency_id, target_gas) {
            Ok(found) => found,
            Err(outcome) => { return Ok(Step::Done(outcome)); },
        };
        let pricer = Pricer { runtime: self.runtime };
        let gas_cost = match pricer.cost(&input, currency_id) {
            Ok(cost) => cost,
            Err(e) => { return Err(e); },
        };
        if let Some(gas_limit) = target_gas {
            if gas_limit < gas_cost {
                return Ok(
                    Step::Done(ExecutionOutcome::FatalError { kind: FatalKind::OutOfGas }),
                );
            }
        }
        let action = match input.action() {
            Ok(action) => action,
            Err(e) => { return Err(e); },
        };
        let request = match action {
            Action::QueryName => Request::Name(currency_id),
            Action::QuerySymbol => Request::Symbol(currency_id),
            Action::QueryDecimals => Request::Decimals(currency_id),
            Action::QueryTotalIssuance => Request::TotalIssuance(currency_id),
            Action::QueryBalance => {
                let who = match input.account_id_at(1) {
                    Ok(who) => who,
                    Err(e) => { return Err(e); },
                };
                if currency_id == self.runtime.native_currency_id {
                    Request::NativeBalance(who)
                } else {
                    Request::Balance(currency_id, who)
                }
            },
            Action::Transfer => {
                let from = match input.account_id_at(1) {
                    Ok(from) => from,
                    Err(e) => { return Err(e); },
                };
                let to = match input.account_id_at(2) {
                    Ok(to) => to,
                    Err(e) => { return Err(e); },
                };
                let amount = match input.balance_at(3) {
                    Ok(amount) => amount,
                    Err(e) => { return Err(e); },
                };
                Request::Transfer { currency_id, from, to, amount }
            },
        };
        Ok(Step::Call(Pending { request, cost: gas_cost }))
    }
}

/// A call whose gas ceiling is below the cost of its action is aborted with
/// `OutOfGas`, whatever its arguments are: nothing is asked of the ledger.
pub proof fn lemma_out_of_gas(
    precompile: MultiCurrencyPrecompile,
    content: Seq<u8>,
    action: Action,
    limit: u64,
    currency_id: CurrencyId,
)
    requires
        decode_action(content) == Ok::<Action, DecodeError>(action),
        limit < precompile.spec_pricer().spec_action_cost(action, currency_id),
    ensures
        precompile.spec_execute(content, Some(limit), Some(currency_id)) == Ok::<
            StepView,
            DecodeError,
        >(StepView::Done(ExecutionOutcomeView::FatalError { kind: FatalKind::OutOfGas })),
{
}

/// A request is made only for a call that can be afforded: its asset is
/// known, its action was read, its cost is the cost of that action on that
/// asset and is within the gas ceiling. A transfer is asked for by the
/// transfer action alone.
pub proof fn lemma_request_is_affordable(
    precompile: MultiCurrencyPrecompile,
    content: Seq<u8>,
    target_gas: Option<u64>,
    currency_id: Option<CurrencyId>,
)
    ensures
        precompile.spec_execute(content, target_gas, currency_id) matches Ok(StepView::Call(pending))
            ==> {
            &&& currency_id matches Some(asset)
            &&& decode_action(content) matches Ok(action)
            &&& pending.cost == precompile.spec_pricer().spec_action_cost(action, asset)
            &&& (target_gas matches Some(limit) ==> pending.cost <= limit)
            &&& (pending.request is Transfer <==> action == Action::Transfer)
            &&& (pending.request matches Request::Transfer { currency_id: moved, .. } ==> moved
                == asset)
        },
{
}

/// A call ends before its request in two ways only: through an address that
/// stands for no asset it reverts, and under a gas ceiling below its cost it
/// is aborted with `OutOfGas`. No call succeeds without a reply.
pub proof fn lemma_early_end(
    precompile: MultiCurrencyPrecompile,
    content: Seq<u8>,
    target_gas: Option<u64>,
    currency_id: Option<CurrencyId>,
)
    ensures
        precompile.spec_execute(content, target_gas, currency_id) matches Ok(StepView::Done(outcome))
            ==> {
            ||| currency_id is None && outcome == invalid_currency_revert(target_gas)
            ||| {
                &&& currency_id matches Some(asset)
                &&& decode_action(content) matches Ok(action)
                &&& target_gas matches Some(limit)
                &&& limit < precompile.spec_pricer().spec_action_cost(action, asset)
                &&& outcome == ExecutionOutcomeView::FatalError { kind: FatalKind::OutOfGas }
            }
        },
{
}

/// A call through an address that stands for no asset reverts with the
/// message `invalid currency id`, whatever the buffer holds: no action is
/// read and no cost computed.
pub proof fn lemma_unknown_asset_reverts(
    precompile: MultiCurrencyPrecompile,
    content: Seq<u8>,
    target_gas: Option<u64>,
)
    ensures
        precompile.spec_execute(content, target_gas, None) == Ok::<StepView, DecodeError>(
            StepView::Done(invalid_currency_revert(target_gas)),
        ),
{
}

/// A transfer that the gas ceiling allows and whose three arguments can be
/// read asks the ledger for that transfer of that asset, and for nothing else.
pub proof fn lemma_transfer_is_requested_as_read(
    precompile: MultiCurrencyPrecompile,
    content: Seq<u8>,
    target_gas: Option<u64>,
    currency_id: CurrencyId,
    from: EvmAddress,
    to: EvmAddress,
    amount: u128,
)
    requires
        decode_action(content) == Ok::<Action, DecodeError>(Action::Transfer),
        target_gas matches Some(limit) ==> limit >= precompile.spec_pricer().spec_action_cost(
            Action::Transfer,
            currency_id,
        ),
        decode_account(content, 1) == Ok::<EvmAddress, DecodeError>(from),
        decode_account(content, 2) == Ok::<EvmAddress, DecodeError>(to),
        decode_amount(content, 3) == Ok::<u128, DecodeError>(amount),
    ensures
        precompile.spec_execute(content, target_gas, Some(currency_id)) == Ok::<
            StepView,
            DecodeError,
        >(
            StepView::Call(
                Pending {
                    request: Request::Transfer { currency_id, from, to, amount },
                    cost: precompile.spec_pricer().spec_action_cost(Action::Transfer, currency_id),
                },
            ),
        ),
{
}

/// A balance is asked of the native-currency accessor for the native asset
/// and of the ledger for every other asset.
pub proof fn lemma_balance_accessor(
    precompile: MultiCurrencyPrecompile,
    content: Seq<u8>,
    target_gas: Option<u64>,
    currency_id: CurrencyId,
)
    ensures
        precompile.spec_execute(content, target_gas, Some(currency_id)) matches Ok(
            StepView::Call(pending),
        ) ==> {
            &&& pending.request is NativeBalance ==> currency_id
                == precompile.runtime.native_currency_id
            &&& pending.request matches Request::Balance(asset, _) ==> asset == currency_id
                && currency_id != precompile.runtime.native_currency_id
            &&& decode_action(content) == Ok::<Action, DecodeError>(Action::QueryBalance)
                ==> pending.request is NativeBalance || pending.request is Balance
        },
{
}

/// A transfer that the gas ceiling allows, and whose destination word is
/// missing or holds no address, fails to decode: nothing is asked of the
/// ledger. Where the word is there, the error is `InvalidAccount`.
pub proof fn lemma_transfer_to_invalid_address(
    precompile: MultiCurrencyPrecompile,
    content: Seq<u8>,
    target_gas: Option<u64>,
    currency_id: CurrencyId,
)
    requires
        decode_action(content) == Ok::<Action, DecodeError>(Action::Transfer),
        target_gas matches Some(limit) ==> limit >= precompile.spec_pricer().spec_action_cost(
            Action::Transfer,
            currency_id,
        ),
        decode_account(content, 2) is Err,
    ensures
        precompile.spec_execute(content, target_gas, Some(currency_id)) matches Err(e) && (e
            == DecodeError::TruncatedInput || e == DecodeError::InvalidAccount),
        has_word(content, 2) ==> precompile.spec_execute(content, target_gas, Some(currency_id))
            == Err::<StepView, DecodeError>(DecodeError::InvalidAccount),
{
}

/// However a call ends once its request was answered, it is charged the cost
/// that the gas check passed, and it is never aborted.
pub proof fn lemma_cost_is_charged(pending: Pending, reply: ReplyView)
    ensures
        match pending.spec_complete(reply) {
            ExecutionOutcomeView::Success { cost, .. } => cost == pending.cost,
            ExecutionOutcomeView::Revert { cost, .. } => cost == pending.cost,
            ExecutionOutcomeView::FatalError { .. } => false,
        },
{
}

} // verus!
