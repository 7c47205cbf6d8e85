//! The boundary between the actor and whoever drives it: the effects that
//! the actor asks for, one at a time, and the outcomes that it is told.
//!
//! The actor never touches the node itself. It answers every input with at
//! most one effect; the driver performs the effect and reports its outcome.

use vstd::prelude::*;
use vstd::string::*;
use crate::error::{Error, ErrorView, RpcFailure, RpcFailureView};
use crate::message::{AuthMethod, AuthMethodView};

verus! {

/// Name of the wallet that every connection loads or creates.
pub const WALLET_NAME: &'static str = "regtest";

/// The fee that a connection sets on the wallet, in satoshis per kilobyte.
pub const TX_FEE_SAT: u64 = 10_000;

/// One thing for the driver to do.
///
/// The calls of a bootstrap (`LoadWallet`, `CreateWallet`, `SetTxFee`) go to
/// the pair of clients that the last `OpenClients` made; every other call
/// goes to the installed pair.
#[derive(Debug, PartialEq, Eq)]
pub enum Effect {
    /// Make a client for the node at `address` and one for its wallet at
    /// `wallet_address`, both with `auth`.
    OpenClients { address: String, wallet_address: String, auth: AuthMethod },
    /// Load the wallet `WALLET_NAME` on the node.
    LoadWallet,
    /// Create the wallet `WALLET_NAME` on the node.
    CreateWallet,
    /// Set the wallet's transaction fee to `TX_FEE_SAT`.
    SetTxFee,
    /// Install the pair of clients that was opened last.
    InstallClients,
    /// Drop the installed clients.
    CloseClients,
    /// Hand the node client that was opened last to a new background miner
    /// with this cadence in milliseconds, and keep its cancellation channel.
    SpawnMiner { delay_ms: u64 },
    /// Post a stop signal on the cancellation channel.
    SignalStop,
    /// Mine `blocks` blocks to `address`.
    GenerateToAddress { blocks: u64, address: String },
    /// Ask the wallet for a new address.
    GetNewAddress,
    /// Ask the node for the height of the chain tip.
    GetBlockchainInfo,
    /// Ask the wallet for its balance.
    GetBalance,
    /// Pay `amount` satoshis to `address` from the wallet.
    SendToAddress { address: String, amount: u64 },
}

/// Mathematical model of an [`Effect`].
pub enum EffectView {
    OpenClients { address: Seq<char>, wallet_address: Seq<char>, auth: AuthMethodView },
    LoadWallet,
    CreateWallet,
    SetTxFee,
    InstallClients,
    CloseClients,
    SpawnMiner { delay_ms: u64 },
    SignalStop,
    GenerateToAddress { blocks: u64, address: Seq<char> },
    GetNewAddress,
    GetBlockchainInfo,
    GetBalance,
    SendToAddress { address: Seq<char>, amount: u64 },
}

impl View for Effect {
    type V = EffectView;

    open spec fn view(&self) -> EffectView {
        match *self {
            Effect::OpenClients { address, wallet_address, auth } => EffectView::OpenClients {
                address: address@,
                wallet_address: wallet_address@,
                auth: auth@,
            },
            Effect::LoadWallet => EffectView::LoadWallet,
            Effect::CreateWallet => EffectView::CreateWallet,
            Effect::SetTxFee => EffectView::SetTxFee,
            Effect::InstallClients => EffectView::InstallClients,
            Effect::CloseClients => EffectView::CloseClients,
            Effect::SpawnMiner { delay_ms } => EffectView::SpawnMiner { delay_ms },
            Effect::SignalStop => EffectView::SignalStop,
            Effect::GenerateToAddress { blocks, address } => EffectView::GenerateToAddress {
                blocks,
                address: address@,
            },
            Effect::GetNewAddress => EffectView::GetNewAddress,
            Effect::GetBlockchainInfo => EffectView::GetBlockchainInfo,
            Effect::GetBalance => EffectView::GetBalance,
            Effect::SendToAddress { address, amount } => EffectView::SendToAddress {
                address: address@,
                amount,
            },
        }
    }
}

/// What came of an effect.
#[derive(Debug, PartialEq, Eq)]
pub enum Outcome {
    /// It was done, and there is nothing to tell.
    Done,
    /// It was done and gave an address.
    Address(String),
    /// It was done and gave the height of the chain tip.
    Height(u64),
    /// It was done and gave a balance in satoshis.
    Balance(u64),
    /// It failed.
    Failed(RpcFailure),
}

/// Mathematical model of an [`Outcome`].
pub enum OutcomeView {
    Done,
    Address(Seq<char>),
    Height(u64),
    Balance(u64),
    Failed(RpcFailureView),
}

impl View for Outcome {
    type V = OutcomeView;

    open spec fn view(&self) -> OutcomeView {
        match *self {
            Outcome::Done => OutcomeView::Done,
            Outcome::Address(address) => OutcomeView::Address(address@),
            Outcome::Height(height) => OutcomeView::Height(height),
            Outcome::Balance(balance) => OutcomeView::Balance(balance),
            Outcome::Failed(failure) => OutcomeView::Failed(failure@),
        }
    }
}

/// The failure that stands for an outcome of the wrong kind, such as a
/// balance where an address was asked for.
pub open spec fn unexpected_outcome() -> RpcFailureView {
    RpcFailureView { code: None, message: "unexpected outcome"@ }
}

impl OutcomeView {
    /// The failure of an effect that has nothing to tell: any outcome but
    /// `Failed` is a success.
    pub open spec fn failure(self) -> Option<RpcFailureView> {
        match self {
            OutcomeView::Failed(failure) => Some(failure),
            _ => None,
        }
    }

    /// The outcome read as the result of asking for an address.
    pub open spec fn address(self) -> Result<Seq<char>, ErrorView> {
        match self {
            OutcomeView::Address(address) => Ok(address),
            OutcomeView::Failed(failure) => Err(ErrorView::Rpc(failure)),
            _ => Err(ErrorView::Rpc(unexpected_outcome())),
        }
    }

    /// The outcome read as the result of asking for the chain height.
    pub open spec fn height(self) -> Result<u64, ErrorView> {
        match self {
            OutcomeView::Height(height) => Ok(height),
            OutcomeView::Failed(failure) => Err(ErrorView::Rpc(failure)),
            _ => Err(ErrorView::Rpc(unexpected_outcome())),
        }
    }

    /// The outcome read as the result of asking for the balance.
    pub open spec fn balance(self) -> Result<u64, ErrorView> {
        match self {
            OutcomeView::Balance(balance) => Ok(balance),
            OutcomeView::Failed(failure) => Err(ErrorView::Rpc(failure)),
            _ => Err(ErrorView::Rpc(unexpected_outcome())),
        }
    }
}

/// Model of a result whose failure is an [`Error`].
pub open spec fn result_view<T>(result: Result<T, Error>) -> Result<T, ErrorView> {
    match result {
        Ok(value) => Ok(value),
        Err(e) => Err(e@),
    }
}

fn unexpected() -> (e: Error)
    ensures
        e@ == ErrorView::Rpc(unexpected_outcome()),
{
    Error::Rpc(RpcFailure { code: None, message: String::from_str("unexpected outcome") })
}

impl Outcome {
    /// Reads the outcome of an effect that has nothing to tell.
    pub fn failure(self) -> (failure: Option<RpcFailure>)
        ensures
            failure.is_some() == self@.failure().is_some(),
            failure matches Some(f) ==> self@.failure() == Some(f@),
    {
        match self {
            Outcome::Failed(failure) => Some(failure),
            _ => None,
        }
    }

    /// Reads the outcome of asking for an address.
    pub fn address(self) -> (result: Result<String, Error>)
        ensures
            crate::descriptor::text_result(result) == self@.address(),
    {
        match self {
            Outcome::Address(address) => Ok(address),
            Outcome::Failed(failure) => Err(Error::Rpc(failure)),
            _ => Err(unexpected()),
        }
    }

    /// Reads the outcome of asking for the chain height.
    pub fn height(self) -> (result: Result<u64, Error>)
        ensures
            result_view(result) == self@.height(),
    {
        match self {
            Outcome::Height(height) => Ok(height),
            Outcome::Failed(failure) => Err(Error::Rpc(failure)),
            _ => Err(unexpected()),
        }
    }

    /// Reads the outcome of asking for the balance.
    pub fn balance(self) -> (result: Result<u64, Error>)
        ensures
            result_view(result) == self@.balance(),
    {
        match self {
            Outcome::Balance(balance) => Ok(balance),
            Outcome::Failed(failure) => Err(Error::Rpc(failure)),
            _ => Err(unexpected()),
        }
    }
}

} // verus!
