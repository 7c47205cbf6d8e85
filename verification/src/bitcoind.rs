//! The actor: the connection state, the mining gate, the send-pacing
//! configuration and the work in flight, with the handlers that serve the
//! mailbox.
//!
//! Every handler is a transition of the state machine in [`crate::model`].
//! It changes the actor, appends events to the outbox and hands back the
//! effect to perform next, if there is one.

use vstd::prelude::*;
use vstd::string::*;
use miniscript::bitcoin::secp256k1::Secp256k1;
use miniscript::bitcoin::{Address, Network, PrivateKey};
use crate::address::address_on_regtest;
use crate::descriptor::check_descriptor;
use crate::effect::{result_view, Effect, EffectView, Outcome, WALLET_NAME};
use crate::error::{Error, ErrorView};
use crate::message::{
    messages_view, AuthMethod, BitcoinMessage, GenerateToAddress, GenerateToDescriptor,
    SendEveryBlock, SendToAddress, SendToDescriptor,
};
use crate::model::{amount_fits, ActorView, Attempt, DrawsView, Purpose, Stage, Step};
use crate::pacing::{draw_amount, possible_tx_count};

verus! {

/// What chance contributes to one transition.
#[derive(Debug, PartialEq, Eq)]
pub struct Draws {
    /// A throwaway address.
    pub address: String,
    /// The number of paced payments for a mined block.
    pub count: u32,
    /// The amount of the next payment of a batch.
    pub amount: u64,
}

impl View for Draws {
    type V = DrawsView;

    open spec fn view(&self) -> DrawsView {
        DrawsView { address: self.address@, count: self.count, amount: self.amount }
    }
}

/// The actor.
pub struct BitcoinD {
    address: Option<String>,
    auth: Option<AuthMethod>,
    connected: bool,
    mining_busy: bool,
    auto_block: bool,
    send_every_block: Option<SendEveryBlock>,
    stage: Stage,
    descriptor: String,
    height: Outcome,
    outbox: Vec<BitcoinMessage>,
}

impl View for BitcoinD {
    type V = ActorView;

    closed spec fn view(&self) -> ActorView {
        ActorView {
            address: match self.address {
                Some(address) => Some(address@),
                None => None,
            },
            auth: match self.auth {
                Some(auth) => Some(auth@),
                None => None,
            },
            connected: self.connected,
            mining_busy: self.mining_busy,
            auto_block: self.auto_block,
            send_every_block: match self.send_every_block {
                Some(config) => Some(config@),
                None => None,
            },
            stage: self.stage,
            descriptor: self.descriptor@,
            height: self.height@,
            outbox: messages_view(self.outbox@),
        }
    }
}

/// The transition that led to `actor` and handed back `effect`.
pub open spec fn step_of(actor: ActorView, effect: Option<Effect>) -> Step {
    Step {
        next: actor,
        effect: match effect {
            Some(e) => Some(e@),
            None => None,
        },
    }
}

/// Model of an effect that may be missing.
pub open spec fn effect_view(effect: Option<Effect>) -> Option<EffectView> {
    match effect {
        Some(e) => Some(e@),
        None => None,
    }
}

/// The attempt that left `actor` and came to `result`.
pub open spec fn attempt_of(actor: ActorView, result: Result<Option<Effect>, Error>) -> Attempt {
    Attempt {
        next: actor,
        result: match result {
            Ok(effect) => Ok(effect_view(effect)),
            Err(e) => Err(e@),
        },
    }
}

/// Model of the result of planning an effect.
pub open spec fn effect_result(result: Result<Effect, Error>) -> Result<EffectView, ErrorView> {
    match result {
        Ok(effect) => Ok(effect@),
        Err(e) => Err(e@),
    }
}

impl BitcoinD {
    /// A new actor: no credentials, no connection, nothing in flight.
    pub fn new() -> (actor: BitcoinD)
        ensures
            actor@ == ActorView::initial(),
    {
        let actor = BitcoinD {
            address: None,
            auth: None,
            connected: false,
            mining_busy: false,
            auto_block: false,
            send_every_block: None,
            stage: Stage::Idle,
            descriptor: String::new(),
            height: Outcome::Done,
            outbox: Vec::new(),
        };
        assert(actor@.outbox =~= Seq::empty());
        actor
    }

    /// Whether the clients are installed.
    pub fn is_connected(&self) -> (connected: bool)
        ensures
            connected == self@.connected,
    {
        self.connected
    }

    /// Whether the mining gate is closed.
    pub fn is_mining_busy(&self) -> (busy: bool)
        ensures
            busy == self@.mining_busy,
    {
        self.mining_busy
    }

    /// Whether a background miner is registered.
    pub fn has_auto_block(&self) -> (registered: bool)
        ensures
            registered == self@.auto_block,
    {
        self.auto_block
    }

    /// What is in flight.
    pub fn stage(&self) -> (stage: Stage)
        ensures
            stage == self@.stage,
    {
        self.stage
    }

    /// The cursor of the send-pacing configuration, while pacing is enabled.
    pub fn pacing_cursor(&self) -> (cursor: Option<u32>)
        ensures
            cursor == match self@.send_every_block {
                Some(config) => Some(config.cursor()),
                None => None,
            },
    {
        match &self.send_every_block {
            Some(config) => Some(config.cursor()),
            None => None,
        }
    }

    /// Queues an event for the controller.
    pub fn send_to_gui(&mut self, message: BitcoinMessage)
        ensures
            final(self)@ == old(self)@.emit(message@),
    {
        self.outbox.push(message);
        assert(final(self)@.outbox =~= old(self)@.outbox.push(message@));
    }

    /// Hands out the queued events, oldest first, and empties the outbox.
    pub fn take_events(&mut self) -> (events: Vec<BitcoinMessage>)
        ensures
            messages_view(events@) == old(self)@.outbox,
            final(self)@ == (ActorView { outbox: Seq::empty(), ..old(self)@ }),
    {
        let mut events: Vec<BitcoinMessage> = Vec::new();
        std::mem::swap(&mut self.outbox, &mut events);
        assert(final(self)@.outbox =~= Seq::empty());
        events
    }

    fn report(&mut self, prefix: &str, error: &Error)
        ensures
            final(self)@ == old(self)@.report(prefix@, error@),
    {
        let mut text = String::from_str(prefix);
        let detail = error.message();
        text.append(detail.as_str());
        self.send_to_gui(BitcoinMessage::SendMessage(text));
    }

    fn perform(&mut self, stage: Stage, effect: Effect) -> (next: Option<Effect>)
        ensures
            step_of(final(self)@, next) == old(self)@.perform(stage, effect@),
    {
        self.stage = stage;
        Some(effect)
    }

    fn finish(&mut self) -> (next: Option<Effect>)
        ensures
            step_of(final(self)@, next) == old(self)@.finish(),
    {
        self.stage = Stage::Idle;
        self.mining_busy = false;
        None
    }

    fn conclude(&mut self) -> (next: Option<Effect>)
        ensures
            step_of(final(self)@, next) == old(self)@.conclude(),
    {
        if self.connected {
            self.perform(Stage::RefreshHeight, Effect::GetBlockchainInfo)
        } else {
            self.finish()
        }
    }

    /// Plans the opening of a pair of clients: one for the node and one for
    /// its wallet, with the credentials that were set. Fails with
    /// `CredentialMissing` where they were not.
    pub fn connect(&self) -> (plan: Result<Effect, Error>)
        ensures
            effect_result(plan) == self@.connect(),
    {
        match &self.address {
            Some(address) => match &self.auth {
                Some(auth) => {
                    let mut wallet_address = address.clone();
                    wallet_address.append("/wallet/");
                    wallet_address.append(WALLET_NAME);
                    Ok(
                        Effect::OpenClients {
                            address: address.clone(),
                            wallet_address,
                            auth: auth.clone(),
                        },
                    )
                },
                None => Err(Error::CredentialMissing),
            },
            None => Err(Error::CredentialMissing),
        }
    }

    /// Makes a throwaway regtest address: a fresh private key from bitcoin's
    /// `PrivateKey::generate`, its public key from `PrivateKey::public_key`
    /// in a context from `Secp256k1::new`, and the pay-to-public-key-hash
    /// address of that key from `Address::p2pkh`, rendered as text. The key
    /// is random. Of every outcome it holds that it is a
    /// pay-to-public-key-hash address of the test networks, which reads
    /// back as an address that can be used on regtest; no more is claimed.
    #[verifier::external_body]
    pub fn get_random_address() -> (address: String)
        ensures
            address_on_regtest(address@) == Some(true),
    {
        let key = PrivateKey::generate(Network::Regtest);
        let public_key = key.public_key(&Secp256k1::new());
        Address::p2pkh(public_key, Network::Regtest).to_string()
    }

    fn connect_failed(&mut self, purpose: Purpose, error: Error) -> (next: Option<Effect>)
        ensures
            step_of(final(self)@, next) == old(self)@.connect_failed(purpose, error@),
    {
        match purpose {
            Purpose::Connect => {
                self.report("Fail to connect: ", &error);
                self.send_to_gui(BitcoinMessage::Connected(false));
                self.conclude()
            },
            Purpose::AutoBlock { .. } => {
                self.send_to_gui(BitcoinMessage::MinerStopped);
                self.report("Fail to start autoblock: ", &error);
                self.finish()
            },
        }
    }

    fn bootstrap(&mut self, purpose: Purpose) -> (next: Option<Effect>)
        ensures
            step_of(final(self)@, next) == old(self)@.bootstrap(purpose),
    {
        match self.connect() {
            Ok(effect) => self.perform(Stage::Opening(purpose), effect),
            Err(error) => self.connect_failed(purpose, error),
        }
    }

    /// Serves `Connect`: starts the bootstrap of a connection, or, with a
    /// connection in place, tells the controller so once more and opens
    /// nothing.
    pub fn handle_connect(&mut self) -> (next: Option<Effect>)
        ensures
            step_of(final(self)@, next) == old(self)@.handle_connect(),
    {
        if self.connected {
            self.send_to_gui(BitcoinMessage::SendMessage(String::from_str("Already connected!")));
            self.send_to_gui(BitcoinMessage::Connected(true));
            self.conclude()
        } else {
            self.bootstrap(Purpose::Connect)
        }
    }

    /// Gives the connection up: the clients and the credentials are
    /// forgotten, and the controller is told. It does so whether a
    /// connection was in place or not.
    pub fn disconnect(&mut self)
        ensures
            final(self)@ == old(self)@.disconnect(),
    {
        self.connected = false;
        self.address = None;
        self.auth = None;
        self.send_to_gui(BitcoinMessage::Connected(false));
    }

    /// Serves `StartAutoBlock`: with a connection in place, starts the
    /// bootstrap of the clients for a background miner that mines a block
    /// every `delay_ms` milliseconds. Without one it does nothing.
    pub fn start_auto_block(&mut self, delay_ms: u64) -> (next: Option<Effect>)
        ensures
            step_of(final(self)@, next) == old(self)@.start_auto_block(delay_ms),
    {
        if self.connected {
            self.bootstrap(Purpose::AutoBlock { delay_ms })
        } else {
            None
        }
    }

    /// Serves `StopAutoBlock`: asks for one stop signal to the registered
    /// miner. With no miner registered it does nothing.
    pub fn stop_auto_block(&mut self) -> (next: Option<Effect>)
        ensures
            step_of(final(self)@, next) == old(self)@.stop_auto_block(),
    {
        if self.auto_block {
            self.perform(Stage::Stopping, Effect::SignalStop)
        } else {
            None
        }
    }

    /// Serves `GetNewAddress`.
    pub fn get_new_address(&mut self) -> (next: Option<Effect>)
        ensures
            step_of(final(self)@, next) == old(self)@.get_new_address(),
    {
        if self.connected {
            self.perform(Stage::FetchingAddress, Effect::GetNewAddress)
        } else {
            self.report("Fail to get new address: ", &Error::NotConnected);
            self.finish()
        }
    }

    /// Reads the chain height from the outcome of asking the node for it.
    pub fn get_block_height(&self, outcome: Outcome) -> (height: Result<u64, Error>)
        ensures
            result_view(height) == self@.get_block_height(outcome@),
    {
        if self.connected {
            outcome.height()
        } else {
            Err(Error::NotConnected)
        }
    }

    /// Reads the balance from the outcome of asking the wallet for it.
    pub fn get_balance(&self, outcome: Outcome) -> (balance: Result<u64, Error>)
        ensures
            result_view(balance) == self@.get_balance(outcome@),
    {
        if self.connected {
            outcome.balance()
        } else {
            Err(Error::NotConnected)
        }
    }

    /// The refresh, given the outcomes of asking the node for the chain
    /// height and the wallet for its balance: the controller is told the
    /// height if it could be had, then the balance if it could be had. One
    /// that failed does not keep the other back, and without a connection
    /// neither is told. Nothing but the outbox changes.
    pub fn update_data(&mut self, height: Outcome, balance: Outcome)
        ensures
            final(self)@ == old(self)@.update_data(height@, balance@),
    {
        match self.get_block_height(height) {
            Ok(tip) => self.send_to_gui(BitcoinMessage::UpdateBlockchainTip(tip)),
            Err(_) => {},
        }
        match self.get_balance(balance) {
            Ok(funds) => self.send_to_gui(BitcoinMessage::UpdateBalance(funds)),
            Err(_) => {},
        }
    }

    fn fail_generate(&mut self, error: Error) -> (next: Option<Effect>)
        ensures
            step_of(final(self)@, next) == old(self)@.fail_generate(error@),
    {
        self.send_to_gui(BitcoinMessage::SendMessage(error.message()));
        self.send_to_gui(BitcoinMessage::GenerateResponse(false));
        self.conclude()
    }

    fn finish_generate(&mut self) -> (next: Option<Effect>)
        ensures
            step_of(final(self)@, next) == old(self)@.finish_generate(),
    {
        self.send_to_gui(BitcoinMessage::GenerateResponse(true));
        self.conclude()
    }

    /// Mines blocks to an address in one call to the node, and reports the
    /// failure where there is no connection.
    pub fn generate_to_address(&mut self, params: GenerateToAddress) -> (next: Option<Effect>)
        ensures
            step_of(final(self)@, next) == old(self)@.generate_to_address(
                params.blocks,
                params.address@,
            ),
    {
        if self.connected {
            self.perform(
                Stage::Generating,
                Effect::GenerateToAddress { blocks: params.blocks as u64, address: params.address },
            )
        } else {
            self.fail_generate(Error::NotConnected)
        }
    }

    /// Mines blocks to a throwaway address, which is a regtest address.
    pub fn generate(&mut self, blocks: u32) -> (next: Option<Effect>)
        ensures
            exists|address: Seq<char>|
                address_on_regtest(address) == Some(true) && step_of(final(self)@, next)
                    == #[trigger] old(self)@.generate_to_address(blocks, address),
    {
        let address = Self::get_random_address();
        self.generate_to_address(GenerateToAddress { blocks, address })
    }

    /// Mines blocks to a new address of the wallet, which is asked for
    /// first.
    pub fn generate_to_self(&mut self, blocks: u32) -> (next: Option<Effect>)
        ensures
            step_of(final(self)@, next) == old(self)@.generate_to_self(blocks),
    {
        if self.connected {
            self.perform(Stage::SelfAddress { blocks }, Effect::GetNewAddress)
        } else {
            self.fail_generate(Error::NotConnected)
        }
    }

    fn descriptor_block(&mut self, index: u64, remaining: u32) -> (next: Option<Effect>)
        ensures
            step_of(final(self)@, next) == old(self)@.descriptor_block(index as nat, remaining),
    {
        if remaining == 0 {
            self.finish_generate()
        } else if index > u32::MAX as u64 {
            self.fail_generate(Error::DeriveDescriptor)
        } else {
            match Self::address_from_descriptor(self.descriptor.as_str(), index as u32) {
                Err(error) => self.fail_generate(error),
                Ok(address) => {
                    if self.connected {
                        self.perform(
                            Stage::DescriptorBlock { next: index as u32, left: remaining - 1 },
                            Effect::GenerateToAddress { blocks: 1, address },
                        )
                    } else {
                        self.fail_generate(Error::NotConnected)
                    }
                },
            }
        }
    }

    /// Mines one block to each of the addresses of a descriptor, from the
    /// start index on. A malformed descriptor fails the command before
    /// anything is mined.
    pub fn generate_to_descriptor(&mut self, params: GenerateToDescriptor) -> (next: Option<
        Effect,
    >)
        ensures
            step_of(final(self)@, next) == old(self)@.generate_to_descriptor(
                params.descriptor@,
                params.start_index,
                params.blocks,
            ),
    {
        match check_descriptor(params.descriptor.as_str()) {
            Ok(_) => {
                self.descriptor = params.descriptor;
                self.descriptor_block(params.start_index as u64, params.blocks)
            },
            Err(error) => self.fail_generate(error),
        }
    }

    fn fail_send(&mut self, error: Error) -> (next: Option<Effect>)
        ensures
            step_of(final(self)@, next) == old(self)@.fail_send(error@),
    {
        self.send_to_gui(BitcoinMessage::SendMessage(error.message()));
        self.send_to_gui(BitcoinMessage::SendResponse(false));
        self.finish()
    }

    fn finish_send(&mut self) -> (next: Option<Effect>)
        ensures
            step_of(final(self)@, next) == old(self)@.finish_send(),
    {
        self.send_to_gui(BitcoinMessage::SendResponse(true));
        self.finish()
    }

    /// Pays an address from the wallet, and reports the failure where there
    /// is no connection.
    pub fn send_to_address(&mut self, params: SendToAddress) -> (next: Option<Effect>)
        ensures
            step_of(final(self)@, next) == old(self)@.send_to_address(
                params.address@,
                params.amount,
            ),
    {
        if self.connected {
            self.perform(
                Stage::Sending,
                Effect::SendToAddress { address: params.address, amount: params.amount },
            )
        } else {
            self.fail_send(Error::NotConnected)
        }
    }

    fn descriptor_payment(
        &mut self,
        index: u64,
        remaining: u32,
        amount_min: u64,
        amount_max: u64,
        amount: u64,
    ) -> (next: Option<Effect>)
        ensures
            step_of(final(self)@, next) == old(self)@.descriptor_payment(
                index as nat,
                remaining,
                amount_min,
                amount_max,
                amount,
            ),
    {
        if remaining == 0 {
            self.finish_send()
        } else if amount_min >= amount_max {
            self.fail_send(Error::EmptyAmountRange)
        } else if index > u32::MAX as u64 {
            self.fail_send(Error::DeriveDescriptor)
        } else {
            match Self::address_from_descriptor(self.descriptor.as_str(), index as u32) {
                Err(error) => self.fail_send(error),
                Ok(address) => {
                    if self.connected {
                        self.perform(
                            Stage::DescriptorPayment {
                                next: index as u32,
                                left: remaining - 1,
                                amount_min,
                                amount_max,
                            },
                            Effect::SendToAddress { address, amount },
                        )
                    } else {
                        self.fail_send(Error::NotConnected)
                    }
                },
            }
        }
    }

    /// Starts a batch of payments to the addresses of a descriptor, from the
    /// start index on; `amount` is the amount of the first payment. A
    /// malformed descriptor fails the command before anything is paid.
    pub fn send_to_descriptor_with(&mut self, params: SendToDescriptor, amount: u64) -> (next:
        Option<Effect>)
        ensures
            step_of(final(self)@, next) == old(self)@.send_to_descriptor(
                params.descriptor@,
                params.start_index,
                params.count,
                params.amount_min,
                params.amount_max,
                amount,
            ),
    {
        match check_descriptor(params.descriptor.as_str()) {
            Ok(_) => {
                self.descriptor = params.descriptor;
                self.descriptor_payment(
                    params.start_index as u64,
                    params.count,
                    params.amount_min,
                    params.amount_max,
                    amount,
                )
            },
            Err(error) => self.fail_send(error),
        }
    }

    fn fail_paced(&mut self, error: Error) -> (next: Option<Effect>)
        ensures
            step_of(final(self)@, next) == old(self)@.fail_paced(error@),
    {
        self.report("maybe_send_every_block(): ", &error);
        self.conclude()
    }

    fn paced_payment(&mut self, index: u64, remaining: u32, amount: u64) -> (result: Result<
        Option<Effect>,
        Error,
    >)
        ensures
            attempt_of(final(self)@, result) == old(self)@.paced_payment(
                index as nat,
                remaining,
                amount,
            ),
    {
        if self.send_every_block.is_none() || remaining == 0 {
            return Ok(None);
        }
        let config = self.send_every_block.as_ref().unwrap();
        if config.amount_min >= config.amount_max {
            Err(Error::EmptyAmountRange)
        } else if index > u32::MAX as u64 {
            Err(Error::DeriveDescriptor)
        } else {
            match Self::address_from_descriptor(config.descriptor.as_str(), index as u32) {
                Err(error) => Err(error),
                Ok(address) => {
                    if self.connected {
                        self.stage = Stage::PacedPayment { next: index as u32, left: remaining - 1 };
                        Ok(Some(Effect::SendToAddress { address, amount }))
                    } else {
                        Err(Error::NotConnected)
                    }
                },
            }
        }
    }

    /// The send-pacing engine on a mined block for which `count` paced
    /// payments are due, the first of `amount`.
    ///
    /// Without a send-pacing configuration it does nothing: no call is
    /// asked for, no event is queued, and the actor stays as it is. With
    /// one, the cursor moves past `count` indices, whatever comes of the
    /// payments, and the first payment is asked for. It fails where a
    /// payment is due and cannot be made: with `EmptyAmountRange`, with the
    /// failure of resolving the address, or with `NotConnected`.
    pub fn maybe_send_every_block_with(&mut self, count: u32, amount: u64) -> (result: Result<
        Option<Effect>,
        Error,
    >)
        ensures
            attempt_of(final(self)@, result) == old(self)@.maybe_send_every_block(count, amount),
    {
        match self.send_every_block.take() {
            None => Ok(None),
            Some(mut config) => {
                let first = config.advance(count);
                self.send_every_block = Some(config);
                self.paced_payment(first as u64, count, amount)
            },
        }
    }

    fn conclude_paced(&mut self, result: Result<Option<Effect>, Error>) -> (next: Option<Effect>)
        ensures
            step_of(final(self)@, next) == ActorView::conclude_paced(
                attempt_of(old(self)@, result),
            ),
    {
        match result {
            Ok(Some(effect)) => Some(effect),
            Ok(None) => self.conclude(),
            Err(error) => self.fail_paced(error),
        }
    }

    /// Starts a batch of payments to the addresses of a descriptor, each of
    /// a random amount within the range of the command.
    pub fn send_to_descriptor(&mut self, params: SendToDescriptor) -> (next: Option<Effect>)
        ensures
            exists|amount: u64|
                amount_fits(params.amount_min, params.amount_max, amount) && step_of(
                    final(self)@,
                    next,
                ) == #[trigger] old(self)@.send_to_descriptor(
                    params.descriptor@,
                    params.start_index,
                    params.count,
                    params.amount_min,
                    params.amount_max,
                    amount,
                ),
    {
        let amount = Self::amount_within(params.amount_min, params.amount_max);
        self.send_to_descriptor_with(params, amount)
    }

    /// The send-pacing engine on a mined block: draws the number of paced
    /// payments that are due for it and the amount of the first, and starts
    /// them. Without a send-pacing configuration it does nothing.
    pub fn maybe_send_every_block(&mut self) -> (result: Result<Option<Effect>, Error>)
        ensures
            exists|count: u32, amount: u64|
                (old(self)@.send_every_block matches Some(config) ==> possible_tx_count(
                    config.count,
                    config.blocks,
                    count as nat,
                ) && amount_fits(config.amount_min, config.amount_max, amount)) && attempt_of(
                    final(self)@,
                    result,
                ) == #[trigger] old(self)@.maybe_send_every_block(count, amount),
            old(self)@.send_every_block.is_none() ==> attempt_of(final(self)@, result) == old(
                self,
            )@.idle_attempt(),
    {
        let draws = self.draws_for_block();
        self.maybe_send_every_block_with(draws.0, draws.1)
    }

    /// The amount for the next payment of a batch: drawn from the amounts
    /// of at least `amount_min` and less than `amount_max` where there is
    /// one, and zero where the range is empty and nothing can be drawn.
    fn amount_within(amount_min: u64, amount_max: u64) -> (amount: u64)
        ensures
            amount_fits(amount_min, amount_max, amount),
            amount_min >= amount_max ==> amount == 0,
    {
        match draw_amount(amount_min, amount_max) {
            Some(amount) => amount,
            None => 0,
        }
    }

    fn draws_for_block(&self) -> (draws: (u32, u64))
        ensures
            self@.send_every_block matches Some(config) ==> possible_tx_count(
                config.count,
                config.blocks,
                draws.0 as nat,
            ) && amount_fits(config.amount_min, config.amount_max, draws.1),
    {
        match &self.send_every_block {
            Some(config) => (
                Self::get_random_tx_count(config.count, config.blocks),
                Self::amount_within(config.amount_min, config.amount_max),
            ),
            None => (0, 0),
        }
    }

    fn draws_for_message(&self, message: &BitcoinMessage) -> (draws: Draws)
        ensures
            self@.message_draws_fit(message@, draws@),
    {
        match message {
            BitcoinMessage::Generate(_) => Draws {
                address: Self::get_random_address(),
                count: 0,
                amount: 0,
            },
            BitcoinMessage::SendToDescriptor(params) => Draws {
                address: String::new(),
                count: 0,
                amount: Self::amount_within(params.amount_min, params.amount_max),
            },
            BitcoinMessage::BlockMined => {
                let draws = self.draws_for_block();
                Draws { address: String::new(), count: draws.0, amount: draws.1 }
            },
            _ => Draws { address: String::new(), count: 0, amount: 0 },
        }
    }

    fn draws_for_outcome(&self) -> (draws: Draws)
        ensures
            self@.outcome_draws_fit(draws@),
    {
        let amount = match self.stage {
            Stage::DescriptorPayment { amount_min, amount_max, .. } => Self::amount_within(
                amount_min,
                amount_max,
            ),
            Stage::PacedPayment { .. } => match &self.send_every_block {
                Some(config) => Self::amount_within(config.amount_min, config.amount_max),
                None => 0,
            },
            _ => 0,
        };
        Draws { address: String::new(), count: 0, amount }
    }

    /// Serves one message from the mailbox, with what chance contributes
    /// given as `draws`.
    ///
    /// While an effect is in flight the message is dropped, and so is a
    /// generate command while the mining gate is closed. Otherwise the
    /// message is served as the state machine says: the state changes,
    /// events are queued, and the effect to perform next is handed back.
    pub fn handle_message_with(&mut self, message: BitcoinMessage, draws: Draws) -> (next: Option<
        Effect,
    >)
        ensures
            step_of(final(self)@, next) == old(self)@.on_message(message@, draws@),
    {
        if self.stage != Stage::Idle {
            return None;
        }
        match message {
            BitcoinMessage::SetCredentials { address, auth } => {
                self.address = Some(address);
                self.auth = Some(auth);
                None
            },
            BitcoinMessage::Connect => self.handle_connect(),
            BitcoinMessage::Disconnect => {
                if self.connected {
                    self.disconnect();
                    self.perform(Stage::Closing, Effect::CloseClients)
                } else {
                    None
                }
            },
            BitcoinMessage::GetNewAddress => self.get_new_address(),
            BitcoinMessage::Generate(blocks) => {
                if self.mining_busy {
                    None
                } else {
                    self.mining_busy = true;
                    self.generate_to_address(GenerateToAddress { blocks, address: draws.address })
                }
            },
            BitcoinMessage::GenerateToSelf(blocks) => {
                if self.mining_busy {
                    None
                } else {
                    self.mining_busy = true;
                    self.generate_to_self(blocks)
                }
            },
            BitcoinMessage::GenerateToAddress(params) => {
                if self.mining_busy {
                    None
                } else {
                    self.mining_busy = true;
                    self.generate_to_address(params)
                }
            },
            BitcoinMessage::GenerateToDescriptor(params) => {
                if self.mining_busy {
                    None
                } else {
                    self.mining_busy = true;
                    self.generate_to_descriptor(params)
                }
            },
            BitcoinMessage::SendToAddress(params) => self.send_to_address(params),
            BitcoinMessage::SendToDescriptor(params) => self.send_to_descriptor_with(
                params,
                draws.amount,
            ),
            BitcoinMessage::EnableSendEveryBlock(params) => {
                self.send_every_block = Some(params);
                None
            },
            BitcoinMessage::DisableSendEveryBlock => {
                self.send_every_block = None;
                None
            },
            BitcoinMessage::StartAutoBlock(delay_ms) => self.start_auto_block(delay_ms),
            BitcoinMessage::StopAutoBlock => self.stop_auto_block(),
            BitcoinMessage::BlockMined => {
                let attempt = self.maybe_send_every_block_with(draws.count, draws.amount);
                self.conclude_paced(attempt)
            },
            BitcoinMessage::MinerStopped => {
                self.auto_block = false;
                self.send_to_gui(BitcoinMessage::MinerStopped);
                None
            },
            BitcoinMessage::BatchSent => self.conclude(),
            _ => None,
        }
    }

    /// Serves one message from the mailbox. What chance decides is drawn
    /// here: the throwaway address of `Generate`, the number of paced
    /// payments for `BlockMined`, and the amount of the first payment of a
    /// batch.
    pub fn handle_message(&mut self, message: BitcoinMessage) -> (next: Option<Effect>)
        ensures
            exists|draws: DrawsView|
                old(self)@.message_draws_fit(message@, draws) && step_of(final(self)@, next)
                    == #[trigger] old(self)@.on_message(message@, draws),
    {
        let draws = self.draws_for_message(&message);
        self.handle_message_with(message, draws)
    }

    fn handle_bootstrap_outcome(&mut self, outcome: Outcome) -> (next: Option<Effect>)
        ensures
            step_of(final(self)@, next) == old(self)@.on_bootstrap_outcome(outcome@),
    {
        match self.stage {
            Stage::Opening(purpose) => match outcome.failure() {
                None => self.perform(Stage::Loading(purpose), Effect::LoadWallet),
                Some(failure) => self.connect_failed(purpose, Error::Rpc(failure)),
            },
            Stage::Loading(purpose) => match outcome.failure() {
                None => self.perform(Stage::SettingFee(purpose), Effect::SetTxFee),
                Some(failure) => {
                    if failure.code == Some(-18i32) {
                        self.perform(Stage::Creating(purpose), Effect::CreateWallet)
                    } else if failure.code == Some(-35i32) {
                        self.perform(Stage::SettingFee(purpose), Effect::SetTxFee)
                    } else {
                        self.connect_failed(purpose, Error::Rpc(failure))
                    }
                },
            },
            Stage::Creating(purpose) => match outcome.failure() {
                None => self.perform(Stage::SettingFee(purpose), Effect::SetTxFee),
                Some(failure) => self.connect_failed(purpose, Error::Rpc(failure)),
            },
            Stage::SettingFee(purpose) => match outcome.failure() {
                None => match purpose {
                    Purpose::Connect => self.perform(Stage::Installing, Effect::InstallClients),
                    Purpose::AutoBlock { delay_ms } => self.perform(
                        Stage::Spawning,
                        Effect::SpawnMiner { delay_ms },
                    ),
                },
                Some(failure) => self.connect_failed(purpose, Error::Rpc(failure)),
            },
            Stage::Installing => {
                self.connected = true;
                self.send_to_gui(BitcoinMessage::Connected(true));
                self.conclude()
            },
            Stage::Spawning => {
                self.auto_block = true;
                self.finish()
            },
            _ => self.finish(),
        }
    }

    /// Takes the outcome of the effect in flight, with what chance
    /// contributes given as `draws`, and hands back the effect to perform
    /// next. With nothing in flight the outcome is ignored.
    pub fn handle_outcome_with(&mut self, outcome: Outcome, draws: Draws) -> (next: Option<Effect>)
        ensures
            step_of(final(self)@, next) == old(self)@.on_outcome(outcome@, draws@),
    {
        match self.stage {
            Stage::Idle => None,
            Stage::FetchingAddress => match outcome.address() {
                Ok(address) => {
                    self.send_to_gui(BitcoinMessage::NewAddress(address));
                    self.finish()
                },
                Err(error) => {
                    self.report("Fail to get new address: ", &error);
                    self.finish()
                },
            },
            Stage::SelfAddress { blocks } => match outcome.address() {
                Ok(address) => self.generate_to_address(GenerateToAddress { blocks, address }),
                Err(error) => self.fail_generate(error),
            },
            Stage::Generating => match outcome.failure() {
                None => self.finish_generate(),
                Some(failure) => self.fail_generate(Error::Rpc(failure)),
            },
            Stage::DescriptorBlock { next, left } => match outcome.failure() {
                None => {
                    self.send_to_gui(BitcoinMessage::IncrementGenerateDescriptorIndex);
                    self.descriptor_block(next as u64 + 1, left)
                },
                Some(failure) => self.fail_generate(Error::Rpc(failure)),
            },
            Stage::Sending => match outcome.failure() {
                None => self.finish_send(),
                Some(failure) => self.fail_send(Error::Rpc(failure)),
            },
            Stage::DescriptorPayment { next, left, amount_min, amount_max } => match outcome.failure() {
                None => {
                    self.send_to_gui(BitcoinMessage::IncrementSendDescriptorIndex);
                    self.descriptor_payment(
                        next as u64 + 1,
                        left,
                        amount_min,
                        amount_max,
                        draws.amount,
                    )
                },
                Some(failure) => self.fail_send(Error::Rpc(failure)),
            },
            Stage::PacedPayment { next, left } => match outcome.failure() {
                None => {
                    let attempt = self.paced_payment(next as u64 + 1, left, draws.amount);
                    self.conclude_paced(attempt)
                },
                Some(failure) => self.fail_paced(Error::Rpc(failure)),
            },
            Stage::RefreshHeight => {
                self.height = outcome;
                self.perform(Stage::RefreshBalance, Effect::GetBalance)
            },
            Stage::RefreshBalance => {
                let mut height = Outcome::Done;
                std::mem::swap(&mut self.height, &mut height);
                self.update_data(height, outcome);
                self.finish()
            },
            _ => self.handle_bootstrap_outcome(outcome),
        }
    }

    /// Takes the outcome of the effect in flight and hands back the effect
    /// to perform next. The amount of the next payment of a batch is drawn
    /// here.
    pub fn handle_outcome(&mut self, outcome: Outcome) -> (next: Option<Effect>)
        ensures
            exists|draws: DrawsView|
                old(self)@.outcome_draws_fit(draws) && step_of(final(self)@, next)
                    == #[trigger] old(self)@.on_outcome(outcome@, draws),
    {
        let draws = self.draws_for_outcome();
        self.handle_outcome_with(outcome, draws)
    }
}

} // verus!
