//! The actor as a state machine over mathematical values.
//!
//! A transition takes the actor's state and one input, a message from the
//! mailbox or the outcome of the effect in flight, and gives the next state
//! and at most one effect to perform. Events for the controller are appended
//! to the outbox. What chance decides (a throwaway address, the number of
//! payments for a block, an amount) enters a transition as a draw.

use vstd::prelude::*;
use crate::address::address_on_regtest;
use crate::descriptor::{descriptor_address, is_descriptor};
use crate::effect::{EffectView, OutcomeView, WALLET_NAME};
use crate::error::ErrorView;
use crate::message::{AuthMethodView, MessageView, SendEveryBlockView};
use crate::pacing::{
    cursor_accounts_for_every_transaction, cursor_is_monotonic_over_blocks, possible_tx_count,
    total_count,
};

verus! {

/// What a bootstrap of clients is for.
#[derive(Debug, Clone, Copy, PartialEq, Eq, Structural)]
pub enum Purpose {
    /// The actor's own connection.
    Connect,
    /// The connection of a background miner with this cadence.
    AutoBlock { delay_ms: u64 },
}

/// What the actor is in the middle of: the effect in flight and what is
/// left to do after it.
#[derive(Debug, Clone, Copy, PartialEq, Eq, Structural)]
pub enum Stage {
    /// Nothing is in flight; the next message is taken.
    Idle,
    /// `OpenClients` is in flight.
    Opening(Purpose),
    /// `LoadWallet` is in flight.
    Loading(Purpose),
    /// `CreateWallet` is in flight.
    Creating(Purpose),
    /// `SetTxFee` is in flight.
    SettingFee(Purpose),
    /// `InstallClients` is in flight.
    Installing,
    /// `SpawnMiner` is in flight.
    Spawning,
    /// `CloseClients` is in flight.
    Closing,
    /// `SignalStop` is in flight.
    Stopping,
    /// `GetNewAddress` is in flight, for the controller.
    FetchingAddress,
    /// `GetNewAddress` is in flight, for mining `blocks` blocks to it.
    SelfAddress { blocks: u32 },
    /// A one-shot `GenerateToAddress` is in flight.
    Generating,
    /// The block for index `next` of the batch descriptor is in flight, and
    /// `left` more blocks follow.
    DescriptorBlock { next: u32, left: u32 },
    /// A single `SendToAddress` is in flight.
    Sending,
    /// The payment to index `next` of the batch descriptor is in flight, and
    /// `left` more payments follow, each within the given amounts.
    DescriptorPayment { next: u32, left: u32, amount_min: u64, amount_max: u64 },
    /// The paced payment to index `next` is in flight, and `left` more
    /// follow for the same block.
    PacedPayment { next: u32, left: u32 },
    /// `GetBlockchainInfo` is in flight.
    RefreshHeight,
    /// `GetBalance` is in flight.
    RefreshBalance,
}

/// The state of the actor.
pub struct ActorView {
    /// Address of the node, once credentials are set.
    pub address: Option<Seq<char>>,
    /// How to authenticate, once credentials are set.
    pub auth: Option<AuthMethodView>,
    /// Whether the node client and the wallet client are installed.
    pub connected: bool,
    /// The mining gate: set while a generate command is being served.
    pub mining_busy: bool,
    /// Whether the cancellation channel of a background miner is registered.
    pub auto_block: bool,
    /// The send-pacing configuration, while pacing is enabled.
    pub send_every_block: Option<SendEveryBlockView>,
    /// What is in flight.
    pub stage: Stage,
    /// The descriptor of the batch in flight.
    pub descriptor: Seq<char>,
    /// What the node told of the chain height, kept while the balance is
    /// asked for.
    pub height: OutcomeView,
    /// The events for the controller that were not collected yet.
    pub outbox: Seq<MessageView>,
}

/// The result of a transition.
pub struct Step {
    pub next: ActorView,
    pub effect: Option<EffectView>,
}

/// The result of an attempt at a command that can fail: the state it
/// leaves, and the effect that it asks for, if any, or its failure.
pub struct Attempt {
    pub next: ActorView,
    pub result: Result<Option<EffectView>, ErrorView>,
}

/// What chance contributes to one transition.
pub struct DrawsView {
    /// A throwaway address.
    pub address: Seq<char>,
    /// The number of paced payments for a mined block.
    pub count: u32,
    /// The amount of the next payment of a batch.
    pub amount: u64,
}

/// The wallet endpoint of the node at `address`.
pub open spec fn wallet_endpoint(address: Seq<char>) -> Seq<char> {
    address + "/wallet/"@ + WALLET_NAME@
}

/// Whether `amount` can be drawn from the amounts of at least `amount_min`
/// and less than `amount_max`. Of an empty range nothing is drawn.
pub open spec fn amount_fits(amount_min: u64, amount_max: u64, amount: u64) -> bool {
    amount_min < amount_max ==> amount_min <= amount < amount_max
}

impl ActorView {
    /// Whether chance can contribute `draws` to the transition on
    /// `message`: the throwaway address is a regtest address, the count is
    /// one that the configured rate can give, and the amount lies in the
    /// range of the batch.
    pub open spec fn message_draws_fit(self, message: MessageView, draws: DrawsView) -> bool {
        match message {
            MessageView::Generate(_) => address_on_regtest(draws.address) == Some(true),
            MessageView::SendToDescriptor(params) => amount_fits(
                params.amount_min,
                params.amount_max,
                draws.amount,
            ),
            MessageView::BlockMined => match self.send_every_block {
                Some(config) => possible_tx_count(config.count, config.blocks, draws.count as nat)
                    && amount_fits(config.amount_min, config.amount_max, draws.amount),
                None => true,
            },
            _ => true,
        }
    }

    /// Whether chance can contribute `draws` to the transition on an
    /// outcome: the amount lies in the range of the batch in flight.
    pub open spec fn outcome_draws_fit(self, draws: DrawsView) -> bool {
        match self.stage {
            Stage::DescriptorPayment { amount_min, amount_max, .. } => amount_fits(
                amount_min,
                amount_max,
                draws.amount,
            ),
            Stage::PacedPayment { .. } => match self.send_every_block {
                Some(config) => amount_fits(config.amount_min, config.amount_max, draws.amount),
                None => true,
            },
            _ => true,
        }
    }

    /// The state of a new actor.
    pub open spec fn initial() -> ActorView {
        ActorView {
            address: None,
            auth: None,
            connected: false,
            mining_busy: false,
            auto_block: false,
            send_every_block: None,
            stage: Stage::Idle,
            descriptor: Seq::empty(),
            height: OutcomeView::Done,
            outbox: Seq::empty(),
        }
    }

    /// The state with one more event in the outbox.
    pub open spec fn emit(self, event: MessageView) -> ActorView {
        ActorView { outbox: self.outbox.push(event), ..self }
    }

    /// The state with a diagnostic in the outbox: `prefix`, then the text of
    /// `error`.
    pub open spec fn report(self, prefix: Seq<char>, error: ErrorView) -> ActorView {
        self.emit(MessageView::SendMessage(prefix + error.text()))
    }

    /// The transition that changes nothing and asks for nothing.
    pub open spec fn stay(self) -> Step {
        Step { next: self, effect: None }
    }

    /// The transition that asks for `effect` and waits for it in `stage`.
    pub open spec fn perform(self, stage: Stage, effect: EffectView) -> Step {
        Step { next: ActorView { stage, ..self }, effect: Some(effect) }
    }

    /// The transition that ends the work on an input: nothing is in flight
    /// any more, and the mining gate is open.
    pub open spec fn finish(self) -> Step {
        Step { next: ActorView { stage: Stage::Idle, mining_busy: false, ..self }, effect: None }
    }

    /// The refresh, given what the node told of the chain height and of the
    /// balance: the controller is told the height, then the balance, each
    /// if it could be had. Nothing else changes. Without a connection
    /// neither can be had.
    pub open spec fn update_data(self, height: OutcomeView, balance: OutcomeView) -> ActorView {
        let told = match self.get_block_height(height) {
            Ok(tip) => self.emit(MessageView::UpdateBlockchainTip(tip)),
            Err(_) => self,
        };
        match self.get_balance(balance) {
            Ok(funds) => told.emit(MessageView::UpdateBalance(funds)),
            Err(_) => told,
        }
    }

    /// Ends the dispatch of an input. With a connection the node is asked
    /// for the chain height, then for the balance, and after the refresh the
    /// work is finished; without one it is finished at once.
    pub open spec fn conclude(self) -> Step {
        if self.connected {
            self.perform(Stage::RefreshHeight, EffectView::GetBlockchainInfo)
        } else {
            self.finish()
        }
    }

    /// The effect that opens a pair of clients with the credentials, or
    /// `CredentialMissing` without them.
    pub open spec fn connect(self) -> Result<EffectView, ErrorView> {
        match (self.address, self.auth) {
            (Some(address), Some(auth)) => Ok(
                EffectView::OpenClients {
                    address,
                    wallet_address: wallet_endpoint(address),
                    auth,
                },
            ),
            _ => Err(ErrorView::CredentialMissing),
        }
    }

    /// Ends a bootstrap that failed with `error`.
    pub open spec fn connect_failed(self, purpose: Purpose, error: ErrorView) -> Step {
        match purpose {
            Purpose::Connect => self.report("Fail to connect: "@, error).emit(
                MessageView::Connected(false),
            ).conclude(),
            Purpose::AutoBlock { .. } => self.emit(MessageView::MinerStopped).report(
                "Fail to start autoblock: "@,
                error,
            ).finish(),
        }
    }

    /// Starts a bootstrap for `purpose`.
    pub open spec fn bootstrap(self, purpose: Purpose) -> Step {
        match self.connect() {
            Ok(effect) => self.perform(Stage::Opening(purpose), effect),
            Err(error) => self.connect_failed(purpose, error),
        }
    }

    /// Serves `Connect`. With a connection in place nothing is opened: the
    /// controller is told again that the actor is connected.
    pub open spec fn handle_connect(self) -> Step {
        if self.connected {
            self.emit(MessageView::SendMessage("Already connected!"@)).emit(
                MessageView::Connected(true),
            ).conclude()
        } else {
            self.bootstrap(Purpose::Connect)
        }
    }

    /// The state after the connection was given up: no clients, no
    /// credentials, and the controller told so.
    pub open spec fn disconnect(self) -> ActorView {
        ActorView { connected: false, address: None, auth: None, ..self }.emit(
            MessageView::Connected(false),
        )
    }

    /// Serves `StartAutoBlock`: with a connection, a bootstrap for the
    /// miner's own clients; without one, nothing.
    pub open spec fn start_auto_block(self, delay_ms: u64) -> Step {
        if self.connected {
            self.bootstrap(Purpose::AutoBlock { delay_ms })
        } else {
            self.stay()
        }
    }

    /// Serves `StopAutoBlock`: a stop signal for the registered miner, and
    /// nothing where none is registered.
    pub open spec fn stop_auto_block(self) -> Step {
        if self.auto_block {
            self.perform(Stage::Stopping, EffectView::SignalStop)
        } else {
            self.stay()
        }
    }

    /// Serves `GetNewAddress`.
    pub open spec fn get_new_address(self) -> Step {
        if self.connected {
            self.perform(Stage::FetchingAddress, EffectView::GetNewAddress)
        } else {
            self.report("Fail to get new address: "@, ErrorView::NotConnected).finish()
        }
    }

    /// The chain height that an outcome tells, which takes a connection.
    pub open spec fn get_block_height(self, outcome: OutcomeView) -> Result<u64, ErrorView> {
        if self.connected {
            outcome.height()
        } else {
            Err(ErrorView::NotConnected)
        }
    }

    /// The balance that an outcome tells, which takes a connection.
    pub open spec fn get_balance(self, outcome: OutcomeView) -> Result<u64, ErrorView> {
        if self.connected {
            outcome.balance()
        } else {
            Err(ErrorView::NotConnected)
        }
    }

    /// The state with the mining gate closed.
    pub open spec fn engage(self) -> ActorView {
        ActorView { mining_busy: true, ..self }
    }

    /// Ends a generate command that failed with `error`.
    pub open spec fn fail_generate(self, error: ErrorView) -> Step {
        self.emit(MessageView::SendMessage(error.text())).emit(
            MessageView::GenerateResponse(false),
        ).conclude()
    }

    /// Ends a generate command that succeeded.
    pub open spec fn finish_generate(self) -> Step {
        self.emit(MessageView::GenerateResponse(true)).conclude()
    }

    /// Mines `blocks` blocks to `address` in one call.
    pub open spec fn generate_to_address(self, blocks: u32, address: Seq<char>) -> Step {
        if self.connected {
            self.perform(
                Stage::Generating,
                EffectView::GenerateToAddress { blocks: blocks as u64, address },
            )
        } else {
            self.fail_generate(ErrorView::NotConnected)
        }
    }

    /// Mines `blocks` blocks to a new address of the wallet.
    pub open spec fn generate_to_self(self, blocks: u32) -> Step {
        if self.connected {
            self.perform(Stage::SelfAddress { blocks }, EffectView::GetNewAddress)
        } else {
            self.fail_generate(ErrorView::NotConnected)
        }
    }

    /// Goes on with a batch of blocks to the batch descriptor: `remaining` blocks
    /// are left, the next one for `index`.
    pub open spec fn descriptor_block(self, index: nat, remaining: u32) -> Step {
        if remaining == 0 {
            self.finish_generate()
        } else if index > u32::MAX {
            self.fail_generate(ErrorView::DeriveDescriptor)
        } else {
            match descriptor_address(self.descriptor, index as u32) {
                Err(error) => self.fail_generate(error),
                Ok(address) => if self.connected {
                    self.perform(
                        Stage::DescriptorBlock { next: index as u32, left: (remaining - 1) as u32 },
                        EffectView::GenerateToAddress { blocks: 1, address },
                    )
                } else {
                    self.fail_generate(ErrorView::NotConnected)
                },
            }
        }
    }

    /// Serves `GenerateToDescriptor`.
    pub open spec fn generate_to_descriptor(
        self,
        descriptor: Seq<char>,
        start_index: u32,
        blocks: u32,
    ) -> Step {
        if is_descriptor(descriptor) {
            ActorView { descriptor, ..self }.descriptor_block(start_index as nat, blocks)
        } else {
            self.fail_generate(ErrorView::ParseDescriptor)
        }
    }

    /// Ends a send command that failed with `error`.
    pub open spec fn fail_send(self, error: ErrorView) -> Step {
        self.emit(MessageView::SendMessage(error.text())).emit(
            MessageView::SendResponse(false),
        ).finish()
    }

    /// Ends a send command that succeeded.
    pub open spec fn finish_send(self) -> Step {
        self.emit(MessageView::SendResponse(true)).finish()
    }

    /// Serves `SendToAddress`.
    pub open spec fn send_to_address(self, address: Seq<char>, amount: u64) -> Step {
        if self.connected {
            self.perform(Stage::Sending, EffectView::SendToAddress { address, amount })
        } else {
            self.fail_send(ErrorView::NotConnected)
        }
    }

    /// Goes on with a batch of payments to the batch descriptor: `remaining`
    /// payments are left, the next one of `amount` to `index`.
    pub open spec fn descriptor_payment(
        self,
        index: nat,
        remaining: u32,
        amount_min: u64,
        amount_max: u64,
        amount: u64,
    ) -> Step {
        if remaining == 0 {
            self.finish_send()
        } else if amount_min >= amount_max {
            self.fail_send(ErrorView::EmptyAmountRange)
        } else if index > u32::MAX {
            self.fail_send(ErrorView::DeriveDescriptor)
        } else {
            match descriptor_address(self.descriptor, index as u32) {
                Err(error) => self.fail_send(error),
                Ok(address) => if self.connected {
                    self.perform(
                        Stage::DescriptorPayment {
                            next: index as u32,
                            left: (remaining - 1) as u32,
                            amount_min,
                            amount_max,
                        },
                        EffectView::SendToAddress { address, amount },
                    )
                } else {
                    self.fail_send(ErrorView::NotConnected)
                },
            }
        }
    }

    /// Serves `SendToDescriptor`.
    pub open spec fn send_to_descriptor(
        self,
        descriptor: Seq<char>,
        start_index: u32,
        count: u32,
        amount_min: u64,
        amount_max: u64,
        amount: u64,
    ) -> Step {
        if is_descriptor(descriptor) {
            ActorView { descriptor, ..self }.descriptor_payment(
                start_index as nat,
                count,
                amount_min,
                amount_max,
                amount,
            )
        } else {
            self.fail_send(ErrorView::ParseDescriptor)
        }
    }

    /// Ends the dispatch of a mined block whose paced payments failed with
    /// `error`.
    pub open spec fn fail_paced(self, error: ErrorView) -> Step {
        self.report("maybe_send_every_block(): "@, error).conclude()
    }

    /// The attempt that changes nothing and asks for nothing.
    pub open spec fn idle_attempt(self) -> Attempt {
        Attempt { next: self, result: Ok(None) }
    }

    /// The attempt that changes nothing and fails with `error`.
    pub open spec fn failed_attempt(self, error: ErrorView) -> Attempt {
        Attempt { next: self, result: Err(error) }
    }

    /// Goes on with the paced payments for a block: `remaining` payments are
    /// left, the next one of `amount` to `index` of the configured
    /// descriptor. With none left, or without a configuration, nothing is
    /// asked for and nothing changes.
    pub open spec fn paced_payment(self, index: nat, remaining: u32, amount: u64) -> Attempt {
        match self.send_every_block {
            None => self.idle_attempt(),
            Some(config) => if remaining == 0 {
                self.idle_attempt()
            } else if config.amount_min >= config.amount_max {
                self.failed_attempt(ErrorView::EmptyAmountRange)
            } else if index > u32::MAX {
                self.failed_attempt(ErrorView::DeriveDescriptor)
            } else {
                match descriptor_address(config.descriptor, index as u32) {
                    Err(error) => self.failed_attempt(error),
                    Ok(address) => if self.connected {
                        Attempt {
                            next: ActorView {
                                stage: Stage::PacedPayment {
                                    next: index as u32,
                                    left: (remaining - 1) as u32,
                                },
                                ..self
                            },
                            result: Ok(Some(EffectView::SendToAddress { address, amount })),
                        }
                    } else {
                        self.failed_attempt(ErrorView::NotConnected)
                    },
                }
            },
        }
    }

    /// The send-pacing engine on a mined block for which `count` payments
    /// are due. Without a configuration it does nothing at all. With one, it
    /// moves the cursor past `count` indices and asks for the first payment,
    /// of `amount`, to the index where the cursor stood.
    pub open spec fn maybe_send_every_block(self, count: u32, amount: u64) -> Attempt {
        match self.send_every_block {
            None => self.idle_attempt(),
            Some(config) => ActorView {
                send_every_block: Some(config.advanced(count as nat)),
                ..self
            }.paced_payment(config.cursor() as nat, count, amount),
        }
    }

    /// Ends the dispatch of a mined block after an attempt at its paced
    /// payments: a payment that was asked for is waited for, a failure is
    /// reported, and with nothing left to pay the dispatch is concluded.
    pub open spec fn conclude_paced(attempt: Attempt) -> Step {
        match attempt.result {
            Ok(Some(effect)) => Step { next: attempt.next, effect: Some(effect) },
            Ok(None) => attempt.next.conclude(),
            Err(error) => attempt.next.fail_paced(error),
        }
    }

    /// The transition on a message from the mailbox.
    ///
    /// While an effect is in flight no message is served: it is dropped. A
    /// generate command is dropped as well while the mining gate is closed.
    pub open spec fn on_message(self, message: MessageView, draws: DrawsView) -> Step {
        if self.stage != Stage::Idle {
            self.stay()
        } else {
            match message {
                MessageView::SetCredentials { address, auth } => ActorView {
                    address: Some(address),
                    auth: Some(auth),
                    ..self
                }.stay(),
                MessageView::Connect => self.handle_connect(),
                MessageView::Disconnect => if self.connected {
                    self.disconnect().perform(Stage::Closing, EffectView::CloseClients)
                } else {
                    self.stay()
                },
                MessageView::GetNewAddress => self.get_new_address(),
                MessageView::Generate(blocks) => if self.mining_busy {
                    self.stay()
                } else {
                    self.engage().generate_to_address(blocks, draws.address)
                },
                MessageView::GenerateToSelf(blocks) => if self.mining_busy {
                    self.stay()
                } else {
                    self.engage().generate_to_self(blocks)
                },
                MessageView::GenerateToAddress(params) => if self.mining_busy {
                    self.stay()
                } else {
                    self.engage().generate_to_address(params.blocks, params.address)
                },
                MessageView::GenerateToDescriptor(params) => if self.mining_busy {
                    self.stay()
                } else {
                    self.engage().generate_to_descriptor(
                        params.descriptor,
                        params.start_index,
                        params.blocks,
                    )
                },
                MessageView::SendToAddress(params) => self.send_to_address(
                    params.address,
                    params.amount,
                ),
                MessageView::SendToDescriptor(params) => self.send_to_descriptor(
                    params.descriptor,
                    params.start_index,
                    params.count,
                    params.amount_min,
                    params.amount_max,
                    draws.amount,
                ),
                MessageView::EnableSendEveryBlock(params) => ActorView {
                    send_every_block: Some(params),
                    ..self
                }.stay(),
                MessageView::DisableSendEveryBlock => ActorView {
                    send_every_block: None,
                    ..self
                }.stay(),
                MessageView::StartAutoBlock(delay_ms) => self.start_auto_block(delay_ms),
                MessageView::StopAutoBlock => self.stop_auto_block(),
                MessageView::BlockMined => ActorView::conclude_paced(
                    self.maybe_send_every_block(draws.count, draws.amount),
                ),
                MessageView::MinerStopped => ActorView { auto_block: false, ..self }.emit(
                    MessageView::MinerStopped,
                ).stay(),
                MessageView::BatchSent => self.conclude(),
                _ => self.stay(),
            }
        }
    }

    /// The transition on the outcome of a step of a bootstrap.
    pub open spec fn on_bootstrap_outcome(self, outcome: OutcomeView) -> Step {
        match self.stage {
            Stage::Opening(purpose) => match outcome.failure() {
                None => self.perform(Stage::Loading(purpose), EffectView::LoadWallet),
                Some(failure) => self.connect_failed(purpose, ErrorView::Rpc(failure)),
            },
            Stage::Loading(purpose) => match outcome.failure() {
                None => self.perform(Stage::SettingFee(purpose), EffectView::SetTxFee),
                Some(failure) => if failure.code == Some(-18i32) {
                    self.perform(Stage::Creating(purpose), EffectView::CreateWallet)
                } else if failure.code == Some(-35i32) {
                    self.perform(Stage::SettingFee(purpose), EffectView::SetTxFee)
                } else {
                    self.connect_failed(purpose, ErrorView::Rpc(failure))
                },
            },
            Stage::Creating(purpose) => match outcome.failure() {
                None => self.perform(Stage::SettingFee(purpose), EffectView::SetTxFee),
                Some(failure) => self.connect_failed(purpose, ErrorView::Rpc(failure)),
            },
            Stage::SettingFee(purpose) => match outcome.failure() {
                None => match purpose {
                    Purpose::Connect => self.perform(
                        Stage::Installing,
                        EffectView::InstallClients,
                    ),
                    Purpose::AutoBlock { delay_ms } => self.perform(
                        Stage::Spawning,
                        EffectView::SpawnMiner { delay_ms },
                    ),
                },
                Some(failure) => self.connect_failed(purpose, ErrorView::Rpc(failure)),
            },
            Stage::Installing => ActorView { connected: true, ..self }.emit(
                MessageView::Connected(true),
            ).conclude(),
            Stage::Spawning => ActorView { auto_block: true, ..self }.finish(),
            _ => self.finish(),
        }
    }

    /// The transition on the outcome of the effect in flight.
    pub open spec fn on_outcome(self, outcome: OutcomeView, draws: DrawsView) -> Step {
        match self.stage {
            Stage::Idle => self.stay(),
            Stage::FetchingAddress => match outcome.address() {
                Ok(address) => self.emit(MessageView::NewAddress(address)).finish(),
                Err(error) => self.report("Fail to get new address: "@, error).finish(),
            },
            Stage::SelfAddress { blocks } => match outcome.address() {
                Ok(address) => self.generate_to_address(blocks, address),
                Err(error) => self.fail_generate(error),
            },
            Stage::Generating => match outcome.failure() {
                None => self.finish_generate(),
                Some(failure) => self.fail_generate(ErrorView::Rpc(failure)),
            },
            Stage::DescriptorBlock { next, left } => match outcome.failure() {
                None => self.emit(MessageView::IncrementGenerateDescriptorIndex).descriptor_block(
                    next as nat + 1,
                    left,
                ),
                Some(failure) => self.fail_generate(ErrorView::Rpc(failure)),
            },
            Stage::Sending => match outcome.failure() {
                None => self.finish_send(),
                Some(failure) => self.fail_send(ErrorView::Rpc(failure)),
            },
            Stage::DescriptorPayment { next, left, amount_min, amount_max } => match outcome.failure() {
                None => self.emit(MessageView::IncrementSendDescriptorIndex).descriptor_payment(
                    next as nat + 1,
                    left,
                    amount_min,
                    amount_max,
                    draws.amount,
                ),
                Some(failure) => self.fail_send(ErrorView::Rpc(failure)),
            },
            Stage::PacedPayment { next, left } => match outcome.failure() {
                None => ActorView::conclude_paced(
                    self.paced_payment(next as nat + 1, left, draws.amount),
                ),
                Some(failure) => self.fail_paced(ErrorView::Rpc(failure)),
            },
            Stage::RefreshHeight => ActorView { height: outcome, ..self }.perform(
                Stage::RefreshBalance,
                EffectView::GetBalance,
            ),
            Stage::RefreshBalance => ActorView { height: OutcomeView::Done, ..self }.update_data(
                self.height,
                outcome,
            ).finish(),
            _ => self.on_bootstrap_outcome(outcome),
        }
    }
}

impl ActorView {
    /// The mining gate is closed only while something is in flight.
    pub open spec fn gate_is_sound(self) -> bool {
        self.stage == Stage::Idle ==> !self.mining_busy
    }
}

/// Connecting twice: a `Connect` that finds a connection in place leaves the
/// connection and the credentials as they are, tells the controller again
/// that the actor is connected, and opens no clients: all it asks for is
/// the refresh.
pub proof fn connect_when_connected_opens_nothing(actor: ActorView, draws: DrawsView)
    requires
        actor.stage == Stage::Idle,
        actor.connected,
    ensures
        actor.on_message(MessageView::Connect, draws).effect == Some(EffectView::GetBlockchainInfo),
        actor.on_message(MessageView::Connect, draws).next == (ActorView {
            stage: Stage::RefreshHeight,
            outbox: actor.outbox.push(MessageView::SendMessage("Already connected!"@)).push(
                MessageView::Connected(true),
            ),
            ..actor
        }),
{
}

/// Without credentials a `Connect` fails with `CredentialMissing`: the
/// controller gets the diagnostic and `Connected(false)`, nothing is asked
/// for, and the actor is idle again.
pub proof fn connect_without_credentials_fails(actor: ActorView, draws: DrawsView)
    requires
        actor.stage == Stage::Idle,
        !actor.connected,
        actor.address.is_none() || actor.auth.is_none(),
    ensures
        actor.on_message(MessageView::Connect, draws).effect.is_none(),
        actor.on_message(MessageView::Connect, draws).next == (ActorView {
            mining_busy: false,
            outbox: actor.outbox.push(
                MessageView::SendMessage("Fail to connect: "@ + "CredentialMissing"@),
            ).push(MessageView::Connected(false)),
            ..actor
        }),
{
}

/// A wallet that does not exist is created exactly once. A `Connect` with
/// credentials opens the clients and asks to load the wallet. When that
/// fails with code -18, the bootstrap asks for `CreateWallet`; once that is
/// done it asks for `SetTxFee`, then for the installation of the clients,
/// and then the actor is connected and says so, and only the refresh is
/// left. No step but the one after the failed load asks for `CreateWallet`.
pub proof fn missing_wallet_is_created_once(
    actor: ActorView,
    open: OutcomeView,
    load: OutcomeView,
    create: OutcomeView,
    fee: OutcomeView,
    install: OutcomeView,
    draws: DrawsView,
)
    requires
        actor.stage == Stage::Idle,
        !actor.connected,
        actor.address.is_some(),
        actor.auth.is_some(),
        open.failure().is_none(),
        load matches OutcomeView::Failed(failure) && failure.code == Some(-18i32),
        create.failure().is_none(),
        fee.failure().is_none(),
    ensures
        ({
            let opened = actor.on_message(MessageView::Connect, draws);
            let loaded = opened.next.on_outcome(open, draws);
            let created = loaded.next.on_outcome(load, draws);
            let charged = created.next.on_outcome(create, draws);
            let installed = charged.next.on_outcome(fee, draws);
            let connected = installed.next.on_outcome(install, draws);
            &&& opened.effect == Some(
                EffectView::OpenClients {
                    address: actor.address.unwrap(),
                    wallet_address: wallet_endpoint(actor.address.unwrap()),
                    auth: actor.auth.unwrap(),
                },
            )
            &&& loaded.effect == Some(EffectView::LoadWallet)
            &&& created.effect == Some(EffectView::CreateWallet)
            &&& charged.effect == Some(EffectView::SetTxFee)
            &&& installed.effect == Some(EffectView::InstallClients)
            &&& connected.effect == Some(EffectView::GetBlockchainInfo)
            &&& connected.next == (ActorView {
                connected: true,
                stage: Stage::RefreshHeight,
                outbox: actor.outbox.push(MessageView::Connected(true)),
                ..actor
            })
        }),
{
}

/// A wallet that is loaded already is never created. When loading the
/// wallet fails with code -35, the bootstrap goes straight on to
/// `SetTxFee` and to the installation of the clients, and the actor is
/// connected.
pub proof fn loaded_wallet_is_not_created(
    actor: ActorView,
    open: OutcomeView,
    load: OutcomeView,
    fee: OutcomeView,
    install: OutcomeView,
    draws: DrawsView,
)
    requires
        actor.stage == Stage::Idle,
        !actor.connected,
        actor.address.is_some(),
        actor.auth.is_some(),
        open.failure().is_none(),
        load matches OutcomeView::Failed(failure) && failure.code == Some(-35i32),
        fee.failure().is_none(),
    ensures
        ({
            let opened = actor.on_message(MessageView::Connect, draws);
            let loaded = opened.next.on_outcome(open, draws);
            let charged = loaded.next.on_outcome(load, draws);
            let installed = charged.next.on_outcome(fee, draws);
            let connected = installed.next.on_outcome(install, draws);
            &&& opened.effect is Some && opened.effect.unwrap() is OpenClients
            &&& loaded.effect == Some(EffectView::LoadWallet)
            &&& charged.effect == Some(EffectView::SetTxFee)
            &&& installed.effect == Some(EffectView::InstallClients)
            &&& connected.effect == Some(EffectView::GetBlockchainInfo)
            &&& connected.next == (ActorView {
                connected: true,
                stage: Stage::RefreshHeight,
                outbox: actor.outbox.push(MessageView::Connected(true)),
                ..actor
            })
        }),
{
}

/// Only a wallet that does not exist is created: whatever the stage and the
/// outcome, `CreateWallet` is asked for only where loading the wallet
/// failed with code -18.
pub proof fn create_wallet_only_after_code_18(
    actor: ActorView,
    outcome: OutcomeView,
    draws: DrawsView,
)
    requires
        actor.on_outcome(outcome, draws).effect == Some(EffectView::CreateWallet),
    ensures
        actor.stage is Loading,
        outcome matches OutcomeView::Failed(failure) && failure.code == Some(-18i32),
{
}

/// Any other failure of loading the wallet is fatal for the bootstrap of a
/// connection: the controller gets the diagnostic and `Connected(false)`,
/// and the actor is idle and not connected.
pub proof fn other_load_failure_is_fatal(actor: ActorView, outcome: OutcomeView, draws: DrawsView)
    requires
        actor.stage == Stage::Loading(Purpose::Connect),
        !actor.connected,
        outcome matches OutcomeView::Failed(failure) && failure.code != Some(-18i32)
            && failure.code != Some(-35i32),
    ensures
        actor.on_outcome(outcome, draws).effect.is_none(),
        actor.on_outcome(outcome, draws).next == (ActorView {
            stage: Stage::Idle,
            mining_busy: false,
            outbox: actor.outbox.push(
                MessageView::SendMessage("Fail to connect: "@ + outcome->Failed_0.message),
            ).push(MessageView::Connected(false)),
            ..actor
        }),
{
}

/// Stopping a miner that is not there does nothing: no event, no effect, no
/// change.
pub proof fn stop_without_miner_is_a_no_op(actor: ActorView, draws: DrawsView)
    requires
        !actor.auto_block,
    ensures
        actor.on_message(MessageView::StopAutoBlock, draws) == actor.stay(),
{
}

/// Stopping a registered miner asks for one stop signal and emits nothing;
/// the miner stays registered until it confirms. The confirmation,
/// `MinerStopped`, clears the registration and is passed on to the
/// controller exactly once.
pub proof fn stop_is_confirmed_once(actor: ActorView, signalled: OutcomeView, draws: DrawsView)
    requires
        actor.stage == Stage::Idle,
        actor.auto_block,
    ensures
        ({
            let asked = actor.on_message(MessageView::StopAutoBlock, draws);
            let posted = asked.next.on_outcome(signalled, draws);
            let confirmed = posted.next.on_message(MessageView::MinerStopped, draws);
            &&& asked.effect == Some(EffectView::SignalStop)
            &&& asked.next.outbox == actor.outbox
            &&& posted.effect.is_none()
            &&& posted.next == (ActorView { mining_busy: false, ..actor })
            &&& confirmed.effect.is_none()
            &&& confirmed.next == (ActorView {
                auto_block: false,
                mining_busy: false,
                outbox: actor.outbox.push(MessageView::MinerStopped),
                ..actor
            })
        }),
{
}

/// Enabling send-pacing installs the configuration as it was given, so with
/// its cursor unset the next index is its start index, whatever progress an
/// earlier configuration had made; disabling discards the configuration.
pub proof fn enabling_restarts_the_cursor(
    actor: ActorView,
    config: SendEveryBlockView,
    draws: DrawsView,
)
    requires
        actor.stage == Stage::Idle,
        config.actual_index.is_none(),
    ensures
        actor.on_message(MessageView::DisableSendEveryBlock, draws).next.send_every_block.is_none(),
        actor.on_message(MessageView::EnableSendEveryBlock(config), draws).next.send_every_block
            == Some(config),
        actor.on_message(MessageView::DisableSendEveryBlock, draws).next.on_message(
            MessageView::EnableSendEveryBlock(config),
            draws,
        ).next.send_every_block.unwrap().cursor() == config.start_index,
{
}

/// A mined block moves the cursor of the configuration past the payments
/// that are due for it, whether they can be made or not.
pub proof fn mined_block_advances_the_cursor(actor: ActorView, draws: DrawsView)
    requires
        actor.stage == Stage::Idle,
        actor.send_every_block.is_some(),
    ensures
        actor.on_message(MessageView::BlockMined, draws).next.send_every_block == Some(
            actor.send_every_block.unwrap().advanced(draws.count as nat),
        ),
{
}

/// The send-pacing configuration changes on three messages only: enabling,
/// disabling, and a mined block. No other message and no outcome touches
/// it.
pub proof fn only_three_messages_touch_the_cursor(
    actor: ActorView,
    message: MessageView,
    outcome: OutcomeView,
    draws: DrawsView,
)
    ensures
        actor.on_outcome(outcome, draws).next.send_every_block == actor.send_every_block,
        !(message is EnableSendEveryBlock || message is DisableSendEveryBlock
            || message is BlockMined) ==> actor.on_message(message, draws).next.send_every_block
            == actor.send_every_block,
{
}

/// A generate command that arrives while the mining gate is closed is
/// dropped: nothing changes, and nothing is asked for.
pub proof fn closed_gate_drops_generate(actor: ActorView, message: MessageView, draws: DrawsView)
    requires
        actor.mining_busy,
        message is Generate || message is GenerateToSelf || message is GenerateToAddress
            || message is GenerateToDescriptor,
    ensures
        actor.on_message(message, draws) == actor.stay(),
{
}

/// The mining gate opens again whatever comes of the work: after any
/// transition that leaves nothing in flight, it is open.
pub proof fn gate_reopens(
    actor: ActorView,
    message: MessageView,
    outcome: OutcomeView,
    draws: DrawsView,
)
    requires
        actor.gate_is_sound(),
    ensures
        actor.on_message(message, draws).next.gate_is_sound(),
        actor.on_outcome(outcome, draws).next.gate_is_sound(),
{
}

/// Nothing is lost from the outbox: a transition only appends events.
pub proof fn outbox_only_grows(
    actor: ActorView,
    message: MessageView,
    outcome: OutcomeView,
    draws: DrawsView,
)
    ensures
        actor.outbox.is_prefix_of(actor.on_message(message, draws).next.outbox),
        actor.outbox.is_prefix_of(actor.on_outcome(outcome, draws).next.outbox),
{
    assert forall|events: Seq<MessageView>, event: MessageView|
        actor.outbox.is_prefix_of(events) implies actor.outbox.is_prefix_of(
        #[trigger] events.push(event),
    ) by {}
}

/// One input to the actor: a message from the mailbox or the outcome of the
/// effect in flight, each with what chance contributes to its transition.
pub enum InputView {
    Message(MessageView, DrawsView),
    Outcome(OutcomeView, DrawsView),
}

impl InputView {
    /// Whether the input enables or disables send-pacing.
    pub open spec fn sets_pacing(self) -> bool {
        self matches InputView::Message(message, _) && (message is EnableSendEveryBlock
            || message is DisableSendEveryBlock)
    }
}

impl ActorView {
    /// The transition on an input.
    pub open spec fn on_input(self, input: InputView) -> Step {
        match input {
            InputView::Message(message, draws) => self.on_message(message, draws),
            InputView::Outcome(outcome, draws) => self.on_outcome(outcome, draws),
        }
    }

    /// The state after a run of inputs.
    pub open spec fn after(self, inputs: Seq<InputView>) -> ActorView
        decreases inputs.len(),
    {
        if inputs.len() == 0 {
            self
        } else {
            self.after(inputs.drop_last()).on_input(inputs.last()).next
        }
    }

    /// The numbers of paced payments that were due for the mined blocks of
    /// a run of inputs, in their order. A `BlockMined` that arrives while an
    /// effect is in flight is dropped and does not count.
    pub open spec fn block_counts(self, inputs: Seq<InputView>) -> Seq<nat>
        decreases inputs.len(),
    {
        if inputs.len() == 0 {
            Seq::empty()
        } else {
            let counts = self.block_counts(inputs.drop_last());
            match inputs.last() {
                InputView::Message(MessageView::BlockMined, draws) => if self.after(
                    inputs.drop_last(),
                ).stage == Stage::Idle {
                    counts.push(draws.count as nat)
                } else {
                    counts
                },
                _ => counts,
            }
        }
    }
}

/// Over any run of inputs that neither enables nor disables send-pacing,
/// the configuration changes by its mined blocks alone: it is the
/// configuration from before the run, advanced once for each mined block by
/// the number of payments that were due for it.
pub proof fn pacing_follows_the_mined_blocks(
    actor: ActorView,
    config: SendEveryBlockView,
    inputs: Seq<InputView>,
)
    requires
        actor.send_every_block == Some(config),
        forall|i: int| 0 <= i < inputs.len() ==> !(#[trigger] inputs[i]).sets_pacing(),
    ensures
        actor.after(inputs).send_every_block == Some(
            config.after_blocks(actor.block_counts(inputs)),
        ),
    decreases inputs.len(),
{
    if inputs.len() > 0 {
        let earlier = inputs.drop_last();
        assert forall|i: int| 0 <= i < earlier.len() implies !(#[trigger] earlier[i]).sets_pacing() by {
            assert(earlier[i] == inputs[i]);
        }
        pacing_follows_the_mined_blocks(actor, config, earlier);
        let before = actor.after(earlier);
        let counts = actor.block_counts(earlier);
        match inputs.last() {
            InputView::Message(message, draws) => {
                if message is BlockMined && before.stage == Stage::Idle {
                    mined_block_advances_the_cursor(before, draws);
                    let longer = counts.push(draws.count as nat);
                    assert(longer.drop_last() =~= counts);
                } else if message is BlockMined {
                } else {
                    only_three_messages_touch_the_cursor(
                        before,
                        message,
                        OutcomeView::Done,
                        draws,
                    );
                }
            },
            InputView::Outcome(outcome, draws) => {
                only_three_messages_touch_the_cursor(
                    before,
                    MessageView::Connect,
                    outcome,
                    draws,
                );
            },
        }
    }
}

/// Cursor accounting: after send-pacing was enabled with its cursor unset
/// and a run of inputs followed that neither enables nor disables it, the
/// cursor stands at the start index plus the payments that were due for
/// the mined blocks of the run, as long as that is a valid index.
pub proof fn cursor_counts_the_paced_payments(
    actor: ActorView,
    config: SendEveryBlockView,
    draws: DrawsView,
    inputs: Seq<InputView>,
)
    requires
        actor.stage == Stage::Idle,
        config.actual_index.is_none(),
        forall|i: int| 0 <= i < inputs.len() ==> !(#[trigger] inputs[i]).sets_pacing(),
        config.start_index + total_count(
            actor.on_message(MessageView::EnableSendEveryBlock(config), draws).next.block_counts(
                inputs,
            ),
        ) <= u32::MAX,
    ensures
        ({
            let enabled = actor.on_message(MessageView::EnableSendEveryBlock(config), draws).next;
            enabled.after(inputs).send_every_block.is_some() && enabled.after(
                inputs,
            ).send_every_block.unwrap().cursor() == config.start_index + total_count(
                enabled.block_counts(inputs),
            )
        }),
{
    let enabled = actor.on_message(MessageView::EnableSendEveryBlock(config), draws).next;
    pacing_follows_the_mined_blocks(enabled, config, inputs);
    cursor_accounts_for_every_transaction(config, enabled.block_counts(inputs));
}

/// For the lifetime of one enabled configuration the cursor never moves
/// back: over any run of inputs that neither enables nor disables
/// send-pacing, the cursor ends where it started or further on.
pub proof fn cursor_never_moves_back(
    actor: ActorView,
    config: SendEveryBlockView,
    inputs: Seq<InputView>,
)
    requires
        actor.send_every_block == Some(config),
        forall|i: int| 0 <= i < inputs.len() ==> !(#[trigger] inputs[i]).sets_pacing(),
    ensures
        actor.after(inputs).send_every_block.is_some(),
        actor.after(inputs).send_every_block.unwrap().cursor() >= config.cursor(),
{
    pacing_follows_the_mined_blocks(actor, config, inputs);
    cursor_is_monotonic_over_blocks(config, actor.block_counts(inputs));
}

/// The mining gate is closed only while something is in flight, whatever
/// the run of inputs.
pub proof fn gate_stays_sound(actor: ActorView, inputs: Seq<InputView>)
    requires
        actor.gate_is_sound(),
    ensures
        actor.after(inputs).gate_is_sound(),
    decreases inputs.len(),
{
    if inputs.len() > 0 {
        gate_stays_sound(actor, inputs.drop_last());
        let before = actor.after(inputs.drop_last());
        match inputs.last() {
            InputView::Message(message, draws) => {
                gate_reopens(before, message, OutcomeView::Done, draws);
            },
            InputView::Outcome(outcome, draws) => {
                gate_reopens(before, MessageView::Connect, outcome, draws);
            },
        }
    }
}

/// The registration of a miner is cleared by its confirmation alone: if a
/// transition ends with no miner registered where one was before, its
/// input was the message `MinerStopped`, taken while nothing was in flight.
pub proof fn registration_is_cleared_by_confirmation_only(actor: ActorView, input: InputView)
    requires
        actor.auto_block,
        !actor.on_input(input).next.auto_block,
    ensures
        actor.stage == Stage::Idle,
        input matches InputView::Message(message, _) && message is MinerStopped,
{
}

/// A miner is registered by a spawn alone: if a transition ends with a
/// miner registered where none was before, its input was the outcome of
/// `SpawnMiner`.
pub proof fn registration_follows_a_spawn(actor: ActorView, input: InputView)
    requires
        !actor.auto_block,
        actor.on_input(input).next.auto_block,
    ensures
        actor.stage == Stage::Spawning,
        input is Outcome,
{
}

/// A connection is made by an installation alone, and given up on
/// `Disconnect` alone.
pub proof fn connection_changes_on_install_and_disconnect(actor: ActorView, input: InputView)
    ensures
        !actor.connected && actor.on_input(input).next.connected ==> actor.stage
            == Stage::Installing && input is Outcome,
        actor.connected && !actor.on_input(input).next.connected ==> actor.stage == Stage::Idle
            && (input matches InputView::Message(message, _) && message is Disconnect),
{
}

/// The refresh tells the controller the chain height, then the balance,
/// each if and only if the node told it: a height or a balance that could
/// not be had is left out and does not keep the other back. When the
/// refresh is through, the dispatch is finished: nothing is in flight, the
/// mining gate is open, and nothing else of the actor has changed.
pub proof fn refresh_tells_tip_then_balance(
    actor: ActorView,
    height: OutcomeView,
    balance: OutcomeView,
    draws: DrawsView,
)
    requires
        actor.connected,
    ensures
        ({
            let asked = actor.conclude();
            let told = asked.next.on_outcome(height, draws);
            let done = told.next.on_outcome(balance, draws);
            let tip = match height.height() {
                Ok(h) => seq![MessageView::UpdateBlockchainTip(h)],
                Err(_) => Seq::empty(),
            };
            let funds = match balance.balance() {
                Ok(b) => seq![MessageView::UpdateBalance(b)],
                Err(_) => Seq::empty(),
            };
            &&& asked.effect == Some(EffectView::GetBlockchainInfo)
            &&& told.effect == Some(EffectView::GetBalance)
            &&& done.effect.is_none()
            &&& done.next == (ActorView {
                stage: Stage::Idle,
                mining_busy: false,
                height: OutcomeView::Done,
                outbox: actor.outbox + tip + funds,
                ..actor
            })
        }),
{
    let asked = actor.conclude();
    let told = asked.next.on_outcome(height, draws);
    let done = told.next.on_outcome(balance, draws);
    let tip = match height.height() {
        Ok(h) => seq![MessageView::UpdateBlockchainTip(h)],
        Err(_) => Seq::empty(),
    };
    let funds = match balance.balance() {
        Ok(b) => seq![MessageView::UpdateBalance(b)],
        Err(_) => Seq::empty(),
    };
    assert(done.next.outbox =~= actor.outbox + tip + funds);
}

/// The refresh changes the outbox alone, and without a connection not even
/// that; concluding a dispatch without a connection asks for no call and
/// only finishes the work.
pub proof fn refresh_leaves_the_state_alone(
    actor: ActorView,
    height: OutcomeView,
    balance: OutcomeView,
)
    ensures
        actor.update_data(height, balance) == (ActorView {
            outbox: actor.update_data(height, balance).outbox,
            ..actor
        }),
        !actor.connected ==> actor.update_data(height, balance) == actor,
        !actor.connected ==> actor.conclude() == actor.finish(),
{
}

} // verus!
