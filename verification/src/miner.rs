//! The background miner: a worker that mines one block per cadence tick
//! until it is told to stop.
//!
//! The worker's loop lives in its driver. Each turn of the loop asks the
//! miner what to do, with the signal that was waiting on the cancellation
//! channel, if any, and the time in milliseconds on a clock that does not
//! run backwards.

use vstd::prelude::*;
use vstd::string::*;
use crate::address::address_on_regtest;
use crate::bitcoind::BitcoinD;
use crate::effect::{Outcome, OutcomeView};
use crate::message::{AutoBlockMessage, BitcoinMessage, MessageView};

verus! {

/// What the worker does in one turn of its loop.
#[derive(Debug, PartialEq, Eq)]
pub enum MinerAction {
    /// Mine exactly one block to this throwaway address, report the outcome
    /// to the actor, then poll again.
    Mine { address: String },
    /// Yield briefly, then poll again.
    Wait,
    /// Leave the loop and tell the actor that the miner stopped.
    Exit,
    /// The miner has left its loop before: do nothing.
    Halted,
}

/// Mathematical model of a [`MinerAction`].
pub enum MinerActionView {
    Mine { address: Seq<char> },
    Wait,
    Exit,
    Halted,
}

impl View for MinerAction {
    type V = MinerActionView;

    open spec fn view(&self) -> MinerActionView {
        match *self {
            MinerAction::Mine { address } => MinerActionView::Mine { address: address@ },
            MinerAction::Wait => MinerActionView::Wait,
            MinerAction::Exit => MinerActionView::Exit,
            MinerAction::Halted => MinerActionView::Halted,
        }
    }
}

/// The state of a miner.
pub struct MinerView {
    /// The cadence: the time between two blocks, in milliseconds.
    pub delay_ms: u64,
    /// When the last block was mined, or the miner started.
    pub last_block_ms: u64,
    /// Whether the miner has left its loop.
    pub stopped: bool,
}

impl MinerView {
    /// Whether a block is due at `now_ms`: the time since the last block is
    /// at least the cadence.
    pub open spec fn due(self, now_ms: u64) -> bool {
        now_ms >= self.last_block_ms && now_ms - self.last_block_ms >= self.delay_ms
    }

    /// The action of one turn of the loop. A stop signal comes before a
    /// block that is due.
    pub open spec fn action(
        self,
        signal: Option<AutoBlockMessage>,
        now_ms: u64,
        address: Seq<char>,
    ) -> MinerActionView {
        if self.stopped {
            MinerActionView::Halted
        } else if signal.is_some() {
            MinerActionView::Exit
        } else if self.due(now_ms) {
            MinerActionView::Mine { address }
        } else {
            MinerActionView::Wait
        }
    }

    /// The state after one turn of the loop.
    pub open spec fn polled(self, signal: Option<AutoBlockMessage>, now_ms: u64) -> MinerView {
        if self.stopped {
            self
        } else if signal.is_some() {
            MinerView { stopped: true, ..self }
        } else if self.due(now_ms) {
            MinerView { last_block_ms: now_ms, ..self }
        } else {
            self
        }
    }
}

/// What the worker reports to the actor after it tried to mine a block.
pub open spec fn mined_report(outcome: OutcomeView) -> MessageView {
    match outcome.failure() {
        None => MessageView::BlockMined,
        Some(failure) => MessageView::FailMineBlock(failure.message),
    }
}

/// The background miner.
pub struct AutoBlockMiner {
    delay_ms: u64,
    last_block_ms: u64,
    stopped: bool,
}

impl View for AutoBlockMiner {
    type V = MinerView;

    closed spec fn view(&self) -> MinerView {
        MinerView {
            delay_ms: self.delay_ms,
            last_block_ms: self.last_block_ms,
            stopped: self.stopped,
        }
    }
}

impl AutoBlockMiner {
    /// A miner that starts at `now_ms` and mines a block every `delay_ms`
    /// milliseconds.
    pub fn new(delay_ms: u64, now_ms: u64) -> (miner: AutoBlockMiner)
        ensures
            miner@ == (MinerView { delay_ms, last_block_ms: now_ms, stopped: false }),
    {
        AutoBlockMiner { delay_ms, last_block_ms: now_ms, stopped: false }
    }

    /// Whether the miner has left its loop.
    pub fn is_stopped(&self) -> (stopped: bool)
        ensures
            stopped == self@.stopped,
    {
        self.stopped
    }

    /// Whether a block is due at `now_ms`.
    pub fn is_due(&self, now_ms: u64) -> (due: bool)
        ensures
            due == self@.due(now_ms),
    {
        now_ms >= self.last_block_ms && now_ms - self.last_block_ms >= self.delay_ms
    }

    /// One turn of the loop, with the throwaway address for a block that is
    /// due given as `address`.
    pub fn poll_with(&mut self, signal: Option<AutoBlockMessage>, now_ms: u64, address: String) -> (action:
        MinerAction)
        ensures
            action@ == old(self)@.action(signal, now_ms, address@),
            final(self)@ == old(self)@.polled(signal, now_ms),
    {
        if self.stopped {
            MinerAction::Halted
        } else if signal.is_some() {
            self.stopped = true;
            MinerAction::Exit
        } else if self.is_due(now_ms) {
            self.last_block_ms = now_ms;
            MinerAction::Mine { address }
        } else {
            MinerAction::Wait
        }
    }

    /// One turn of the loop. A block that is due goes to a fresh throwaway
    /// address, which is a regtest address.
    pub fn poll(&mut self, signal: Option<AutoBlockMessage>, now_ms: u64) -> (action: MinerAction)
        ensures
            exists|address: Seq<char>| action@ == #[trigger] old(self)@.action(signal, now_ms, address),
            action@ matches MinerActionView::Mine { address } ==> address_on_regtest(address)
                == Some(true),
            final(self)@ == old(self)@.polled(signal, now_ms),
    {
        let address = if !self.stopped && signal.is_none() && self.is_due(now_ms) {
            BitcoinD::get_random_address()
        } else {
            String::new()
        };
        self.poll_with(signal, now_ms, address)
    }

    /// The report to the actor after the worker tried to mine a block:
    /// `BlockMined`, or `FailMineBlock` with the reason. A failure does not
    /// stop the miner.
    pub fn report(outcome: Outcome) -> (message: BitcoinMessage)
        ensures
            message@ == mined_report(outcome@),
    {
        match outcome.failure() {
            None => BitcoinMessage::BlockMined,
            Some(failure) => BitcoinMessage::FailMineBlock(failure.message),
        }
    }

    /// The report to the actor when the worker leaves its loop.
    pub fn farewell() -> (message: BitcoinMessage)
        ensures
            message@ == MessageView::MinerStopped,
    {
        BitcoinMessage::MinerStopped
    }
}

/// A stop signal ends the loop at the next turn, and only once: the turn
/// that takes the signal exits, and every turn after it finds the miner
/// halted, whatever it is given.
pub proof fn stop_signal_ends_the_loop_once(
    miner: MinerView,
    now_ms: u64,
    address: Seq<char>,
    later_signal: Option<AutoBlockMessage>,
    later_ms: u64,
    later_address: Seq<char>,
)
    requires
        !miner.stopped,
    ensures
        miner.action(Some(AutoBlockMessage::Stop), now_ms, address) == MinerActionView::Exit,
        miner.polled(Some(AutoBlockMessage::Stop), now_ms).stopped,
        miner.polled(Some(AutoBlockMessage::Stop), now_ms).action(
            later_signal,
            later_ms,
            later_address,
        ) == MinerActionView::Halted,
        miner.polled(Some(AutoBlockMessage::Stop), now_ms).polled(later_signal, later_ms)
            == miner.polled(Some(AutoBlockMessage::Stop), now_ms),
{
}

/// Without a stop signal a running miner never leaves its loop: it mines
/// when a block is due, waits otherwise, and keeps running. A block that
/// was mined resets the baseline, so that no second block is due at the
/// same time, unless the cadence is zero.
pub proof fn miner_runs_until_stopped(miner: MinerView, now_ms: u64, address: Seq<char>)
    requires
        !miner.stopped,
    ensures
        !miner.polled(None, now_ms).stopped,
        miner.action(None, now_ms, address) == if miner.due(now_ms) {
            MinerActionView::Mine { address }
        } else {
            MinerActionView::Wait
        },
        miner.due(now_ms) ==> !miner.polled(None, now_ms).due(now_ms) || miner.delay_ms == 0,
{
}

} // verus!
