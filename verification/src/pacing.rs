//! The send-pacing engine: how many payments a mined block triggers, how
//! much each one pays, and which derivation indices they use.
//!
//! The count approximates a target rate of `count` transactions per `blocks`
//! mined blocks by a random draw per block. It is a heuristic, kept with its
//! exact thresholds; it is not a calibrated rate process.

use vstd::prelude::*;
use rand::Rng;
use crate::bitcoind::BitcoinD;
use crate::message::{SendEveryBlock, SendEveryBlockView};

verus! {

/// Fixed-point scale of the rate.
pub const MULTIPLIER: u64 = 10_000;

/// Ceiling of the rate, in transactions per block.
pub const MAX_TX_PER_BLOCK: u64 = 10_000;

/// The quotient `numerator / denominator` rounded to the nearest integer,
/// a half upwards.
pub open spec fn rounded_quotient(numerator: nat, denominator: nat) -> nat
    recommends
        denominator > 0,
{
    (2 * numerator + denominator) / (2 * denominator)
}

/// The rounded quotient is the one integer within a half of the exact
/// quotient, the upper one of two: twice the distance, taken times the
/// denominator, is at most the denominator below and less than it above.
pub proof fn rounded_quotient_is_nearest(numerator: nat, denominator: nat)
    requires
        denominator > 0,
    ensures
        2 * denominator * rounded_quotient(numerator, denominator) <= 2 * numerator + denominator,
        2 * numerator + denominator < 2 * denominator * (rounded_quotient(numerator, denominator)
            + 1),
{
    let n = 2 * numerator + denominator;
    let d = 2 * denominator;
    assert(d * (n / d) <= n < d * (n / d + 1)) by (nonlinear_arith)
        requires
            d > 0,
            n >= 0,
    ;
}

/// The target rate `count / blocks`, capped at `MAX_TX_PER_BLOCK`, scaled by
/// `MULTIPLIER` and rounded to the nearest integer. With no blocks to spread
/// the count over, the rate is the cap.
pub open spec fn scaled_rate_of(count: u32, blocks: u32) -> nat {
    if blocks == 0 || count as nat >= MAX_TX_PER_BLOCK as nat * blocks as nat {
        (MAX_TX_PER_BLOCK * MULTIPLIER) as nat
    } else {
        rounded_quotient(count as nat * MULTIPLIER as nat, blocks as nat)
    }
}

/// The exclusive upper end of the range from which the draw for a scaled
/// rate is taken; the range starts at zero.
pub open spec fn draw_bound(scaled: nat) -> nat {
    if scaled <= MULTIPLIER {
        MULTIPLIER as nat
    } else {
        scaled
    }
}

/// The number of transactions that a draw stands for.
///
/// At a rate of at most one transaction per block, one transaction is
/// emitted if the draw exceeds the scaled rate. At a higher rate, a draw
/// above the multiplier emits the whole number of multipliers in it.
pub open spec fn tx_count_of(scaled: nat, draw: nat) -> nat {
    if scaled <= MULTIPLIER {
        if draw > scaled {
            1
        } else {
            0
        }
    } else if draw > MULTIPLIER {
        draw / (MULTIPLIER as nat)
    } else {
        0
    }
}

/// Whether `count` is among the transaction counts that one block can
/// trigger at the target rate of `send` transactions per `block` blocks.
pub open spec fn possible_tx_count(send: u32, block: u32, count: nat) -> bool {
    exists|draw: nat|
        draw < draw_bound(scaled_rate_of(send, block)) && #[trigger] tx_count_of(
            scaled_rate_of(send, block),
            draw,
        ) == count
}

/// Whatever the rate and the draw, a block triggers fewer transactions than
/// the cap.
pub proof fn tx_count_is_capped(send: u32, block: u32, draw: nat)
    requires
        draw < draw_bound(scaled_rate_of(send, block)),
    ensures
        tx_count_of(scaled_rate_of(send, block), draw) < MAX_TX_PER_BLOCK,
{
    let scaled = scaled_rate_of(send, block);
    scaled_rate_is_bounded(send, block);
    if scaled > MULTIPLIER && draw > MULTIPLIER {
        assert(draw / 10_000 < 10_000) by (nonlinear_arith)
            requires
                draw < 100_000_000,
        ;
    }
}

/// The scaled rate never exceeds the scaled cap.
pub proof fn scaled_rate_is_bounded(count: u32, blocks: u32)
    ensures
        scaled_rate_of(count, blocks) <= MAX_TX_PER_BLOCK * MULTIPLIER,
{
    if !(blocks == 0 || count as nat >= MAX_TX_PER_BLOCK as nat * blocks as nat) {
        let c = count as nat;
        let b = blocks as nat;
        assert((2 * (c * 10_000) + b) / (2 * b) <= 100_000_000) by (nonlinear_arith)
            requires
                b > 0,
                c < 10_000 * b,
        ;
    }
}

/// Computes the scaled rate of `count` transactions per `blocks` blocks.
pub fn scaled_rate(count: u32, blocks: u32) -> (scaled: u64)
    ensures
        scaled == scaled_rate_of(count, blocks),
        scaled <= MAX_TX_PER_BLOCK * MULTIPLIER,
        blocks > 0 && count < MAX_TX_PER_BLOCK * blocks ==> 2 * blocks * scaled <= 2 * (count
            * MULTIPLIER) + blocks < 2 * blocks * (scaled + 1),
{
    proof {
        scaled_rate_is_bounded(count, blocks);
        if blocks > 0 {
            rounded_quotient_is_nearest(count as nat * MULTIPLIER as nat, blocks as nat);
        }
    }
    let wide_count: u64 = count as u64;
    let wide_blocks: u64 = blocks as u64;
    if blocks == 0 || wide_count >= MAX_TX_PER_BLOCK * wide_blocks {
        MAX_TX_PER_BLOCK * MULTIPLIER
    } else {
        (2 * (wide_count * MULTIPLIER) + wide_blocks) / (2 * wide_blocks)
    }
}

/// Computes the number of transactions that `draw` stands for at the scaled
/// rate `scaled`.
pub fn tx_count_for_draw(scaled: u64, draw: u64) -> (count: u32)
    requires
        draw < draw_bound(scaled as nat),
        scaled <= MAX_TX_PER_BLOCK * MULTIPLIER,
    ensures
        count == tx_count_of(scaled as nat, draw as nat),
        count < MAX_TX_PER_BLOCK,
{
    if scaled <= MULTIPLIER {
        if draw > scaled {
            1
        } else {
            0
        }
    } else if draw > MULTIPLIER {
        assert(draw / 10_000 < 10_000) by (nonlinear_arith)
            requires
                draw < 100_000_000,
        ;
        (draw / MULTIPLIER) as u32
    } else {
        0
    }
}

/// Draws an integer from `low..high` with `rand`'s `Rng::gen_range` on the
/// thread's generator. `gen_range` panics on an empty range, which the
/// precondition excludes; of the value no more is known than that it lies in
/// the range.
#[verifier::external_body]
fn draw_in_range(low: u64, high: u64) -> (draw: u64)
    requires
        low < high,
    ensures
        low <= draw < high,
{
    rand::thread_rng().gen_range(low..high)
}

impl BitcoinD {
    /// Draws the number of transactions to emit for one mined block, at a
    /// target rate of `send` transactions per `block` blocks.
    pub fn get_random_tx_count(send: u32, block: u32) -> (count: u32)
        ensures
            possible_tx_count(send, block, count as nat),
            count < MAX_TX_PER_BLOCK,
    {
        let scaled = scaled_rate(send, block);
        let bound = if scaled <= MULTIPLIER {
            MULTIPLIER
        } else {
            scaled
        };
        let draw = draw_in_range(0, bound);
        let count = tx_count_for_draw(scaled, draw);
        count
    }

    /// Draws an amount of at least `min` and less than `max` satoshis.
    pub fn random_amount(min: u64, max: u64) -> (amount: u64)
        requires
            min < max,
        ensures
            min <= amount < max,
    {
        draw_in_range(min, max)
    }
}

/// Draws an amount of at least `min` and less than `max` satoshis, if there
/// is one.
pub fn draw_amount(min: u64, max: u64) -> (amount: Option<u64>)
    ensures
        amount.is_some() == (min < max),
        amount matches Some(a) ==> min <= a < max,
{
    if min < max {
        Some(BitcoinD::random_amount(min, max))
    } else {
        None
    }
}

impl SendEveryBlockView {
    /// The next unused derivation index: the cursor once it is set, the
    /// start index before.
    pub open spec fn cursor(self) -> u32 {
        match self.actual_index {
            Some(index) => index,
            None => self.start_index,
        }
    }

    /// The configuration after `count` more indices were used. The cursor
    /// stops at the largest index.
    pub open spec fn advanced(self, count: nat) -> SendEveryBlockView {
        SendEveryBlockView {
            actual_index: Some(
                if self.cursor() + count <= u32::MAX {
                    (self.cursor() + count) as u32
                } else {
                    u32::MAX
                },
            ),
            ..self
        }
    }

    /// The configuration after a run of blocks, of which the `i`-th
    /// triggered `counts[i]` transactions.
    pub open spec fn after_blocks(self, counts: Seq<nat>) -> SendEveryBlockView
        decreases counts.len(),
    {
        if counts.len() == 0 {
            self
        } else {
            self.after_blocks(counts.drop_last()).advanced(counts.last())
        }
    }
}

/// The sum of a run of per-block transaction counts.
pub open spec fn total_count(counts: Seq<nat>) -> nat
    decreases counts.len(),
{
    if counts.len() == 0 {
        0
    } else {
        total_count(counts.drop_last()) + counts.last()
    }
}

impl SendEveryBlock {
    /// The next unused derivation index.
    pub fn cursor(&self) -> (index: u32)
        ensures
            index == self@.cursor(),
    {
        match self.actual_index {
            Some(index) => index,
            None => self.start_index,
        }
    }

    /// Takes `count` indices from the cursor on and moves the cursor past
    /// them. Returns the first index taken.
    pub fn advance(&mut self, count: u32) -> (first: u32)
        ensures
            first == old(self)@.cursor(),
            final(self)@ == old(self)@.advanced(count as nat),
    {
        let first = self.cursor();
        let next = if count <= u32::MAX - first {
            first + count
        } else {
            u32::MAX
        };
        self.actual_index = Some(next);
        first
    }
}

/// The cursor never moves back.
pub proof fn cursor_is_monotonic(config: SendEveryBlockView, count: nat)
    ensures
        config.advanced(count).cursor() >= config.cursor(),
{
}

/// Cursor accounting: a configuration enabled with its cursor unset, after
/// blocks that triggered `counts` transactions, has its cursor at the start
/// index plus the total of the counts, as long as that is a valid index.
/// Nothing else in the configuration changes.
pub proof fn cursor_accounts_for_every_transaction(config: SendEveryBlockView, counts: Seq<nat>)
    requires
        config.actual_index.is_none(),
        config.start_index + total_count(counts) <= u32::MAX,
    ensures
        counts.len() > 0 ==> config.after_blocks(counts).actual_index == Some(
            (config.start_index + total_count(counts)) as u32,
        ),
        config.after_blocks(counts).cursor() == config.start_index + total_count(counts),
        config.after_blocks(counts) == (SendEveryBlockView {
            actual_index: config.after_blocks(counts).actual_index,
            ..config
        }),
    decreases counts.len(),
{
    if counts.len() > 0 {
        cursor_accounts_for_every_transaction(config, counts.drop_last());
    }
}

/// Over any run of blocks the cursor never moves back.
pub proof fn cursor_is_monotonic_over_blocks(config: SendEveryBlockView, counts: Seq<nat>)
    ensures
        config.after_blocks(counts).cursor() >= config.cursor(),
    decreases counts.len(),
{
    if counts.len() > 0 {
        cursor_is_monotonic_over_blocks(config, counts.drop_last());
    }
}

} // verus!
