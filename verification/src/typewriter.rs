//! Timed text reveal: a per-text cursor that uncovers one character per
//! interval of accumulated elapsed time, catching up after delayed ticks
//! without ever skipping a character.

use vstd::prelude::*;
use vstd::arithmetic::div_mod::{
    lemma_fundamental_div_mod_converse, lemma_div_by_multiple, lemma_div_is_ordered,
    lemma_div_pos_is_pos, lemma_fundamental_div_mod, lemma_mod_division_less_than_divisor,
};
use vstd::arithmetic::mul::lemma_mul_inequality;
use vstd::string::StrSliceExecFns;

verus! {

/// The reveal cursor for one displayed text. A fresh cursor is constructed
/// for every new text; an existing cursor's text is never swapped out.
pub struct TypewriterText {
    /// The complete text being revealed.
    pub full_text: String,
    /// How many characters of `full_text` are currently visible.
    pub char_index: usize,
    /// Milliseconds of accumulated time per revealed character.
    pub interval_ms: u64,
    /// Elapsed time not yet converted into revealed characters.
    pub accumulator_ms: u64,
}

impl TypewriterText {
    /// Validity: the interval is positive and the cursor never points past
    /// the end of the text.
    pub open spec fn wf(&self) -> bool {
        &&& self.interval_ms >= 1
        &&& self.char_index <= self.full_text@.len()
    }

    /// A fresh cursor over `text`, nothing revealed yet.
    pub fn new(text: &str, interval_ms: u64) -> (r: TypewriterText)
        requires
            interval_ms >= 1,
        ensures
            r.full_text@ == text@,
            r.char_index == 0,
            r.interval_ms == interval_ms,
            r.accumulator_ms == 0,
            r.wf(),
    {
        TypewriterText {
            full_text: text.to_owned(),
            char_index: 0,
            interval_ms,
            accumulator_ms: 0,
        }
    }

    /// Whether the whole text is revealed.
    pub fn is_finished(&self) -> (r: bool)
        ensures
            r == (self.char_index >= self.full_text@.len()),
    {
        self.char_index >= self.full_text.as_str().unicode_len()
    }

    /// Reveal everything at once, leaving the rest of the cursor untouched.
    pub fn fast_forward(&mut self)
        ensures
            final(self).char_index == old(self).full_text@.len(),
            final(self).full_text == old(self).full_text,
            final(self).interval_ms == old(self).interval_ms,
            final(self).accumulator_ms == old(self).accumulator_ms,
            old(self).interval_ms >= 1 ==> final(self).wf(),
    {
        self.char_index = self.full_text.as_str().unicode_len();
    }

    /// The currently visible prefix of the text.
    pub fn current_text(&self) -> (r: String)
        ensures
            r@ == self.full_text@.subrange(
                0,
                vstd::math::min(self.char_index as int, self.full_text@.len() as int),
            ),
    {
        let len = self.full_text.as_str().unicode_len();
        let upto = if self.char_index < len {
            self.char_index
        } else {
            len
        };
        let shown = self.full_text.as_str().substring_char(0, upto);
        shown.to_owned()
    }

    /// Accumulate `elapsed_ms` and reveal one character per full interval
    /// contained in the accumulator, stopping at the end of the text.
    /// The revealed count never decreases and the text never changes.
    pub fn tick(&mut self, elapsed_ms: u64)
        requires
            old(self).wf(),
        ensures
            *final(self) == tick_spec(*old(self), elapsed_ms),
            final(self).char_index >= old(self).char_index,
            final(self).full_text == old(self).full_text,
            final(self).wf(),
    {
        let total: u64 = if elapsed_ms <= u64::MAX - self.accumulator_ms {
            self.accumulator_ms + elapsed_ms
        } else {
            u64::MAX
        };
        self.accumulator_ms = total;
        let len = self.full_text.as_str().unicode_len();
        let ghost idx0 = self.char_index as int;
        let ghost interval = self.interval_ms as int;
        while self.accumulator_ms >= self.interval_ms && self.char_index < len
            invariant
                self.full_text == old(self).full_text,
                self.interval_ms == old(self).interval_ms,
                len == self.full_text@.len(),
                idx0 == old(self).char_index,
                interval == self.interval_ms,
                interval >= 1,
                idx0 <= self.char_index <= len,
                interval * (self.char_index - idx0) + self.accumulator_ms == tick_total(
                    *old(self),
                    elapsed_ms,
                ),
            decreases len - self.char_index,
        {
            proof {
                assert(interval * (self.char_index + 1 - idx0) == interval * (self.char_index
                    - idx0) + interval) by (nonlinear_arith);
            }
            self.char_index = self.char_index + 1;
            self.accumulator_ms = self.accumulator_ms - self.interval_ms;
        }
        proof {
            let total_g = tick_total(*old(self), elapsed_ms);
            let steps = self.char_index - idx0;
            assert(interval * steps + self.accumulator_ms == total_g);
            assert(steps * interval == interval * steps) by (nonlinear_arith);
            lemma_div_pos_is_pos(total_g, interval);
            if self.accumulator_ms < self.interval_ms {
                lemma_fundamental_div_mod_converse(
                    total_g,
                    interval,
                    steps,
                    self.accumulator_ms as int,
                );
                assert(steps == total_g / interval);
            } else {
                assert(self.char_index == len);
                lemma_div_by_multiple(steps, interval);
                assert((steps * interval) / interval == steps);
                lemma_div_is_ordered(steps * interval, total_g, interval);
                assert(steps <= total_g / interval);
            }
            assert(steps == vstd::math::min(len - idx0, total_g / interval));
        }
    }
}

/// The accumulator after adding `elapsed_ms`, saturating at the largest
/// representable value.
pub open spec fn tick_total(t: TypewriterText, elapsed_ms: u64) -> int {
    if t.accumulator_ms + elapsed_ms <= u64::MAX {
        t.accumulator_ms + elapsed_ms
    } else {
        u64::MAX as int
    }
}

/// What one `tick` does: the accumulated time, divided by the interval,
/// bounds how many further characters are revealed; whole intervals spent
/// on revealed characters are drained from the accumulator.
pub open spec fn tick_spec(t: TypewriterText, elapsed_ms: u64) -> TypewriterText {
    let total = tick_total(t, elapsed_ms);
    let steps = vstd::math::min(
        t.full_text@.len() - t.char_index,
        total / (t.interval_ms as int),
    );
    TypewriterText {
        char_index: (t.char_index + steps) as usize,
        accumulator_ms: (total - steps * (t.interval_ms as int)) as u64,
        ..t
    }
}

/// Whether the dialog text has finished typing out.
pub fn is_dialog_text_finished(typewriter: &TypewriterText) -> (r: bool)
    ensures
        r == (typewriter.char_index >= typewriter.full_text@.len()),
{
    typewriter.is_finished()
}

/// The cursor after `n` ticks of `elapsed_ms` each.
pub open spec fn ticks(t: TypewriterText, elapsed_ms: u64, n: nat) -> TypewriterText
    decreases n,
{
    if n == 0 {
        t
    } else {
        tick_spec(ticks(t, elapsed_ms, (n - 1) as nat), elapsed_ms)
    }
}

/// Ticking makes progress: over any run of ticks the revealed count never
/// decreases and the text never changes; and when each tick carries at
/// least one full interval, every tick reveals at least one further
/// character until the text is exhausted — so the cursor reaches the end
/// of the text within as many ticks as the text has characters.
proof fn lemma_ticks_shift(t: TypewriterText, elapsed_ms: u64, n: nat)
    requires
        n >= 1,
    ensures
        ticks(t, elapsed_ms, n) == ticks(tick_spec(t, elapsed_ms), elapsed_ms, (n - 1) as nat),
    decreases n,
{
    if n == 1 {
        assert(ticks(t, elapsed_ms, 0) == t);
        assert(ticks(tick_spec(t, elapsed_ms), elapsed_ms, 0) == tick_spec(t, elapsed_ms));
    } else {
        lemma_ticks_shift(t, elapsed_ms, (n - 1) as nat);
    }
}

/// Ticking at any positive pace completes the reveal. Every character
/// still hidden costs at most one interval of accumulated time, and each
/// tick pays at least one millisecond of it, so from any cursor whose
/// accumulator has not outrun the interval (true of a fresh cursor and
/// preserved by every tick) the whole text is revealed once the ticks
/// have covered the milliseconds still owed; the revealed count never
/// decreases and the text never changes along the way.
pub proof fn lemma_typewriter_completes_any_pace(t: TypewriterText, elapsed_ms: u64, n: nat)
    requires
        t.wf(),
        t.full_text@.len() <= usize::MAX,
        elapsed_ms >= 1,
        t.accumulator_ms < t.interval_ms || t.char_index >= t.full_text@.len(),
    ensures
        ticks(t, elapsed_ms, n).wf(),
        ticks(t, elapsed_ms, n).full_text == t.full_text,
        ticks(t, elapsed_ms, n).interval_ms == t.interval_ms,
        ticks(t, elapsed_ms, n).char_index >= t.char_index,
        n + t.char_index * t.interval_ms + t.accumulator_ms >= t.full_text@.len()
            * t.interval_ms ==> ticks(t, elapsed_ms, n).char_index == t.full_text@.len(),
    decreases n,
{
    let len = t.full_text@.len() as int;
    let interval = t.interval_ms as int;
    if n == 0 {
        if t.char_index < len {
            assert(t.char_index * interval + interval == (t.char_index + 1) * interval)
                by (nonlinear_arith);
            lemma_mul_inequality(t.char_index + 1, len, interval);
        }
    } else {
        lemma_ticks_shift(t, elapsed_ms, n);
        let t1 = tick_spec(t, elapsed_ms);
        let total = tick_total(t, elapsed_ms);
        let steps = vstd::math::min(len - t.char_index, total / interval);
        lemma_div_pos_is_pos(total, interval);
        lemma_fundamental_div_mod(total, interval);
        lemma_mod_division_less_than_divisor(total, interval);
        lemma_mul_inequality(steps, total / interval, interval);
        assert((total / interval) * interval == interval * (total / interval))
            by (nonlinear_arith);
        assert(steps * interval <= total);
        lemma_mul_inequality(0, steps, interval);
        assert(t1.char_index == t.char_index + steps);
        assert(t1.accumulator_ms == total - steps * interval);
        if t.char_index >= len {
            // nothing left to reveal; every later tick keeps the cursor there
            lemma_typewriter_completes_any_pace(t1, elapsed_ms, (n - 1) as nat);
        } else {
            // one tick pays at least one millisecond toward what is owed:
            // the revealed time plus the accumulator grows by `total - acc`
            assert((t.char_index + steps) * interval == t.char_index * interval + steps
                * interval) by (nonlinear_arith);
            assert(t1.char_index * interval + t1.accumulator_ms == t.char_index * interval
                + total);
            assert(total >= t.accumulator_ms + 1);
            if steps < len - t.char_index {
                assert(steps == total / interval);
                assert(t1.accumulator_ms == total % interval);
            }
            lemma_typewriter_completes_any_pace(t1, elapsed_ms, (n - 1) as nat);
        }
    }
}

pub proof fn lemma_typewriter_completes(t: TypewriterText, elapsed_ms: u64, n: nat)
    requires
        t.wf(),
        t.full_text@.len() <= usize::MAX,
        elapsed_ms >= t.interval_ms,
    ensures
        ticks(t, elapsed_ms, n).wf(),
        ticks(t, elapsed_ms, n).full_text == t.full_text,
        ticks(t, elapsed_ms, n).interval_ms == t.interval_ms,
        ticks(t, elapsed_ms, n).char_index >= t.char_index,
        ticks(t, elapsed_ms, n).char_index >= vstd::math::min(
            t.full_text@.len() as int,
            t.char_index + n,
        ),
    decreases n,
{
    if n > 0 {
        let prev = ticks(t, elapsed_ms, (n - 1) as nat);
        lemma_typewriter_completes(t, elapsed_ms, (n - 1) as nat);
        let total = tick_total(prev, elapsed_ms);
        let interval = prev.interval_ms as int;
        assert(total >= interval);
        lemma_div_pos_is_pos(total, interval);
        lemma_div_by_multiple(1, interval);
        assert((1 * interval) / interval == 1);
        assert(1 * interval == interval);
        lemma_div_is_ordered(interval, total, interval);
        assert(total / interval >= 1);
    }
}

} // verus!
