//! Bookkeeping of who needs the GPU's power_dpm_force_performance_level set to
//! `manual`. Be very careful when using this: it influences the Steam Deck CPU
//! and GPU driver behaviour.

use vstd::prelude::*;

verus! {

pub const DEFAULT_BITS: u64 = 0;

pub const GPU_BIT: usize = 1;

pub const CPU_BITS_START: usize = 2;

/// Attribute (of the GPU's drm card) holding the performance level.
pub const DPM_FORCE_LIMITS_ATTRIBUTE: &'static str = "device/power_dpm_force_performance_level";

/// Whether bit `k` of `bits` is set.
pub open spec fn bit_of(bits: u64, k: u64) -> bool {
    (bits >> k) & 1u64 == 1u64
}

/// One bit per user of manual performance control: bit 1 for the GPU, bit 2 + n for CPU n.
#[derive(Debug, Clone, Copy)]
pub struct PDFPLManager {
    pub bits: u64,
}

/// What to write to the performance level attribute.
#[derive(Debug, Clone, Copy, PartialEq, Eq, Structural)]
pub enum DpmLevelAction {
    /// Write `manual`.
    SetManual,
    /// Write `auto`.
    SetAuto,
    /// Leave the level as it is.
    Keep,
}

proof fn lemma_set_bit(old_bits: u64, val: bool, bit: u64, new_bits: u64)
    requires
        bit < 64,
        new_bits == (old_bits & !(1u64 << bit)) | ((if val { 1u64 } else { 0u64 }) << bit),
    ensures
        forall|k: u64| k < 64 ==> #[trigger] bit_of(new_bits, k) == if k == bit { val } else { bit_of(old_bits, k) },
        val ==> new_bits != 0,
        (!val && old_bits == (old_bits & (1u64 << bit))) ==> new_bits == 0,
{
    let v: u64 = if val { 1u64 } else { 0u64 };
    assert(forall|k: u64| k < 64 ==> #[trigger] bit_of(new_bits, k) == if k == bit { v == 1 } else { bit_of(old_bits, k) }) by (bit_vector)
        requires bit < 64, v <= 1, new_bits == (old_bits & !(1u64 << bit)) | (v << bit);
    assert(v == 1 ==> new_bits != 0) by (bit_vector)
        requires bit < 64, v <= 1, new_bits == (old_bits & !(1u64 << bit)) | (v << bit);
    assert((v == 0 && old_bits == (old_bits & (1u64 << bit))) ==> new_bits == 0) by (bit_vector)
        requires bit < 64, v <= 1, new_bits == (old_bits & !(1u64 << bit)) | (v << bit);
}

impl PDFPLManager {
    /// A manager nobody needs manual control from.
    pub fn new() -> (r: Self)
        ensures
            r.bits == DEFAULT_BITS,
    {
        PDFPLManager { bits: DEFAULT_BITS }
    }

    #[inline]
    pub fn get(&self) -> (r: u64)
        ensures
            r == self.bits,
    {
        self.bits
    }

    #[inline]
    pub fn set(&mut self, val: u64)
        ensures
            final(self).bits == val,
    {
        self.bits = val;
    }

    /// Set or clear one bit, leaving the others.
    pub fn set_bit(&mut self, val: bool, bit: usize)
        requires
            bit < 64,
        ensures
            final(self).bits == (old(self).bits & !(1u64 << (bit as u64))) | ((if val { 1u64 } else { 0u64 }) << (bit as u64)),
            forall|k: u64| k < 64 ==> #[trigger] bit_of(final(self).bits, k) == if k == bit { val } else { bit_of(old(self).bits, k) },
    {
        let b: u64 = bit as u64;
        let bitmask: u64 = !(1u64 << b);
        let v: u64 = (if val { 1u64 } else { 0u64 }) << b;
        let new_val = (self.get() & bitmask) | v;
        self.set(new_val);
        proof {
            lemma_set_bit(old(self).bits, val, b, new_val);
        }
    }

    /// Record whether the GPU needs manual control.
    pub fn set_gpu(&mut self, manual: bool)
        ensures
            forall|k: u64| k < 64 ==> #[trigger] bit_of(final(self).bits, k) == if k == GPU_BIT { manual } else { bit_of(old(self).bits, k) },
            call_applied(*old(self), *final(self), ManualCall::Gpu(manual)),
            manual ==> final(self).bits != 0,
    {
        self.set_bit(manual, GPU_BIT);
        proof {
            lemma_set_bit(old(self).bits, manual, GPU_BIT as u64, self.bits);
        }
    }

    /// Record whether CPU `cpu` needs manual control.
    pub fn set_cpu(&mut self, manual: bool, cpu: usize)
        requires
            cpu < 62,
        ensures
            forall|k: u64| k < 64 ==> #[trigger] bit_of(final(self).bits, k) == if k == CPU_BITS_START + cpu { manual } else { bit_of(old(self).bits, k) },
            call_applied(*old(self), *final(self), ManualCall::Cpu(manual, cpu)),
            manual ==> final(self).bits != 0,
    {
        self.set_bit(manual, CPU_BITS_START + cpu);
        proof {
            lemma_set_bit(old(self).bits, manual, (CPU_BITS_START + cpu) as u64, self.bits);
        }
    }

    /// Whether anybody needs manual control.
    pub fn needs_manual(&self) -> (r: bool)
        ensures
            r == (self.bits != 0),
    {
        self.get() != 0
    }

    /// Forget every user of manual control.
    pub fn reset(&mut self)
        ensures
            final(self).bits == DEFAULT_BITS,
    {
        self.set(DEFAULT_BITS);
    }

    /// What to write to the performance level, given the level read from it.
    pub fn enforce_level_action(&self, mode: &str) -> (r: DpmLevelAction)
        ensures
            r == if mode@ != "manual"@ && self.bits != 0 {
                DpmLevelAction::SetManual
            } else if mode@ != "auto"@ && self.bits == 0 {
                DpmLevelAction::SetAuto
            } else {
                DpmLevelAction::Keep
            },
    {
        let needs = self.needs_manual();
        if !crate::settings::util::str_eq(mode, "manual") && needs {
            DpmLevelAction::SetManual
        } else if !crate::settings::util::str_eq(mode, "auto") && !needs {
            DpmLevelAction::SetAuto
        } else {
            DpmLevelAction::Keep
        }
    }
}

/// A record of whether a user needs manual control: the GPU (`set_gpu`) or CPU `n` (`set_cpu`).
pub enum ManualCall {
    Gpu(bool),
    Cpu(bool, usize),
}

/// The bit a call records.
pub open spec fn call_bit(c: ManualCall) -> u64 {
    match c {
        ManualCall::Gpu(_) => GPU_BIT as u64,
        ManualCall::Cpu(_, n) => (CPU_BITS_START + n) as u64,
    }
}

/// Whether a call says manual control is needed.
pub open spec fn call_manual(c: ManualCall) -> bool {
    match c {
        ManualCall::Gpu(m) => m,
        ManualCall::Cpu(m, _) => m,
    }
}

/// Whether a call can be made (`set_cpu` takes CPUs below 62).
pub open spec fn call_allowed(c: ManualCall) -> bool {
    match c {
        ManualCall::Gpu(_) => true,
        ManualCall::Cpu(_, n) => n < 62,
    }
}

/// Whether `after` is `before` once the call is made (what `set_gpu` and `set_cpu` ensure).
pub open spec fn call_applied(before: PDFPLManager, after: PDFPLManager, c: ManualCall) -> bool {
    forall|k: u64| k < 64 ==> #[trigger] bit_of(after.bits, k) == if k == call_bit(c) {
        call_manual(c)
    } else {
        bit_of(before.bits, k)
    }
}

/// Whether the most recent of the calls that record bit `k` says manual control is needed
/// (false when none records it).
pub open spec fn last_says_manual(calls: Seq<ManualCall>, k: u64) -> bool
    decreases calls.len(),
{
    if calls.len() == 0 {
        false
    } else if call_bit(calls.last()) == k {
        call_manual(calls.last())
    } else {
        last_says_manual(calls.drop_last(), k)
    }
}

proof fn lemma_bits_after_calls(ms: Seq<PDFPLManager>, calls: Seq<ManualCall>, j: int)
    requires
        ms.len() == calls.len() + 1,
        ms[0].bits == DEFAULT_BITS,
        forall|i: int| 0 <= i < calls.len() ==> #[trigger] call_applied(ms[i], ms[i + 1], calls[i]),
        0 <= j <= calls.len(),
    ensures
        forall|k: u64| k < 64 ==> #[trigger] bit_of(ms[j].bits, k) == last_says_manual(calls.take(j), k),
    decreases j,
{
    if j == 0 {
        assert(forall|k: u64| k < 64 ==> !#[trigger] bit_of(0u64, k)) by (bit_vector);
        assert(calls.take(0) =~= Seq::<ManualCall>::empty());
    } else {
        lemma_bits_after_calls(ms, calls, j - 1);
        let i = j - 1;
        assert(call_applied(ms[i], ms[i + 1], calls[i]));
        assert(ms[i + 1] == ms[j]);
        assert(calls.take(j).drop_last() =~= calls.take(j - 1));
        assert(calls.take(j).last() == calls[j - 1]);
    }
}

proof fn lemma_nonzero_has_bit(bits: u64)
    requires
        bits != 0,
    ensures
        exists|k: u64| k < 64 && #[trigger] bit_of(bits, k),
    decreases bits,
{
    if bits & 1 == 1 {
        assert(bit_of(bits, 0)) by (bit_vector)
            requires bits & 1 == 1;
    } else {
        let h = bits >> 1;
        assert(h != 0 && h < bits) by (bit_vector)
            requires bits != 0, bits & 1 != 1, h == bits >> 1;
        lemma_nonzero_has_bit(h);
        let k = choose|k: u64| k < 64 && #[trigger] bit_of(h, k);
        assert(k < 63 && (bits >> (k + 1)) & 1 == 1) by (bit_vector)
            requires h == bits >> 1, k < 64, (h >> k) & 1 == 1;
        assert(bit_of(bits, (k + 1) as u64));
    }
}

proof fn lemma_last_says_manual_has_call(calls: Seq<ManualCall>, k: u64)
    requires
        last_says_manual(calls, k),
    ensures
        exists|i: int| 0 <= i < calls.len() && call_bit(#[trigger] calls[i]) == k && last_says_manual(calls, call_bit(calls[i])),
    decreases calls.len(),
{
    if call_bit(calls.last()) == k {
        assert(call_bit(calls[calls.len() - 1]) == k);
    } else {
        lemma_last_says_manual_has_call(calls.drop_last(), k);
        let i = choose|i: int| 0 <= i < calls.drop_last().len() && call_bit(#[trigger] calls.drop_last()[i]) == k
            && last_says_manual(calls.drop_last(), call_bit(calls.drop_last()[i]));
        assert(calls.drop_last()[i] == calls[i]);
    }
}

/// Starting from a manager nobody needs (new, or just reset), after any sequence of `set_gpu`
/// and `set_cpu` calls, manual control is needed (`needs_manual`, which reads `bits != 0`) exactly
/// when some user's most recent call said it needs it. `ms[i]` is the manager before call `i`.
pub proof fn needs_manual_after_calls(ms: Seq<PDFPLManager>, calls: Seq<ManualCall>)
    requires
        ms.len() == calls.len() + 1,
        ms[0].bits == DEFAULT_BITS,
        forall|i: int| 0 <= i < calls.len() ==> call_allowed(#[trigger] calls[i]),
        forall|i: int| 0 <= i < calls.len() ==> #[trigger] call_applied(ms[i], ms[i + 1], calls[i]),
    ensures
        (ms.last().bits != 0) <==> exists|i: int| 0 <= i < calls.len()
            && last_says_manual(calls, call_bit(#[trigger] calls[i])),
{
    let n = calls.len() as int;
    lemma_bits_after_calls(ms, calls, n);
    assert(calls.take(n) =~= calls);
    let last = ms.last().bits;
    assert(ms.last() == ms[n]);
    if last != 0 {
        lemma_nonzero_has_bit(last);
        let k = choose|k: u64| k < 64 && #[trigger] bit_of(last, k);
        assert(last_says_manual(calls, k));
        lemma_last_says_manual_has_call(calls, k);
    }
    if exists|i: int| 0 <= i < calls.len() && last_says_manual(calls, call_bit(#[trigger] calls[i])) {
        let i = choose|i: int| 0 <= i < calls.len() && last_says_manual(calls, call_bit(#[trigger] calls[i]));
        let k = call_bit(calls[i]);
        assert(call_allowed(calls[i]));
        assert(k < 64);
        assert(bit_of(last, k));
        if last == 0 {
            assert(!bit_of(0u64, k)) by (bit_vector)
                requires k < 64;
        }
    }
}

} // verus!
