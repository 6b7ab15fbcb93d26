//! A set of signals, as handed to the kernel's masking and notification calls.

use vstd::prelude::*;

use crate::signal::Signal;
use crate::utility::SysError;

verus! {

/// Whether bit `j` of `bits` is set.
pub open spec fn bit_at(bits: u64, j: u64) -> bool {
    (bits >> j) & 1u64 == 1u64
}

/// Every signal number a full mask holds: the kernel numbers signals 1
/// through 64, the upper half of them the real-time range.
pub open spec fn all_signal_numbers() -> Set<int> {
    Set::new(|k: int| 1 <= k <= 64)
}

/// A set of signals. One bit per possible signal number, in the same shape
/// the kernel's own signal set uses on this platform; whoever makes the
/// masking call turns it into the kernel's type bit for bit.
#[derive(Copy, Clone, Debug)]
pub struct SignalMask {
    bits: u64,
}

impl View for SignalMask {
    type V = Set<int>;

    /// The set of kernel signal numbers this mask holds.
    closed spec fn view(&self) -> Set<int> {
        Set::new(|k: int| 1 <= k <= 64 && bit_at(self.bits, (k - 1) as u64))
    }
}

proof fn lemma_or_bit(bits: u64, i: u64, j: u64)
    requires
        i < 64,
        j < 64,
    ensures
        bit_at(bits | (1u64 << i), j) == (i == j || bit_at(bits, j)),
{
    assert(((bits | (1u64 << i)) >> j) & 1u64 == (if i == j {
        1u64
    } else {
        (bits >> j) & 1u64
    })) by (bit_vector)
        requires
            i < 64,
            j < 64,
    ;
}

proof fn lemma_clear_bit(bits: u64, i: u64, j: u64)
    requires
        i < 64,
        j < 64,
    ensures
        bit_at(bits & !(1u64 << i), j) == (i != j && bit_at(bits, j)),
{
    assert(((bits & !(1u64 << i)) >> j) & 1u64 == (if i == j {
        0u64
    } else {
        (bits >> j) & 1u64
    })) by (bit_vector)
        requires
            i < 64,
            j < 64,
    ;
}

proof fn lemma_zero_bit(j: u64)
    requires
        j < 64,
    ensures
        !bit_at(0u64, j),
{
    assert((0u64 >> j) & 1u64 == 0u64) by (bit_vector);
}

proof fn lemma_full_bit(j: u64)
    requires
        j < 64,
    ensures
        bit_at(0xffff_ffff_ffff_ffffu64, j),
{
    assert((0xffff_ffff_ffff_ffffu64 >> j) & 1u64 == 1u64) by (bit_vector)
        requires
            j < 64,
    ;
}

/// Every signal of this library carries a kernel number between 1 and 31.
pub proof fn lemma_signal_raw_range(s: Signal)
    ensures
        1 <= s.spec_raw() <= 31,
{
}

impl SignalMask {
    /// Create an empty mask: no signal is a member.
    pub fn new() -> (m: SignalMask)
        ensures
            m@ == Set::<int>::empty(),
    {
        let m = SignalMask { bits: 0 };
        proof {
            assert forall|k: int| !m@.contains(k) by {
                if 1 <= k <= 64 {
                    lemma_zero_bit((k - 1) as u64);
                }
            }
            assert(m@ =~= Set::<int>::empty());
        }
        m
    }

    /// Create a full mask: every signal the kernel numbers is a member.
    pub fn new_full() -> (m: SignalMask)
        ensures
            m@ == all_signal_numbers(),
    {
        let m = SignalMask { bits: 0xffff_ffff_ffff_ffff };
        proof {
            assert forall|k: int| m@.contains(k) == all_signal_numbers().contains(k) by {
                if 1 <= k <= 64 {
                    lemma_full_bit((k - 1) as u64);
                }
            }
            assert(m@ =~= all_signal_numbers());
        }
        m
    }

    /// Add `signal` to the mask. The result mirrors the kernel's own
    /// set-insertion call, which cannot fail on a signal this library names.
    pub fn add(&mut self, signal: Signal) -> (r: Result<(), SysError>)
        ensures
            r == Ok::<(), SysError>(()),
            final(self)@ == old(self)@.insert(signal.spec_raw() as int),
    {
        proof {
            lemma_signal_raw_range(signal);
        }
        let ghost prevbits: u64 = self.bits;
        let ghost prevset: Set<int> = self@;
        let n: i32 = signal.raw();
        let sh: u64 = (n - 1) as u64;
        self.bits = self.bits | (1u64 << sh);
        proof {
            assert forall|k: int| self@.contains(k) == prevset.insert(n as int).contains(k) by {
                if 1 <= k <= 64 {
                    lemma_or_bit(prevbits, sh, (k - 1) as u64);
                }
            }
            assert(self@ =~= prevset.insert(n as int));
        }
        Ok(())
    }

    /// Remove `signal` from the mask; cannot fail on a signal this library
    /// names.
    pub fn remove(&mut self, signal: Signal) -> (r: Result<(), SysError>)
        ensures
            r == Ok::<(), SysError>(()),
            final(self)@ == old(self)@.remove(signal.spec_raw() as int),
    {
        proof {
            lemma_signal_raw_range(signal);
        }
        let ghost prevbits: u64 = self.bits;
        let ghost prevset: Set<int> = self@;
        let n: i32 = signal.raw();
        let sh: u64 = (n - 1) as u64;
        self.bits = self.bits & !(1u64 << sh);
        proof {
            assert forall|k: int| self@.contains(k) == prevset.remove(n as int).contains(k) by {
                if 1 <= k <= 64 {
                    lemma_clear_bit(prevbits, sh, (k - 1) as u64);
                }
            }
            assert(self@ =~= prevset.remove(n as int));
        }
        Ok(())
    }

    /// Whether `signal` is a member of the mask; cannot fail on a signal
    /// this library names.
    pub fn is_member(&self, signal: Signal) -> (r: Result<bool, SysError>)
        ensures
            r == Ok::<bool, SysError>(self@.contains(signal.spec_raw() as int)),
    {
        proof {
            lemma_signal_raw_range(signal);
        }
        let n: i32 = signal.raw();
        let sh: u64 = (n - 1) as u64;
        Ok((self.bits >> sh) & 1u64 == 1u64)
    }

    /// The members of the mask, as kernel signal numbers in increasing
    /// order: exactly the numbers the mask holds, each once. Whoever builds
    /// the kernel's own set type inserts these.
    pub fn members(&self) -> (v: Vec<i32>)
        ensures
            forall|j: int| 0 <= j < v@.len() ==> self@.contains(#[trigger] v@[j] as int),
            forall|k: int|
                self@.contains(k) ==> exists|j: int| 0 <= j < v@.len() && #[trigger] v@[j] as int
                    == k,
            forall|j1: int, j2: int| 0 <= j1 < j2 < v@.len() ==> v@[j1] < v@[j2],
    {
        let mut v: Vec<i32> = Vec::new();
        let mut n: i32 = 1;
        while n <= 64
            invariant
                1 <= n <= 65,
                forall|j: int|
                    0 <= j < v@.len() ==> self@.contains(#[trigger] v@[j] as int) && v@[j] < n,
                forall|k: int|
                    1 <= k < n && self@.contains(k) ==> exists|j: int|
                        0 <= j < v@.len() && #[trigger] v@[j] as int == k,
                forall|j1: int, j2: int| 0 <= j1 < j2 < v@.len() ==> v@[j1] < v@[j2],
            decreases 65 - n,
        {
            let ghost prevv: Seq<i32> = v@;
            let sh: u64 = (n - 1) as u64;
            let present = (self.bits >> sh) & 1u64 == 1u64;
            if present {
                v.push(n);
            }
            proof {
                assert(self@.contains(n as int) == present);
                assert forall|k: int| 1 <= k < n + 1 && self@.contains(k) implies exists|j: int|
                    0 <= j < v@.len() && #[trigger] v@[j] as int == k by {
                    if k < n {
                        let j = choose|j: int|
                            0 <= j < prevv.len() && #[trigger] prevv[j] as int == k;
                        assert(v@[j] as int == k);
                    } else {
                        assert(v@[prevv.len() as int] as int == k);
                    }
                }
            }
            n = n + 1;
        }
        proof {
            assert forall|k: int| self@.contains(k) implies exists|j: int|
                0 <= j < v@.len() && #[trigger] v@[j] as int == k by {
                assert(1 <= k <= 64);
            }
        }
        v
    }

    /// The mask as one bit per kernel signal number: bit `n - 1` stands for
    /// signal number `n`. Whoever talks to the kernel reads the members off
    /// these bits.
    pub fn bits(&self) -> (b: u64)
        ensures
            forall|k: int| 1 <= k <= 64 ==> self@.contains(k) == bit_at(b, (k - 1) as u64),
    {
        self.bits
    }
}

impl Default for SignalMask {
    /// The empty mask, as `SignalMask::new` gives it.
    fn default() -> (m: SignalMask)
        ensures
            m@ == Set::<int>::empty(),
    {
        SignalMask::new()
    }
}

} // verus!
