//! Reading classical measurement results out of a backend buffer.
use vstd::prelude::*;
use vstd::arithmetic::div_mod::{
    lemma_div_basics, lemma_div_denominator, lemma_fundamental_div_mod_converse_div,
    lemma_fundamental_div_mod_converse_mod,
};
use vstd::arithmetic::mul::lemma_mul_is_associative;
use vstd::arithmetic::power2::{
    lemma2_to64, lemma_pow2_pos, lemma_pow2_strictly_increases, lemma_pow2_unfold, pow2,
};

verus! {

/// Slot addresses that can be produced from a numeric index, so that a run of
/// consecutive measured bits can be read out as one unsigned integer.
pub trait SlotIndex: Sized {
    /// Which indices have a slot address at all.
    spec fn in_range(i: int) -> bool;

    /// The slot address at index `i`.
    spec fn spec_of_index(i: int) -> Self;

    /// Builds the slot address at index `i`.
    fn of_index(i: usize) -> (s: Self)
        requires
            Self::in_range(i as int),
        ensures
            s == Self::spec_of_index(i as int),
    ;
}

impl SlotIndex for u8 {
    open spec fn in_range(i: int) -> bool {
        0 <= i <= u8::MAX
    }

    open spec fn spec_of_index(i: int) -> Self {
        i as u8
    }

    fn of_index(i: usize) -> (s: Self) {
        i as u8
    }
}

impl SlotIndex for u16 {
    open spec fn in_range(i: int) -> bool {
        0 <= i <= u16::MAX
    }

    open spec fn spec_of_index(i: int) -> Self {
        i as u16
    }

    fn of_index(i: usize) -> (s: Self) {
        i as u16
    }
}

impl SlotIndex for u32 {
    open spec fn in_range(i: int) -> bool {
        0 <= i <= u32::MAX
    }

    open spec fn spec_of_index(i: int) -> Self {
        i as u32
    }

    fn of_index(i: usize) -> (s: Self) {
        i as u32
    }
}

impl SlotIndex for u64 {
    open spec fn in_range(i: int) -> bool {
        0 <= i <= u64::MAX
    }

    open spec fn spec_of_index(i: int) -> Self {
        i as u64
    }

    fn of_index(i: usize) -> (s: Self) {
        i as u64
    }
}

impl SlotIndex for usize {
    open spec fn in_range(i: int) -> bool {
        0 <= i <= usize::MAX
    }

    open spec fn spec_of_index(i: int) -> Self {
        i as usize
    }

    fn of_index(i: usize) -> (s: Self) {
        i
    }
}

/// The integer read from `n` consecutive bits starting at index `start`:
/// bit source `start + i` lands in bit `i` of the result, least-significant
/// bit first.
pub open spec fn packed_bits(bits: spec_fn(int) -> bool, start: int, n: nat) -> nat
    decreases n,
{
    if n == 0 {
        0
    } else {
        (if bits(start) {
            1nat
        } else {
            0nat
        }) + 2 * packed_bits(bits, start + 1, (n - 1) as nat)
    }
}

/// A packed range of `n` bits is below `pow2(n)`.
pub proof fn lemma_packed_bits_bound(bits: spec_fn(int) -> bool, start: int, n: nat)
    ensures
        packed_bits(bits, start, n) < pow2(n),
    decreases n,
{
    if n == 0 {
        lemma2_to64();
    } else {
        lemma_packed_bits_bound(bits, start + 1, (n - 1) as nat);
        lemma_pow2_unfold(n);
    }
}

/// Composition law for range reads: a range of width `n` is its first `k`
/// bits plus its remaining `n - k` bits shifted up by `k` positions.
pub proof fn lemma_packed_bits_split(bits: spec_fn(int) -> bool, start: int, k: nat, n: nat)
    requires
        k <= n,
    ensures
        packed_bits(bits, start, n) == packed_bits(bits, start, k) + pow2(k) * packed_bits(
            bits,
            start + k,
            (n - k) as nat,
        ),
    decreases k,
{
    if k == 0 {
        lemma2_to64();
    } else {
        lemma_packed_bits_split(bits, start + 1, (k - 1) as nat, (n - 1) as nat);
        lemma_pow2_unfold(k);
        lemma_mul_is_associative(
            2,
            pow2((k - 1) as nat) as int,
            packed_bits(bits, start + k, (n - k) as nat) as int,
        );
    }
}

/// Pointwise reading of a packed range: bit `i` of the packed integer is
/// the bit read at index `start + i`.
pub proof fn lemma_packed_bits_extract(bits: spec_fn(int) -> bool, start: int, n: nat, i: int)
    requires
        0 <= i < n,
    ensures
        (packed_bits(bits, start, n) as int) / (pow2(i as nat) as int) % 2 == (if bits(start + i) {
            1int
        } else {
            0int
        }),
    decreases i,
{
    let p = packed_bits(bits, start, n) as int;
    let b: int = if bits(start) {
        1
    } else {
        0
    };
    let rest = packed_bits(bits, start + 1, (n - 1) as nat) as int;
    if i == 0 {
        lemma2_to64();
        lemma_div_basics(p);
        lemma_fundamental_div_mod_converse_mod(p, 2, rest, b);
    } else {
        lemma_packed_bits_extract(bits, start + 1, (n - 1) as nat, i - 1);
        lemma_fundamental_div_mod_converse_div(p, 2, rest, b);
        lemma_pow2_unfold(i as nat);
        lemma_pow2_pos((i - 1) as nat);
        lemma_div_denominator(p, 2, pow2((i - 1) as nat) as int);
    }
}

/// A range read over bits that are all false is zero.
pub proof fn lemma_packed_bits_zero(bits: spec_fn(int) -> bool, start: int, n: nat)
    requires
        forall|i: int| start <= i < start + n ==> !#[trigger] bits(i),
    ensures
        packed_bits(bits, start, n) == 0,
    decreases n,
{
    if n > 0 {
        lemma_packed_bits_zero(bits, start + 1, (n - 1) as nat);
    }
}

/// Gets the measured result.
pub trait Measured {
    type Slot;

    /// Abstract contents of the buffer: the bit that slot `n` reads as.
    spec fn bit(&self, n: Self::Slot) -> bool;

    /// Gets a single measured result.
    fn get(&self, n: Self::Slot) -> (r: bool)
        ensures
            r == self.bit(n),
    ;

    /// Gets sequential measured results as u8: slot `start + i` is bit `i`.
    fn get_range_u8(&self, start: usize, stop: usize) -> (r: u8) where Self::Slot: SlotIndex
        requires
            start <= stop,
            stop - start <= 8,
            forall|i: int| start <= i < stop ==> #[trigger] <Self::Slot as SlotIndex>::in_range(i),
        ensures
            r as nat == packed_bits(
                |i: int| self.bit(<Self::Slot as SlotIndex>::spec_of_index(i)),
                start as int,
                (stop - start) as nat,
            ),
    {
        let ghost bits = |i: int| self.bit(<Self::Slot as SlotIndex>::spec_of_index(i));
        let mut result: u8 = 0;
        let mut i: usize = stop;
        while i > start
            invariant
                start <= i <= stop,
                stop - start <= 8,
                forall|j: int|
                    start <= j < stop ==> #[trigger] <Self::Slot as SlotIndex>::in_range(j),
                result as nat == packed_bits(bits, i as int, (stop - i) as nat),
                bits == (|j: int| self.bit(<Self::Slot as SlotIndex>::spec_of_index(j))),
            decreases i - start,
        {
            i = i - 1;
            let b = self.get(<Self::Slot as SlotIndex>::of_index(i));
            proof {
                lemma_packed_bits_bound(bits, i as int + 1, (stop - i - 1) as nat);
                lemma2_to64();
                if stop - i - 1 < 7 {
                    lemma_pow2_strictly_increases((stop - i - 1) as nat, 7);
                }
            }
            result = 2 * result + (if b {
                1
            } else {
                0
            });
        }
        result
    }

    /// Gets sequential measured results as u16: slot `start + i` is bit `i`.
    fn get_range_u16(&self, start: usize, stop: usize) -> (r: u16) where Self::Slot: SlotIndex
        requires
            start <= stop,
            stop - start <= 16,
            forall|i: int| start <= i < stop ==> #[trigger] <Self::Slot as SlotIndex>::in_range(i),
        ensures
            r as nat == packed_bits(
                |i: int| self.bit(<Self::Slot as SlotIndex>::spec_of_index(i)),
                start as int,
                (stop - start) as nat,
            ),
    {
        let ghost bits = |i: int| self.bit(<Self::Slot as SlotIndex>::spec_of_index(i));
        if stop - start <= 8 {
            self.get_range_u8(start, stop) as u16
        } else {
            let lo = self.get_range_u8(start, start + 8);
            let hi = self.get_range_u8(start + 8, stop);
            proof {
                lemma_packed_bits_split(bits, start as int, 8, (stop - start) as nat);
                lemma_packed_bits_bound(bits, start as int + 8, (stop - start - 8) as nat);
                lemma2_to64();
                if stop - start - 8 < 8 {
                    lemma_pow2_strictly_increases((stop - start - 8) as nat, 8);
                }
            }
            lo as u16 + (hi as u16) * 256
        }
    }

    /// Gets sequential measured results as u32: slot `start + i` is bit `i`.
    fn get_range_u32(&self, start: usize, stop: usize) -> (r: u32) where Self::Slot: SlotIndex
        requires
            start <= stop,
            stop - start <= 32,
            forall|i: int| start <= i < stop ==> #[trigger] <Self::Slot as SlotIndex>::in_range(i),
        ensures
            r as nat == packed_bits(
                |i: int| self.bit(<Self::Slot as SlotIndex>::spec_of_index(i)),
                start as int,
                (stop - start) as nat,
            ),
    {
        let ghost bits = |i: int| self.bit(<Self::Slot as SlotIndex>::spec_of_index(i));
        if stop - start <= 16 {
            self.get_range_u16(start, stop) as u32
        } else {
            let lo = self.get_range_u16(start, start + 16);
            let hi = self.get_range_u16(start + 16, stop);
            proof {
                lemma_packed_bits_split(bits, start as int, 16, (stop - start) as nat);
                lemma_packed_bits_bound(bits, start as int + 16, (stop - start - 16) as nat);
                lemma2_to64();
                if stop - start - 16 < 16 {
                    lemma_pow2_strictly_increases((stop - start - 16) as nat, 16);
                }
            }
            lo as u32 + (hi as u32) * 65536
        }
    }

    /// Gets sequential measured results as u64: slot `start + i` is bit `i`.
    fn get_range_u64(&self, start: usize, stop: usize) -> (r: u64) where Self::Slot: SlotIndex
        requires
            start <= stop,
            stop - start <= 64,
            forall|i: int| start <= i < stop ==> #[trigger] <Self::Slot as SlotIndex>::in_range(i),
        ensures
            r as nat == packed_bits(
                |i: int| self.bit(<Self::Slot as SlotIndex>::spec_of_index(i)),
                start as int,
                (stop - start) as nat,
            ),
    {
        let ghost bits = |i: int| self.bit(<Self::Slot as SlotIndex>::spec_of_index(i));
        if stop - start <= 32 {
            self.get_range_u32(start, stop) as u64
        } else {
            let lo = self.get_range_u32(start, start + 32);
            let hi = self.get_range_u32(start + 32, stop);
            proof {
                lemma_packed_bits_split(bits, start as int, 32, (stop - start) as nat);
                lemma_packed_bits_bound(bits, start as int + 32, (stop - start - 32) as nat);
                lemma2_to64();
                if stop - start - 32 < 32 {
                    lemma_pow2_strictly_increases((stop - start - 32) as nat, 32);
                }
            }
            lo as u64 + (hi as u64) * 4294967296
        }
    }
}

/// The fallback convention for failure-carrying results: a `Measured` view
/// over a failed outcome reads every slot as false, so every range read
/// over it is zero.
impl<B: Measured, E> Measured for Result<B, E> {
    type Slot = B::Slot;

    open spec fn bit(&self, n: B::Slot) -> bool {
        match self {
            Ok(b) => b.bit(n),
            Err(_) => false,
        }
    }

    fn get(&self, n: B::Slot) -> (r: bool) {
        match self {
            Ok(b) => b.get(n),
            Err(_) => false,
        }
    }
}

/// Law: a `Measured` view over a failed outcome returns false for `get` on
/// every slot, and zero for every range read, whatever the range width.
pub proof fn lemma_failed_outcome_reads_zero<B: Measured, E>(
    outcome: &Result<B, E>,
    start: int,
    n: nat,
) where B::Slot: SlotIndex
    requires
        outcome is Err,
    ensures
        forall|s: B::Slot| !#[trigger] outcome.bit(s),
        packed_bits(
            |i: int| outcome.bit(<B::Slot as SlotIndex>::spec_of_index(i)),
            start,
            n,
        ) == 0,
{
    lemma_packed_bits_zero(
        |i: int| outcome.bit(<B::Slot as SlotIndex>::spec_of_index(i)),
        start,
        n,
    );
}

} // verus!
