//! The alignments that a wrapped field can be forced to, and the arithmetic
//! of laying a value out at one of them.
//!
//! An [`Alignment`] is one of the fifteen powers of two from 2 to 32768 bytes.
//! Nothing else is representable, so every function that takes an alignment is
//! total.

use vstd::arithmetic::power2::{lemma2_to64, pow2};
use vstd::prelude::*;

verus! {

/// A forced alignment in bytes: a power of two from 2 to 32768.
#[derive(Clone, Copy, Debug, Hash, PartialEq, Eq, Structural)]
pub enum Alignment {
    /// 2 bytes.
    A2,
    /// 4 bytes.
    A4,
    /// 8 bytes.
    A8,
    /// 16 bytes.
    A16,
    /// 32 bytes.
    A32,
    /// 64 bytes.
    A64,
    /// 128 bytes.
    A128,
    /// 256 bytes.
    A256,
    /// 512 bytes.
    A512,
    /// 1024 bytes.
    A1024,
    /// 2048 bytes.
    A2048,
    /// 4096 bytes.
    A4096,
    /// 8192 bytes.
    A8192,
    /// 16384 bytes.
    A16384,
    /// 32768 bytes.
    A32768,
}

impl Alignment {
    /// The number of bytes of this alignment.
    pub open spec fn spec_bytes(self) -> usize {
        match self {
            Alignment::A2 => 2,
            Alignment::A4 => 4,
            Alignment::A8 => 8,
            Alignment::A16 => 16,
            Alignment::A32 => 32,
            Alignment::A64 => 64,
            Alignment::A128 => 128,
            Alignment::A256 => 256,
            Alignment::A512 => 512,
            Alignment::A1024 => 1024,
            Alignment::A2048 => 2048,
            Alignment::A4096 => 4096,
            Alignment::A8192 => 8192,
            Alignment::A16384 => 16384,
            Alignment::A32768 => 32768,
        }
    }

    /// The exponent `k` for which this alignment is `2^k` bytes.
    pub open spec fn exponent(self) -> nat {
        match self {
            Alignment::A2 => 1,
            Alignment::A4 => 2,
            Alignment::A8 => 3,
            Alignment::A16 => 4,
            Alignment::A32 => 5,
            Alignment::A64 => 6,
            Alignment::A128 => 7,
            Alignment::A256 => 8,
            Alignment::A512 => 9,
            Alignment::A1024 => 10,
            Alignment::A2048 => 11,
            Alignment::A4096 => 12,
            Alignment::A8192 => 13,
            Alignment::A16384 => 14,
            Alignment::A32768 => 15,
        }
    }

    /// The alignment of `2^k` bytes, for `k` from 1 to 15.
    pub open spec fn with_exponent(k: nat) -> Alignment
        recommends
            1 <= k <= 15,
    {
        if k == 1 {
            Alignment::A2
        } else if k == 2 {
            Alignment::A4
        } else if k == 3 {
            Alignment::A8
        } else if k == 4 {
            Alignment::A16
        } else if k == 5 {
            Alignment::A32
        } else if k == 6 {
            Alignment::A64
        } else if k == 7 {
            Alignment::A128
        } else if k == 8 {
            Alignment::A256
        } else if k == 9 {
            Alignment::A512
        } else if k == 10 {
            Alignment::A1024
        } else if k == 11 {
            Alignment::A2048
        } else if k == 12 {
            Alignment::A4096
        } else if k == 13 {
            Alignment::A8192
        } else if k == 14 {
            Alignment::A16384
        } else {
            Alignment::A32768
        }
    }

    /// Whether `bytes` is one of the alignments that can be forced: a power of
    /// two, at least 2 and at most 32768.
    pub open spec fn is_supported(bytes: nat) -> bool {
        exists|k: nat| 1 <= k <= 15 && bytes == pow2(k)
    }

    /// Whether `n`, an address or a size, is a multiple of this alignment.
    pub open spec fn divides(self, n: nat) -> bool {
        n % self.spec_bytes() as nat == 0
    }

    /// The size that a value of `size` bytes occupies once it is laid out at
    /// this alignment: `size` itself where it is a multiple of the alignment,
    /// else `size` moved up to the next multiple.
    pub open spec fn spec_padded_size(self, size: nat) -> nat {
        let a = self.spec_bytes() as nat;
        if size % a == 0 {
            size
        } else {
            (size - size % a + a) as nat
        }
    }

    /// [`Self::spec_padded_size`] as far as a `usize` holds it.
    pub open spec fn spec_checked_padded_size(self, size: usize) -> Option<usize> {
        let padded = self.spec_padded_size(size as nat);
        if padded <= usize::MAX {
            Some(padded as usize)
        } else {
            None
        }
    }

    /// The number of bytes of this alignment.
    #[verifier::when_used_as_spec(spec_bytes)]
    pub fn bytes(self) -> (n: usize)
        ensures
            n == self.spec_bytes(),
    {
        match self {
            Alignment::A2 => 2,
            Alignment::A4 => 4,
            Alignment::A8 => 8,
            Alignment::A16 => 16,
            Alignment::A32 => 32,
            Alignment::A64 => 64,
            Alignment::A128 => 128,
            Alignment::A256 => 256,
            Alignment::A512 => 512,
            Alignment::A1024 => 1024,
            Alignment::A2048 => 2048,
            Alignment::A4096 => 4096,
            Alignment::A8192 => 8192,
            Alignment::A16384 => 16384,
            Alignment::A32768 => 32768,
        }
    }

    /// The alignment of `bytes` bytes, where there is one.
    ///
    /// Gives `Some` exactly for the supported values, and then the alignment
    /// whose number of bytes is `bytes`.
    pub fn from_bytes(bytes: usize) -> (alignment: Option<Alignment>)
        ensures
            alignment.is_some() <==> Self::is_supported(bytes as nat),
            alignment matches Some(a) ==> a.spec_bytes() == bytes,
    {
        proof {
            lemma2_to64();
            if Self::is_supported(bytes as nat) {
                let k = choose|k: nat| 1 <= k <= 15 && bytes as nat == pow2(k);
                assert(k == 1 || k == 2 || k == 3 || k == 4 || k == 5 || k == 6 || k == 7 || k == 8
                    || k == 9 || k == 10 || k == 11 || k == 12 || k == 13 || k == 14 || k == 15);
            }
        }
        if bytes == 2 {
            assert(bytes as nat == pow2(1));
            Some(Alignment::A2)
        } else if bytes == 4 {
            assert(bytes as nat == pow2(2));
            Some(Alignment::A4)
        } else if bytes == 8 {
            assert(bytes as nat == pow2(3));
            Some(Alignment::A8)
        } else if bytes == 16 {
            assert(bytes as nat == pow2(4));
            Some(Alignment::A16)
        } else if bytes == 32 {
            assert(bytes as nat == pow2(5));
            Some(Alignment::A32)
        } else if bytes == 64 {
            assert(bytes as nat == pow2(6));
            Some(Alignment::A64)
        } else if bytes == 128 {
            assert(bytes as nat == pow2(7));
            Some(Alignment::A128)
        } else if bytes == 256 {
            assert(bytes as nat == pow2(8));
            Some(Alignment::A256)
        } else if bytes == 512 {
            assert(bytes as nat == pow2(9));
            Some(Alignment::A512)
        } else if bytes == 1024 {
            assert(bytes as nat == pow2(10));
            Some(Alignment::A1024)
        } else if bytes == 2048 {
            assert(bytes as nat == pow2(11));
            Some(Alignment::A2048)
        } else if bytes == 4096 {
            assert(bytes as nat == pow2(12));
            Some(Alignment::A4096)
        } else if bytes == 8192 {
            assert(bytes as nat == pow2(13));
            Some(Alignment::A8192)
        } else if bytes == 16384 {
            assert(bytes as nat == pow2(14));
            Some(Alignment::A16384)
        } else if bytes == 32768 {
            assert(bytes as nat == pow2(15));
            Some(Alignment::A32768)
        } else {
            None
        }
    }

    /// Whether `n`, an address or a size, is a multiple of this alignment.
    pub fn is_aligned(self, n: usize) -> (aligned: bool)
        ensures
            aligned == self.divides(n as nat),
    {
        n % self.bytes() == 0
    }

    /// The size that a value of `size` bytes occupies once it is laid out at
    /// this alignment, or `None` where that size is more than a `usize` holds.
    #[verifier::when_used_as_spec(spec_checked_padded_size)]
    pub fn padded_size(self, size: usize) -> (padded: Option<usize>)
        ensures
            padded == self.spec_checked_padded_size(size),
    {
        let a: usize = self.bytes();
        let rem: usize = size % a;
        if rem == 0 {
            Some(size)
        } else {
            (size - rem).checked_add(a)
        }
    }

    /// The size that a value of type `T` occupies once it is laid out at this
    /// alignment. No type is so large that this would not fit.
    pub fn padded_size_of<T>(self) -> (padded: usize)
        ensures
            padded == self.spec_padded_size(vstd::layout::size_of::<T>()),
    {
        vstd::layout::layout_for_type_is_valid::<T>();
        let size: usize = core::mem::size_of::<T>();
        proof {
            self.lemma_padded_size_is_least_multiple(size as nat);
        }
        self.padded_size(size).unwrap()
    }

    /// Every alignment is a power of two, with an exponent from 1 to 15, and so
    /// is one of the supported values. The exponent tells the alignment.
    pub proof fn lemma_bytes_is_power_of_two(self)
        ensures
            1 <= self.exponent() <= 15,
            self.spec_bytes() == pow2(self.exponent()),
            Self::is_supported(self.spec_bytes() as nat),
            Self::with_exponent(self.exponent()) == self,
    {
        lemma2_to64();
    }

    /// The supported values are the numbers of bytes of the alignments, and
    /// nothing else.
    pub proof fn lemma_supported_is_an_alignment(bytes: nat)
        ensures
            Self::is_supported(bytes) <==> exists|a: Alignment| #[trigger] a.spec_bytes() == bytes,
    {
        lemma2_to64();
        if Self::is_supported(bytes) {
            let k = choose|k: nat| 1 <= k <= 15 && bytes == pow2(k);
            let a = Self::with_exponent(k);
            assert(a.spec_bytes() == bytes);
        }
        if exists|a: Alignment| #[trigger] a.spec_bytes() == bytes {
            let a = choose|a: Alignment| #[trigger] a.spec_bytes() == bytes;
            a.lemma_bytes_is_power_of_two();
        }
    }

    /// Two alignments of the same number of bytes are the same alignment.
    pub proof fn lemma_bytes_determine_alignment(self, other: Alignment)
        requires
            self.spec_bytes() == other.spec_bytes(),
        ensures
            self == other,
    {
    }

    /// The padded size is the smallest multiple of the alignment that holds
    /// `size` bytes: it is a multiple, it is not less than `size`, and no
    /// multiple that holds `size` bytes is smaller.
    pub proof fn lemma_padded_size_is_least_multiple(self, size: nat)
        ensures
            self.divides(self.spec_padded_size(size)),
            size <= self.spec_padded_size(size) < size + self.spec_bytes(),
            forall|m: nat|
                #[trigger] self.divides(m) && size <= m ==> self.spec_padded_size(size) <= m,
    {
        let a = self.spec_bytes() as nat;
        let p = self.spec_padded_size(size);
        lemma_next_multiple(a, size);
        assert forall|m: nat| #[trigger] self.divides(m) && size <= m implies p <= m by {
            lemma_multiples_are_apart(a, m, p);
        }
    }

    /// What is aligned to an alignment is aligned to every smaller one.
    pub proof fn lemma_aligned_to_larger_is_aligned_to_smaller(self, smaller: Alignment, n: nat)
        requires
            smaller.spec_bytes() <= self.spec_bytes(),
            self.divides(n),
        ensures
            smaller.divides(n),
    {
        self.lemma_bytes_is_power_of_two();
        smaller.lemma_bytes_is_power_of_two();
        let big = self.spec_bytes() as int;
        let small = smaller.spec_bytes() as int;
        assert(big % small == 0) by {
            lemma2_to64();
        }
        vstd::arithmetic::div_mod::lemma_mod_mod(n as int, small, big / small);
        assert(small * (big / small) == big) by {
            vstd::arithmetic::div_mod::lemma_fundamental_div_mod(big, small);
        }
    }
}

/// Moving a number up by what it lacks to a multiple of `a` gives the next
/// multiple of `a`.
proof fn lemma_next_multiple(a: nat, size: nat)
    requires
        a > 0,
    ensures
        size % a != 0 ==> (size - size % a + a) % (a as int) == 0 && size < size - size % a
            + a < size + a,
{
    if size % a != 0 {
        let q = size as int / a as int;
        vstd::arithmetic::div_mod::lemma_fundamental_div_mod(size as int, a as int);
        assert(size - size % a + a == a * (q + 1)) by (nonlinear_arith)
            requires
                size as int == a * q + size % a,
        ;
        vstd::arithmetic::div_mod::lemma_mod_multiples_basic(q + 1, a as int);
        assert(a * (q + 1) == (q + 1) * a) by (nonlinear_arith);
    }
}

/// Two multiples of `a` that are less than `a` apart are in order.
proof fn lemma_multiples_are_apart(a: nat, m: nat, p: nat)
    requires
        a > 0,
        m % a == 0,
        p % a == 0,
        p < m + a,
    ensures
        p <= m,
{
    if p > m {
        vstd::arithmetic::div_mod::lemma_fundamental_div_mod(m as int, a as int);
        vstd::arithmetic::div_mod::lemma_fundamental_div_mod(p as int, a as int);
        let qm = m as int / a as int;
        let qp = p as int / a as int;
        assert(false) by (nonlinear_arith)
            requires
                a > 0,
                m == a * qm,
                p == a * qp,
                m < p < m + a,
        ;
    }
}

} // verus!
