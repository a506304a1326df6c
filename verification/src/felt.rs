//! Plain 256-bit values: field elements, contract addresses, class hashes and
//! storage keys.

use crate::vec_map::ExecEq;
use vstd::prelude::*;

verus! {

broadcast use vstd::array::group_array_axioms;

/// Two to the power 128.
pub open spec fn pow2_128() -> nat {
    0x1_0000_0000_0000_0000_0000_0000_0000_0000nat
}

/// Two to the power 256.
pub open spec fn pow2_256() -> nat {
    0x1_0000_0000_0000_0000_0000_0000_0000_0000_0000_0000_0000_0000_0000_0000_0000_0000nat
}

/// The number that a string of bytes stands for, most significant byte first.
pub open spec fn be_value(bytes: Seq<u8>) -> nat
    decreases bytes.len(),
{
    if bytes.len() == 0 {
        0
    } else {
        be_value(bytes.drop_last()) * 256 + bytes.last() as nat
    }
}

/// A longer prefix of a string of bytes stands for at least 256 times as much
/// as a shorter one for each byte between them, so for no less.
pub proof fn lemma_be_value_prefix(bytes: Seq<u8>, n: int)
    requires
        0 <= n <= bytes.len(),
    ensures
        be_value(bytes.take(n)) <= be_value(bytes),
    decreases bytes.len(),
{
    if n == bytes.len() {
        assert(bytes.take(n) =~= bytes);
    } else {
        assert(bytes.drop_last().take(n) =~= bytes.take(n));
        lemma_be_value_prefix(bytes.drop_last(), n);
    }
}

/// 256 to the power `n`.
pub open spec fn pow256(n: nat) -> nat
    decreases n,
{
    if n == 0 {
        1
    } else {
        256 * pow256((n - 1) as nat)
    }
}

/// A string of `n` bytes stands for a number below 256 to the power `n`.
pub proof fn lemma_be_value_bound(bytes: Seq<u8>)
    ensures
        be_value(bytes) < pow256(bytes.len()),
    decreases bytes.len(),
{
    if bytes.len() > 0 {
        lemma_be_value_bound(bytes.drop_last());
    }
}

/// Putting a byte in front of a string adds the byte times 256 to the power
/// of the string's length.
pub proof fn lemma_be_value_prepend(byte: u8, bytes: Seq<u8>)
    ensures
        be_value(seq![byte] + bytes) == byte * pow256(bytes.len()) + be_value(bytes),
    decreases bytes.len(),
{
    let whole = seq![byte] + bytes;
    assert(be_value(whole) == be_value(whole.drop_last()) * 256 + whole.last());
    if bytes.len() == 0 {
        assert(whole.drop_last() =~= Seq::<u8>::empty());
        assert(be_value(whole.drop_last()) == 0);
        assert(whole.last() == byte);
        assert(pow256(0) == 1);
        assert(be_value(bytes) == 0);
    } else {
        assert(whole.last() == bytes.last());
        assert(be_value(bytes) == be_value(bytes.drop_last()) * 256 + bytes.last());
        assert(whole.drop_last() =~= seq![byte] + bytes.drop_last());
        lemma_be_value_prepend(byte, bytes.drop_last());
        let p = pow256(bytes.drop_last().len());
        assert(pow256(bytes.len()) == 256 * p);
        assert((byte * p + be_value(bytes.drop_last())) * 256 == byte * (256 * p) + be_value(
            bytes.drop_last(),
        ) * 256) by (nonlinear_arith);
    }
}

/// Two strings of the same length that stand for the same number are the
/// same string.
pub proof fn lemma_be_value_injective(a: Seq<u8>, b: Seq<u8>)
    requires
        a.len() == b.len(),
        be_value(a) == be_value(b),
    ensures
        a == b,
    decreases a.len(),
{
    if a.len() > 0 {
        assert(be_value(a) == be_value(a.drop_last()) * 256 + a.last());
        assert(be_value(b) == be_value(b.drop_last()) * 256 + b.last());
        assert(a.last() == b.last());
        lemma_be_value_injective(a.drop_last(), b.drop_last());
        assert(a =~= a.drop_last().push(a.last()));
        assert(b =~= b.drop_last().push(b.last()));
    } else {
        assert(a =~= b);
    }
}

/// The 32 bytes that stand for the value, most significant first.
pub open spec fn felt_hash(felt: Felt) -> [u8; 32] {
    choose|hash: [u8; 32]| be_value(hash@) == felt.value()
}

/// 256 to the power 32 is two to the power 256.
pub proof fn lemma_pow256_32()
    ensures
        pow256(32) == pow2_256(),
{
    reveal_with_fuel(pow256, 33);
}

/// An unsigned 256-bit value, kept as two 128-bit halves.
#[derive(Clone, Copy, Debug, PartialEq, Eq, Hash, Structural)]
pub struct Felt {
    pub hi: u128,
    pub lo: u128,
}

impl Felt {
    /// The number that the two halves stand for.
    pub open spec fn value(self) -> nat {
        (self.hi * pow2_128() + self.lo) as nat
    }

    /// The value zero.
    pub fn zero() -> (r: Felt)
        ensures
            r.value() == 0,
    {
        Felt { hi: 0, lo: 0 }
    }

    /// The value of a 64-bit number.
    pub fn from_u64(n: u64) -> (r: Felt)
        ensures
            r.value() == n,
    {
        Felt { hi: 0, lo: n as u128 }
    }

    /// The value of a 128-bit number.
    pub fn from_u128(n: u128) -> (r: Felt)
        ensures
            r.value() == n,
    {
        Felt { hi: 0, lo: n }
    }

    /// The value that a string of bytes stands for, most significant byte
    /// first, if it fits 256 bits.
    pub fn from_be_slice(bytes: &[u8]) -> (r: Option<Felt>)
        ensures
            r.is_some() == (be_value(bytes@) < pow2_256()),
            r matches Some(felt) ==> felt.value() == be_value(bytes@),
    {
        let mut hi: u128 = 0;
        let mut lo: u128 = 0;
        let mut i: usize = 0;
        assert(bytes@.take(0) =~= Seq::<u8>::empty());
        while i < bytes.len()
            invariant
                i <= bytes@.len(),
                hi * pow2_128() + lo == be_value(bytes@.take(i as int)),
            decreases bytes@.len() - i,
        {
            let ghost before = be_value(bytes@.take(i as int));
            proof {
                assert(bytes@.take(i + 1).drop_last() =~= bytes@.take(i as int));
                assert(be_value(bytes@.take(i + 1)) == before * 256 + bytes@[i as int]);
            }
            if hi >= 0x100_0000_0000_0000_0000_0000_0000_0000 {
                proof {
                    lemma_be_value_prefix(bytes@, i + 1);
                }
                return None;
            }
            let carry: u128 = lo / 0x100_0000_0000_0000_0000_0000_0000_0000;
            let rest: u128 = lo % 0x100_0000_0000_0000_0000_0000_0000_0000;
            hi = hi * 256 + carry;
            lo = rest * 256 + bytes[i] as u128;
            i += 1;
        }
        assert(bytes@.take(bytes@.len() as int) =~= bytes@);
        Some(Felt { hi, lo })
    }

    /// The value that a vector of bytes stands for, most significant byte
    /// first, if it fits 256 bits.
    pub fn from_bytes_be(bytes: &Vec<u8>) -> (r: Option<Felt>)
        ensures
            r.is_some() == (be_value(bytes@) < pow2_256()),
            r matches Some(felt) ==> felt.value() == be_value(bytes@),
    {
        Felt::from_be_slice(bytes.as_slice())
    }

    /// The value as 32 bytes, most significant first.
    pub fn to_bytes_be(&self) -> (r: [u8; 32])
        ensures
            be_value(r@) == self.value(),
            r == felt_hash(*self),
    {
        let mut out: [u8; 32] = [0u8; 32];
        let mut hi: u128 = self.hi;
        let mut lo: u128 = self.lo;
        let mut k: usize = 0;
        assert(out@.subrange(32, 32) =~= Seq::<u8>::empty());
        assert(be_value(Seq::<u8>::empty()) == 0);
        assert(pow256(0) == 1);
        while k < 32
            invariant
                k <= 32,
                out@.len() == 32,
                self.value() == (hi * pow2_128() + lo) * pow256(k as nat) + be_value(
                    out@.subrange(32 - k, 32),
                ),
            decreases 32 - k,
        {
            let ghost quotient = hi * pow2_128() + lo;
            let ghost suffix = out@.subrange(32 - k, 32);
            let byte: u8 = (lo % 256) as u8;
            lo = lo / 256 + (hi % 256) * 0x100_0000_0000_0000_0000_0000_0000_0000;
            hi = hi / 256;
            out[31 - k] = byte;
            proof {
                let next = hi * pow2_128() + lo;
                assert(quotient == next * 256 + byte);
                assert(out@.subrange(32 - (k + 1), 32) =~= seq![byte] + suffix);
                lemma_be_value_prepend(byte, suffix);
                let p = pow256(k as nat);
                assert(pow256((k + 1) as nat) == 256 * p);
                assert((next * 256 + byte) * p == next * (256 * p) + byte * p) by (nonlinear_arith);
            }
            k += 1;
        }
        proof {
            assert(out@.subrange(0, 32) =~= out@);
            lemma_pow256_32();
            let q = hi * pow2_128() + lo;
            let p = pow256(32);
            assert(self.value() < pow2_256());
            assert(self.value() == q * p + be_value(out@));
            assert(q * p < p);
            assert(q == 0) by (nonlinear_arith)
                requires
                    q >= 0,
                    p > 0,
                    q * p < p,
            ;
            assert(q * p == 0) by (nonlinear_arith)
                requires
                    q == 0,
            ;
            lemma_be_value_injective(out@, felt_hash(*self)@);
            assert(out =~= felt_hash(*self));
        }
        out
    }

    /// The value of 32 bytes, most significant first.
    pub fn from_hash(hash: &[u8; 32]) -> (r: Felt)
        ensures
            r.value() == be_value(hash@),
    {
        proof {
            lemma_be_value_bound(hash@);
            lemma_pow256_32();
        }
        match Felt::from_be_slice(hash.as_slice()) {
            Some(felt) => felt,
            None => Felt { hi: 0, lo: 0 },
        }
    }

    /// The value as a 64-bit number, if it fits one.
    pub fn to_u64(&self) -> (r: Option<u64>)
        ensures
            r == (if self.value() <= u64::MAX {
                Some(self.value() as u64)
            } else {
                None
            }),
    {
        if self.hi == 0 && self.lo <= u64::MAX as u128 {
            Some(self.lo as u64)
        } else {
            None
        }
    }

    /// The value as an index, if it fits one.
    pub fn to_usize(&self) -> (r: Option<usize>)
        ensures
            r == (if self.value() <= usize::MAX {
                Some(self.value() as usize)
            } else {
                None
            }),
    {
        if self.hi == 0 && self.lo <= usize::MAX as u128 {
            Some(self.lo as usize)
        } else {
            None
        }
    }

    /// The value after this one; the largest value is followed by zero.
    pub open spec fn spec_successor(self) -> Felt {
        if self.lo < u128::MAX {
            Felt { hi: self.hi, lo: (self.lo + 1) as u128 }
        } else if self.hi < u128::MAX {
            Felt { hi: (self.hi + 1) as u128, lo: 0 }
        } else {
            Felt { hi: 0, lo: 0 }
        }
    }

    /// The value after this one; the largest value is followed by zero.
    pub fn successor(&self) -> (r: Felt)
        ensures
            r == self.spec_successor(),
            r.value() == (self.value() + 1) % pow2_256(),
    {
        if self.lo < u128::MAX {
            Felt { hi: self.hi, lo: self.lo + 1 }
        } else if self.hi < u128::MAX {
            Felt { hi: self.hi + 1, lo: 0 }
        } else {
            Felt { hi: 0, lo: 0 }
        }
    }

    /// Whether the value is zero.
    pub fn is_zero(&self) -> (r: bool)
        ensures
            r == (self.value() == 0),
    {
        self.hi == 0 && self.lo == 0
    }
}

impl ExecEq for Felt {
    fn exec_eq(&self, other: &Self) -> (r: bool) {
        self.hi == other.hi && self.lo == other.lo
    }
}

/// An integer of any size and sign, kept as its sign and the bytes of its
/// magnitude, most significant first.  Leading zero bytes do not change the
/// number, and zero has no sign.
#[derive(Clone, Debug, PartialEq, Eq)]
pub struct BigInt {
    pub negative: bool,
    pub bytes: Vec<u8>,
}

impl BigInt {
    /// The number that the sign and the bytes stand for.
    pub open spec fn value(&self) -> int {
        if self.negative {
            -(be_value(self.bytes@) as int)
        } else {
            be_value(self.bytes@) as int
        }
    }

    /// The non-negative integer that the bytes stand for, most significant
    /// first.
    pub fn from_bytes_be(bytes: Vec<u8>) -> (r: BigInt)
        ensures
            !r.negative,
            r.bytes == bytes,
            r.value() == be_value(bytes@),
    {
        BigInt { negative: false, bytes }
    }

    /// The integer with the given sign whose magnitude the bytes stand for,
    /// most significant first.
    pub fn from_signed_bytes_be(negative: bool, bytes: Vec<u8>) -> (r: BigInt)
        ensures
            r.negative == negative,
            r.bytes == bytes,
            r.value() == (if negative {
                -(be_value(bytes@) as int)
            } else {
                be_value(bytes@) as int
            }),
    {
        BigInt { negative, bytes }
    }

    /// The integer as a value of 256 bits, if it is not negative and fits.
    pub fn to_felt(&self) -> (r: Option<Felt>)
        ensures
            r.is_some() == (0 <= self.value() < pow2_256()),
            r matches Some(felt) ==> felt.value() == self.value(),
    {
        match Felt::from_be_slice(self.bytes.as_slice()) {
            Some(magnitude) => {
                if self.negative && !magnitude.is_zero() {
                    None
                } else {
                    Some(magnitude)
                }
            },
            None => None,
        }
    }
}

/// A copy of a vector of bytes.
pub fn copy_bytes(bytes: &Vec<u8>) -> (r: Vec<u8>)
    ensures
        r@ == bytes@,
{
    let mut r: Vec<u8> = Vec::new();
    let mut i: usize = 0;
    while i < bytes.len()
        invariant
            i <= bytes@.len(),
            r@ == bytes@.take(i as int),
        decreases bytes@.len() - i,
    {
        r.push(bytes[i]);
        assert(bytes@.take(i + 1) =~= bytes@.take(i as int).push(bytes@[i as int]));
        i += 1;
    }
    assert(bytes@.take(bytes@.len() as int) =~= bytes@);
    r
}

/// A copy of a vector of values.
pub fn copy_felts(values: &Vec<Felt>) -> (r: Vec<Felt>)
    ensures
        r@ == values@,
{
    let mut r: Vec<Felt> = Vec::new();
    let mut i: usize = 0;
    while i < values.len()
        invariant
            i <= values@.len(),
            r@ == values@.take(i as int),
        decreases values@.len() - i,
    {
        r.push(values[i]);
        assert(values@.take(i + 1) =~= values@.take(i as int).push(values@[i as int]));
        i += 1;
    }
    assert(values@.take(values@.len() as int) =~= values@);
    r
}

/// The identifier of a deployed contract.
#[derive(Clone, Copy, Debug, PartialEq, Eq, Hash, Structural)]
pub struct Address(pub Felt);

impl ExecEq for Address {
    fn exec_eq(&self, other: &Self) -> (r: bool) {
        self.0.exec_eq(&other.0)
    }
}

/// The identifier of a contract's compiled code.
pub type ClassHash = [u8; 32];

/// The key of a storage cell within one contract.
pub type StorageKey = [u8; 32];

/// A storage cell: the contract and the key within it.
pub type StorageEntry = (Address, StorageKey);

impl ExecEq for [u8; 32] {
    fn exec_eq(&self, other: &Self) -> (r: bool) {
        let mut i: usize = 0;
        while i < 32
            invariant
                i <= 32,
                forall|j: int| 0 <= j < i ==> self@[j] == other@[j],
            decreases 32 - i,
        {
            if self[i] != other[i] {
                return false;
            }
            i += 1;
        }
        assert(*self =~= *other);
        true
    }
}

impl ExecEq for (Address, [u8; 32]) {
    fn exec_eq(&self, other: &Self) -> (r: bool) {
        self.0.exec_eq(&other.0) && self.1.exec_eq(&other.1)
    }
}

} // verus!
