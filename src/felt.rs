use starknet_types_core::felt::Felt as StarkFelt;
use starknet_types_core::hash::{Poseidon, StarkHash};
use vstd::prelude::*;

verus! {

/// An element of the Stark prime field, held as its 32-byte big-endian encoding.
///
/// Hashes, addresses, commitments and trie roots are all felts. Two felts are
/// equal when their encodings are; the conversions from starknet-types-core
/// always give the canonical encoding (the one below the prime).
#[derive(Clone, Copy, Debug)]
pub struct Felt {
    pub bytes: [u8; 32],
}

impl View for Felt {
    type V = Seq<u8>;

    open spec fn view(&self) -> Seq<u8> {
        self.bytes@
    }
}

impl PartialEq for Felt {
    fn eq(&self, other: &Felt) -> (r: bool) {
        let mut i: usize = 0;
        while i < 32
            invariant
                0 <= i <= 32,
                forall|j: int| 0 <= j < i ==> self.bytes@[j] == other.bytes@[j],
            decreases 32 - i,
        {
            if self.bytes[i] != other.bytes[i] {
                return false;
            }
            i = i + 1;
        }
        assert(self.bytes =~= other.bytes);
        true
    }
}

impl vstd::std_specs::cmp::PartialEqSpecImpl for Felt {
    open spec fn obeys_eq_spec() -> bool {
        true
    }

    open spec fn eq_spec(&self, other: &Felt) -> bool {
        *self == *other
    }
}

impl Eq for Felt {
}

/// The integer that a big-endian byte sequence encodes.
pub open spec fn be_value(s: Seq<u8>) -> nat
    decreases s.len(),
{
    if s.len() == 0 {
        0
    } else {
        be_value(s.drop_last()) * 256 + s.last() as nat
    }
}

/// The felt zero as a byte sequence.
pub open spec fn zero_bytes() -> Seq<u8> {
    Seq::new(32, |i: int| 0u8)
}

/// The felt zero.
pub open spec fn zero_felt() -> Felt {
    Felt { bytes: vstd::array::spec_array_fill_for_copy_type::<u8, 32>(0u8) }
}

/// What Poseidon's array hash gives for a sequence of felts (each by its encoding).
pub uninterp spec fn poseidon_hash_of(felts: Seq<[u8; 32]>) -> [u8; 32];

/// Relies on `Felt::from(u64)` and `Felt::to_bytes_be` of starknet-types-core:
/// the encoding of a felt that holds the integer `v`.
#[verifier::external_body]
fn felt_bytes_of_u64(v: u64) -> (r: [u8; 32])
    ensures
        be_value(r@) == v as nat,
{
    StarkFelt::from(v).to_bytes_be()
}

/// Relies on `Poseidon::hash_array` of starknet-types-core: the hash of the
/// given felts, in order, which depends on them alone.
#[verifier::external_body]
fn poseidon_hash_array(felts: &Vec<Felt>) -> (r: Felt)
    ensures
        r.bytes == poseidon_hash_of(felts@.map_values(|f: Felt| f.bytes)),
{
    let input: Vec<StarkFelt> = felts.iter().map(|f| StarkFelt::from_bytes_be(&f.bytes)).collect();
    Felt { bytes: Poseidon::hash_array(&input).to_bytes_be() }
}

/// The encoding of the felt zero is all zero bytes.
pub proof fn lemma_zero_felt_bytes()
    ensures
        zero_felt()@ == zero_bytes(),
{
    assert(zero_felt()@ =~= zero_bytes());
}

/// Two felts are equal exactly when their encodings are.
pub proof fn lemma_felt_view_eq(a: Felt, b: Felt)
    ensures
        (a@ == b@) == (a == b),
{
    if a@ == b@ {
        assert(a.bytes =~= b.bytes);
    }
}

impl Felt {
    /// The felt zero.
    pub fn zero() -> (r: Felt)
        ensures
            r == zero_felt(),
            r@ == zero_bytes(),
    {
        let r = Felt { bytes: [0u8; 32] };
        assert(r@ =~= zero_bytes());
        r
    }

    /// The felt that holds the integer `v`.
    pub fn from_u64(v: u64) -> (r: Felt)
        ensures
            be_value(r@) == v as nat,
    {
        Felt { bytes: felt_bytes_of_u64(v) }
    }

    /// The felt with the given big-endian encoding.
    pub fn from_bytes_be(bytes: [u8; 32]) -> (r: Felt)
        ensures
            r@ == bytes@,
    {
        Felt { bytes }
    }

    /// The big-endian encoding of this felt.
    pub fn to_bytes_be(&self) -> (r: [u8; 32])
        ensures
            r@ == self@,
    {
        self.bytes
    }

    /// Whether this felt is zero.
    pub fn is_zero(&self) -> (r: bool)
        ensures
            r == (self@ == zero_bytes()),
            r == (*self == zero_felt()),
    {
        proof {
            lemma_zero_felt_bytes();
        }
        let mut i: usize = 0;
        while i < 32
            invariant
                0 <= i <= 32,
                forall|j: int| 0 <= j < i ==> self.bytes@[j] == 0u8,
            decreases 32 - i,
        {
            if self.bytes[i] != 0 {
                return false;
            }
            i = i + 1;
        }
        assert(self@ =~= zero_bytes());
        assert(self.bytes =~= zero_felt().bytes);
        true
    }
}

/// Poseidon's array hash of a sequence of felts.
pub open spec fn poseidon_felt(felts: Seq<Felt>) -> Felt {
    Felt { bytes: poseidon_hash_of(felts.map_values(|f: Felt| f.bytes)) }
}

/// Poseidon's hash of the felts `a`, `b` and `c`, in that order.
pub fn poseidon_hash3(a: Felt, b: Felt, c: Felt) -> (r: Felt)
    ensures
        r == poseidon_felt(seq![a, b, c]),
{
    let v: Vec<Felt> = vec![a, b, c];
    let r = poseidon_hash_array(&v);
    assert(v@.map_values(|f: Felt| f.bytes) =~= seq![a, b, c].map_values(|f: Felt| f.bytes));
    r
}

} // verus!
