//! The set of codecs the device is allowed to negotiate.
//!
//! The set travels as one byte in which each codec has a fixed pattern of
//! bits. The patterns are the device's own and are kept as they are: those
//! of the two aptX variants share a bit with LDAC. Which combinations the
//! device honours is not known, so every union of the five patterns is
//! accepted; a byte with any other bit set is not.

use crate::bta30::parameter::Parameter;
use crate::bta30::registry::ParameterType;
use crate::bta30::CommandBuilderError;
use vstd::prelude::*;

verus! {

/// The bits of AAC.
pub const AAC: u8 = 0b0000_0010;

/// The bits of LDAC.
pub const LDAC: u8 = 0b0000_0100;

/// The bits of aptX.
pub const APTX: u8 = 0b0000_1000;

/// The bits of aptX Low Latency.
pub const APTX_LL: u8 = 0b0001_0100;

/// The bits of aptX HD.
pub const APTX_HD: u8 = 0b0010_0100;

/// Every bit that belongs to a codec.
pub const ALL_CODECS: u8 = 0b0011_1110;

/// Whether a byte has no bit set outside those of the five codecs.
pub open spec fn known_bits_only(bits: u8) -> bool {
    bits & !ALL_CODECS == 0
}

/// A set of codecs.
#[derive(Clone, Copy, Debug, PartialEq, Eq, Structural)]
pub struct EnabledCodecsParameter {
    bits: u8,
}

impl View for EnabledCodecsParameter {
    type V = u8;

    /// The byte that stands for the set.
    closed spec fn view(&self) -> u8 {
        self.bits
    }
}

impl EnabledCodecsParameter {
    #[verifier::type_invariant]
    spec fn valid(self) -> bool {
        known_bits_only(self.bits)
    }

    /// The set with no codec in it.
    pub fn empty() -> (set: Self)
        ensures
            set@ == 0,
    {
        assert(known_bits_only(0)) by (bit_vector);
        EnabledCodecsParameter { bits: 0 }
    }

    /// The set of all five codecs.
    pub fn all() -> (set: Self)
        ensures
            set@ == ALL_CODECS,
    {
        assert(known_bits_only(ALL_CODECS)) by (bit_vector);
        EnabledCodecsParameter { bits: ALL_CODECS }
    }

    /// AAC alone.
    pub fn aac() -> (set: Self)
        ensures
            set@ == AAC,
    {
        assert(known_bits_only(AAC)) by (bit_vector);
        EnabledCodecsParameter { bits: AAC }
    }

    /// LDAC alone.
    pub fn ldac() -> (set: Self)
        ensures
            set@ == LDAC,
    {
        assert(known_bits_only(LDAC)) by (bit_vector);
        EnabledCodecsParameter { bits: LDAC }
    }

    /// aptX alone.
    pub fn aptx() -> (set: Self)
        ensures
            set@ == APTX,
    {
        assert(known_bits_only(APTX)) by (bit_vector);
        EnabledCodecsParameter { bits: APTX }
    }

    /// aptX Low Latency alone.
    pub fn aptx_ll() -> (set: Self)
        ensures
            set@ == APTX_LL,
    {
        assert(known_bits_only(APTX_LL)) by (bit_vector);
        EnabledCodecsParameter { bits: APTX_LL }
    }

    /// aptX HD alone.
    pub fn aptx_hd() -> (set: Self)
        ensures
            set@ == APTX_HD,
    {
        assert(known_bits_only(APTX_HD)) by (bit_vector);
        EnabledCodecsParameter { bits: APTX_HD }
    }

    /// The set that a byte stands for. Fails with `InvalidBitFlagCombination`
    /// where the byte has a bit set that belongs to no codec, and never drops
    /// such a bit.
    pub fn from_bits(bits: u8) -> (r: Result<Self, CommandBuilderError>)
        ensures
            known_bits_only(bits) ==> r is Ok && r->Ok_0@ == bits,
            !known_bits_only(bits) ==> r == Err::<Self, CommandBuilderError>(
                CommandBuilderError::InvalidBitFlagCombination,
            ),
    {
        if bits & !ALL_CODECS != 0 {
            return Err(CommandBuilderError::InvalidBitFlagCombination);
        }
        Ok(EnabledCodecsParameter { bits })
    }

    /// The byte that stands for the set. No bit outside the five codecs is
    /// ever set in it.
    pub fn bits(&self) -> (bits: u8)
        ensures
            bits == self@,
            known_bits_only(bits),
    {
        proof {
            use_type_invariant(self);
        }
        self.bits
    }

    /// Whether no codec is in the set.
    pub fn is_empty(&self) -> (none: bool)
        ensures
            none == (self@ == 0),
    {
        self.bits == 0
    }

    /// Whether every bit of `other` is set in this set.
    pub fn contains(&self, other: Self) -> (all: bool)
        ensures
            all == (self@ & other@ == other@),
    {
        self.bits & other.bits == other.bits
    }

    /// The bits that are set in either set.
    pub fn union(self, other: Self) -> (set: Self)
        ensures
            set@ == self@ | other@,
    {
        proof {
            use_type_invariant(self);
            use_type_invariant(other);
            lemma_union_known(self.bits, other.bits);
        }
        EnabledCodecsParameter { bits: self.bits | other.bits }
    }

    /// The bits that are set in both sets.
    pub fn intersection(self, other: Self) -> (set: Self)
        ensures
            set@ == self@ & other@,
    {
        proof {
            use_type_invariant(self);
            lemma_intersection_known(self.bits, other.bits);
        }
        EnabledCodecsParameter { bits: self.bits & other.bits }
    }
}

impl Parameter for EnabledCodecsParameter {
    open spec fn parameter_type() -> ParameterType {
        ParameterType::EnabledCodecs
    }

    /// One byte: the bits of the set.
    open spec fn encoding(&self) -> Seq<u8> {
        seq![self@]
    }

    proof fn lemma_encoding_len(&self) {
    }

    fn value(&self) -> (bytes: Vec<u8>) {
        vec![self.bits]
    }
}

/// The five patterns together make up the bits that belong to a codec.
pub proof fn lemma_all_codecs()
    ensures
        AAC | LDAC | APTX | APTX_LL | APTX_HD == ALL_CODECS,
{
    assert(AAC | LDAC | APTX | APTX_LL | APTX_HD == ALL_CODECS) by (bit_vector);
}

/// A union of two bytes without unknown bits has no unknown bit.
pub proof fn lemma_union_known(a: u8, b: u8)
    requires
        known_bits_only(a),
        known_bits_only(b),
    ensures
        known_bits_only(a | b),
{
    assert(a & !ALL_CODECS == 0 && b & !ALL_CODECS == 0 ==> (a | b) & !ALL_CODECS == 0)
        by (bit_vector);
}

/// An intersection with a byte without unknown bits has no unknown bit.
pub proof fn lemma_intersection_known(a: u8, b: u8)
    requires
        known_bits_only(a),
    ensures
        known_bits_only(a & b),
{
    assert(a & !ALL_CODECS == 0 ==> (a & b) & !ALL_CODECS == 0) by (bit_vector);
}

/// Union does not depend on the order of its operands or on how they are
/// grouped, and a set united with itself is unchanged.
pub proof fn lemma_union_laws(a: u8, b: u8, c: u8)
    ensures
        a | b == b | a,
        (a | b) | c == a | (b | c),
        a | a == a,
        a | 0 == a,
{
    assert(a | b == b | a) by (bit_vector);
    assert((a | b) | c == a | (b | c)) by (bit_vector);
    assert(a | a == a) by (bit_vector);
    assert(a | 0 == a) by (bit_vector);
}

/// A union holds every bit of both of its operands.
pub proof fn lemma_union_contains(a: u8, b: u8)
    ensures
        (a | b) & a == a,
        (a | b) & b == b,
{
    assert((a | b) & a == a) by (bit_vector);
    assert((a | b) & b == b) by (bit_vector);
}

} // verus!
