//! Bit-exact ARINC 429 status-word codec.
//!
//! A status word packs a `label` (8 bits), a source/destination identifier
//! `sdi` (2 bits), a `data` payload (19 bits), a sign/status matrix `ssm`
//! (2 bits) and one parity bit into a single 32-bit pattern:
//! bits [0, 8) label, [8, 10) sdi, [10, 29) data, [29, 31) ssm, bit 31
//! parity, with bit 0 the least significant. The pattern travels in the low
//! bits of a 64-bit numeric transport slot whose upper bits are zero.
//!
//! The parity bit is computed over the 31 non-parity bits at encode time;
//! consumers recompute and compare, and never trust the stored bit blindly.

use vstd::prelude::*;

verus! {

/// The two-bit sign/status matrix: the health/validity tag of a word.
#[derive(Clone, Copy, PartialEq, Eq, Structural, Debug)]
pub enum SignStatus {
    FailureWarning,
    NoComputedData,
    FunctionalTest,
    NormalOperation,
}

impl SignStatus {
    /// The two-bit encoding of the sign/status matrix.
    pub open spec fn spec_to_u32(self) -> u32 {
        match self {
            SignStatus::FailureWarning => 0,
            SignStatus::NoComputedData => 1,
            SignStatus::FunctionalTest => 2,
            SignStatus::NormalOperation => 3,
        }
    }

    /// The sign/status matrix denoted by a two-bit value.
    pub open spec fn spec_from_u32(v: u32) -> SignStatus {
        if v == 0 {
            SignStatus::FailureWarning
        } else if v == 1 {
            SignStatus::NoComputedData
        } else if v == 2 {
            SignStatus::FunctionalTest
        } else {
            SignStatus::NormalOperation
        }
    }

    pub fn to_u32(self) -> (r: u32)
        ensures
            r == self.spec_to_u32(),
    {
        match self {
            SignStatus::FailureWarning => 0,
            SignStatus::NoComputedData => 1,
            SignStatus::FunctionalTest => 2,
            SignStatus::NormalOperation => 3,
        }
    }

    /// Inverse of `to_u32`; a value wider than two bits is a caller error.
    pub fn from_u32(v: u32) -> (r: SignStatus)
        requires
            v < 4,
        ensures
            r == SignStatus::spec_from_u32(v),
            r.spec_to_u32() == v,
    {
        if v == 0 {
            SignStatus::FailureWarning
        } else if v == 1 {
            SignStatus::NoComputedData
        } else if v == 2 {
            SignStatus::FunctionalTest
        } else {
            SignStatus::NormalOperation
        }
    }

    pub proof fn lemma_u32_round_trip(self)
        ensures
            SignStatus::spec_from_u32(self.spec_to_u32()) == self,
    {
    }
}

/// The parity tag of a bit pattern: `Odd` records an odd count of one bits,
/// `Even` an even count. As the stored parity bit, `Odd` is written as 0 and
/// `Even` as 1, which gives every well-formed word an odd total bit count.
#[derive(Clone, Copy, PartialEq, Eq, Structural, Debug)]
pub enum Parity {
    Odd,
    Even,
}

impl Parity {
    /// The one-bit encoding of the parity tag.
    pub open spec fn spec_to_u32(self) -> u32 {
        match self {
            Parity::Odd => 0,
            Parity::Even => 1,
        }
    }

    /// The parity tag denoted by a one-bit value.
    pub open spec fn spec_from_u32(v: u32) -> Parity {
        if v == 0 {
            Parity::Odd
        } else {
            Parity::Even
        }
    }

    pub fn to_u32(self) -> (r: u32)
        ensures
            r == self.spec_to_u32(),
    {
        match self {
            Parity::Odd => 0,
            Parity::Even => 1,
        }
    }

    /// Inverse of `to_u32`; a value wider than one bit is a caller error.
    pub fn from_u32(v: u32) -> (r: Parity)
        requires
            v < 2,
        ensures
            r == Parity::spec_from_u32(v),
            r.spec_to_u32() == v,
    {
        if v == 0 {
            Parity::Odd
        } else {
            Parity::Even
        }
    }

    pub proof fn lemma_u32_round_trip(self)
        ensures
            Parity::spec_from_u32(self.spec_to_u32()) == self,
    {
    }
}

/// True when `v` has an odd number of one bits: the exclusive-or fold of the
/// bits, lowest first.
pub open spec fn odd_ones(v: u32) -> bool
    decreases v,
{
    if v == 0 {
        false
    } else {
        (v % 2 == 1) != odd_ones(v / 2)
    }
}

/// The parity tag of a bit pattern.
pub open spec fn spec_parity_of(v: u32) -> Parity {
    if odd_ones(v) {
        Parity::Odd
    } else {
        Parity::Even
    }
}

/// Recomputes the parity tag of a 32-bit pattern by folding its bits,
/// lowest first.
pub fn calculate_parity_bit(value: u32) -> (p: Parity)
    ensures
        p == spec_parity_of(value),
{
    let mut v: u32 = value;
    let mut odd: bool = false;
    while v != 0
        invariant
            odd_ones(value) == (odd != odd_ones(v)),
        decreases v,
    {
        proof {
            assert(v & 1 == v % 2) by (bit_vector);
            assert(v >> 1u32 == v / 2) by (bit_vector);
            assert(odd_ones(v) == ((v % 2 == 1) != odd_ones(v / 2)));
        }
        odd = odd != ((v & 1) == 1);
        v = v >> 1u32;
    }
    if odd {
        Parity::Odd
    } else {
        Parity::Even
    }
}

/// A caller supplied a field value wider than its allotted width: a
/// programming error upstream, rejected at construction, never a runtime
/// condition.
#[derive(Clone, Copy, PartialEq, Eq, Structural, Debug)]
pub struct RangeError;

/// A 32-bit ARINC 429 status word, kept as its five fields.
#[derive(Clone, Copy, PartialEq, Eq, Structural, Debug)]
pub struct Arinc429WordBetter {
    pub label: u8,
    pub sdi: u8,   // two bits wide
    pub data: u32, // nineteen bits wide
    pub ssm: SignStatus,
    pub p: Parity,
}

impl Arinc429WordBetter {
    /// Field widths respected: the SDI fits in two bits and the data payload
    /// in nineteen.
    pub open spec fn wf(self) -> bool {
        self.sdi < 4 && self.data < 0x8_0000
    }

    /// The 31 non-parity bits, assembled in word order with the parity bit
    /// left clear.
    pub open spec fn spec_payload(self) -> u32 {
        (self.label as u32) | ((self.sdi as u32) << 8u32) | (self.data << 10u32) | (
        self.ssm.spec_to_u32() << 29u32)
    }

    /// The full 32-bit word pattern.
    pub open spec fn spec_word(self) -> u32 {
        self.spec_payload() | (self.p.spec_to_u32() << 31u32)
    }

    /// The parity discipline: the stored bit equals the parity recomputed
    /// over the four non-parity fields.
    pub open spec fn encoded(self) -> bool {
        self.p == spec_parity_of(self.spec_payload())
    }

    /// The word that encoding the four fields produces.
    pub open spec fn spec_encode(value: u32, ssm: SignStatus, sdi: u8, label: u8) -> Arinc429WordBetter {
        let bare = Arinc429WordBetter { label, sdi, data: value, ssm, p: Parity::Odd };
        Arinc429WordBetter {
            label,
            sdi,
            data: value,
            ssm,
            p: spec_parity_of(bare.spec_payload()),
        }
    }

    /// The word held in the low bits of a transport slot, its parity bit
    /// taken as found.
    pub open spec fn spec_from_transport(slot: u64) -> Arinc429WordBetter {
        Arinc429WordBetter {
            label: (slot & 0xff) as u8,
            sdi: ((slot >> 8u32) & 0b11) as u8,
            data: ((slot >> 10u32) & 0x7_ffff) as u32,
            ssm: SignStatus::spec_from_u32(((slot >> 29u32) & 0b11) as u32),
            p: Parity::spec_from_u32(((slot >> 31u32) & 1) as u32),
        }
    }

    fn payload(&self) -> (r: u32)
        ensures
            r == self.spec_payload(),
    {
        (self.label as u32) | ((self.sdi as u32) << 8u32) | (self.data << 10u32) | (
        self.ssm.to_u32() << 29u32)
    }

    /// Builds a word from all four fields and computes its parity bit.
    /// A data value wider than nineteen bits or an SDI wider than two is a
    /// caller error.
    pub fn new_with_label(value: u32, ssm: SignStatus, sdi: u8, label: u8) -> (w: Self)
        requires
            value < 0x8_0000,
            sdi < 4,
        ensures
            w == Self::spec_encode(value, ssm, sdi, label),
            w.label == label,
            w.sdi == sdi,
            w.data == value,
            w.ssm == ssm,
            w.wf(),
            w.encoded(),
    {
        let mut word = Arinc429WordBetter { label, sdi, data: value, ssm, p: Parity::Odd };
        word.p = calculate_parity_bit(word.payload());
        word
    }

    /// Builds a word with label and SDI zero; prefer `new_with_label`.
    pub fn new(value: u32, ssm: SignStatus) -> (w: Self)
        requires
            value < 0x8_0000,
        ensures
            w == Self::spec_encode(value, ssm, 0, 0),
            w.label == 0,
            w.sdi == 0,
            w.data == value,
            w.ssm == ssm,
            w.wf(),
            w.encoded(),
    {
        Self::new_with_label(value, ssm, 0, 0)
    }

    /// Fail-fast construction: a data value wider than nineteen bits or an
    /// SDI wider than two is rejected with `RangeError`, exactly — the
    /// chosen policy is rejection, not silent truncation.
    pub fn checked_new_with_label(value: u32, ssm: SignStatus, sdi: u8, label: u8) -> (r: Result<
        Arinc429WordBetter,
        RangeError,
    >)
        ensures
            r is Ok <==> value < 0x8_0000 && sdi < 4,
            r matches Ok(w) ==> w == Self::spec_encode(value, ssm, sdi, label),
    {
        if value < 0x8_0000 && sdi < 4 {
            Ok(Self::new_with_label(value, ssm, sdi, label))
        } else {
            Err(RangeError)
        }
    }

    /// The data field, but only when the SSM indicates normal operation and
    /// the recomputed parity matches the stored bit; the primary consumption
    /// path.
    pub fn normal_value(&self) -> (r: Option<u32>)
        ensures
            r == (if self.ssm is NormalOperation && self.encoded() {
                Some(self.data)
            } else {
                None::<u32>
            }),
    {
        if self.is_normal_operation() && self.is_correct_parity() {
            Some(self.data)
        } else {
            None
        }
    }

    pub fn ssm(&self) -> (r: SignStatus)
        ensures
            r == self.ssm,
    {
        self.ssm
    }

    pub fn sdi(&self) -> (r: u8)
        ensures
            r == self.sdi,
    {
        self.sdi
    }

    pub fn parity(&self) -> (r: Parity)
        ensures
            r == self.p,
    {
        self.p
    }

    pub fn label(&self) -> (r: u8)
        ensures
            r == self.label,
    {
        self.label
    }

    pub fn data(&self) -> (r: u32)
        ensures
            r == self.data,
    {
        self.data
    }

    pub fn is_failure_warning(&self) -> (r: bool)
        ensures
            r == (self.ssm is FailureWarning),
    {
        match self.ssm {
            SignStatus::FailureWarning => true,
            _ => false,
        }
    }

    pub fn is_no_computed_data(&self) -> (r: bool)
        ensures
            r == (self.ssm is NoComputedData),
    {
        match self.ssm {
            SignStatus::NoComputedData => true,
            _ => false,
        }
    }

    pub fn is_functional_test(&self) -> (r: bool)
        ensures
            r == (self.ssm is FunctionalTest),
    {
        match self.ssm {
            SignStatus::FunctionalTest => true,
            _ => false,
        }
    }

    pub fn is_normal_operation(&self) -> (r: bool)
        ensures
            r == (self.ssm is NormalOperation),
    {
        match self.ssm {
            SignStatus::NormalOperation => true,
            _ => false,
        }
    }

    /// Recomputes parity over the four non-parity fields and compares it
    /// with the stored bit.
    pub fn is_correct_parity(&self) -> (r: bool)
        ensures
            r == self.encoded(),
    {
        let computed = calculate_parity_bit(self.payload());
        let stored = self.p;
        stored == computed
    }

    /// Sets one discrete bit of the data field and refreshes the parity bit.
    /// Positions follow the one-based word numbering in which the data field
    /// spans positions 11 to 29; any other position is a caller error.
    pub fn set_bit(&mut self, bit: u8, value: bool)
        requires
            11 <= bit <= 29,
            old(self).wf(),
        ensures
            final(self).label == old(self).label,
            final(self).sdi == old(self).sdi,
            final(self).ssm == old(self).ssm,
            final(self).data == (if value {
                old(self).data | (1u32 << ((bit - 11) as u32))
            } else {
                old(self).data & !(1u32 << ((bit - 11) as u32))
            }),
            final(self).wf(),
            final(self).encoded(),
    {
        let shift: u32 = (bit - 11) as u32;
        let mask: u32 = 1u32 << shift;
        proof {
            let d = old(self).data;
            assert((d | (1u32 << shift)) < 0x8_0000 && (d & !(1u32 << shift)) < 0x8_0000)
                by (bit_vector)
                requires
                    d < 0x8_0000,
                    shift <= 18u32,
            ;
        }
        if value {
            self.data = self.data | mask;
        } else {
            self.data = self.data & !mask;
        }
        self.p = calculate_parity_bit(self.payload());
    }

    /// Reads one discrete bit of the data field; positions as in `set_bit`.
    pub fn get_bit(&self, bit: u8) -> (r: bool)
        requires
            11 <= bit <= 29,
        ensures
            r == (((self.data >> ((bit - 11) as u32)) & 1) != 0),
    {
        ((self.data >> ((bit - 11) as u32)) & 1) != 0
    }

    /// The word packed into the low 32 bits of a numeric transport slot,
    /// exactly, with the upper bits zero.
    pub fn to_transport(&self) -> (r: u64)
        ensures
            r == self.spec_word() as u64,
    {
        self.to_u32() as u64
    }

    /// The full 32-bit word pattern.
    pub fn to_u32(&self) -> (r: u32)
        ensures
            r == self.spec_word(),
    {
        self.payload() | (self.p.to_u32() << 31u32)
    }

    /// Unpacks the word held in the low bits of a transport slot. The stored
    /// parity bit is taken as found: validation is a separate query.
    pub fn from_transport(slot: u64) -> (w: Self)
        ensures
            w == Self::spec_from_transport(slot),
            w.wf(),
    {
        let label_bits: u64 = slot & 0xff;
        let sdi_bits: u64 = (slot >> 8u32) & 0b11;
        let data_bits: u64 = (slot >> 10u32) & 0x7_ffff;
        let ssm_bits: u64 = (slot >> 29u32) & 0b11;
        let parity_bits: u64 = (slot >> 31u32) & 1;
        proof {
            assert((slot & 0xff) < 0x100 && ((slot >> 8u32) & 0b11) < 4 && ((slot >> 10u32)
                & 0x7_ffff) < 0x8_0000 && ((slot >> 29u32) & 0b11) < 4 && ((slot >> 31u32) & 1)
                < 2) by (bit_vector);
        }
        Arinc429WordBetter {
            label: label_bits as u8,
            sdi: sdi_bits as u8,
            data: data_bits as u32,
            ssm: SignStatus::from_u32(ssm_bits as u32),
            p: Parity::from_u32(parity_bits as u32),
        }
    }
}

/// Extracting each field back out of the packed 32-bit pattern, widened into
/// a transport slot, recovers the value that went in.
proof fn lemma_pack_extract(l: u32, s: u32, d: u32, m: u32, q: u32)
    by (bit_vector)
    requires
        l < 0x100,
        s < 4,
        d < 0x8_0000,
        m < 4,
        q < 2,
    ensures
        ({
            let v = l | (s << 8u32) | (d << 10u32) | (m << 29u32) | (q << 31u32);
            let t = v as u64;
            (t & 0xff) == l as u64 && ((t >> 8u32) & 0b11) == s as u64 && ((t >> 10u32)
                & 0x7_ffff) == d as u64 && ((t >> 29u32) & 0b11) == m as u64 && ((t >> 31u32) & 1)
                == q as u64
        }),
{
}

/// Round-trip law: for every valid combination of label, SDI, data and SSM,
/// encoding, packing the word into a transport slot and unpacking it again
/// reproduces the same four fields together with a parity bit for which the
/// parity check holds.
pub proof fn lemma_transport_round_trip(value: u32, ssm: SignStatus, sdi: u8, label: u8)
    requires
        value < 0x8_0000,
        sdi < 4,
    ensures
        ({
            let w = Arinc429WordBetter::spec_encode(value, ssm, sdi, label);
            Arinc429WordBetter::spec_from_transport(w.spec_word() as u64) == w && w.encoded()
        }),
{
    let w = Arinc429WordBetter::spec_encode(value, ssm, sdi, label);
    lemma_pack_extract(label as u32, sdi as u32, value, ssm.spec_to_u32(), w.p.spec_to_u32());
    ssm.lemma_u32_round_trip();
    w.p.lemma_u32_round_trip();
    let r = Arinc429WordBetter::spec_from_transport(w.spec_word() as u64);
    assert(r.label == w.label);
    assert(r.sdi == w.sdi);
    assert(r.data == w.data);
    assert(r.ssm == w.ssm);
    assert(r.p == w.p);
}

/// The exclusive-or fold distributes over exclusive-or of patterns.
proof fn lemma_odd_ones_xor(a: u32, b: u32)
    ensures
        odd_ones(a ^ b) == (odd_ones(a) != odd_ones(b)),
    decreases a + b,
{
    if a == 0 && b == 0 {
        assert(a ^ b == 0u32) by (bit_vector)
            requires
                a == 0u32,
                b == 0u32,
        ;
    } else {
        assert((a ^ b) / 2 == (a / 2) ^ (b / 2) && ((a ^ b) % 2 == 1) == ((a % 2 == 1) != (b % 2
            == 1))) by (bit_vector);
        assert(a / 2 + b / 2 < a + b);
        lemma_odd_ones_xor(a / 2, b / 2);
        assert(odd_ones(a) == ((a % 2 == 1) != odd_ones(a / 2)));
        assert(odd_ones(b) == ((b % 2 == 1) != odd_ones(b / 2)));
        assert(odd_ones(a ^ b) == (((a ^ b) % 2 == 1) != odd_ones((a ^ b) / 2)));
    }
}

/// A pattern with exactly one bit set has an odd count of one bits.
proof fn lemma_odd_ones_single_bit(k: u32)
    requires
        k < 32,
    ensures
        odd_ones(1u32 << k),
    decreases k,
{
    if k == 0 {
        assert(1u32 << 0u32 == 1u32) by (bit_vector);
        assert(!odd_ones(0u32));
        assert(odd_ones(1u32));
    } else {
        assert((1u32 << k) % 2 == 0 && (1u32 << k) / 2 == 1u32 << ((k - 1) as u32) && (1u32 << k)
            != 0)
            by (bit_vector)
            requires
                0 < k < 32u32,
        ;
        lemma_odd_ones_single_bit((k - 1) as u32);
        assert(odd_ones(1u32 << k) == (((1u32 << k) % 2 == 1) != odd_ones((1u32 << k) / 2)));
    }
}

/// Parity law: flipping exactly one bit among the label, SDI, data and SSM
/// fields of an encoded word, without refreshing the stored parity bit,
/// makes the parity check fail.
pub proof fn lemma_single_bit_flip_breaks_parity(
    w: Arinc429WordBetter,
    flipped: Arinc429WordBetter,
    k: u32,
)
    requires
        w.encoded(),
        k < 31,
        flipped.p == w.p,
        flipped.spec_payload() == w.spec_payload() ^ (1u32 << k),
    ensures
        !flipped.encoded(),
{
    lemma_odd_ones_xor(w.spec_payload(), 1u32 << k);
    lemma_odd_ones_single_bit(k);
}

} // verus!
