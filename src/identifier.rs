//! The 128-bit identifier used throughout the wire formats.
use vstd::prelude::*;

verus! {

/// A 128-bit identifier, held as its sixteen bytes in wire order: the GUID layout,
/// whose first three fields (4, 2 and 2 bytes) are little-endian.
#[derive(Clone, Copy, Debug, Hash)]
pub struct Identifier {
    pub bytes: [u8; 16],
}

#[verifier::external_type_specification]
#[verifier::external_body]
pub struct ExUuidError(uuid::Error);

/// Why a text could not be read as an identifier.
#[derive(Clone, Copy, Debug, PartialEq, Eq, Structural)]
pub enum IdentifierError {
    /// The text is not in one of the accepted identifier formats.
    Format,
}

/// Sixteen zero bytes: the reserved identifier that names no entity.
pub open spec fn zero_bytes() -> Seq<u8> {
    Seq::new(16, |i: int| 0u8)
}

/// The hexadecimal digit of a nibble, in upper or lower case.
pub open spec fn hex_digit(n: u8, upper: bool) -> char {
    if n < 10 {
        (48 + n) as char
    } else if upper {
        (55 + n) as char
    } else {
        (87 + n) as char
    }
}

/// Two hexadecimal digits for each byte of `s`.
pub open spec fn hex_run(s: Seq<u8>, upper: bool) -> Seq<char>
    decreases s.len(),
{
    if s.len() == 0 {
        Seq::empty()
    } else {
        seq![hex_digit(s[0] / 16, upper), hex_digit(s[0] % 16, upper)] + hex_run(
            s.drop_first(),
            upper,
        )
    }
}

/// The bytes of a GUID-layout identifier in text order: the first three fields
/// byte-reversed, the last eight bytes as they are.
pub open spec fn text_order(b: Seq<u8>) -> Seq<u8> {
    seq![b[3], b[2], b[1], b[0], b[5], b[4], b[7], b[6]] + b.subrange(8, 16)
}

/// Hexadecimal digits of the bytes of `b`, taken in text order, in groups of 4, 2,
/// 2, 2 and 6 bytes, joined by hyphens.
pub open spec fn hyphenated(b: Seq<u8>, upper: bool) -> Seq<char> {
    let t = text_order(b);
    hex_run(t.subrange(0, 4), upper) + seq!['-'] + hex_run(t.subrange(4, 6), upper) + seq!['-']
        + hex_run(t.subrange(6, 8), upper) + seq!['-'] + hex_run(t.subrange(8, 10), upper) + seq![
        '-',
    ] + hex_run(t.subrange(10, 16), upper)
}

/// Canonical text of an identifier: hyphenated, with upper-case digits.
pub open spec fn identifier_text(b: Seq<u8>) -> Seq<char> {
    hyphenated(b, true)
}

/// Debug text of an identifier: hyphenated, with lower-case digits.
pub open spec fn identifier_debug_text(b: Seq<u8>) -> Seq<char> {
    hyphenated(b, false)
}

/// `s` is the canonical text of some identifier.
pub open spec fn is_identifier_text(s: Seq<char>) -> bool {
    exists|b: Seq<u8>| b.len() == 16 && #[trigger] identifier_text(b) == s
}

/// The bytes that uuid's parser reads from a text, or `None` where it rejects it.
pub uninterp spec fn parsed_identifier(s: Seq<char>) -> Option<Seq<u8>>;

/// Relies on `uuid::Uuid::parse_str`, with `to_bytes_le` for the GUID layout: the
/// bytes it reads depend on the text alone, and the hyphenated text of any
/// identifier parses back to bytes of the same text.
#[verifier::external_body]
fn uuid_parse(s: &str) -> (r: Result<[u8; 16], uuid::Error>)
    ensures
        r is Ok <==> parsed_identifier(s@) is Some,
        r matches Ok(b) ==> parsed_identifier(s@) == Some(b@),
        is_identifier_text(s@) ==> r is Ok,
        r matches Ok(b) ==> (is_identifier_text(s@) ==> identifier_text(b@) == s@),
{
    match uuid::Uuid::parse_str(s) {
        Ok(u) => Ok(u.to_bytes_le()),
        Err(e) => Err(e),
    }
}

/// Relies on `uuid::Uuid::from_bytes_le`, which reads the GUID layout, and on
/// `Uuid`'s `UpperHex` formatting, which writes the hyphenated form with upper-case
/// digits.
#[verifier::external_body]
fn uuid_text_upper(b: &[u8; 16]) -> (r: String)
    ensures
        r@ == identifier_text(b@),
{
    format!("{:X}", uuid::Uuid::from_bytes_le(*b))
}

/// Relies on `uuid::Uuid::from_bytes_le`, which reads the GUID layout, and on
/// `Uuid`'s `Debug` formatting, which writes the hyphenated form with lower-case
/// digits.
#[verifier::external_body]
fn uuid_text_debug(b: &[u8; 16]) -> (r: String)
    ensures
        r@ == identifier_debug_text(b@),
{
    format!("{:?}", uuid::Uuid::from_bytes_le(*b))
}

/// Relies on `uuid::Uuid::new_v4`, with `to_bytes_le` for the GUID layout: random
/// bits, with the version nibble set to 4 and the variant bits set to `10`.
#[verifier::external_body]
fn uuid_random() -> (r: [u8; 16])
    ensures
        r@[7] / 16 == 4,
        r@[8] / 64 == 2,
{
    uuid::Uuid::new_v4().to_bytes_le()
}

impl Identifier {
    /// Whether this is the reserved zero identifier.
    pub open spec fn is_zero_spec(&self) -> bool {
        self.bytes@ == zero_bytes()
    }

    /// The reserved zero identifier.
    pub fn zero() -> (r: Identifier)
        ensures
            r.bytes@ == zero_bytes(),
    {
        let r = Identifier { bytes: [0u8; 16] };
        assert(r.bytes@ =~= zero_bytes());
        r
    }

    /// Whether this is the reserved zero identifier.
    pub fn is_zero(&self) -> (r: bool)
        ensures
            r == self.is_zero_spec(),
    {
        let mut i: usize = 0;
        while i < 16
            invariant
                i <= 16,
                forall|j: int| 0 <= j < i ==> self.bytes@[j] == 0,
            decreases 16 - i,
        {
            if self.bytes[i] != 0 {
                return false;
            }
            i = i + 1;
        }
        assert(self.bytes@ =~= zero_bytes());
        true
    }

    /// The identifier held in the sixteen bytes of `b` starting at `at`.
    pub fn read(b: &[u8], at: usize) -> (r: Identifier)
        requires
            at + 16 <= b@.len(),
        ensures
            r.bytes@ == b@.subrange(at as int, at + 16),
    {
        let mut bytes = [0u8; 16];
        let n = b.len();
        let mut i: usize = 0;
        while i < 16
            invariant
                i <= 16,
                at + 16 <= n,
                n == b@.len(),
                forall|j: int| 0 <= j < i ==> bytes@[j] == b@[at + j],
            decreases 16 - i,
        {
            bytes[i] = b[at + i];
            i = i + 1;
        }
        assert(bytes@ =~= b@.subrange(at as int, at + 16));
        Identifier { bytes }
    }

    /// Appends the sixteen bytes of this identifier.
    pub fn write(&self, out: &mut Vec<u8>)
        ensures
            final(out)@ == old(out)@ + self.bytes@,
    {
        let mut i: usize = 0;
        while i < 16
            invariant
                i <= 16,
                out@ == old(out)@ + self.bytes@.subrange(0, i as int),
            decreases 16 - i,
        {
            out.push(self.bytes[i]);
            i = i + 1;
            assert(out@ =~= old(out)@ + self.bytes@.subrange(0, i as int));
        }
        assert(self.bytes@.subrange(0, 16) =~= self.bytes@);
    }

    /// Reads an identifier from text in one of the accepted formats.
    pub fn parse_str(s: &str) -> (r: Result<Identifier, IdentifierError>)
        ensures
            r is Ok <==> parsed_identifier(s@) is Some,
            r matches Ok(id) ==> parsed_identifier(s@) == Some(id.bytes@),
            is_identifier_text(s@) ==> r is Ok,
            r matches Ok(id) ==> (is_identifier_text(s@) ==> identifier_text(id.bytes@) == s@),
    {
        match uuid_parse(s) {
            Ok(bytes) => Ok(Identifier { bytes }),
            Err(_) => Err(IdentifierError::Format),
        }
    }

    /// The canonical upper-case hyphenated text of this identifier.
    pub fn to_text(&self) -> (r: String)
        ensures
            r@ == identifier_text(self.bytes@),
    {
        uuid_text_upper(&self.bytes)
    }

    /// The debug text of this identifier: hyphenated, with lower-case digits.
    pub fn to_debug_text(&self) -> (r: String)
        ensures
            r@ == identifier_debug_text(self.bytes@),
    {
        uuid_text_debug(&self.bytes)
    }

    /// A fresh random identifier, for values minted locally: version 4, variant
    /// `10`, so never the zero identifier.
    pub fn random() -> (r: Identifier)
        ensures
            r.bytes@[7] / 16 == 4,
            r.bytes@[8] / 64 == 2,
            !r.is_zero_spec(),
    {
        let bytes = uuid_random();
        assert(bytes@[7] != 0);
        Identifier { bytes }
    }
}

impl PartialEq for Identifier {
    fn eq(&self, other: &Identifier) -> (r: bool)
        ensures
            r == (self.bytes@ == other.bytes@),
    {
        let mut i: usize = 0;
        while i < 16
            invariant
                i <= 16,
                forall|j: int| 0 <= j < i ==> self.bytes@[j] == other.bytes@[j],
            decreases 16 - i,
        {
            if self.bytes[i] != other.bytes[i] {
                return false;
            }
            i = i + 1;
        }
        assert(self.bytes@ =~= other.bytes@);
        true
    }
}

impl vstd::std_specs::cmp::PartialEqSpecImpl for Identifier {
    open spec fn obeys_eq_spec() -> bool {
        true
    }

    open spec fn eq_spec(&self, other: &Identifier) -> bool {
        self.bytes@ == other.bytes@
    }
}

impl Eq for Identifier {}

} // verus!
