//! Connection identifiers: 128-bit values, written on the wire in the
//! canonical hyphenated form (`8-4-4-4-12` lower-case hexadecimal digits).

use vstd::arithmetic::power2::pow2;
use vstd::prelude::*;

verus! {

/// The sixteen lower-case hexadecimal digits, by value.
pub open spec fn hex_digits() -> Seq<char> {
    seq!['0', '1', '2', '3', '4', '5', '6', '7', '8', '9', 'a', 'b', 'c', 'd', 'e', 'f']
}

/// The `k`-th hexadecimal digit of `v`, counted from the most significant
/// one: `k` runs from 0 to 31.
pub open spec fn nibble(v: u128, k: nat) -> nat {
    ((v as nat) / pow2((4 * (31 - k)) as nat)) % 16
}

/// How many hyphens stand before position `i` of the canonical form.
pub open spec fn hyphens_before(i: int) -> int {
    if i < 8 {
        0
    } else if i < 13 {
        1
    } else if i < 18 {
        2
    } else if i < 23 {
        3
    } else {
        4
    }
}

/// Whether position `i` of the canonical form holds a hyphen.
pub open spec fn is_hyphen_position(i: int) -> bool {
    i == 8 || i == 13 || i == 18 || i == 23
}

/// The canonical text of a 128-bit identifier: 36 characters, hyphens at
/// positions 8, 13, 18 and 23, and the 32 hexadecimal digits of the value,
/// most significant first, in lower case, at the others.
pub open spec fn canonical_text(v: u128) -> Seq<char> {
    Seq::new(
        36,
        |i: int|
            if is_hyphen_position(i) {
                '-'
            } else {
                hex_digits()[nibble(v, (i - hyphens_before(i)) as nat) as int]
            },
    )
}

/// Whether `v` has the shape of a randomly generated identifier: version 4
/// in bits 76 to 79, and the two variant bits 63 and 62 set to `10`.
pub open spec fn is_random_form(v: u128) -> bool {
    (v >> 76) & 0xf == 4 && (v >> 62) & 0x3 == 2
}

/// What the identifier parser makes of a text: the value it denotes, if it
/// denotes one.
pub uninterp spec fn parsed_uuid(text: Seq<char>) -> Option<u128>;

/// `uuid::Error`: why the identifier parser refused a text. It is carried
/// through unread.
#[verifier::external_type_specification]
#[verifier::external_body]
pub struct ExUuidError(uuid::Error);

/// `uuid::Uuid::new_v4`, as its 128-bit value. The value is random; every
/// outcome carries version 4 and the RFC variant. The call fails only where
/// the operating system cannot supply random bytes.
#[verifier::external_body]
fn random_uuid() -> (v: u128)
    ensures
        is_random_form(v),
{
    uuid::Uuid::new_v4().as_u128()
}

/// `uuid::Uuid::from_str`, with the identifier as its 128-bit value. The
/// outcome depends on the text alone. The canonical text of a value is
/// always accepted and gives that value back.
#[verifier::external_body]
fn parse_uuid(text: &str) -> (r: Result<u128, uuid::Error>)
    ensures
        r is Ok <==> parsed_uuid(text@) is Some,
        r is Ok ==> parsed_uuid(text@) == Some(r->Ok_0),
        forall|v: u128| #[trigger] canonical_text(v) == text@ ==> r is Ok && r->Ok_0 == v,
{
    let parsed: Result<uuid::Uuid, uuid::Error> = std::str::FromStr::from_str(text);
    match parsed {
        Ok(id) => Ok(id.as_u128()),
        Err(e) => Err(e),
    }
}

/// `Uuid::to_string` on `uuid::Uuid::from_u128(v)`: the canonical hyphenated
/// lower-case text of `v`.
#[verifier::external_body]
fn format_uuid(v: u128) -> (text: String)
    ensures
        text@ == canonical_text(v),
{
    uuid::Uuid::from_u128(v).to_string()
}

/// The canonical text has 36 characters; each is a hyphen or a lower-case
/// hexadecimal digit, and the hyphens stand at positions 8, 13, 18 and 23.
pub proof fn lemma_canonical_text_shape(v: u128, i: int)
    requires
        0 <= i < 36,
    ensures
        canonical_text(v).len() == 36,
        is_hyphen_position(i) ==> canonical_text(v)[i] == '-',
        !is_hyphen_position(i) ==> hex_digits().contains(canonical_text(v)[i]),
{
    if !is_hyphen_position(i) {
        let k = nibble(v, (i - hyphens_before(i)) as nat) as int;
        assert(0 <= k < 16);
        assert(hex_digits()[k] == canonical_text(v)[i]);
    }
}

/// The identifier of one accepted TCP connection.
#[derive(Clone, Copy, Debug, PartialEq, Eq, Hash, Structural)]
pub struct ConnectionId {
    pub value: u128,
}

/// A text that does not denote an identifier.
#[derive(Clone, Copy, Debug, PartialEq, Eq, Structural)]
pub struct InvalidId;

impl View for ConnectionId {
    type V = u128;

    open spec fn view(&self) -> u128 {
        self.value
    }
}

impl ConnectionId {
    /// The identifier with the given 128-bit value.
    pub fn from_u128(value: u128) -> (id: ConnectionId)
        ensures
            id@ == value,
    {
        ConnectionId { value }
    }

    /// The 128-bit value of the identifier.
    pub fn as_u128(&self) -> (value: u128)
        ensures
            value == self@,
    {
        self.value
    }

    /// A fresh random identifier (version 4). Two calls may differ.
    pub fn generate() -> (id: ConnectionId)
        ensures
            is_random_form(id@),
    {
        ConnectionId { value: random_uuid() }
    }

    /// Reads an identifier from a text. Succeeds exactly on the texts that
    /// denote an identifier, among them every canonical text.
    pub fn parse(text: &str) -> (r: Result<ConnectionId, InvalidId>)
        ensures
            r == Self::spec_parse(text@),
            forall|v: u128| #[trigger]
                canonical_text(v) == text@ ==> r == Ok::<ConnectionId, InvalidId>(
                    ConnectionId { value: v },
                ),
    {
        match parse_uuid(text) {
            Ok(value) => Ok(ConnectionId { value }),
            Err(_) => Err(InvalidId),
        }
    }

    /// The outcome of [`ConnectionId::parse`] on a text.
    pub open spec fn spec_parse(text: Seq<char>) -> Result<ConnectionId, InvalidId> {
        match parsed_uuid(text) {
            Some(value) => Ok(ConnectionId { value }),
            None => Err(InvalidId),
        }
    }

    /// The canonical text of the identifier, as it travels on the wire.
    pub fn to_text(&self) -> (text: String)
        ensures
            text@ == canonical_text(self@),
    {
        format_uuid(self.value)
    }
}

} // verus!
