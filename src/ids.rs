//! Element identifiers: those a document gives, and fallbacks for those it
//! lacks.
use vstd::prelude::*;
use crate::sexpr::{SExpr, Tree, find_spec, get_atom_spec};

verus! {

/// A 128-bit element identifier.
#[derive(Clone, Copy, Debug, PartialEq, Eq, Structural)]
pub struct ElementId {
    pub value: u128,
}

/// Where an identifier comes from when a document does not give one.
#[derive(Clone, Copy, Debug, PartialEq, Eq, Structural)]
pub enum IdPolicy {
    /// A fresh random identifier each time.
    Random,
    /// An identifier made of the seed, the kind of element and its index.
    Derived(u64),
}

/// What `Uuid::parse_str` reads from a text, as a 128-bit value.
pub uninterp spec fn parsed_uuid(s: Seq<char>) -> Option<u128>;

/// The value of a hexadecimal digit, in either case.
pub open spec fn hex_digit(c: char) -> Option<int> {
    if '0' <= c <= '9' {
        Some(c as int - '0' as int)
    } else if 'a' <= c <= 'f' {
        Some(c as int - 'a' as int + 10)
    } else if 'A' <= c <= 'F' {
        Some(c as int - 'A' as int + 10)
    } else {
        None
    }
}

/// The number that hexadecimal digits spell, most significant first.
pub open spec fn hex_value(s: Seq<char>) -> int
    decreases s.len(),
{
    if s.len() == 0 {
        0
    } else {
        hex_value(s.drop_last()) * 16 + hex_digit(s.last())->Some_0
    }
}

pub open spec fn all_hex(s: Seq<char>) -> bool {
    forall|i: int| 0 <= i < s.len() ==> hex_digit(#[trigger] s[i]) is Some
}

/// Thirty-six characters: hex digits in groups of 8, 4, 4, 4 and 12, with
/// hyphens at 8, 13, 18 and 23.
pub open spec fn is_hyphenated_uuid(t: Seq<char>) -> bool {
    &&& t.len() == 36
    &&& t[8] == '-' && t[13] == '-' && t[18] == '-' && t[23] == '-'
    &&& all_hex(uuid_digits(t))
}

/// The 32 hex digits of a hyphenated identifier.
pub open spec fn uuid_digits(t: Seq<char>) -> Seq<char> {
    t.subrange(0, 8) + t.subrange(9, 13) + t.subrange(14, 18) + t.subrange(19, 23) + t.subrange(
        24,
        36,
    )
}

/// Thirty-two hex digits.
pub open spec fn is_simple_uuid(t: Seq<char>) -> bool {
    t.len() == 32 && all_hex(t)
}

pub open spec fn is_ascii_text(t: Seq<char>) -> bool {
    forall|i: int| 0 <= i < t.len() ==> (#[trigger] t[i]) as u32 <= 0x7f
}

/// The identifier a text spells: the value of its digits in the hyphenated
/// and the plain form, nothing for an ASCII text of another length than 32,
/// 36, 38 or 45, and what the parser gives otherwise.
pub open spec fn uuid_of_text(t: Seq<char>) -> Option<u128> {
    if is_hyphenated_uuid(t) {
        Some(hex_value(uuid_digits(t)) as u128)
    } else if is_simple_uuid(t) {
        Some(hex_value(t) as u128)
    } else if is_ascii_text(t) && !(t.len() == 32 || t.len() == 36 || t.len() == 38 || t.len()
        == 45) {
        None
    } else {
        parsed_uuid(t)
    }
}

/// Relies on `uuid::Uuid::parse_str` and `Uuid::as_u128`: the identifier a
/// text spells, if it spells one. The parser takes byte lengths 32, 36, 38
/// and 45 only; a 36-byte text with hyphens at 8, 13, 18 and 23 and hex
/// digits (either case) elsewhere, or 32 hex digits, gives the digits' value
/// read most significant first.
#[verifier::external_body]
fn parse_uuid(s: &str) -> (r: Option<u128>)
    ensures
        r == parsed_uuid(s@),
        is_hyphenated_uuid(s@) ==> r == Some(hex_value(uuid_digits(s@)) as u128),
        is_simple_uuid(s@) ==> r == Some(hex_value(s@) as u128),
        is_ascii_text(s@) && !(s@.len() == 32 || s@.len() == 36 || s@.len() == 38 || s@.len()
            == 45) ==> r is None,
{
    uuid::Uuid::parse_str(s).ok().map(|u| u.as_u128())
}

/// Relies on `uuid::Uuid::new_v4` and `Uuid::as_u128`: a random identifier.
#[verifier::external_body]
fn random_uuid() -> (r: u128) {
    uuid::Uuid::new_v4().as_u128()
}

/// Kinds of element, kept apart in derived identifiers.
pub const KIND_SHEET: u8 = 0;
pub const KIND_SYMBOL: u8 = 1;
pub const KIND_WIRE: u8 = 2;
pub const KIND_LABEL: u8 = 3;
pub const KIND_JUNCTION: u8 = 4;
pub const KIND_NO_CONNECT: u8 = 5;
pub const KIND_POWER: u8 = 6;
pub const KIND_BUS: u8 = 7;
pub const KIND_COMPONENT: u8 = 8;
pub const KIND_FOOTPRINT: u8 = 9;

/// The derived identifier of the `index`-th element of a kind.
pub open spec fn derived_id(seed: u64, kind: u8, index: int) -> u128 {
    (seed as int * 0x1_0000_0000_0000_0000 + kind as int * 0x1_0000_0000_0000 + index
        % 0x1_0000_0000_0000) as u128
}

/// The identifier the element gives in its `(uuid ...)` child.
pub open spec fn given_uuid(e: Tree) -> Option<u128> {
    match find_spec(e, "uuid"@) {
        Some(u) => match get_atom_spec(u, 1) {
            Some(t) => uuid_of_text(t),
            None => None,
        },
        None => None,
    }
}

/// An identifier that a document gave is kept; one it did not give comes
/// from the policy.
pub open spec fn id_rule(id: u128, given: Option<u128>, policy: IdPolicy, kind: u8, index: int) -> bool {
    match given {
        Some(u) => id == u,
        None => match policy {
            IdPolicy::Derived(seed) => id == derived_id(seed, kind, index),
            IdPolicy::Random => true,
        },
    }
}

/// The identifier that `(uuid ...)` in `e` gives.
pub fn read_uuid(e: &SExpr) -> (r: Option<u128>)
    ensures
        r == given_uuid(e@),
{
    match e.find("uuid") {
        Some(u) => match u.get_atom(1) {
            Some(t) => parse_uuid(t),
            None => None,
        },
        None => None,
    }
}

/// A fallback identifier for the `index`-th element of a kind.
pub fn fallback_id(policy: IdPolicy, kind: u8, index: usize) -> (r: ElementId)
    ensures
        id_rule(r.value, None, policy, kind, index as int),
{
    match policy {
        IdPolicy::Random => ElementId { value: random_uuid() },
        IdPolicy::Derived(seed) => {
            let v = (seed as u128) * 0x1_0000_0000_0000_0000u128 + (kind as u128)
                * 0x1_0000_0000_0000u128 + (index as u128) % 0x1_0000_0000_0000u128;
            ElementId { value: v }
        },
    }
}

/// The identifier of the `index`-th element `e` of a kind.
pub fn element_id(e: &SExpr, policy: IdPolicy, kind: u8, index: usize) -> (r: ElementId)
    ensures
        id_rule(r.value, given_uuid(e@), policy, kind, index as int),
{
    match read_uuid(e) {
        Some(u) => ElementId { value: u },
        None => fallback_id(policy, kind, index),
    }
}

} // verus!
