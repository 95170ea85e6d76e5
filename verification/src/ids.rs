//! User ids: 128-bit UUIDs, read and written through the `uuid` crate.
use vstd::prelude::*;
use crate::text::{digit_char, push_str, string_of};

verus! {

/// The value of a hexadecimal digit of either case.
pub open spec fn hex_digit(c: char) -> Option<nat> {
    if '0' <= c && c <= '9' {
        Some((c as int - '0' as int) as nat)
    } else if 'a' <= c && c <= 'f' {
        Some((c as int - 'a' as int + 10) as nat)
    } else if 'A' <= c && c <= 'F' {
        Some((c as int - 'A' as int + 10) as nat)
    } else {
        None
    }
}

/// Every character of `s` is a hexadecimal digit.
pub open spec fn all_hex(s: Seq<char>) -> bool {
    forall|i: int| 0 <= i < s.len() ==> (#[trigger] hex_digit(s[i])) is Some
}

/// The number that the hexadecimal digits `s` denote.
pub open spec fn hex_value(s: Seq<char>) -> nat
    decreases s.len(),
{
    if s.len() == 0 {
        0
    } else {
        hex_value(s.drop_last()) * 16 + match hex_digit(s.last()) {
            Some(d) => d,
            None => 0,
        }
    }
}

/// The 32 digits of a hyphenated UUID (`8-4-4-4-12`), without the hyphens.
pub open spec fn hyphen_groups(s: Seq<char>) -> Option<Seq<char>> {
    if s.len() == 36 && s[8] == '-' && s[13] == '-' && s[18] == '-' && s[23] == '-' {
        Some(
            s.subrange(0, 8) + s.subrange(9, 13) + s.subrange(14, 18) + s.subrange(19, 23)
                + s.subrange(24, 36),
        )
    } else {
        None
    }
}

/// ASCII lower-casing of one character.
pub open spec fn ascii_lower(c: char) -> char {
    if 'A' <= c && c <= 'Z' {
        ((c as u32) + 32) as char
    } else {
        c
    }
}

/// The 32 digit characters of each text form that `Uuid::parse_str` takes:
/// simple, hyphenated, braced and URN (with a prefix of any case).
pub open spec fn uuid_hex_digits(s: Seq<char>) -> Option<Seq<char>> {
    if s.len() == 32 {
        Some(s)
    } else if s.len() == 36 {
        hyphen_groups(s)
    } else if s.len() == 38 && s[0] == '{' && s[37] == '}' {
        hyphen_groups(s.subrange(1, 37))
    } else if s.len() == 45 && s.take(9).map_values(|c: char| ascii_lower(c)) == "urn:uuid:"@ {
        hyphen_groups(s.skip(9))
    } else {
        None
    }
}

/// The UUID that a text denotes, if it is one.
pub open spec fn uuid_from_text(s: Seq<char>) -> Option<u128> {
    match uuid_hex_digits(s) {
        Some(d) => if all_hex(d) {
            Some(hex_value(d) as u128)
        } else {
            None
        },
        None => None,
    }
}

/// The lower-case hexadecimal digit of `d`.
pub open spec fn hex_char(d: nat) -> char {
    if d < 10 {
        digit_char(d)
    } else {
        ((d - 10 + 'a' as int) as u32) as char
    }
}

/// The lowest `n` hexadecimal digits of `v`, most significant first.
pub open spec fn hex_lower(v: nat, n: nat) -> Seq<char>
    decreases n,
{
    if n == 0 {
        Seq::<char>::empty()
    } else {
        hex_lower(v / 16, (n - 1) as nat).push(hex_char(v % 16))
    }
}

/// The hyphenated lower-case text of a UUID, as its `Display` writes it.
pub open spec fn uuid_hyphenated(v: u128) -> Seq<char> {
    let h = hex_lower(v as nat, 32);
    h.subrange(0, 8) + seq!['-'] + h.subrange(8, 12) + seq!['-'] + h.subrange(12, 16) + seq!['-']
        + h.subrange(16, 20) + seq!['-'] + h.subrange(20, 32)
}

/// `Uuid::parse_str`, the id given as its 128-bit value (`Uuid::as_u128`).
///
/// Claims that the crate accepts exactly the simple, hyphenated, braced and
/// URN forms with hexadecimal digits of either case, reading the digits as a
/// big-endian number.
#[verifier::external_body]
fn uuid_parse(s: &str) -> (r: Option<u128>)
    ensures
        r == uuid_from_text(s@),
{
    match uuid::Uuid::parse_str(s) {
        Ok(u) => Some(u.as_u128()),
        Err(_) => None,
    }
}

/// `Uuid::to_string` of the id with the given 128-bit value (`Uuid::from_u128`).
///
/// Claims that the crate writes the hyphenated form with lower-case digits.
#[verifier::external_body]
fn uuid_text(id: u128) -> (r: String)
    ensures
        r@ == uuid_hyphenated(id),
{
    uuid::Uuid::from_u128(id).to_string()
}

/// Reads a user id from text.
pub fn parse_user_id(s: &str) -> (r: Option<u128>)
    ensures
        r == uuid_from_text(s@),
{
    uuid_parse(s)
}

/// The text of a user id.
pub fn user_id_string(id: u128) -> (r: String)
    ensures
        r@ == uuid_hyphenated(id),
{
    uuid_text(id)
}

/// "User with id .. not found".
pub fn user_not_found_message(id: u128) -> (r: String)
    ensures
        r@ == "User with id "@ + uuid_hyphenated(id) + " not found"@,
{
    let mut r = string_of("User with id ");
    let t = uuid_text(id);
    push_str(&mut r, t.as_str());
    push_str(&mut r, " not found");
    r
}

/// Powers of sixteen.
pub open spec fn pow16(n: nat) -> nat
    decreases n,
{
    if n == 0 {
        1
    } else {
        16 * pow16((n - 1) as nat)
    }
}

proof fn lemma_hex_char(d: nat)
    requires
        d < 16,
    ensures
        hex_digit(hex_char(d)) == Some(d),
{
}

proof fn lemma_hex_lower(v: nat, n: nat)
    ensures
        hex_lower(v, n).len() == n,
        all_hex(hex_lower(v, n)),
        hex_value(hex_lower(v, n)) == v % pow16(n),
    decreases n,
{
    if n > 0 {
        let m = (n - 1) as nat;
        lemma_hex_lower(v / 16, m);
        lemma_hex_char(v % 16);
        let h = hex_lower(v, n);
        assert(h.drop_last() =~= hex_lower(v / 16, m));
        assert(h.last() == hex_char(v % 16));
        assert forall|i: int| 0 <= i < h.len() implies (#[trigger] hex_digit(h[i])) is Some by {
            if i < m {
                assert(h[i] == hex_lower(v / 16, m)[i]);
            }
        }
        assert(pow16(m) > 0) by {
            lemma_pow16_positive(m);
        }
        vstd::arithmetic::div_mod::lemma_mod_breakdown(v as int, 16, pow16(m) as int);
        assert(hex_value(h) == hex_value(h.drop_last()) * 16 + v % 16);
    } else {
        assert(v % 1 == 0);
    }
}

proof fn lemma_pow16_positive(n: nat)
    ensures
        pow16(n) > 0,
    decreases n,
{
    if n > 0 {
        lemma_pow16_positive((n - 1) as nat);
    }
}

proof fn lemma_pow16_32()
    ensures
        pow16(32) == 0x1_0000_0000_0000_0000_0000_0000_0000_0000,
{
    reveal_with_fuel(pow16, 33);
}

/// Reading back the text of an id gives the id: `Uuid::parse_str` of
/// `Uuid::to_string` is the same UUID, for every UUID.
pub proof fn lemma_uuid_roundtrip(id: u128)
    ensures
        uuid_from_text(uuid_hyphenated(id)) == Some(id),
{
    let h = hex_lower(id as nat, 32);
    lemma_hex_lower(id as nat, 32);
    lemma_pow16_32();
    let s = uuid_hyphenated(id);
    assert(s.len() == 36);
    assert(s[8] == '-' && s[13] == '-' && s[18] == '-' && s[23] == '-');
    assert(hyphen_groups(s) == Some(h)) by {
        assert(s.subrange(0, 8) + s.subrange(9, 13) + s.subrange(14, 18) + s.subrange(19, 23)
            + s.subrange(24, 36) =~= h);
    }
}

} // verus!
