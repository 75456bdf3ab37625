//! Identifiers of nodes, node types, job types, jobs and schedule items:
//! 128-bit values whose written form is 32 lowercase hexadecimal digits in
//! groups of 8, 4, 4, 4 and 12, with a hyphen between the groups.

use vstd::prelude::*;

verus! {

/// A 128-bit identifier.
#[derive(Clone, Copy, Debug, PartialEq, Eq, Hash, Structural)]
pub struct Uuid {
    pub value: u128,
}

/// The lowercase hexadecimal digit for a value from 0 to 15.
pub open spec fn hex_digit(n: int) -> char {
    if n == 0 {
        '0'
    } else if n == 1 {
        '1'
    } else if n == 2 {
        '2'
    } else if n == 3 {
        '3'
    } else if n == 4 {
        '4'
    } else if n == 5 {
        '5'
    } else if n == 6 {
        '6'
    } else if n == 7 {
        '7'
    } else if n == 8 {
        '8'
    } else if n == 9 {
        '9'
    } else if n == 10 {
        'a'
    } else if n == 11 {
        'b'
    } else if n == 12 {
        'c'
    } else if n == 13 {
        'd'
    } else if n == 14 {
        'e'
    } else {
        'f'
    }
}

/// The lowest `n` hexadecimal digits of `v`, the most significant first.
pub open spec fn hex_text(v: int, n: nat) -> Seq<char>
    decreases n,
{
    if n == 0 {
        Seq::empty()
    } else {
        hex_text(v / 16, (n - 1) as nat).push(hex_digit(v % 16))
    }
}

/// What is left of `v` once its lowest `n` hexadecimal digits are taken away.
pub open spec fn hex_rest(v: int, n: nat) -> int
    decreases n,
{
    if n == 0 {
        v
    } else {
        hex_rest(v / 16, (n - 1) as nat)
    }
}

/// Thirty-two digits in groups of 8, 4, 4, 4 and 12 with hyphens between.
pub open spec fn grouped(digits: Seq<char>) -> Seq<char> {
    digits.subrange(0, 8).push('-') + digits.subrange(8, 12).push('-') + digits.subrange(
        12,
        16,
    ).push('-') + digits.subrange(16, 20).push('-') + digits.subrange(20, 32)
}

/// The written form of an identifier: `xxxxxxxx-xxxx-xxxx-xxxx-xxxxxxxxxxxx`.
pub open spec fn hyphenated_text(v: u128) -> Seq<char> {
    grouped(hex_text(v as int, 32))
}

/// Whether `text` is the written form of some identifier.
pub open spec fn is_hyphenated(text: Seq<char>) -> bool {
    exists|v: u128| #[trigger] hyphenated_text(v) == text
}

/// What `uuid::Uuid::parse_str` makes of a text that is not in the written
/// form above (it also reads the forms without hyphens, in braces, with the
/// `urn:uuid:` prefix and with capital digits).
pub uninterp spec fn parsed_uuid(text: Seq<char>) -> Option<Uuid>;

/// The identifier that a text stands for, if it stands for one.
pub open spec fn uuid_of_text(text: Seq<char>) -> Option<Uuid> {
    if is_hyphenated(text) {
        Some(Uuid { value: choose|v: u128| #[trigger] hyphenated_text(v) == text })
    } else {
        parsed_uuid(text)
    }
}

proof fn lemma_hex_text_len(v: int, n: nat)
    ensures
        hex_text(v, n).len() == n,
    decreases n,
{
    if n > 0 {
        lemma_hex_text_len(v / 16, (n - 1) as nat);
    }
}

proof fn lemma_hex_text_injective(a: int, b: int, n: nat)
    requires
        hex_text(a, n) == hex_text(b, n),
        hex_rest(a, n) == hex_rest(b, n),
    ensures
        a == b,
    decreases n,
{
    if n > 0 {
        let m = (n - 1) as nat;
        let ta = hex_text(a / 16, m);
        let tb = hex_text(b / 16, m);
        lemma_hex_text_len(a / 16, m);
        lemma_hex_text_len(b / 16, m);
        assert(ta.push(hex_digit(a % 16)) == tb.push(hex_digit(b % 16)));
        assert(ta.push(hex_digit(a % 16)).last() == hex_digit(a % 16));
        assert(tb.push(hex_digit(b % 16)).last() == hex_digit(b % 16));
        assert(ta.push(hex_digit(a % 16)).drop_last() == ta);
        assert(tb.push(hex_digit(b % 16)).drop_last() == tb);
        assert(a % 16 == b % 16);
        lemma_hex_text_injective(a / 16, b / 16, m);
    }
}

proof fn lemma_hex_rest_of_u128(v: u128)
    ensures
        hex_rest(v as int, 32) == 0,
{
    let x = v as int;
    assert(x < 0x1_0000_0000_0000_0000_0000_0000_0000_0000);
    reveal_with_fuel(hex_rest, 33);
    let a = x / 16 / 16 / 16 / 16 / 16 / 16 / 16 / 16;
    assert(a < 0x1_0000_0000_0000_0000_0000_0000);
    let b = a / 16 / 16 / 16 / 16 / 16 / 16 / 16 / 16;
    assert(b < 0x1_0000_0000_0000_0000);
    let c = b / 16 / 16 / 16 / 16 / 16 / 16 / 16 / 16;
    assert(c < 0x1_0000_0000);
    let d = c / 16 / 16 / 16 / 16 / 16 / 16 / 16 / 16;
    assert(d == 0);
    assert(hex_rest(x, 32) == d);
}

proof fn lemma_grouped_injective(s: Seq<char>, t: Seq<char>)
    requires
        s.len() == 32,
        t.len() == 32,
        grouped(s) == grouped(t),
    ensures
        s == t,
{
    let g = grouped(s);
    let h = grouped(t);
    assert(g.len() == 36);
    assert forall|i: int| 0 <= i < 32 implies s[i] == t[i] by {
        let j = if i < 8 {
            i
        } else if i < 12 {
            i + 1
        } else if i < 16 {
            i + 2
        } else if i < 20 {
            i + 3
        } else {
            i + 4
        };
        assert(g[j] == s[i]);
        assert(h[j] == t[i]);
    }
    assert(s =~= t);
}

/// Two identifiers that are written alike are the same identifier.
pub proof fn lemma_hyphenated_injective(a: u128, b: u128)
    requires
        hyphenated_text(a) == hyphenated_text(b),
    ensures
        a == b,
{
    lemma_hex_text_len(a as int, 32);
    lemma_hex_text_len(b as int, 32);
    lemma_grouped_injective(hex_text(a as int, 32), hex_text(b as int, 32));
    lemma_hex_rest_of_u128(a);
    lemma_hex_rest_of_u128(b);
    lemma_hex_text_injective(a as int, b as int, 32);
}

/// The written form is 36 characters long.
pub proof fn lemma_hyphenated_len(v: u128)
    ensures
        hyphenated_text(v).len() == 36,
{
    lemma_hex_text_len(v as int, 32);
}

/// Reading the written form of an identifier gives the identifier back.
pub proof fn lemma_uuid_round_trip(id: Uuid)
    ensures
        uuid_of_text(hyphenated_text(id.value)) == Some(id),
{
    let text = hyphenated_text(id.value);
    assert(is_hyphenated(text));
    let v = choose|v: u128| #[trigger] hyphenated_text(v) == text;
    lemma_hyphenated_injective(v, id.value);
}

/// Calls `uuid::Uuid::hyphenated` on the identifier with this value and
/// collects what it displays: the lowercase digits of the value, the most
/// significant first, grouped 8-4-4-4-12.
#[verifier::external_body]
fn hyphenated_of(value: u128) -> (text: String)
    ensures
        text@ == hyphenated_text(value),
{
    uuid::Uuid::from_u128(value).hyphenated().to_string()
}

/// Calls `uuid::Uuid::parse_str`. A text in the written form gives the
/// identifier it spells; of any other text the outcome is only named.
#[verifier::external_body]
fn parse_text(text: &str) -> (r: Option<Uuid>)
    ensures
        r == uuid_of_text(text@),
        !is_hyphenated(text@) ==> r == parsed_uuid(text@),
{
    match uuid::Uuid::parse_str(text) {
        Ok(id) => Some(Uuid { value: id.as_u128() }),
        Err(_) => None,
    }
}

/// Calls `uuid::Uuid::new_v4`: a random value but for the six bits that say
/// "version 4" and "variant 1".
#[verifier::external_body]
fn random_v4() -> (value: u128)
    ensures
        value & 0x0000_0000_0000_f000_c000_0000_0000_0000u128
            == 0x0000_0000_0000_4000_8000_0000_0000_0000u128,
{
    uuid::Uuid::new_v4().as_u128()
}

impl Uuid {
    /// Whether the value carries the marks of a random (version 4) identifier.
    pub open spec fn is_v4(self) -> bool {
        self.value & 0x0000_0000_0000_f000_c000_0000_0000_0000u128
            == 0x0000_0000_0000_4000_8000_0000_0000_0000u128
    }

    /// A fresh random identifier.
    pub fn new_v4() -> (id: Uuid)
        ensures
            id.is_v4(),
    {
        Uuid { value: random_v4() }
    }

    /// The identifier with the given value.
    pub fn from_u128(value: u128) -> (id: Uuid)
        ensures
            id.value == value,
    {
        Uuid { value }
    }

    /// The written form.
    pub fn hyphenated(&self) -> (text: String)
        ensures
            text@ == hyphenated_text(self.value),
            text@.len() == 36,
    {
        proof {
            lemma_hyphenated_len(self.value);
        }
        hyphenated_of(self.value)
    }

    /// Reads an identifier. Every written form is read back as the
    /// identifier that wrote it.
    pub fn parse_str(text: &str) -> (r: Option<Uuid>)
        ensures
            r == uuid_of_text(text@),
    {
        parse_text(text)
    }
}

} // verus!
