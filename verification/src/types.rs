//! Common types: identifiers, and the records that the server sends back.

use vstd::prelude::*;
use vstd::string::StrSliceExecFns;
use vstd::string::StringExecFns;

verus! {

/// A 128-bit identifier, held as its value in big-endian order: the first
/// byte of the identifier is the most significant byte of the number.
///
/// Client tokens, profile ids and user ids are all of this type. Its view is
/// the number itself.
#[derive(Clone, Copy, Debug, PartialEq, Eq, Hash, Structural)]
pub struct Uuid {
    bits: u128,
}

impl View for Uuid {
    type V = u128;

    closed spec fn view(&self) -> u128 {
        self.bits
    }
}

/// Account information, sent back where a request asked for it.
#[derive(Clone, Debug, PartialEq, Eq)]
pub struct User {
    /// User identifier.
    pub id: Uuid,
    /// Username, in the form `user@example.com`.
    pub username: String,
}

/// A game profile of an account.
///
/// An account without a licence answers a login with no selected profile and
/// an empty list of available ones.
#[derive(Clone, Debug, PartialEq, Eq)]
pub struct Profile {
    /// Presumably the agent that the login named.
    pub agent: Option<String>,
    /// Profile identifier.
    pub id: Uuid,
    /// Profile name.
    pub name: String,
    /// Only sent where it is `true`; `false` where the server left it out.
    pub legacy: bool,
}

/// The body of an answer that reports an error.
#[derive(Clone, Debug, PartialEq, Eq)]
pub struct ErrorMessage {
    /// Short description of the error.
    pub error: String,
    /// Longer description, which can be shown to the user.
    pub error_message: String,
    pub cause: Option<String>,
}

/// The lower-case hexadecimal digit for `n`, where `0 <= n < 16`.
pub open spec fn hex_digit(n: int) -> char
    recommends
        0 <= n < 16,
{
    "0123456789abcdef"@[n]
}

/// The `index`-th group of four bits of `bits`, counted from the most
/// significant end; `0 <= index < 32`.
pub open spec fn nibble(bits: u128, index: int) -> int
    recommends
        0 <= index < 32,
{
    ((bits >> ((124 - 4 * index) as u128)) & 0xf) as int
}

/// Whether position `i` of the hyphenated form holds a hyphen.
pub open spec fn is_hyphen_position(i: int) -> bool {
    i == 8 || i == 13 || i == 18 || i == 23
}

/// How many hyphens stand before position `i` of the hyphenated form.
pub open spec fn hyphens_before(i: int) -> int {
    if i < 8 {
        0
    } else if i < 13 {
        1
    } else if i < 18 {
        2
    } else if i < 23 {
        3
    } else {
        4
    }
}

/// The hyphenated form of an identifier: 32 lower-case hexadecimal digits,
/// most significant first, in groups of 8, 4, 4, 4 and 12 with a hyphen
/// between two groups.
pub open spec fn hyphenated_text(bits: u128) -> Seq<char> {
    Seq::new(
        36,
        |i: int|
            if is_hyphen_position(i) {
                '-'
            } else {
                hex_digit(nibble(bits, i - hyphens_before(i)))
            },
    )
}

/// The simple form of an identifier: its 32 lower-case hexadecimal digits,
/// most significant first, with nothing between them.
pub open spec fn simple_text(bits: u128) -> Seq<char> {
    Seq::new(32, |i: int| hex_digit(nibble(bits, i)))
}

/// Whether `bits` is laid out as a random (version 4) identifier of the
/// RFC 4122 variant: the high four bits of byte 6 are `0100`, the high two
/// bits of byte 8 are `10`.
pub open spec fn is_random_v4(bits: u128) -> bool {
    &&& (bits >> 76) & 0xf == 4
    &&& (bits >> 62) & 0x3 == 2
}

/// Whether `c` is a lower-case hexadecimal digit.
pub open spec fn is_hex_digit(c: char) -> bool {
    exists|n: int| 0 <= n < 16 && c == #[trigger] hex_digit(n)
}

/// Two digits are the same character only where they are the same digit.
pub proof fn lemma_hex_digit_is_injective(m: int, n: int)
    requires
        0 <= m < 16,
        0 <= n < 16,
        hex_digit(m) == hex_digit(n),
    ensures
        m == n,
{
    reveal_strlit("0123456789abcdef");
}

/// A number is fixed by its 32 groups of four bits.
proof fn lemma_nibbles_fix_the_number(a: u128, b: u128)
    requires
        forall|k: int| 0 <= k < 32 ==> nibble(a, k) == nibble(b, k),
    ensures
        a == b,
{
    assert(nibble(a, 0) == nibble(b, 0));
    assert(nibble(a, 1) == nibble(b, 1));
    assert(nibble(a, 2) == nibble(b, 2));
    assert(nibble(a, 3) == nibble(b, 3));
    assert(nibble(a, 4) == nibble(b, 4));
    assert(nibble(a, 5) == nibble(b, 5));
    assert(nibble(a, 6) == nibble(b, 6));
    assert(nibble(a, 7) == nibble(b, 7));
    assert(nibble(a, 8) == nibble(b, 8));
    assert(nibble(a, 9) == nibble(b, 9));
    assert(nibble(a, 10) == nibble(b, 10));
    assert(nibble(a, 11) == nibble(b, 11));
    assert(nibble(a, 12) == nibble(b, 12));
    assert(nibble(a, 13) == nibble(b, 13));
    assert(nibble(a, 14) == nibble(b, 14));
    assert(nibble(a, 15) == nibble(b, 15));
    assert(nibble(a, 16) == nibble(b, 16));
    assert(nibble(a, 17) == nibble(b, 17));
    assert(nibble(a, 18) == nibble(b, 18));
    assert(nibble(a, 19) == nibble(b, 19));
    assert(nibble(a, 20) == nibble(b, 20));
    assert(nibble(a, 21) == nibble(b, 21));
    assert(nibble(a, 22) == nibble(b, 22));
    assert(nibble(a, 23) == nibble(b, 23));
    assert(nibble(a, 24) == nibble(b, 24));
    assert(nibble(a, 25) == nibble(b, 25));
    assert(nibble(a, 26) == nibble(b, 26));
    assert(nibble(a, 27) == nibble(b, 27));
    assert(nibble(a, 28) == nibble(b, 28));
    assert(nibble(a, 29) == nibble(b, 29));
    assert(nibble(a, 30) == nibble(b, 30));
    assert(nibble(a, 31) == nibble(b, 31));
    assert(a == b) by (bit_vector)
        requires
            (a >> 124u128) & 0xf == (b >> 124u128) & 0xf,
            (a >> 120u128) & 0xf == (b >> 120u128) & 0xf,
            (a >> 116u128) & 0xf == (b >> 116u128) & 0xf,
            (a >> 112u128) & 0xf == (b >> 112u128) & 0xf,
            (a >> 108u128) & 0xf == (b >> 108u128) & 0xf,
            (a >> 104u128) & 0xf == (b >> 104u128) & 0xf,
            (a >> 100u128) & 0xf == (b >> 100u128) & 0xf,
            (a >> 96u128) & 0xf == (b >> 96u128) & 0xf,
            (a >> 92u128) & 0xf == (b >> 92u128) & 0xf,
            (a >> 88u128) & 0xf == (b >> 88u128) & 0xf,
            (a >> 84u128) & 0xf == (b >> 84u128) & 0xf,
            (a >> 80u128) & 0xf == (b >> 80u128) & 0xf,
            (a >> 76u128) & 0xf == (b >> 76u128) & 0xf,
            (a >> 72u128) & 0xf == (b >> 72u128) & 0xf,
            (a >> 68u128) & 0xf == (b >> 68u128) & 0xf,
            (a >> 64u128) & 0xf == (b >> 64u128) & 0xf,
            (a >> 60u128) & 0xf == (b >> 60u128) & 0xf,
            (a >> 56u128) & 0xf == (b >> 56u128) & 0xf,
            (a >> 52u128) & 0xf == (b >> 52u128) & 0xf,
            (a >> 48u128) & 0xf == (b >> 48u128) & 0xf,
            (a >> 44u128) & 0xf == (b >> 44u128) & 0xf,
            (a >> 40u128) & 0xf == (b >> 40u128) & 0xf,
            (a >> 36u128) & 0xf == (b >> 36u128) & 0xf,
            (a >> 32u128) & 0xf == (b >> 32u128) & 0xf,
            (a >> 28u128) & 0xf == (b >> 28u128) & 0xf,
            (a >> 24u128) & 0xf == (b >> 24u128) & 0xf,
            (a >> 20u128) & 0xf == (b >> 20u128) & 0xf,
            (a >> 16u128) & 0xf == (b >> 16u128) & 0xf,
            (a >> 12u128) & 0xf == (b >> 12u128) & 0xf,
            (a >> 8u128) & 0xf == (b >> 8u128) & 0xf,
            (a >> 4u128) & 0xf == (b >> 4u128) & 0xf,
            (a >> 0u128) & 0xf == (b >> 0u128) & 0xf,
    ;
}

/// The hyphenated form has 36 characters: hyphens at the four places where
/// two groups meet, and hexadecimal digits everywhere else.
pub proof fn lemma_hyphenated_shape(bits: u128)
    ensures
        hyphenated_text(bits).len() == 36,
        forall|i: int|
            0 <= i < 36 && is_hyphen_position(i) ==> #[trigger] hyphenated_text(bits)[i] == '-',
        forall|i: int|
            0 <= i < 36 && !is_hyphen_position(i) ==> is_hex_digit(
                #[trigger] hyphenated_text(bits)[i],
            ),
{
    assert forall|i: int| 0 <= i < 36 && !is_hyphen_position(i) implies is_hex_digit(
        #[trigger] hyphenated_text(bits)[i],
    ) by {
        let k = i - hyphens_before(i);
        let shift = (124 - 4 * k) as u128;
        assert((bits >> shift) & 0xf < 16) by (bit_vector);
        assert(0 <= nibble(bits, k) < 16);
        assert(hyphenated_text(bits)[i] == hex_digit(nibble(bits, k)));
    }
}

/// The hyphenated form tells identifiers apart: two identifiers with the
/// same text are the same identifier. So the token that a request carries is
/// the token that was set, and no other.
pub proof fn lemma_hyphenated_is_injective(a: u128, b: u128)
    requires
        hyphenated_text(a) == hyphenated_text(b),
    ensures
        a == b,
{
    assert forall|k: int| 0 <= k < 32 implies nibble(a, k) == nibble(b, k) by {
        let i = if k < 8 {
            k
        } else if k < 12 {
            k + 1
        } else if k < 16 {
            k + 2
        } else if k < 20 {
            k + 3
        } else {
            k + 4
        };
        assert(!is_hyphen_position(i) && i - hyphens_before(i) == k);
        assert(hyphenated_text(a)[i] == hex_digit(nibble(a, k)));
        assert(hyphenated_text(b)[i] == hex_digit(nibble(b, k)));
        let shift = (124 - 4 * k) as u128;
        assert((a >> shift) & 0xf < 16) by (bit_vector);
        assert((b >> shift) & 0xf < 16) by (bit_vector);
        lemma_hex_digit_is_injective(nibble(a, k), nibble(b, k));
    }
    lemma_nibbles_fix_the_number(a, b);
}

/// The simple form tells identifiers apart as well.
pub proof fn lemma_simple_is_injective(a: u128, b: u128)
    requires
        simple_text(a) == simple_text(b),
    ensures
        a == b,
{
    assert forall|k: int| 0 <= k < 32 implies nibble(a, k) == nibble(b, k) by {
        assert(simple_text(a)[k] == hex_digit(nibble(a, k)));
        assert(simple_text(b)[k] == hex_digit(nibble(b, k)));
        let shift = (124 - 4 * k) as u128;
        assert((a >> shift) & 0xf < 16) by (bit_vector);
        assert((b >> shift) & 0xf < 16) by (bit_vector);
        lemma_hex_digit_is_injective(nibble(a, k), nibble(b, k));
    }
    lemma_nibbles_fix_the_number(a, b);
}

/// A random identifier of version 4 shows as one in its hyphenated form:
/// the third group begins with `4`, the fourth with `8`, `9`, `a` or `b`.
pub proof fn lemma_random_v4_shows_in_text(bits: u128)
    requires
        is_random_v4(bits),
    ensures
        hyphenated_text(bits)[14] == '4',
        hyphenated_text(bits)[19] == '8' || hyphenated_text(bits)[19] == '9' || hyphenated_text(
            bits,
        )[19] == 'a' || hyphenated_text(bits)[19] == 'b',
{
    reveal_strlit("0123456789abcdef");
    assert(hyphenated_text(bits)[14] == hex_digit(nibble(bits, 12)));
    assert(hyphenated_text(bits)[19] == hex_digit(nibble(bits, 16)));
    assert((bits >> 76u128) & 0xf == 4 && (bits >> 62u128) & 0x3 == 2 ==> {
        let n = (bits >> 60u128) & 0xf;
        n == 8 || n == 9 || n == 10 || n == 11
    }) by (bit_vector);
}

/// Calls `uuid::Uuid::new_v4` and hands back the identifier's value as
/// `uuid::Uuid::as_u128` gives it.
///
/// The bytes come from the operating system's random source, so nothing is
/// said of them but what `new_v4` fixes in every identifier that it makes: the
/// version nibble and the variant bits. `new_v4` panics where the operating
/// system cannot supply random bytes.
#[verifier::external_body]
pub(crate) fn random_v4_bits() -> (bits: u128)
    ensures
        is_random_v4(bits),
{
    uuid::Uuid::new_v4().as_u128()
}

/// The `index`-th hexadecimal digit of `bits`, as a one-character string.
fn hex_digit_at(bits: u128, index: usize) -> (digit: &'static str)
    requires
        index < 32,
    ensures
        digit@ == seq![hex_digit(nibble(bits, index as int))],
{
    let table = "0123456789abcdef";
    let shift: u128 = 124 - 4 * (index as u128);
    let n: u128 = (bits >> shift) & 0xf;
    assert(n < 16) by (bit_vector)
        requires
            n == (bits >> shift) & 0xf,
    ;
    let at: usize = n as usize;
    proof {
        reveal_strlit("0123456789abcdef");
        assert(table.is_ascii());
    }
    let digit = table.substring_ascii(at, at + 1);
    assert(digit@ =~= seq![hex_digit(nibble(bits, index as int))]);
    digit
}

impl Uuid {
    /// The identifier with the value `bits`.
    pub fn from_u128(bits: u128) -> (id: Uuid)
        ensures
            id@ == bits,
    {
        Uuid { bits }
    }

    /// The identifier's value.
    pub fn as_u128(&self) -> (bits: u128)
        ensures
            bits == self@,
    {
        self.bits
    }

    /// A new random identifier of version 4.
    pub fn new_v4() -> (id: Uuid)
        ensures
            is_random_v4(id@),
    {
        Uuid { bits: random_v4_bits() }
    }

    /// The hyphenated form, as in `67e55044-10b1-426f-9247-bb680e5fe0c8`:
    /// the form in which identifiers go over the wire.
    pub fn to_hyphenated(&self) -> (text: String)
        ensures
            text@ == hyphenated_text(self@),
    {
        let mut text = String::new();
        let mut i: usize = 0;
        while i < 36
            invariant
                i <= 36,
                text@ == hyphenated_text(self@).subrange(0, i as int),
            decreases 36 - i,
        {
            if i == 8 || i == 13 || i == 18 || i == 23 {
                proof {
                    reveal_strlit("-");
                }
                text.append("-");
            } else {
                let before: usize = if i < 8 {
                    0
                } else if i < 13 {
                    1
                } else if i < 18 {
                    2
                } else if i < 23 {
                    3
                } else {
                    4
                };
                text.append(hex_digit_at(self.bits, i - before));
            }
            i = i + 1;
            assert(text@ =~= hyphenated_text(self@).subrange(0, i as int));
        }
        assert(text@ =~= hyphenated_text(self@));
        text
    }

    /// The simple form, as in `67e5504410b1426f9247bb680e5fe0c8`.
    pub fn to_simple(&self) -> (text: String)
        ensures
            text@ == simple_text(self@),
    {
        let mut text = String::new();
        let mut i: usize = 0;
        while i < 32
            invariant
                i <= 32,
                text@ == simple_text(self@).subrange(0, i as int),
            decreases 32 - i,
        {
            text.append(hex_digit_at(self.bits, i));
            i = i + 1;
            assert(text@ =~= simple_text(self@).subrange(0, i as int));
        }
        assert(text@ =~= simple_text(self@));
        text
    }
}

} // verus!
