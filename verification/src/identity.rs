//! Identities: the opaque strings that serve as user ids and tokens.

use vstd::prelude::*;

verus! {

/// A lower-case hexadecimal digit.
pub open spec fn is_lower_hex(c: char) -> bool {
    ('0' <= c && c <= '9') || ('a' <= c && c <= 'f')
}

/// Where the canonical form of a UUID has its hyphens.
pub open spec fn is_hyphen_position(i: int) -> bool {
    i == 8 || i == 13 || i == 18 || i == 23
}

/// The canonical text of a random (version 4) UUID: 36 characters, hyphens
/// after the 8th, 12th, 16th and 20th digit, lower-case hexadecimal digits
/// elsewhere, the version digit `4` and a variant digit from `8` to `b`.
pub open spec fn is_uuid_v4_text(s: Seq<char>) -> bool {
    &&& s.len() == 36
    &&& forall|i: int|
        0 <= i < 36 ==> if is_hyphen_position(i) {
            #[trigger] s[i] == '-'
        } else {
            is_lower_hex(s[i])
        }
    &&& s[14] == '4'
    &&& (s[19] == '8' || s[19] == '9' || s[19] == 'a' || s[19] == 'b')
}

/// The 16 bytes of a random (version 4) UUID: the high half of byte 6 is
/// the version, 4, and the two high bits of byte 8 are the variant, `10`.
/// The other 122 bits are free.
pub open spec fn is_v4_draw(draw: Seq<u8>) -> bool {
    &&& draw.len() == 16
    &&& draw[6] & 0xf0 == 0x40
    &&& draw[8] & 0xc0 == 0x80
}

/// The lower-case digit for a value from 0 to 15.
pub open spec fn hex_digit(value: u8) -> char {
    "0123456789abcdef"@[value as int]
}

/// Which of the 32 digits of a UUID stands at place `i` of its text.
pub open spec fn digit_index(i: int) -> int {
    if i < 8 {
        i
    } else if i < 13 {
        i - 1
    } else if i < 18 {
        i - 2
    } else if i < 23 {
        i - 3
    } else {
        i - 4
    }
}

/// At which place of the text the digit `k` of a UUID stands.
pub open spec fn digit_place(k: int) -> int {
    if k < 8 {
        k
    } else if k < 12 {
        k + 1
    } else if k < 16 {
        k + 2
    } else if k < 20 {
        k + 3
    } else {
        k + 4
    }
}

/// The digit `k` of 16 bytes: each byte gives two digits, the high half
/// first.
pub open spec fn digit(bytes: Seq<u8>, k: int) -> char {
    if k % 2 == 0 {
        hex_digit(bytes[k / 2] >> 4)
    } else {
        hex_digit(bytes[k / 2] & 0x0f)
    }
}

/// The canonical text of the UUID that 16 bytes make: their 32 lower-case
/// hexadecimal digits in groups of 8, 4, 4, 4 and 12, with a hyphen between
/// two groups.
pub open spec fn uuid_text(bytes: Seq<u8>) -> Seq<char> {
    Seq::new(
        36,
        |i: int|
            if is_hyphen_position(i) {
                '-'
            } else {
                digit(bytes, digit_index(i))
            },
    )
}

/// A text that was minted: the canonical text of some random UUID.
pub open spec fn is_minted(text: Seq<char>) -> bool {
    exists|draw: Seq<u8>| is_v4_draw(draw) && text == #[trigger] uuid_text(draw)
}

/// The two halves of a byte are values from 0 to 15, and they fix the byte.
proof fn lemma_halves(x: u8, y: u8)
    ensures
        x >> 4 < 16,
        x & 0x0f < 16,
        (x >> 4 == y >> 4 && x & 0x0f == y & 0x0f) ==> x == y,
        x & 0xf0 == 0x40 ==> x >> 4 == 4,
        x & 0xc0 == 0x80 ==> 8 <= x >> 4 < 12,
{
    assert(x >> 4 < 16) by (bit_vector);
    assert(x & 0x0f < 16) by (bit_vector);
    assert((x >> 4 == y >> 4 && x & 0x0f == y & 0x0f) ==> x == y) by (bit_vector);
    assert(x & 0xf0 == 0x40 ==> x >> 4 == 4) by (bit_vector);
    assert(x & 0xc0 == 0x80 ==> 8 <= x >> 4 < 12) by (bit_vector);
}

/// The sixteen digits are lower-case hexadecimal digits, and no two values
/// have the same digit.
proof fn lemma_hex_digits(a: u8, b: u8)
    requires
        a < 16,
        b < 16,
    ensures
        is_lower_hex(hex_digit(a)),
        hex_digit(a) == hex_digit(b) ==> a == b,
        hex_digit(4) == '4',
        hex_digit(8) == '8',
        hex_digit(9) == '9',
        hex_digit(10) == 'a',
        hex_digit(11) == 'b',
{
    reveal_strlit("0123456789abcdef");
}

/// The canonical text of a random UUID has the shape that
/// [`is_uuid_v4_text`] describes.
pub proof fn lemma_minted_shape(draw: Seq<u8>)
    requires
        is_v4_draw(draw),
    ensures
        is_uuid_v4_text(uuid_text(draw)),
{
    let text = uuid_text(draw);
    assert forall|i: int| 0 <= i < 36 implies if is_hyphen_position(i) {
        #[trigger] text[i] == '-'
    } else {
        is_lower_hex(text[i])
    } by {
        if !is_hyphen_position(i) {
            let byte = draw[digit_index(i) / 2];
            lemma_halves(byte, byte);
            lemma_hex_digits(byte >> 4, byte & 0x0f);
            lemma_hex_digits(byte & 0x0f, byte >> 4);
            assert(text[i] == digit(draw, digit_index(i)));
        }
    }
    lemma_halves(draw[6], draw[6]);
    lemma_halves(draw[8], draw[8]);
    lemma_hex_digits(draw[6] >> 4, draw[8] >> 4);
    assert(text[14] == digit(draw, 12));
    assert(text[19] == digit(draw, 16));
}

/// A minted text has the shape that [`is_uuid_v4_text`] describes.
pub proof fn lemma_minted_is_v4_text(text: Seq<char>)
    requires
        is_minted(text),
    ensures
        is_uuid_v4_text(text),
{
    let draw = choose|draw: Seq<u8>| is_v4_draw(draw) && text == #[trigger] uuid_text(draw);
    lemma_minted_shape(draw);
}

/// Different bytes make different texts: two UUIDs that differ in a single
/// bit are told apart by their texts. So two minted identifiers are the same
/// only where the two random draws were.
pub proof fn law_distinct_draws_distinct_texts(a: Seq<u8>, b: Seq<u8>)
    requires
        a.len() == 16,
        b.len() == 16,
        a != b,
    ensures
        uuid_text(a) != uuid_text(b),
{
    if uuid_text(a) == uuid_text(b) {
        assert forall|j: int| 0 <= j < 16 implies a[j] == b[j] by {
            let high = digit_place(2 * j);
            let low = digit_place(2 * j + 1);
            assert(uuid_text(a)[high] == digit(a, 2 * j));
            assert(uuid_text(b)[high] == digit(b, 2 * j));
            assert(uuid_text(a)[low] == digit(a, 2 * j + 1));
            assert(uuid_text(b)[low] == digit(b, 2 * j + 1));
            lemma_halves(a[j], b[j]);
            lemma_halves(b[j], a[j]);
            lemma_hex_digits(a[j] >> 4, b[j] >> 4);
            lemma_hex_digits(a[j] & 0x0f, b[j] & 0x0f);
        }
        assert(a =~= b);
    }
}

/// Draws the 16 bytes of a fresh random UUID.
///
/// This is `uuid::Uuid::new_v4`, read with `Uuid::into_bytes`, and the
/// contract is taken on trust from that crate: `new_v4` takes 128 random
/// bits and sets the version and the variant in them. Nothing is said of
/// which bytes come back: two calls may differ, and almost surely do. Like
/// `new_v4`, this panics where the system has no random bytes to give.
#[verifier::external_body]
fn draw_v4() -> (draw: [u8; 16])
    ensures
        is_v4_draw(draw@),
{
    uuid::Uuid::new_v4().into_bytes()
}

/// Prints 16 bytes as the canonical text of the UUID that they make.
///
/// This is `uuid::Uuid::from_bytes` printed by the `Display` of `Uuid`, and
/// the contract is taken on trust from that crate: `Display` prints the
/// hyphenated lower-case form, two digits for each byte in their order.
#[verifier::external_body]
fn hyphenated(bytes: &[u8; 16]) -> (text: String)
    ensures
        text@ == uuid_text(bytes@),
{
    uuid::Uuid::from_bytes(*bytes).to_string()
}

/// The canonical text of the UUID that 16 bytes make.
pub fn canonical_text(bytes: &[u8; 16]) -> (text: String)
    ensures
        text@ == uuid_text(bytes@),
{
    hyphenated(bytes)
}

/// Mints an identifier: a fresh random UUID in its canonical text. Which
/// one it is, is left to chance; by [`law_distinct_draws_distinct_texts`]
/// two of them are the same only where the two random draws were.
pub fn gen_uuid() -> (id: String)
    ensures
        is_minted(id@),
        is_uuid_v4_text(id@),
{
    let draw = draw_v4();
    proof {
        lemma_minted_shape(draw@);
    }
    hyphenated(&draw)
}

} // verus!
