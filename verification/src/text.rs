//! Text operations of std and of the `uuid` crate that the library relies on,
//! each stated over the characters it works on.
use vstd::prelude::*;

verus! {

// ---------------------------------------------------------------
// Specifications
// ---------------------------------------------------------------

/// `pat` occurs as a contiguous run of characters in `s`.
pub open spec fn seq_contains(s: Seq<char>, pat: Seq<char>) -> bool {
    exists|i: int| 0 <= i && i + pat.len() <= s.len() && #[trigger] s.subrange(i, i + pat.len()) == pat
}

pub open spec fn is_ascii_char(c: char) -> bool {
    (c as u32) < 128
}

pub open spec fn all_ascii(s: Seq<char>) -> bool {
    forall|i: int| 0 <= i < s.len() ==> is_ascii_char(#[trigger] s[i])
}

pub open spec fn ascii_lower_char(c: char) -> char {
    if 'A' <= c && c <= 'Z' {
        ((c as u32) + 32) as char
    } else {
        c
    }
}

/// ASCII lowercasing of every character.
pub open spec fn ascii_lower(s: Seq<char>) -> Seq<char> {
    Seq::new(s.len(), |i: int| ascii_lower_char(s[i]))
}

pub open spec fn is_ascii_digit(c: char) -> bool {
    '0' <= c && c <= '9'
}

/// The 128 bits of the UUID that `uuid::Uuid::parse_str` reads from these
/// characters, or `None` where it refuses them.
pub uninterp spec fn parsed_uuid(text: Seq<char>) -> Option<u128>;

/// What `str::to_lowercase` returns for these characters (full Unicode case mapping).
pub uninterp spec fn lowercase_of(s: Seq<char>) -> Seq<char>;

/// The characters with the Unicode property White_Space, which is what
/// `char::is_whitespace` and `str::trim` go by.
pub open spec fn is_white_space(c: char) -> bool {
    let u = c as u32;
    (0x9 <= u && u <= 0xD) || u == 0x20 || u == 0x85 || u == 0xA0 || u == 0x1680
        || (0x2000 <= u && u <= 0x200A) || u == 0x2028 || u == 0x2029 || u == 0x202F
        || u == 0x205F || u == 0x3000
}

/// `s` without the white space it begins with.
pub open spec fn drop_leading_white_space(s: Seq<char>) -> Seq<char>
    decreases s.len(),
{
    if s.len() > 0 && is_white_space(s[0]) {
        drop_leading_white_space(s.drop_first())
    } else {
        s
    }
}

/// `s` without the white space it ends with.
pub open spec fn drop_trailing_white_space(s: Seq<char>) -> Seq<char>
    decreases s.len(),
{
    if s.len() > 0 && is_white_space(s.last()) {
        drop_trailing_white_space(s.drop_last())
    } else {
        s
    }
}

/// `s` without leading and trailing white space.
pub open spec fn trimmed(s: Seq<char>) -> Seq<char> {
    drop_trailing_white_space(drop_leading_white_space(s))
}

/// Whether `char::is_numeric` holds of `c` (Unicode general categories Nd, Nl, No).
pub uninterp spec fn numeric_char(c: char) -> bool;

/// `s` with every trailing `/` removed.
pub open spec fn without_trailing_slashes(s: Seq<char>, r: Seq<char>) -> bool {
    &&& r.len() <= s.len()
    &&& r == s.subrange(0, r.len() as int)
    &&& forall|j: int| r.len() <= j < s.len() ==> #[trigger] s[j] == '/'
    &&& (r.len() == 0 || r[r.len() - 1] != '/')
}

pub open spec fn digit_char(d: nat) -> char {
    (48 + d) as char
}

/// The decimal digits of `n`, most significant first, with no leading zero.
pub open spec fn decimal(n: nat) -> Seq<char>
    decreases n,
{
    if n < 10 {
        seq![digit_char(n)]
    } else {
        decimal(n / 10).push(digit_char(n % 10))
    }
}

pub open spec fn hex_char(d: nat) -> char {
    if d < 10 {
        (48 + d) as char
    } else {
        (87 + d) as char
    }
}

pub open spec fn pow16(k: nat) -> nat
    decreases k,
{
    if k == 0 {
        1
    } else {
        16 * pow16((k - 1) as nat)
    }
}

/// The `i`-th hexadecimal digit of `id`, counted from the most significant.
pub open spec fn uuid_nibble(id: u128, i: int) -> nat {
    ((id as nat) / pow16((31 - i) as nat)) % 16
}

pub open spec fn uuid_hex(id: u128) -> Seq<char> {
    Seq::new(32, |i: int| hex_char(uuid_nibble(id, i)))
}

/// The hyphenated lowercase form `xxxxxxxx-xxxx-xxxx-xxxx-xxxxxxxxxxxx` of a UUID
/// whose 128 bits, most significant first, are `id`.
pub open spec fn uuid_hyphenated(id: u128) -> Seq<char> {
    let h = uuid_hex(id);
    h.subrange(0, 8) + seq!['-'] + h.subrange(8, 12) + seq!['-'] + h.subrange(12, 16) + seq!['-']
        + h.subrange(16, 20) + seq!['-'] + h.subrange(20, 32)
}

// ---------------------------------------------------------------
// Trusted items
// ---------------------------------------------------------------

/// Calls `str::contains` with a string pattern; std documents that it returns
/// whether the pattern matches a sub-slice of the string.
#[verifier::external_body]
pub fn str_contains(s: &str, pat: &str) -> (r: bool)
    ensures
        r == seq_contains(s@, pat@),
{
    s.contains(pat)
}

/// Calls `str::to_lowercase`. Its result is named `lowercase_of`; std documents
/// that on ASCII characters it is ASCII lowercasing, which is stated. What it
/// does to other characters (full Unicode case mapping) is left unsaid.
#[verifier::external_body]
pub fn to_lowercase(s: &str) -> (r: String)
    ensures
        r@ == lowercase_of(s@),
        all_ascii(s@) ==> r@ == ascii_lower(s@),
{
    s.to_lowercase()
}

/// Calls `str::trim`: std documents that it removes leading and trailing
/// characters with the Unicode White_Space property.
#[verifier::external_body]
pub fn trim(s: &str) -> (r: String)
    ensures
        r@ == trimmed(s@),
{
    s.trim().to_string()
}

/// Calls `str::trim_end_matches('/')`: the string with all trailing slashes removed.
#[verifier::external_body]
pub fn trim_trailing_slashes(s: &str) -> (r: String)
    ensures
        without_trailing_slashes(s@, r@),
{
    s.trim_end_matches('/').to_string()
}

/// Calls `char::is_numeric`. Its result is named `numeric_char`; std documents
/// that ASCII digits are numeric and that no other ASCII character is.
#[verifier::external_body]
pub fn char_is_numeric(c: char) -> (r: bool)
    ensures
        r == numeric_char(c),
        is_ascii_char(c) ==> (r <==> is_ascii_digit(c)),
{
    c.is_numeric()
}

/// Calls `String::push`, which appends one character.
#[verifier::external_body]
pub fn push_char(s: &mut String, c: char)
    ensures
        final(s)@ == old(s)@.push(c),
{
    s.push(c)
}

/// Calls `u64::to_string`: the decimal digits of the number.
#[verifier::external_body]
pub fn u64_text(n: u64) -> (r: String)
    ensures
        r@ == decimal(n as nat),
{
    n.to_string()
}

/// Calls `uuid::Uuid::from_u128(id).to_string()`: the uuid crate's `Display`
/// writes the 16 big-endian bytes as lowercase hex in the hyphenated 8-4-4-4-12 form.
#[verifier::external_body]
pub fn uuid_text(id: u128) -> (r: String)
    ensures
        r@ == uuid_hyphenated(id),
{
    uuid::Uuid::from_u128(id).to_string()
}

/// Calls `uuid::Uuid::parse_str` and takes the 128 bits of what it read. Its
/// result is named `parsed_uuid`; the uuid crate documents that every format
/// it writes, the hyphenated one among them, is read back, which is stated.
/// Which other texts it accepts is left unsaid.
#[verifier::external_body]
pub fn parse_uuid(text: &str) -> (r: Option<u128>)
    ensures
        r == parsed_uuid(text@),
        forall|id: u128| text@ == uuid_hyphenated(id) ==> r == Some(id),
{
    uuid::Uuid::parse_str(text).ok().map(|u| u.as_u128())
}

// ---------------------------------------------------------------
// Verified helpers
// ---------------------------------------------------------------

/// A new string holding the characters of `s`.
pub fn owned(s: &str) -> (r: String)
    ensures
        r@ == s@,
{
    String::from_str(s)
}

/// The concatenation of `a` and `b`.
pub fn join(a: &str, b: &str) -> (r: String)
    ensures
        r@ == a@ + b@,
{
    let mut r = String::from_str(a);
    r.append(b);
    r
}

/// The concatenation of `a`, `b` and `c`.
pub fn join3(a: &str, b: &str, c: &str) -> (r: String)
    ensures
        r@ == a@ + b@ + c@,
{
    let mut r = String::from_str(a);
    r.append(b);
    r.append(c);
    r
}

/// Whether the two strings hold the same characters.
pub fn same_text(a: &str, b: &str) -> (r: bool)
    ensures
        r == (a@ == b@),
{
    let x = String::from_str(a);
    let y = String::from_str(b);
    x == y
}

} // verus!
