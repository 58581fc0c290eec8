use vstd::prelude::*;
use vstd::string::StringExecFns;

verus! {

/// What `urlencoding::encode` returns for a string.
pub uninterp spec fn url_encoded(s: Seq<char>) -> Seq<char>;

/// What `base64::encode` (standard alphabet, padded) returns for a byte string.
pub uninterp spec fn base64_of(b: Seq<u8>) -> Seq<char>;

/// A character that percent-encoding leaves as it is.
pub open spec fn is_unreserved(c: char) -> bool {
    ('0' <= c && c <= '9') || ('A' <= c && c <= 'Z') || ('a' <= c && c <= 'z') || c == '-'
        || c == '.' || c == '_' || c == '~'
}

/// An upper-case hexadecimal digit for a value below 16.
pub open spec fn hex_digit(d: nat) -> char {
    if d < 10 {
        ((d + 48) as u8) as char
    } else {
        ((d + 55) as u8) as char
    }
}

/// One ASCII character, percent-encoded.
pub open spec fn percent_char(c: char) -> Seq<char> {
    if is_unreserved(c) {
        seq![c]
    } else {
        seq!['%', hex_digit((c as u32 as nat) / 16), hex_digit((c as u32 as nat) % 16)]
    }
}

/// An ASCII text, percent-encoded character by character.
pub open spec fn percent_ascii(s: Seq<char>) -> Seq<char>
    decreases s.len(),
{
    if s.len() == 0 {
        Seq::empty()
    } else {
        percent_char(s[0]) + percent_ascii(s.drop_first())
    }
}

pub open spec fn all_ascii(s: Seq<char>) -> bool {
    forall|i: int| 0 <= i < s.len() ==> (s[i] as u32) < 128
}

/// The decimal digit character for a value below 10.
pub open spec fn digit_char(d: nat) -> char {
    ((d + 48) as u8) as char
}

/// The decimal representation of a natural number: no sign, no leading zeros.
pub open spec fn decimal(n: nat) -> Seq<char>
    decreases n,
{
    if n < 10 {
        seq![digit_char(n)]
    } else {
        decimal(n / 10) + seq![digit_char(n % 10)]
    }
}

/// Relies on `urlencoding::encode`: every byte of the text but the alphanumerics and
/// `-`, `.`, `_`, `~` becomes `%` and two upper-case hex digits. On an ASCII text a
/// byte is its character, so the result is stated in full there.
#[verifier::external_body]
pub(crate) fn percent_encode(s: &str) -> (r: String)
    ensures
        r@ == url_encoded(s@),
        all_ascii(s@) ==> r@ == percent_ascii(s@),
{
    urlencoding::encode(s).into_owned()
}

/// Relies on `base64::encode`: the standard-alphabet, padded base64 text of the bytes.
#[verifier::external_body]
pub(crate) fn base64_encode(b: &[u8]) -> (r: String)
    ensures
        r@ == base64_of(b@),
{
    #[allow(deprecated)]
    base64::encode(b)
}

/// The text of one decimal digit.
fn digit_string(d: u64) -> (r: String)
    requires
        d < 10,
    ensures
        r@ == seq![digit_char(d as nat)],
{
    let lit = match d {
        0 => "0",
        1 => "1",
        2 => "2",
        3 => "3",
        4 => "4",
        5 => "5",
        6 => "6",
        7 => "7",
        8 => "8",
        _ => "9",
    };
    proof {
        reveal_strlit("0");
        reveal_strlit("1");
        reveal_strlit("2");
        reveal_strlit("3");
        reveal_strlit("4");
        reveal_strlit("5");
        reveal_strlit("6");
        reveal_strlit("7");
        reveal_strlit("8");
        reveal_strlit("9");
    }
    assert(lit@ =~= seq![digit_char(d as nat)]);
    String::from_str(lit)
}

/// The decimal text of `n`.
pub fn decimal_string(n: u64) -> (r: String)
    ensures
        r@ == decimal(n as nat),
    decreases n,
{
    if n < 10 {
        digit_string(n)
    } else {
        let head = decimal_string(n / 10);
        let tail = digit_string(n % 10);
        head.concat(tail.as_str())
    }
}

} // verus!
