//! The identifier the profile service is keyed by: the lowercase hexadecimal
//! SHA-256 digest of the trimmed e-mail address.

use sha2::{Digest, Sha256};
use vstd::prelude::*;
use vstd::string::*;
use vstd::utf8::*;

verus! {

/// Whether `c` has the Unicode `White_Space` property, as
/// `char::is_whitespace` decides it.
pub uninterp spec fn is_whitespace(c: char) -> bool;

/// The SHA-256 digest of a message.
pub uninterp spec fn sha256(message: Seq<u8>) -> Seq<u8>;

/// Calls `char::is_whitespace`. Nothing is claimed of which characters count
/// as white space, only that the answer depends on the character alone.
#[verifier::external_body]
fn char_is_whitespace(c: char) -> (white: bool)
    ensures
        white == is_whitespace(c),
{
    c.is_whitespace()
}

/// Calls `sha2::Sha256::digest` and copies the 32 bytes it returns into an
/// array. The digest is a function of the message alone; its length is fixed
/// by the return type.
#[verifier::external_body]
fn sha256_digest(message: &[u8]) -> (digest: [u8; 32])
    ensures
        digest@ == sha256(message@),
{
    Sha256::digest(message).into()
}

/// `s` without its leading white space.
pub open spec fn trim_start(s: Seq<char>) -> Seq<char>
    decreases s.len(),
{
    if s.len() > 0 && is_whitespace(s.first()) {
        trim_start(s.drop_first())
    } else {
        s
    }
}

/// `s` without its trailing white space.
pub open spec fn trim_end(s: Seq<char>) -> Seq<char>
    decreases s.len(),
{
    if s.len() > 0 && is_whitespace(s.last()) {
        trim_end(s.drop_last())
    } else {
        s
    }
}

/// `s` without leading and trailing white space.
pub open spec fn trimmed(s: Seq<char>) -> Seq<char> {
    trim_end(trim_start(s))
}

/// The lowercase hexadecimal digit that stands for a value below sixteen.
pub open spec fn hex_digit(nibble: int) -> char
    recommends
        0 <= nibble < 16,
{
    seq!['0', '1', '2', '3', '4', '5', '6', '7', '8', '9', 'a', 'b', 'c', 'd', 'e', 'f'][nibble]
}

/// Whether `c` is one of `0`-`9`, `a`-`f`.
pub open spec fn is_lower_hex(c: char) -> bool {
    exists|nibble: int| 0 <= nibble < 16 && c == #[trigger] hex_digit(nibble)
}

/// Two lowercase hexadecimal digits per byte, high nibble first.
pub open spec fn hex_lower(bytes: Seq<u8>) -> Seq<char> {
    Seq::new(
        2 * bytes.len(),
        |i: int|
            if i % 2 == 0 {
                hex_digit(bytes[i / 2] as int / 16)
            } else {
                hex_digit(bytes[i / 2] as int % 16)
            },
    )
}

/// The profile hash of an e-mail address: trim it, take the SHA-256 digest of
/// its UTF-8 bytes, and write the digest in lowercase hexadecimal.
pub open spec fn profile_hash(email: Seq<char>) -> Seq<char> {
    hex_lower(sha256(encode_utf8(trimmed(email))))
}

/// Trimming the front of a sequence that is already trimmed there changes
/// nothing.
pub proof fn lemma_trim_start_idempotent(s: Seq<char>)
    ensures
        trim_start(trim_start(s)) == trim_start(s),
        trim_start(s).len() > 0 ==> !is_whitespace(trim_start(s).first()),
    decreases s.len(),
{
    if s.len() > 0 && is_whitespace(s.first()) {
        lemma_trim_start_idempotent(s.drop_first());
    }
}

/// Trimming the end of a sequence that is already trimmed there changes
/// nothing, and trimming the end never uncovers a new first character.
pub proof fn lemma_trim_end_idempotent(s: Seq<char>)
    ensures
        trim_end(trim_end(s)) == trim_end(s),
        trim_end(s).len() > 0 ==> !is_whitespace(trim_end(s).last()),
        trim_end(s).len() > 0 ==> trim_end(s).first() == s.first(),
    decreases s.len(),
{
    if s.len() > 0 && is_whitespace(s.last()) {
        lemma_trim_end_idempotent(s.drop_last());
    }
}

/// Trimming twice is the same as trimming once.
pub proof fn lemma_trimmed_idempotent(s: Seq<char>)
    ensures
        trimmed(trimmed(s)) == trimmed(s),
{
    let front = trim_start(s);
    lemma_trim_start_idempotent(s);
    lemma_trim_end_idempotent(front);
    // `trimmed(s)` is empty or starts with the first character of `front`,
    // which is no white space: trimming its front again is the identity.
    assert(trim_start(trimmed(s)) == trimmed(s));
}

/// The hash of an e-mail address is insensitive to white space around it:
/// hashing the trimmed address gives the same identifier.
pub proof fn lemma_hash_ignores_outer_whitespace(email: Seq<char>)
    ensures
        profile_hash(trimmed(email)) == profile_hash(email),
{
    lemma_trimmed_idempotent(email);
}

/// Every character of a hexadecimal rendering is a lowercase hexadecimal
/// digit, and there are two of them for each byte.
pub proof fn lemma_hex_lower_shape(bytes: Seq<u8>)
    ensures
        hex_lower(bytes).len() == 2 * bytes.len(),
        forall|i: int| 0 <= i < hex_lower(bytes).len() ==> is_lower_hex(#[trigger] hex_lower(bytes)[i]),
{
    assert forall|i: int| 0 <= i < hex_lower(bytes).len() implies is_lower_hex(
        #[trigger] hex_lower(bytes)[i],
    ) by {
        let b = bytes[i / 2] as int;
        if i % 2 == 0 {
            assert(hex_lower(bytes)[i] == hex_digit(b / 16));
        } else {
            assert(hex_lower(bytes)[i] == hex_digit(b % 16));
        }
    }
}

/// Which characters of `s` are white space, one flag for each.
pub open spec fn white_flags(s: Seq<char>) -> Seq<bool> {
    Seq::new(s.len(), |i: int| is_whitespace(s[i]))
}

/// Whether `[start, end)` is what trimming keeps of a text whose characters
/// are white where `white` says so: `start` is the first character that is
/// not white, `end` is just behind the last one, and both are the length
/// where all are white.
pub open spec fn is_kept_range(white: Seq<bool>, start: int, end: int) -> bool {
    &&& 0 <= start <= end <= white.len()
    &&& forall|i: int| 0 <= i < start ==> white[i]
    &&& start < white.len() ==> !white[start]
    &&& forall|i: int| end <= i < white.len() ==> white[i]
    &&& start < end ==> !white[end - 1]
}

/// Dropping leading white space keeps what starts at the first character
/// that is not white.
proof fn lemma_trim_start_from(s: Seq<char>, start: int)
    requires
        0 <= start <= s.len(),
        forall|i: int| 0 <= i < start ==> is_whitespace(s[i]),
        start < s.len() ==> !is_whitespace(s[start]),
    ensures
        trim_start(s) == s.subrange(start, s.len() as int),
    decreases start,
{
    if start == 0 {
        assert(s.subrange(0, s.len() as int) =~= s);
    } else {
        let rest = s.drop_first();
        assert forall|i: int| 0 <= i < start - 1 implies is_whitespace(rest[i]) by {
            assert(rest[i] == s[i + 1]);
        }
        lemma_trim_start_from(rest, start - 1);
        assert(rest.subrange(start - 1, rest.len() as int) =~= s.subrange(start, s.len() as int));
    }
}

/// Dropping trailing white space keeps what ends behind the last character
/// that is not white.
proof fn lemma_trim_end_at(s: Seq<char>, end: int)
    requires
        0 <= end <= s.len(),
        forall|i: int| end <= i < s.len() ==> is_whitespace(s[i]),
        0 < end ==> !is_whitespace(s[end - 1]),
    ensures
        trim_end(s) == s.subrange(0, end),
    decreases s.len() - end,
{
    if end == s.len() {
        assert(s.subrange(0, end) =~= s);
    } else {
        let rest = s.drop_last();
        lemma_trim_end_at(rest, end);
        assert(rest.subrange(0, end) =~= s.subrange(0, end));
    }
}

/// The range that trimming keeps, read off the flags, is the trimmed text.
pub proof fn lemma_kept_range_is_trimmed(s: Seq<char>, start: int, end: int)
    requires
        is_kept_range(white_flags(s), start, end),
    ensures
        trimmed(s) == s.subrange(start, end),
{
    let white = white_flags(s);
    assert forall|i: int| 0 <= i < start implies is_whitespace(s[i]) by {
        assert(white[i]);
    }
    if start < s.len() {
        assert(!white[start]);
    }
    lemma_trim_start_from(s, start);
    let front = s.subrange(start, s.len() as int);
    assert forall|i: int| end - start <= i < front.len() implies is_whitespace(front[i]) by {
        assert(white[i + start]);
    }
    if start < end {
        assert(!white[end - 1]);
    }
    lemma_trim_end_at(front, end - start);
    assert(front.subrange(0, end - start) =~= s.subrange(start, end));
}

/// Finds what trimming keeps from the flags that say which characters are
/// white space.
pub fn trim_bounds(white: &[bool]) -> (bounds: (usize, usize))
    ensures
        is_kept_range(white@, bounds.0 as int, bounds.1 as int),
{
    let n = white.len();
    let mut start: usize = 0;
    while start < n && white[start]
        invariant
            start <= n,
            n == white@.len(),
            forall|i: int| 0 <= i < start ==> white@[i],
        decreases n - start,
    {
        start += 1;
    }
    let mut end: usize = n;
    while end > start && white[end - 1]
        invariant
            start <= end <= n,
            n == white@.len(),
            forall|i: int| end <= i < n ==> white@[i],
        decreases end - start,
    {
        end -= 1;
    }
    (start, end)
}

/// Says of each character of `s` whether it is white space.
fn whiteness(s: &str) -> (white: Vec<bool>)
    ensures
        white@ == white_flags(s@),
{
    broadcast use vstd::string::group_string_axioms;

    let mut white: Vec<bool> = Vec::new();
    for c in it: s.chars()
        invariant
            it.seq() == s@,
            white@.len() == it.index(),
            forall|i: int| 0 <= i < white@.len() ==> white@[i] == is_whitespace(it.seq()[i]),
    {
        white.push(char_is_whitespace(c));
    }
    assert(white@ =~= white_flags(s@));
    white
}

/// Returns `s` without leading and trailing white space.
pub fn trim(s: &str) -> (t: &str)
    ensures
        t@ == trimmed(s@),
{
    let white = whiteness(s);
    let (start, end) = trim_bounds(white.as_slice());
    proof {
        lemma_kept_range_is_trimmed(s@, start as int, end as int);
    }
    s.substring_char(start, end)
}

/// The one-character string for a hexadecimal digit.
fn hex_digit_str(nibble: u8) -> (s: &'static str)
    requires
        nibble < 16,
    ensures
        s@ == seq![hex_digit(nibble as int)],
{
    proof {
        reveal_strlit("0");
        reveal_strlit("1");
        reveal_strlit("2");
        reveal_strlit("3");
        reveal_strlit("4");
        reveal_strlit("5");
        reveal_strlit("6");
        reveal_strlit("7");
        reveal_strlit("8");
        reveal_strlit("9");
        reveal_strlit("a");
        reveal_strlit("b");
        reveal_strlit("c");
        reveal_strlit("d");
        reveal_strlit("e");
        reveal_strlit("f");
    }
    let s = match nibble {
        0 => "0",
        1 => "1",
        2 => "2",
        3 => "3",
        4 => "4",
        5 => "5",
        6 => "6",
        7 => "7",
        8 => "8",
        9 => "9",
        10 => "a",
        11 => "b",
        12 => "c",
        13 => "d",
        14 => "e",
        _ => "f",
    };
    assert(s@ =~= seq![hex_digit(nibble as int)]);
    s
}

/// Writes `bytes` in lowercase hexadecimal.
pub fn to_hex_lower(bytes: &[u8]) -> (hex: String)
    ensures
        hex@ == hex_lower(bytes@),
{
    let mut hex = String::new();
    let mut i: usize = 0;
    while i < bytes.len()
        invariant
            i <= bytes.len(),
            hex@ == hex_lower(bytes@.subrange(0, i as int)),
        decreases bytes.len() - i,
    {
        let b = bytes[i];
        hex.append(hex_digit_str(b / 16));
        hex.append(hex_digit_str(b % 16));
        assert(hex@ =~= hex_lower(bytes@.subrange(0, i as int + 1)));
        i += 1;
    }
    assert(bytes@.subrange(0, i as int) =~= bytes@);
    hex
}

/// Hashes an e-mail address into the identifier of its profile. Succeeds for
/// every string, and gives 64 lowercase hexadecimal digits.
pub fn hash_email(email: &str) -> (hash: String)
    ensures
        hash@ == profile_hash(email@),
        hash@.len() == 64,
        forall|i: int| 0 <= i < 64 ==> is_lower_hex(#[trigger] hash@[i]),
{
    let digest = sha256_digest(trim(email).as_bytes());
    proof {
        lemma_hex_lower_shape(digest@);
    }
    to_hex_lower(digest.as_slice())
}

} // verus!
