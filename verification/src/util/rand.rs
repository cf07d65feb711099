//! Random names and numbers.

use vstd::prelude::*;
use crate::util::text::{decimal, digit_char, push_char, string_of};
use vstd::string::StrSliceExecFns;
use rand::Rng;

verus! {

/// The MD5 digest of `data`.
pub uninterp spec fn md5_of(data: Seq<u8>) -> Seq<u8>;

/// Calls `md5::compute` on `data`. The contract claims that the digest's
/// bytes are those named by `md5_of` on the same bytes, and that there are
/// sixteen of them (the digest is a `[u8; 16]`).
#[verifier::external_body]
pub(crate) fn md5_digest(data: &[u8]) -> (res: Vec<u8>)
    ensures
        res@ == md5_of(data@),
        res@.len() == 16,
{
    md5::compute(data).0.to_vec()
}

/// Reads the system clock: the nanoseconds past the current second since
/// the Unix epoch, or `None` where the clock stands before the epoch. The
/// contract claims only that a nanosecond count is below one billion, which
/// `Duration::subsec_nanos` documents; the value depends on the time.
#[verifier::external_body]
pub(crate) fn clock_subsec_nanos() -> (res: Option<u32>)
    ensures
        res matches Some(n) ==> n < 1_000_000_000,
{
    match std::time::SystemTime::now().duration_since(std::time::UNIX_EPOCH) {
        Ok(d) => Some(d.subsec_nanos()),
        Err(_) => None,
    }
}

/// Whether `b` is an ASCII letter or digit.
pub open spec fn is_ascii_alphanumeric(b: u8) -> bool {
    (48 <= b <= 57) || (65 <= b <= 90) || (97 <= b <= 122)
}

/// Draws `len` characters from `rand::distributions::Alphanumeric` with the
/// thread's generator. The contract claims what the distribution documents:
/// `len` bytes, each an ASCII letter or digit; which ones is left to chance.
#[verifier::external_body]
pub(crate) fn random_alphanumeric(len: usize) -> (res: Vec<u8>)
    ensures
        res@.len() == len,
        forall|i: int| 0 <= i < len ==> is_ascii_alphanumeric(#[trigger] res@[i]),
{
    rand::thread_rng().sample_iter(&rand::distributions::Alphanumeric).take(len).collect()
}

/// Draws a number from `min` to `max`, both included, with
/// `Rng::gen_range` on the thread's generator (which panics on an empty
/// range). The contract claims only that the number lies in the range.
#[verifier::external_body]
fn gen_range_inclusive(min: usize, max: usize) -> (res: usize)
    requires
        min <= max,
    ensures
        min <= res <= max,
{
    rand::thread_rng().gen_range(min..=max)
}

/// A random number from `min` to `max`, both included.
pub fn rand_number(min: usize, max: usize) -> (res: usize)
    requires
        min <= max,
    ensures
        min <= res <= max,
{
    gen_range_inclusive(min, max)
}

/// The ASCII bytes of a string of ASCII characters.
pub open spec fn ascii_bytes(s: Seq<char>) -> Seq<u8> {
    s.map_values(|c: char| c as u8)
}

/// The lowercase hexadecimal digit for `d` (below sixteen).
pub open spec fn hex_char(d: nat) -> char {
    if d < 10 { digit_char(d) }
    else if d == 10 { 'a' }
    else if d == 11 { 'b' }
    else if d == 12 { 'c' }
    else if d == 13 { 'd' }
    else if d == 14 { 'e' }
    else { 'f' }
}

/// Two lowercase hexadecimal digits per byte, high digit first.
pub open spec fn hex_lower(data: Seq<u8>) -> Seq<char>
    decreases data.len(),
{
    if data.len() == 0 {
        Seq::empty()
    } else {
        hex_lower(data.drop_last()) + seq![hex_char((data.last() / 16) as nat), hex_char((data.last() % 16) as nat)]
    }
}

/// Each byte gives two digits.
pub proof fn lemma_hex_lower_len(data: Seq<u8>)
    ensures
        hex_lower(data).len() == 2 * data.len(),
    decreases data.len(),
{
    if data.len() > 0 {
        lemma_hex_lower_len(data.drop_last());
    }
}

/// The lowercase form of an ASCII character; other characters stay.
pub open spec fn ascii_lower(c: char) -> char {
    if 'A' <= c <= 'Z' { ((c as u32) + 32) as char } else { c }
}

/// What a random name is cut from: the hexadecimal digest, `::`, and the
/// random characters in lowercase.
pub open spec fn rand_text(digest: Seq<u8>, random: Seq<u8>) -> Seq<char> {
    hex_lower(digest) + seq![':', ':'] + random.map_values(|b: u8| ascii_lower(b as char))
}

/// Appends the lowercase hexadecimal digit for `d` (below sixteen).
pub(crate) fn push_hex_digit(s: &mut String, d: u8)
    requires
        d < 16,
    ensures
        final(s)@ == old(s)@.push(hex_char(d as nat)),
{
    let c = if d == 0 { '0' } else if d == 1 { '1' } else if d == 2 { '2' } else if d == 3 { '3' }
        else if d == 4 { '4' } else if d == 5 { '5' } else if d == 6 { '6' } else if d == 7 { '7' }
        else if d == 8 { '8' } else if d == 9 { '9' } else if d == 10 { 'a' } else if d == 11 { 'b' }
        else if d == 12 { 'c' } else if d == 13 { 'd' } else if d == 14 { 'e' } else { 'f' };
    push_char(s, c);
}

/// The bytes of the decimal representation of `n`.
pub fn decimal_bytes(n: u64) -> (res: Vec<u8>)
    ensures
        res@ == ascii_bytes(decimal(n as nat)),
    decreases n,
{
    let mut v = if n >= 10 { decimal_bytes(n / 10) } else { Vec::new() };
    let d = (n % 10) as u8;
    proof {
        assert(digit_char(d as nat) as u8 == (48 + d) as u8);
    }
    let ghost before = v@;
    v.push(48 + d);
    proof {
        if n >= 10 {
            assert(decimal(n as nat) == decimal((n / 10) as nat).push(digit_char((n % 10) as nat)));
            assert(ascii_bytes(decimal(n as nat)) =~= ascii_bytes(decimal((n / 10) as nat)).push((48 + d) as u8));
        } else {
            assert(ascii_bytes(decimal(n as nat)) =~= seq![(48 + d) as u8]);
        }
    }
    v
}

/// The lowercase form of the ASCII character `b`.
fn lower_ascii_char(b: u8) -> (res: char)
    ensures
        res == ascii_lower(b as char),
{
    if 65 <= b && b <= 90 {
        let c = (b + 32) as char;
        c
    } else {
        b as char
    }
}

/// The random text made of `digest` and `random`.
pub fn rand_text_exec(digest: &Vec<u8>, random: &Vec<u8>) -> (res: String)
    requires
        digest@.len() == 16,
    ensures
        res@ == rand_text(digest@, random@),
{
    let mut s = String::new();
    let mut i: usize = 0;
    proof {
        assert(digest@.take(0) =~= Seq::<u8>::empty());
    }
    while i < 16
        invariant
            i <= 16,
            digest@.len() == 16,
            s@ == hex_lower(digest@.take(i as int)),
        decreases 16 - i,
    {
        let b = digest[i];
        push_hex_digit(&mut s, b / 16);
        push_hex_digit(&mut s, b % 16);
        proof {
            assert(digest@.take(i + 1).drop_last() =~= digest@.take(i as int));
        }
        i = i + 1;
    }
    proof {
        assert(digest@.take(16) =~= digest@);
    }
    push_char(&mut s, ':');
    push_char(&mut s, ':');
    let ghost head = s@;
    assert(head =~= hex_lower(digest@) + seq![':', ':']);
    let mut j: usize = 0;
    while j < random.len()
        invariant
            j <= random@.len(),
            s@ == head + random@.take(j as int).map_values(|b: u8| ascii_lower(b as char)),
        decreases random@.len() - j,
    {
        let c = lower_ascii_char(random[j]);
        push_char(&mut s, c);
        proof {
            assert(random@.take(j + 1).map_values(|b: u8| ascii_lower(b as char))
                =~= random@.take(j as int).map_values(|b: u8| ascii_lower(b as char)).push(c));
        }
        j = j + 1;
    }
    proof {
        assert(random@.take(random@.len() as int) =~= random@);
    }
    s
}

/// The bytes that seed a random name: the decimal digits of the clock's
/// nanoseconds.
pub open spec fn clock_seed(n: u32) -> Seq<u8> {
    ascii_bytes(decimal(n as nat))
}

/// Whether `c` is a lowercase hexadecimal digit.
pub open spec fn is_hex_digit(c: char) -> bool {
    ('0' <= c <= '9') || ('a' <= c <= 'f')
}

/// Whether `c` is an ASCII digit or lowercase letter.
pub open spec fn is_lower_alnum(c: char) -> bool {
    ('0' <= c <= '9') || ('a' <= c <= 'z')
}

/// What may stand at position `i` of a random name: a hexadecimal digit
/// of the digest in its first thirty-two places, then the two colons, then
/// a lowercase letter or digit.
pub open spec fn rand_char_at(i: int, c: char) -> bool {
    if i < 32 {
        is_hex_digit(c)
    } else if i < 34 {
        c == ':'
    } else {
        is_lower_alnum(c)
    }
}

/// Whether `s` is a random name of `length` characters: the first `length`
/// characters of `rand_text` for the MD5 digest of some clock seed and for
/// `length` random ASCII letters and digits; so each character is what
/// `rand_char_at` allows at its place.
pub open spec fn is_rand_name(s: Seq<char>, length: nat) -> bool {
    &&& s.len() == length
    &&& exists|n: u32, r: Seq<u8>| #![trigger rand_text(md5_of(clock_seed(n)), r)]
        md5_of(clock_seed(n)).len() == 16
        && r.len() == length
        && (forall|i: int| 0 <= i < r.len() ==> is_ascii_alphanumeric(#[trigger] r[i]))
        && s == rand_text(md5_of(clock_seed(n)), r).take(length as int)
    &&& forall|i: int| 0 <= i < length ==> rand_char_at(i, #[trigger] s[i])
}

/// A digit below sixteen gives a hexadecimal digit.
proof fn lemma_hex_char_digit(d: nat)
    requires
        d < 16,
    ensures
        is_hex_digit(hex_char(d)),
{
}

/// Every character of the hexadecimal form is a hexadecimal digit.
pub proof fn lemma_hex_lower_digits(data: Seq<u8>)
    ensures
        forall|i: int| 0 <= i < hex_lower(data).len() ==> is_hex_digit(#[trigger] hex_lower(data)[i]),
    decreases data.len(),
{
    if data.len() > 0 {
        lemma_hex_lower_digits(data.drop_last());
        lemma_hex_char_digit((data.last() / 16) as nat);
        lemma_hex_char_digit((data.last() % 16) as nat);
        let front = hex_lower(data.drop_last());
        let tail = seq![hex_char((data.last() / 16) as nat), hex_char((data.last() % 16) as nat)];
        assert(hex_lower(data) == front + tail);
        assert forall|i: int| 0 <= i < hex_lower(data).len() implies is_hex_digit(#[trigger] hex_lower(data)[i]) by {
            if i < front.len() {
                assert(hex_lower(data)[i] == front[i]);
            } else {
                assert(hex_lower(data)[i] == tail[i - front.len()]);
            }
        }
    }
}

/// The lowercase form of an ASCII letter or digit is a lowercase letter or
/// digit.
proof fn lemma_lower_alnum(b: u8)
    requires
        is_ascii_alphanumeric(b),
    ensures
        is_lower_alnum(ascii_lower(b as char)),
{
}

/// A random name of `length` characters: the lowercase hexadecimal MD5
/// digest of the decimal nanoseconds of the clock, then `::`, then `length`
/// random letters and digits in lowercase, cut to `length` characters.
pub fn rand_string(length: usize) -> (res: String)
    ensures
        res@.len() == length,
        is_rand_name(res@, length as nat),
{
    let nanos: u32 = match clock_subsec_nanos() {
        Some(n) => n,
        None => 0,
    };
    let seed = decimal_bytes(nanos as u64);
    let digest = md5_digest(seed.as_slice());
    let random = random_alphanumeric(length);
    let text = rand_text_exec(&digest, &random);
    proof {
        lemma_hex_lower_len(digest@);
        assert(text@.len() == 34 + length);
    }
    let res = string_of(text.as_str().substring_char(0, length));
    proof {
        let d = md5_of(clock_seed(nanos));
        assert(seed@ == clock_seed(nanos));
        assert(res@ =~= rand_text(d, random@).take(length as int));
        lemma_hex_lower_digits(d);
        assert forall|i: int| 0 <= i < length implies rand_char_at(i, #[trigger] res@[i]) by {
            assert(res@[i] == rand_text(d, random@)[i]);
            if i >= 34 {
                lemma_lower_alnum(random@[i - 34]);
            }
        }
    }
    res
}

} // verus!
