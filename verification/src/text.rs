use vstd::prelude::*;

verus! {

// ---------------------------------------------------------------------------
// Character helpers
// ---------------------------------------------------------------------------

/// ASCII lower-casing of a single character; anything outside 'A'..'Z' is kept.
pub open spec fn spec_lower(c: char) -> char {
    match c {
        'A' => 'a',
        'B' => 'b',
        'C' => 'c',
        'D' => 'd',
        'E' => 'e',
        'F' => 'f',
        'G' => 'g',
        'H' => 'h',
        'I' => 'i',
        'J' => 'j',
        'K' => 'k',
        'L' => 'l',
        'M' => 'm',
        'N' => 'n',
        'O' => 'o',
        'P' => 'p',
        'Q' => 'q',
        'R' => 'r',
        'S' => 's',
        'T' => 't',
        'U' => 'u',
        'V' => 'v',
        'W' => 'w',
        'X' => 'x',
        'Y' => 'y',
        'Z' => 'z',
        _ => c,
    }
}

/// ASCII lower-casing of a character sequence.
pub open spec fn spec_lower_seq(s: Seq<char>) -> Seq<char> {
    s.map_values(|c: char| spec_lower(c))
}

pub fn lower_char(c: char) -> (r: char)
    ensures
        r == spec_lower(c),
{
    match c {
        'A' => 'a',
        'B' => 'b',
        'C' => 'c',
        'D' => 'd',
        'E' => 'e',
        'F' => 'f',
        'G' => 'g',
        'H' => 'h',
        'I' => 'i',
        'J' => 'j',
        'K' => 'k',
        'L' => 'l',
        'M' => 'm',
        'N' => 'n',
        'O' => 'o',
        'P' => 'p',
        'Q' => 'q',
        'R' => 'r',
        'S' => 's',
        'T' => 't',
        'U' => 'u',
        'V' => 'v',
        'W' => 'w',
        'X' => 'x',
        'Y' => 'y',
        'Z' => 'z',
        _ => c,
    }
}

/// An ASCII letter, either case.
pub open spec fn spec_is_alpha(c: char) -> bool {
    (('a' as u32) <= (c as u32) && (c as u32) <= ('z' as u32)) || (('A' as u32) <= (c as u32)
        && (c as u32) <= ('Z' as u32))
}

pub fn is_alpha(c: char) -> (r: bool)
    ensures
        r == spec_is_alpha(c),
{
    let v = c as u32;
    (('a' as u32) <= v && v <= ('z' as u32)) || (('A' as u32) <= v && v <= ('Z' as u32))
}

/// An ASCII decimal digit.
pub open spec fn spec_is_digit(c: char) -> bool {
    ('0' as u32) <= (c as u32) && (c as u32) <= ('9' as u32)
}

/// The numeric value of a decimal digit character.
pub open spec fn spec_digit_val(c: char) -> int {
    (c as u32) - ('0' as u32)
}

// ---------------------------------------------------------------------------
// String equality
// ---------------------------------------------------------------------------

pub fn str_eq(a: &str, b: &str) -> (r: bool)
    ensures
        r == (a@ == b@),
{
    let n = a.unicode_len();
    let m = b.unicode_len();
    if n != m {
        proof {
            assert(a@ != b@) by {
                if a@ == b@ {
                    assert(a@.len() == b@.len());
                }
            }
        }
        return false;
    }
    for i in 0..n
        invariant
            n == a@.len(),
            n == b@.len(),
            forall|j: int| 0 <= j < i ==> a@[j] == b@[j],
    {
        if a.get_char(i) != b.get_char(i) {
            return false;
        }
    }
    proof {
        assert(a@ =~= b@);
    }
    true
}

// ---------------------------------------------------------------------------
// Decimal rendering of unsigned integers
// ---------------------------------------------------------------------------

/// Decimal digit characters, indexed by value.
pub open spec fn spec_digit_char(d: int) -> char {
    seq!['0', '1', '2', '3', '4', '5', '6', '7', '8', '9'][d]
}

/// The decimal rendering of `n`, with no leading zeros.
pub open spec fn spec_u64_string(n: int) -> Seq<char>
    decreases n,
{
    if n < 10 {
        seq![spec_digit_char(n)]
    } else {
        spec_u64_string(n / 10) + seq![spec_digit_char(n % 10)]
    }
}

fn digit_str(d: u64) -> (r: &'static str)
    requires
        d < 10,
    ensures
        r@ == seq![spec_digit_char(d as int)],
{
    proof {
        reveal_strlit("0");
        reveal_strlit("1");
        reveal_strlit("2");
        reveal_strlit("3");
        reveal_strlit("4");
        reveal_strlit("5");
        reveal_strlit("6");
        reveal_strlit("7");
        reveal_strlit("8");
        reveal_strlit("9");
    }
    match d {
        0 => "0",
        1 => "1",
        2 => "2",
        3 => "3",
        4 => "4",
        5 => "5",
        6 => "6",
        7 => "7",
        8 => "8",
        _ => "9",
    }
}

pub fn u64_to_string(n: u64) -> (r: String)
    ensures
        r@ == spec_u64_string(n as int),
    decreases n,
{
    let d = digit_str(n % 10);
    if n < 10 {
        String::from_str(d)
    } else {
        let mut s = u64_to_string(n / 10);
        s.append(d);
        s
    }
}

/// The `y-m-d` text a decoded date value displays as, without zero padding.
pub fn date_string(y: u16, m: u8, d: u8) -> (r: String)
    ensures
        r@ == spec_u64_string(y as int) + "-"@ + spec_u64_string(m as int) + "-"@
            + spec_u64_string(d as int),
{
    let mut s = u64_to_string(y as u64);
    s.append("-");
    let month = u64_to_string(m as u64);
    s.append(month.as_str());
    s.append("-");
    let day = u64_to_string(d as u64);
    s.append(day.as_str());
    s
}

/// The `h:m:s` text a decoded time value displays as, a sign in front of a
/// negative interval and the sub-second digits run on behind the seconds.
pub fn time_string(neg: bool, h: u8, mi: u8, s: u8, micros: u32) -> (r: String)
    ensures
        r@ == (if neg {
            "-"@
        } else {
            Seq::<char>::empty()
        }) + spec_u64_string(h as int) + ":"@ + spec_u64_string(mi as int) + ":"@
            + spec_u64_string(s as int) + spec_u64_string(micros as int),
{
    let mut out = if neg {
        String::from_str("-")
    } else {
        String::new()
    };
    let hours = u64_to_string(h as u64);
    out.append(hours.as_str());
    out.append(":");
    let minutes = u64_to_string(mi as u64);
    out.append(minutes.as_str());
    out.append(":");
    let seconds = u64_to_string(s as u64);
    out.append(seconds.as_str());
    let sub = u64_to_string(micros as u64);
    out.append(sub.as_str());
    out
}

// ---------------------------------------------------------------------------
// Lower-case hex rendering of bytes
// ---------------------------------------------------------------------------

/// Lower-case hex digit characters, indexed by value.
pub open spec fn spec_hex_char(d: int) -> char {
    seq!['0', '1', '2', '3', '4', '5', '6', '7', '8', '9', 'a', 'b', 'c', 'd', 'e', 'f'][d]
}

/// Two lower-case hex digits per byte, in order.
pub open spec fn spec_hex_lower(bytes: Seq<u8>) -> Seq<char>
    decreases bytes.len(),
{
    if bytes.len() == 0 {
        Seq::empty()
    } else {
        seq![
            spec_hex_char(bytes.first() as int / 16),
            spec_hex_char((bytes.first() % 16) as int),
        ] + spec_hex_lower(bytes.drop_first())
    }
}

fn hex_digit_str(d: u8) -> (r: &'static str)
    requires
        d < 16,
    ensures
        r@ == seq![spec_hex_char(d as int)],
{
    proof {
        reveal_strlit("a");
        reveal_strlit("b");
        reveal_strlit("c");
        reveal_strlit("d");
        reveal_strlit("e");
        reveal_strlit("f");
    }
    match d {
        10 => "a",
        11 => "b",
        12 => "c",
        13 => "d",
        14 => "e",
        15 => "f",
        _ => digit_str(d as u64),
    }
}

pub fn bytes_to_hex_lower(bytes: &Vec<u8>) -> (r: String)
    ensures
        r@ == spec_hex_lower(bytes@),
{
    let mut r = String::new();
    let n = bytes.len();
    proof {
        assert(bytes@.skip(0) == bytes@);
    }
    for i in 0..n
        invariant
            n == bytes@.len(),
            spec_hex_lower(bytes@) =~= r@ + spec_hex_lower(bytes@.skip(i as int)),
    {
        let b = bytes[i];
        r.append(hex_digit_str(b / 16));
        r.append(hex_digit_str(b % 16));
        proof {
            assert(bytes@.skip(i as int).drop_first() == bytes@.skip(i + 1));
        }
    }
    r
}

// ---------------------------------------------------------------------------
// Parsing an unsigned 16-bit port number
// ---------------------------------------------------------------------------

/// The value of a digit sequence read in base ten.
pub open spec fn spec_dec_val(s: Seq<char>) -> int
    decreases s.len(),
{
    if s.len() == 0 {
        0
    } else {
        spec_dec_val(s.drop_last()) * 10 + spec_digit_val(s.last())
    }
}

pub open spec fn spec_all_digits(s: Seq<char>) -> bool {
    forall|i: int| 0 <= i < s.len() ==> spec_is_digit(#[trigger] s[i])
}

/// A string parses as a port exactly when it is a non-empty digit string
/// whose value fits in 16 bits.
pub open spec fn spec_parse_u16(s: Seq<char>) -> Option<u16> {
    if s.len() > 0 && spec_all_digits(s) && spec_dec_val(s) <= 0xffff {
        Some(spec_dec_val(s) as u16)
    } else {
        None
    }
}

proof fn lemma_dec_val_monotone(s: Seq<char>, i: int)
    requires
        0 <= i <= s.len(),
        spec_all_digits(s),
    ensures
        spec_dec_val(s.take(i)) <= spec_dec_val(s),
    decreases s.len() - i,
{
    if i < s.len() {
        assert(s.take(i + 1).drop_last() =~= s.take(i));
        assert(s.take(i + 1).last() == s[i]);
        assert(spec_dec_val(s.take(i)) >= 0) by {
            lemma_dec_val_nonneg(s.take(i));
        }
        assert(spec_dec_val(s.take(i)) <= spec_dec_val(s.take(i + 1)));
        lemma_dec_val_monotone(s, i + 1);
        assert(s.take(s.len() as int) =~= s);
    } else {
        assert(s.take(i) =~= s);
    }
}

proof fn lemma_dec_val_nonneg(s: Seq<char>)
    requires
        spec_all_digits(s),
    ensures
        spec_dec_val(s) >= 0,
    decreases s.len(),
{
    if s.len() > 0 {
        assert(spec_all_digits(s.drop_last())) by {
            assert(forall|i: int|
                0 <= i < s.len() - 1 ==> s.drop_last()[i] == #[trigger] s[i]);
        }
        lemma_dec_val_nonneg(s.drop_last());
    }
}

pub fn parse_u16(s: &str) -> (r: Option<u16>)
    ensures
        r == spec_parse_u16(s@),
{
    let n = s.unicode_len();
    if n == 0 {
        return None;
    }
    let mut acc: u32 = 0;
    for i in 0..n
        invariant
            n == s@.len(),
            n > 0,
            spec_all_digits(s@.take(i as int)),
            acc == spec_dec_val(s@.take(i as int)),
            acc <= 0xffff,
    {
        let c = s.get_char(i);
        let v = c as u32;
        if v < ('0' as u32) || v > ('9' as u32) {
            proof {
                assert(!spec_is_digit(s@[i as int]));
            }
            return None;
        }
        proof {
            assert(s@.take(i + 1).drop_last() =~= s@.take(i as int));
            assert(s@.take(i + 1).last() == s@[i as int]);
        }
        acc = acc * 10 + (v - ('0' as u32));
        if acc > 0xffff {
            proof {
                if spec_all_digits(s@) {
                    lemma_dec_val_monotone(s@, i + 1);
                    assert(s@.take(s@.len() as int) =~= s@);
                }
            }
            return None;
        }
    }
    proof {
        assert(s@.take(n as int) =~= s@);
    }
    Some(acc as u16)
}

// ---------------------------------------------------------------------------
// Case-insensitive substring search
// ---------------------------------------------------------------------------

/// `p` occurs in `t` starting at position `i`.
pub open spec fn spec_match_at(t: Seq<char>, p: Seq<char>, i: int) -> bool {
    t.subrange(i, i + p.len()) == p
}

/// `p` occurs somewhere in `t`.
pub open spec fn spec_contains_seq(t: Seq<char>, p: Seq<char>) -> bool {
    exists|i: int| 0 <= i <= t.len() - p.len() && spec_match_at(t, p, i)
}

/// Case-insensitive containment: the lowered pattern occurs in the lowered text.
pub open spec fn spec_contains_ci(t: Seq<char>, p: Seq<char>) -> bool {
    spec_contains_seq(spec_lower_seq(t), spec_lower_seq(p))
}

fn match_at(t: &str, p: &str, i: usize) -> (r: bool)
    requires
        i + p@.len() <= t@.len(),
        t@.len() <= usize::MAX,
    ensures
        r == spec_match_at(spec_lower_seq(t@), spec_lower_seq(p@), i as int),
{
    let m = p.unicode_len();
    for j in 0..m
        invariant
            m == p@.len(),
            i + m <= t@.len(),
            t@.len() <= usize::MAX,
            forall|k: int|
                0 <= k < j ==> spec_lower_seq(t@)[i + k] == spec_lower_seq(p@)[k],
    {
        let tc = lower_char(t.get_char(i + j));
        let pc = lower_char(p.get_char(j));
        if tc != pc {
            proof {
                assert(spec_lower_seq(t@)[i + j] != spec_lower_seq(p@)[j as int]);
                assert(!spec_match_at(spec_lower_seq(t@), spec_lower_seq(p@), i as int)) by {
                    if spec_match_at(spec_lower_seq(t@), spec_lower_seq(p@), i as int) {
                        assert(spec_lower_seq(t@).subrange(
                            i as int,
                            i + spec_lower_seq(p@).len(),
                        )[j as int] == spec_lower_seq(p@)[j as int]);
                    }
                }
            }
            return false;
        }
    }
    proof {
        assert(spec_lower_seq(t@).subrange(i as int, i + p@.len()) =~= spec_lower_seq(p@));
    }
    true
}

/// Case-insensitive substring test, e.g. used to spot a `LIMIT` clause.
pub fn contains_ci(t: &str, p: &str) -> (r: bool)
    ensures
        r == spec_contains_ci(t@, p@),
{
    let n = t.unicode_len();
    let m = p.unicode_len();
    if m > n {
        return false;
    }
    if m == 0 {
        proof {
            assert(spec_lower_seq(t@).subrange(0, 0) =~= spec_lower_seq(p@));
            assert(spec_match_at(spec_lower_seq(t@), spec_lower_seq(p@), 0));
        }
        return true;
    }
    let mut i: usize = 0;
    while i <= n - m
        invariant
            n == t@.len(),
            m == p@.len(),
            1 <= m <= n,
            i <= n - m + 1,
            forall|k: int|
                0 <= k < i ==> !spec_match_at(spec_lower_seq(t@), spec_lower_seq(p@), k),
        decreases n - m - i + 1,
    {
        if match_at(t, p, i) {
            return true;
        }
        i = i + 1;
    }
    false
}

// ---------------------------------------------------------------------------
// The first word of a statement
// ---------------------------------------------------------------------------

/// Length of the leading run of ASCII letters.
pub open spec fn spec_word_len(s: Seq<char>) -> int
    decreases s.len(),
{
    if s.len() == 0 || !spec_is_alpha(s[0]) {
        0
    } else {
        1 + spec_word_len(s.drop_first())
    }
}

/// The leading keyword of a statement, lowered.
pub open spec fn spec_first_word(s: Seq<char>) -> Seq<char> {
    spec_lower_seq(s.take(spec_word_len(s)))
}

proof fn lemma_word_len_bound(s: Seq<char>)
    ensures
        0 <= spec_word_len(s) <= s.len(),
        forall|j: int| 0 <= j < spec_word_len(s) ==> spec_is_alpha(#[trigger] s[j]),
        spec_word_len(s) < s.len() ==> !spec_is_alpha(s[spec_word_len(s)]),
    decreases s.len(),
{
    if s.len() > 0 && spec_is_alpha(s[0]) {
        lemma_word_len_bound(s.drop_first());
        assert forall|j: int| 0 <= j < spec_word_len(s) implies spec_is_alpha(#[trigger] s[j]) by {
            if j > 0 {
                assert(s.drop_first()[j - 1] == s[j]);
                assert(spec_is_alpha(s.drop_first()[j - 1]));
            }
        }
        if spec_word_len(s) < s.len() {
            assert(s.drop_first()[spec_word_len(s) - 1] == s[spec_word_len(s)]);
        }
    }
}

proof fn lemma_word_len_from_scan(s: Seq<char>, i: int)
    requires
        0 <= i <= s.len(),
        forall|j: int| 0 <= j < i ==> spec_is_alpha(#[trigger] s[j]),
        i < s.len() ==> !spec_is_alpha(s[i]),
    ensures
        spec_word_len(s) == i,
    decreases s.len(),
{
    if s.len() == 0 {
    } else if i == 0 {
    } else {
        assert(spec_is_alpha(s[0]));
        assert(forall|j: int|
            0 <= j < i - 1 ==> s.drop_first()[j] == #[trigger] s[j + 1]);
        assert(i - 1 < s.drop_first().len() ==> s.drop_first()[i - 1] == s[i]);
        lemma_word_len_from_scan(s.drop_first(), i - 1);
    }
}

/// Does the statement text begin with the given keyword (case-insensitively)?
/// The keyword must be its whole first word: `SELECTED ...` does not start
/// with the keyword `select`.
pub fn first_word_is(t: &str, kw: &str) -> (r: bool)
    ensures
        r == (spec_first_word(t@) == spec_lower_seq(kw@)),
{
    let n = t.unicode_len();
    let mut wlen: usize = 0;
    while wlen < n && is_alpha(t.get_char(wlen))
        invariant
            n == t@.len(),
            wlen <= n,
            forall|j: int| 0 <= j < wlen ==> spec_is_alpha(#[trigger] t@[j]),
        decreases n - wlen,
    {
        wlen = wlen + 1;
    }
    proof {
        lemma_word_len_from_scan(t@, wlen as int);
    }
    let m = kw.unicode_len();
    if wlen != m {
        proof {
            assert(spec_first_word(t@).len() == wlen);
            assert(spec_lower_seq(kw@).len() == m);
        }
        return false;
    }
    for j in 0..m
        invariant
            n == t@.len(),
            m == kw@.len(),
            wlen == m,
            wlen <= n,
            spec_word_len(t@) == wlen,
            forall|k: int|
                0 <= k < j ==> spec_first_word(t@)[k] == spec_lower_seq(kw@)[k],
    {
        let tc = lower_char(t.get_char(j));
        let kc = lower_char(kw.get_char(j));
        proof {
            assert(t@.take(spec_word_len(t@))[j as int] == t@[j as int]);
        }
        if tc != kc {
            proof {
                assert(spec_first_word(t@)[j as int] != spec_lower_seq(kw@)[j as int]);
            }
            return false;
        }
    }
    proof {
        assert(spec_first_word(t@) =~= spec_lower_seq(kw@));
    }
    true
}

} // verus!
