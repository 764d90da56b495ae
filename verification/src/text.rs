//! Character-level text handling: whitespace, words, decimal numbers.
use vstd::prelude::*;
use vstd::string::*;

verus! {

/// Unicode `White_Space`: the characters that `char::is_whitespace` accepts and
/// that `str::trim` and `str::split_whitespace` treat as separators.
pub open spec fn is_space(c: char) -> bool {
    let u = c as u32;
    ||| 0x9 <= u <= 0xd
    ||| u == 0x20
    ||| u == 0x85
    ||| u == 0xa0
    ||| u == 0x1680
    ||| 0x2000 <= u <= 0x200a
    ||| u == 0x2028
    ||| u == 0x2029
    ||| u == 0x202f
    ||| u == 0x205f
    ||| u == 0x3000
}

pub fn is_space_char(c: char) -> (r: bool)
    ensures
        r == is_space(c),
{
    let u = c as u32;
    (0x9 <= u && u <= 0xd) || u == 0x20 || u == 0x85 || u == 0xa0 || u == 0x1680 || (0x2000 <= u
        && u <= 0x200a) || u == 0x2028 || u == 0x2029 || u == 0x202f || u == 0x205f || u == 0x3000
}

/// First position at or after `i` that does not hold a space.
pub open spec fn skip_spaces(s: Seq<char>, i: int) -> int
    decreases s.len() - i,
{
    if 0 <= i < s.len() && is_space(s[i]) {
        skip_spaces(s, i + 1)
    } else {
        i
    }
}

/// First position at or after `i` that holds a space (or the end).
pub open spec fn skip_word(s: Seq<char>, i: int) -> int
    decreases s.len() - i,
{
    if 0 <= i < s.len() && !is_space(s[i]) {
        skip_word(s, i + 1)
    } else {
        i
    }
}

pub proof fn lemma_skip_spaces_bounds(s: Seq<char>, i: int)
    requires
        0 <= i <= s.len(),
    ensures
        i <= skip_spaces(s, i) <= s.len(),
        skip_spaces(s, i) < s.len() ==> !is_space(s[skip_spaces(s, i)]),
        forall|j: int| i <= j < skip_spaces(s, i) ==> is_space(#[trigger] s[j]),
    decreases s.len() - i,
{
    if i < s.len() && is_space(s[i]) {
        lemma_skip_spaces_bounds(s, i + 1);
    }
}

pub proof fn lemma_skip_word_bounds(s: Seq<char>, i: int)
    requires
        0 <= i <= s.len(),
    ensures
        i <= skip_word(s, i) <= s.len(),
        skip_word(s, i) < s.len() ==> is_space(s[skip_word(s, i)]),
        forall|j: int| i <= j < skip_word(s, i) ==> !is_space(#[trigger] s[j]),
    decreases s.len() - i,
{
    if i < s.len() && !is_space(s[i]) {
        lemma_skip_word_bounds(s, i + 1);
    }
}

/// The characters of `s`, in order.
pub fn chars_of(s: &str) -> (res: Vec<char>)
    ensures
        res@ == s@,
{
    let mut res: Vec<char> = Vec::new();
    for c in it: s.chars()
        invariant
            res@ == it.seq().take(it.index() as int),
            it.seq() == s@,
    {
        res.push(c);
    }
    res
}

pub fn skip_spaces_from(s: &Vec<char>, start: usize) -> (j: usize)
    requires
        start <= s.len(),
    ensures
        j == skip_spaces(s@, start as int),
{
    let mut j = start;
    while j < s.len() && is_space_char(s[j])
        invariant
            start <= j <= s.len(),
            skip_spaces(s@, j as int) == skip_spaces(s@, start as int),
        decreases s.len() - j,
    {
        j = j + 1;
    }
    j
}

pub fn skip_word_from(s: &Vec<char>, start: usize) -> (j: usize)
    requires
        start <= s.len(),
    ensures
        j == skip_word(s@, start as int),
{
    let mut j = start;
    while j < s.len() && !is_space_char(s[j])
        invariant
            start <= j <= s.len(),
            skip_word(s@, j as int) == skip_word(s@, start as int),
        decreases s.len() - j,
    {
        j = j + 1;
    }
    j
}

/// The lowercase mapping of Unicode that `str::to_lowercase` applies.
pub uninterp spec fn lowercase(s: Seq<char>) -> Seq<char>;

/// Calls `str::to_lowercase`; the contract claims only that the result is the
/// lowercase mapping of the argument's characters, a function of them alone.
#[verifier::external_body]
pub(crate) fn to_lowercase(s: &str) -> (res: String)
    ensures
        res@ == lowercase(s@),
{
    s.to_lowercase()
}

/// Whether `a` and `b` hold the same characters.
pub fn same_text(a: &String, b: &str) -> (r: bool)
    ensures
        r == (a@ == b@),
{
    let t = b.to_owned();
    *a == t
}

/// The character of a decimal digit.
pub open spec fn digit_char(d: nat) -> char {
    if d == 0 {
        '0'
    } else if d == 1 {
        '1'
    } else if d == 2 {
        '2'
    } else if d == 3 {
        '3'
    } else if d == 4 {
        '4'
    } else if d == 5 {
        '5'
    } else if d == 6 {
        '6'
    } else if d == 7 {
        '7'
    } else if d == 8 {
        '8'
    } else {
        '9'
    }
}

/// The decimal notation of `n`, without leading zeros.
pub open spec fn decimal(n: nat) -> Seq<char>
    decreases n,
{
    if n < 10 {
        seq![digit_char(n)]
    } else {
        decimal(n / 10).push(digit_char(n % 10))
    }
}

/// The decimal notation of an integer, with a leading `-` when it is negative.
pub open spec fn signed_decimal(i: int) -> Seq<char> {
    if i < 0 {
        seq!['-'] + decimal((-i) as nat)
    } else {
        decimal(i as nat)
    }
}

fn digit_text(d: u64) -> (r: &'static str)
    requires
        d < 10,
    ensures
        r@ == seq![digit_char(d as nat)],
{
    proof {
        reveal_strlit("0");
        reveal_strlit("1");
        reveal_strlit("2");
        reveal_strlit("3");
        reveal_strlit("4");
        reveal_strlit("5");
        reveal_strlit("6");
        reveal_strlit("7");
        reveal_strlit("8");
        reveal_strlit("9");
    }
    if d == 0 {
        "0"
    } else if d == 1 {
        "1"
    } else if d == 2 {
        "2"
    } else if d == 3 {
        "3"
    } else if d == 4 {
        "4"
    } else if d == 5 {
        "5"
    } else if d == 6 {
        "6"
    } else if d == 7 {
        "7"
    } else if d == 8 {
        "8"
    } else {
        "9"
    }
}

/// Decimal notation of an unsigned number.
pub fn u64_to_text(n: u64) -> (s: String)
    ensures
        s@ == decimal(n as nat),
    decreases n,
{
    if n < 10 {
        digit_text(n).to_owned()
    } else {
        let mut s = u64_to_text(n / 10);
        s.append(digit_text(n % 10));
        s
    }
}

/// Decimal notation of a signed number, as `{}` formats an `i32`.
pub fn i32_to_text(x: i32) -> (s: String)
    ensures
        s@ == signed_decimal(x as int),
{
    if x < 0 {
        let m: i64 = -(x as i64);
        let mut s = "-".to_owned();
        proof {
            reveal_strlit("-");
        }
        s.append(u64_to_text(m as u64).as_str());
        s
    } else {
        u64_to_text(x as u64)
    }
}

pub open spec fn is_digit(c: char) -> bool {
    '0' as u32 <= c as u32 <= '9' as u32
}

pub open spec fn digit_value(c: char) -> int {
    c as u32 - '0' as u32
}

/// The number that a sequence of decimal digits denotes.
pub open spec fn digits_value(s: Seq<char>) -> int
    decreases s.len(),
{
    if s.len() == 0 {
        0
    } else {
        digits_value(s.drop_last()) * 10 + digit_value(s.last())
    }
}

pub open spec fn all_digits(s: Seq<char>) -> bool {
    forall|i: int| 0 <= i < s.len() ==> is_digit(#[trigger] s[i])
}

/// The digits of an unsigned number's notation: all but a leading `+`.
pub open spec fn unsigned_digits(s: Seq<char>) -> Seq<char> {
    if s.len() > 0 && s[0] == '+' {
        s.drop_first()
    } else {
        s
    }
}

/// What `str::parse::<usize>` accepts: an optional `+` followed by at least one
/// ASCII digit, denoting a number that fits in `usize`.
pub open spec fn usize_of(s: Seq<char>) -> Option<usize> {
    let d = unsigned_digits(s);
    if d.len() > 0 && all_digits(d) && digits_value(d) <= usize::MAX {
        Some(digits_value(d) as usize)
    } else {
        None
    }
}

pub proof fn lemma_digits_value_nonneg(s: Seq<char>)
    requires
        all_digits(s),
    ensures
        digits_value(s) >= 0,
    decreases s.len(),
{
    if s.len() > 0 {
        lemma_digits_value_nonneg(s.drop_last());
    }
}

/// A longer run of digits denotes at least as much as any of its prefixes.
pub proof fn lemma_digits_value_prefix(s: Seq<char>, k: int)
    requires
        all_digits(s),
        0 <= k <= s.len(),
    ensures
        digits_value(s.take(k)) <= digits_value(s),
    decreases s.len() - k,
{
    if k < s.len() {
        lemma_digits_value_prefix(s, k + 1);
        assert(s.take(k + 1).drop_last() =~= s.take(k));
        lemma_digits_value_nonneg(s.take(k));
    } else {
        assert(s.take(k) =~= s);
    }
}

/// Parses a number as `str::parse::<usize>` does.
pub fn parse_usize(s: &str) -> (r: Option<usize>)
    ensures
        r == usize_of(s@),
{
    let chars = chars_of(s);
    let n = chars.len();
    let mut i: usize = 0;
    if n > 0 && chars[0] == '+' {
        i = 1;
    }
    let ghost d = unsigned_digits(s@);
    assert(d =~= chars@.skip(i as int));
    if i == n {
        return None;
    }
    let mut value: usize = 0;
    let start = i;
    while i < n
        invariant
            start <= i <= n,
            n == chars@.len(),
            chars@ == s@,
            d =~= chars@.skip(start as int),
            d == unsigned_digits(s@),
            start < n,
            all_digits(d.take(i - start)),
            value as int == digits_value(d.take(i - start)),
        decreases n - i,
    {
        let c = chars[i];
        let u = c as u32;
        assert(d[i - start] == c);
        if u < ('0' as u32) || u > ('9' as u32) {
            assert(!is_digit(d[i - start]));
            assert(!all_digits(d));
            return None;
        }
        assert(all_digits(d.take(i - start + 1))) by {
            assert forall|j: int| 0 <= j < i - start + 1 implies is_digit(#[trigger] d.take(i - start + 1)[j]) by {
                if j < i - start {
                    assert(d.take(i - start + 1)[j] == d.take(i - start)[j]);
                }
            }
        }
        let dv = (u - ('0' as u32)) as usize;
        assert(d.take(i - start + 1).drop_last() =~= d.take(i - start));
        assert(d.take(i - start + 1).last() == c);
        match value.checked_mul(10) {
            None => {
                proof {
                    lemma_overflow_means_none(d, i - start + 1);
                }
                return None;
            },
            Some(v10) => match v10.checked_add(dv) {
                None => {
                    proof {
                        lemma_overflow_means_none(d, i - start + 1);
                    }
                    return None;
                },
                Some(v) => {
                    value = v;
                },
            },
        }
        i = i + 1;
    }
    assert(d.take(i - start) =~= d);
    Some(value)
}

proof fn lemma_overflow_means_none(d: Seq<char>, k: int)
    requires
        0 < k <= d.len(),
        all_digits(d.take(k)),
        digits_value(d.take(k)) > usize::MAX,
    ensures
        !(all_digits(d) && digits_value(d) <= usize::MAX),
{
    if all_digits(d) {
        lemma_digits_value_prefix(d, k);
    }
}

} // verus!
