//! Small text routines on `str` values seen as sequences of characters:
//! comparison with ASCII case folding, whitespace trimming, and decimal
//! numbers.
use vstd::prelude::*;
use vstd::string::*;

verus! {

/// Code of `c` with ASCII capitals folded to small letters.
pub open spec fn folded_code(c: char) -> u32 {
    if 65 <= (c as u32) && (c as u32) <= 90 {
        ((c as u32) + 32) as u32
    } else {
        c as u32
    }
}

/// `s` equals `t` up to the case of ASCII letters in `s`; `t` is expected
/// in small letters.
pub open spec fn eq_ignoring_case(s: Seq<char>, t: Seq<char>) -> bool {
    &&& s.len() == t.len()
    &&& forall|i: int| 0 <= i < s.len() ==> folded_code(#[trigger] s[i]) == t[i] as u32
}

/// Whether `s`, with its ASCII capitals folded, spells `name`.
pub fn eq_ignore_ascii_case(s: &str, name: &[char]) -> (r: bool)
    ensures
        r == eq_ignoring_case(s@, name@),
{
    let n = s.unicode_len();
    if n != name.len() {
        return false;
    }
    let mut i: usize = 0;
    while i < n
        invariant
            n == s@.len(),
            n == name@.len(),
            i <= n,
            forall|j: int| 0 <= j < i ==> folded_code(#[trigger] s@[j]) == name@[j] as u32,
        decreases n - i,
    {
        let c = s.get_char(i);
        let code = c as u32;
        let folded: u32 = if 65 <= code && code <= 90 {
            code + 32
        } else {
            code
        };
        if folded != name[i] as u32 {
            return false;
        }
        i = i + 1;
    }
    true
}

/// Whether `s` spells `t` exactly.
pub fn str_eq(s: &str, t: &[char]) -> (r: bool)
    ensures
        r == (s@ == t@),
{
    let n = s.unicode_len();
    if n != t.len() {
        return false;
    }
    let mut i: usize = 0;
    while i < n
        invariant
            n == s@.len(),
            n == t@.len(),
            i <= n,
            forall|j: int| 0 <= j < i ==> #[trigger] s@[j] == t@[j],
        decreases n - i,
    {
        if s.get_char(i) != t[i] {
            return false;
        }
        i = i + 1;
    }
    assert(s@ =~= t@);
    true
}

/// Unicode `White_Space`, the set that `char::is_whitespace` and
/// `str::trim` use.
pub open spec fn is_white_space(c: char) -> bool {
    let u = c as u32;
    ||| 9 <= u && u <= 13
    ||| u == 0x20
    ||| u == 0x85
    ||| u == 0xA0
    ||| u == 0x1680
    ||| 0x2000 <= u && u <= 0x200A
    ||| u == 0x2028
    ||| u == 0x2029
    ||| u == 0x202F
    ||| u == 0x205F
    ||| u == 0x3000
}

pub fn is_white_space_char(c: char) -> (r: bool)
    ensures
        r == is_white_space(c),
{
    let u = c as u32;
    (9 <= u && u <= 13) || u == 0x20 || u == 0x85 || u == 0xA0 || u == 0x1680 || (0x2000 <= u && u
        <= 0x200A) || u == 0x2028 || u == 0x2029 || u == 0x202F || u == 0x205F || u == 0x3000
}

/// `s` without its leading white space.
pub open spec fn trim_start(s: Seq<char>) -> Seq<char>
    decreases s.len(),
{
    if s.len() > 0 && is_white_space(s[0]) {
        trim_start(s.drop_first())
    } else {
        s
    }
}

/// `s` without its trailing white space.
pub open spec fn trim_end(s: Seq<char>) -> Seq<char>
    decreases s.len(),
{
    if s.len() > 0 && is_white_space(s.last()) {
        trim_end(s.drop_last())
    } else {
        s
    }
}

/// `s` without leading and trailing white space, as `str::trim` gives it.
pub open spec fn trimmed(s: Seq<char>) -> Seq<char> {
    trim_end(trim_start(s))
}

/// `s` without leading and trailing white space.
pub fn trim(s: &str) -> (r: &str)
    ensures
        r@ == trimmed(s@),
{
    let n = s.unicode_len();
    let mut a: usize = 0;
    assert(s@.subrange(0, n as int) =~= s@);
    while a < n && is_white_space_char(s.get_char(a))
        invariant
            n == s@.len(),
            a <= n,
            trim_start(s@) == trim_start(s@.subrange(a as int, n as int)),
        decreases n - a,
    {
        assert(s@.subrange(a as int, n as int).drop_first() =~= s@.subrange(a + 1, n as int));
        a = a + 1;
    }
    assert(trim_start(s@.subrange(a as int, n as int)) == s@.subrange(a as int, n as int));
    let mut b: usize = n;
    while b > a && is_white_space_char(s.get_char(b - 1))
        invariant
            n == s@.len(),
            a <= b <= n,
            trim_end(s@.subrange(a as int, n as int)) == trim_end(s@.subrange(a as int, b as int)),
        decreases b,
    {
        assert(s@.subrange(a as int, b as int).drop_last() =~= s@.subrange(a as int, b - 1));
        b = b - 1;
    }
    assert(trim_end(s@.subrange(a as int, b as int)) == s@.subrange(a as int, b as int));
    s.substring_char(a, b)
}

/// An ASCII decimal digit.
pub open spec fn is_digit(c: char) -> bool {
    48 <= (c as u32) && (c as u32) <= 57
}

/// The value of digit `c`.
pub open spec fn digit_value(c: char) -> int {
    (c as u32) - 48
}

/// Every character of `s` is a decimal digit.
pub open spec fn all_digits(s: Seq<char>) -> bool {
    forall|i: int| 0 <= i < s.len() ==> is_digit(#[trigger] s[i])
}

/// The number that the decimal digits `s` spell.
pub open spec fn decimal_value(s: Seq<char>) -> int
    decreases s.len(),
{
    if s.len() == 0 {
        0
    } else {
        decimal_value(s.drop_last()) * 10 + digit_value(s.last())
    }
}

/// `s` without a leading `+`.
pub open spec fn unsigned_digits(s: Seq<char>) -> Seq<char> {
    if s.len() > 0 && s[0] == '+' {
        s.drop_first()
    } else {
        s
    }
}

/// What `u32::from_str` gives for `s`: an optional `+` followed by one or
/// more decimal digits whose value fits in a `u32`; anything else fails.
pub open spec fn parsed_u32(s: Seq<char>) -> Option<u32> {
    let d = unsigned_digits(s);
    if d.len() > 0 && all_digits(d) && decimal_value(d) <= u32::MAX {
        Some(decimal_value(d) as u32)
    } else {
        None
    }
}

/// A prefix of a digit string is worth no more than the whole.
proof fn lemma_prefix_value_le(s: Seq<char>, k: int)
    requires
        all_digits(s),
        0 <= k <= s.len(),
    ensures
        0 <= decimal_value(s.subrange(0, k)) <= decimal_value(s),
    decreases s.len(),
{
    if s.len() == 0 {
        assert(s.subrange(0, k) =~= s);
    } else if k == s.len() {
        assert(s.subrange(0, k) =~= s);
        lemma_value_nonneg(s);
    } else {
        assert(all_digits(s.drop_last()));
        lemma_prefix_value_le(s.drop_last(), k);
        assert(s.drop_last().subrange(0, k) =~= s.subrange(0, k));
        assert(is_digit(s[s.len() - 1]));
    }
}

proof fn lemma_value_nonneg(s: Seq<char>)
    requires
        all_digits(s),
    ensures
        decimal_value(s) >= 0,
    decreases s.len(),
{
    if s.len() > 0 {
        assert(all_digits(s.drop_last()));
        lemma_value_nonneg(s.drop_last());
        assert(is_digit(s[s.len() - 1]));
    }
}

/// Reads `s` as `u32::from_str` does.
pub fn parse_u32(s: &str) -> (r: Option<u32>)
    ensures
        r == parsed_u32(s@),
{
    let n = s.unicode_len();
    let mut start: usize = 0;
    if n > 0 && s.get_char(0) == '+' {
        start = 1;
    }
    let ghost d = unsigned_digits(s@);
    assert(d =~= s@.subrange(start as int, n as int));
    if start == n {
        return None;
    }
    let mut acc: u64 = 0;
    let mut i: usize = start;
    while i < n
        invariant
            n == s@.len(),
            start <= i <= n,
            d == s@.subrange(start as int, n as int),
            d == unsigned_digits(s@),
            all_digits(s@.subrange(start as int, i as int)),
            acc as int == decimal_value(s@.subrange(start as int, i as int)),
            acc <= u32::MAX,
        decreases n - i,
    {
        let c = s.get_char(i);
        let u = c as u32;
        if !(48 <= u && u <= 57) {
            assert(d[i - start] == c);
            assert(!is_digit(d[i - start]));
            return None;
        }
        let next: u64 = acc * 10 + (u - 48) as u64;
        proof {
            let p = s@.subrange(start as int, i + 1);
            assert(p.drop_last() =~= s@.subrange(start as int, i as int));
            assert(p.last() == c);
            assert(all_digits(p));
            assert(next as int == decimal_value(p));
        }
        if next > 4294967295 {
            proof {
                if all_digits(d) {
                    lemma_prefix_value_le(d, i + 1 - start);
                    assert(d.subrange(0, i + 1 - start) =~= s@.subrange(start as int, i + 1));
                    assert(decimal_value(d) > u32::MAX);
                }
            }
            return None;
        }
        acc = next;
        i = i + 1;
    }
    Some(acc as u32)
}

/// The digit character for `d`, which is below ten.
pub open spec fn digit_char(d: int) -> char {
    (d + 48) as char
}

/// The decimal representation of `n`, without sign or leading zeros.
pub open spec fn decimal_text(n: nat) -> Seq<char>
    decreases n,
{
    if n < 10 {
        seq![digit_char(n as int)]
    } else {
        decimal_text(n / 10) + seq![digit_char((n % 10) as int)]
    }
}

/// The one-character text of digit `d`.
fn digit_str(d: u32) -> (r: &'static str)
    requires
        d < 10,
    ensures
        r@ == seq![digit_char(d as int)],
{
    proof {
        reveal_strlit("0");
        reveal_strlit("1");
        reveal_strlit("2");
        reveal_strlit("3");
        reveal_strlit("4");
        reveal_strlit("5");
        reveal_strlit("6");
        reveal_strlit("7");
        reveal_strlit("8");
        reveal_strlit("9");
    }
    if d == 0 {
        "0"
    } else if d == 1 {
        "1"
    } else if d == 2 {
        "2"
    } else if d == 3 {
        "3"
    } else if d == 4 {
        "4"
    } else if d == 5 {
        "5"
    } else if d == 6 {
        "6"
    } else if d == 7 {
        "7"
    } else if d == 8 {
        "8"
    } else {
        "9"
    }
}

/// `n` in decimal, as `format!("{}", n)` writes it.
pub fn u32_text(n: u32) -> (r: String)
    ensures
        r@ == decimal_text(n as nat),
    decreases n,
{
    if n < 10 {
        String::from_str(digit_str(n))
    } else {
        let mut r = u32_text(n / 10);
        r.append(digit_str(n % 10));
        r
    }
}

proof fn lemma_decimal_text_digits(n: nat)
    ensures
        decimal_text(n).len() > 0,
        all_digits(decimal_text(n)),
        decimal_value(decimal_text(n)) == n,
    decreases n,
{
    if n >= 10 {
        lemma_decimal_text_digits(n / 10);
        let t = decimal_text(n);
        assert(t.drop_last() =~= decimal_text(n / 10));
        let d = (n % 10) as int;
        assert(0 <= d < 10);
        assert(t.last() == digit_char(d));
        assert(digit_value(digit_char(d)) == d);
        assert(decimal_value(t) == decimal_value(t.drop_last()) * 10 + digit_value(t.last()));
        assert((n / 10) * 10 + d == n);
        assert(decimal_value(t.drop_last()) == n / 10);
        assert(decimal_value(t) == n);
    } else {
        let t = decimal_text(n);
        assert(t.drop_last() =~= Seq::<char>::empty());
        assert(decimal_value(Seq::<char>::empty()) == 0);
        assert(t.last() == digit_char(n as int));
        assert(digit_value(digit_char(n as int)) == n);
        assert(decimal_value(t) == n);
    }
}

/// Reading back the decimal text of a number gives the number, also after
/// trimming: `u32::from_str` undoes `format!("{}", n)`.
pub proof fn parse_undoes_text(n: u32)
    ensures
        trimmed(decimal_text(n as nat)) == decimal_text(n as nat),
        parsed_u32(trimmed(decimal_text(n as nat))) == Some(n),
{
    lemma_decimal_text_digits(n as nat);
    let t = decimal_text(n as nat);
    assert(is_digit(t[0]));
    assert(is_digit(t[t.len() - 1]));
    assert(trim_start(t) == t);
    assert(trim_end(t) == t);
}

proof fn lemma_trim_start_shape(s: Seq<char>)
    ensures
        exists|k: int|
            0 <= k <= s.len() && trim_start(s) == s.subrange(k, s.len() as int) && (forall|i: int|
                0 <= i < k ==> is_white_space(#[trigger] s[i])) && (k < s.len() ==> !is_white_space(
                s[k],
            )),
    decreases s.len(),
{
    if s.len() > 0 && is_white_space(s[0]) {
        let t = s.drop_first();
        lemma_trim_start_shape(t);
        let k = choose|k: int|
            0 <= k <= t.len() && trim_start(t) == t.subrange(k, t.len() as int) && (forall|i: int|
                0 <= i < k ==> is_white_space(#[trigger] t[i])) && (k < t.len() ==> !is_white_space(
                t[k],
            ));
        assert(t.subrange(k, t.len() as int) =~= s.subrange(k + 1, s.len() as int));
        assert forall|i: int| 0 <= i < k + 1 implies is_white_space(#[trigger] s[i]) by {
            if i > 0 {
                assert(s[i] == t[i - 1]);
            }
        }
        assert(k + 1 < s.len() ==> s[k + 1] == t[k]);
    } else {
        assert(s.subrange(0, s.len() as int) =~= s);
    }
}

proof fn lemma_trim_end_shape(s: Seq<char>)
    ensures
        exists|m: int|
            0 <= m <= s.len() && trim_end(s) == s.subrange(0, m) && (forall|i: int|
                m <= i < s.len() ==> is_white_space(#[trigger] s[i])) && (m > 0 ==> !is_white_space(
                s[m - 1],
            )),
    decreases s.len(),
{
    if s.len() > 0 && is_white_space(s.last()) {
        let t = s.drop_last();
        lemma_trim_end_shape(t);
        let m = choose|m: int|
            0 <= m <= t.len() && trim_end(t) == t.subrange(0, m) && (forall|i: int|
                m <= i < t.len() ==> is_white_space(#[trigger] t[i])) && (m > 0 ==> !is_white_space(
                t[m - 1],
            ));
        assert(t.subrange(0, m) =~= s.subrange(0, m));
        assert forall|i: int| m <= i < s.len() implies is_white_space(#[trigger] s[i]) by {
            if i < s.len() - 1 {
                assert(s[i] == t[i]);
            }
        }
        assert(m > 0 ==> s[m - 1] == t[m - 1]);
    } else {
        assert(s.subrange(0, s.len() as int) =~= s);
    }
}

/// Trimming removes the white space at both ends and nothing else: the
/// result is a stretch `s[a..b]` of `s` with only white space before `a`
/// and from `b` on, and it starts and ends with a character that is not
/// white space unless it is empty.
pub proof fn trim_removes_outer_white_space(s: Seq<char>)
    ensures
        exists|a: int, b: int|
            {
                &&& 0 <= a <= b <= s.len()
                &&& trimmed(s) == s.subrange(a, b)
                &&& forall|i: int| 0 <= i < a ==> is_white_space(#[trigger] s[i])
                &&& forall|i: int| b <= i < s.len() ==> is_white_space(#[trigger] s[i])
                &&& a < b ==> !is_white_space(s[a]) && !is_white_space(s[b - 1])
            },
{
    lemma_trim_start_shape(s);
    let k = choose|k: int|
        0 <= k <= s.len() && trim_start(s) == s.subrange(k, s.len() as int) && (forall|i: int|
            0 <= i < k ==> is_white_space(#[trigger] s[i])) && (k < s.len() ==> !is_white_space(s[k]));
    let t = s.subrange(k, s.len() as int);
    lemma_trim_end_shape(t);
    let m = choose|m: int|
        0 <= m <= t.len() && trim_end(t) == t.subrange(0, m) && (forall|i: int|
            m <= i < t.len() ==> is_white_space(#[trigger] t[i])) && (m > 0 ==> !is_white_space(
            t[m - 1],
        ));
    assert(t.subrange(0, m) =~= s.subrange(k, k + m));
    assert forall|i: int| k + m <= i < s.len() implies is_white_space(#[trigger] s[i]) by {
        assert(s[i] == t[i - k]);
    }
    assert(k < k + m ==> s[k] == t[0] && s[k + m - 1] == t[m - 1]);
    assert({
        &&& 0 <= k <= k + m <= s.len()
        &&& trimmed(s) == s.subrange(k, k + m)
        &&& forall|i: int| 0 <= i < k ==> is_white_space(#[trigger] s[i])
        &&& forall|i: int| k + m <= i < s.len() ==> is_white_space(#[trigger] s[i])
        &&& k < k + m ==> !is_white_space(s[k]) && !is_white_space(s[k + m - 1])
    });
}

/// A character outside `0`-`9`.
pub open spec fn not_a_digit(c: char) -> bool {
    (c as u32) < 48 || (c as u32) > 57
}

/// Reading a `u32` accepts its decimal text, with or without a leading
/// `+`, and rejects empty text, a leading `-`, and any other character that
/// is not a digit.
pub proof fn parse_u32_reads_decimal(s: Seq<char>, n: u32)
    ensures
        parsed_u32(decimal_text(n as nat)) == Some(n),
        parsed_u32(seq!['+'] + decimal_text(n as nat)) == Some(n),
        s.len() == 0 ==> parsed_u32(s) is None,
        s.len() > 0 && s[0] == '-' ==> parsed_u32(s) is None,
        s.len() > 0 && s[0] != '+' && not_a_digit(s[0]) ==> parsed_u32(s) is None,
        (exists|i: int| 1 <= i < s.len() && not_a_digit(#[trigger] s[i])) ==> parsed_u32(s) is None,
{
    lemma_decimal_text_digits(n as nat);
    let t = decimal_text(n as nat);
    assert((seq!['+'] + t).drop_first() =~= t);
    if exists|i: int| 1 <= i < s.len() && not_a_digit(#[trigger] s[i]) {
        let i = choose|i: int| 1 <= i < s.len() && not_a_digit(#[trigger] s[i]);
        let d = unsigned_digits(s);
        if s[0] == '+' {
            assert(d[i - 1] == s[i]);
            assert(!is_digit(d[i - 1]));
        } else {
            assert(d[i] == s[i]);
            assert(!is_digit(d[i]));
        }
    }
    if s.len() > 0 && s[0] != '+' && not_a_digit(s[0]) {
        assert(!is_digit(unsigned_digits(s)[0]));
    }
    if s.len() > 0 && s[0] == '-' {
        assert(!is_digit(unsigned_digits(s)[0]));
    }
}

} // verus!
