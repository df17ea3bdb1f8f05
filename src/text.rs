use vstd::prelude::*;

use crate::pin::is_digit;

verus! {

/// Unicode white space, as `char::is_whitespace` documents it: the
/// `White_Space` property, 25 code points.
pub open spec fn is_white(c: char) -> bool {
    ('\u{9}' <= c && c <= '\u{d}') || c == ' ' || c == '\u{85}' || c == '\u{a0}' || c == '\u{1680}'
        || ('\u{2000}' <= c && c <= '\u{200a}') || c == '\u{2028}' || c == '\u{2029}' || c
        == '\u{202f}' || c == '\u{205f}' || c == '\u{3000}'
}

/// `s` without its leading white space.
pub open spec fn trim_start(s: Seq<char>) -> Seq<char>
    decreases s.len(),
{
    if s.len() > 0 && is_white(s[0]) {
        trim_start(s.drop_first())
    } else {
        s
    }
}

/// `s` without its trailing white space.
pub open spec fn trim_end(s: Seq<char>) -> Seq<char>
    decreases s.len(),
{
    if s.len() > 0 && is_white(s.last()) {
        trim_end(s.drop_last())
    } else {
        s
    }
}

/// `s` without its leading and trailing white space.
pub open spec fn trim_of(s: Seq<char>) -> Seq<char> {
    trim_end(trim_start(s))
}

/// Whether `c` is white space.
pub fn is_white_char(c: char) -> (r: bool)
    ensures
        r == is_white(c),
{
    ('\u{9}' <= c && c <= '\u{d}') || c == ' ' || c == '\u{85}' || c == '\u{a0}' || c == '\u{1680}'
        || ('\u{2000}' <= c && c <= '\u{200a}') || c == '\u{2028}' || c == '\u{2029}' || c
        == '\u{202f}' || c == '\u{205f}' || c == '\u{3000}'
}

fn leading_white_end(s: &str, n: usize) -> (i: usize)
    requires
        n == s@.len(),
    ensures
        i <= n,
        trim_start(s@) == s@.subrange(i as int, n as int),
{
    let mut i: usize = 0;
    proof {
        assert(s@.subrange(0, n as int) =~= s@);
    }
    while i < n
        invariant
            n == s@.len(),
            i <= n,
            trim_start(s@) == trim_start(s@.subrange(i as int, n as int)),
        decreases n - i,
    {
        if !is_white_char(s.get_char(i)) {
            proof {
                assert(s@.subrange(i as int, n as int)[0] == s@[i as int]);
            }
            return i;
        }
        proof {
            assert(s@.subrange(i as int, n as int).drop_first() =~= s@.subrange(i + 1, n as int));
        }
        i = i + 1;
    }
    i
}

fn trailing_white_start(s: &str, i: usize, n: usize) -> (j: usize)
    requires
        n == s@.len(),
        i <= n,
    ensures
        i <= j <= n,
        trim_end(s@.subrange(i as int, n as int)) == s@.subrange(i as int, j as int),
{
    let mut j: usize = n;
    while j > i
        invariant
            n == s@.len(),
            i <= j <= n,
            trim_end(s@.subrange(i as int, n as int)) == trim_end(s@.subrange(i as int, j as int)),
        decreases j - i,
    {
        if !is_white_char(s.get_char(j - 1)) {
            proof {
                assert(s@.subrange(i as int, j as int).last() == s@[j - 1]);
            }
            return j;
        }
        proof {
            assert(s@.subrange(i as int, j as int).drop_last() =~= s@.subrange(i as int, j - 1));
        }
        j = j - 1;
    }
    j
}

/// `s` with leading and trailing white space removed, as `str::trim` does.
pub fn trim(s: &str) -> (r: String)
    ensures
        r@ == trim_of(s@),
{
    let n = s.unicode_len();
    let i = leading_white_end(s, n);
    let j = trailing_white_start(s, i, n);
    s.substring_char(i, j).to_string()
}

/// The decimal digits of `n`.
pub open spec fn decimal(n: nat) -> Seq<char>
    decreases n,
{
    if n < 10 {
        "0123456789"@.subrange(n as int, n + 1int)
    } else {
        decimal(n / 10) + "0123456789"@.subrange((n % 10) as int, (n % 10) as int + 1)
    }
}

/// `n` written in decimal.
pub fn decimal_text(n: u16) -> (r: String)
    ensures
        r@ == decimal(n as nat),
    decreases n,
{
    proof {
        reveal_strlit("0123456789");
    }
    let digits = "0123456789";
    if n < 10 {
        digits.substring_char(n as usize, n as usize + 1).to_string()
    } else {
        let mut r = decimal_text(n / 10);
        let k = (n % 10) as usize;
        r.append(digits.substring_char(k, k + 1));
        r
    }
}

/// The code of `c` after ASCII lower-casing; every other character keeps
/// its code.
pub open spec fn lower_code(c: char) -> u32 {
    if 'A' <= c && c <= 'Z' {
        ((c as u32) + 32) as u32
    } else {
        c as u32
    }
}

/// ASCII lower-casing of a whole text, as character codes.
pub open spec fn lower_seq(s: Seq<char>) -> Seq<u32> {
    s.map_values(|c: char| lower_code(c))
}

/// Two texts that differ at most in the case of ASCII letters.
pub open spec fn same_ignoring_ascii_case(a: Seq<char>, b: Seq<char>) -> bool {
    lower_seq(a) == lower_seq(b)
}

fn lower_char_code(c: char) -> (r: u32)
    ensures
        r == lower_code(c),
{
    if 'A' <= c && c <= 'Z' {
        (c as u32) + 32
    } else {
        c as u32
    }
}

/// Whether `a` and `b` are equal once ASCII letters are lower-cased.
pub fn eq_ignore_ascii_case(a: &str, b: &str) -> (r: bool)
    ensures
        r == same_ignoring_ascii_case(a@, b@),
{
    let n = a.unicode_len();
    let m = b.unicode_len();
    if n != m {
        proof {
            assert(lower_seq(a@).len() != lower_seq(b@).len());
        }
        return false;
    }
    let mut i: usize = 0;
    while i < n
        invariant
            n == a@.len(),
            n == b@.len(),
            i <= n,
            forall|j: int| 0 <= j < i ==> lower_code(#[trigger] a@[j]) == lower_code(b@[j]),
        decreases n - i,
    {
        let x = lower_char_code(a.get_char(i));
        let y = lower_char_code(b.get_char(i));
        if x != y {
            proof {
                assert(lower_seq(a@)[i as int] != lower_seq(b@)[i as int]);
            }
            return false;
        }
        i = i + 1;
    }
    proof {
        assert(lower_seq(a@) =~= lower_seq(b@));
    }
    true
}

} // verus!

verus! {

/// `t` occurs in `s` starting at position `i`.
pub open spec fn occurs_at(s: Seq<char>, t: Seq<char>, i: int) -> bool {
    0 <= i && i + t.len() <= s.len() && s.subrange(i, i + t.len()) == t
}

/// `t` occurs somewhere in `s`.
pub open spec fn seq_contains(s: Seq<char>, t: Seq<char>) -> bool {
    exists|i: int| occurs_at(s, t, i)
}

fn occurs_here(s: &str, t: &str, i: usize, n: usize, m: usize) -> (r: bool)
    requires
        n == s@.len(),
        m == t@.len(),
        i + m <= n,
    ensures
        r == occurs_at(s@, t@, i as int),
{
    let mut k: usize = 0;
    while k < m
        invariant
            n == s@.len(),
            m == t@.len(),
            i + m <= n,
            k <= m,
            forall|j: int| 0 <= j < k ==> s@[i + j] == #[trigger] t@[j],
        decreases m - k,
    {
        if s.get_char(i + k) != t.get_char(k) {
            proof {
                assert(s@.subrange(i as int, i + m)[k as int] != t@[k as int]);
            }
            return false;
        }
        k = k + 1;
    }
    proof {
        assert(s@.subrange(i as int, i + m) =~= t@);
    }
    true
}

/// Whether `t` occurs in `s`.
pub fn contains(s: &str, t: &str) -> (r: bool)
    ensures
        r == seq_contains(s@, t@),
{
    let n = s.unicode_len();
    let m = t.unicode_len();
    if m > n {
        return false;
    }
    let mut i: usize = 0;
    while i <= n - m
        invariant
            n == s@.len(),
            m == t@.len(),
            m <= n,
            forall|j: int| 0 <= j < i ==> !#[trigger] occurs_at(s@, t@, j),
        decreases n - m - i,
    {
        if occurs_here(s, t, i, n, m) {
            return true;
        }
        if i == n - m {
            proof {
                assert forall|j: int| !#[trigger] occurs_at(s@, t@, j) by {
                    if 0 <= j < i {
                    }
                }
            }
            return false;
        }
        i = i + 1;
    }
    false
}

} // verus!

verus! {

/// Whether `a` and `b` hold the same characters.
pub fn same_text(a: &str, b: &str) -> (r: bool)
    ensures
        r == (a@ == b@),
{
    let n = a.unicode_len();
    if n != b.unicode_len() {
        return false;
    }
    let mut i: usize = 0;
    while i < n
        invariant
            n == a@.len(),
            n == b@.len(),
            i <= n,
            forall|j: int| 0 <= j < i ==> #[trigger] a@[j] == b@[j],
        decreases n - i,
    {
        if a.get_char(i) != b.get_char(i) {
            return false;
        }
        i = i + 1;
    }
    proof {
        assert(a@ =~= b@);
    }
    true
}

} // verus!

verus! {

/// Whether `s` begins with `prefix`.
pub fn starts_with(s: &str, prefix: &str) -> (r: bool)
    ensures
        r == (prefix@.len() <= s@.len() && s@.subrange(0, prefix@.len() as int) == prefix@),
{
    let n = s.unicode_len();
    let m = prefix.unicode_len();
    if m > n {
        return false;
    }
    let head = s.substring_char(0, m);
    same_text(head, prefix)
}

} // verus!

verus! {

/// The views of a list of texts.
pub open spec fn views(v: Seq<String>) -> Seq<Seq<char>> {
    v.map_values(|s: String| s@)
}

/// A word in progress, as a list of zero or one word.
pub open spec fn flush(cur: Seq<char>) -> Seq<Seq<char>> {
    if cur.len() > 0 {
        seq![cur]
    } else {
        Seq::empty()
    }
}

/// The words of `s`, after a word in progress `cur`.
pub open spec fn words_from(s: Seq<char>, cur: Seq<char>) -> Seq<Seq<char>>
    decreases s.len(),
{
    if s.len() == 0 {
        flush(cur)
    } else if is_white(s[0]) {
        flush(cur) + words_from(s.drop_first(), Seq::empty())
    } else {
        words_from(s.drop_first(), cur.push(s[0]))
    }
}

/// The words of `s`: its maximal runs of characters that are not white
/// space, in order, as `str::split_whitespace` gives them.
pub open spec fn words_of(s: Seq<char>) -> Seq<Seq<char>> {
    words_from(s, Seq::empty())
}

/// The words of `s`.
pub fn words(s: &str) -> (r: Vec<String>)
    ensures
        views(r@) == words_of(s@),
{
    let n = s.unicode_len();
    let mut out: Vec<String> = Vec::new();
    let mut start: usize = 0;
    let mut i: usize = 0;
    proof {
        assert(s@.subrange(0, n as int) =~= s@);
        assert(s@.subrange(0, 0) =~= Seq::<char>::empty());
        assert(views(out@) =~= Seq::<Seq<char>>::empty());
        assert(views(out@) + words_of(s@) =~= words_of(s@));
    }
    while i < n
        invariant
            n == s@.len(),
            start <= i <= n,
            views(out@) + words_from(s@.subrange(i as int, n as int), s@.subrange(
                start as int,
                i as int,
            )) == words_of(s@),
        decreases n - i,
    {
        let ghost rest = s@.subrange(i as int, n as int);
        let ghost cur = s@.subrange(start as int, i as int);
        proof {
            assert(rest[0] == s@[i as int]);
            assert(rest.drop_first() =~= s@.subrange(i + 1, n as int));
        }
        let c = s.get_char(i);
        if is_white_char(c) {
            let ghost before = views(out@);
            if start < i {
                let w = s.substring_char(start, i).to_string();
                out.push(w);
                proof {
                    assert(views(out@) =~= before + seq![cur]);
                }
            } else {
                proof {
                    assert(cur =~= Seq::<char>::empty());
                    assert(views(out@) =~= before + flush(cur));
                }
            }
            proof {
                assert(views(out@) =~= before + flush(cur));
                assert(s@.subrange(i + 1, i + 1) =~= Seq::<char>::empty());
                assert(before + (flush(cur) + words_from(rest.drop_first(), Seq::empty())) =~= (
                before + flush(cur)) + words_from(rest.drop_first(), Seq::empty()));
            }
            start = i + 1;
        } else {
            proof {
                assert(cur.push(s@[i as int]) =~= s@.subrange(start as int, i + 1));
            }
        }
        i = i + 1;
    }
    proof {
        assert(s@.subrange(n as int, n as int) =~= Seq::<char>::empty());
    }
    if start < n {
        let ghost before = views(out@);
        let w = s.substring_char(start, n).to_string();
        out.push(w);
        proof {
            assert(views(out@) =~= before + seq![s@.subrange(start as int, n as int)]);
        }
    } else {
        proof {
            assert(views(out@) + Seq::<Seq<char>>::empty() =~= views(out@));
        }
    }
    out
}

} // verus!

verus! {

/// The value of a decimal digit.
pub open spec fn digit_value(c: char) -> int {
    (c as int) - ('0' as int)
}

/// Every character of `s` is a decimal digit.
pub open spec fn all_digits(s: Seq<char>) -> bool {
    forall|i: int| 0 <= i < s.len() ==> is_digit(#[trigger] s[i])
}

/// Reads the digits of a number's integer part after `acc` was read: the
/// text may end there, or go on with `.` and at least one more digit.
pub open spec fn scan_int(s: Seq<char>, acc: int) -> Option<int>
    decreases s.len(),
{
    if s.len() == 0 {
        Some(acc)
    } else if is_digit(s[0]) {
        scan_int(s.drop_first(), acc * 10 + digit_value(s[0]))
    } else if s[0] == '.' && s.len() > 1 && all_digits(s.drop_first()) {
        Some(acc)
    } else {
        None
    }
}

/// The integer part of a decimal number written as `[-]digits[.digits]`.
pub open spec fn number_int(t: Seq<char>) -> Option<int> {
    let u = if t.len() > 0 && t[0] == '-' {
        t.drop_first()
    } else {
        t
    };
    let v = if u.len() > 0 && is_digit(u[0]) {
        scan_int(u, 0)
    } else {
        None
    };
    match v {
        Some(x) => Some(
            if t.len() > 0 && t[0] == '-' {
                -x
            } else {
                x
            },
        ),
        None => None,
    }
}

/// The integer part of a number text, when it fits `i64` (from
/// `-i64::MAX` to `i64::MAX`).
pub open spec fn number_i64(t: Seq<char>) -> Option<i64> {
    match number_int(t) {
        Some(v) => if -(i64::MAX as int) <= v <= i64::MAX as int {
            Some(v as i64)
        } else {
            None
        },
        None => None,
    }
}

proof fn lemma_scan_grows(s: Seq<char>, acc: int)
    requires
        acc >= 0,
    ensures
        scan_int(s, acc) matches Some(v) ==> v >= acc,
    decreases s.len(),
{
    if s.len() > 0 && is_digit(s[0]) {
        assert(acc * 10 + digit_value(s[0]) >= acc) by (nonlinear_arith)
            requires
                acc >= 0,
                digit_value(s[0]) >= 0,
        ;
        lemma_scan_grows(s.drop_first(), acc * 10 + digit_value(s[0]));
    }
}

fn digits_from(t: &str, k: usize, n: usize) -> (r: bool)
    requires
        n == t@.len(),
        k <= n,
    ensures
        r == all_digits(t@.subrange(k as int, n as int)),
{
    let mut j: usize = k;
    while j < n
        invariant
            n == t@.len(),
            k <= j <= n,
            forall|i: int| k <= i < j ==> is_digit(#[trigger] t@[i]),
        decreases n - j,
    {
        let c = t.get_char(j);
        if !('0' <= c && c <= '9') {
            proof {
                assert(t@.subrange(k as int, n as int)[j - k] == t@[j as int]);
            }
            return false;
        }
        j = j + 1;
    }
    proof {
        assert forall|i: int| 0 <= i < t@.subrange(k as int, n as int).len() implies is_digit(
            #[trigger] t@.subrange(k as int, n as int)[i],
        ) by {
            assert(t@.subrange(k as int, n as int)[i] == t@[k + i]);
        }
    }
    true
}

/// The integer part of a number text such as `25000`, `25000.0` or
/// `-3.5`, when it fits `i64`.
pub fn integer_part(t: &str) -> (r: Option<i64>)
    ensures
        r == number_i64(t@),
{
    let n = t.unicode_len();
    let neg = n > 0 && t.get_char(0) == '-';
    let i: usize = if neg {
        1
    } else {
        0
    };
    proof {
        if neg {
            assert(t@.drop_first() =~= t@.subrange(1, n as int));
        } else {
            assert(t@ =~= t@.subrange(0, n as int));
        }
    }
    if i >= n {
        return None;
    }
    let c0 = t.get_char(i);
    if !('0' <= c0 && c0 <= '9') {
        proof {
            assert(t@.subrange(i as int, n as int)[0] == t@[i as int]);
        }
        return None;
    }
    proof {
        assert(t@.subrange(i as int, n as int)[0] == t@[i as int]);
        assert(number_int(t@) == match scan_int(t@.subrange(i as int, n as int), 0) {
            Some(x) => Some(
                if neg {
                    -x
                } else {
                    x
                },
            ),
            None => None::<int>,
        });
    }
    let mut acc: i64 = 0;
    let mut j: usize = i;
    while j < n
        invariant
            n == t@.len(),
            i <= j <= n,
            0 <= acc,
            number_int(t@) == match scan_int(t@.subrange(i as int, n as int), 0) {
                Some(x) => Some(
                    if neg {
                        -x
                    } else {
                        x
                    },
                ),
                None => None::<int>,
            },
            scan_int(t@.subrange(i as int, n as int), 0) == scan_int(
                t@.subrange(j as int, n as int),
                acc as int,
            ),
        decreases n - j,
    {
        let c = t.get_char(j);
        proof {
            assert(t@.subrange(j as int, n as int)[0] == t@[j as int]);
            assert(t@.subrange(j as int, n as int).drop_first() =~= t@.subrange(j + 1, n as int));
        }
        if '0' <= c && c <= '9' {
            let d: i64 = ((c as u32) - ('0' as u32)) as i64;
            proof {
                assert(d == digit_value(c));
                assert(is_digit(c));
            }
            if acc > (i64::MAX - d) / 10 {
                proof {
                    assert(acc * 10 + d > i64::MAX) by (nonlinear_arith)
                        requires
                            acc > (i64::MAX - d) / 10,
                            0 <= d <= 9,
                    ;
                    lemma_scan_grows(t@.subrange(j + 1, n as int), acc * 10 + d);
                    assert(scan_int(t@.subrange(j as int, n as int), acc as int) == scan_int(
                        t@.subrange(j + 1, n as int),
                        acc * 10 + d,
                    ));
                }
                return None;
            }
            proof {
                assert(acc * 10 + d <= i64::MAX) by (nonlinear_arith)
                    requires
                        acc <= (i64::MAX - d) / 10,
                        0 <= d <= 9,
                        0 <= acc,
                ;
            }
            acc = acc * 10 + d;
        } else if c == '.' {
            proof {
                assert(!is_digit(c));
            }
            if j + 1 < n && digits_from(t, j + 1, n) {
                proof {
                    assert(scan_int(t@.subrange(j as int, n as int), acc as int) == Some(acc as int));
                }
                return Some(
                    if neg {
                        -acc
                    } else {
                        acc
                    },
                );
            }
            proof {
                assert(scan_int(t@.subrange(j as int, n as int), acc as int) is None);
            }
            return None;
        } else {
            return None;
        }
        j = j + 1;
    }
    proof {
        assert(t@.subrange(n as int, n as int) =~= Seq::<char>::empty());
    }
    Some(
        if neg {
            -acc
        } else {
            acc
        },
    )
}

} // verus!
