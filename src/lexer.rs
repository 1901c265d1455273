//! Lexical rules of the debugger's command line: whitespace-separated words and
//! decimal numbers.

use vstd::prelude::*;
use vstd::string::*;

verus! {

/// The characters that Unicode's White_Space property holds, as `char::is_whitespace` has them.
pub open spec fn is_ws(c: char) -> bool {
    ||| c == '\t' || c == '\n' || c == '\u{0B}' || c == '\u{0C}' || c == '\r' || c == ' '
    ||| c == '\u{85}' || c == '\u{A0}' || c == '\u{1680}'
    ||| ('\u{2000}' <= c && c <= '\u{200A}')
    ||| c == '\u{2028}' || c == '\u{2029}' || c == '\u{202F}' || c == '\u{205F}' || c == '\u{3000}'
}

/// Whether `c` is whitespace.
pub fn is_whitespace(c: char) -> (r: bool)
    ensures
        r == is_ws(c),
{
    c == '\t' || c == '\n' || c == '\u{0B}' || c == '\u{0C}' || c == '\r' || c == ' ' || c
        == '\u{85}' || c == '\u{A0}' || c == '\u{1680}' || ('\u{2000}' <= c && c <= '\u{200A}')
        || c == '\u{2028}' || c == '\u{2029}' || c == '\u{202F}' || c == '\u{205F}' || c
        == '\u{3000}'
}

/// The length of the run of non-whitespace characters that starts `s`.
pub open spec fn word_len(s: Seq<char>) -> nat
    decreases s.len(),
{
    if s.len() == 0 || is_ws(s[0]) {
        0
    } else {
        1 + word_len(s.drop_first())
    }
}

pub proof fn lemma_word_len_bound(s: Seq<char>)
    ensures
        word_len(s) <= s.len(),
    decreases s.len(),
{
    if s.len() > 0 && !is_ws(s[0]) {
        lemma_word_len_bound(s.drop_first());
    }
}

/// The words of `s`: its maximal runs of non-whitespace characters, in order.
pub open spec fn words(s: Seq<char>) -> Seq<Seq<char>>
    decreases s.len(),
    via words_decreases
{
    if s.len() == 0 {
        Seq::empty()
    } else if is_ws(s[0]) {
        words(s.drop_first())
    } else {
        let n = word_len(s);
        seq![s.take(n as int)] + words(s.skip(n as int))
    }
}

#[via_fn]
proof fn words_decreases(s: Seq<char>) {
    if s.len() > 0 && !is_ws(s[0]) {
        lemma_word_len_bound(s);
    }
}

/// A run of non-whitespace characters `s[i..j]` that whitespace or the end follows
/// is `word_len` long.
pub proof fn lemma_word_len_run(s: Seq<char>, i: int, j: int)
    requires
        0 <= i <= j <= s.len(),
        forall|k: int| i <= k < j ==> !is_ws(#[trigger] s[k]),
        j == s.len() || is_ws(s[j]),
    ensures
        word_len(s.skip(i)) == j - i,
    decreases j - i,
{
    if i < j {
        assert(s.skip(i).drop_first() =~= s.skip(i + 1));
        lemma_word_len_run(s, i + 1, j);
    } else {
        assert(s.skip(i).len() == 0 || is_ws(s.skip(i)[0]));
    }
}

/// The words of `s`, each as a `String`.
pub fn split_words(s: &str) -> (r: Vec<String>)
    ensures
        r@.map_values(|w: String| w@) == words(s@),
{
    let n = s.unicode_len();
    let mut out: Vec<String> = Vec::new();
    let mut i: usize = 0;
    proof {
        assert(s@.skip(0) =~= s@);
    }
    while i < n
        invariant
            n == s@.len(),
            i <= n,
            out@.map_values(|w: String| w@) + words(s@.skip(i as int)) == words(s@),
        decreases n - i,
    {
        let c = s.get_char(i);
        if is_whitespace(c) {
            proof {
                assert(s@.skip(i as int).drop_first() =~= s@.skip(i + 1));
            }
            i = i + 1;
        } else {
            let mut j: usize = i + 1;
            while j < n && !is_whitespace(s.get_char(j))
                invariant
                    n == s@.len(),
                    i < j <= n,
                    forall|k: int| i <= k < j ==> !is_ws(#[trigger] s@[k]),
                decreases n - j,
            {
                j = j + 1;
            }
            let w = String::from_str(s.substring_char(i, j));
            proof {
                lemma_word_len_run(s@, i as int, j as int);
                let t = s@.skip(i as int);
                assert(t.take((j - i) as int) =~= s@.subrange(i as int, j as int));
                assert(t.skip((j - i) as int) =~= s@.skip(j as int));
                assert(out@.push(w).map_values(|w: String| w@) =~= out@.map_values(
                    |w: String| w@,
                ).push(w@));
            }
            out.push(w);
            i = j;
        }
    }
    proof {
        assert(s@.skip(i as int) =~= Seq::<char>::empty());
        assert(words(s@.skip(i as int)) =~= Seq::<Seq<char>>::empty());
        assert(out@.map_values(|w: String| w@) + Seq::<Seq<char>>::empty() =~= out@.map_values(
            |w: String| w@,
        ));
    }
    out
}

/// The length of the run of characters other than `\n` that starts `s`.
pub open spec fn line_len(s: Seq<char>) -> nat
    decreases s.len(),
{
    if s.len() == 0 || s[0] == '\n' {
        0
    } else {
        1 + line_len(s.drop_first())
    }
}

pub proof fn lemma_line_len_bound(s: Seq<char>)
    ensures
        line_len(s) <= s.len(),
    decreases s.len(),
{
    if s.len() > 0 && s[0] != '\n' {
        lemma_line_len_bound(s.drop_first());
    }
}

/// A line as `str::lines` gives it: a `\r` before the `\n` that ends it is dropped.
pub open spec fn trim_line(raw: Seq<char>, ended: bool) -> Seq<char> {
    if ended && raw.len() > 0 && raw.last() == '\r' {
        raw.drop_last()
    } else {
        raw
    }
}

/// The non-empty lines of `s`, as `str::lines` splits them.
pub open spec fn text_lines(s: Seq<char>) -> Seq<Seq<char>>
    decreases s.len(),
    via text_lines_decreases
{
    if s.len() == 0 {
        Seq::empty()
    } else if s[0] == '\n' {
        text_lines(s.drop_first())
    } else {
        let n = line_len(s);
        let l = trim_line(s.take(n as int), n < s.len());
        (if l.len() > 0 {
            seq![l]
        } else {
            Seq::empty()
        }) + text_lines(s.skip(n as int))
    }
}

#[via_fn]
proof fn text_lines_decreases(s: Seq<char>) {
    if s.len() > 0 && s[0] != '\n' {
        lemma_line_len_bound(s);
    }
}

proof fn lemma_line_len_run(s: Seq<char>, i: int, j: int)
    requires
        0 <= i <= j <= s.len(),
        forall|k: int| i <= k < j ==> #[trigger] s[k] != '\n',
        j == s.len() || s[j] == '\n',
    ensures
        line_len(s.skip(i)) == j - i,
    decreases j - i,
{
    if i < j {
        assert(s.skip(i).drop_first() =~= s.skip(i + 1));
        lemma_line_len_run(s, i + 1, j);
    } else {
        assert(s.skip(i).len() == 0 || s.skip(i)[0] == '\n');
    }
}

/// The non-empty lines of `s`, each as a `String`.
pub fn split_lines(s: &str) -> (r: Vec<String>)
    ensures
        r@.map_values(|w: String| w@) == text_lines(s@),
{
    let n = s.unicode_len();
    let mut out: Vec<String> = Vec::new();
    let mut i: usize = 0;
    proof {
        assert(s@.skip(0) =~= s@);
    }
    while i < n
        invariant
            n == s@.len(),
            i <= n,
            out@.map_values(|w: String| w@) + text_lines(s@.skip(i as int)) == text_lines(s@),
        decreases n - i,
    {
        if s.get_char(i) == '\n' {
            proof {
                assert(s@.skip(i as int).drop_first() =~= s@.skip(i + 1));
            }
            i = i + 1;
        } else {
            let mut j: usize = i + 1;
            while j < n && s.get_char(j) != '\n'
                invariant
                    n == s@.len(),
                    i < j <= n,
                    forall|k: int| i <= k < j ==> #[trigger] s@[k] != '\n',
                decreases n - j,
            {
                j = j + 1;
            }
            let end: usize = if j < n && s.get_char(j - 1) == '\r' {
                j - 1
            } else {
                j
            };
            proof {
                lemma_line_len_run(s@, i as int, j as int);
                let t = s@.skip(i as int);
                assert(t.take((j - i) as int) =~= s@.subrange(i as int, j as int));
                assert(t.skip((j - i) as int) =~= s@.skip(j as int));
                assert(trim_line(s@.subrange(i as int, j as int), j < n) =~= s@.subrange(
                    i as int,
                    end as int,
                ));
            }
            if end > i {
                let w = String::from_str(s.substring_char(i, end));
                proof {
                    assert(out@.push(w).map_values(|w: String| w@) =~= out@.map_values(
                        |w: String| w@,
                    ).push(w@));
                    assert(out@.map_values(|w: String| w@).push(w@) =~= out@.map_values(
                        |w: String| w@,
                    ) + seq![w@]);
                }
                out.push(w);
            } else {
                proof {
                    assert(out@.map_values(|w: String| w@) + Seq::<Seq<char>>::empty() =~= out@.map_values(
                        |w: String| w@,
                    ));
                }
            }
            i = j;
        }
    }
    proof {
        assert(s@.skip(i as int) =~= Seq::<char>::empty());
        assert(text_lines(s@.skip(i as int)) =~= Seq::<Seq<char>>::empty());
        assert(out@.map_values(|w: String| w@) + Seq::<Seq<char>>::empty() =~= out@.map_values(
            |w: String| w@,
        ));
    }
    out
}

/// Whether two strings hold the same characters.
pub fn same_text(a: &str, b: &str) -> (r: bool)
    ensures
        r == (a@ == b@),
{
    let n = a.unicode_len();
    let m = b.unicode_len();
    if n != m {
        return false;
    }
    let mut i: usize = 0;
    while i < n
        invariant
            n == a@.len(),
            n == b@.len(),
            i <= n,
            forall|k: int| 0 <= k < i ==> a@[k] == b@[k],
        decreases n - i,
    {
        if a.get_char(i) != b.get_char(i) {
            return false;
        }
        i = i + 1;
    }
    proof {
        assert(a@ =~= b@);
    }
    true
}

/// Whether `c` is an ASCII decimal digit.
pub open spec fn is_digit(c: char) -> bool {
    '0' <= c && c <= '9'
}

/// The value of a decimal digit.
pub open spec fn digit_value(c: char) -> nat {
    (c as int - '0' as int) as nat
}

/// The value of a string of decimal digits, most significant first.
pub open spec fn decimal_value(s: Seq<char>) -> nat
    decreases s.len(),
{
    if s.len() == 0 {
        0
    } else {
        decimal_value(s.drop_last()) * 10 + digit_value(s.last())
    }
}

/// A non-empty string of decimal digits.
pub open spec fn is_digits(s: Seq<char>) -> bool {
    s.len() > 0 && forall|i: int| 0 <= i < s.len() ==> is_digit(#[trigger] s[i])
}

/// The digits of an unsigned number's text: what follows an optional leading `+`.
pub open spec fn unsigned_digits(s: Seq<char>) -> Seq<char> {
    if s.len() > 0 && s[0] == '+' {
        s.drop_first()
    } else {
        s
    }
}

/// The `u64` that the text `s` spells, as `u64::from_str` reads it: an optional
/// `+`, then decimal digits whose value fits in 64 bits.
pub open spec fn u64_of(s: Seq<char>) -> Option<u64> {
    let d = unsigned_digits(s);
    if is_digits(d) && decimal_value(d) <= u64::MAX {
        Some(decimal_value(d) as u64)
    } else {
        None
    }
}

/// The `i32` that the text `s` spells, as `i32::from_str` reads it: an optional
/// `+` or `-`, then decimal digits whose signed value fits in 32 bits.
pub open spec fn i32_of(s: Seq<char>) -> Option<i32> {
    if s.len() > 0 && s[0] == '-' {
        let d = s.drop_first();
        if is_digits(d) && decimal_value(d) <= 0x8000_0000 {
            Some((0 - decimal_value(d)) as i32)
        } else {
            None
        }
    } else {
        let d = unsigned_digits(s);
        if is_digits(d) && decimal_value(d) <= i32::MAX {
            Some(decimal_value(d) as i32)
        } else {
            None
        }
    }
}

/// The value of the digits `s[from..]`, or None when one is not a digit or the
/// value exceeds `limit`.
fn digits_value(s: &str, from: usize, limit: u64) -> (r: Option<u64>)
    requires
        from <= s@.len(),
        limit >= 9,
    ensures
        r is Some <==> (is_digits(s@.skip(from as int)) && decimal_value(s@.skip(from as int))
            <= limit),
        r matches Some(v) ==> v as nat == decimal_value(s@.skip(from as int)),
{
    let n = s.unicode_len();
    if from == n {
        return None;
    }
    let mut v: u64 = 0;
    let mut i: usize = from;
    while i < n
        invariant
            n == s@.len(),
            from < n,
            limit >= 9,
            from <= i <= n,
            forall|k: int| from <= k < i ==> is_digit(#[trigger] s@[k]),
            v as nat == decimal_value(s@.subrange(from as int, i as int)),
            v <= limit,
        decreases n - i,
    {
        let c = s.get_char(i);
        if !('0' <= c && c <= '9') {
            proof {
                assert(!is_digit(s@.skip(from as int)[i - from]));
            }
            return None;
        }
        let d = (c as u32 - '0' as u32) as u64;
        proof {
            let t = s@.subrange(from as int, i + 1);
            assert(t.drop_last() =~= s@.subrange(from as int, i as int));
        }
        if v > (limit - d) / 10 {
            proof {
                assert(v * 10 + d > limit) by (nonlinear_arith)
                    requires
                        v > (limit - d) / 10,
                        d <= 9,
                        d <= limit,
                ;
                let rest = s@.skip(from as int);
                assert(rest.take(i - from + 1) =~= s@.subrange(from as int, i + 1));
                if is_digits(rest) {
                    lemma_decimal_prefix_grows(rest, i - from + 1);
                }
            }
            return None;
        }
        proof {
            assert(v * 10 + d <= limit) by (nonlinear_arith)
                requires
                    v <= (limit - d) / 10,
                    d <= 9,
            ;
        }
        v = v * 10 + d;
        i = i + 1;
    }
    proof {
        assert(s@.subrange(from as int, n as int) =~= s@.skip(from as int));
    }
    Some(v)
}

/// A longer prefix of digits never has a smaller value.
proof fn lemma_decimal_prefix_grows(s: Seq<char>, k: int)
    requires
        0 <= k <= s.len(),
        forall|i: int| 0 <= i < s.len() ==> is_digit(#[trigger] s[i]),
    ensures
        decimal_value(s.take(k)) <= decimal_value(s),
    decreases s.len() - k,
{
    if k < s.len() {
        lemma_decimal_prefix_grows(s, k + 1);
        let t = s.take(k + 1);
        assert(t.drop_last() =~= s.take(k));
    } else {
        assert(s.take(k) =~= s);
    }
}

/// Reads an unsigned 64-bit decimal number.
pub fn parse_u64(s: &str) -> (r: Option<u64>)
    ensures
        r == u64_of(s@),
{
    let n = s.unicode_len();
    let from: usize = if n > 0 && s.get_char(0) == '+' {
        1
    } else {
        0
    };
    proof {
        assert(unsigned_digits(s@) =~= s@.skip(from as int));
    }
    match digits_value(s, from, u64::MAX) {
        Some(v) => Some(v),
        None => None,
    }
}

/// Reads a signed 32-bit decimal number.
pub fn parse_i32(s: &str) -> (r: Option<i32>)
    ensures
        r == i32_of(s@),
{
    let n = s.unicode_len();
    if n > 0 && s.get_char(0) == '-' {
        proof {
            assert(s@.drop_first() =~= s@.skip(1));
        }
        match digits_value(s, 1, 0x8000_0000) {
            Some(v) => Some((0 - (v as i64)) as i32),
            None => None,
        }
    } else {
        let from: usize = if n > 0 && s.get_char(0) == '+' {
            1
        } else {
            0
        };
        proof {
            assert(unsigned_digits(s@) =~= s@.skip(from as int));
        }
        match digits_value(s, from, 0x7fff_ffff) {
            Some(v) => Some(v as i32),
            None => None,
        }
    }
}

} // verus!
