//! Text on the level of characters: white space, words, and unsigned numbers in
//! decimal and hexadecimal notation.
use vstd::prelude::*;

verus! {

/// The characters with the Unicode property White_Space.
pub open spec fn white_space(c: char) -> bool {
    ||| '\u{9}' <= c <= '\u{d}'
    ||| c == ' '
    ||| c == '\u{85}'
    ||| c == '\u{a0}'
    ||| c == '\u{1680}'
    ||| '\u{2000}' <= c <= '\u{200a}'
    ||| c == '\u{2028}'
    ||| c == '\u{2029}'
    ||| c == '\u{202f}'
    ||| c == '\u{205f}'
    ||| c == '\u{3000}'
}

/// `s` without its leading white space.
pub open spec fn trim_start_spec(s: Seq<char>) -> Seq<char>
    decreases s.len(),
{
    if s.len() > 0 && white_space(s[0]) {
        trim_start_spec(s.drop_first())
    } else {
        s
    }
}

/// `s` without its trailing white space.
pub open spec fn trim_end_spec(s: Seq<char>) -> Seq<char>
    decreases s.len(),
{
    if s.len() > 0 && white_space(s.last()) {
        trim_end_spec(s.drop_last())
    } else {
        s
    }
}

/// `s` without the white space at both ends.
pub open spec fn trim_spec(s: Seq<char>) -> Seq<char> {
    trim_end_spec(trim_start_spec(s))
}

/// The length of the longest prefix of `s` that holds no white space.
pub open spec fn word_len(s: Seq<char>) -> nat
    decreases s.len(),
{
    if s.len() == 0 || white_space(s[0]) {
        0
    } else {
        1 + word_len(s.drop_first())
    }
}

/// The maximal non-empty runs of characters other than white space, in order.
pub open spec fn words_spec(s: Seq<char>) -> Seq<Seq<char>>
    decreases s.len(),
{
    let t = trim_start_spec(s);
    if t.len() == 0 {
        Seq::empty()
    } else {
        proof {
            lemma_trim_start(s);
            lemma_word_len(t);
        }
        seq![t.take(word_len(t) as int)] + words_spec(t.skip(word_len(t) as int))
    }
}

/// What follows `tag` in `s`, where `s` begins with `tag`.
pub open spec fn strip_prefix_spec(s: Seq<char>, tag: Seq<char>) -> Option<Seq<char>> {
    if tag.is_prefix_of(s) {
        Some(s.skip(tag.len() as int))
    } else {
        None
    }
}

pub open spec fn digit(c: char) -> bool {
    '0' <= c <= '9'
}

pub open spec fn all_digits(s: Seq<char>) -> bool {
    forall|i: int| 0 <= i < s.len() ==> digit(#[trigger] s[i])
}

/// The number that a sequence of decimal digits denotes.
pub open spec fn digits_value(s: Seq<char>) -> nat
    decreases s.len(),
{
    if s.len() == 0 {
        0
    } else {
        digits_value(s.drop_last()) * 10 + (s.last() as nat - '0' as nat) as nat
    }
}

/// The digits of a number that is written with an optional leading `+`.
pub open spec fn unsigned_digits(s: Seq<char>) -> Seq<char> {
    if s.len() > 0 && s[0] == '+' {
        s.drop_first()
    } else {
        s
    }
}

/// The number that `s` denotes: an optional `+`, then one or more decimal digits,
/// with a value that 64 bits hold.
pub open spec fn parse_u64_spec(s: Seq<char>) -> Option<u64> {
    let d = unsigned_digits(s);
    if d.len() > 0 && all_digits(d) && digits_value(d) <= u64::MAX {
        Some(digits_value(d) as u64)
    } else {
        None
    }
}

pub open spec fn digit_char(d: nat) -> char {
    ('0' as nat + d) as char
}

/// `n` in decimal notation, without leading zeros.
pub open spec fn decimal(n: nat) -> Seq<char>
    decreases n,
{
    if n < 10 {
        seq![digit_char(n)]
    } else {
        decimal(n / 10).push(digit_char(n % 10))
    }
}

/// The hexadecimal digit for a value below sixteen, in lower case.
pub open spec fn hex_char(d: nat) -> char {
    if d < 10 {
        digit_char(d)
    } else {
        ('a' as nat + (d - 10)) as char
    }
}

/// `n` in hexadecimal notation, in lower case and without leading zeros.
pub open spec fn hexadecimal(n: nat) -> Seq<char>
    decreases n,
{
    if n < 16 {
        seq![hex_char(n)]
    } else {
        hexadecimal(n / 16).push(hex_char(n % 16))
    }
}

pub proof fn lemma_trim_start(s: Seq<char>)
    ensures
        trim_start_spec(s).len() <= s.len(),
        trim_start_spec(s) == s.skip(s.len() - trim_start_spec(s).len()),
        trim_start_spec(s).len() > 0 ==> !white_space(trim_start_spec(s)[0]),
    decreases s.len(),
{
    if s.len() > 0 && white_space(s[0]) {
        lemma_trim_start(s.drop_first());
        let t = trim_start_spec(s);
        assert(s.drop_first().skip(s.len() - 1 - t.len()) =~= s.skip(s.len() - t.len()));
    } else {
        assert(s.skip(0) =~= s);
    }
}

pub proof fn lemma_word_len(s: Seq<char>)
    ensures
        word_len(s) <= s.len(),
        s.len() > 0 && !white_space(s[0]) ==> word_len(s) > 0,
        forall|i: int| 0 <= i < word_len(s) ==> !white_space(#[trigger] s[i]),
    decreases s.len(),
{
    if s.len() > 0 && !white_space(s[0]) {
        lemma_word_len(s.drop_first());
        assert forall|i: int| 0 <= i < word_len(s) implies !white_space(#[trigger] s[i]) by {
            if i > 0 {
                assert(s[i] == s.drop_first()[i - 1]);
            }
        }
    }
}

/// Scanning on from position `i`, where no word of `s` began before `i`.
pub proof fn lemma_trim_start_skip(s: Seq<char>, i: int)
    requires
        0 <= i <= s.len(),
        forall|k: int| 0 <= k < i ==> white_space(#[trigger] s[k]),
    ensures
        trim_start_spec(s) == trim_start_spec(s.skip(i)),
    decreases i,
{
    if i == 0 {
        assert(s.skip(0) =~= s);
    } else {
        assert(white_space(s[0]));
        assert forall|k: int| 0 <= k < i - 1 implies white_space(#[trigger] s.drop_first()[k]) by {
            assert(s.drop_first()[k] == s[k + 1]);
        }
        lemma_trim_start_skip(s.drop_first(), i - 1);
        assert(s.drop_first().skip(i - 1) =~= s.skip(i));
    }
}

/// Dropping trailing white space down to length `n` leaves the trimmed text unchanged.
pub proof fn lemma_trim_end_take(s: Seq<char>, n: int)
    requires
        0 <= n <= s.len(),
        forall|k: int| n <= k < s.len() ==> white_space(#[trigger] s[k]),
    ensures
        trim_end_spec(s) == trim_end_spec(s.take(n)),
    decreases s.len() - n,
{
    if n == s.len() {
        assert(s.take(n) =~= s);
    } else {
        assert(white_space(s[s.len() - 1]));
        assert forall|k: int| n <= k < s.drop_last().len() implies white_space(
            #[trigger] s.drop_last()[k],
        ) by {
            assert(s.drop_last()[k] == s[k]);
        }
        lemma_trim_end_take(s.drop_last(), n);
        assert(s.drop_last().take(n) =~= s.take(n));
    }
}

/// A run without white space that is as long as possible has length `word_len`.
pub proof fn lemma_word_len_is(s: Seq<char>, n: int)
    requires
        0 <= n <= s.len(),
        forall|k: int| 0 <= k < n ==> !white_space(#[trigger] s[k]),
        n < s.len() ==> white_space(s[n]),
    ensures
        word_len(s) == n,
    decreases n,
{
    if n > 0 {
        assert(!white_space(s[0]));
        assert forall|k: int| 0 <= k < n - 1 implies !white_space(#[trigger] s.drop_first()[k]) by {
            assert(s.drop_first()[k] == s[k + 1]);
        }
        lemma_word_len_is(s.drop_first(), n - 1);
    }
}

/// Tells whether a character is white space.
pub fn is_whitespace(c: char) -> (r: bool)
    ensures
        r == white_space(c),
{
    ('\u{9}' <= c && c <= '\u{d}') || c == ' ' || c == '\u{85}' || c == '\u{a0}' || c == '\u{1680}'
        || ('\u{2000}' <= c && c <= '\u{200a}') || c == '\u{2028}' || c == '\u{2029}'
        || c == '\u{202f}' || c == '\u{205f}' || c == '\u{3000}'
}

/// The characters of a string.
pub fn chars_of(s: &str) -> (r: Vec<char>)
    ensures
        r@ == s@,
{
    let mut r: Vec<char> = Vec::new();
    for c in it: s.chars()
        invariant
            r@ == it.seq().take(it.index() as int),
            it.seq() == s@,
    {
        r.push(c);
    }
    r
}

/// The positions between which `s` stands without the white space at its ends.
pub fn trim_bounds(s: &Vec<char>) -> (r: (usize, usize))
    ensures
        r.0 <= r.1 <= s@.len(),
        s@.subrange(r.0 as int, r.1 as int) == trim_spec(s@),
{
    let mut lo: usize = 0;
    while lo < s.len() && is_whitespace(s[lo])
        invariant
            lo <= s@.len(),
            forall|k: int| 0 <= k < lo ==> white_space(#[trigger] s@[k]),
        decreases s@.len() - lo,
    {
        lo = lo + 1;
    }
    let ghost t = s@.skip(lo as int);
    proof {
        lemma_trim_start_skip(s@, lo as int);
        assert(trim_start_spec(s@) == t);
    }
    let mut hi: usize = s.len();
    while hi > lo && is_whitespace(s[hi - 1])
        invariant
            lo <= hi <= s@.len(),
            forall|k: int| hi <= k < s@.len() ==> white_space(#[trigger] s@[k]),
        decreases hi,
    {
        hi = hi - 1;
    }
    proof {
        let n = hi - lo;
        assert forall|k: int| n <= k < t.len() implies white_space(#[trigger] t[k]) by {
            assert(t[k] == s@[k + lo]);
        }
        lemma_trim_end_take(t, n);
        assert(t.take(n) =~= s@.subrange(lo as int, hi as int));
        if hi > lo {
            assert(t.take(n).last() == s@[hi - 1]);
        }
    }
    (lo, hi)
}

/// A copy of the characters of `s` from `lo` up to `hi`.
pub fn copy_range(s: &Vec<char>, lo: usize, hi: usize) -> (r: Vec<char>)
    requires
        lo <= hi <= s@.len(),
    ensures
        r@ == s@.subrange(lo as int, hi as int),
{
    let mut r: Vec<char> = Vec::new();
    let mut i: usize = lo;
    while i < hi
        invariant
            lo <= i <= hi <= s@.len(),
            r@ == s@.subrange(lo as int, i as int),
        decreases hi - i,
    {
        r.push(s[i]);
        i = i + 1;
        assert(r@ =~= s@.subrange(lo as int, i as int));
    }
    r
}

/// The characters of `line` without the white space at both ends.
pub fn trimmed_chars(line: &str) -> (r: Vec<char>)
    ensures
        r@ == trim_spec(line@),
{
    let all = chars_of(line);
    let (lo, hi) = trim_bounds(&all);
    copy_range(&all, lo, hi)
}

/// `line` without the white space at both ends.
pub fn trim(line: &str) -> (r: &str)
    ensures
        r@ == trim_spec(line@),
{
    let all = chars_of(line);
    let (lo, hi) = trim_bounds(&all);
    line.substring_char(lo, hi)
}

/// What follows `tag` in `s`, where `s` begins with `tag`.
pub fn strip_prefix(s: &Vec<char>, tag: &str) -> (r: Option<Vec<char>>)
    ensures
        r is Some <==> strip_prefix_spec(s@, tag@) is Some,
        r is Some ==> r->0@ == strip_prefix_spec(s@, tag@)->0,
{
    let t = chars_of(tag);
    if t.len() > s.len() {
        return None;
    }
    let mut i: usize = 0;
    while i < t.len()
        invariant
            i <= t@.len() <= s@.len(),
            t@ == tag@,
            forall|k: int| 0 <= k < i ==> #[trigger] t@[k] == s@[k],
        decreases t@.len() - i,
    {
        if t[i] != s[i] {
            assert(s@.take(tag@.len() as int)[i as int] != tag@[i as int]);
            return None;
        }
        i = i + 1;
    }
    assert(tag@ =~= s@.subrange(0, tag@.len() as int));
    let rest = copy_range(s, t.len(), s.len());
    assert(rest@ =~= s@.skip(tag@.len() as int));
    Some(rest)
}

/// Tells whether `s` holds exactly the characters of `t`.
pub fn same_text(s: &Vec<char>, t: &str) -> (r: bool)
    ensures
        r == (s@ == t@),
{
    match strip_prefix(s, t) {
        Some(rest) => {
            assert(rest@.len() == 0 ==> s@ =~= t@);
            rest.len() == 0
        },
        None => {
            assert(s@ == t@ ==> t@.is_prefix_of(s@));
            false
        },
    }
}

/// The words of `s`, in order.
pub fn words(s: &Vec<char>) -> (r: Vec<Vec<char>>)
    ensures
        r@.len() == words_spec(s@).len(),
        forall|i: int| 0 <= i < r@.len() ==> (#[trigger] r@[i])@ == words_spec(s@)[i],
{
    let mut r: Vec<Vec<char>> = Vec::new();
    let mut i: usize = 0;
    assert(s@.skip(0) =~= s@);
    loop
        invariant
            i <= s@.len(),
            r@.len() + words_spec(s@.skip(i as int)).len() == words_spec(s@).len(),
            forall|k: int| 0 <= k < r@.len() ==> (#[trigger] r@[k])@ == words_spec(s@)[k],
            forall|k: int|
                0 <= k < words_spec(s@.skip(i as int)).len() ==> #[trigger] words_spec(
                    s@.skip(i as int),
                )[k] == words_spec(s@)[r@.len() + k],
        decreases s@.len() - i,
    {
        let ghost start = i;
        let ghost u = s@.skip(start as int);
        let mut lo: usize = i;
        while lo < s.len() && is_whitespace(s[lo])
            invariant
                start <= lo <= s@.len(),
                forall|k: int| start <= k < lo ==> white_space(#[trigger] s@[k]),
            decreases s@.len() - lo,
        {
            lo = lo + 1;
        }
        let ghost t = s@.skip(lo as int);
        proof {
            assert forall|k: int| 0 <= k < lo - start implies white_space(#[trigger] u[k]) by {
                assert(u[k] == s@[k + start]);
            }
            lemma_trim_start_skip(u, lo - start);
            assert(u.skip(lo - start) =~= t);
            assert(trim_start_spec(u) == t);
        }
        if lo == s.len() {
            assert(words_spec(u).len() == 0);
            return r;
        }
        let mut hi: usize = lo;
        while hi < s.len() && !is_whitespace(s[hi])
            invariant
                lo <= hi <= s@.len(),
                forall|k: int| lo <= k < hi ==> !white_space(#[trigger] s@[k]),
            decreases s@.len() - hi,
        {
            hi = hi + 1;
        }
        proof {
            let n = hi - lo;
            assert forall|k: int| 0 <= k < n implies !white_space(#[trigger] t[k]) by {
                assert(t[k] == s@[k + lo]);
            }
            lemma_word_len_is(t, n);
            assert(t.take(n) =~= s@.subrange(lo as int, hi as int));
            assert(t.skip(n) =~= s@.skip(hi as int));
            assert(words_spec(u) == seq![t.take(n)] + words_spec(t.skip(n)));
            assert(words_spec(u)[0] == t.take(n));
            assert forall|k: int| 0 <= k < words_spec(t.skip(n)).len() implies #[trigger] words_spec(
                t.skip(n),
            )[k] == words_spec(s@)[r@.len() + 1 + k] by {
                assert(words_spec(u)[k + 1] == words_spec(t.skip(n))[k]);
            }
        }
        r.push(copy_range(s, lo, hi));
        i = hi;
    }
}

/// A longer run of digits denotes at least as much as its beginning.
pub proof fn lemma_digits_value_take(s: Seq<char>, n: int)
    requires
        0 <= n <= s.len(),
        all_digits(s),
    ensures
        digits_value(s.take(n)) <= digits_value(s),
    decreases s.len(),
{
    if n == s.len() {
        assert(s.take(n) =~= s);
    } else {
        assert(s.drop_last().take(n) =~= s.take(n));
        assert(all_digits(s.drop_last())) by {
            assert forall|i: int| 0 <= i < s.drop_last().len() implies digit(
                #[trigger] s.drop_last()[i],
            ) by {
                assert(s.drop_last()[i] == s[i]);
            }
        }
        lemma_digits_value_take(s.drop_last(), n);
    }
}

/// A text without white space at its ends, followed by one newline, is trimmed to itself.
pub proof fn lemma_trim_line(body: Seq<char>)
    requires
        body.len() > 0,
        !white_space(body[0]),
        !white_space(body.last()),
    ensures
        trim_spec(body.push('\n')) == body,
{
    let line = body.push('\n');
    assert(line[0] == body[0]);
    assert(trim_start_spec(line) == line);
    assert(line.drop_last() =~= body);
    assert(line.last() == '\n');
    assert(trim_end_spec(line) == trim_end_spec(body));
}

/// Stripping a tag from a text that was put behind it gives the text.
pub proof fn lemma_strip_tag(tag: Seq<char>, rest: Seq<char>)
    ensures
        strip_prefix_spec(tag + rest, tag) == Some(rest),
{
    assert(tag =~= (tag + rest).subrange(0, tag.len() as int));
    assert((tag + rest).skip(tag.len() as int) =~= rest);
}

pub open spec fn no_white_space(w: Seq<char>) -> bool {
    forall|i: int| 0 <= i < w.len() ==> !white_space(#[trigger] w[i])
}

/// A text without white space is its own only word.
pub proof fn lemma_single_word(w: Seq<char>)
    requires
        w.len() > 0,
        no_white_space(w),
    ensures
        words_spec(w) == seq![w],
{
    assert(!white_space(w[0]));
    assert(trim_start_spec(w) == w);
    lemma_word_len_is(w, w.len() as int);
    assert(w.take(w.len() as int) =~= w);
    assert(words_spec(w.skip(w.len() as int)) =~= Seq::<Seq<char>>::empty());
    assert(words_spec(w) =~= seq![w]);
}

/// A word in front of a space comes before the words behind the space.
pub proof fn lemma_first_word(w: Seq<char>, rest: Seq<char>)
    requires
        w.len() > 0,
        no_white_space(w),
    ensures
        words_spec(w.push(' ') + rest) == seq![w] + words_spec(rest),
{
    let s = w.push(' ') + rest;
    let n = w.len() as int;
    assert(!white_space(w[0]));
    assert(s[0] == w[0]);
    assert(trim_start_spec(s) == s);
    assert forall|k: int| 0 <= k < n implies !white_space(#[trigger] s[k]) by {
        assert(s[k] == w[k]);
    }
    lemma_word_len_is(s, n);
    assert(s.take(n) =~= w);
    let u = s.skip(n);
    assert(u[0] == ' ');
    assert(u.drop_first() =~= rest);
    assert(trim_start_spec(u) == trim_start_spec(rest));
    lemma_trim_start(rest);
    assert(words_spec(u) == words_spec(rest));
}

/// Digits are no white space.
pub proof fn lemma_digits_no_white_space(s: Seq<char>)
    requires
        all_digits(s),
    ensures
        no_white_space(s),
{
    assert forall|i: int| 0 <= i < s.len() implies !white_space(#[trigger] s[i]) by {
        assert(digit(s[i]));
    }
}

/// Reads an unsigned number: an optional `+`, then decimal digits.
pub fn parse_u64(s: &Vec<char>) -> (r: Option<u64>)
    ensures
        r == parse_u64_spec(s@),
{
    let lo: usize = if s.len() > 0 && s[0] == '+' {
        1
    } else {
        0
    };
    let ghost d = unsigned_digits(s@);
    assert(d =~= s@.skip(lo as int));
    if s.len() == lo {
        return None;
    }
    let mut value: u64 = 0;
    let mut i: usize = lo;
    assert(d.take(0).len() == 0);
    while i < s.len()
        invariant
            lo <= i <= s@.len(),
            d == s@.skip(lo as int),
            d == unsigned_digits(s@),
            all_digits(d.take(i - lo)),
            value == digits_value(d.take(i - lo)),
        decreases s@.len() - i,
    {
        let c = s[i];
        let ghost n = i - lo;
        assert(d[n] == c);
        if !('0' <= c && c <= '9') {
            assert(!all_digits(d));
            return None;
        }
        let step: u64 = (c as u32 - '0' as u32) as u64;
        proof {
            assert(d.take(n + 1).drop_last() =~= d.take(n));
            assert(d.take(n + 1).last() == c);
            assert(digits_value(d.take(n + 1)) == value * 10 + step);
            if all_digits(d) {
                lemma_digits_value_take(d, n + 1);
            }
        }
        if value > 1844674407370955161 || (value == 1844674407370955161 && step > 5) {
            return None;
        }
        value = value * 10 + step;
        i = i + 1;
        proof {
            assert forall|k: int| 0 <= k < n + 1 implies digit(#[trigger] d.take(n + 1)[k]) by {
                if k < n {
                    assert(d.take(n + 1)[k] == d.take(n)[k]);
                }
            }
        }
    }
    assert(d.take(s@.len() - lo) =~= d);
    Some(value)
}

/// Decimal notation consists of digits and denotes the number it was made from.
pub proof fn lemma_decimal(n: nat)
    ensures
        decimal(n).len() > 0,
        all_digits(decimal(n)),
        digits_value(decimal(n)) == n,
    decreases n,
{
    if n < 10 {
        let s = decimal(n);
        assert(s.drop_last() =~= Seq::<char>::empty());
        assert(s.last() == digit_char(n));
        assert(digits_value(s.drop_last()) == 0);
    } else {
        lemma_decimal(n / 10);
        let s = decimal(n);
        assert(s.drop_last() =~= decimal(n / 10));
        assert(s.last() == digit_char(n % 10));
        assert forall|i: int| 0 <= i < s.len() implies digit(#[trigger] s[i]) by {
            if i < s.len() - 1 {
                assert(s[i] == decimal(n / 10)[i]);
            }
        }
    }
}

/// Reading back the decimal notation of a number gives that number.
pub proof fn law_decimal_reads_back(n: u64)
    ensures
        parse_u64_spec(decimal(n as nat)) == Some(n),
{
    lemma_decimal(n as nat);
    let s = decimal(n as nat);
    assert(digit(s[0]));
    assert(unsigned_digits(s) == s);
}

/// The value of a hexadecimal digit in lower case.
pub open spec fn hex_digit_value(c: char) -> nat {
    if digit(c) {
        (c as nat - '0' as nat) as nat
    } else {
        (c as nat - 'a' as nat + 10) as nat
    }
}

/// The number that a sequence of hexadecimal digits denotes.
pub open spec fn hex_value(s: Seq<char>) -> nat
    decreases s.len(),
{
    if s.len() == 0 {
        0
    } else {
        hex_value(s.drop_last()) * 16 + hex_digit_value(s.last())
    }
}

/// Hexadecimal notation denotes the number it was made from, and holds no underscore.
pub proof fn lemma_hexadecimal(n: nat)
    ensures
        hex_value(hexadecimal(n)) == n,
        forall|i: int| 0 <= i < hexadecimal(n).len() ==> #[trigger] hexadecimal(n)[i] != '_',
    decreases n,
{
    let s = hexadecimal(n);
    if n < 16 {
        assert(s.drop_last() =~= Seq::<char>::empty());
        assert(s.last() == hex_char(n));
        assert(hex_value(s.drop_last()) == 0);
    } else {
        lemma_hexadecimal(n / 16);
        assert(s.drop_last() =~= hexadecimal(n / 16));
        assert(s.last() == hex_char(n % 16));
        assert(hex_digit_value(hex_char(n % 16)) == n % 16);
        assert forall|i: int| 0 <= i < s.len() implies #[trigger] s[i] != '_' by {
            if i < s.len() - 1 {
                assert(s[i] == hexadecimal(n / 16)[i]);
            }
        }
    }
}

/// The decimal digit for a value below ten.
fn digit_str(d: u64) -> (r: &'static str)
    requires
        d < 10,
    ensures
        r@ == seq![digit_char(d as nat)],
{
    proof {
        reveal_strlit("0");
        reveal_strlit("1");
        reveal_strlit("2");
        reveal_strlit("3");
        reveal_strlit("4");
        reveal_strlit("5");
        reveal_strlit("6");
        reveal_strlit("7");
        reveal_strlit("8");
        reveal_strlit("9");
    }
    if d == 0 {
        "0"
    } else if d == 1 {
        "1"
    } else if d == 2 {
        "2"
    } else if d == 3 {
        "3"
    } else if d == 4 {
        "4"
    } else if d == 5 {
        "5"
    } else if d == 6 {
        "6"
    } else if d == 7 {
        "7"
    } else if d == 8 {
        "8"
    } else {
        "9"
    }
}

/// The hexadecimal digit for a value below sixteen.
fn hex_str(d: u64) -> (r: &'static str)
    requires
        d < 16,
    ensures
        r@ == seq![hex_char(d as nat)],
{
    proof {
        reveal_strlit("a");
        reveal_strlit("b");
        reveal_strlit("c");
        reveal_strlit("d");
        reveal_strlit("e");
        reveal_strlit("f");
    }
    if d < 10 {
        digit_str(d)
    } else if d == 10 {
        "a"
    } else if d == 11 {
        "b"
    } else if d == 12 {
        "c"
    } else if d == 13 {
        "d"
    } else if d == 14 {
        "e"
    } else {
        "f"
    }
}

/// Appends `n` in decimal notation.
pub fn append_decimal(out: &mut String, n: u64)
    ensures
        final(out)@ == old(out)@ + decimal(n as nat),
    decreases n,
{
    if n >= 10 {
        append_decimal(out, n / 10);
    }
    out.append(digit_str(n % 10));
    assert(out@ =~= old(out)@ + decimal(n as nat));
}

/// Appends `n` in hexadecimal notation.
pub fn append_hexadecimal(out: &mut String, n: u64)
    ensures
        final(out)@ == old(out)@ + hexadecimal(n as nat),
    decreases n,
{
    if n >= 16 {
        append_hexadecimal(out, n / 16);
    }
    out.append(hex_str(n % 16));
    assert(out@ =~= old(out)@ + hexadecimal(n as nat));
}

/// White space is exactly the set of code points with the Unicode property White_Space:
/// five control characters, the space, the next-line control and the spaces and separators
/// above ASCII.
pub proof fn law_white_space_code_points(c: char)
    ensures
        ({
            let n = c as u32;
            white_space(c) <==> (9 <= n <= 13 || n == 32 || n == 133 || n == 160 || n == 5760 || (
            8192 <= n <= 8202) || n == 8232 || n == 8233 || n == 8239 || n == 8287 || n == 12288)
        }),
{
}

/// Trimming takes off the white space around a text, all of it and nothing else: whatever
/// white space is put before and behind a text that has none at its ends, the text comes
/// back.
pub proof fn law_trim_takes_off_surrounding_white_space(
    before: Seq<char>,
    body: Seq<char>,
    after: Seq<char>,
)
    requires
        forall|i: int| 0 <= i < before.len() ==> white_space(#[trigger] before[i]),
        forall|i: int| 0 <= i < after.len() ==> white_space(#[trigger] after[i]),
        body.len() > 0 ==> !white_space(body[0]) && !white_space(body[body.len() - 1]),
    ensures
        trim_spec(before + body + after) == body,
{
    let s = before + body + after;
    let t = body + after;
    if body.len() > 0 {
        assert forall|k: int| 0 <= k < before.len() implies white_space(#[trigger] s[k]) by {
            assert(s[k] == before[k]);
        }
        lemma_trim_start_skip(s, before.len() as int);
        assert(s.skip(before.len() as int) =~= t);
        assert(t[0] == body[0]);
        assert(trim_start_spec(s) == t);
        assert forall|k: int| body.len() <= k < t.len() implies white_space(#[trigger] t[k]) by {
            assert(t[k] == after[k - body.len()]);
        }
        lemma_trim_end_take(t, body.len() as int);
        assert(t.take(body.len() as int) =~= body);
    } else {
        assert forall|k: int| 0 <= k < s.len() implies white_space(#[trigger] s[k]) by {
            if k < before.len() {
                assert(s[k] == before[k]);
            } else {
                assert(s[k] == after[k - before.len()]);
            }
        }
        lemma_trim_start_skip(s, s.len() as int);
        assert(s.skip(s.len() as int) =~= body);
        assert(trim_start_spec(s) == body);
    }
}

/// Words are what stands between white space: white space in front does not matter, a text
/// without white space is one word, and a word that white space ends comes before the words
/// behind it.
pub proof fn law_words_stand_between_white_space(w: Seq<char>, c: char, rest: Seq<char>)
    requires
        w.len() > 0,
        forall|i: int| 0 <= i < w.len() ==> !white_space(#[trigger] w[i]),
        white_space(c),
    ensures
        words_spec(Seq::<char>::empty()) == Seq::<Seq<char>>::empty(),
        words_spec(seq![c] + rest) == words_spec(rest),
        words_spec(w) == seq![w],
        words_spec(w.push(c) + rest) == seq![w] + words_spec(rest),
{
    let lead = seq![c] + rest;
    assert(lead[0] == c);
    assert(lead.drop_first() =~= rest);
    assert(trim_start_spec(lead) == trim_start_spec(rest));
    lemma_trim_start(rest);
    assert(words_spec(lead) == words_spec(rest));
    assert(no_white_space(w));
    lemma_single_word(w);
    let s = w.push(c) + rest;
    let n = w.len() as int;
    assert(!white_space(w[0]));
    assert(s[0] == w[0]);
    assert(trim_start_spec(s) == s);
    assert forall|k: int| 0 <= k < n implies !white_space(#[trigger] s[k]) by {
        assert(s[k] == w[k]);
    }
    assert(s[n] == c);
    lemma_word_len_is(s, n);
    assert(s.take(n) =~= w);
    assert(s.skip(n) =~= lead);
}

/// Stripping a tag undoes putting it in front, and succeeds on nothing else.
pub proof fn law_strip_prefix_undoes_prepending(s: Seq<char>, tag: Seq<char>, rest: Seq<char>)
    ensures
        strip_prefix_spec(s, tag) == Some(rest) <==> s == tag + rest,
{
    if s == tag + rest {
        lemma_strip_tag(tag, rest);
    }
    if tag.is_prefix_of(s) {
        assert(s =~= tag + s.skip(tag.len() as int));
    }
}

/// How a number is read, digit by digit: one digit is its value, a further digit multiplies
/// by ten and adds, up to the largest number of 64 bits; a plus sign may stand in front, and
/// anything else makes the text no number.
pub proof fn law_number_is_read_digit_by_digit(s: Seq<char>, c: char)
    ensures
        parse_u64_spec(Seq::empty()) is None,
        '0' <= c <= '9' ==> parse_u64_spec(seq![c]) == Some((c as u64 - '0' as u64) as u64),
        '0' <= c <= '9' ==> parse_u64_spec(seq!['+', c]) == Some((c as u64 - '0' as u64) as u64),
        !('0' <= c <= '9') ==> parse_u64_spec(s.push(c)) is None,
        '0' <= c <= '9' && s.len() > 0 && s != seq!['+'] ==> parse_u64_spec(s.push(c)) == (
        match parse_u64_spec(s) {
            Some(n) => if n * 10 + (c as int - '0' as int) <= u64::MAX {
                Some((n * 10 + (c as int - '0' as int)) as u64)
            } else {
                None
            },
            None => None,
        }),
{
    let one = seq![c];
    assert(one.drop_last() =~= Seq::<char>::empty());
    assert(one.last() == c);
    assert(digits_value(one.drop_last()) == 0);
    let signed = seq!['+', c];
    assert(signed.drop_first() =~= one);
    let t = s.push(c);
    let d = unsigned_digits(s);
    let e = unsigned_digits(t);
    assert(t.last() == c);
    if !('0' <= c <= '9') {
        if s.len() > 0 || c != '+' {
            assert(e.len() > 0);
            assert(e[e.len() - 1] == c);
            assert(!all_digits(e));
        }
    } else {
        assert(digit(c));
        assert(all_digits(one));
        if s.len() > 0 && s != seq!['+'] {
            assert(t[0] == s[0]);
            assert(e =~= d.push(c));
            assert(e.drop_last() =~= d);
            if d.len() == 0 {
                assert(s =~= seq!['+']);
            }
            assert(digits_value(e) == digits_value(d) * 10 + (c as nat - '0' as nat) as nat);
            if all_digits(d) {
                assert forall|i: int| 0 <= i < e.len() implies digit(#[trigger] e[i]) by {
                    if i < d.len() {
                        assert(e[i] == d[i]);
                    }
                }
            } else {
                let i = choose|i: int| 0 <= i < d.len() && !digit(#[trigger] d[i]);
                assert(e[i] == d[i]);
                assert(!all_digits(e));
            }
        }
    }
}

/// How a number is written in decimal notation: below ten as its digit, and otherwise with
/// its last digit behind the notation of a tenth of it.
pub proof fn law_decimal_notation(tens: nat, d: nat)
    requires
        d < 10,
    ensures
        decimal(d) == seq![('0' as nat + d) as char],
        tens > 0 ==> decimal(10 * tens + d) == decimal(tens).push(('0' as nat + d) as char),
{
    assert((10 * tens + d) / 10 == tens);
    assert((10 * tens + d) % 10 == d);
}

/// How a number is written in hexadecimal notation, with the digits above nine as the
/// letters from `a` to `f`.
pub proof fn law_hexadecimal_notation(rest: nat, d: nat)
    requires
        d < 16,
    ensures
        ({
            let c = if d <= 9 {
                ('0' as nat + d) as char
            } else {
                ('a' as nat + d - 10) as char
            };
            &&& hexadecimal(d) == seq![c]
            &&& rest > 0 ==> hexadecimal(16 * rest + d) == hexadecimal(rest).push(c)
        }),
{
    assert((16 * rest + d) / 16 == rest);
    assert((16 * rest + d) % 16 == d);
}

} // verus!
