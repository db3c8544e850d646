//! Character-level helpers shared by the parsers of this crate.

use vstd::prelude::*;
use vstd::string::*;

verus! {

/// Whether `c` carries the Unicode `White_Space` property.
pub open spec fn is_space(c: char) -> bool {
    let n = c as u32;
    ||| 0x09 <= n <= 0x0D
    ||| n == 0x20
    ||| n == 0x85
    ||| n == 0xA0
    ||| n == 0x1680
    ||| 0x2000 <= n <= 0x200A
    ||| n == 0x2028
    ||| n == 0x2029
    ||| n == 0x202F
    ||| n == 0x205F
    ||| n == 0x3000
}

/// Decides [`is_space`].
pub fn char_is_space(c: char) -> (r: bool)
    ensures
        r == is_space(c),
{
    let n: u32 = c as u32;
    (0x09 <= n && n <= 0x0D) || n == 0x20 || n == 0x85 || n == 0xA0 || n == 0x1680 || (0x2000 <= n
        && n <= 0x200A) || n == 0x2028 || n == 0x2029 || n == 0x202F || n == 0x205F || n == 0x3000
}

/// The characters of `s`, in order.
pub fn chars_of(s: &str) -> (v: Vec<char>)
    ensures
        v@ == s@,
{
    let mut v: Vec<char> = Vec::new();
    for c in it: s.chars()
        invariant
            v@ == it.seq().take(it.index() as int),
            it.seq() == s@,
    {
        v.push(c);
    }
    v
}

/// `str`'s `==`: two string slices are equal when they hold the same
/// characters.
pub assume_specification[ <str as PartialEq>::eq ](a: &str, b: &str) -> (r: bool)
    ensures
        r == (a@ == b@),
;

/// Whether `a` and `b` hold the same characters.
pub fn same_text(a: &str, b: &str) -> (r: bool)
    ensures
        r == (a@ == b@),
{
    a.eq(b)
}

/// Index of the first character at or after `from` that is not whitespace,
/// or the length of `s` when only whitespace is left.
pub open spec fn skip_spaces(s: Seq<char>, from: int) -> int
    decreases s.len() - from,
{
    if 0 <= from < s.len() && is_space(s[from]) {
        skip_spaces(s, from + 1)
    } else {
        from
    }
}

/// Index of the first character at or after `from` that is whitespace, or the
/// length of `s` when none is left.
pub open spec fn skip_word(s: Seq<char>, from: int) -> int
    decreases s.len() - from,
{
    if 0 <= from < s.len() && !is_space(s[from]) {
        skip_word(s, from + 1)
    } else {
        from
    }
}

/// Index just past the last character before `to` that is not whitespace, or
/// zero when only whitespace comes before `to`.
pub open spec fn drop_spaces(s: Seq<char>, to: int) -> int
    decreases to,
{
    if 0 < to <= s.len() && is_space(s[to - 1]) {
        drop_spaces(s, to - 1)
    } else {
        to
    }
}

/// `s` without its leading and trailing whitespace.
pub open spec fn trimmed(s: Seq<char>) -> Seq<char> {
    let a = skip_spaces(s, 0);
    let b = drop_spaces(s, s.len() as int);
    if a < b {
        s.subrange(a, b)
    } else {
        Seq::empty()
    }
}

/// The maximal runs of non-whitespace characters of `s` that start at or after
/// `from`, in order.
pub open spec fn words_from(s: Seq<char>, from: int) -> Seq<Seq<char>>
    decreases s.len() - from,
{
    let a = skip_spaces(s, from);
    let b = skip_word(s, a);
    if 0 <= from <= a < b <= s.len() {
        seq![s.subrange(a, b)] + words_from(s, b)
    } else {
        Seq::empty()
    }
}

/// The whitespace-separated words of `s`, in order; none of them is empty.
pub open spec fn words(s: Seq<char>) -> Seq<Seq<char>> {
    words_from(s, 0)
}

/// `skip_spaces` stops within bounds, on a character that is not whitespace.
pub proof fn lemma_skip_spaces(s: Seq<char>, from: int)
    requires
        0 <= from <= s.len(),
    ensures
        from <= skip_spaces(s, from) <= s.len(),
        skip_spaces(s, from) < s.len() ==> !is_space(s[skip_spaces(s, from)]),
        forall|i: int| from <= i < skip_spaces(s, from) ==> is_space(#[trigger] s[i]),
    decreases s.len() - from,
{
    if from < s.len() && is_space(s[from]) {
        lemma_skip_spaces(s, from + 1);
    }
}

/// `skip_word` stops within bounds, on whitespace or at the end.
pub proof fn lemma_skip_word(s: Seq<char>, from: int)
    requires
        0 <= from <= s.len(),
    ensures
        from <= skip_word(s, from) <= s.len(),
        skip_word(s, from) < s.len() ==> is_space(s[skip_word(s, from)]),
        forall|i: int| from <= i < skip_word(s, from) ==> !is_space(#[trigger] s[i]),
        from < s.len() && !is_space(s[from]) ==> from < skip_word(s, from),
    decreases s.len() - from,
{
    if from < s.len() && !is_space(s[from]) {
        lemma_skip_word(s, from + 1);
    }
}

/// `drop_spaces` stops within bounds, just past a character that is not
/// whitespace.
pub proof fn lemma_drop_spaces(s: Seq<char>, to: int)
    requires
        0 <= to <= s.len(),
    ensures
        0 <= drop_spaces(s, to) <= to,
        drop_spaces(s, to) > 0 ==> !is_space(s[drop_spaces(s, to) - 1]),
        forall|i: int| drop_spaces(s, to) <= i < to ==> is_space(#[trigger] s[i]),
    decreases to,
{
    if 0 < to && is_space(s[to - 1]) {
        lemma_drop_spaces(s, to - 1);
    }
}

/// Whether `w` is a word: it is not empty and holds no whitespace.
pub open spec fn is_word(w: Seq<char>) -> bool {
    &&& w.len() > 0
    &&& forall|i: int| 0 <= i < w.len() ==> !is_space(#[trigger] w[i])
}

/// What trimming keeps and what it drops: `trimmed(s)` is a stretch of `s`
/// with nothing but whitespace before and after it, and if it is not empty
/// it neither begins nor ends with whitespace.
pub proof fn lemma_trimmed(s: Seq<char>)
    ensures
        ({
            let a = skip_spaces(s, 0);
            let b = drop_spaces(s, s.len() as int);
            &&& 0 <= a <= s.len()
            &&& 0 <= b <= s.len()
            &&& forall|i: int| 0 <= i < a ==> is_space(#[trigger] s[i])
            &&& forall|i: int| b <= i < s.len() ==> is_space(#[trigger] s[i])
            &&& a < b ==> trimmed(s) == s.subrange(a, b)
            &&& a >= b ==> trimmed(s).len() == 0 && forall|i: int|
                0 <= i < s.len() ==> is_space(#[trigger] s[i])
            &&& trimmed(s).len() > 0 ==> !is_space(trimmed(s).first()) && !is_space(
                trimmed(s).last(),
            )
        }),
{
    lemma_skip_spaces(s, 0);
    lemma_drop_spaces(s, s.len() as int);
}

/// Every whitespace-separated word is a word: none is empty, and none
/// holds whitespace. There is a first word exactly when not only
/// whitespace is left, and it is the run that begins at the first
/// character that is not whitespace.
pub proof fn lemma_words(s: Seq<char>, from: int)
    requires
        0 <= from <= s.len(),
    ensures
        forall|k: int|
            0 <= k < words_from(s, from).len() ==> is_word(#[trigger] words_from(s, from)[k]),
        words_from(s, from).len() > 0 <==> skip_spaces(s, from) < s.len(),
        words_from(s, from).len() > 0 ==> words_from(s, from)[0] == s.subrange(
            skip_spaces(s, from),
            skip_word(s, skip_spaces(s, from)),
        ),
    decreases s.len() - from,
{
    lemma_skip_spaces(s, from);
    let a = skip_spaces(s, from);
    lemma_skip_word(s, a);
    let b = skip_word(s, a);
    if a < b {
        lemma_words(s, b);
        let first = s.subrange(a, b);
        assert(is_word(first)) by {
            assert forall|i: int| 0 <= i < first.len() implies !is_space(#[trigger] first[i]) by {
                assert(first[i] == s[a + i]);
            }
        }
        assert forall|k: int| 0 <= k < words_from(s, from).len() implies is_word(
            #[trigger] words_from(s, from)[k],
        ) by {
            if k > 0 {
                assert(words_from(s, from)[k] == words_from(s, b)[k - 1]);
            }
        }
    }
}

/// `s` without its leading and trailing whitespace, as an owned string.
/// What is left neither begins nor ends with whitespace.
pub fn trim(s: &str) -> (r: String)
    ensures
        r@ == trimmed(s@),
        r@.len() > 0 ==> !is_space(r@.first()) && !is_space(r@.last()),
{
    proof {
        lemma_trimmed(s@);
    }
    let chars = chars_of(s);
    let n = chars.len();
    let mut a: usize = 0;
    while a < n && char_is_space(chars[a])
        invariant
            n == chars@.len(),
            0 <= a <= n,
            skip_spaces(chars@, 0) == skip_spaces(chars@, a as int),
        decreases n - a,
    {
        a = a + 1;
    }
    let mut b: usize = n;
    while b > 0 && char_is_space(chars[b - 1])
        invariant
            n == chars@.len(),
            0 <= b <= n,
            drop_spaces(chars@, n as int) == drop_spaces(chars@, b as int),
        decreases b,
    {
        b = b - 1;
    }
    if a < b {
        s.substring_char(a, b).to_owned()
    } else {
        String::new()
    }
}

/// The whitespace-separated words of `s`, in order. None of them is
/// empty, and none holds whitespace.
pub fn split_whitespace(s: &str) -> (r: Vec<String>)
    ensures
        r@.len() == words(s@).len(),
        forall|i: int| 0 <= i < r@.len() ==> (#[trigger] r@[i])@ == words(s@)[i],
        forall|i: int| 0 <= i < r@.len() ==> is_word((#[trigger] r@[i])@),
{
    proof {
        lemma_words(s@, 0);
    }
    let chars = chars_of(s);
    let n = chars.len();
    let mut out: Vec<String> = Vec::new();
    let mut i: usize = 0;
    loop
        invariant
            chars@ == s@,
            n == chars@.len(),
            0 <= i <= n,
            words(s@) == Seq::new(out@.len(), |k: int| out@[k]@) + words_from(s@, i as int),
        ensures
            words(s@) == Seq::new(out@.len(), |k: int| out@[k]@),
        decreases n - i,
    {
        let mut a: usize = i;
        while a < n && char_is_space(chars[a])
            invariant
                chars@ == s@,
                n == chars@.len(),
                i <= a <= n,
                skip_spaces(s@, i as int) == skip_spaces(s@, a as int),
            decreases n - a,
        {
            a = a + 1;
        }
        if a == n {
            break ;
        }
        let mut b: usize = a;
        while b < n && !char_is_space(chars[b])
            invariant
                chars@ == s@,
                n == chars@.len(),
                a <= b <= n,
                skip_word(s@, a as int) == skip_word(s@, b as int),
            decreases n - b,
        {
            b = b + 1;
        }
        let word = s.substring_char(a, b).to_owned();
        proof {
            let before = Seq::new(out@.len(), |k: int| out@[k]@);
            let after = Seq::new(out@.len() + 1, |k: int| out@.push(word)[k]@);
            assert(after == before + seq![s@.subrange(a as int, b as int)]);
            assert(before + (seq![s@.subrange(a as int, b as int)] + words_from(s@, b as int))
                == after + words_from(s@, b as int));
        }
        out.push(word);
        i = b;
    }
    proof {
        let got = Seq::new(out@.len(), |k: int| out@[k]@);
        assert(forall|k: int| 0 <= k < out@.len() ==> (#[trigger] out@[k])@ == got[k]);
    }
    out
}

/// Whether `s` begins with `prefix`.
pub fn has_prefix(s: &str, prefix: &str) -> (r: bool)
    ensures
        r == prefix@.is_prefix_of(s@),
{
    let a = chars_of(s);
    let b = chars_of(prefix);
    if b.len() > a.len() {
        return false;
    }
    let mut i: usize = 0;
    while i < b.len()
        invariant
            a@ == s@,
            b@ == prefix@,
            b@.len() <= a@.len(),
            0 <= i <= b@.len(),
            forall|k: int| 0 <= k < i ==> a@[k] == b@[k],
        decreases b.len() - i,
    {
        if a[i] != b[i] {
            assert(s@.subrange(0, prefix@.len() as int)[i as int] != prefix@[i as int]);
            return false;
        }
        i = i + 1;
    }
    assert(s@.subrange(0, prefix@.len() as int) == prefix@);
    true
}

/// What follows the first `skip` characters of `s`.
pub fn skip_chars(s: &str, skip: usize) -> (r: String)
    requires
        skip <= s@.len(),
    ensures
        r@ == s@.skip(skip as int),
{
    let n = s.unicode_len();
    s.substring_char(skip, n).to_owned()
}

/// Number of characters of `s`.
pub fn char_count(s: &str) -> (n: usize)
    ensures
        n == s@.len(),
{
    s.unicode_len()
}

/// Index of the first occurrence of `c` in `s`, or the length of `s` when
/// there is none.
pub open spec fn first_index_of(s: Seq<char>, c: char, from: int) -> int
    decreases s.len() - from,
{
    if 0 <= from < s.len() && s[from] != c {
        first_index_of(s, c, from + 1)
    } else {
        from
    }
}

/// `first_index_of` stops within bounds, on the first occurrence.
pub proof fn lemma_first_index_of(s: Seq<char>, c: char, from: int)
    requires
        0 <= from <= s.len(),
    ensures
        from <= first_index_of(s, c, from) <= s.len(),
        first_index_of(s, c, from) < s.len() ==> s[first_index_of(s, c, from)] == c,
        forall|i: int| from <= i < first_index_of(s, c, from) ==> #[trigger] s[i] != c,
    decreases s.len() - from,
{
    if from < s.len() && s[from] != c {
        lemma_first_index_of(s, c, from + 1);
    }
}

/// Splits `s` at its first `sep`: what stands before it and what stands
/// after it, or nothing when `s` holds no `sep`.
pub fn split_once(s: &str, sep: char) -> (r: Option<(String, String)>)
    ensures
        match r {
            Some((head, tail)) => {
                let at = first_index_of(s@, sep, 0);
                &&& at < s@.len()
                &&& head@ == s@.take(at)
                &&& tail@ == s@.skip(at + 1)
            },
            None => !s@.contains(sep),
        },
{
    let chars = chars_of(s);
    let n = chars.len();
    let mut i: usize = 0;
    while i < n && chars[i] != sep
        invariant
            chars@ == s@,
            n == chars@.len(),
            0 <= i <= n,
            first_index_of(s@, sep, 0) == first_index_of(s@, sep, i as int),
            forall|k: int| 0 <= k < i ==> s@[k] != sep,
        decreases n - i,
    {
        i = i + 1;
    }
    if i < n {
        let head = s.substring_char(0, i).to_owned();
        let tail = s.substring_char(i + 1, n).to_owned();
        Some((head, tail))
    } else {
        None
    }
}

/// The decimal digit `d` as a character.
pub open spec fn digit(d: int) -> char
    recommends
        0 <= d < 10,
{
    if d == 0 {
        '0'
    } else if d == 1 {
        '1'
    } else if d == 2 {
        '2'
    } else if d == 3 {
        '3'
    } else if d == 4 {
        '4'
    } else if d == 5 {
        '5'
    } else if d == 6 {
        '6'
    } else if d == 7 {
        '7'
    } else if d == 8 {
        '8'
    } else {
        '9'
    }
}

/// Decimal notation of a natural number, without leading zeros.
pub open spec fn decimal_nat(n: nat) -> Seq<char>
    decreases n,
{
    if n < 10 {
        seq![digit(n as int)]
    } else {
        decimal_nat(n / 10).push(digit((n % 10) as int))
    }
}

/// Decimal notation of an integer, with a minus sign when it is negative.
pub open spec fn decimal(n: int) -> Seq<char> {
    if n < 0 {
        seq!['-'] + decimal_nat((-n) as nat)
    } else {
        decimal_nat(n as nat)
    }
}

fn digit_str(d: u64) -> (r: &'static str)
    requires
        d < 10,
    ensures
        r@ == seq![digit(d as int)],
{
    proof {
        reveal_strlit("0");
        reveal_strlit("1");
        reveal_strlit("2");
        reveal_strlit("3");
        reveal_strlit("4");
        reveal_strlit("5");
        reveal_strlit("6");
        reveal_strlit("7");
        reveal_strlit("8");
        reveal_strlit("9");
    }
    let r = if d == 0 {
        "0"
    } else if d == 1 {
        "1"
    } else if d == 2 {
        "2"
    } else if d == 3 {
        "3"
    } else if d == 4 {
        "4"
    } else if d == 5 {
        "5"
    } else if d == 6 {
        "6"
    } else if d == 7 {
        "7"
    } else if d == 8 {
        "8"
    } else {
        "9"
    };
    assert(r@ =~= seq![digit(d as int)]);
    r
}

fn decimal_nat_string(n: u64) -> (r: String)
    ensures
        r@ == decimal_nat(n as nat),
    decreases n,
{
    if n < 10 {
        digit_str(n).to_owned()
    } else {
        let mut s = decimal_nat_string(n / 10);
        s.append(digit_str(n % 10));
        s
    }
}

/// Decimal notation of `n`.
pub fn decimal_string(n: i64) -> (r: String)
    ensures
        r@ == decimal(n as int),
{
    if n < 0 {
        let magnitude: u64 = (-(n + 1)) as u64 + 1;
        let mut s = "-".to_owned();
        proof {
            reveal_strlit("-");
            assert("-"@ =~= seq!['-']);
        }
        let digits = decimal_nat_string(magnitude);
        s.append(digits.as_str());
        s
    } else {
        decimal_nat_string(n as u64)
    }
}

/// What formatting a string with `{:?}` gives: the string between double
/// quotes, with the characters that the standard library escapes written as
/// escapes.
pub uninterp spec fn debug_quoted(s: Seq<char>) -> Seq<char>;

/// `format!("{:?}", s)` for a string slice: the result is a function of the
/// characters of `s` alone, named [`debug_quoted`].
#[verifier::external_body]
pub(crate) fn debug_quote(s: &str) -> (r: String)
    ensures
        r@ == debug_quoted(s@),
{
    format!("{:?}", s)
}

/// The lowercase form of a string as the Unicode character database defines
/// it.
pub uninterp spec fn lowercase(s: Seq<char>) -> Seq<char>;

/// `str::to_lowercase`: the result is a function of the characters of `s`
/// alone, named [`lowercase`].
#[verifier::external_body]
pub(crate) fn to_lowercase(s: &str) -> (r: String)
    ensures
        r@ == lowercase(s@),
{
    s.to_lowercase()
}

} // verus!
