//! Character-level text helpers shared by the parsers of this crate.
use vstd::prelude::*;

verus! {

broadcast use vstd::string::group_string_axioms;

/// Unicode `White_Space` property (the set that `char::is_whitespace` and `str::trim` use).
pub open spec fn is_white_space(c: char) -> bool {
    let u = c as u32;
    ||| (0x09 <= u && u <= 0x0d)
    ||| u == 0x20
    ||| u == 0x85
    ||| u == 0xa0
    ||| u == 0x1680
    ||| (0x2000 <= u && u <= 0x200a)
    ||| u == 0x2028
    ||| u == 0x2029
    ||| u == 0x202f
    ||| u == 0x205f
    ||| u == 0x3000
}

/// Whether `c` has the Unicode `White_Space` property.
pub fn is_whitespace(c: char) -> (r: bool)
    ensures
        r == is_white_space(c),
{
    let u = c as u32;
    (0x09 <= u && u <= 0x0d) || u == 0x20 || u == 0x85 || u == 0xa0 || u == 0x1680 || (0x2000
        <= u && u <= 0x200a) || u == 0x2028 || u == 0x2029 || u == 0x202f || u == 0x205f || u
        == 0x3000
}

/// `0-9`.
pub open spec fn is_ascii_digit_spec(c: char) -> bool {
    48 <= (c as u32) && (c as u32) <= 57
}

/// `A-Z`.
pub open spec fn is_ascii_upper_spec(c: char) -> bool {
    65 <= (c as u32) && (c as u32) <= 90
}

/// `a-z`.
pub open spec fn is_ascii_lower_spec(c: char) -> bool {
    97 <= (c as u32) && (c as u32) <= 122
}

/// ASCII punctuation as `char::is_ascii_punctuation` defines it:
/// `! " # $ % & ' ( ) * + , - . /`, `: ; < = > ? @`, `[ \ ] ^ _ backtick`, `{ | } ~`.
pub open spec fn is_ascii_punct_spec(c: char) -> bool {
    let u = c as u32;
    ||| (33 <= u && u <= 47)
    ||| (58 <= u && u <= 64)
    ||| (91 <= u && u <= 96)
    ||| (123 <= u && u <= 126)
}

/// Number of bytes of the UTF-8 encoding of one character.
pub open spec fn char_utf8_len(c: char) -> nat {
    let u = c as u32;
    if u < 0x80 {
        1
    } else if u < 0x800 {
        2
    } else if u < 0x10000 {
        3
    } else {
        4
    }
}

/// Number of bytes of the UTF-8 encoding of a character sequence (what `str::len` reports).
pub open spec fn utf8_len(s: Seq<char>) -> nat
    decreases s.len(),
{
    if s.len() == 0 {
        0
    } else {
        utf8_len(s.drop_last()) + char_utf8_len(s.last())
    }
}

/// `s` with leading and trailing white space removed, as `str::trim` does.
pub open spec fn trim_spec(s: Seq<char>) -> Seq<char>
    decreases s.len(),
{
    if s.len() == 0 {
        s
    } else if is_white_space(s[0]) {
        trim_spec(s.drop_first())
    } else if is_white_space(s.last()) {
        trim_spec(s.drop_last())
    } else {
        s
    }
}

/// Trimming twice trims no more than trimming once.
pub proof fn lemma_trim_idempotent(s: Seq<char>)
    ensures
        trim_spec(trim_spec(s)) == trim_spec(s),
    decreases s.len(),
{
    if s.len() == 0 {
    } else if is_white_space(s[0]) {
        lemma_trim_idempotent(s.drop_first());
    } else if is_white_space(s.last()) {
        lemma_trim_idempotent(s.drop_last());
    }
}

/// The pieces of `s` between occurrences of `sep`, as `str::split` with a `char` pattern yields them.
pub open spec fn split_spec(s: Seq<char>, sep: char) -> Seq<Seq<char>>
    decreases s.len(),
{
    if s.len() == 0 {
        seq![Seq::<char>::empty()]
    } else {
        let prev = split_spec(s.drop_last(), sep);
        if s.last() == sep {
            prev.push(Seq::<char>::empty())
        } else {
            prev.update(prev.len() - 1, prev.last().push(s.last()))
        }
    }
}

pub proof fn lemma_split_nonempty(s: Seq<char>, sep: char)
    ensures
        split_spec(s, sep).len() >= 1,
    decreases s.len(),
{
    if s.len() > 0 {
        lemma_split_nonempty(s.drop_last(), sep);
    }
}

/// A text without the separator is a single part.
pub proof fn lemma_split_plain(a: Seq<char>, sep: char)
    requires
        forall|i: int| 0 <= i < a.len() ==> a[i] != sep,
    ensures
        split_spec(a, sep) == seq![a],
    decreases a.len(),
{
    if a.len() == 0 {
        assert(a =~= Seq::<char>::empty());
    } else {
        lemma_split_plain(a.drop_last(), sep);
        assert(a.drop_last().push(a.last()) =~= a);
        assert(seq![a.drop_last()].update(0, a.drop_last().push(a.last())) =~= seq![a]);
    }
}

/// A text without the separator, followed by three separators, splits into the text
/// and three empty parts.
pub proof fn lemma_split_three_trailing(a: Seq<char>, sep: char)
    requires
        forall|i: int| 0 <= i < a.len() ==> a[i] != sep,
    ensures
        split_spec(a + seq![sep, sep, sep], sep) == seq![a, Seq::<char>::empty(), Seq::<char>::empty(), Seq::<char>::empty()],
{
    let e = Seq::<char>::empty();
    lemma_split_plain(a, sep);
    let s1 = a + seq![sep];
    let s2 = a + seq![sep, sep];
    let s3 = a + seq![sep, sep, sep];
    assert(s1.drop_last() =~= a);
    assert(s2.drop_last() =~= s1);
    assert(s3.drop_last() =~= s2);
    assert(split_spec(s1, sep) =~= seq![a, e]);
    assert(split_spec(s2, sep) =~= seq![a, e, e]);
    assert(split_spec(s3, sep) =~= seq![a, e, e, e]);
}

/// The characters of a string slice.
pub fn str_chars(s: &str) -> (r: Vec<char>)
    ensures
        r@ == s@,
{
    let mut r: Vec<char> = Vec::new();
    for c in it: s.chars()
        invariant
            it.seq() == s@,
            r@ == it.seq().take(it.index() as int),
    {
        r.push(c);
    }
    r
}

/// Appends one character to a `String` (`String::push`).
#[verifier::external_body]
pub(crate) fn push_char(s: &mut String, c: char)
    ensures
        final(s)@ == old(s)@.push(c),
{
    s.push(c);
}

/// A `String` holding the given characters.
pub fn chars_to_string(v: &Vec<char>) -> (s: String)
    ensures
        s@ == v@,
{
    let mut s = String::new();
    let mut i: usize = 0;
    while i < v.len()
        invariant
            i <= v.len(),
            s@ == v@.take(i as int),
        decreases v.len() - i,
    {
        push_char(&mut s, v[i]);
        i = i + 1;
        assert(v@.take(i as int) == v@.take((i - 1) as int).push(v@[i - 1]));
    }
    assert(v@.take(v.len() as int) == v@);
    s
}

/// Whether two character vectors hold the same characters.
pub fn chars_eq(a: &Vec<char>, b: &Vec<char>) -> (r: bool)
    ensures
        r == (a@ == b@),
{
    if a.len() != b.len() {
        return false;
    }
    let mut i: usize = 0;
    while i < a.len()
        invariant
            a.len() == b.len(),
            i <= a.len(),
            forall|j: int| 0 <= j < i ==> a@[j] == b@[j],
        decreases a.len() - i,
    {
        if a[i] != b[i] {
            return false;
        }
        i = i + 1;
    }
    assert(a@ =~= b@);
    true
}

/// Whether a string holds the given characters.
pub fn str_eq_chars(s: &str, b: &Vec<char>) -> (r: bool)
    ensures
        r == (s@ == b@),
{
    let a = str_chars(s);
    chars_eq(&a, b)
}

/// `s` with leading and trailing white space removed.
pub fn trim_chars(s: &Vec<char>) -> (r: Vec<char>)
    ensures
        r@ == trim_spec(s@),
{
    let mut lo: usize = 0;
    let mut hi: usize = s.len();
    assert(s@.subrange(0, s.len() as int) =~= s@);
    while lo < hi && is_whitespace(s[lo])
        invariant
            lo <= hi <= s.len(),
            hi == s.len(),
            trim_spec(s@.subrange(lo as int, hi as int)) == trim_spec(s@),
        decreases hi - lo,
    {
        assert(s@.subrange(lo as int, hi as int).drop_first() =~= s@.subrange(
            lo + 1,
            hi as int,
        ));
        lo = lo + 1;
    }
    while lo < hi && is_whitespace(s[hi - 1])
        invariant
            lo <= hi <= s.len(),
            lo < hi ==> !is_white_space(s@[lo as int]),
            trim_spec(s@.subrange(lo as int, hi as int)) == trim_spec(s@),
        decreases hi - lo,
    {
        let ghost sub = s@.subrange(lo as int, hi as int);
        assert(sub.drop_last() =~= s@.subrange(lo as int, hi - 1));
        if lo + 1 == hi {
            assert(is_white_space(sub[0]));
        }
        hi = hi - 1;
    }
    let ghost sub = s@.subrange(lo as int, hi as int);
    if lo < hi {
        assert(!is_white_space(sub[0]));
        assert(!is_white_space(sub.last()));
    }
    let mut r: Vec<char> = Vec::new();
    let mut i: usize = lo;
    while i < hi
        invariant
            lo <= i <= hi <= s.len(),
            r@ == s@.subrange(lo as int, i as int),
        decreases hi - i,
    {
        r.push(s[i]);
        i = i + 1;
    }
    r
}

/// Byte length of the UTF-8 encoding of the characters.
pub fn utf8_len_of(s: &Vec<char>) -> (n: usize)
    requires
        utf8_len(s@) <= usize::MAX,
    ensures
        n == utf8_len(s@),
{
    let mut n: usize = 0;
    let mut i: usize = 0;
    while i < s.len()
        invariant
            i <= s.len(),
            n == utf8_len(s@.take(i as int)),
            utf8_len(s@) <= usize::MAX,
        decreases s.len() - i,
    {
        let c = s[i];
        proof {
            assert(s@.take((i + 1) as int).drop_last() =~= s@.take(i as int));
            lemma_utf8_len_prefix(s@, (i + 1) as int);
        }
        let u = c as u32;
        let w: usize = if u < 0x80 {
            1
        } else if u < 0x800 {
            2
        } else if u < 0x10000 {
            3
        } else {
            4
        };
        n = n + w;
        i = i + 1;
    }
    assert(s@.take(s.len() as int) =~= s@);
    n
}

pub proof fn lemma_utf8_len_prefix(s: Seq<char>, k: int)
    requires
        0 <= k <= s.len(),
    ensures
        utf8_len(s.take(k)) <= utf8_len(s),
    decreases s.len(),
{
    if k < s.len() {
        assert(s.drop_last().take(k) =~= s.take(k));
        lemma_utf8_len_prefix(s.drop_last(), k);
    } else {
        assert(s.take(k) =~= s);
    }
}

/// The character sequences held by a vector of character vectors.
pub open spec fn views(v: Seq<Vec<char>>) -> Seq<Seq<char>> {
    v.map_values(|x: Vec<char>| x@)
}

/// The pieces of `s` between occurrences of `sep`.
pub fn split_chars(s: &Vec<char>, sep: char) -> (r: Vec<Vec<char>>)
    ensures
        views(r@) == split_spec(s@, sep),
{
    let mut done: Vec<Vec<char>> = Vec::new();
    let mut cur: Vec<char> = Vec::new();
    let mut i: usize = 0;
    while i < s.len()
        invariant
            i <= s.len(),
            views(done@).push(cur@) == split_spec(s@.take(i as int), sep),
        decreases s.len() - i,
    {
        let c = s[i];
        proof {
            assert(s@.take((i + 1) as int).drop_last() =~= s@.take(i as int));
            lemma_split_nonempty(s@.take(i as int), sep);
        }
        assert(s@.take((i + 1) as int).last() == c);
        if c == sep {
            let ghost old_done = views(done@);
            let ghost old_cur = cur@;
            let finished = cur;
            done.push(finished);
            assert(views(done@) =~= old_done.push(old_cur));
            cur = Vec::new();
            assert(views(done@).push(cur@) =~= split_spec(s@.take((i + 1) as int), sep));
        } else {
            let ghost before = views(done@).push(cur@);
            cur.push(c);
            assert(views(done@).push(cur@) =~= before.update(
                before.len() - 1,
                before.last().push(c),
            ));
        }
        i = i + 1;
    }
    assert(s@.take(s.len() as int) =~= s@);
    let ghost old_done = views(done@);
    let ghost old_cur = cur@;
    done.push(cur);
    assert(views(done@) =~= old_done.push(old_cur));
    done
}

/// The tokens of `s` separated by runs of white space, as `str::split_whitespace` yields them.
pub open spec fn ws_tokens(s: Seq<char>) -> Seq<Seq<char>>
    decreases s.len(),
{
    if s.len() == 0 {
        Seq::empty()
    } else {
        let prev = ws_tokens(s.drop_last());
        if is_white_space(s.last()) {
            prev
        } else if s.len() >= 2 && !is_white_space(s[s.len() - 2]) && prev.len() > 0 {
            prev.update(prev.len() - 1, prev.last().push(s.last()))
        } else {
            prev.push(seq![s.last()])
        }
    }
}

/// The white-space separated tokens of `s` (`str::split_whitespace`).
pub fn split_whitespace_chars(s: &Vec<char>) -> (r: Vec<Vec<char>>)
    ensures
        views(r@) == ws_tokens(s@),
{
    let mut toks: Vec<Vec<char>> = Vec::new();
    let mut i: usize = 0;
    while i < s.len()
        invariant
            i <= s.len(),
            views(toks@) == ws_tokens(s@.take(i as int)),
        decreases s.len() - i,
    {
        let c = s[i];
        proof {
            assert(s@.take((i + 1) as int).drop_last() =~= s@.take(i as int));
            assert(s@.take((i + 1) as int).last() == c);
        }
        if is_whitespace(c) {
        } else if i >= 1 && !is_whitespace(s[i - 1]) && toks.len() > 0 {
            assert(s@.take((i + 1) as int)[i - 1] == s@[i - 1]);
            let ghost before = views(toks@);
            let last_idx = toks.len() - 1;
            let mut last = toks.remove(last_idx);
            last.push(c);
            toks.push(last);
            assert(views(toks@) =~= before.update(before.len() - 1, before.last().push(c)));
        } else {
            if i >= 1 {
                assert(s@.take((i + 1) as int)[i - 1] == s@[i - 1]);
            }
            let ghost before = views(toks@);
            let mut t: Vec<char> = Vec::new();
            t.push(c);
            toks.push(t);
            assert(views(toks@) =~= before.push(seq![c]));
        }
        i = i + 1;
    }
    assert(s@.take(s.len() as int) =~= s@);
    toks
}

/// The decimal digit `d` as a character.
pub open spec fn digit_char(d: nat) -> char {
    (48 + d) as char
}

/// The decimal notation of `n` (what `to_string` writes for an unsigned integer).
pub open spec fn decimal(n: nat) -> Seq<char>
    decreases n,
{
    if n < 10 {
        seq![digit_char(n)]
    } else {
        decimal(n / 10).push(digit_char(n % 10))
    }
}

/// The decimal notation of `n`.
pub fn decimal_of(n: u64) -> (r: Vec<char>)
    ensures
        r@ == decimal(n as nat),
    decreases n,
{
    let d = (n % 10) as u8;
    let c = (48u8 + d) as char;
    if n < 10 {
        vec![c]
    } else {
        let mut v = decimal_of(n / 10);
        v.push(c);
        v
    }
}

/// Appends the characters of `s` to `v`.
pub fn push_all(v: &mut Vec<char>, s: &Vec<char>)
    ensures
        final(v)@ == old(v)@ + s@,
{
    let mut i: usize = 0;
    let ghost start = v@;
    while i < s.len()
        invariant
            i <= s.len(),
            v@ == start + s@.take(i as int),
        decreases s.len() - i,
    {
        v.push(s[i]);
        i = i + 1;
        assert(s@.take(i as int) == s@.take((i - 1) as int).push(s@[i - 1]));
    }
    assert(s@.take(s.len() as int) =~= s@);
}


/// The value of a text of decimal digits.
pub open spec fn digits_value(s: Seq<char>) -> nat
    decreases s.len(),
{
    if s.len() == 0 {
        0
    } else {
        digits_value(s.drop_last()) * 10 + ((s.last() as u32) - 48) as nat
    }
}

pub open spec fn all_digits(s: Seq<char>) -> bool {
    forall|i: int| 0 <= i < s.len() ==> is_ascii_digit_spec(#[trigger] s[i])
}

/// What `str::parse::<u64>` gives: an optional `+` and at least one decimal digit,
/// with a value that fits in 64 bits; anything else is refused.
pub open spec fn u64_of_text(s: Seq<char>) -> Option<u64> {
    let d = if s.len() > 0 && s[0] == '+' {
        s.drop_first()
    } else {
        s
    };
    if d.len() > 0 && all_digits(d) && digits_value(d) <= u64::MAX {
        Some(digits_value(d) as u64)
    } else {
        None
    }
}

/// Parses an unsigned decimal number, as `str::parse::<u64>` does.
pub fn parse_u64(s: &Vec<char>) -> (r: Option<u64>)
    ensures
        r == u64_of_text(s@),
{
    let start: usize = if s.len() > 0 && s[0] == '+' {
        1
    } else {
        0
    };
    let ghost d = if s@.len() > 0 && s@[0] == '+' {
        s@.drop_first()
    } else {
        s@
    };
    assert(d =~= s@.subrange(start as int, s@.len() as int));
    if start >= s.len() {
        return None;
    }
    let mut v: u64 = 0;
    let mut i: usize = start;
    while i < s.len()
        invariant
            start <= i <= s.len(),
            d =~= s@.subrange(start as int, s@.len() as int),
            d == (if s@.len() > 0 && s@[0] == '+' {
                s@.drop_first()
            } else {
                s@
            }),
            all_digits(s@.subrange(start as int, i as int)),
            v == digits_value(s@.subrange(start as int, i as int)),
        decreases s.len() - i,
    {
        let c = s[i];
        let u = c as u32;
        assert(s@.subrange(start as int, (i + 1) as int).drop_last() =~= s@.subrange(start as int, i as int));
        if u < 48 || u > 57 {
            proof {
                assert(d[i - start] == c);
                assert(!is_ascii_digit_spec(d[i - start]));
                assert(!all_digits(d));
            }
            return None;
        }
        let dv = (u - 48) as u64;
        match v.checked_mul(10) {
            Some(m) => match m.checked_add(dv) {
                Some(n) => {
                    v = n;
                },
                None => {
                    proof {
                        assert(d.take((i + 1 - start) as int) =~= s@.subrange(start as int, (i + 1) as int));
                        assert(s@.subrange(start as int, (i + 1) as int).last() == c);
                        if all_digits(d) {
                            lemma_digits_value_prefix(d, (i + 1 - start) as int);
                        }
                    }
                    return None;
                },
            },
            None => {
                proof {
                    assert(d.take((i + 1 - start) as int) =~= s@.subrange(start as int, (i + 1) as int));
                    assert(s@.subrange(start as int, (i + 1) as int).last() == c);
                    if all_digits(d) {
                        lemma_digits_value_prefix(d, (i + 1 - start) as int);
                    }
                }
                return None;
            },
        }
        proof {
            assert(s@.subrange(start as int, (i + 1) as int).last() == c);
            assert(is_ascii_digit_spec(c));
            assert forall|j: int| 0 <= j < i + 1 - start implies is_ascii_digit_spec(
                #[trigger] s@.subrange(start as int, (i + 1) as int)[j],
            ) by {
                if j < i - start {
                    assert(s@.subrange(start as int, (i + 1) as int)[j] == s@.subrange(
                        start as int,
                        i as int,
                    )[j]);
                }
            }
        }
        i = i + 1;
    }
    assert(s@.subrange(start as int, s@.len() as int) =~= d);
    Some(v)
}

/// A prefix of a text of digits is worth no more than the whole text.
pub proof fn lemma_digits_value_prefix(s: Seq<char>, k: int)
    requires
        0 <= k <= s.len(),
        all_digits(s),
    ensures
        digits_value(s.take(k)) <= digits_value(s),
    decreases s.len(),
{
    if k < s.len() {
        assert(s.drop_last().take(k) =~= s.take(k));
        assert(all_digits(s.drop_last()));
        lemma_digits_value_prefix(s.drop_last(), k);
    } else {
        assert(s.take(k) =~= s);
    }
}

} // verus!
