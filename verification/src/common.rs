//! Generated passwords and the shortened display of SSH public keys.
use vstd::prelude::*;
use rand::seq::{IndexedRandom, SliceRandom};
use crate::password::{has_digit, has_lower, has_special, has_upper};
use crate::text::{
    is_ascii_digit_spec, is_ascii_lower_spec, is_ascii_punct_spec, is_ascii_upper_spec,
};
use crate::text::{chars_to_string, push_all, split_whitespace_chars, str_chars, utf8_len, utf8_len_of, ws_tokens};

verus! {

broadcast use vstd::string::group_string_axioms;

/// The `i`-th white-space separated token, or the empty text.
pub open spec fn token(s: Seq<char>, i: int) -> Seq<char> {
    if i < ws_tokens(s).len() {
        ws_tokens(s)[i]
    } else {
        Seq::empty()
    }
}

/// Some prefix of `s` takes exactly `b` bytes.
pub open spec fn has_byte_boundary(s: Seq<char>, b: nat) -> bool {
    exists|k: int| 0 <= k <= s.len() && utf8_len(#[trigger] s.take(k)) == b
}

/// The number of characters of the prefix of `s` that takes `b` bytes.
pub open spec fn chars_before_byte(s: Seq<char>, b: nat) -> int {
    choose|k: int| 0 <= k <= s.len() && utf8_len(#[trigger] s.take(k)) == b
}

/// A key line can be shortened without cutting a character: when its key data is
/// longer than 24 bytes, its first 8 and last 16 bytes are whole characters (and,
/// as for any text in memory, its byte length fits `usize`).
pub open spec fn shortenable(input: Seq<char>) -> bool {
    let data = token(input, 1);
    &&& utf8_len(data) <= usize::MAX
    &&& utf8_len(data) > 24 ==> has_byte_boundary(data, 8) && has_byte_boundary(data, (utf8_len(data) - 16) as nat)
}

/// A key line `type data comment` with the key data cut to its first 8 and last 16
/// bytes around `...`; the line itself when the data has at most 24 bytes.
pub open spec fn shortened(input: Seq<char>) -> Seq<char> {
    let data = token(input, 1);
    if utf8_len(data) <= 24 {
        input
    } else {
        let head = data.take(chars_before_byte(data, 8));
        let tail = data.skip(chars_before_byte(data, (utf8_len(data) - 16) as nat));
        let core = token(input, 0) + seq![' '] + head + seq!['.', '.', '.'] + tail;
        if ws_tokens(input).len() > 2 {
            core + seq![' '] + ws_tokens(input)[2]
        } else {
            core
        }
    }
}

proof fn lemma_utf8_len_strict(s: Seq<char>, j: int, k: int)
    requires
        0 <= j < k <= s.len(),
    ensures
        utf8_len(s.take(j)) < utf8_len(s.take(k)),
    decreases k - j,
{
    assert(s.take(k).drop_last() =~= s.take(k - 1));
    if j < k - 1 {
        lemma_utf8_len_strict(s, j, k - 1);
    }
}

/// The number of characters of the prefix of `s` that takes `b` bytes.
fn find_byte_boundary(s: &Vec<char>, b: usize) -> (k: usize)
    requires
        has_byte_boundary(s@, b as nat),
    ensures
        k == chars_before_byte(s@, b as nat),
        0 <= k <= s.len(),
        utf8_len(s@.take(k as int)) == b,
{
    let mut n: usize = 0;
    let mut i: usize = 0;
    let ghost kk = chars_before_byte(s@, b as nat);
    while n < b
        invariant
            0 <= i <= s.len(),
            n == utf8_len(s@.take(i as int)),
            0 <= kk <= s.len(),
            utf8_len(s@.take(kk)) == b,
            i <= kk,
        decreases b - n,
    {
        proof {
            assert(i < kk);
            lemma_utf8_len_strict(s@, i as int, kk);
            assert(s@.take((i + 1) as int).drop_last() =~= s@.take(i as int));
            if i + 1 < kk {
                lemma_utf8_len_strict(s@, (i + 1) as int, kk);
            }
        }
        let u = s[i] as u32;
        let w: usize = if u < 0x80 {
            1
        } else if u < 0x800 {
            2
        } else if u < 0x10000 {
            3
        } else {
            4
        };
        n = n + w;
        i = i + 1;
    }
    proof {
        if i < kk {
            lemma_utf8_len_strict(s@, i as int, kk);
        }
    }
    i
}

/// Shortens an OpenSSH public key line for display: `type head...tail comment`.
pub fn shorten_ssh_pubkey(input: &str) -> (r: String)
    requires
        shortenable(input@),
    ensures
        r@ == shortened(input@),
{
    let chars = str_chars(input);
    let toks = split_whitespace_chars(&chars);
    let key_type = if toks.len() > 0 {
        toks[0].clone()
    } else {
        Vec::new()
    };
    let key_data = if toks.len() > 1 {
        toks[1].clone()
    } else {
        Vec::new()
    };
    assert(key_data@ == token(input@, 1));
    assert(key_type@ == token(input@, 0));
    let mut n: usize = 0;
    let mut i: usize = 0;
    while i < key_data.len() && n <= 24
        invariant
            i <= key_data.len(),
            n == utf8_len(key_data@.take(i as int)),
        decreases key_data.len() - i,
    {
        assert(key_data@.take((i + 1) as int).drop_last() =~= key_data@.take(i as int));
        let u = key_data[i] as u32;
        let w: usize = if u < 0x80 {
            1
        } else if u < 0x800 {
            2
        } else if u < 0x10000 {
            3
        } else {
            4
        };
        n = n + w;
        i = i + 1;
    }
    if i == key_data.len() && n <= 24 {
        assert(key_data@.take(i as int) =~= key_data@);
        return chars_to_string(&chars);
    }
    proof {
        crate::text::lemma_utf8_len_prefix(key_data@, i as int);
    }
    let total = utf8_len_of(&key_data);
    let h = find_byte_boundary(&key_data, 8);
    let t = find_byte_boundary(&key_data, total - 16);
    let mut out = key_type;
    out.push(' ');
    let mut j: usize = 0;
    let ghost start = out@;
    while j < h
        invariant
            j <= h <= key_data.len(),
            out@ == start + key_data@.take(j as int),
        decreases h - j,
    {
        out.push(key_data[j]);
        j = j + 1;
        assert(key_data@.take(j as int) == key_data@.take((j - 1) as int).push(key_data@[j - 1]));
    }
    out.push('.');
    out.push('.');
    out.push('.');
    let mut j: usize = t;
    let ghost start2 = out@;
    while j < key_data.len()
        invariant
            t <= j <= key_data.len(),
            out@ == start2 + key_data@.subrange(t as int, j as int),
        decreases key_data.len() - j,
    {
        out.push(key_data[j]);
        j = j + 1;
        assert(key_data@.subrange(t as int, j as int) == key_data@.subrange(t as int, (j - 1) as int).push(key_data@[j - 1]));
    }
    assert(key_data@.subrange(t as int, key_data.len() as int) =~= key_data@.skip(t as int));
    if toks.len() > 2 {
        out.push(' ');
        push_all(&mut out, &toks[2]);
    }
    assert(out@ =~= shortened(input@));
    chars_to_string(&out)
}

// ---------------------------------------------------------------------------
// Generated passwords
// ---------------------------------------------------------------------------

/// A character picked at random from `pool` (`IndexedRandom::choose`). Claimed of
/// every outcome: it is one of the pool's characters.
#[verifier::external_body]
fn choose_char(pool: &Vec<char>) -> (c: char)
    requires
        pool.len() > 0,
    ensures
        pool@.contains(c),
{
    *pool.choose(&mut rand::rng()).unwrap()
}

/// `SliceRandom::shuffle`. Claimed of every outcome: the same characters, reordered.
#[verifier::external_body]
fn shuffle_chars(v: &mut Vec<char>)
    ensures
        final(v)@.to_multiset() == old(v)@.to_multiset(),
{
    v.shuffle(&mut rand::rng());
}

proof fn lemma_push_contains(s: Seq<char>, x: char)
    ensures
        forall|c: char| #[trigger] s.push(x).contains(c) <==> (s.contains(c) || c == x),
{
    assert forall|c: char| #[trigger] s.push(x).contains(c) <==> (s.contains(c) || c == x) by {
        if s.push(x).contains(c) && c != x {
            let i = choose|i: int| 0 <= i < s.push(x).len() && s.push(x)[i] == c;
            assert(s[i] == c);
        }
        if s.contains(c) {
            let i = choose|i: int| 0 <= i < s.len() && s[i] == c;
            assert(s.push(x)[i] == c);
        }
        if c == x {
            assert(s.push(x)[s.len() as int] == c);
        }
    }
}

pub open spec fn symbols() -> Seq<char> {
    seq!['!', '@', '#', '$', '%', '^', '&', '*', '-', '_', '+', '=', '<', '>', '?']
}

/// The characters a generated password is drawn from.
pub open spec fn in_pool(c: char) -> bool {
    is_ascii_upper_spec(c) || is_ascii_lower_spec(c) || is_ascii_digit_spec(c) || symbols().contains(c)
}

fn char_range(lo: u8, hi: u8) -> (v: Vec<char>)
    requires
        lo <= hi < 128,
    ensures
        v.len() > 0,
        forall|c: char| v@.contains(c) <==> lo <= (c as u32) && (c as u32) <= hi,
{
    let mut v: Vec<char> = Vec::new();
    let mut u: u8 = lo;
    while u <= hi
        invariant
            lo <= u <= hi + 1,
            hi < 128,
            v.len() == u - lo,
            forall|i: int| 0 <= i < v.len() ==> (#[trigger] v@[i] as u32) == lo + i,
        decreases hi + 1 - u,
    {
        let c = u as char;
        v.push(c);
        u = u + 1;
    }
    proof {
        assert forall|c: char| v@.contains(c) <==> lo <= (c as u32) && (c as u32) <= hi by {
            if lo <= (c as u32) && (c as u32) <= hi {
                let i: int = (c as u32) - lo;
                assert(v@[i] as u32 == c as u32);
                vstd::utf8::char_u32_cast(c, c as u32);
                vstd::utf8::char_u32_cast(v@[i], v@[i] as u32);
                assert(v@[i] == c);
            }
        }
    }
    v
}

/// A random password of `len` characters (at least 4): one uppercase letter, one
/// lowercase letter, one digit and one symbol of `!@#$%^&*-_+=<>?`, the rest drawn
/// from all of these, in random order.
pub fn gen_password(len: usize) -> (r: String)
    ensures
        r@.len() == if len < 4 {
            4
        } else {
            len
        },
        has_upper(r@),
        has_lower(r@),
        has_digit(r@),
        exists|i: int| 0 <= i < r@.len() && symbols().contains(#[trigger] r@[i]),
        forall|i: int| 0 <= i < r@.len() ==> in_pool(#[trigger] r@[i]),
{
    broadcast use vstd::seq_lib::group_to_multiset_ensures;

    let upper = char_range(65, 90);
    let lower = char_range(97, 122);
    let digit = char_range(48, 57);
    let symbol = vec!['!', '@', '#', '$', '%', '^', '&', '*', '-', '_', '+', '=', '<', '>', '?'];
    assert(symbol@ == symbols());
    let mut pwd: Vec<char> = Vec::new();
    let c0 = choose_char(&upper);
    pwd.push(c0);
    let c1 = choose_char(&lower);
    pwd.push(c1);
    let c2 = choose_char(&digit);
    pwd.push(c2);
    let c3 = choose_char(&symbol);
    pwd.push(c3);
    let mut pool: Vec<char> = Vec::new();
    let mut i: usize = 0;
    while i < upper.len()
        invariant
            i <= upper.len(),
            pool.len() == i,
            forall|c: char| pool@.contains(c) ==> in_pool(c),
            forall|c: char| upper@.contains(c) <==> 65 <= (c as u32) && (c as u32) <= 90,
        decreases upper.len() - i,
    {
        assert(upper@.contains(upper@[i as int]));
        proof {
            lemma_push_contains(pool@, upper@[i as int]);
        }
        pool.push(upper[i]);
        i = i + 1;
    }
    let mut i: usize = 0;
    while i < lower.len()
        invariant
            i <= lower.len(),
            pool.len() > 0,
            forall|c: char| pool@.contains(c) ==> in_pool(c),
            forall|c: char| lower@.contains(c) <==> 97 <= (c as u32) && (c as u32) <= 122,
        decreases lower.len() - i,
    {
        assert(lower@.contains(lower@[i as int]));
        proof {
            lemma_push_contains(pool@, lower@[i as int]);
        }
        pool.push(lower[i]);
        i = i + 1;
    }
    let mut i: usize = 0;
    while i < digit.len()
        invariant
            i <= digit.len(),
            pool.len() > 0,
            forall|c: char| pool@.contains(c) ==> in_pool(c),
            forall|c: char| digit@.contains(c) <==> 48 <= (c as u32) && (c as u32) <= 57,
        decreases digit.len() - i,
    {
        assert(digit@.contains(digit@[i as int]));
        proof {
            lemma_push_contains(pool@, digit@[i as int]);
        }
        pool.push(digit[i]);
        i = i + 1;
    }
    let mut i: usize = 0;
    while i < symbol.len()
        invariant
            i <= symbol.len(),
            symbol@ == symbols(),
            pool.len() > 0,
            forall|c: char| pool@.contains(c) ==> in_pool(c),
        decreases symbol.len() - i,
    {
        assert(symbol@.contains(symbol@[i as int]));
        proof {
            lemma_push_contains(pool@, symbol@[i as int]);
        }
        pool.push(symbol[i]);
        i = i + 1;
    }
    let mut k: usize = 4;
    while k < len
        invariant
            4 <= k <= if len < 4 {
                4
            } else {
                len
            },
            pwd@.len() == k,
            pool.len() > 0,
            forall|c: char| pool@.contains(c) ==> in_pool(c),
            is_ascii_upper_spec(pwd@[0]),
            is_ascii_lower_spec(pwd@[1]),
            is_ascii_digit_spec(pwd@[2]),
            symbols().contains(pwd@[3]),
            forall|j: int| 0 <= j < pwd@.len() ==> in_pool(#[trigger] pwd@[j]),
        decreases len - k,
    {
        let c = choose_char(&pool);
        pwd.push(c);
        k = k + 1;
    }
    let ghost before = pwd@;
    shuffle_chars(&mut pwd);
    proof {
        assert(before.to_multiset().count(before[0]) > 0);
        assert(before.to_multiset().count(before[1]) > 0);
        assert(before.to_multiset().count(before[2]) > 0);
        assert(before.to_multiset().count(before[3]) > 0);
        assert(pwd@.to_multiset().count(before[0]) > 0);
        assert(pwd@.to_multiset().count(before[1]) > 0);
        assert(pwd@.to_multiset().count(before[2]) > 0);
        assert(pwd@.to_multiset().count(before[3]) > 0);
        assert(before.contains(before[0]));
        assert(before.contains(before[1]));
        assert(before.contains(before[2]));
        assert(before.contains(before[3]));
        assert(pwd@.contains(before[0]));
        assert(pwd@.contains(before[1]));
        assert(pwd@.contains(before[2]));
        assert(pwd@.contains(before[3]));
        assert(pwd@.len() == before.len()) by {
            assert(pwd@.to_multiset().len() == before.to_multiset().len());
        }
        assert forall|j: int| 0 <= j < pwd@.len() implies in_pool(#[trigger] pwd@[j]) by {
            assert(pwd@.contains(pwd@[j]));
            assert(pwd@.to_multiset().count(pwd@[j]) > 0);
            assert(before.contains(pwd@[j]));
        }
    }
    chars_to_string(&pwd)
}

/// A generated password holds every character class that the rules ask for.
pub proof fn law_generated_password_classes(s: Seq<char>)
    requires
        has_upper(s),
        has_lower(s),
        has_digit(s),
        exists|i: int| 0 <= i < s.len() && symbols().contains(#[trigger] s[i]),
    ensures
        has_special(s),
{
    let i = choose|i: int| 0 <= i < s.len() && symbols().contains(#[trigger] s[i]);
    let c = s[i];
    let k = choose|k: int| 0 <= k < symbols().len() && symbols()[k] == c;
    assert(is_ascii_punct_spec(s[i]));
}

} // verus!
