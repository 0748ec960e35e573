//! Character-level text utilities shared by the handlers: case folding for
//! the alias lookup, whitespace trimming and blankness tests.

use vstd::prelude::*;
use vstd::string::StrSliceExecFns;

verus! {

/// Lower-casing of one character, as the alias lookup applies it: the ASCII
/// letters `'A'..='Z'` fold to their lower case, and the Kelvin sign
/// (U+212A), the one other character whose Unicode lower case is a single
/// ASCII letter, folds to `k`; every other character is left alone.
pub open spec fn lower_char(c: char) -> char {
    if 65 <= c as u32 && c as u32 <= 90 {
        ((c as u32 + 32) as u8) as char
    } else if c as u32 == 0x212A {
        'k'
    } else {
        c
    }
}

/// Lower-casing of a character sequence.
pub open spec fn lower(s: Seq<char>) -> Seq<char> {
    Seq::new(s.len(), |i: int| lower_char(s[i]))
}

fn lower_char_exec(c: char) -> (r: char)
    ensures
        r == lower_char(c),
{
    let u = c as u32;
    if 65 <= u && u <= 90 {
        ((u + 32) as u8) as char
    } else if u == 0x212A {
        'k'
    } else {
        c
    }
}

/// True exactly when the lower-cased form of `s` equals `t` as given.
pub fn eq_lowered(s: &str, t: &str) -> (r: bool)
    ensures
        r == (lower(s@) == t@),
{
    let n = s.unicode_len();
    if n != t.unicode_len() {
        assert(lower(s@).len() != t@.len());
        return false;
    }
    let mut i: usize = 0;
    while i < n
        invariant
            i <= n,
            n == s@.len(),
            n == t@.len(),
            forall|j: int| 0 <= j < i ==> lower(s@)[j] == t@[j],
        decreases n - i,
    {
        let c = lower_char_exec(s.get_char(i));
        let d = t.get_char(i);
        if c != d {
            assert(lower(s@)[i as int] != t@[i as int]);
            return false;
        }
        i += 1;
    }
    assert(lower(s@) =~= t@);
    true
}

/// One character of whitespace: Unicode's White_Space set, exactly what
/// `char::is_whitespace` recognizes.
pub open spec fn is_ws(c: char) -> bool {
    let u = c as u32;
    (9 <= u && u <= 13) || u == 32 || u == 0x85 || u == 0xA0 || u == 0x1680 || (0x2000 <= u && u
        <= 0x200A) || u == 0x2028 || u == 0x2029 || u == 0x202F || u == 0x205F || u == 0x3000
}

fn is_ws_exec(c: char) -> (r: bool)
    ensures
        r == is_ws(c),
{
    let u = c as u32;
    (9 <= u && u <= 13) || u == 32 || u == 0x85 || u == 0xA0 || u == 0x1680 || (0x2000 <= u && u
        <= 0x200A) || u == 0x2028 || u == 0x2029 || u == 0x202F || u == 0x205F || u == 0x3000
}

/// True when every character of `s` is whitespace; in particular true of the
/// empty sequence.
pub open spec fn is_blank(s: Seq<char>) -> bool {
    forall|i: int| 0 <= i < s.len() ==> is_ws(s[i])
}

/// Whether a string trims down to nothing.
pub fn blank(s: &str) -> (r: bool)
    ensures
        r == is_blank(s@),
{
    let n = s.unicode_len();
    let mut i: usize = 0;
    while i < n
        invariant
            i <= n,
            n == s@.len(),
            forall|j: int| 0 <= j < i ==> is_ws(s@[j]),
        decreases n - i,
    {
        if !is_ws_exec(s.get_char(i)) {
            return false;
        }
        i += 1;
    }
    true
}

/// `s` without its leading whitespace.
pub open spec fn ltrim(s: Seq<char>) -> Seq<char>
    decreases s.len(),
{
    if s.len() > 0 && is_ws(s[0]) {
        ltrim(s.drop_first())
    } else {
        s
    }
}

/// `s` without its trailing whitespace.
pub open spec fn rtrim(s: Seq<char>) -> Seq<char>
    decreases s.len(),
{
    if s.len() > 0 && is_ws(s[s.len() - 1]) {
        rtrim(s.drop_last())
    } else {
        s
    }
}

/// `s` without leading and trailing whitespace.
pub open spec fn trimmed(s: Seq<char>) -> Seq<char> {
    rtrim(ltrim(s))
}

proof fn lemma_ltrim_skip(s: Seq<char>, i: int)
    requires
        0 <= i <= s.len(),
        forall|j: int| 0 <= j < i ==> is_ws(s[j]),
        i == s.len() || !is_ws(s[i]),
    ensures
        ltrim(s) == s.skip(i),
    decreases i,
{
    if i == 0 {
        assert(s.skip(0) =~= s);
    } else {
        assert(s.drop_first() =~= s.skip(1));
        lemma_ltrim_skip(s.skip(1), i - 1);
        assert(s.skip(1).skip(i - 1) =~= s.skip(i));
    }
}

proof fn lemma_rtrim_take(s: Seq<char>, j: int)
    requires
        0 <= j <= s.len(),
        forall|k: int| j <= k < s.len() ==> is_ws(s[k]),
        j == 0 || !is_ws(s[j - 1]),
    ensures
        rtrim(s) == s.take(j),
    decreases s.len() - j,
{
    if j == s.len() {
        assert(s.take(j) =~= s);
    } else {
        assert(s.drop_last() =~= s.take(s.len() - 1));
        lemma_rtrim_take(s.take(s.len() - 1), j);
        assert(s.take(s.len() - 1).take(j) =~= s.take(j));
    }
}

/// Whitespace trimming; returns the sub-slice of `s` that remains once
/// leading and trailing whitespace is dropped.
pub fn trim(s: &str) -> (r: &str)
    ensures
        r@ == trimmed(s@),
{
    let n = s.unicode_len();
    let mut i: usize = 0;
    while i < n
        invariant
            i <= n,
            n == s@.len(),
            forall|j: int| 0 <= j < i ==> is_ws(s@[j]),
        ensures
            i <= n,
            forall|j: int| 0 <= j < i ==> is_ws(s@[j]),
            i == n || !is_ws(s@[i as int]),
        decreases n - i,
    {
        if !is_ws_exec(s.get_char(i)) {
            break;
        }
        i += 1;
    }
    proof {
        lemma_ltrim_skip(s@, i as int);
    }
    let mut j: usize = n;
    while j > i
        invariant
            i <= j <= n,
            n == s@.len(),
            forall|k: int| j <= k < n ==> is_ws(s@[k]),
        ensures
            i <= j <= n,
            forall|k: int| j <= k < n ==> is_ws(s@[k]),
            j == i || !is_ws(s@[j - 1]),
        decreases j,
    {
        if !is_ws_exec(s.get_char(j - 1)) {
            break;
        }
        j -= 1;
    }
    proof {
        let rest = s@.skip(i as int);
        assert(forall|k: int| j - i <= k < rest.len() ==> is_ws(#[trigger] rest[k]));
        lemma_rtrim_take(rest, j - i);
        assert(rest.take(j - i) =~= s@.subrange(i as int, j as int));
    }
    s.substring_char(i, j)
}

} // verus!
