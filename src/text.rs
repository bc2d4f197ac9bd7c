use vstd::prelude::*;

verus! {

/// A class of characters that trimming removes from both ends of a string.
#[derive(Clone, Copy, Debug)]
pub enum Strip {
    /// Characters with the Unicode `White_Space` property, as `str::trim` removes.
    Space,
    /// One given character, as `str::trim_matches(c)` removes.
    Char(char),
}

/// The Unicode `White_Space` property (what `char::is_whitespace` tests).
pub open spec fn is_space(c: char) -> bool {
    let u = c as u32;
    (0x9 <= u && u <= 0xd) || u == 0x20 || u == 0x85 || u == 0xa0 || u == 0x1680 || (0x2000 <= u
        && u <= 0x200a) || u == 0x2028 || u == 0x2029 || u == 0x202f || u == 0x205f || u == 0x3000
}

pub open spec fn in_class(c: char, k: Strip) -> bool {
    match k {
        Strip::Space => is_space(c),
        Strip::Char(x) => c == x,
    }
}

/// `s` without its longest prefix of characters in class `k`.
pub open spec fn strip_start(s: Seq<char>, k: Strip) -> Seq<char>
    decreases s.len(),
{
    if s.len() > 0 && in_class(s[0], k) {
        strip_start(s.drop_first(), k)
    } else {
        s
    }
}

/// `s` without its longest suffix of characters in class `k`.
pub open spec fn strip_end(s: Seq<char>, k: Strip) -> Seq<char>
    decreases s.len(),
{
    if s.len() > 0 && in_class(s.last(), k) {
        strip_end(s.drop_last(), k)
    } else {
        s
    }
}

/// `s` with every leading and trailing character of class `k` removed.
pub open spec fn trimmed(s: Seq<char>, k: Strip) -> Seq<char> {
    strip_end(strip_start(s, k), k)
}

/// `s` without one surrounding layer of double quotes: a leading `"` and a
/// trailing `"`, each removed when present.
pub open spec fn unquoted(s: Seq<char>) -> Seq<char> {
    let a = if s.len() > 0 && s[0] == '"' {
        s.drop_first()
    } else {
        s
    };
    if a.len() > 0 && a.last() == '"' {
        a.drop_last()
    } else {
        a
    }
}

/// A documentation string with its surrounding whitespace and periods, one
/// layer of quotes, and the periods then at either end removed.
pub open spec fn doc_core(s: Seq<char>) -> Seq<char> {
    trimmed(unquoted(trimmed(trimmed(s, Strip::Space), Strip::Char('.'))), Strip::Char('.'))
}

/// A documentation string as it is emitted: its core followed by one period.
pub open spec fn normalized(s: Seq<char>) -> Seq<char> {
    doc_core(s).push('.')
}

/// A string that has no character of class `k` at either end.
pub open spec fn clean_ends(s: Seq<char>, k: Strip) -> bool {
    s.len() > 0 ==> !in_class(s[0], k) && !in_class(s.last(), k)
}

/// The shape of a normalized documentation string: a core with no whitespace,
/// period or quote at either end, followed by exactly one period.
pub open spec fn is_normalized(s: Seq<char>) -> bool {
    let core = s.drop_last();
    &&& s.len() > 0
    &&& s.last() == '.'
    &&& clean_ends(core, Strip::Space)
    &&& clean_ends(core, Strip::Char('.'))
    &&& clean_ends(core, Strip::Char('"'))
}

proof fn lemma_clean_ends_trimmed(t: Seq<char>, k: Strip)
    requires
        clean_ends(t, k),
    ensures
        trimmed(t, k) == t,
{
    reveal_with_fuel(strip_start, 2);
    reveal_with_fuel(strip_end, 2);
}

/// Normalization is idempotent: a string already in normalized shape is
/// returned unchanged.
pub proof fn lemma_normalize_idempotent(s: Seq<char>)
    requires
        is_normalized(s),
    ensures
        normalized(s) == s,
{
    let core = s.drop_last();
    assert(s =~= core.push('.'));
    assert(!is_space('.'));
    lemma_clean_ends_trimmed(s, Strip::Space);
    reveal_with_fuel(strip_start, 2);
    reveal_with_fuel(strip_end, 2);
    if core.len() == 0 {
        assert(s.drop_first() =~= core);
    } else {
        assert(strip_start(s, Strip::Char('.')) == s);
    }
    assert(trimmed(s, Strip::Char('.')) == core);
    assert(unquoted(core) == core);
    lemma_clean_ends_trimmed(core, Strip::Char('.'));
}

pub fn is_space_char(c: char) -> (r: bool)
    ensures
        r == is_space(c),
{
    let u = c as u32;
    (0x9 <= u && u <= 0xd) || u == 0x20 || u == 0x85 || u == 0xa0 || u == 0x1680 || (0x2000 <= u
        && u <= 0x200a) || u == 0x2028 || u == 0x2029 || u == 0x202f || u == 0x205f || u == 0x3000
}

fn in_class_exec(c: char, k: Strip) -> (r: bool)
    ensures
        r == in_class(c, k),
{
    match k {
        Strip::Space => is_space_char(c),
        Strip::Char(x) => c == x,
    }
}

/// Removes every leading and trailing character of class `k`.
pub fn trim(s: &str, k: Strip) -> (r: String)
    ensures
        r@ == trimmed(s@, k),
{
    let n = s.unicode_len();
    let mut lo: usize = 0;
    assert(s@.subrange(0, n as int) =~= s@);
    while lo < n && in_class_exec(s.get_char(lo), k)
        invariant
            lo <= n,
            n == s@.len(),
            strip_start(s@, k) == strip_start(s@.subrange(lo as int, n as int), k),
        decreases n - lo,
    {
        assert(s@.subrange(lo as int, n as int).drop_first() =~= s@.subrange(
            lo + 1,
            n as int,
        ));
        lo = lo + 1;
    }
    assert(strip_start(s@, k) == s@.subrange(lo as int, n as int));
    let mut hi: usize = n;
    while hi > lo && in_class_exec(s.get_char(hi - 1), k)
        invariant
            lo <= hi <= n,
            n == s@.len(),
            trimmed(s@, k) == strip_end(s@.subrange(lo as int, hi as int), k),
        decreases hi,
    {
        assert(s@.subrange(lo as int, hi as int).drop_last() =~= s@.subrange(
            lo as int,
            hi - 1,
        ));
        hi = hi - 1;
    }
    String::from_str(s.substring_char(lo, hi))
}

/// Removes every trailing character of class `k`.
pub fn trim_end(s: &str, k: Strip) -> (r: String)
    ensures
        r@ == strip_end(s@, k),
{
    let n = s.unicode_len();
    let mut hi: usize = n;
    assert(s@.subrange(0, n as int) =~= s@);
    while hi > 0 && in_class_exec(s.get_char(hi - 1), k)
        invariant
            hi <= n,
            n == s@.len(),
            strip_end(s@, k) == strip_end(s@.subrange(0, hi as int), k),
        decreases hi,
    {
        assert(s@.subrange(0, hi as int).drop_last() =~= s@.subrange(0, hi - 1));
        hi = hi - 1;
    }
    String::from_str(s.substring_char(0, hi))
}

/// Removes one surrounding layer of double quotes: a leading and a trailing
/// `"`, each when present.
pub fn unquote(s: &str) -> (r: String)
    ensures
        r@ == unquoted(s@),
{
    let n = s.unicode_len();
    let lo: usize = if n > 0 && s.get_char(0) == '"' {
        1
    } else {
        0
    };
    let hi: usize = if n > lo && s.get_char(n - 1) == '"' {
        n - 1
    } else {
        n
    };
    let r = String::from_str(s.substring_char(lo, hi));
    proof {
        let a = if s@.len() > 0 && s@[0] == '"' {
            s@.drop_first()
        } else {
            s@
        };
        assert(a =~= s@.subrange(lo as int, n as int));
        assert(r@ =~= unquoted(s@));
    }
    r
}

/// Normalizes a documentation string: trims whitespace, then periods, then
/// one layer of quotes, then periods again, and ends the result with exactly one period.
pub fn normalize(s: &str) -> (r: String)
    ensures
        r@ == normalized(s@),
{
    let a = trim(s, Strip::Space);
    let b = trim(a.as_str(), Strip::Char('.'));
    let c = unquote(b.as_str());
    let mut d = trim(c.as_str(), Strip::Char('.'));
    d.append(".");
    proof {
        reveal_strlit(".");
        assert("."@ =~= seq!['.']);
    }
    d
}

} // verus!
