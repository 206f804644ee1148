use vstd::prelude::*;

verus! {

/// The characters with the Unicode `White_Space` property.
pub open spec fn is_space(c: char) -> bool {
    ('\u{9}' <= c && c <= '\u{d}') || c == ' ' || c == '\u{85}' || c == '\u{a0}'
        || c == '\u{1680}' || ('\u{2000}' <= c && c <= '\u{200a}') || c == '\u{2028}'
        || c == '\u{2029}' || c == '\u{202f}' || c == '\u{205f}' || c == '\u{3000}'
}

/// `s` without its leading white space.
pub open spec fn trim_start(s: Seq<char>) -> Seq<char>
    decreases s.len(),
{
    if s.len() > 0 && is_space(s[0]) {
        trim_start(s.drop_first())
    } else {
        s
    }
}

/// `s` without its trailing white space.
pub open spec fn trim_end(s: Seq<char>) -> Seq<char>
    decreases s.len(),
{
    if s.len() > 0 && is_space(s.last()) {
        trim_end(s.drop_last())
    } else {
        s
    }
}

/// `s` without white space at either end.
pub open spec fn trimmed(s: Seq<char>) -> Seq<char> {
    trim_end(trim_start(s))
}

/// The first character of each white-space-separated word of `s`, in order.
pub open spec fn initials(s: Seq<char>) -> Seq<char>
    decreases s.len(),
{
    if s.len() == 0 {
        Seq::empty()
    } else {
        let rest = initials(s.drop_last());
        if !is_space(s.last()) && (s.len() == 1 || is_space(s[s.len() - 2])) {
            rest.push(s.last())
        } else {
            rest
        }
    }
}

/// At most the first two characters of `s`.
pub open spec fn first_two(s: Seq<char>) -> Seq<char> {
    if s.len() <= 2 {
        s
    } else {
        s.subrange(0, 2)
    }
}

/// Whether `s` holds any white space.
pub open spec fn has_white_space(s: Seq<char>) -> bool {
    exists|i: int| 0 <= i < s.len() && is_space(#[trigger] s[i])
}

/// The avatar derived from a display name: the initials of the trimmed name when it
/// holds white space, else its first two characters.
pub open spec fn avatar_of(name: Seq<char>) -> Seq<char> {
    let t = trimmed(name);
    if has_white_space(t) {
        initials(t)
    } else {
        first_two(t)
    }
}

/// Whether `c` is a `White_Space` character.
fn char_is_space(c: char) -> (r: bool)
    ensures
        r == is_space(c),
{
    ('\u{9}' <= c && c <= '\u{d}') || c == ' ' || c == '\u{85}' || c == '\u{a0}' || c
        == '\u{1680}' || ('\u{2000}' <= c && c <= '\u{200a}') || c == '\u{2028}' || c
        == '\u{2029}' || c == '\u{202f}' || c == '\u{205f}' || c == '\u{3000}'
}

/// Relies on `str::chars`, collected: the characters of `s` in order.
#[verifier::external_body]
pub(crate) fn chars_of(s: &str) -> (r: Vec<char>)
    ensures
        r@ == s@,
{
    s.chars().collect()
}

/// Relies on `String`'s `FromIterator<&char>`: the string of the given characters.
#[verifier::external_body]
fn string_of(v: &Vec<char>) -> (r: String)
    ensures
        r@ == v@,
{
    v.iter().collect()
}

/// The number of characters of `s`.
pub fn char_count(s: &str) -> (r: usize)
    ensures
        r == s@.len(),
{
    chars_of(s).len()
}

proof fn lemma_initials_step(s: Seq<char>, i: int)
    requires
        0 <= i < s.len(),
    ensures
        initials(s.subrange(0, i + 1)) == if !is_space(s[i]) && (i == 0 || is_space(s[i - 1])) {
            initials(s.subrange(0, i)).push(s[i])
        } else {
            initials(s.subrange(0, i))
        },
{
    let p = s.subrange(0, i + 1);
    assert(p.drop_last() =~= s.subrange(0, i));
}

/// Derives the avatar of a display name.
pub fn process_avatar(input: &str) -> (r: String)
    ensures
        r@ == avatar_of(input@),
{
    let s = chars_of(input);
    let n = s.len();
    let mut lo: usize = 0;
    proof {
        assert(s@.subrange(0, n as int) =~= s@);
    }
    while lo < n && char_is_space(s[lo])
        invariant
            n == s@.len(),
            lo <= n,
            trim_start(s@) == trim_start(s@.subrange(lo as int, n as int)),
        decreases n - lo,
    {
        proof {
            let sub = s@.subrange(lo as int, n as int);
            assert(sub.drop_first() =~= s@.subrange(lo + 1, n as int));
        }
        lo = lo + 1;
    }
    let mut hi: usize = n;
    while hi > lo && char_is_space(s[hi - 1])
        invariant
            n == s@.len(),
            lo <= hi <= n,
            trim_start(s@) == s@.subrange(lo as int, n as int),
            trimmed(s@) == trim_end(s@.subrange(lo as int, hi as int)),
        decreases hi - lo,
    {
        proof {
            let sub = s@.subrange(lo as int, hi as int);
            assert(sub.drop_last() =~= s@.subrange(lo as int, hi - 1));
        }
        hi = hi - 1;
    }
    let ghost t = s@.subrange(lo as int, hi as int);
    assert(trimmed(s@) == t);
    let mut has_space = false;
    let mut k: usize = lo;
    while k < hi
        invariant
            n == s@.len(),
            lo <= k <= hi <= n,
            t == s@.subrange(lo as int, hi as int),
            has_space == exists|j: int| lo <= j < k && is_space(#[trigger] s@[j]),
        decreases hi - k,
    {
        if char_is_space(s[k]) {
            has_space = true;
        }
        k = k + 1;
    }
    assert(has_space == has_white_space(t)) by {
        if has_space {
            let j = choose|j: int| lo <= j < hi && is_space(#[trigger] s@[j]);
            assert(t[j - lo] == s@[j]);
        }
        if has_white_space(t) {
            let j = choose|j: int| 0 <= j < t.len() && is_space(#[trigger] t[j]);
            assert(s@[lo + j] == t[j]);
        }
    }
    let mut out: Vec<char> = Vec::new();
    if has_space {
        let mut i: usize = lo;
        while i < hi
            invariant
                n == s@.len(),
                lo <= i <= hi <= n,
                t == s@.subrange(lo as int, hi as int),
                out@ == initials(t.subrange(0, i - lo)),
            decreases hi - i,
        {
            proof {
                lemma_initials_step(t, i - lo);
            }
            let c = s[i];
            if !char_is_space(c) && (i == lo || char_is_space(s[i - 1])) {
                out.push(c);
            }
            i = i + 1;
        }
        assert(t.subrange(0, hi - lo) =~= t);
    } else {
        let mut i: usize = lo;
        while i < hi && i - lo < 2
            invariant
                n == s@.len(),
                lo <= i <= hi <= n,
                i <= lo + 2,
                t == s@.subrange(lo as int, hi as int),
                out@ == t.subrange(0, i - lo),
            decreases hi - i,
        {
            out.push(s[i]);
            proof {
                assert(out@ =~= t.subrange(0, i + 1 - lo));
            }
            i = i + 1;
        }
        assert(out@ =~= first_two(t));
    }
    string_of(&out)
}

} // verus!
