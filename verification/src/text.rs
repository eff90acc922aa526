//! Character-level text helpers: the whitespace trimming that the usecases
//! apply to required string fields before validating and storing them.

use vstd::prelude::*;

verus! {

/// Unicode whitespace, the set of characters that trimming strips.
pub open spec fn is_space(c: char) -> bool {
    let u = c as u32;
    u == 0x20 || u == 0x09 || u == 0x0A || u == 0x0B || u == 0x0C || u == 0x0D || u == 0x85
        || u == 0xA0 || u == 0x1680 || (0x2000 <= u && u <= 0x200A) || u == 0x2028 || u == 0x2029
        || u == 0x202F || u == 0x205F || u == 0x3000
}

/// Index of the first character at or after `i` that is not whitespace
/// (`s.len()` if there is none).
pub open spec fn skip_spaces(s: Seq<char>, i: int) -> int
    decreases s.len() - i,
    when 0 <= i <= s.len()
{
    if i >= s.len() {
        i
    } else if is_space(s[i]) {
        skip_spaces(s, i + 1)
    } else {
        i
    }
}

/// One past the index of the last character before `j` that is not
/// whitespace (`0` if there is none).
pub open spec fn rskip_spaces(s: Seq<char>, j: int) -> int
    decreases j,
    when 0 <= j <= s.len()
{
    if j <= 0 {
        0
    } else if is_space(s[j - 1]) {
        rskip_spaces(s, j - 1)
    } else {
        j
    }
}

/// What `str::trim` returns: the characters between the first and the last
/// non-whitespace character.
pub open spec fn trimmed(s: Seq<char>) -> Seq<char> {
    let lo = skip_spaces(s, 0);
    let hi = rskip_spaces(s, s.len() as int);
    if lo <= hi {
        s.subrange(lo, hi)
    } else {
        Seq::empty()
    }
}

/// A string the usecases reject as a required field: empty once trimmed.
pub open spec fn is_blank(s: Seq<char>) -> bool {
    trimmed(s).len() == 0
}

pub proof fn lemma_skip_spaces(s: Seq<char>, i: int)
    requires
        0 <= i <= s.len(),
    ensures
        i <= skip_spaces(s, i) <= s.len(),
        forall|k: int| i <= k < skip_spaces(s, i) ==> is_space(s[k]),
        skip_spaces(s, i) < s.len() ==> !is_space(s[skip_spaces(s, i)]),
    decreases s.len() - i,
{
    if i < s.len() && is_space(s[i]) {
        lemma_skip_spaces(s, i + 1);
    }
}

pub proof fn lemma_rskip_spaces(s: Seq<char>, j: int)
    requires
        0 <= j <= s.len(),
    ensures
        0 <= rskip_spaces(s, j) <= j,
        forall|k: int| rskip_spaces(s, j) <= k < j ==> is_space(s[k]),
        rskip_spaces(s, j) > 0 ==> !is_space(s[rskip_spaces(s, j) - 1]),
    decreases j,
{
    if j > 0 && is_space(s[j - 1]) {
        lemma_rskip_spaces(s, j - 1);
    }
}

/// A string is blank exactly when every character of it is whitespace,
/// and that is exactly when the initial whitespace run covers it whole.
pub proof fn lemma_blank_characterization(s: Seq<char>)
    ensures
        is_blank(s) <==> (forall|k: int| 0 <= k < s.len() ==> is_space(s[k])),
        is_blank(s) <==> skip_spaces(s, 0) == s.len(),
{
    lemma_skip_spaces(s, 0);
    lemma_rskip_spaces(s, s.len() as int);
    let lo = skip_spaces(s, 0);
    let hi = rskip_spaces(s, s.len() as int);
    if lo < s.len() {
        // `s[lo]` is not whitespace, so the trimmed middle is non-empty.
        if hi <= lo {
            assert(is_space(s[lo]));
        }
        assert(!is_blank(s));
    } else {
        // every index is below `lo`, hence whitespace
        if hi > 0 {
            assert(is_space(s[hi - 1]));
        }
        assert(is_blank(s));
    }
}

/// Whether every character of `c` is whitespace.
pub fn is_space_char(c: char) -> (r: bool)
    ensures
        r == is_space(c),
{
    let u = c as u32;
    u == 0x20 || u == 0x09 || u == 0x0A || u == 0x0B || u == 0x0C || u == 0x0D || u == 0x85
        || u == 0xA0 || u == 0x1680 || (0x2000 <= u && u <= 0x200A) || u == 0x2028 || u == 0x2029
        || u == 0x202F || u == 0x205F || u == 0x3000
}

/// Whether `s` trims to the empty string.
pub fn is_blank_str(s: &str) -> (r: bool)
    ensures
        r == is_blank(s@),
{
    let n = s.unicode_len();
    let mut lo: usize = 0;
    while lo < n && is_space_char(s.get_char(lo))
        invariant
            0 <= lo <= n,
            n == s@.len(),
            skip_spaces(s@, lo as int) == skip_spaces(s@, 0),
        decreases n - lo,
    {
        lo = lo + 1;
    }
    proof {
        lemma_blank_characterization(s@);
    }
    lo == n
}

/// What `str::trim` does: strips leading and trailing whitespace.
pub fn trim_str(s: &str) -> (r: String)
    ensures
        r@ == trimmed(s@),
{
    let n = s.unicode_len();
    let mut lo: usize = 0;
    while lo < n && is_space_char(s.get_char(lo))
        invariant
            0 <= lo <= n,
            n == s@.len(),
            skip_spaces(s@, lo as int) == skip_spaces(s@, 0),
        decreases n - lo,
    {
        lo = lo + 1;
    }
    if lo == n {
        proof {
            lemma_skip_spaces(s@, 0);
            lemma_rskip_spaces(s@, s@.len() as int);
            let hi = rskip_spaces(s@, s@.len() as int);
            if hi > 0 {
                assert(is_space(s@[hi - 1]));
            }
            assert(trimmed(s@) =~= Seq::<char>::empty());
        }
        return String::new();
    }
    proof {
        lemma_skip_spaces(s@, 0);
    }
    let mut hi: usize = n;
    while hi > lo && is_space_char(s.get_char(hi - 1))
        invariant
            lo < hi <= n || hi == lo,
            lo < n,
            n == s@.len(),
            !is_space(s@[lo as int]),
            lo == skip_spaces(s@, 0),
            rskip_spaces(s@, hi as int) == rskip_spaces(s@, n as int),
        decreases hi,
    {
        hi = hi - 1;
    }
    proof {
        lemma_rskip_spaces(s@, n as int);
        lemma_rskip_spaces(s@, hi as int);
        if hi == lo {
            // cannot happen: `s[lo]` would be trailing whitespace
            assert(rskip_spaces(s@, n as int) <= lo);
            assert(is_space(s@[lo as int]));
        }
        assert(hi == rskip_spaces(s@, s@.len() as int));
    }
    s.substring_char(lo, hi).to_owned()
}

} // verus!
