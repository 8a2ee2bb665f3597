use vstd::prelude::*;

verus! {

/// A character of Unicode's `White_Space` property, the set that
/// `char::is_whitespace` and `str::trim` go by.
pub open spec fn is_white_space_spec(c: char) -> bool {
    ('\u{9}' <= c && c <= '\u{d}') || c == ' ' || c == '\u{85}' || c == '\u{a0}'
        || c == '\u{1680}' || ('\u{2000}' <= c && c <= '\u{200a}') || c == '\u{2028}'
        || c == '\u{2029}' || c == '\u{202f}' || c == '\u{205f}' || c == '\u{3000}'
}

/// `a` and `b` bound the part of `s` left once leading and trailing white
/// space is removed: all before `a` and all from `b` on is white space, and a
/// part that is not empty starts and ends with a character that is not.
pub open spec fn trim_bounds(s: Seq<char>, a: int, b: int) -> bool {
    &&& 0 <= a <= b <= s.len()
    &&& forall|k: int| 0 <= k < a ==> is_white_space_spec(#[trigger] s[k])
    &&& forall|k: int| b <= k < s.len() ==> is_white_space_spec(#[trigger] s[k])
    &&& a < b ==> !is_white_space_spec(s[a]) && !is_white_space_spec(s[b - 1])
}

/// `s` with its leading and trailing white space removed.
pub open spec fn trimmed(s: Seq<char>) -> Seq<char> {
    let (a, b) = choose|a: int, b: int| trim_bounds(s, a, b);
    s.subrange(a, b)
}

/// Any two bounds of the trimmed part give the same text.
proof fn lemma_trim_bounds_unique(s: Seq<char>, a: int, b: int, c: int, d: int)
    requires
        trim_bounds(s, a, b),
        trim_bounds(s, c, d),
    ensures
        s.subrange(a, b) == s.subrange(c, d),
{
    if a < b && c < d {
        if c < a {
            assert(is_white_space_spec(s[c]));
        }
        if a < c {
            assert(is_white_space_spec(s[a]));
        }
        if d < b {
            assert(is_white_space_spec(s[b - 1]));
        }
        if b < d {
            assert(is_white_space_spec(s[d - 1]));
        }
    } else if a < b {
        assert(is_white_space_spec(s[a]));
    } else if c < d {
        assert(is_white_space_spec(s[c]));
    } else {
        assert(s.subrange(a, b) =~= s.subrange(c, d));
    }
}

/// Given bounds, `trimmed` is the text between them.
proof fn lemma_trimmed(s: Seq<char>, a: int, b: int)
    requires
        trim_bounds(s, a, b),
    ensures
        trimmed(s) == s.subrange(a, b),
{
    let (c, d) = choose|c: int, d: int| trim_bounds(s, c, d);
    lemma_trim_bounds_unique(s, a, b, c, d);
}

/// The display form of a version: the marker `v` followed by the version text.
pub open spec fn formatted_version(raw: Seq<char>) -> Seq<char> {
    seq!['v'] + raw
}

/// Whether `c` is white space.
pub fn is_white_space(c: char) -> (r: bool)
    ensures
        r == is_white_space_spec(c),
{
    ('\u{9}' <= c && c <= '\u{d}') || c == ' ' || c == '\u{85}' || c == '\u{a0}'
        || c == '\u{1680}' || ('\u{2000}' <= c && c <= '\u{200a}') || c == '\u{2028}'
        || c == '\u{2029}' || c == '\u{202f}' || c == '\u{205f}' || c == '\u{3000}'
}

/// Removes leading and trailing white space from captured tool output.
pub fn trim_output(s: &str) -> (r: String)
    ensures
        r@ == trimmed(s@),
{
    let n = s.unicode_len();
    let mut a: usize = 0;
    while a < n && is_white_space(s.get_char(a))
        invariant
            a <= n,
            n == s@.len(),
            forall|k: int| 0 <= k < a ==> is_white_space_spec(#[trigger] s@[k]),
        decreases n - a,
    {
        a = a + 1;
    }
    if a == n {
        proof {
            lemma_trimmed(s@, a as int, a as int);
        }
        return String::new();
    }
    let mut b: usize = n;
    while is_white_space(s.get_char(b - 1))
        invariant
            a < b <= n,
            n == s@.len(),
            !is_white_space_spec(s@[a as int]),
            forall|k: int| b <= k < n ==> is_white_space_spec(#[trigger] s@[k]),
        decreases b,
    {
        b = b - 1;
    }
    proof {
        lemma_trimmed(s@, a as int, b as int);
    }
    String::from_str(s.substring_char(a, b))
}

/// Turns trimmed tool output into the version shown in the prompt, `v`
/// followed by the text. No text is refused.
pub fn format_perl_version(perl_version: &str) -> (r: Option<String>)
    ensures
        r matches Some(v) && v@ == formatted_version(perl_version@),
{
    let marked = String::from_str("v");
    proof {
        reveal_strlit("v");
    }
    let v = marked.concat(perl_version);
    assert(v@ =~= formatted_version(perl_version@));
    Some(v)
}

} // verus!
