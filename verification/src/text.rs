//! Character classes and small string operations over `char` sequences.
use vstd::prelude::*;

verus! {

/// The Unicode `White_Space` property, which `char::is_whitespace` reports
/// and which `str::trim` strips from both ends of a string.
pub open spec fn is_white_space(c: char) -> bool {
    let u = c as u32;
    ||| 0x09 <= u <= 0x0D
    ||| u == 0x20
    ||| u == 0x85
    ||| u == 0xA0
    ||| u == 0x1680
    ||| 0x2000 <= u <= 0x200A
    ||| u == 0x2028
    ||| u == 0x2029
    ||| u == 0x202F
    ||| u == 0x205F
    ||| u == 0x3000
}

/// A string that `trim` turns into the empty string: every character is white space.
pub open spec fn is_blank(s: Seq<char>) -> bool {
    forall|i: int| 0 <= i < s.len() ==> is_white_space(#[trigger] s[i])
}

/// The code point of a character after ASCII lower-casing (`A`..`Z` become `a`..`z`).
pub open spec fn ascii_fold(c: char) -> u32 {
    let u = c as u32;
    if 0x41 <= u <= 0x5A {
        (u + 32) as u32
    } else {
        u
    }
}

/// Equality up to ASCII case, as `str::eq_ignore_ascii_case` decides it.
pub open spec fn same_ignoring_ascii_case(a: Seq<char>, b: Seq<char>) -> bool {
    &&& a.len() == b.len()
    &&& forall|i: int| 0 <= i < a.len() ==> ascii_fold(#[trigger] a[i]) == ascii_fold(b[i])
}

/// The pieces of `list` joined with `sep` between each two neighbours.
pub open spec fn joined(list: Seq<Seq<char>>, sep: Seq<char>) -> Seq<char>
    decreases list.len(),
{
    if list.len() == 0 {
        Seq::empty()
    } else if list.len() == 1 {
        list[0]
    } else {
        joined(list.drop_last(), sep) + sep + list.last()
    }
}

/// Whether `c` has the Unicode `White_Space` property.
pub fn char_is_white_space(c: char) -> (r: bool)
    ensures
        r == is_white_space(c),
{
    let u: u32 = c as u32;
    (0x09 <= u && u <= 0x0D) || u == 0x20 || u == 0x85 || u == 0xA0 || u == 0x1680 || (0x2000
        <= u && u <= 0x200A) || u == 0x2028 || u == 0x2029 || u == 0x202F || u == 0x205F || u
        == 0x3000
}

/// Whether `s` consists of white space only (the empty string included).
pub fn str_is_blank(s: &str) -> (r: bool)
    ensures
        r == is_blank(s@),
{
    let n = s.unicode_len();
    let mut i: usize = 0;
    while i < n
        invariant
            n == s@.len(),
            i <= n,
            forall|k: int| 0 <= k < i ==> is_white_space(#[trigger] s@[k]),
        decreases n - i,
    {
        let c = s.get_char(i);
        if !char_is_white_space(c) {
            return false;
        }
        i = i + 1;
    }
    true
}

fn fold_char(c: char) -> (r: u32)
    ensures
        r == ascii_fold(c),
{
    let u: u32 = c as u32;
    if 0x41 <= u && u <= 0x5A {
        u + 32
    } else {
        u
    }
}

/// Whether `a` and `b` are equal when ASCII letters are compared without case.
pub fn eq_ignore_ascii_case(a: &str, b: &str) -> (r: bool)
    ensures
        r == same_ignoring_ascii_case(a@, b@),
{
    let n = a.unicode_len();
    let m = b.unicode_len();
    if n != m {
        return false;
    }
    let mut i: usize = 0;
    while i < n
        invariant
            n == a@.len(),
            n == b@.len(),
            i <= n,
            forall|k: int| 0 <= k < i ==> ascii_fold(#[trigger] a@[k]) == ascii_fold(b@[k]),
        decreases n - i,
    {
        if fold_char(a.get_char(i)) != fold_char(b.get_char(i)) {
            return false;
        }
        i = i + 1;
    }
    true
}

/// Joins `list` with `sep` between neighbouring pieces.
pub fn join_with(list: &Vec<&str>, sep: &str) -> (r: String)
    ensures
        r@ == joined(list@.map_values(|p: &str| p@), sep@),
{
    let ghost views = list@.map_values(|p: &str| p@);
    let mut res = String::new();
    let mut i: usize = 0;
    while i < list.len()
        invariant
            i <= list.len(),
            views == list@.map_values(|p: &str| p@),
            res@ == joined(views.take(i as int), sep@),
        decreases list.len() - i,
    {
        assert(views.take(i + 1).drop_last() =~= views.take(i as int));
        if i != 0 {
            res.append(sep);
        }
        res.append(list[i]);
        proof {
            if i == 0 {
                assert(views.take(1) =~= seq![views[0]]);
            }
        }
        i = i + 1;
    }
    assert(views.take(list.len() as int) =~= views);
    res
}

} // verus!

verus! {

/// Two characters that ASCII case folding cannot tell apart: the same code
/// point, or an ASCII upper-case letter and its lower-case partner (32 apart).
pub open spec fn ascii_case_partners(c: char, d: char) -> bool {
    let u = c as u32;
    let v = d as u32;
    ||| u == v
    ||| 0x41 <= u <= 0x5A && v == u + 32
    ||| 0x61 <= u <= 0x7A && u == v + 32
}

/// Equality up to ASCII case relates strings of the same length only, character
/// by character, where each pair of characters is equal or an ASCII letter and
/// its other case; it is reflexive and symmetric.
pub proof fn lemma_same_ignoring_case_laws(a: Seq<char>, b: Seq<char>)
    ensures
        same_ignoring_ascii_case(a, b) ==> a.len() == b.len(),
        same_ignoring_ascii_case(a, b) == same_ignoring_ascii_case(b, a),
        same_ignoring_ascii_case(a, a),
        same_ignoring_ascii_case(a, b) <==> (a.len() == b.len() && forall|i: int|
            0 <= i < a.len() ==> ascii_case_partners(#[trigger] a[i], b[i])),
{
    assert forall|c: char, d: char| #[trigger] ascii_case_partners(c, d) <==> ascii_fold(c)
        == ascii_fold(d) by {}
    if a.len() == b.len() {
        assert((forall|i: int| 0 <= i < a.len() ==> ascii_fold(#[trigger] a[i]) == ascii_fold(b[i]))
            <==> (forall|i: int| 0 <= i < a.len() ==> ascii_case_partners(#[trigger] a[i], b[i])))
            by {
            assert forall|i: int| 0 <= i < a.len() implies (ascii_fold(#[trigger] a[i])
                == ascii_fold(b[i]) <==> ascii_case_partners(a[i], b[i])) by {}
        }
    }
}

/// Among ASCII characters exactly space, tab, line feed, vertical tab, form feed
/// and carriage return are white space; the no-break space, the ideographic
/// space and the line and paragraph separators are white space too, while the
/// zero-width space is not.
pub proof fn lemma_white_space_characters(c: char)
    ensures
        (c as u32) < 0x80 ==> (is_white_space(c) <==> (c == ' ' || c == '\t' || c == '\n' || c
            == '\x0B' || c == '\x0C' || c == '\r')),
        is_white_space('\u{A0}') && is_white_space('\u{3000}') && is_white_space('\u{2028}')
            && is_white_space('\u{2029}'),
        !is_white_space('\u{200B}'),
{
}

} // verus!
