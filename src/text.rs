//! Text helpers: trimming, substring search, line diffs, path joining.

use vstd::prelude::*;
use vstd::string::*;

verus! {

/// A character with the Unicode `White_Space` property.
pub open spec fn is_white_space(c: char) -> bool {
    let v = c as u32;
    (9 <= v <= 13) || v == 32 || v == 0x85 || v == 0xA0 || v == 0x1680 || (0x2000 <= v <= 0x200A)
        || v == 0x2028 || v == 0x2029 || v == 0x202F || v == 0x205F || v == 0x3000
}

/// The text without its leading whitespace.
pub open spec fn trim_start_of(s: Seq<char>) -> Seq<char>
    decreases s.len(),
{
    if s.len() > 0 && is_white_space(s[0]) {
        trim_start_of(s.drop_first())
    } else {
        s
    }
}

/// The text without its trailing whitespace.
pub open spec fn trim_end_of(s: Seq<char>) -> Seq<char>
    decreases s.len(),
{
    if s.len() > 0 && is_white_space(s.last()) {
        trim_end_of(s.drop_last())
    } else {
        s
    }
}

/// The text with leading and trailing whitespace removed.
pub open spec fn trim_of(s: Seq<char>) -> Seq<char> {
    trim_end_of(trim_start_of(s))
}

/// Whether the line diff of two texts reports them the same.
pub uninterp spec fn diff_reports_same(left: Seq<char>, right: Seq<char>) -> bool;

/// Whether two texts have the same lines: equal texts always do.
pub open spec fn lines_match(left: Seq<char>, right: Seq<char>) -> bool {
    left == right || diff_reports_same(left, right)
}

/// Relies on `str::trim`: leading and trailing characters with the Unicode
/// `White_Space` property are removed.
#[verifier::external_body]
pub(crate) fn trimmed(s: &str) -> (r: String)
    ensures
        r@ == trim_of(s@),
{
    s.trim().to_string()
}

/// `frag` occurs in `text` as a contiguous run of characters.
pub open spec fn contains_text(text: Seq<char>, frag: Seq<char>) -> bool {
    exists|i: int| 0 <= i <= text.len() - frag.len() && #[trigger] text.subrange(i, i + frag.len()) == frag
}

/// Relies on `str::contains` with a `&str` pattern: true when the pattern
/// occurs in the text.
#[verifier::external_body]
fn text_contains(text: &str, frag: &str) -> (r: bool)
    ensures
        r == contains_text(text@, frag@),
{
    text.contains(frag)
}

/// Relies on `different::line_diff`: `Diff::Same` when every line of the two
/// texts pairs up (`diff::lines` reports no added or removed line), which
/// holds of equal texts; otherwise the rendered diff.
#[verifier::external_body]
fn line_diff(left: &str, right: &str, left_name: &str, right_name: &str) -> (r: Option<String>)
    ensures
        r is None <==> (left@ == right@ || diff_reports_same(left@, right@)),
{
    let settings = different::DiffSettings::new().names(left_name.to_string(), right_name.to_string());
    match different::line_diff(left, right, &settings) {
        different::Diff::Same => None,
        d => Some(d.to_string()),
    }
}

/// Whether `expected` and `actual` agree once trimmed.
pub open spec fn texts_agree(expected: Seq<char>, actual: Seq<char>) -> bool {
    lines_match(trim_of(expected), trim_of(actual))
}

/// Compares trimmed texts line by line: `None` when they agree, else a diff
/// of expected against actual.
pub fn str_compare(expected: &str, actual: &str) -> (r: Option<String>)
    ensures
        r is None <==> texts_agree(expected@, actual@),
{
    let e = trimmed(expected);
    let a = trimmed(actual);
    line_diff(e.as_str(), a.as_str(), "expected", "actual")
}

/// Whether `frag` occurs in `text`.
pub fn contains_fragment(text: &str, frag: &str) -> (r: bool)
    ensures
        r == contains_text(text@, frag@),
{
    text_contains(text, frag)
}

/// `b` taken relative to `a`: `b` itself when it is absolute (starts with `/`)
/// or `a` is empty, else `a` and `b` with one `/` between them.
pub open spec fn join_path_spec(a: Seq<char>, b: Seq<char>) -> Seq<char> {
    if (b.len() > 0 && b[0] == '/') || a.len() == 0 {
        b
    } else if a.last() == '/' {
        a + b
    } else {
        a + seq!['/'] + b
    }
}

pub fn join_path(a: &str, b: &str) -> (r: String)
    ensures
        r@ == join_path_spec(a@, b@),
{
    let blen = b.unicode_len();
    let alen = a.unicode_len();
    if (blen > 0 && b.get_char(0) == '/') || alen == 0 {
        return b.to_string();
    }
    let mut r = a.to_string();
    if a.get_char(alen - 1) != '/' {
        r.append("/");
        proof {
            reveal_strlit("/");
            assert("/"@ =~= seq!['/']);
        }
    }
    r.append(b);
    r
}

/// The part of a path before its last `/`: `/` itself when that is the
/// first character, empty when there is none.
pub open spec fn parent_spec(p: Seq<char>) -> Seq<char>
    decreases p.len(),
{
    if p.len() == 0 {
        p
    } else if p.last() == '/' {
        if p.len() == 1 {
            p
        } else {
            p.drop_last()
        }
    } else {
        parent_spec(p.drop_last())
    }
}

pub fn parent_of(p: &str) -> (r: String)
    ensures
        r@ == parent_spec(p@),
{
    let n = p.unicode_len();
    let mut i: usize = n;
    proof {
        assert(p@.subrange(0, n as int) =~= p@);
    }
    while i > 0
        invariant
            i <= n,
            n == p@.len(),
            parent_spec(p@) == parent_spec(p@.subrange(0, i as int)),
        decreases i,
    {
        if p.get_char(i - 1) == '/' {
            proof {
                assert(p@.subrange(0, i as int).drop_last() =~= p@.subrange(0, i - 1));
            }
            if i == 1 {
                return p.substring_char(0, 1).to_string();
            }
            return p.substring_char(0, i - 1).to_string();
        }
        proof {
            assert(p@.subrange(0, i as int).drop_last() =~= p@.subrange(0, i - 1));
        }
        i = i - 1;
    }
    proof {
        assert(p@.subrange(0, 0) =~= Seq::<char>::empty());
    }
    String::new()
}

/// The items joined with a newline between each two.
pub open spec fn join_lines_spec(s: Seq<Seq<char>>) -> Seq<char>
    decreases s.len(),
{
    if s.len() == 0 {
        Seq::empty()
    } else if s.len() == 1 {
        s[0]
    } else {
        join_lines_spec(s.drop_last()) + seq!['\n'] + s.last()
    }
}

pub open spec fn views_of(s: Seq<String>) -> Seq<Seq<char>> {
    s.map_values(|x: String| x@)
}

pub fn join_lines(v: &Vec<String>) -> (r: String)
    ensures
        r@ == join_lines_spec(views_of(v@)),
{
    let mut r = String::new();
    let mut i: usize = 0;
    while i < v.len()
        invariant
            0 <= i <= v@.len(),
            r@ == join_lines_spec(views_of(v@.subrange(0, i as int))),
        decreases v@.len() - i,
    {
        proof {
            let t = views_of(v@.subrange(0, i + 1));
            assert(t.drop_last() =~= views_of(v@.subrange(0, i as int)));
            reveal_strlit("\n");
            assert("\n"@ =~= seq!['\n']);
        }
        if i > 0 {
            r.append("\n");
        } else {
            proof {
                assert(views_of(v@.subrange(0, 0)) =~= Seq::<Seq<char>>::empty());
            }
        }
        r.append(v[i].as_str());
        i = i + 1;
    }
    proof {
        assert(v@.subrange(0, v@.len() as int) =~= v@);
    }
    r
}

/// Copies a list of strings, keeping every item.
pub fn copy_strings(v: &Vec<String>) -> (r: Vec<String>)
    ensures
        r@ == v@,
{
    let mut r: Vec<String> = Vec::new();
    let mut i: usize = 0;
    while i < v.len()
        invariant
            0 <= i <= v@.len(),
            r@ == v@.subrange(0, i as int),
        decreases v@.len() - i,
    {
        r.push(v[i].clone());
        proof {
            assert(r@ =~= v@.subrange(0, i + 1));
        }
        i = i + 1;
    }
    proof {
        assert(v@.subrange(0, v@.len() as int) =~= v@);
    }
    r
}

/// A file that holds `hello` meets an expected content of `hello` followed by
/// a newline: both are trimmed before they are compared.
pub proof fn lemma_trailing_newline_agrees()
    ensures
        texts_agree("hello\n"@, "hello"@),
{
    reveal_strlit("hello\n");
    reveal_strlit("hello");
    let a = "hello\n"@;
    let b = "hello"@;
    assert(!is_white_space(a[0]));
    assert(trim_start_of(a) == a);
    assert(a.drop_last() =~= b);
    assert(is_white_space(a.last()));
    assert(!is_white_space(b.last()));
    assert(trim_end_of(b) == b);
    assert(trim_end_of(a) == trim_end_of(b));
    assert(!is_white_space(b[0]));
    assert(trim_start_of(b) == b);
}

} // verus!
