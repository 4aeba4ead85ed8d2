//! Request validation: blank-URL detection and subfolder path safety.
//!
//! A submission must carry a target URL that is not empty and not made of
//! whitespace alone, and an optional subfolder that is a relative path with
//! no parent-directory traversal component.

use vstd::prelude::*;

verus! {

/// The Unicode `White_Space` code points, as the standard library's
/// `char::is_whitespace` classifies them.
pub open spec fn is_space(c: char) -> bool {
    c == ' ' || c == '\t' || c == '\n' || c == '\r'
        || c == '\u{000B}' || c == '\u{000C}' || c == '\u{0085}' || c == '\u{00A0}'
        || c == '\u{1680}'
        || c == '\u{2000}' || c == '\u{2001}' || c == '\u{2002}' || c == '\u{2003}'
        || c == '\u{2004}' || c == '\u{2005}' || c == '\u{2006}' || c == '\u{2007}'
        || c == '\u{2008}' || c == '\u{2009}' || c == '\u{200A}'
        || c == '\u{2028}' || c == '\u{2029}' || c == '\u{202F}' || c == '\u{205F}'
        || c == '\u{3000}'
}

/// A string is blank when every character is whitespace; the empty string is
/// blank. A blank URL is rejected before any state is touched.
pub open spec fn is_blank(s: Seq<char>) -> bool {
    forall|i: int| 0 <= i < s.len() ==> is_space(#[trigger] s[i])
}

fn char_is_space(c: char) -> (r: bool)
    ensures
        r == is_space(c),
{
    c == ' ' || c == '\t' || c == '\n' || c == '\r'
        || c == '\u{000B}' || c == '\u{000C}' || c == '\u{0085}' || c == '\u{00A0}'
        || c == '\u{1680}'
        || c == '\u{2000}' || c == '\u{2001}' || c == '\u{2002}' || c == '\u{2003}'
        || c == '\u{2004}' || c == '\u{2005}' || c == '\u{2006}' || c == '\u{2007}'
        || c == '\u{2008}' || c == '\u{2009}' || c == '\u{200A}'
        || c == '\u{2028}' || c == '\u{2029}' || c == '\u{202F}' || c == '\u{205F}'
        || c == '\u{3000}'
}

/// True when the string has no character besides whitespace.
pub fn str_is_blank(s: &str) -> (r: bool)
    ensures
        r == is_blank(s@),
{
    let n: usize = s.unicode_len();
    let mut i: usize = 0;
    while i < n
        invariant
            0 <= i <= n,
            n == s@.len(),
            forall|k: int| 0 <= k < i ==> is_space(#[trigger] s@[k]),
        decreases n - i,
    {
        let c = s.get_char(i);
        if !char_is_space(c) {
            return false;
        }
        i += 1;
    }
    true
}

/// A parent-directory component starts at `i`: two dots standing alone
/// between separators (or the ends of the string).
pub open spec fn traversal_at(s: Seq<char>, i: int) -> bool {
    &&& 0 <= i
    &&& i + 2 <= s.len()
    &&& s[i] == '.'
    &&& s[i + 1] == '.'
    &&& (i == 0 || s[i - 1] == '/')
    &&& (i + 2 == s.len() || s[i + 2] == '/')
}

/// The path contains a parent-directory (`..`) component.
pub open spec fn has_traversal(s: Seq<char>) -> bool {
    exists|i: int| traversal_at(s, i)
}

/// The path is absolute: it starts at the filesystem root.
pub open spec fn is_absolute_path(s: Seq<char>) -> bool {
    s.len() > 0 && s[0] == '/'
}

/// A subfolder is acceptable when it is relative and free of
/// parent-directory components; the empty subfolder is acceptable.
pub open spec fn subfolder_ok(s: Seq<char>) -> bool {
    !is_absolute_path(s) && !has_traversal(s)
}

/// True exactly when the subfolder is relative and has no `..` component.
pub fn subfolder_is_safe(s: &str) -> (r: bool)
    ensures
        r == subfolder_ok(s@),
{
    let n: usize = s.unicode_len();
    if n > 0 && s.get_char(0) == '/' {
        return false;
    }
    if n < 2 {
        proof {
            assert(forall|k: int| !traversal_at(s@, k));
        }
        return true;
    }
    let mut i: usize = 0;
    while i <= n - 2
        invariant
            0 <= i,
            i <= n - 1,
            2 <= n,
            n == s@.len(),
            forall|k: int| 0 <= k < i ==> !traversal_at(s@, k),
            !is_absolute_path(s@),
        decreases n - i,
    {
        let two_dots = s.get_char(i) == '.' && s.get_char(i + 1) == '.';
        let starts_component = i == 0 || s.get_char(i - 1) == '/';
        let ends_component = i + 2 == n || s.get_char(i + 2) == '/';
        if two_dots && starts_component && ends_component {
            proof {
                assert(traversal_at(s@, i as int));
            }
            return false;
        }
        i += 1;
    }
    proof {
        assert forall|k: int| !traversal_at(s@, k) by {
            if 0 <= k && k + 2 <= s@.len() {
                assert(k < i);
            }
        }
    }
    true
}

/// The output location for a subfolder under the downloads folder: the
/// folder itself when the subfolder is empty, else the two joined by a
/// separator.
pub open spec fn joined_path(folder: Seq<char>, sub: Seq<char>) -> Seq<char> {
    if sub.len() == 0 {
        folder
    } else {
        folder + seq!['/'] + sub
    }
}

/// Joins the downloads folder and a subfolder into one path string.
pub fn join_under(folder: &str, sub: &str) -> (r: String)
    ensures
        r@ == joined_path(folder@, sub@),
{
    let mut r = String::from_str(folder);
    if sub.unicode_len() > 0 {
        r.append("/");
        r.append(sub);
        proof {
            reveal_strlit("/");
            assert("/"@ =~= seq!['/']);
            assert(r@ =~= folder@ + seq!['/'] + sub@);
        }
    }
    r
}

} // verus!
