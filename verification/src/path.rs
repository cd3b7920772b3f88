//! Object paths: the hierarchical addresses of the objects on the bus.

use vstd::prelude::*;

verus! {

/// Whether `c` may stand in an element of an object path: an ASCII letter,
/// an ASCII digit or an underscore.
pub open spec fn is_element_char(c: char) -> bool {
    ||| 'A' <= c <= 'Z'
    ||| 'a' <= c <= 'z'
    ||| '0' <= c <= '9'
    ||| c == '_'
}

/// Whether `s` is an object path: it begins with a slash; it is made of
/// slashes and element characters; no two slashes are adjacent; and only the
/// root path, a single slash, ends with one.
pub open spec fn valid_object_path(s: Seq<char>) -> bool {
    &&& s.len() >= 1
    &&& s[0] == '/'
    &&& forall|i: int| 0 <= i < s.len() ==> #[trigger] s[i] == '/' || is_element_char(s[i])
    &&& forall|i: int| 0 < i < s.len() ==> !(#[trigger] s[i] == '/' && s[i - 1] == '/')
    &&& s.len() > 1 ==> s[s.len() - 1] != '/'
}

/// Decides `is_element_char`.
pub fn element_char(c: char) -> (ok: bool)
    ensures
        ok == is_element_char(c),
{
    ('A' <= c && c <= 'Z') || ('a' <= c && c <= 'z') || ('0' <= c && c <= '9') || c == '_'
}

/// Decides `valid_object_path`.
pub fn is_valid_object_path(s: &str) -> (ok: bool)
    ensures
        ok == valid_object_path(s@),
{
    let n: usize = s.unicode_len();
    if n == 0 {
        return false;
    }
    let mut previous_slash: bool = false;
    let mut i: usize = 0;
    while i < n
        invariant
            i <= n,
            n == s@.len(),
            i > 0 ==> s@[0] == '/',
            i > 0 ==> previous_slash == (s@[i - 1] == '/'),
            forall|j: int| 0 <= j < i ==> #[trigger] s@[j] == '/' || is_element_char(s@[j]),
            forall|j: int| 0 < j < i ==> !(#[trigger] s@[j] == '/' && s@[j - 1] == '/'),
        decreases n - i,
    {
        let c = s.get_char(i);
        if c == '/' {
            if i > 0 && previous_slash {
                return false;
            }
            previous_slash = true;
        } else {
            if i == 0 || !element_char(c) {
                return false;
            }
            previous_slash = false;
        }
        i += 1;
    }
    !(n > 1 && previous_slash)
}

} // verus!
