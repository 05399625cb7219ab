//! Bus object paths.
//!
//! An object path is `/`, or `/`-separated elements of ASCII letters,
//! digits and underscores.  Paths name the published attribute objects;
//! the parent of a node's path names its owning attribute, which is how a
//! characteristic finds its service and a descriptor its characteristic.

use vstd::prelude::*;
use vstd::string::*;

verus! {

/// A character allowed inside an object path element.
pub open spec fn is_path_element_char(c: char) -> bool {
    ||| 48 <= c as int <= 57
    ||| 65 <= c as int <= 90
    ||| 97 <= c as int <= 122
    ||| c == '_'
}

/// A well-formed object path: it starts with a slash, its elements are
/// nonempty runs of element characters, and only the root path ends in a
/// slash.
pub open spec fn spec_valid_object_path(s: Seq<char>) -> bool {
    &&& s.len() >= 1
    &&& s[0] == '/'
    &&& (s.len() == 1 || s.last() != '/')
    &&& forall|i: int| 1 <= i < s.len() ==> is_path_element_char(s[i]) || s[i] == '/'
    &&& forall|i: int| 0 <= i < s.len() - 1 ==> !(#[trigger] s[i] == '/' && s[i + 1] == '/')
}

/// Checks whether a character may stand inside a path element.
fn is_element_char(c: char) -> (r: bool)
    ensures
        r == is_path_element_char(c),
{
    let u = c as u32;
    (48 <= u && u <= 57) || (65 <= u && u <= 90) || (97 <= u && u <= 122) || c == '_'
}

/// Checks whether a string is a well-formed object path.
pub fn is_valid_object_path(s: &str) -> (r: bool)
    ensures
        r == spec_valid_object_path(s@),
{
    let n = s.unicode_len();
    if n == 0 {
        return false;
    }
    if s.get_char(0) != '/' {
        return false;
    }
    if n > 1 && s.get_char(n - 1) == '/' {
        return false;
    }
    let mut i: usize = 1;
    let mut prev: char = '/';
    while i < n
        invariant
            1 <= i <= n,
            n == s@.len(),
            s@[0] == '/',
            prev == s@[i - 1],
            forall|j: int| 1 <= j < i ==> is_path_element_char(s@[j]) || s@[j] == '/',
            forall|j: int| 0 <= j < i - 1 ==> !(#[trigger] s@[j] == '/' && s@[j + 1] == '/'),
        decreases n - i,
    {
        let c = s.get_char(i);
        if !is_element_char(c) && c != '/' {
            assert(!(is_path_element_char(s@[i as int]) || s@[i as int] == '/'));
            return false;
        }
        if prev == '/' && c == '/' {
            assert(s@[i - 1] == '/' && s@[i as int] == '/');
            return false;
        }
        prev = c;
        i = i + 1;
    }
    true
}

/// Appending a slash and a nonempty element made of element characters
/// to a well-formed path (other than the bare root) keeps it well-formed.
pub proof fn lemma_append_element_valid(s: Seq<char>, name: Seq<char>)
    requires
        spec_valid_object_path(s),
        s.len() > 1,
        name.len() > 0,
        forall|i: int| 0 <= i < name.len() ==> is_path_element_char(#[trigger] name[i]),
    ensures
        spec_valid_object_path(s + seq!['/'] + name),
{
    let t = s + seq!['/'] + name;
    assert(t[0] == s[0]);
    assert(t.last() == name.last());
    assert(is_path_element_char(name[name.len() - 1]));
    assert forall|i: int| 1 <= i < t.len() implies is_path_element_char(#[trigger] t[i]) || t[i]
        == '/' by {
        if i < s.len() {
            assert(t[i] == s[i]);
        } else if i == s.len() {
            assert(t[i] == '/');
        } else {
            assert(t[i] == name[i - s.len() - 1]);
        }
    }
    assert forall|i: int| 0 <= i < t.len() - 1 implies !(#[trigger] t[i] == '/' && t[i + 1]
        == '/') by {
        if i + 1 < s.len() {
            assert(t[i] == s[i] && t[i + 1] == s[i + 1]);
        } else if i + 1 == s.len() {
            assert(t[i] == s.last());
        } else if i == s.len() {
            assert(t[i + 1] == name[0]);
            assert(is_path_element_char(name[0]));
        } else {
            assert(t[i] == name[i - s.len() - 1]);
            assert(is_path_element_char(name[i - s.len() - 1]));
        }
    }
}

/// The position of the last slash in a path (or a negative value where
/// none exists).
pub open spec fn spec_last_slash(s: Seq<char>) -> int
    decreases s.len(),
{
    if s.len() == 0 {
        -1
    } else if s.last() == '/' {
        s.len() - 1
    } else {
        spec_last_slash(s.drop_last())
    }
}

/// The path of a node's immediate ancestor: everything before the last
/// slash, or the root path where the last slash is the leading one.
pub open spec fn spec_parent_path(s: Seq<char>) -> Seq<char> {
    if spec_last_slash(s) == 0 {
        s.subrange(0, 1)
    } else {
        s.subrange(0, spec_last_slash(s))
    }
}

/// Computes the path of a node's immediate ancestor.
pub fn parent_path(s: &str) -> (r: String)
    requires
        s@.len() >= 1,
        s@[0] == '/',
    ensures
        r@ == spec_parent_path(s@),
{
    let n = s.unicode_len();
    let mut i: usize = n;
    assert(s@.subrange(0, n as int) =~= s@);
    while i > 1
        invariant
            1 <= i <= n,
            n == s@.len(),
            s@[0] == '/',
            spec_last_slash(s@) == spec_last_slash(s@.subrange(0, i as int)),
        decreases i,
    {
        let c = s.get_char(i - 1);
        let ghost pre = s@.subrange(0, i as int);
        if c == '/' {
            proof {
                assert(pre.last() == c);
                assert(spec_last_slash(s@) == i - 1);
            }
            let p = s.substring_char(0, i - 1);
            return p.to_owned();
        }
        proof {
            assert(pre.last() != '/');
            assert(pre.drop_last() =~= s@.subrange(0, i - 1));
        }
        i = i - 1;
    }
    proof {
        let pre = s@.subrange(0, 1);
        assert(pre.last() == '/');
        assert(spec_last_slash(s@) == 0);
    }
    let root = s.substring_char(0, 1);
    root.to_owned()
}

} // verus!
