//! Absolute filesystem paths, modelled as character sequences.
//!
//! Every path the sandbox manipulates is absolute and normalized: it starts
//! with `/`, contains no empty segment, and does not end with `/` unless it
//! is the root itself. `AbsPath` carries that invariant; `join_absolute_paths`
//! grafts one absolute path under another, which is how the writable escape
//! location and the preserved-home view are derived.

use vstd::prelude::*;
use vstd::string::StrSliceExecFns;
use vstd::string::StringExecFns;

verus! {

/// A normalized absolute path: starts with `/`, has no `//`, and has no
/// trailing `/` except for the root path itself.
pub open spec fn wf_abs_path(s: Seq<char>) -> bool {
    &&& s.len() >= 1
    &&& s[0] == '/'
    &&& (s.len() == 1 || s[s.len() - 1] != '/')
    &&& forall|i: int| 0 <= i < s.len() - 1 ==> ((#[trigger] s[i]) == '/' ==> s[i + 1] != '/')
}

/// The result of grafting absolute `path` under absolute `root`: `path` is
/// appended to `root` as if it were relative to it. Joining the root path
/// itself leaves `root` unchanged, and a root of `/` contributes no prefix.
pub open spec fn spec_join(root: Seq<char>, path: Seq<char>) -> Seq<char> {
    if path.len() <= 1 {
        root
    } else if root.len() <= 1 {
        path
    } else {
        root + path
    }
}

/// `child` lies strictly below `parent`: `parent` is a proper prefix and the
/// first character after it is a separator.
pub open spec fn is_strict_descendant(child: Seq<char>, parent: Seq<char>) -> bool {
    &&& child.len() > parent.len()
    &&& child.subrange(0, parent.len() as int) == parent
    &&& (parent.len() == 1 || child[parent.len() as int] == '/')
}

/// An absolute, normalized filesystem path.
pub struct AbsPath {
    text: String,
}

impl View for AbsPath {
    type V = Seq<char>;

    closed spec fn view(&self) -> Seq<char> {
        self.text@
    }
}

impl AbsPath {
    /// The path is well formed (holds for every value built by this module).
    pub open spec fn wf(&self) -> bool {
        wf_abs_path(self@)
    }

    /// Validates `text` as a normalized absolute path.
    pub fn new(text: String) -> (r: Option<AbsPath>)
        ensures
            match r {
                Some(p) => p.wf() && p@ == text@ && wf_abs_path(text@),
                None => !wf_abs_path(text@),
            },
    {
        let n = text.as_str().unicode_len();
        if n == 0 {
            return None;
        }
        if text.as_str().get_char(0) != '/' {
            return None;
        }
        if n > 1 && text.as_str().get_char(n - 1) == '/' {
            return None;
        }
        let mut i: usize = 0;
        while i < n - 1
            invariant
                n == text@.len(),
                n >= 1,
                i <= n - 1,
                forall|j: int| 0 <= j < i ==> ((#[trigger] text@[j]) == '/' ==> text@[j + 1] != '/'),
            decreases n - i,
        {
            if text.as_str().get_char(i) == '/' && text.as_str().get_char(i + 1) == '/' {
                return None;
            }
            i = i + 1;
        }
        Some(AbsPath { text })
    }

    /// The path as a borrowed string.
    pub fn as_str(&self) -> (r: &str)
        ensures
            r@ == self@,
    {
        self.text.as_str()
    }

    /// An owned copy of the path.
    pub fn duplicate(&self) -> (r: AbsPath)
        ensures
            r@ == self@,
    {
        AbsPath { text: self.text.clone() }
    }

    /// The path as an owned string.
    pub fn into_string(self) -> (r: String)
        ensures
            r@ == self@,
    {
        self.text
    }

    /// Whether two paths are equal.
    pub fn equals(&self, other: &AbsPath) -> (r: bool)
        ensures
            r == (self@ == other@),
    {
        self.text == other.text
    }
}

/// Combine two absolute paths: the result is `path` re-rooted under `root`,
/// as if `path` began with `./` instead of `/`.
pub fn join_absolute_paths(root: &AbsPath, path: &AbsPath) -> (r: AbsPath)
    requires
        root.wf(),
        path.wf(),
    ensures
        r.wf(),
        r@ == spec_join(root@, path@),
{
    let root_len = root.text.as_str().unicode_len();
    let path_len = path.text.as_str().unicode_len();
    if path_len <= 1 {
        root.duplicate()
    } else if root_len <= 1 {
        path.duplicate()
    } else {
        let mut text = root.text.clone();
        text.append(path.text.as_str());
        proof {
            lemma_wf_concat(root@, path@);
        }
        AbsPath { text }
    }
}

/// Concatenating two well-formed paths (neither being the bare root) yields a
/// well-formed path: the junction cannot create an empty segment because the
/// left side has no trailing separator.
proof fn lemma_wf_concat(root: Seq<char>, path: Seq<char>)
    requires
        wf_abs_path(root),
        wf_abs_path(path),
        root.len() > 1,
        path.len() > 1,
    ensures
        wf_abs_path(root + path),
{
    let c = root + path;
    assert(c[0] == root[0]);
    assert(c[c.len() - 1] == path[path.len() - 1]);
    assert forall|i: int| 0 <= i < c.len() - 1 && (#[trigger] c[i]) == '/' implies c[i + 1] != '/' by {
        if i < root.len() - 1 {
            assert(c[i] == root[i]);
            assert(c[i + 1] == root[i + 1]);
        } else if i == root.len() - 1 {
            assert(c[i] == root[i]);
        } else {
            assert(c[i] == path[i - root.len()]);
            assert(c[i + 1] == path[i + 1 - root.len()]);
        }
    }
}

/// Grafting a non-root absolute path under any absolute root yields a strict
/// descendant of that root.
pub proof fn lemma_join_strict_descendant(root: Seq<char>, path: Seq<char>)
    requires
        wf_abs_path(root),
        wf_abs_path(path),
        path.len() > 1,
    ensures
        is_strict_descendant(spec_join(root, path), root),
{
    let j = spec_join(root, path);
    if root.len() <= 1 {
        assert(j == path);
        assert(j.subrange(0, 1) =~= root);
    } else {
        assert(j == root + path);
        assert(j.subrange(0, root.len() as int) =~= root);
        assert(j[root.len() as int] == path[0]);
    }
}

/// Decides `is_strict_descendant(child@, parent@)`.
pub fn check_strict_descendant(child: &AbsPath, parent: &AbsPath) -> (r: bool)
    ensures
        r == is_strict_descendant(child@, parent@),
{
    let child_len = child.text.as_str().unicode_len();
    let parent_len = parent.text.as_str().unicode_len();
    if child_len <= parent_len {
        return false;
    }
    let mut i: usize = 0;
    while i < parent_len
        invariant
            parent_len == parent@.len(),
            child_len == child@.len(),
            child_len > parent_len,
            i <= parent_len,
            forall|j: int| 0 <= j < i ==> child@[j] == parent@[j],
        decreases parent_len - i,
    {
        if child.text.as_str().get_char(i) != parent.text.as_str().get_char(i) {
            assert(child@.subrange(0, parent@.len() as int)[i as int] != parent@[i as int]);
            return false;
        }
        i = i + 1;
    }
    assert(child@.subrange(0, parent@.len() as int) =~= parent@);
    if parent_len == 1 {
        true
    } else {
        child.text.as_str().get_char(parent_len) == '/'
    }
}

} // verus!
