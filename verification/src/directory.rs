//! A directory's path, kept with its separator at the end so that a file
//! name can follow it directly. Paths are texts with `/` between their
//! components.

use crate::text::chars_of;
use vstd::prelude::*;
use vstd::string::StringExecFns;

verus! {

/// The path with a separator at its end, unless it is empty or has one.
pub open spec fn with_separator(path: Seq<char>) -> Seq<char> {
    if path.len() == 0 || path.last() == '/' {
        path
    } else {
        path.push('/')
    }
}

/// The path of `tail` below `base`: `tail` itself where it starts at the
/// root, else `base`, a separator where one is missing, and `tail`.
pub open spec fn joined(base: Seq<char>, tail: Seq<char>) -> Seq<char> {
    if tail.len() > 0 && tail[0] == '/' {
        tail
    } else {
        with_separator(base) + tail
    }
}

/// The path without its last component, as `Path::parent` gives it: `None`
/// for the empty path and for one that ends in the root.
pub uninterp spec fn parent_of(path: Seq<char>) -> Option<Seq<char>>;

/// `Path::parent` of the standard library, on a path held as text. The
/// parent depends on the path's text alone.
#[verifier::external_body]
fn parent_path(path: &str) -> (r: Option<String>)
    ensures
        match r {
            Some(parent) => parent_of(path@) == Some(parent@),
            None => parent_of(path@) is None,
        },
{
    std::path::Path::new(path).parent().map(|parent| parent.to_string_lossy().into_owned())
}

fn ends_with_separator(path: &str) -> (r: bool)
    ensures
        r == (path@.len() > 0 && path@.last() == '/'),
{
    let chars = chars_of(path);
    chars.len() > 0 && chars[chars.len() - 1] == '/'
}

fn starts_at_root(path: &str) -> (r: bool)
    ensures
        r == (path@.len() > 0 && path@[0] == '/'),
{
    let chars = chars_of(path);
    chars.len() > 0 && chars[0] == '/'
}

/// A directory's path.
#[derive(Debug)]
pub struct Directory {
    path: String,
}

impl View for Directory {
    type V = Seq<char>;

    closed spec fn view(&self) -> Seq<char> {
        self.path@
    }
}

impl Clone for Directory {
    fn clone(&self) -> (r: Self)
        ensures
            r@ == self@,
    {
        proof {
            use_type_invariant(self);
        }
        Directory { path: self.path.clone() }
    }
}

impl Directory {
    #[verifier::type_invariant]
    spec fn closed_by_separator(self) -> bool {
        self.path@.len() == 0 || self.path@.last() == '/'
    }

    /// Whether the path is kept as a directory's: empty, or with a
    /// separator at its end. Every directory is.
    pub open spec fn well_formed(self) -> bool {
        self@.len() == 0 || self@.last() == '/'
    }

    /// The directory at `path`.
    pub fn new(path: String) -> (r: Self)
        ensures
            r@ == with_separator(path@),
            r.well_formed(),
    {
        if !path.as_str().is_empty() && !ends_with_separator(path.as_str()) {
            let closed = path.concat("/");
            proof {
                reveal_strlit("/");
                assert("/"@ =~= seq!['/']);
                assert(closed@ =~= path@.push('/'));
            }
            Directory { path: closed }
        } else {
            Directory { path }
        }
    }

    /// The directory's path as text.
    pub fn to_string_lossy(&self) -> (r: String)
        ensures
            r@ == self@,
            self.well_formed(),
    {
        proof {
            use_type_invariant(self);
        }
        self.path.clone()
    }

    /// The path of `tail` below this directory.
    pub fn join(&self, tail: &str) -> (r: String)
        ensures
            r@ == joined(self@, tail@),
            self.well_formed(),
            tail@.len() == 0 || tail@[0] != '/' ==> r@ == self@ + tail@,
    {
        proof {
            use_type_invariant(self);
        }
        if starts_at_root(tail) {
            return tail.to_owned();
        }
        self.path.clone().concat(tail)
    }

    /// The directory above this one, if there is one.
    pub fn parent(&self) -> (r: Option<Self>)
        ensures
            match parent_of(self@) {
                Some(parent) => r matches Some(d) && d@ == with_separator(parent) && d.well_formed(),
                None => r is None,
            },
    {
        match parent_path(self.path.as_str()) {
            Some(parent) => Some(Directory::new(parent)),
            None => None,
        }
    }
}

} // verus!
