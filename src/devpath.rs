use vstd::prelude::*;

use crate::error::StratisError;

verus! {

/// Whether a path is absolute.
pub open spec fn is_absolute(p: Seq<char>) -> bool {
    p.len() > 0 && p[0] == '/'
}

/// Whether the path component that starts at `i` is empty, `.` or `..`.
pub open spec fn is_trivial_component(p: Seq<char>, i: int) -> bool {
    ||| i == p.len() || p[i] == '/'
    ||| p[i] == '.' && (i + 1 == p.len() || p[i + 1] == '/')
    ||| p[i] == '.' && i + 1 < p.len() && p[i + 1] == '.' && (i + 2 == p.len() || p[i + 2] == '/')
}

/// A canonical path: absolute, and either the root itself or made of
/// components none of which is empty, `.` or `..`.
pub open spec fn is_canonical_path(p: Seq<char>) -> bool {
    &&& is_absolute(p)
    &&& p.len() > 1 ==> forall|i: int|
        0 <= i < p.len() && #[trigger] p[i] == '/' ==> !is_trivial_component(p, i + 1)
}

/// Relies on std::path::Path::canonicalize: on success the absolute path with
/// all intermediate components normalized and every symbolic link resolved;
/// otherwise the I/O error that stopped it. A name that is not valid UTF-8 is
/// held with replacement characters.
#[verifier::external_body]
fn canonicalize(path: &str) -> (r: Result<String, std::io::Error>)
    ensures
        r is Ok ==> is_canonical_path(r->Ok_0@),
{
    std::path::Path::new(path).canonicalize().map(|p| p.to_string_lossy().into_owned())
}

/// A device path, resolved once when it was made, and held as text.
#[derive(Debug, Clone)]
pub struct DevicePath {
    path: String,
}

impl View for DevicePath {
    type V = Seq<char>;

    closed spec fn view(&self) -> Seq<char> {
        self.path@
    }
}

impl DevicePath {
    /// Resolves `path` against the filesystem; fails with an I/O error where it
    /// cannot be resolved.
    pub fn new(path: String) -> (r: Result<DevicePath, StratisError>)
        ensures
            r is Ok ==> is_canonical_path(r->Ok_0@),
            r is Err ==> r->Err_0 is Io,
    {
        DevicePath::from_resolution(canonicalize(path.as_str()))
    }

    /// The device path for the outcome of resolving a path: the resolved path,
    /// or the error that resolving it gave.
    pub fn from_resolution(outcome: Result<String, std::io::Error>) -> (r: Result<
        DevicePath,
        StratisError,
    >)
        requires
            outcome is Ok ==> is_canonical_path(outcome->Ok_0@),
        ensures
            outcome is Ok <==> r is Ok,
            outcome is Ok ==> r->Ok_0@ == outcome->Ok_0@,
            outcome is Err ==> (r matches Err(StratisError::Io(e)) && e == outcome->Err_0),
    {
        match outcome {
            Ok(p) => Ok(DevicePath { path: p }),
            Err(e) => Err(StratisError::Io(e)),
        }
    }

    /// The resolved path.
    pub fn as_str(&self) -> (r: &str)
        ensures
            r@ == self@,
    {
        self.path.as_str()
    }
}

impl core::ops::Deref for DevicePath {
    type Target = str;

    fn deref(&self) -> (r: &str)
        ensures
            r@ == self@,
    {
        self.path.as_str()
    }
}

} // verus!
