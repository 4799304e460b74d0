//! File paths as the standard library reads them. How a path is cut into
//! components depends on the system, so these functions promise of what
//! they return only what holds on every system: the callers state what
//! they hand in, and what they do with whatever comes back.

use crate::text::chars_of;
use vstd::prelude::*;

verus! {

/// `Path::extension`: the extension of the file name of `path`, if it has
/// one.
#[verifier::external_body]
pub(crate) fn path_extension(path: &str) -> Option<String> {
    std::path::Path::new(path).extension().map(|e| e.to_string_lossy().into_owned())
}

/// Whether `s` holds neither a slash nor a backslash, the two characters
/// that separate the components of a path on one system or another.
pub open spec fn holds_no_separator(s: Seq<char>) -> bool {
    forall|i: int| 0 <= i < s.len() ==> #[trigger] s[i] != '/' && s[i] != '\\'
}

/// Decides `holds_no_separator`.
pub fn no_separator(s: &str) -> (b: bool)
    ensures
        b == holds_no_separator(s@),
{
    let v = chars_of(s);
    let mut i: usize = 0;
    while i < v.len()
        invariant
            i <= v.len(),
            v@ == s@,
            forall|j: int| 0 <= j < i ==> #[trigger] v@[j] != '/' && v@[j] != '\\',
        decreases v.len() - i,
    {
        if v[i] == '/' || v[i] == '\\' {
            return false;
        }
        i = i + 1;
    }
    true
}

/// `Path::with_extension`: `path` with the extension of its file name
/// replaced by `extension`. The standard library panics on an extension
/// that holds a path separator, so such an extension is not handed in.
#[verifier::external_body]
pub(crate) fn path_with_extension(path: &str, extension: &str) -> String
    requires
        holds_no_separator(extension@),
{
    std::path::Path::new(path).with_extension(extension).to_string_lossy().into_owned()
}

/// `Path::parent`: `path` without its last component, if it has one. The
/// empty path has no parent on any system; which other paths have none
/// depends on the system.
#[verifier::external_body]
pub(crate) fn path_parent(path: &str) -> (parent: Option<String>)
    ensures
        path@.len() == 0 ==> parent is None,
{
    std::path::Path::new(path).parent().map(|p| p.to_string_lossy().into_owned())
}

/// `Path::join`: `name` put behind `base` as further components.
#[verifier::external_body]
pub(crate) fn path_join(base: &str, name: &str) -> String {
    std::path::Path::new(base).join(name).to_string_lossy().into_owned()
}

} // verus!
