//! What `std::path::Path` says of a path written as a string. The results
//! follow the platform's path rules, so they are named rather than restated.
use vstd::prelude::*;
use std::path::Component;

verus! {

/// `Path::extension`: the part of the file name after its last `.`.
pub uninterp spec fn path_extension_of(p: Seq<char>) -> Option<Seq<char>>;

/// `Path::file_name`: the last component, unless it is `..`.
pub uninterp spec fn path_file_name_of(p: Seq<char>) -> Option<Seq<char>>;

/// `Path::file_stem`: the file name without its extension.
pub uninterp spec fn path_file_stem_of(p: Seq<char>) -> Option<Seq<char>>;

/// `Path::is_absolute`.
pub uninterp spec fn path_is_absolute_of(p: Seq<char>) -> bool;

/// `Path::starts_with`: the components of `base` begin those of `p`.
pub uninterp spec fn path_starts_with_of(p: Seq<char>, base: Seq<char>) -> bool;

/// A component of a path, by its kind, as `std::path::Component` tells
/// them apart: a prefix (a drive or share, on Windows) with its text, the
/// root directory, the current directory, the parent directory, or a name.
pub enum PathPart {
    Prefix(String),
    Root,
    CurDir,
    Parent,
    Normal(String),
}

/// A path component in specifications.
pub enum PathPartView {
    Prefix(Seq<char>),
    Root,
    CurDir,
    Parent,
    Normal(Seq<char>),
}

impl View for PathPart {
    type V = PathPartView;

    open spec fn view(&self) -> PathPartView {
        match self {
            PathPart::Prefix(s) => PathPartView::Prefix(s@),
            PathPart::Root => PathPartView::Root,
            PathPart::CurDir => PathPartView::CurDir,
            PathPart::Parent => PathPartView::Parent,
            PathPart::Normal(s) => PathPartView::Normal(s@),
        }
    }
}

/// The views of a list of components.
pub open spec fn parts_view(v: Seq<PathPart>) -> Seq<PathPartView> {
    v.map_values(|x: PathPart| x@)
}

/// `Path::components`, each by its kind; names and prefixes as text.
pub uninterp spec fn path_components_of(p: Seq<char>) -> Seq<PathPartView>;

pub open spec fn opt_view(o: Option<String>) -> Option<Seq<char>> {
    match o {
        Some(s) => Some(s@),
        None => None,
    }
}

/// `Path::extension`, as text.
#[verifier::external_body]
pub(crate) fn path_extension(p: &str) -> (r: Option<String>)
    ensures
        opt_view(r) == path_extension_of(p@),
{
    std::path::Path::new(p).extension().map(|s| s.to_string_lossy().to_string())
}

/// `Path::file_name`, as text.
#[verifier::external_body]
pub(crate) fn path_file_name(p: &str) -> (r: Option<String>)
    ensures
        opt_view(r) == path_file_name_of(p@),
{
    std::path::Path::new(p).file_name().map(|s| s.to_string_lossy().to_string())
}

/// `Path::file_stem`, as text.
#[verifier::external_body]
pub(crate) fn path_file_stem(p: &str) -> (r: Option<String>)
    ensures
        opt_view(r) == path_file_stem_of(p@),
{
    std::path::Path::new(p).file_stem().map(|s| s.to_string_lossy().to_string())
}

/// `Path::is_absolute`.
#[verifier::external_body]
pub(crate) fn path_is_absolute(p: &str) -> (r: bool)
    ensures
        r == path_is_absolute_of(p@),
{
    std::path::Path::new(p).is_absolute()
}

/// `Path::starts_with`.
#[verifier::external_body]
pub(crate) fn path_starts_with(p: &str, base: &str) -> (r: bool)
    ensures
        r == path_starts_with_of(p@, base@),
{
    std::path::Path::new(p).starts_with(std::path::Path::new(base))
}

/// `Path::components`, each by its kind.
#[verifier::external_body]
pub(crate) fn path_components(p: &str) -> (r: Vec<PathPart>)
    ensures
        parts_view(r@) == path_components_of(p@),
{
    std::path::Path::new(p).components().map(|c| match c {
        Component::Prefix(x) => PathPart::Prefix(x.as_os_str().to_string_lossy().to_string()),
        Component::RootDir => PathPart::Root,
        Component::CurDir => PathPart::CurDir,
        Component::ParentDir => PathPart::Parent,
        Component::Normal(n) => PathPart::Normal(n.to_string_lossy().to_string()),
    }).collect()
}

/// `Path::join`: `p` appended to `base`, or `p` alone when it is absolute.
pub uninterp spec fn path_join_of(base: Seq<char>, p: Seq<char>) -> Seq<char>;

/// `Path::join`, as text.
#[verifier::external_body]
pub(crate) fn path_join(base: &str, p: &str) -> (r: String)
    ensures
        r@ == path_join_of(base@, p@),
{
    std::path::Path::new(base).join(p).to_string_lossy().to_string()
}

/// `Path::strip_prefix`: `p` with the components of `base` taken off its
/// front, when `base` begins it.
pub uninterp spec fn path_strip_prefix_of(p: Seq<char>, base: Seq<char>) -> Option<Seq<char>>;

/// `Path::strip_prefix`, as text.
#[verifier::external_body]
pub(crate) fn path_strip_prefix(p: &str, base: &str) -> (r: Option<String>)
    ensures
        opt_view(r) == path_strip_prefix_of(p@, base@),
{
    std::path::Path::new(p).strip_prefix(base).ok().map(|s| s.to_string_lossy().to_string())
}

} // verus!
