//! Relative paths that cannot leave the directory they are joined onto: no
//! step up, and every name fit for a file on any system.

use crate::fs_path::FsPath;
use crate::fs_path::FsPathView;
use vstd::prelude::*;
use vstd::std_specs::cmp::PartialEqSpecImpl;

verus! {

/// One step of a relative path.
#[derive(Debug)]
pub enum PathComponent {
    /// `.`: stay.
    CurDir,
    /// `..`: go up.
    ParentDir,
    /// Go into the entry of this name.
    Normal(String),
}

/// What a step is to the contracts.
pub enum ComponentView {
    CurDir,
    ParentDir,
    Normal(Seq<char>),
}

impl View for PathComponent {
    type V = ComponentView;

    open spec fn view(&self) -> ComponentView {
        match *self {
            PathComponent::CurDir => ComponentView::CurDir,
            PathComponent::ParentDir => ComponentView::ParentDir,
            PathComponent::Normal(name) => ComponentView::Normal(name@),
        }
    }
}

impl ComponentView {
    /// The step as it is written in a path.
    pub open spec fn text(self) -> Seq<char> {
        match self {
            ComponentView::CurDir => "."@,
            ComponentView::ParentDir => ".."@,
            ComponentView::Normal(name) => name,
        }
    }
}

/// What each of `components` is to the contracts.
pub open spec fn components_view(components: Seq<PathComponent>) -> Seq<ComponentView> {
    Seq::new(components.len(), |i: int| components[i]@)
}

/// The steps of the relative path `path`, as `relative_path::RelativePath`
/// takes it apart.
pub uninterp spec fn components_of(path: Seq<char>) -> Seq<ComponentView>;

/// Whether `name` is fit for a file name, as
/// `sanitize_filename::is_sanitized_with_options` decides under the options
/// `windows` and `truncate`.
pub uninterp spec fn is_sanitized_name(name: Seq<char>, windows: bool, truncate: bool) -> bool;

/// The relative path `path` in its normal form, as
/// `relative_path::RelativePath::normalize` gives it.
pub uninterp spec fn normalized_path(path: Seq<char>) -> Seq<char>;

/// What is left of the relative path `path` behind the steps of `prefix`, as
/// `relative_path::RelativePath::strip_prefix` gives it; `None` where `path`
/// does not begin with them.
pub uninterp spec fn stripped_path(path: Seq<char>, prefix: Seq<char>) -> Option<Seq<char>>;

/// Whether the relative path `path` begins with the steps of `base`, as
/// `relative_path::RelativePath::starts_with` decides.
pub uninterp spec fn path_starts_with(path: Seq<char>, base: Seq<char>) -> bool;

/// The extension of the relative path `path`, as
/// `relative_path::RelativePath::extension` gives it.
pub uninterp spec fn relative_extension(path: Seq<char>) -> Option<Seq<char>>;

/// The last name of the relative path `path`, as
/// `relative_path::RelativePath::file_name` gives it.
pub uninterp spec fn relative_file_name(path: Seq<char>) -> Option<Seq<char>>;

/// The steps of a relative path. Calls
/// `relative_path::RelativePath::components`. Trusted: the result is the
/// steps that the crate finds in this text.
#[verifier::external_body]
fn path_components(path: &str) -> (r: Vec<PathComponent>)
    ensures
        components_view(r@) == components_of(path@),
{
    relative_path::RelativePath::new(path).components().map(
        |c| match c {
            relative_path::Component::CurDir => PathComponent::CurDir,
            relative_path::Component::ParentDir => PathComponent::ParentDir,
            relative_path::Component::Normal(name) => PathComponent::Normal(name.to_string()),
        },
    ).collect()
}

/// Whether a name is fit for a file name. Calls
/// `sanitize_filename::is_sanitized_with_options`. Trusted: the result is the
/// crate's verdict on this name under these options.
#[verifier::external_body]
fn name_is_sanitized(name: &str, windows: bool, truncate: bool) -> (r: bool)
    ensures
        r == is_sanitized_name(name@, windows, truncate),
{
    sanitize_filename::is_sanitized_with_options(
        name,
        sanitize_filename::OptionsForCheck { windows, truncate },
    )
}

/// The normal form of a relative path. Calls
/// `relative_path::RelativePath::normalize`. Trusted: the result is the
/// crate's normal form of this text.
#[verifier::external_body]
fn normalize_path(path: &str) -> (r: String)
    ensures
        r@ == normalized_path(path@),
{
    relative_path::RelativePath::new(path).normalize().into_string()
}

/// A relative path without a prefix. Calls
/// `relative_path::RelativePath::strip_prefix`. Trusted: the result is what
/// the crate leaves of this text, and `None` where it reports an error.
#[verifier::external_body]
fn strip_path_prefix<'a>(path: &'a str, prefix: &str) -> (r: Option<&'a str>)
    ensures
        r is Some == stripped_path(path@, prefix@) is Some,
        r matches Some(rest) ==> rest@ == stripped_path(path@, prefix@)->0,
{
    relative_path::RelativePath::new(path).strip_prefix(prefix).ok().map(|rest| rest.as_str())
}

/// Whether a relative path begins with another. Calls
/// `relative_path::RelativePath::starts_with`. Trusted: the result is the
/// crate's verdict on these two texts, and it is the same as whether
/// `strip_prefix` succeeds on them.
#[verifier::external_body]
fn relative_path_starts_with(path: &str, base: &str) -> (r: bool)
    ensures
        r == path_starts_with(path@, base@),
        r == (stripped_path(path@, base@) is Some),
{
    relative_path::RelativePath::new(path).starts_with(base)
}

/// The extension of a relative path. Calls
/// `relative_path::RelativePath::extension`. Trusted: the result is what the
/// crate finds in this text.
#[verifier::external_body]
fn extension_of_relative<'a>(path: &'a str) -> (r: Option<&'a str>)
    ensures
        r is Some == relative_extension(path@) is Some,
        r matches Some(ext) ==> ext@ == relative_extension(path@)->0,
{
    relative_path::RelativePath::new(path).extension()
}

/// The last name of a relative path. Calls
/// `relative_path::RelativePath::file_name`. Trusted: the result is what the
/// crate finds in this text.
#[verifier::external_body]
fn file_name_of_relative<'a>(path: &'a str) -> (r: Option<&'a str>)
    ensures
        r is Some == relative_file_name(path@) is Some,
        r matches Some(name) ==> name@ == relative_file_name(path@)->0,
{
    relative_path::RelativePath::new(path).file_name()
}

/// Whether a name is fit for a file on any system: the strict rules of
/// Windows hold, whatever the length.
pub open spec fn is_safe_name(name: Seq<char>) -> bool {
    is_sanitized_name(name, true, false)
}

/// Whether a step may stand in a safe path: it does not go up, and where it
/// goes into an entry, the entry's name is fit for a file.
pub open spec fn is_safe_component(component: ComponentView) -> bool {
    match component {
        ComponentView::CurDir => true,
        ComponentView::ParentDir => false,
        ComponentView::Normal(name) => is_safe_name(name),
    }
}

/// Whether all of `components` may stand in a safe path.
pub open spec fn all_safe(components: Seq<ComponentView>) -> bool {
    forall|i: int| 0 <= i < components.len() ==> is_safe_component(#[trigger] components[i])
}

/// The texts of `components`, in order.
pub open spec fn component_texts(components: Seq<ComponentView>) -> Seq<Seq<char>> {
    Seq::new(components.len(), |i: int| components[i].text())
}

/// A relative path that stays below the directory it is joined onto.
#[derive(Debug)]
pub struct SafePath {
    path: String,
}

impl View for SafePath {
    type V = Seq<char>;

    closed spec fn view(&self) -> Seq<char> {
        self.path@
    }
}

impl SafePath {
    /// The safe path that the relative path `relative` stands for: its normal
    /// form, if none of its steps goes up and every name in it is fit for a
    /// file.
    pub fn from_relative_path(relative: &str) -> (r: Option<SafePath>)
        ensures
            r is Some == all_safe(components_of(relative@)),
            r matches Some(path) ==> path@ == normalized_path(relative@),
    {
        let components = path_components(relative);
        let mut i: usize = 0;
        while i < components.len()
            invariant
                i <= components.len(),
                components_view(components@) == components_of(relative@),
                forall|j: int|
                    0 <= j < i ==> is_safe_component(#[trigger] components_of(relative@)[j]),
            decreases components.len() - i,
        {
            assert(components_view(components@)[i as int] == components@[i as int]@);
            match &components[i] {
                PathComponent::CurDir => {},
                PathComponent::ParentDir => {
                    return None;
                },
                PathComponent::Normal(name) => {
                    if !name_is_sanitized(name.as_str(), true, false) {
                        return None;
                    }
                },
            }
            i += 1;
        }
        Some(SafePath { path: normalize_path(relative) })
    }

    /// The safe path that `path` stands for, if it is safe.
    pub fn new(path: &str) -> (r: Option<SafePath>)
        ensures
            r is Some == all_safe(components_of(path@)),
            r matches Some(safe) ==> safe@ == normalized_path(path@),
    {
        SafePath::from_relative_path(path)
    }

    /// The path below `base` that this path leads to: the names of `base`,
    /// then each step of this path as it is written.
    pub fn to_path(&self, base: &FsPath) -> (r: FsPath)
        ensures
            r@ == (FsPathView {
                absolute: base@.absolute,
                names: base@.names + component_texts(components_of(self@)),
            }),
    {
        let components = path_components(self.path.as_str());
        let ghost steps = components_of(self@);
        let mut out = base.clone();
        let mut i: usize = 0;
        assert(component_texts(steps).take(0) =~= Seq::empty());
        assert(base@.names + Seq::<Seq<char>>::empty() =~= base@.names);
        while i < components.len()
            invariant
                i <= components.len(),
                components_view(components@) == steps,
                out@.absolute == base@.absolute,
                out@.names == base@.names + component_texts(steps).take(i as int),
            decreases components.len() - i,
        {
            assert(components_view(components@)[i as int] == components@[i as int]@);
            let ghost before = out@.names;
            let text: &str = match &components[i] {
                PathComponent::CurDir => ".",
                PathComponent::ParentDir => "..",
                PathComponent::Normal(name) => name.as_str(),
            };
            out = out.child(text);
            assert(component_texts(steps).take(i + 1) =~= component_texts(steps).take(
                i as int,
            ).push(steps[i as int].text()));
            assert(out@.names =~= base@.names + component_texts(steps).take(i + 1));
            i += 1;
        }
        assert(component_texts(steps).take(components.len() as int) =~= component_texts(steps));
        out
    }

    /// The path as text.
    pub fn as_str(&self) -> (r: &str)
        ensures
            r@ == self@,
    {
        self.path.as_str()
    }

    /// What is left of the path behind the steps of `prefix`; `None` where the
    /// path does not begin with them.
    pub fn strip_prefix(&self, prefix: &str) -> (r: Option<SafePath>)
        ensures
            r is Some == stripped_path(self@, prefix@) is Some,
            r matches Some(rest) ==> rest@ == stripped_path(self@, prefix@)->0,
    {
        match strip_path_prefix(self.path.as_str(), prefix) {
            Some(rest) => Some(SafePath { path: String::from_str(rest) }),
            None => None,
        }
    }

    /// Whether the path begins with the steps of `base`: exactly then can
    /// `base` be stripped from it.
    pub fn starts_with(&self, base: &str) -> (r: bool)
        ensures
            r == path_starts_with(self@, base@),
            r == (stripped_path(self@, base@) is Some),
    {
        relative_path_starts_with(self.path.as_str(), base)
    }

    /// The extension of the path's last name.
    pub fn extension(&self) -> (r: Option<&str>)
        ensures
            r is Some == relative_extension(self@) is Some,
            r matches Some(ext) ==> ext@ == relative_extension(self@)->0,
    {
        extension_of_relative(self.path.as_str())
    }

    /// The last name of the path.
    pub fn file_name(&self) -> (r: Option<&str>)
        ensures
            r is Some == relative_file_name(self@) is Some,
            r matches Some(name) ==> name@ == relative_file_name(self@)->0,
    {
        file_name_of_relative(self.path.as_str())
    }
}

impl Clone for SafePath {
    fn clone(&self) -> (r: SafePath)
        ensures
            r@ == self@,
    {
        SafePath { path: self.path.clone() }
    }
}

impl PartialEq for SafePath {
    fn eq(&self, other: &SafePath) -> (r: bool) {
        self.path == other.path
    }
}

impl PartialEqSpecImpl for SafePath {
    open spec fn obeys_eq_spec() -> bool {
        true
    }

    open spec fn eq_spec(&self, other: &SafePath) -> bool {
        self@ == other@
    }
}

impl Eq for SafePath {

}

} // verus!
