//! Link directives: what the host build is told to link, how, and where to look for it.

use crate::text::followed_by;
use vstd::prelude::*;
use vstd::string::*;

verus! {

/// How the library is linked into the host project.
#[derive(Clone, Copy, Debug, PartialEq, Eq, Structural)]
pub enum LinkKind {
    /// The library's code is copied into the host artifact.
    Static,
    /// The library is resolved by the dynamic linker.
    Dynamic,
}

/// The one artifact handed to the host build: a library, its link kind, and
/// an optional directory to add to the linker's search path.
#[derive(Debug, PartialEq, Eq)]
pub struct LinkDirective {
    pub kind: LinkKind,
    pub library_name: String,
    pub search_path: Option<String>,
}

/// A [`LinkDirective`] with its strings read as character sequences.
pub struct LinkDirectiveView {
    pub kind: LinkKind,
    pub library_name: Seq<char>,
    pub search_path: Option<Seq<char>>,
}

impl View for LinkDirective {
    type V = LinkDirectiveView;

    open spec fn view(&self) -> LinkDirectiveView {
        LinkDirectiveView {
            kind: self.kind,
            library_name: self.library_name@,
            search_path: match self.search_path {
                Some(path) => Some(path@),
                None => None,
            },
        }
    }
}

/// The name under which the native library is linked.
pub open spec fn library_name() -> Seq<char> {
    "ffi"@
}

/// The directive for a library built from the vendored source and installed
/// under `library_dir`.
pub open spec fn built_directive(library_dir: Seq<char>) -> LinkDirectiveView {
    LinkDirectiveView {
        kind: LinkKind::Static,
        library_name: library_name(),
        search_path: Some(library_dir),
    }
}

/// The directive for a library that is already installed on the system: the
/// linker finds it on its default search path.
pub open spec fn probed_directive() -> LinkDirectiveView {
    LinkDirectiveView { kind: LinkKind::Dynamic, library_name: library_name(), search_path: None }
}

/// The word by which a link kind goes in a line for the host build.
pub open spec fn kind_word(kind: LinkKind) -> Seq<char> {
    match kind {
        LinkKind::Static => "static"@,
        LinkKind::Dynamic => "dylib"@,
    }
}

impl LinkDirectiveView {
    /// The line that names the library and its link kind.
    pub open spec fn library_line(self) -> Seq<char> {
        "cargo:rustc-link-lib="@ + kind_word(self.kind) + "="@ + self.library_name
    }

    /// The lines that hand the directive to the host build: the library
    /// first, then its search path, if it has one.
    pub open spec fn cargo_lines(self) -> Seq<Seq<char>> {
        match self.search_path {
            Some(path) => seq![self.library_line(), "cargo:rustc-link-search="@ + path],
            None => seq![self.library_line()],
        }
    }
}

impl LinkDirective {
    /// The lines to print for the host build.
    pub fn cargo_lines(&self) -> (lines: Vec<String>)
        ensures
            lines.deep_view() == self@.cargo_lines(),
    {
        let word = match self.kind {
            LinkKind::Static => "static",
            LinkKind::Dynamic => "dylib",
        };
        let mut library = followed_by("cargo:rustc-link-lib=", word);
        library.append("=");
        library.append(self.library_name.as_str());
        let mut lines: Vec<String> = Vec::new();
        lines.push(library);
        match &self.search_path {
            Some(path) => {
                lines.push(followed_by("cargo:rustc-link-search=", path.as_str()));
            },
            None => {},
        }
        lines
    }

    /// Links statically against the library installed under `library_dir`.
    pub fn built(library_dir: String) -> (directive: LinkDirective)
        ensures
            directive@ == built_directive(library_dir@),
    {
        LinkDirective {
            kind: LinkKind::Static,
            library_name: String::from_str("ffi"),
            search_path: Some(library_dir),
        }
    }
}

/// Uses the copy of the library that the system provides. Nothing is built
/// and nothing is inspected: the directive is always the same.
pub fn probe_and_link() -> (directive: LinkDirective)
    ensures
        directive@ == probed_directive(),
{
    LinkDirective {
        kind: LinkKind::Dynamic,
        library_name: String::from_str("ffi"),
        search_path: None,
    }
}

} // verus!
