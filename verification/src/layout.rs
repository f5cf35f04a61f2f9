//! Where the build keeps its files.

use crate::context::{is_x86_32, names_x86_32, BuildContext, BuildContextView};
use crate::path::{child, join};
use vstd::prelude::*;

verus! {

/// The directories of one build, all below its output root.
#[derive(Debug, PartialEq, Eq)]
pub struct Layout {
    /// The scratch copy of the source tree, in which the library is built.
    pub staging_dir: String,
    /// The root under which the built library is installed.
    pub install_prefix: String,
    /// The directory that holds the installed library itself.
    pub library_dir: String,
}

/// A [`Layout`] with its paths read as character sequences.
pub struct LayoutView {
    pub staging_dir: Seq<char>,
    pub install_prefix: Seq<char>,
    pub library_dir: Seq<char>,
}

impl View for Layout {
    type V = LayoutView;

    open spec fn view(&self) -> LayoutView {
        LayoutView {
            staging_dir: self.staging_dir@,
            install_prefix: self.install_prefix@,
            library_dir: self.library_dir@,
        }
    }
}

/// The name of the directory, below the install prefix, into which the
/// native build installs libraries for `target`: 32-bit x86 libraries go to
/// a directory of their own.
pub open spec fn library_subdir(target: Seq<char>) -> Seq<char> {
    if is_x86_32(target) {
        "lib32"@
    } else {
        "lib"@
    }
}

/// The layout that belongs to a context.
pub open spec fn layout_of(context: BuildContextView) -> LayoutView {
    LayoutView {
        staging_dir: child(context.output_root, "build-staging"@),
        install_prefix: child(context.output_root, "install-root"@),
        library_dir: child(
            child(context.output_root, "install-root"@),
            library_subdir(context.target_triple),
        ),
    }
}

impl LayoutView {
    /// The library directory is the one that the native build uses for
    /// `target`.
    pub open spec fn fits(self, target: Seq<char>) -> bool {
        self.library_dir == child(self.install_prefix, library_subdir(target))
    }
}

/// Computes the directories of a build from its context. Nothing is read
/// or created.
pub fn resolve_layout(context: &BuildContext) -> (layout: Layout)
    ensures
        layout@ == layout_of(context@),
        layout@.fits(context@.target_triple),
{
    let staging_dir = join(context.output_root(), "build-staging");
    let install_prefix = join(context.output_root(), "install-root");
    let library_dir = if names_x86_32(context.target_triple()) {
        join(install_prefix.as_str(), "lib32")
    } else {
        join(install_prefix.as_str(), "lib")
    };
    Layout { staging_dir, install_prefix, library_dir }
}

/// The library directory tells the width of the target: it ends in
/// `/lib32` exactly when the target is 32-bit x86, and in `/lib` exactly
/// when it is not.
pub proof fn lemma_library_dir_tells_width(context: BuildContextView)
    ensures
        "/lib32"@.is_suffix_of(layout_of(context).library_dir) <==> context.targets_x86_32(),
        "/lib"@.is_suffix_of(layout_of(context).library_dir) <==> !context.targets_x86_32(),
        layout_of(context).fits(context.target_triple),
{
    reveal_strlit("/lib32");
    reveal_strlit("/lib");
    reveal_strlit("lib32");
    reveal_strlit("lib");
    // The two endings differ in their last character.
    assert("/lib"@.last() == 'b' && "/lib32"@.last() == '2');
}

} // verus!
