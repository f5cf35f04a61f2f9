//! The inputs of one build: where it may write, what it builds for, and
//! what it runs on.

use crate::text::has_prefix;
use vstd::prelude::*;

verus! {

/// The path convention of the machine that runs the build.
#[derive(Clone, Copy, Debug, PartialEq, Eq, Structural)]
pub enum PlatformFamily {
    /// Windows with an MSYS shell: paths are drive-rooted and use
    /// backslashes, while the configuration script wants forward slashes.
    WindowsMsys,
    /// Everything else: paths are handed on as they are.
    Other,
}

/// Whether `triple` names a 32-bit x86 target. The test is a plain prefix
/// match on the architecture component, and nothing wider.
pub open spec fn is_x86_32(triple: Seq<char>) -> bool {
    "i686-"@.is_prefix_of(triple)
}

/// Whether `triple` names a 32-bit x86 target.
pub fn names_x86_32(triple: &str) -> (narrow: bool)
    ensures
        narrow == is_x86_32(triple@),
{
    has_prefix(triple, "i686-")
}

/// A [`BuildContext`] with its strings read as character sequences.
pub struct BuildContextView {
    pub output_root: Seq<char>,
    pub target_triple: Seq<char>,
    pub host_triple: Seq<char>,
}

impl BuildContextView {
    /// Both triples are present.
    pub open spec fn well_formed(self) -> bool {
        self.target_triple.len() > 0 && self.host_triple.len() > 0
    }

    /// The build produces code for a platform other than the one it runs on.
    pub open spec fn is_cross(self) -> bool {
        self.target_triple != self.host_triple
    }

    /// The build produces 32-bit x86 code.
    pub open spec fn targets_x86_32(self) -> bool {
        is_x86_32(self.target_triple)
    }
}

/// What one build is given: the directory it owns, the platform it builds
/// for, and the platform it runs on. Fixed once made; neither triple is
/// ever empty.
#[derive(Debug, PartialEq, Eq)]
pub struct BuildContext {
    output_root: String,
    target_triple: String,
    host_triple: String,
}

impl View for BuildContext {
    type V = BuildContextView;

    closed spec fn view(&self) -> BuildContextView {
        BuildContextView {
            output_root: self.output_root@,
            target_triple: self.target_triple@,
            host_triple: self.host_triple@,
        }
    }
}

impl BuildContext {
    /// The invariant every context satisfies.
    #[verifier::type_invariant]
    pub open spec fn well_formed(&self) -> bool {
        self@.well_formed()
    }

    /// Makes a context, unless a triple is empty.
    pub fn new(output_root: String, target_triple: String, host_triple: String) -> (context: Option<
        BuildContext,
    >)
        ensures
            context is Some <==> target_triple@.len() > 0 && host_triple@.len() > 0,
            context matches Some(made) ==> made@ == (BuildContextView {
                output_root: output_root@,
                target_triple: target_triple@,
                host_triple: host_triple@,
            }),
    {
        if target_triple.as_str().is_empty() || host_triple.as_str().is_empty() {
            None
        } else {
            Some(BuildContext { output_root, target_triple, host_triple })
        }
    }

    /// The directory under which the build may create files.
    pub fn output_root(&self) -> (root: &str)
        ensures
            root@ == self@.output_root,
    {
        self.output_root.as_str()
    }

    /// The triple of the platform the library is built for.
    pub fn target_triple(&self) -> (triple: &str)
        ensures
            triple@ == self@.target_triple,
            triple@.len() > 0,
    {
        proof {
            use_type_invariant(self);
        }
        self.target_triple.as_str()
    }

    /// The triple of the platform the build runs on.
    pub fn host_triple(&self) -> (triple: &str)
        ensures
            triple@ == self@.host_triple,
            triple@.len() > 0,
    {
        proof {
            use_type_invariant(self);
        }
        self.host_triple.as_str()
    }

    /// Whether target and host differ.
    pub fn is_cross(&self) -> (cross: bool)
        ensures
            cross == self@.is_cross(),
    {
        self.target_triple != self.host_triple
    }

    /// Whether the target is 32-bit x86.
    pub fn targets_x86_32(&self) -> (narrow: bool)
        ensures
            narrow == self@.targets_x86_32(),
    {
        names_x86_32(self.target_triple.as_str())
    }
}

} // verus!
