//! The configuration of a session.

use std::path::PathBuf;
use vstd::prelude::*;

verus! {

/// `std::path::PathBuf`, a path of the file system. It is carried through
/// as it is: nothing is claimed of what it holds.
#[verifier::external_type_specification]
#[verifier::external_body]
pub struct ExPathBuf(PathBuf);

/// What holds for a whole session, over all its transforms.
pub struct SessionConfig {
    /// The directory that the project is rooted in.
    pub project_root: PathBuf,
}

/// Builds the configuration of a session.
pub struct SessionConfigBuilder {
    project_root: Option<PathBuf>,
}

impl SessionConfigBuilder {
    /// The root directory that has been set, if one has.
    pub closed spec fn root(&self) -> Option<PathBuf> {
        self.project_root
    }

    /// A builder in which nothing is set.
    pub fn new() -> (r: Self)
        ensures
            r.root() is None,
    {
        SessionConfigBuilder { project_root: None }
    }

    /// Sets the root directory of the project.
    pub fn project_root(self, project_root: PathBuf) -> (r: Self)
        ensures
            r.root() == Some(project_root),
    {
        let mut builder = self;
        builder.project_root = Some(project_root);
        builder
    }

    /// True when the root directory has been set, so that `build` may be
    /// called.
    pub fn is_complete(&self) -> (r: bool)
        ensures
            r == (self.root() is Some),
    {
        self.project_root.is_some()
    }

    /// The configuration. The root directory must have been set.
    pub fn build(self) -> (r: SessionConfig)
        requires
            self.root() is Some,
        ensures
            Some(r.project_root) == self.root(),
    {
        SessionConfig { project_root: self.project_root.unwrap() }
    }
}

} // verus!
