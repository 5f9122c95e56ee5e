//! Descriptions of single PKGBUILD directories, free of templates.

use crate::pkgbuild_name::{PkgBuildName, PkgBuildNameView};
use vstd::prelude::*;

verus! {

/// Description of a single PKGBUILD directory.
#[derive(Debug, Clone, PartialEq, Eq)]
pub enum PkgBuildDesc {
    /// The PKGBUILD directory is in a local filesystem.
    Local(LocalPkgBuildDesc),
    /// The PKGBUILD directory is from a git repository.
    Git(GitPkgBuildDesc),
}

/// Description of a single local PKGBUILD directory.
#[derive(Debug, Clone, PartialEq, Eq)]
pub struct LocalPkgBuildDesc {
    /// Name(s) and base of the packages being built by the PKGBUILD.
    pub package: PkgBuildName,
    /// Location of the directory, relative to the configuration file.
    pub dir: String,
}

/// Description of a single remote PKGBUILD directory from a git repository.
#[derive(Debug, Clone, PartialEq, Eq)]
pub struct GitPkgBuildDesc {
    /// Name(s) and base of the packages being built by the PKGBUILD.
    pub package: PkgBuildName,
    /// URL of the repo to clone.
    pub git_url: String,
    /// Historical depth to clone.
    pub git_depth: Option<u64>,
    /// Branch, tag, or commit to check out.
    pub git_ref: Option<String>,
    /// Path to the sub directory that contains the PKGBUILD, relative to the git repo root.
    pub sub_dir: Option<String>,
}

/// A [`LocalPkgBuildDesc`] as plain text.
pub struct LocalPkgBuildDescView {
    pub package: PkgBuildNameView,
    pub dir: Seq<char>,
}

/// A [`GitPkgBuildDesc`] as plain text.
pub struct GitPkgBuildDescView {
    pub package: PkgBuildNameView,
    pub git_url: Seq<char>,
    pub git_depth: Option<u64>,
    pub git_ref: Option<Seq<char>>,
    pub sub_dir: Option<Seq<char>>,
}

/// A [`PkgBuildDesc`] as plain text.
pub enum PkgBuildDescView {
    Local(LocalPkgBuildDescView),
    Git(GitPkgBuildDescView),
}

impl View for LocalPkgBuildDesc {
    type V = LocalPkgBuildDescView;

    open spec fn view(&self) -> LocalPkgBuildDescView {
        LocalPkgBuildDescView { package: self.package@, dir: self.dir@ }
    }
}

impl View for GitPkgBuildDesc {
    type V = GitPkgBuildDescView;

    open spec fn view(&self) -> GitPkgBuildDescView {
        GitPkgBuildDescView {
            package: self.package@,
            git_url: self.git_url@,
            git_depth: self.git_depth,
            git_ref: self.git_ref.deep_view(),
            sub_dir: self.sub_dir.deep_view(),
        }
    }
}

impl View for PkgBuildDesc {
    type V = PkgBuildDescView;

    open spec fn view(&self) -> PkgBuildDescView {
        match *self {
            PkgBuildDesc::Local(desc) => PkgBuildDescView::Local(desc@),
            PkgBuildDesc::Git(desc) => PkgBuildDescView::Git(desc@),
        }
    }
}

impl DeepView for PkgBuildDesc {
    type V = PkgBuildDescView;

    open spec fn deep_view(&self) -> PkgBuildDescView {
        self@
    }
}

} // verus!
