//! Name(s) and base of the packages that one PKGBUILD builds.

use vstd::prelude::*;

verus! {

/// Name(s) and base of the packages being built by a PKGBUILD.
#[derive(Debug, Clone, PartialEq, Eq)]
pub enum PkgBuildName {
    /// The PKGBUILD builds only a single package.
    Single(PkgBuildSingleName),
    /// The PKGBUILD builds multiple packages.
    Split(PkgBuildSplitName),
}

/// Name of the only package being built by a single-package PKGBUILD.
#[derive(Debug, Clone, PartialEq, Eq)]
pub struct PkgBuildSingleName {
    /// Name of the package.
    pub name: String,
}

/// Names and base of the packages being built by a split-packages PKGBUILD.
#[derive(Debug, Clone, PartialEq, Eq)]
pub struct PkgBuildSplitName {
    /// Base of the PKGBUILD.
    pub base: String,
    /// Names of the packages.
    pub names: Vec<String>,
}

/// A [`PkgBuildName`] as plain text.
pub enum PkgBuildNameView {
    /// One package, by its name.
    Single { name: Seq<char> },
    /// Several packages, by their shared base and their names in order.
    Split { base: Seq<char>, names: Seq<Seq<char>> },
}

impl PkgBuildNameView {
    /// The identity of the recipe as a whole: the base of a split recipe, the
    /// name of a single one.
    pub open spec fn base(self) -> Seq<char> {
        match self {
            PkgBuildNameView::Single { name } => name,
            PkgBuildNameView::Split { base, .. } => base,
        }
    }

    /// Whether the name has one of the two shapes in full: a split recipe
    /// names at least one package.
    pub open spec fn well_formed(self) -> bool {
        self matches PkgBuildNameView::Split { names, .. } ==> names.len() > 0
    }
}

impl View for PkgBuildName {
    type V = PkgBuildNameView;

    open spec fn view(&self) -> PkgBuildNameView {
        match *self {
            PkgBuildName::Single(single) => PkgBuildNameView::Single { name: single.name@ },
            PkgBuildName::Split(split) => PkgBuildNameView::Split {
                base: split.base@,
                names: split.names.deep_view(),
            },
        }
    }
}

impl DeepView for PkgBuildName {
    type V = PkgBuildNameView;

    open spec fn deep_view(&self) -> PkgBuildNameView {
        self@
    }
}

impl PkgBuildName {
    /// The string that identifies the recipe as a whole.
    pub open spec fn base_string(&self) -> String {
        match *self {
            PkgBuildName::Single(single) => single.name,
            PkgBuildName::Split(split) => split.base,
        }
    }

    /// Create the name of a single-package PKGBUILD.
    pub fn single(name: String) -> (package: Self)
        ensures
            package@ == (PkgBuildNameView::Single { name: name@ }),
            package@.well_formed(),
    {
        PkgBuildName::Single(PkgBuildSingleName { name })
    }

    /// Create the name of a split-packages PKGBUILD.
    pub fn split(base: String, names: Vec<String>) -> (package: Self)
        requires
            names@.len() > 0,
        ensures
            package@ == (PkgBuildNameView::Split { base: base@, names: names.deep_view() }),
            package@.well_formed(),
    {
        PkgBuildName::Split(PkgBuildSplitName { base, names })
    }

    /// The identity of the recipe as a whole: the base of a split recipe, the
    /// name of a single one.
    pub fn base(&self) -> (base: &String)
        ensures
            *base == self.base_string(),
            base@ == self@.base(),
    {
        match self {
            PkgBuildName::Single(single) => &single.name,
            PkgBuildName::Split(split) => &split.base,
        }
    }
}

} // verus!
