//! Groups of local PKGBUILD directories.

use crate::pkgbuild_desc::{LocalPkgBuildDesc, LocalPkgBuildDescView, PkgBuildDesc, PkgBuildDescView};
use crate::pkgbuild_group::{FieldError, MemberError, RecipeParams, TemplateField};
use crate::pkgbuild_name::{PkgBuildName, PkgBuildNameView};
use crate::template::params::{QueryCmd, QueryCommon, QueryEnv};
use crate::template::render::{is_rendering, render, renders_plainly};
use vstd::prelude::*;

verus! {

/// Grouping of multiple local PKGBUILD directories with similar properties.
#[derive(Debug, Clone, PartialEq, Eq)]
pub struct LocalPkgBuildGroup {
    /// Shared properties.
    pub header: LocalPkgBuildHeader,
    /// Descriptors of member PKGBUILD directories.
    pub members: Vec<LocalPkgBuildMember>,
}

/// Shared properties of members from within a [`LocalPkgBuildGroup`].
#[derive(Debug, Clone, PartialEq, Eq)]
pub struct LocalPkgBuildHeader {
    /// Shared template of local directory paths, relative to the configuration file.
    pub dir_path_template: String,
}

/// Member of a [`LocalPkgBuildGroup`].
#[derive(Debug, Clone, PartialEq, Eq)]
pub enum LocalPkgBuildMember {
    /// The name of the package to be built.
    SimpleName(String),
    /// Complex specification with potential overrides.
    ComplexSpec(LocalPkgBuildComplexMember),
}

/// Complex specification of a [`LocalPkgBuildMember`].
#[derive(Debug, Clone, PartialEq, Eq)]
pub struct LocalPkgBuildComplexMember {
    /// Name(s) and base of the packages being built by the PKGBUILD.
    pub package: PkgBuildName,
}

/// A member stands for the recipe that it names: a bare name for the
/// single-package recipe of that name.
impl View for LocalPkgBuildMember {
    type V = PkgBuildNameView;

    open spec fn view(&self) -> PkgBuildNameView {
        match *self {
            LocalPkgBuildMember::SimpleName(name) => PkgBuildNameView::Single { name: name@ },
            LocalPkgBuildMember::ComplexSpec(spec) => spec.package@,
        }
    }
}

impl DeepView for LocalPkgBuildMember {
    type V = PkgBuildNameView;

    open spec fn deep_view(&self) -> PkgBuildNameView {
        self@
    }
}

impl LocalPkgBuildMember {
    /// The recipe that the member names.
    pub fn into_package(self) -> (package: PkgBuildName)
        ensures
            package@ == self@,
    {
        match self {
            LocalPkgBuildMember::SimpleName(name) => PkgBuildName::single(name),
            LocalPkgBuildMember::ComplexSpec(LocalPkgBuildComplexMember { package }) => package,
        }
    }
}

impl LocalPkgBuildHeader {
    /// Whether `desc` can be what this header makes of `member`: the member's
    /// own name, and as directory a rendering of the shared template for the
    /// member's base.
    pub open spec fn yields(&self, member: PkgBuildNameView, desc: LocalPkgBuildDescView) -> bool {
        &&& desc.package == member
        &&& is_rendering(self.dir_path_template@, member.base(), desc.dir)
    }

    /// Whether `desc` describes a local directory and can be what this header
    /// makes of `member`.
    pub open spec fn describes(&self, member: PkgBuildNameView, desc: PkgBuildDescView) -> bool {
        desc matches PkgBuildDescView::Local(local) && self.yields(member, local)
    }

    /// Whether `error` can be what applying this header ends in: the shared
    /// template of the directory path fails so.
    pub open spec fn fails_with<EnvError, CommandError>(
        &self,
        error: FieldError<EnvError, CommandError>,
    ) -> bool {
        error.field == TemplateField::DirPath && error.cause.explains(self.dir_path_template@)
    }

    /// Apply this header to a member.
    ///
    /// Variables and commands that the template asks for are handed to
    /// `outer`; where it asks for neither, the description is owed.
    pub fn apply<Outer>(&self, member: LocalPkgBuildMember, outer: &Outer) -> (result: Result<
        LocalPkgBuildDesc,
        FieldError<<Outer as QueryEnv>::Error, <Outer as QueryCmd>::Error>,
    >) where
        Outer: QueryCommon<Value = String> + QueryEnv<Name = String> + QueryCmd<Command = String>,

        ensures
            match result {
                Ok(desc) => self.yields(member@, desc@),
                Err(error) => self.fails_with(error),
            },
            renders_plainly(self.dir_path_template@) ==> result is Ok,
    {
        let package = member.into_package();
        let params = RecipeParams { base: package.base(), outer };
        match render(self.dir_path_template.as_str(), &params) {
            Ok(dir) => Ok(LocalPkgBuildDesc { package, dir }),
            Err(cause) => Err(FieldError { field: TemplateField::DirPath, cause }),
        }
    }
}

impl LocalPkgBuildGroup {
    /// Whether `desc` can be the description of the member at `member`.
    pub open spec fn yields(&self, member: int, desc: PkgBuildDescView) -> bool {
        self.header.describes(self.members.deep_view()[member], desc)
    }

    /// Whether every member is described without the environment or a
    /// command having a say.
    pub open spec fn normalizes_plainly(&self) -> bool {
        self.members@.len() > 0 ==> renders_plainly(self.header.dir_path_template@)
    }

    /// Append this group to a list as normalized descriptions.
    ///
    /// The members are described in their order. Where one of them fails, the
    /// list is left as it was.
    pub fn normalize<Outer>(self, outer: &Outer, target: &mut Vec<PkgBuildDesc>) -> (result: Result<
        (),
        MemberError<<Outer as QueryEnv>::Error, <Outer as QueryCmd>::Error>,
    >) where
        Outer: QueryCommon<Value = String> + QueryEnv<Name = String> + QueryCmd<Command = String>,

        ensures
            match result {
                Ok(()) => {
                    &&& final(target)@.len() == old(target)@.len() + self.members@.len()
                    &&& final(target)@.take(old(target)@.len() as int) == old(target)@
                    &&& forall|i: int|
                        0 <= i < self.members@.len() ==> self.yields(
                            i,
                            #[trigger] final(target).deep_view()[old(target)@.len() + i],
                        )
                },
                Err(error) => {
                    &&& *final(target) == *old(target)
                    &&& error.member < self.members@.len()
                    &&& self.header.fails_with(error.error)
                },
            },
            self.normalizes_plainly() ==> result is Ok,
    {
        let LocalPkgBuildGroup { header, members } = self;
        let mut descs: Vec<PkgBuildDesc> = Vec::new();
        for member in iter: members
            invariant
                header == self.header,
                iter.seq() == self.members@,
                *target == *old(target),
                descs@.len() == iter.index(),
                forall|i: int|
                    0 <= i < descs@.len() ==> self.yields(i, #[trigger] descs.deep_view()[i]),
        {
            let ghost before = descs.deep_view();
            match header.apply(member, outer) {
                Ok(desc) => descs.push(PkgBuildDesc::Local(desc)),
                Err(error) => {
                    return Err(MemberError { member: descs.len(), error });
                },
            }
            proof {
                assert forall|i: int| 0 <= i < descs@.len() implies self.yields(
                    i,
                    #[trigger] descs.deep_view()[i],
                ) by {
                    if i < before.len() {
                        assert(descs.deep_view()[i] == before[i]);
                    }
                }
            }
        }
        let ghost start = target@.len();
        let ghost added = descs.deep_view();
        target.append(&mut descs);
        proof {
            assert(target@.take(start as int) =~= old(target)@);
            assert forall|i: int| 0 <= i < self.members@.len() implies self.yields(
                i,
                #[trigger] target.deep_view()[start + i],
            ) by {
                assert(target.deep_view()[start + i] == added[i]);
            }
        }
        Ok(())
    }
}

} // verus!
