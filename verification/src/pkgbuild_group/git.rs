//! Groups of PKGBUILD git repositories.

use crate::pkgbuild_desc::{GitPkgBuildDesc, GitPkgBuildDescView, PkgBuildDesc, PkgBuildDescView};
use crate::pkgbuild_group::{FieldError, MemberError, RecipeParams, TemplateField};
use crate::pkgbuild_name::{PkgBuildName, PkgBuildNameView};
use crate::template::params::{QueryCmd, QueryCommon, QueryEnv, QueryPkgbuild};
use crate::template::render::{is_rendering, render, renders_plainly, RenderError};
use vstd::prelude::*;

verus! {

/// Grouping of multiple PKGBUILD git repositories with similar properties.
#[derive(Debug, Clone, PartialEq, Eq)]
pub struct GitPkgBuildGroup {
    /// Shared properties.
    pub header: GitPkgBuildHeader,
    /// Descriptors of member PKGBUILD git repositories.
    pub members: Vec<GitPkgBuildMember>,
}

/// Shared properties of members from within a [`GitPkgBuildGroup`].
#[derive(Debug, Clone, PartialEq, Eq)]
pub struct GitPkgBuildHeader {
    /// Shared template of the git repository URLs.
    pub git_url_template: String,
    /// Default historical depth to clone.
    pub git_depth: Option<u64>,
    /// Shared template of branch names or tag names to check out.
    pub git_ref_template: Option<String>,
    /// Shared template of the path to the sub directory that contains the PKGBUILD, relative to the git repo root.
    pub sub_dir_template: Option<String>,
}

/// Member of a [`GitPkgBuildGroup`].
#[derive(Debug, Clone, PartialEq, Eq)]
pub enum GitPkgBuildMember {
    /// The name of the package to be built.
    SimpleName(String),
    /// Complex specification with potential overrides.
    ComplexSpec(GitPkgBuildComplexMember),
}

/// Complex specification of a [`GitPkgBuildMember`] with potential overrides.
#[derive(Debug, Clone, PartialEq, Eq)]
pub struct GitPkgBuildComplexMember {
    /// Name(s) and base of the packages being built by the PKGBUILD.
    pub package: PkgBuildName,
    /// Override the URL of the git repository.
    pub git_url: Option<String>,
    /// Override historical depth to clone.
    pub git_depth: Option<u64>,
    /// Override the branch, tag, or commit to check out.
    pub git_ref: Option<String>,
    /// Override the path to the directory containing PKGBUILD, relative to the git repo root.
    pub sub_dir: Option<String>,
}

/// A [`GitPkgBuildComplexMember`] as plain text.
pub struct GitPkgBuildComplexMemberView {
    pub package: PkgBuildNameView,
    pub git_url: Option<Seq<char>>,
    pub git_depth: Option<u64>,
    pub git_ref: Option<Seq<char>>,
    pub sub_dir: Option<Seq<char>>,
}

impl GitPkgBuildComplexMemberView {
    /// The member that only names a single package and overrides nothing.
    pub open spec fn with_single_name(name: Seq<char>) -> Self {
        GitPkgBuildComplexMemberView {
            package: PkgBuildNameView::Single { name },
            git_url: None,
            git_depth: None,
            git_ref: None,
            sub_dir: None,
        }
    }

    /// The member's own value for a templated property, if it has one.
    pub open spec fn own(self, field: TemplateField) -> Option<Seq<char>> {
        match field {
            TemplateField::DirPath => None,
            TemplateField::GitUrl => self.git_url,
            TemplateField::GitRef => self.git_ref,
            TemplateField::SubDir => self.sub_dir,
        }
    }
}

impl View for GitPkgBuildComplexMember {
    type V = GitPkgBuildComplexMemberView;

    open spec fn view(&self) -> GitPkgBuildComplexMemberView {
        GitPkgBuildComplexMemberView {
            package: self.package@,
            git_url: self.git_url.deep_view(),
            git_depth: self.git_depth,
            git_ref: self.git_ref.deep_view(),
            sub_dir: self.sub_dir.deep_view(),
        }
    }
}

/// A member stands for its complex form: a bare name for the single-package
/// recipe of that name with no override.
impl View for GitPkgBuildMember {
    type V = GitPkgBuildComplexMemberView;

    open spec fn view(&self) -> GitPkgBuildComplexMemberView {
        match *self {
            GitPkgBuildMember::SimpleName(name) => GitPkgBuildComplexMemberView::with_single_name(
                name@,
            ),
            GitPkgBuildMember::ComplexSpec(spec) => spec@,
        }
    }
}

impl DeepView for GitPkgBuildMember {
    type V = GitPkgBuildComplexMemberView;

    open spec fn deep_view(&self) -> GitPkgBuildComplexMemberView {
        self@
    }
}

/// Whether `value` can be what becomes of a property for a recipe with the
/// given base: the member's own value where it has one; else a rendering of
/// the shared template where there is one; else nothing.
pub open spec fn resolves_to(
    own: Option<Seq<char>>,
    shared: Option<Seq<char>>,
    base: Seq<char>,
    value: Option<Seq<char>>,
) -> bool {
    match (own, shared) {
        (Some(own), _) => value == Some(own),
        (None, Some(template)) => value matches Some(text) && is_rendering(template, base, text),
        (None, None) => value is None,
    }
}

/// Whether a property comes about without the environment or a command
/// having a say: the member has its own value, or there is no shared template,
/// or that template renders plainly.
pub open spec fn resolves_plainly(own: Option<Seq<char>>, shared: Option<Seq<char>>) -> bool {
    own is None ==> (shared matches Some(template) ==> renders_plainly(template))
}

/// The value of one property: the member's own, or else the shared template
/// rendered through `params`, or else none.
fn resolve_field<Params>(own: Option<String>, shared: Option<&String>, params: &Params) -> (result:
    Result<Option<String>, RenderError<<Params as QueryEnv>::Error, <Params as QueryCmd>::Error>>) where
    Params: QueryPkgbuild + QueryCommon<Value = String> + QueryEnv<Name = String> + QueryCmd<
        Command = String,
    >,

    ensures
        match result {
            Ok(value) => resolves_to(
                own.deep_view(),
                shared.deep_view(),
                params.base_value()@,
                value.deep_view(),
            ),
            Err(cause) => {
                &&& own is None
                &&& shared matches Some(template) && cause.explains(template@)
            },
        },
        resolves_plainly(own.deep_view(), shared.deep_view()) ==> result is Ok,
{
    match own {
        Some(value) => Ok(Some(value)),
        None => match shared {
            Some(template) => match render(template.as_str(), params) {
                Ok(text) => Ok(Some(text)),
                Err(cause) => Err(cause),
            },
            None => Ok(None),
        },
    }
}

impl GitPkgBuildHeader {
    /// The shared template of a property, if the header has one.
    pub open spec fn shared(&self, field: TemplateField) -> Option<Seq<char>> {
        match field {
            TemplateField::DirPath => None,
            TemplateField::GitUrl => Some(self.git_url_template@),
            TemplateField::GitRef => self.git_ref_template.deep_view(),
            TemplateField::SubDir => self.sub_dir_template.deep_view(),
        }
    }

    /// Whether `desc` can be what this header makes of `member`. The member's
    /// name is kept. For each property the member's own value wins; without
    /// one, the URL, the ref and the sub directory are renderings of the
    /// shared templates for the member's base, as far as there are such, and
    /// the depth is the shared default.
    pub open spec fn yields(
        &self,
        member: GitPkgBuildComplexMemberView,
        desc: GitPkgBuildDescView,
    ) -> bool {
        let base = member.package.base();
        &&& desc.package == member.package
        &&& resolves_to(member.git_url, self.shared(TemplateField::GitUrl), base, Some(desc.git_url))
        &&& desc.git_depth == if member.git_depth is Some {
            member.git_depth
        } else {
            self.git_depth
        }
        &&& resolves_to(member.git_ref, self.shared(TemplateField::GitRef), base, desc.git_ref)
        &&& resolves_to(member.sub_dir, self.shared(TemplateField::SubDir), base, desc.sub_dir)
    }

    /// Whether `desc` describes a git repository and can be what this header
    /// makes of `member`.
    pub open spec fn describes(
        &self,
        member: GitPkgBuildComplexMemberView,
        desc: PkgBuildDescView,
    ) -> bool {
        desc matches PkgBuildDescView::Git(git) && self.yields(member, git)
    }

    /// Whether `error` can be what applying this header to `member` ends in:
    /// it names a property of a git group for which the member has no value
    /// of its own, and the shared template of that property fails so.
    pub open spec fn fails_with<EnvError, CommandError>(
        &self,
        member: GitPkgBuildComplexMemberView,
        error: FieldError<EnvError, CommandError>,
    ) -> bool {
        &&& error.field != TemplateField::DirPath
        &&& member.own(error.field) is None
        &&& self.shared(error.field) matches Some(template) && error.cause.explains(template)
    }

    /// Whether this header makes a description of `member` without the
    /// environment or a command having a say.
    pub open spec fn applies_plainly(&self, member: GitPkgBuildComplexMemberView) -> bool {
        &&& resolves_plainly(member.git_url, self.shared(TemplateField::GitUrl))
        &&& resolves_plainly(member.git_ref, self.shared(TemplateField::GitRef))
        &&& resolves_plainly(member.sub_dir, self.shared(TemplateField::SubDir))
    }

    /// Apply this header to a member.
    ///
    /// The properties are resolved in the order URL, ref, sub directory, and
    /// the first template that fails ends it. A template is only rendered
    /// where the member has no value of its own.
    pub fn apply<Outer>(&self, member: GitPkgBuildMember, outer: &Outer) -> (result: Result<
        GitPkgBuildDesc,
        FieldError<<Outer as QueryEnv>::Error, <Outer as QueryCmd>::Error>,
    >) where
        Outer: QueryCommon<Value = String> + QueryEnv<Name = String> + QueryCmd<Command = String>,

        ensures
            match result {
                Ok(desc) => self.yields(member@, desc@),
                Err(error) => self.fails_with(member@, error),
            },
            self.applies_plainly(member@) ==> result is Ok,
    {
        let GitPkgBuildComplexMember { package, git_url, git_depth, git_ref, sub_dir } =
            member.normalize();
        let params = RecipeParams { base: package.base(), outer };
        let git_url = match resolve_field(git_url, Some(&self.git_url_template), &params) {
            Ok(url) => url.unwrap(),
            Err(cause) => return Err(FieldError { field: TemplateField::GitUrl, cause }),
        };
        let git_depth = match git_depth {
            Some(depth) => Some(depth),
            None => self.git_depth,
        };
        let git_ref = match resolve_field(git_ref, self.git_ref_template.as_ref(), &params) {
            Ok(git_ref) => git_ref,
            Err(cause) => return Err(FieldError { field: TemplateField::GitRef, cause }),
        };
        let sub_dir = match resolve_field(sub_dir, self.sub_dir_template.as_ref(), &params) {
            Ok(sub_dir) => sub_dir,
            Err(cause) => return Err(FieldError { field: TemplateField::SubDir, cause }),
        };
        Ok(GitPkgBuildDesc { package, git_url, git_depth, git_ref, sub_dir })
    }
}

impl GitPkgBuildMember {
    /// Normalize all variants of this member into a complex spec.
    pub fn normalize(self) -> (spec: GitPkgBuildComplexMember)
        ensures
            spec@ == self@,
    {
        match self {
            GitPkgBuildMember::SimpleName(name) => GitPkgBuildComplexMember::with_single_name(name),
            GitPkgBuildMember::ComplexSpec(spec) => spec,
        }
    }
}

impl GitPkgBuildComplexMember {
    /// Create a complex spec with only a name.
    pub fn with_single_name(name: String) -> (spec: Self)
        ensures
            spec@ == GitPkgBuildComplexMemberView::with_single_name(name@),
    {
        GitPkgBuildComplexMember {
            package: PkgBuildName::single(name),
            git_url: None,
            git_depth: None,
            git_ref: None,
            sub_dir: None,
        }
    }
}

impl GitPkgBuildGroup {
    /// Whether `desc` can be the description of the member at `member`.
    pub open spec fn yields(&self, member: int, desc: PkgBuildDescView) -> bool {
        self.header.describes(self.members.deep_view()[member], desc)
    }

    /// Whether the header makes a description of every member without the
    /// environment or a command having a say.
    pub open spec fn normalizes_plainly(&self) -> bool {
        forall|i: int|
            0 <= i < self.members@.len() ==> self.header.applies_plainly(
                #[trigger] self.members.deep_view()[i],
            )
    }

    /// Append this group to a list as normalized descriptions.
    ///
    /// The members are described in their order. Where one of them fails, the
    /// list is left as it was.
    pub fn normalize<Outer>(self, outer: &Outer, target: &mut Vec<PkgBuildDesc>) -> (result: Result<
        (),
        MemberError<<Outer as QueryEnv>::Error, <Outer as QueryCmd>::Error>,
    >) where
        Outer: QueryCommon<Value = String> + QueryEnv<Name = String> + QueryCmd<Command = String>,

        ensures
            match result {
                Ok(()) => {
                    &&& final(target)@.len() == old(target)@.len() + self.members@.len()
                    &&& final(target)@.take(old(target)@.len() as int) == old(target)@
                    &&& forall|i: int|
                        0 <= i < self.members@.len() ==> self.yields(
                            i,
                            #[trigger] final(target).deep_view()[old(target)@.len() + i],
                        )
                },
                Err(error) => {
                    &&& *final(target) == *old(target)
                    &&& error.member < self.members@.len()
                    &&& self.header.fails_with(
                        self.members.deep_view()[error.member as int],
                        error.error,
                    )
                },
            },
            self.normalizes_plainly() ==> result is Ok,
    {
        let GitPkgBuildGroup { header, members } = self;
        let mut descs: Vec<PkgBuildDesc> = Vec::new();
        for member in iter: members
            invariant
                header == self.header,
                iter.seq() == self.members@,
                *target == *old(target),
                descs@.len() == iter.index(),
                forall|i: int|
                    0 <= i < descs@.len() ==> self.yields(i, #[trigger] descs.deep_view()[i]),
        {
            let ghost before = descs.deep_view();
            proof {
                assert(self.members.deep_view()[before.len() as int] == member@);
            }
            match header.apply(member, outer) {
                Ok(desc) => descs.push(PkgBuildDesc::Git(desc)),
                Err(error) => {
                    return Err(MemberError { member: descs.len(), error });
                },
            }
            proof {
                assert forall|i: int| 0 <= i < descs@.len() implies self.yields(
                    i,
                    #[trigger] descs.deep_view()[i],
                ) by {
                    if i < before.len() {
                        assert(descs.deep_view()[i] == before[i]);
                    }
                }
            }
        }
        let ghost start = target@.len();
        let ghost added = descs.deep_view();
        target.append(&mut descs);
        proof {
            assert(target@.take(start as int) =~= old(target)@);
            assert forall|i: int| 0 <= i < self.members@.len() implies self.yields(
                i,
                #[trigger] target.deep_view()[start + i],
            ) by {
                assert(target.deep_view()[start + i] == added[i]);
            }
        }
        Ok(())
    }
}

/// A member's own `git_ref` is the `git_ref` of its description, whatever the
/// header's template for it says.
pub proof fn lemma_own_git_ref_wins(group: GitPkgBuildGroup, member: int, desc: PkgBuildDescView)
    requires
        0 <= member < group.members@.len(),
        group.yields(member, desc),
        group.members.deep_view()[member].git_ref is Some,
    ensures
        desc matches PkgBuildDescView::Git(git) && git.git_ref
            == group.members.deep_view()[member].git_ref,
{
}

/// Where neither the member nor the header gives a depth, the description
/// has none.
pub proof fn lemma_no_git_depth(group: GitPkgBuildGroup, member: int, desc: PkgBuildDescView)
    requires
        0 <= member < group.members@.len(),
        group.yields(member, desc),
        group.members.deep_view()[member].git_depth is None,
        group.header.git_depth is None,
    ensures
        desc matches PkgBuildDescView::Git(git) && git.git_depth is None,
{
}

/// Override precedence, property by property: a member's own value is the
/// description's, and the depth falls back to the header's default.
pub proof fn lemma_own_values_win(
    header: GitPkgBuildHeader,
    member: GitPkgBuildComplexMemberView,
    desc: GitPkgBuildDescView,
)
    requires
        header.yields(member, desc),
    ensures
        desc.package == member.package,
        member.git_url matches Some(url) ==> desc.git_url == url,
        member.git_depth is Some ==> desc.git_depth == member.git_depth,
        member.git_depth is None ==> desc.git_depth == header.git_depth,
        member.git_ref is Some ==> desc.git_ref == member.git_ref,
        member.sub_dir is Some ==> desc.sub_dir == member.sub_dir,
        member.git_ref is None && header.git_ref_template is None ==> desc.git_ref is None,
        member.sub_dir is None && header.sub_dir_template is None ==> desc.sub_dir is None,
{
}

} // verus!
