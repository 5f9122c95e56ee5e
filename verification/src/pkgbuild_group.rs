//! Groupings of PKGBUILD directories with shared, templated properties, and
//! their normalization into descriptions of single directories.

pub mod git;
pub mod local;

use crate::pkgbuild_desc::{PkgBuildDesc, PkgBuildDescView};
use crate::template::params::{QueryCmd, QueryCommon, QueryEnv, QueryPkgbuild};
use crate::template::render::RenderError;
use git::GitPkgBuildGroup;
use local::LocalPkgBuildGroup;
use vstd::prelude::*;

verus! {

/// The parameter source of one recipe: the base is the recipe's own, and
/// queries for variables and commands are handed on to `outer`.
pub struct RecipeParams<'a, Outer> {
    /// The base of the recipe.
    pub base: &'a String,
    /// Who answers for the environment and runs the commands.
    pub outer: &'a Outer,
}

impl<'a, Outer> QueryCommon for RecipeParams<'a, Outer> {
    type Value = String;
}

impl<'a, Outer> QueryPkgbuild for RecipeParams<'a, Outer> {
    open spec fn base_value(&self) -> String {
        *self.base
    }

    fn base(&self) -> (value: String) {
        self.base.clone()
    }
}

impl<'a, Outer: QueryCommon<Value = String> + QueryEnv> QueryEnv for RecipeParams<'a, Outer> {
    type Name = <Outer as QueryEnv>::Name;

    type Error = <Outer as QueryEnv>::Error;

    fn env(&self, name: Self::Name) -> (found: Result<Option<String>, Self::Error>)
        ensures call_ensures(<Outer as QueryEnv>::env, (self.outer, name), found),
    {
        self.outer.env(name)
    }
}

impl<'a, Outer: QueryCommon<Value = String> + QueryCmd> QueryCmd for RecipeParams<'a, Outer> {
    type Command = <Outer as QueryCmd>::Command;
    type Error = <Outer as QueryCmd>::Error;
    fn run(&self, command: Self::Command) -> (ran: Result<String, Self::Error>)
        ensures call_ensures(<Outer as QueryCmd>::run, (self.outer, command), ran),
    {
        self.outer.run(command)
    }
}

/// The templated properties of a group.
#[derive(Debug, Clone, Copy, PartialEq, Eq, Structural)]
pub enum TemplateField {
    /// The directory path of a local group.
    DirPath,
    /// The repository URL of a git group.
    GitUrl,
    /// The branch, tag or commit of a git group.
    GitRef,
    /// The sub directory of a git group.
    SubDir,
}

/// Error when a property of one member cannot be rendered.
#[derive(Debug, Clone, PartialEq, Eq)]
pub struct FieldError<EnvError, CommandError> {
    /// The property whose template failed.
    pub field: TemplateField,
    /// Why rendering it failed.
    pub cause: RenderError<EnvError, CommandError>,
}

/// Error when a member of a group cannot be normalized.
#[derive(Debug, Clone, PartialEq, Eq)]
pub struct MemberError<EnvError, CommandError> {
    /// The place of the member in its group, counted from 0.
    pub member: usize,
    /// What failed for that member.
    pub error: FieldError<EnvError, CommandError>,
}

/// Error when a group of a list of sources cannot be normalized.
#[derive(Debug, Clone, PartialEq, Eq)]
pub struct NormalizeError<EnvError, CommandError> {
    /// The place of the group in the list, counted from 0.
    pub group: usize,
    /// What failed in that group.
    pub error: MemberError<EnvError, CommandError>,
}

/// Grouping of multiple PKGBUILD directories with similar properties.
#[derive(Debug, Clone, PartialEq, Eq)]
pub enum PkgBuildGroup {
    /// Not a group, but a single PKGBUILD directory.
    Single(PkgBuildDesc),
    /// Grouping of local directories.
    Local(LocalPkgBuildGroup),
    /// Grouping of git directories.
    Git(GitPkgBuildGroup),
}

impl PkgBuildGroup {
    /// How many recipes the group declares.
    pub open spec fn member_count(&self) -> nat {
        match *self {
            PkgBuildGroup::Single(_) => 1,
            PkgBuildGroup::Local(group) => group.members@.len(),
            PkgBuildGroup::Git(group) => group.members@.len(),
        }
    }

    /// Whether `desc` can be the description of the member at `member`: the
    /// very description that stands alone, or what the group's header makes
    /// of that member.
    pub open spec fn yields(&self, member: int, desc: PkgBuildDescView) -> bool {
        match *self {
            PkgBuildGroup::Single(single) => desc == single@,
            PkgBuildGroup::Local(group) => group.yields(member, desc),
            PkgBuildGroup::Git(group) => group.yields(member, desc),
        }
    }

    /// Whether `error` can be what normalizing the group ends in: it names a
    /// member of the group, and a template of the group's header that is
    /// rendered for that member fails so.
    pub open spec fn fails_with<EnvError, CommandError>(
        &self,
        error: MemberError<EnvError, CommandError>,
    ) -> bool {
        match *self {
            PkgBuildGroup::Single(_) => false,
            PkgBuildGroup::Local(group) => {
                &&& error.member < group.members@.len()
                &&& group.header.fails_with(error.error)
            },
            PkgBuildGroup::Git(group) => {
                &&& error.member < group.members@.len()
                &&& group.header.fails_with(
                    group.members.deep_view()[error.member as int],
                    error.error,
                )
            },
        }
    }

    /// Whether every member is described without the environment or a
    /// command having a say.
    pub open spec fn normalizes_plainly(&self) -> bool {
        match *self {
            PkgBuildGroup::Single(_) => true,
            PkgBuildGroup::Local(group) => group.normalizes_plainly(),
            PkgBuildGroup::Git(group) => group.normalizes_plainly(),
        }
    }

    /// Append this group to a list as normalized descriptions.
    ///
    /// A description that stands alone is appended as it is. The members of a
    /// group are described in their order. Where one of them fails, the list
    /// is left as it was.
    pub fn normalize<Outer>(self, outer: &Outer, target: &mut Vec<PkgBuildDesc>) -> (result: Result<
        (),
        MemberError<<Outer as QueryEnv>::Error, <Outer as QueryCmd>::Error>,
    >) where
        Outer: QueryCommon<Value = String> + QueryEnv<Name = String> + QueryCmd<Command = String>,

        ensures
            match result {
                Ok(()) => {
                    &&& final(target)@.len() == old(target)@.len() + self.member_count()
                    &&& final(target)@.take(old(target)@.len() as int) == old(target)@
                    &&& forall|i: int|
                        0 <= i < self.member_count() ==> self.yields(
                            i,
                            #[trigger] final(target).deep_view()[old(target)@.len() + i],
                        )
                },
                Err(error) => *final(target) == *old(target) && self.fails_with(error),
            },
            self.normalizes_plainly() ==> result is Ok,
    {
        match self {
            PkgBuildGroup::Single(desc) => {
                target.push(desc);
                proof {
                    assert(target@.take(old(target)@.len() as int) =~= old(target)@);
                }
                Ok(())
            },
            PkgBuildGroup::Local(group) => group.normalize(outer, target),
            PkgBuildGroup::Git(group) => group.normalize(outer, target),
        }
    }
}

/// How many recipes the groups declare together.
pub open spec fn member_total(groups: Seq<PkgBuildGroup>) -> nat
    decreases groups.len(),
{
    if groups.len() == 0 {
        0
    } else {
        member_total(groups.drop_last()) + groups.last().member_count()
    }
}

/// The place, in declaration order across the groups, of the member at
/// `member` of the group at `group`.
pub open spec fn member_position(groups: Seq<PkgBuildGroup>, group: int, member: int) -> int {
    member_total(groups.take(group)) + member
}

/// Whether `descs` can be what normalizing `sources` gives: one description
/// for each declared recipe, and at the place of each member, in declaration
/// order across the groups, a description that its group yields for it.
pub open spec fn is_normalization(sources: Seq<PkgBuildGroup>, descs: Seq<PkgBuildDescView>) -> bool {
    &&& descs.len() == member_total(sources)
    &&& forall|group: int, member: int|
        0 <= group < sources.len() && 0 <= member < sources[group].member_count() ==> {
            &&& 0 <= #[trigger] member_position(sources, group, member) < descs.len()
            &&& sources[group].yields(member, descs[member_position(sources, group, member)])
        }
}

/// Whether every group of `sources` is normalized without the environment or
/// a command having a say.
pub open spec fn normalize_plainly(sources: Seq<PkgBuildGroup>) -> bool {
    forall|group: int| 0 <= group < sources.len() ==> (#[trigger] sources[group]).normalizes_plainly()
}

impl<EnvError, CommandError> NormalizeError<EnvError, CommandError> {
    /// Whether this error can be what normalizing `sources` ends in: it names
    /// one of the groups and a failure of that group.
    pub open spec fn explains(&self, sources: Seq<PkgBuildGroup>) -> bool {
        &&& self.group < sources.len()
        &&& sources[self.group as int].fails_with(self.error)
    }
}

/// The groups up to and with the one at `group` declare what the groups
/// before it declare and what it declares itself.
pub proof fn lemma_member_total_step(groups: Seq<PkgBuildGroup>, group: int)
    requires
        0 <= group < groups.len(),
    ensures
        member_total(groups.take(group + 1)) == member_total(groups.take(group))
            + groups[group].member_count(),
{
    assert(groups.take(group + 1).drop_last() =~= groups.take(group));
}

/// Normalizes a list of sources: the descriptions of all recipes, group by
/// group and within each group member by member, in the order of declaration.
///
/// Where a member fails, no list is handed out.
pub fn normalize_sources<Outer>(sources: Vec<PkgBuildGroup>, outer: &Outer) -> (result: Result<
    Vec<PkgBuildDesc>,
    NormalizeError<<Outer as QueryEnv>::Error, <Outer as QueryCmd>::Error>,
>) where
    Outer: QueryCommon<Value = String> + QueryEnv<Name = String> + QueryCmd<Command = String>,

    ensures
        match result {
            Ok(descs) => is_normalization(sources@, descs.deep_view()),
            Err(error) => error.explains(sources@),
        },
        normalize_plainly(sources@) ==> result is Ok,
{
    let mut descs: Vec<PkgBuildDesc> = Vec::new();
    let count: usize = sources.len();
    let mut done: usize = 0;
    proof {
        assert(sources@.take(0) =~= Seq::<PkgBuildGroup>::empty());
    }
    for group in iter: sources
        invariant
            iter.seq() == sources@,
            count == sources@.len(),
            done == iter.index(),
            descs@.len() == member_total(sources@.take(done as int)),
            forall|group: int, member: int|
                0 <= group < done && 0 <= member < sources@[group].member_count() ==> {
                    &&& 0 <= #[trigger] member_position(sources@, group, member) < descs@.len()
                    &&& sources@[group].yields(
                        member,
                        descs.deep_view()[member_position(sources@, group, member)],
                    )
                },
    {
        let ghost before = descs.deep_view();
        let ghost start = descs@.len();
        proof {
            lemma_member_total_step(sources@, done as int);
        }
        match group.normalize(outer, &mut descs) {
            Ok(()) => {},
            Err(error) => {
                return Err(NormalizeError { group: done, error });
            },
        }
        proof {
            assert forall|j: int| 0 <= j < start implies descs.deep_view()[j] == before[j] by {
                assert(descs@.take(start as int)[j] == descs@[j]);
            }
            assert forall|group: int, member: int|
                0 <= group < done + 1 && 0 <= member < sources@[group].member_count() implies {
                &&& 0 <= #[trigger] member_position(sources@, group, member) < descs@.len()
                &&& sources@[group].yields(
                    member,
                    descs.deep_view()[member_position(sources@, group, member)],
                )
            } by {
                if group < done {
                    lemma_member_total_step(sources@, group);
                    lemma_member_total_monotonic(sources@, group + 1, done as int);
                }
            }
        }
        done += 1;
    }
    proof {
        assert(sources@.take(done as int) =~= sources@);
    }
    Ok(descs)
}

/// Places follow the order of declaration: a member that is declared before
/// another, in an earlier group or earlier in the same group, has the smaller
/// place, and every place lies below the number of all members.
pub proof fn lemma_member_position_ordered(
    groups: Seq<PkgBuildGroup>,
    group: int,
    member: int,
    later_group: int,
    later_member: int,
)
    requires
        0 <= group <= later_group < groups.len(),
        0 <= member < groups[group].member_count(),
        0 <= later_member < groups[later_group].member_count(),
        group < later_group || member < later_member,
    ensures
        0 <= member_position(groups, group, member) < member_position(
            groups,
            later_group,
            later_member,
        ) < member_total(groups),
{
    lemma_member_total_step(groups, later_group);
    lemma_member_total_monotonic(groups, later_group + 1, groups.len() as int);
    assert(groups.take(groups.len() as int) =~= groups);
    if group < later_group {
        lemma_member_total_step(groups, group);
        lemma_member_total_monotonic(groups, group + 1, later_group);
    }
}

/// Every place below the number of all members is the place of a declared
/// member, which this hands out as the index of its group and its index in
/// that group.
pub proof fn lemma_every_place_is_declared(groups: Seq<PkgBuildGroup>, place: int) -> (at: (
    int,
    int,
))
    requires
        0 <= place < member_total(groups),
    ensures
        0 <= at.0 < groups.len(),
        0 <= at.1 < groups[at.0].member_count(),
        member_position(groups, at.0, at.1) == place,
    decreases groups.len(),
{
    let init = groups.drop_last();
    if place < member_total(init) {
        let at = lemma_every_place_is_declared(init, place);
        assert(init.take(at.0) =~= groups.take(at.0));
        at
    } else {
        assert(groups.take(groups.len() - 1) =~= init);
        (groups.len() - 1, place - member_total(init))
    }
}

/// Order preservation: a normalization of `sources` holds one description
/// for each declared member, and the description of each member stands at
/// the member's place in declaration order across the groups.
pub proof fn lemma_normalization_keeps_order(
    sources: Seq<PkgBuildGroup>,
    descs: Seq<PkgBuildDescView>,
    group: int,
    member: int,
)
    requires
        is_normalization(sources, descs),
        0 <= group < sources.len(),
        0 <= member < sources[group].member_count(),
    ensures
        descs.len() == member_total(sources),
        0 <= member_position(sources, group, member) < descs.len(),
        sources[group].yields(member, descs[member_position(sources, group, member)]),
{
}

/// Every description of a normalization is owed to a declared member: the
/// one whose place in declaration order is the description's place in the
/// list. That member is handed out as the index of its group and its index in
/// that group.
pub proof fn lemma_normalization_describes_members(
    sources: Seq<PkgBuildGroup>,
    descs: Seq<PkgBuildDescView>,
    place: int,
) -> (at: (int, int))
    requires
        is_normalization(sources, descs),
        0 <= place < descs.len(),
    ensures
        0 <= at.0 < sources.len(),
        0 <= at.1 < sources[at.0].member_count(),
        member_position(sources, at.0, at.1) == place,
        sources[at.0].yields(at.1, descs[place]),
{
    lemma_every_place_is_declared(sources, place)
}

/// The first groups of a list declare no more than any longer stretch of
/// them.
pub proof fn lemma_member_total_monotonic(groups: Seq<PkgBuildGroup>, fewer: int, more: int)
    requires
        0 <= fewer <= more <= groups.len(),
    ensures
        member_total(groups.take(fewer)) <= member_total(groups.take(more)),
    decreases more - fewer,
{
    if fewer < more {
        lemma_member_total_monotonic(groups, fewer, more - 1);
        lemma_member_total_step(groups, more - 1);
    }
}

} // verus!
