//! The catalog: the branches of a repository, without the protected names,
//! oldest activity first.

use vstd::prelude::*;
use git2::BranchType as GitBranchType;
use crate::branch::GitBranch;
use crate::branch_type::{kind_reported, BranchType};
use crate::clock::{local_commit_time, wall_clock};
use crate::libgit::{
    branch_name, branch_tip, commit_id, commit_message, commit_time, error_message,
    list_branches, listed_as_asked, open_repository, open_repository_from_env,
};
use crate::order::{
    ascending, filter_map_holds, filter_map_keeps_order, insert_keeps_stable_sort,
    sorted_holds_all_given, sorted_holds_only_given, stable_sort_is_unique, stably_sorted,
    ties_keep_their_order,
};
use crate::text::same_text;

verus! {

/// Whether `name` is one of the protected names.
pub open spec fn skips(skip: Seq<&str>, name: Seq<char>) -> bool {
    exists|i: int| 0 <= i < skip.len() && (#[trigger] skip[i])@ == name
}

/// Whether `name` is one of the protected names.
pub fn is_skipped(name: &str, skip: &Vec<&str>) -> (found: bool)
    ensures
        found == skips(skip@, name@),
{
    let mut i: usize = 0;
    while i < skip.len()
        invariant
            i <= skip.len(),
            forall|j: int| 0 <= j < i ==> (#[trigger] skip@[j])@ != name@,
        decreases skip.len() - i,
    {
        if same_text(skip[i], name) {
            return true;
        }
        i = i + 1;
    }
    false
}

/// The key by which the catalog is ordered.
pub open spec fn commit_time_of<'a>() -> spec_fn(GitBranch<'a>) -> int {
    |b: GitBranch<'a>| b@.commit_time
}

/// Where a branch committed at `time` goes in a list that is ordered by
/// commit time: behind every branch that is not younger.
fn insertion_point<'a>(sorted: &Vec<GitBranch<'a>>, time: i64) -> (at: usize)
    requires
        ascending(sorted@, commit_time_of()),
    ensures
        at <= sorted.len(),
        forall|i: int| 0 <= i < at ==> (#[trigger] sorted@[i])@.commit_time <= time,
        forall|i: int| at <= i < sorted.len() ==> (#[trigger] sorted@[i])@.commit_time > time,
{
    let mut at: usize = sorted.len();
    while at > 0 && sorted[at - 1].get_commit_time() > time
        invariant
            at <= sorted.len(),
            forall|i: int| at <= i < sorted.len() ==> (#[trigger] sorted@[i])@.commit_time > time,
        decreases at,
    {
        at = at - 1;
    }
    assert forall|i: int| 0 <= i < at implies (#[trigger] sorted@[i])@.commit_time <= time by {
        let key = commit_time_of();
        assert(key(sorted@[i]) <= key(sorted@[at - 1]));
    }
    at
}

/// Orders branches by commit time, oldest first. Branches with the same
/// commit time stay in the order in which they were given.
pub fn sort_by_commit_time<'a>(branches: Vec<GitBranch<'a>>) -> (sorted: Vec<GitBranch<'a>>)
    ensures
        stably_sorted(sorted@, branches@, commit_time_of()),
{
    let ghost all = branches@;
    let mut sorted: Vec<GitBranch<'a>> = Vec::new();
    proof {
        assert(all.take(0) =~= Seq::empty());
    }
    for branch in it: branches
        invariant
            it.seq() == all,
            stably_sorted(sorted@, all.take(it.index() as int), commit_time_of()),
    {
        let at: usize = insertion_point(&sorted, branch.get_commit_time());
        proof {
            let i = it.index() as int;
            assert(all.take(i + 1) =~= all.take(i).push(branch));
            insert_keeps_stable_sort(sorted@, all.take(i), branch, at as int, commit_time_of());
        }
        sorted.insert(at, branch);
    }
    assert(all.take(all.len() as int) =~= all);
    sorted
}

/// Why a repository could not be opened.
#[derive(Debug)]
pub struct OpenError {
    /// What the repository library reported.
    pub message: String,
}

/// Why there is no catalog.
#[derive(Debug)]
pub enum CatalogError {
    /// The filter names no kind of branch.
    InvalidFilter,
    /// The repository could not enumerate its branches; with what it
    /// reported.
    Enumeration(String),
}

/// What opening a repository gives, given what the repository library
/// answered: the repository that it opened, or an error with what it
/// reported.
pub fn opening_outcome(answer: Result<git2::Repository, git2::Error>) -> (opened: Result<
    git2::Repository,
    OpenError,
>)
    ensures
        answer matches Ok(repo) ==> opened == Ok::<git2::Repository, OpenError>(repo),
        answer is Err ==> opened is Err,
{
    match answer {
        Ok(repo) => Ok(repo),
        Err(error) => Err(OpenError { message: error_message(&error) }),
    }
}

/// Opens the repository at `path`, or the one that the environment points
/// to where no path is given. Whether it opens is for the repository library
/// to say; `opening_outcome` says what is returned for each of its answers.
pub fn get_git_repo(path: Option<&str>) -> (opened: Result<git2::Repository, OpenError>) {
    let answer = match path {
        Some(p) => open_repository(p),
        None => open_repository_from_env(),
    };
    opening_outcome(answer)
}

/// What the repository tells of the commit at the tip of a branch.
#[derive(Debug)]
pub struct TipCommit {
    /// The full identifier of the commit.
    pub id: String,
    /// The message of the commit; none where it is not UTF-8.
    pub message: Option<String>,
    /// The seconds since the epoch that the commit records.
    pub seconds: i64,
    /// The offset from UTC that the commit records, in minutes.
    pub offset_minutes: i32,
}

/// What the repository tells of one branch that it enumerates.
pub struct Sighting<'a> {
    /// The name of the branch; none where it cannot be read or is not UTF-8.
    pub name: Option<String>,
    /// The commit at the tip; none where it cannot be resolved.
    pub tip: Option<TipCommit>,
    /// Local or remote.
    pub kind: BranchType,
    /// The repository's reference for the branch.
    pub branch: git2::Branch<'a>,
}

/// The catalog entry of a branch that the repository enumerated.
///
/// A branch enters the catalog when its name can be read and is not
/// protected, the commit at its tip can be resolved, the wall-clock time of
/// that commit can be held, and its message is UTF-8. Its commit time is that
/// wall-clock time. Any other branch stays out.
pub open spec fn entry_of<'a>(sighting: Sighting<'a>, skip: Seq<&str>) -> Option<GitBranch<'a>> {
    match (sighting.name, sighting.tip) {
        (Some(name), Some(tip)) => match (
            wall_clock(tip.seconds as int, tip.offset_minutes as int),
            tip.message,
        ) {
            (Some(time), Some(message)) => if skips(skip, name@) {
                None
            } else {
                Some(
                    GitBranch {
                        commit_id: tip.id,
                        name,
                        message,
                        commit_time: time,
                        branch: sighting.branch,
                        branch_type: sighting.kind,
                    },
                )
            },
            _ => None,
        },
        _ => None,
    }
}

/// What turns the sightings of a repository into catalog entries, when `skip`
/// holds the protected names.
pub open spec fn entering<'a>(skip: Seq<&str>) -> spec_fn(Sighting<'a>) -> Option<GitBranch<'a>> {
    |sighting: Sighting<'a>| entry_of(sighting, skip)
}

/// Whether `catalog` is the catalog of the branches sighted: the entries of
/// the branches that enter it, oldest commit first, those with the same
/// commit time in the order in which they were sighted.
pub open spec fn is_catalog_of<'a>(
    catalog: Seq<GitBranch<'a>>,
    sightings: Seq<Sighting<'a>>,
    skip: Seq<&str>,
) -> bool {
    stably_sorted(catalog, sightings.filter_map(entering(skip)), commit_time_of())
}

/// The catalog entry of a branch that the repository enumerated, if it
/// enters the catalog.
pub fn describe<'a>(sighting: Sighting<'a>, skip: &Vec<&str>) -> (entry: Option<GitBranch<'a>>)
    ensures
        entry == entry_of(sighting, skip@),
{
    let name = match sighting.name {
        Some(name) => name,
        None => {
            return None;
        },
    };
    let tip = match sighting.tip {
        Some(tip) => tip,
        None => {
            return None;
        },
    };
    let time = match local_commit_time(tip.seconds, tip.offset_minutes) {
        Some(time) => time,
        None => {
            return None;
        },
    };
    let message = match tip.message {
        Some(message) => message,
        None => {
            return None;
        },
    };
    if is_skipped(name.as_str(), skip) {
        return None;
    }
    Some(
        GitBranch {
            commit_id: tip.id,
            name,
            message,
            commit_time: time,
            branch: sighting.branch,
            branch_type: sighting.kind,
        },
    )
}

/// The catalog of the branches sighted.
pub fn catalog_of<'a>(sightings: Vec<Sighting<'a>>, skip: &Vec<&str>) -> (catalog: Vec<
    GitBranch<'a>,
>)
    ensures
        is_catalog_of(catalog@, sightings@, skip@),
{
    let ghost all = sightings@;
    let mut entries: Vec<GitBranch<'a>> = Vec::new();
    assert(all.take(0) =~= Seq::empty());
    for sighting in it: sightings
        invariant
            it.seq() == all,
            entries@ == all.take(it.index() as int).filter_map(entering(skip@)),
    {
        proof {
            all.lemma_filter_map_take_succ(entering(skip@), it.index() as int);
        }
        let ghost before = entries@;
        if let Some(entry) = describe(sighting, skip) {
            entries.push(entry);
            assert(entries@ =~= before + seq![entry]);
        }
    }
    assert(all.take(all.len() as int) =~= all);
    sort_by_commit_time(entries)
}

/// What is told of the commit at the tip of a branch, given what resolving
/// the tip gave: what the commit records, or nothing where the tip could not
/// be resolved.
pub fn tip_resolved(resolved: Result<git2::Commit<'_>, git2::Error>) -> (tip: Option<TipCommit>)
    ensures
        tip is Some <==> resolved is Ok,
{
    match resolved {
        Ok(commit) => {
            let (seconds, offset_minutes) = commit_time(&commit);
            Some(
                TipCommit {
                    id: commit_id(&commit),
                    message: commit_message(&commit),
                    seconds,
                    offset_minutes,
                },
            )
        },
        Err(_) => None,
    }
}

/// What the repository tells of the commit at the tip of a branch, if it can
/// resolve it. Whether it can is for the repository library to say;
/// `tip_resolved` says what is told for each of its answers.
fn sight_tip(branch: &git2::Branch<'_>) -> (tip: Option<TipCommit>) {
    tip_resolved(branch_tip(branch))
}

/// What an item of the enumeration gives: the branch with its kind, or
/// nothing where the item is a failure.
pub open spec fn listed_branch<'a>() -> spec_fn(
    Result<(git2::Branch<'a>, GitBranchType), git2::Error>,
) -> Option<(git2::Branch<'a>, BranchType)> {
    |item: Result<(git2::Branch<'a>, GitBranchType), git2::Error>|
        match item {
            Ok(listed) => Some((listed.0, kind_reported(listed.1))),
            Err(_) => None,
        }
}

/// What the enumeration of branches gives, given what the repository library
/// answered. A failed enumeration is an error, with what was reported, and no
/// part of a list. Otherwise the branches are those that were enumerated, in
/// that order; an item that failed is passed over.
pub fn enumeration_outcome<'a>(
    answer: Result<Vec<Result<(git2::Branch<'a>, GitBranchType), git2::Error>>, git2::Error>,
) -> (listed: Result<Vec<(git2::Branch<'a>, BranchType)>, CatalogError>)
    ensures
        answer is Err <==> listed matches Err(CatalogError::Enumeration(_)),
        answer matches Ok(items) ==> listed matches Ok(kept) && kept@ == items@.filter_map(
            listed_branch(),
        ),
{
    let items = match answer {
        Ok(items) => items,
        Err(error) => {
            return Err(CatalogError::Enumeration(error_message(&error)));
        },
    };
    let ghost all = items@;
    let mut kept: Vec<(git2::Branch<'a>, BranchType)> = Vec::new();
    assert(all.take(0) =~= Seq::empty());
    for item in it: items
        invariant
            it.seq() == all,
            kept@ == all.take(it.index() as int).filter_map(listed_branch()),
    {
        proof {
            all.lemma_filter_map_take_succ(listed_branch(), it.index() as int);
        }
        let ghost before = kept@;
        if let Ok((branch, kind)) = item {
            let listed = (branch, BranchType::from(kind));
            kept.push(listed);
            assert(kept@ =~= before + seq![listed]);
        }
    }
    assert(all.take(all.len() as int) =~= all);
    Ok(kept)
}

/// What the repository tells of each of the branches listed: one sighting
/// for each branch, in the order of the list, with the branch's own reference
/// and kind. The name and the tip are what the repository library reads.
pub fn sight_listed<'a>(listed: Vec<(git2::Branch<'a>, BranchType)>) -> (sightings: Vec<
    Sighting<'a>,
>)
    ensures
        sightings.len() == listed.len(),
        forall|i: int|
            0 <= i < listed.len() ==> (#[trigger] sightings@[i]).branch == listed@[i].0
                && sightings@[i].kind == listed@[i].1,
{
    let ghost all = listed@;
    let mut sightings: Vec<Sighting<'a>> = Vec::new();
    for pair in it: listed
        invariant
            it.seq() == all,
            sightings.len() == it.index(),
            forall|i: int|
                0 <= i < sightings.len() ==> (#[trigger] sightings@[i]).branch == all[i].0
                    && sightings@[i].kind == all[i].1,
    {
        let (branch, kind) = pair;
        let name = match branch_name(&branch) {
            Ok(name) => name,
            Err(_) => None,
        };
        let tip = sight_tip(&branch);
        sightings.push(Sighting { name, tip, kind, branch });
    }
    sightings
}

/// Among the branches of an enumeration that asked for the kind of `filter`,
/// each is of a kind that `filter` asks for.
proof fn listed_kinds_are_asked<'a>(
    items: Seq<Result<(git2::Branch<'a>, GitBranchType), git2::Error>>,
    filter: BranchType,
    i: int,
)
    requires
        !(filter is Invalid),
        forall|j: int| 0 <= j < items.len() ==> listed_as_asked(filter.git_filter(), #[trigger] items[j]),
        0 <= i < items.filter_map(listed_branch()).len(),
    ensures
        filter.admits(items.filter_map(listed_branch())[i].1),
{
    let kept = items.filter_map(listed_branch());
    assert(kept.contains(kept[i]));
    items.lemma_filter_map_contains(listed_branch(), kept[i]);
    let item = choose|item: Result<(git2::Branch<'a>, GitBranchType), git2::Error>| #[trigger]
        items.contains(item) && listed_branch()(item) == Some(kept[i]);
    let j = choose|j: int| 0 <= j < items.len() && items[j] == item;
    assert(listed_as_asked(filter.git_filter(), items[j]));
}

/// What the repository tells of its branches of the kind that `filter` asks
/// for, in the order in which it enumerates them. Each sighting is of a kind
/// that `filter` asks for. An invalid filter is refused before the repository
/// is asked anything; what a failed enumeration gives, and which branches an
/// enumeration that succeeds gives, `enumeration_outcome` says.
pub fn sight_branches<'a>(repo: &'a git2::Repository, filter: BranchType) -> (sighted: Result<
    Vec<Sighting<'a>>,
    CatalogError,
>)
    ensures
        filter is Invalid <==> sighted matches Err(CatalogError::InvalidFilter),
        sighted matches Ok(sightings) ==> forall|i: int|
            0 <= i < sightings.len() ==> filter.admits((#[trigger] sightings@[i]).kind),
{
    if let BranchType::Invalid = filter {
        return Err(CatalogError::InvalidFilter);
    }
    let answer = list_branches(repo, filter.to_git());
    let ghost answered = answer;
    match enumeration_outcome(answer) {
        Ok(listed) => {
            let ghost kept = listed@;
            let sightings = sight_listed(listed);
            proof {
                assert forall|i: int| 0 <= i < sightings.len() implies filter.admits(
                    (#[trigger] sightings@[i]).kind,
                ) by {
                    listed_kinds_are_asked(answered->Ok_0@, filter, i);
                    assert(sightings@[i].kind == kept[i].1);
                }
            }
            Ok(sightings)
        },
        Err(error) => Err(error),
    }
}

/// The catalog of a repository: its branches of the kind that `filter` asks
/// for, without those named in `skip`, oldest commit first. A branch that the
/// repository cannot describe is left out without an error. An invalid filter
/// is refused before the repository is asked anything, and a failed
/// enumeration is an error, as `enumeration_outcome` says.
pub fn get_branches<'a>(repo: &'a git2::Repository, filter: BranchType, skip: &Vec<&str>) -> (catalog:
    Result<Vec<GitBranch<'a>>, CatalogError>)
    ensures
        filter is Invalid <==> catalog matches Err(CatalogError::InvalidFilter),
        catalog matches Ok(branches) ==> {
            &&& exists|sightings: Seq<Sighting<'a>>| #[trigger]
                is_catalog_of(branches@, sightings, skip@)
            &&& ascending(branches@, commit_time_of())
            &&& forall|i: int|
                0 <= i < branches.len() ==> !skips(skip@, (#[trigger] branches@[i])@.name)
            &&& forall|i: int|
                0 <= i < branches.len() ==> filter.admits((#[trigger] branches@[i])@.kind)
        },
{
    match sight_branches(repo, filter) {
        Ok(sightings) => {
            let ghost sighted = sightings@;
            let branches = catalog_of(sightings, skip);
            proof {
                assert(is_catalog_of(branches@, sighted, skip@));
                assert forall|i: int| 0 <= i < branches.len() implies !skips(
                    skip@,
                    (#[trigger] branches@[i])@.name,
                ) && filter.admits(branches@[i]@.kind) by {
                    cataloged_branch_was_sighted(branches@, sighted, skip@, i);
                }
            }
            Ok(branches)
        },
        Err(error) => Err(error),
    }
}

/// Every branch of a catalog is the entry of a branch that was sighted.
pub proof fn cataloged_branch_was_sighted<'a>(
    catalog: Seq<GitBranch<'a>>,
    sightings: Seq<Sighting<'a>>,
    skip: Seq<&str>,
    i: int,
)
    requires
        is_catalog_of(catalog, sightings, skip),
        0 <= i < catalog.len(),
    ensures
        exists|j: int|
            0 <= j < sightings.len() && entry_of(#[trigger] sightings[j], skip) == Some(
                catalog[i],
            ),
{
    let entries = sightings.filter_map(entering(skip));
    sorted_holds_only_given(catalog, entries, commit_time_of(), i);
    sightings.lemma_filter_map_contains(entering(skip), catalog[i]);
    let sighting = choose|t: Sighting<'a>| #[trigger]
        sightings.contains(t) && entering(skip)(t) == Some(catalog[i]);
    let j = choose|j: int| 0 <= j < sightings.len() && sightings[j] == sighting;
    assert(entry_of(sightings[j], skip) == Some(catalog[i]));
}

/// Every branch that was sighted and enters the catalog is in it.
pub proof fn sighted_branch_is_cataloged<'a>(
    catalog: Seq<GitBranch<'a>>,
    sightings: Seq<Sighting<'a>>,
    skip: Seq<&str>,
    j: int,
)
    requires
        is_catalog_of(catalog, sightings, skip),
        0 <= j < sightings.len(),
        entry_of(sightings[j], skip) is Some,
    ensures
        catalog.contains(entry_of(sightings[j], skip)->Some_0),
{
    let entries = sightings.filter_map(entering(skip));
    filter_map_holds(sightings, entering(skip), j);
    let entry = entry_of(sightings[j], skip)->Some_0;
    let at = choose|at: int| 0 <= at < entries.len() && entries[at] == entry;
    sorted_holds_all_given(catalog, entries, commit_time_of(), at);
}

/// No branch of a catalog bears a protected name, whatever was sighted and
/// whichever names are protected.
pub proof fn catalog_skips_protected_names<'a>(
    catalog: Seq<GitBranch<'a>>,
    sightings: Seq<Sighting<'a>>,
    skip: Seq<&str>,
    i: int,
)
    requires
        is_catalog_of(catalog, sightings, skip),
        0 <= i < catalog.len(),
    ensures
        !skips(skip, catalog[i]@.name),
{
    cataloged_branch_was_sighted(catalog, sightings, skip, i);
}

/// A catalog is in the order of its commit times, the oldest first.
pub proof fn catalog_is_ordered<'a>(
    catalog: Seq<GitBranch<'a>>,
    sightings: Seq<Sighting<'a>>,
    skip: Seq<&str>,
    i: int,
    j: int,
)
    requires
        is_catalog_of(catalog, sightings, skip),
        0 <= i <= j < catalog.len(),
    ensures
        catalog[i]@.commit_time <= catalog[j]@.commit_time,
{
    if i < j {
        let key = commit_time_of();
        assert(key(catalog[i]) <= key(catalog[j]));
    }
}

/// Two branches with the same commit time stand in the catalog in the order
/// in which they were sighted.
pub proof fn catalog_keeps_ties_as_sighted<'a>(
    catalog: Seq<GitBranch<'a>>,
    sightings: Seq<Sighting<'a>>,
    skip: Seq<&str>,
    i: int,
    j: int,
)
    requires
        is_catalog_of(catalog, sightings, skip),
        0 <= i < j < sightings.len(),
        entry_of(sightings[i], skip) is Some,
        entry_of(sightings[j], skip) is Some,
        entry_of(sightings[i], skip)->Some_0@.commit_time == entry_of(
            sightings[j],
            skip,
        )->Some_0@.commit_time,
    ensures
        exists|p: int, q: int|
            0 <= p < q < catalog.len() && #[trigger] catalog[p] == entry_of(
                sightings[i],
                skip,
            )->Some_0 && #[trigger] catalog[q] == entry_of(sightings[j], skip)->Some_0,
{
    let entries = sightings.filter_map(entering(skip));
    filter_map_keeps_order(sightings, entering(skip), i, j);
    let (a, b) = choose|a: int, b: int|
        0 <= a < b < entries.len() && #[trigger] entries[a] == entering(skip)(
            sightings[i],
        )->Some_0 && #[trigger] entries[b] == entering(skip)(sightings[j])->Some_0;
    ties_keep_their_order(catalog, entries, commit_time_of(), a, b);
}

/// The same sightings and the same protected names give the same catalog: a
/// catalog is decided by what was sighted, in its order too.
pub proof fn catalog_is_decided<'a>(
    first: Seq<GitBranch<'a>>,
    second: Seq<GitBranch<'a>>,
    sightings: Seq<Sighting<'a>>,
    skip: Seq<&str>,
)
    requires
        is_catalog_of(first, sightings, skip),
        is_catalog_of(second, sightings, skip),
    ensures
        first == second,
{
    stable_sort_is_unique(first, second, sightings.filter_map(entering(skip)), commit_time_of());
}

} // verus!
