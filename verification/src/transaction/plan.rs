//! How a plan follows from the requested actions and from what the store
//! answers, and the steps that build it.
//!
//! The store decides what a plan looks like, and nothing is known about a
//! store. So the plan is stated as a function of the requested actions and of
//! the store's answers, and each step takes the answer it needs as a plain
//! value.

use vstd::prelude::*;
use vstd::string::StringExecFns;

use crate::package_key::PackageKey;
use crate::package_store::{InstallTarget, PackageStore};
use crate::transaction::laws::lemma_sweep;
use crate::transaction::{
    ActionView, PackageAction, PackageActionType, PackageDependencyError, PackageStatus,
    PackageStatusError, PackageTransactionError, PlanningFailure,
};

verus! {

/// The actions of a list as contracts see them.
pub open spec fn views(actions: Seq<PackageAction>) -> Seq<ActionView> {
    actions.map_values(|a: PackageAction| a@)
}

/// The keys of a dependency list as contracts see them. The records that come
/// with the keys play no part in planning.
pub open spec fn dependency_keys<P>(dependencies: Seq<(PackageKey, P)>) -> Seq<Seq<char>> {
    dependencies.map_values(|d: (PackageKey, P)| d.0@)
}

/// Whether some entry of the list addresses the package `key`, whatever it
/// does to it and in whatever scope.
pub open spec fn addresses(working: Seq<ActionView>, key: Seq<char>) -> bool {
    exists|i: int| 0 <= i < working.len() && (#[trigger] working[i]).id == key
}

/// Whether entry `i` is the first of the list that addresses the package
/// `key`.
pub open spec fn first_addressing(working: Seq<ActionView>, key: Seq<char>, i: int) -> bool {
    &&& 0 <= i < working.len()
    &&& working[i].id == key
    &&& forall|j: int| 0 <= j < i ==> (#[trigger] working[j]).id != key
}

/// Where the first entry that addresses the package `key` stands in the list.
pub open spec fn position(working: Seq<ActionView>, key: Seq<char>) -> int
    recommends
        addresses(working, key),
{
    choose|i: int| first_addressing(working, key, i)
}

/// The first entry of the list that addresses the package `key`.
pub open spec fn entry_for(working: Seq<ActionView>, key: Seq<char>) -> ActionView
    recommends
        addresses(working, key),
{
    working[position(working, key)]
}

/// The install of `key` under `target`.
pub open spec fn install_of(key: Seq<char>, target: InstallTarget) -> ActionView {
    ActionView { id: key, action: PackageActionType::Install, target }
}

/// The list after the first `n` of `dependencies` were taken in, one after
/// the other: a dependency that no entry addresses yet is appended as an
/// install under `target`, any other changes nothing.
pub open spec fn with_first_dependencies(
    working: Seq<ActionView>,
    dependencies: Seq<Seq<char>>,
    target: InstallTarget,
    n: int,
) -> Seq<ActionView>
    decreases n,
{
    if n <= 0 {
        working
    } else {
        let before = with_first_dependencies(working, dependencies, target, n - 1);
        if addresses(before, dependencies[n - 1]) {
            before
        } else {
            before.push(install_of(dependencies[n - 1], target))
        }
    }
}

/// The list after all of `dependencies` were taken in.
pub open spec fn with_dependencies(
    working: Seq<ActionView>,
    dependencies: Seq<Seq<char>>,
    target: InstallTarget,
) -> Seq<ActionView> {
    with_first_dependencies(working, dependencies, target, dependencies.len() as int)
}

/// The list after a requested action was taken in. Where an entry addresses
/// the same package already, the list stays as it is if that entry does the
/// same, and the two contradict each other if it does not. Otherwise the
/// action is appended.
pub open spec fn merge(working: Seq<ActionView>, action: ActionView) -> Result<
    Seq<ActionView>,
    PlanningFailure,
> {
    if addresses(working, action.id) {
        if entry_for(working, action.id).action != action.action {
            Err(PlanningFailure::ActionContradiction(action.id))
        } else {
            Ok(working)
        }
    } else {
        Ok(working.push(action))
    }
}

/// What the store answered about one requested action.
pub struct Lookup {
    /// Whether the store knows the package.
    pub found: bool,
    /// The dependency closure of the package, by keys, or why there is none.
    /// Asked only for an install of a package that was found.
    pub dependencies: Result<Seq<Seq<char>>, PackageDependencyError>,
}

/// The list after one requested action was expanded: the package must be
/// known; for an install its dependencies are taken in first; then the action
/// itself.
pub open spec fn expand_one(working: Seq<ActionView>, action: ActionView, lookup: Lookup) -> Result<
    Seq<ActionView>,
    PlanningFailure,
> {
    if !lookup.found {
        Err(PlanningFailure::NoPackage(action.id))
    } else if action.action == PackageActionType::Install {
        match lookup.dependencies {
            Err(e) => Err(PlanningFailure::Deps(e)),
            Ok(dependencies) => merge(
                with_dependencies(working, dependencies, action.target),
                action,
            ),
        }
    } else {
        merge(working, action)
    }
}

/// The list after the first `n` requested actions were expanded in order,
/// `lookups[i]` being the store's answer about action `i`. The first failure
/// ends the expansion.
pub open spec fn expand_first(actions: Seq<ActionView>, lookups: Seq<Lookup>, n: int) -> Result<
    Seq<ActionView>,
    PlanningFailure,
>
    decreases n,
{
    if n <= 0 {
        Ok(Seq::empty())
    } else {
        match expand_first(actions, lookups, n - 1) {
            Err(e) => Err(e),
            Ok(working) => expand_one(working, actions[n - 1], lookups[n - 1]),
        }
    }
}

/// The list after all requested actions were expanded.
pub open spec fn expand(actions: Seq<ActionView>, lookups: Seq<Lookup>) -> Result<
    Seq<ActionView>,
    PlanningFailure,
> {
    expand_first(actions, lookups, actions.len() as int)
}

/// Whether some entry of the list does `action` to the package `key`.
pub open spec fn requests(working: Seq<ActionView>, key: Seq<char>, action: PackageActionType) -> bool {
    exists|i: int|
        0 <= i < working.len() && (#[trigger] working[i]).id == key && working[i].action == action
}

/// Whether the list both installs and uninstalls the package `key`.
pub open spec fn contradicted(working: Seq<ActionView>, key: Seq<char>) -> bool {
    requests(working, key, PackageActionType::Install) && requests(
        working,
        key,
        PackageActionType::Uninstall,
    )
}

/// The contradicted keys among the first `n` entries, each once, in the order
/// in which the list first installs them.
pub open spec fn contradictions_among(working: Seq<ActionView>, n: int) -> Seq<Seq<char>>
    decreases n,
{
    if n <= 0 {
        Seq::empty()
    } else {
        let before = contradictions_among(working, n - 1);
        let entry = working[n - 1];
        if entry.action == PackageActionType::Install && requests(
            working,
            entry.id,
            PackageActionType::Uninstall,
        ) && !before.contains(entry.id) {
            before.push(entry.id)
        } else {
            before
        }
    }
}

/// The keys that the list both installs and uninstalls.
pub open spec fn contradictions(working: Seq<ActionView>) -> Seq<Seq<char>> {
    contradictions_among(working, working.len() as int)
}

/// The first `n` keys, separated by a comma and a space.
pub open spec fn joined(keys: Seq<Seq<char>>, n: int) -> Seq<char>
    decreases n,
{
    if n <= 0 {
        Seq::empty()
    } else if n == 1 {
        keys[0]
    } else {
        joined(keys, n - 1) + ", "@ + keys[n - 1]
    }
}

/// A set of keys in words: the keys between braces.
pub open spec fn keys_text(keys: Seq<Seq<char>>) -> Seq<char> {
    "{"@ + joined(keys, keys.len() as int) + "}"@
}

/// The sweep for contradictions over a whole list: it fails, naming the
/// contradicted keys, when the list both installs and uninstalls a package.
pub open spec fn sweep(working: Seq<ActionView>) -> Result<(), PlanningFailure> {
    if contradictions(working).len() > 0 {
        Err(PlanningFailure::ActionContradiction(keys_text(contradictions(working))))
    } else {
        Ok(())
    }
}

/// Whether an action still has to be carried out on a package of the given
/// status: an install unless the package is up to date, an uninstall if
/// anything is installed, current or not.
pub open spec fn necessary(action: PackageActionType, status: PackageStatus) -> bool {
    match action {
        PackageActionType::Install => status != PackageStatus::UpToDate,
        PackageActionType::Uninstall => status == PackageStatus::UpToDate || status
            == PackageStatus::RequiresUpdate,
    }
}

/// What the store answered to one status query.
pub type StatusAnswer = Result<PackageStatus, PackageStatusError>;

/// Whether the store told that the package of entry `i` has the given
/// status.
pub open spec fn answered(statuses: Seq<StatusAnswer>, i: int, status: PackageStatus) -> bool {
    statuses[i] == Ok::<PackageStatus, PackageStatusError>(status)
}

/// Whether entry `i` of the list stays in the plan, `statuses[i]` being the
/// store's answer about it.
pub open spec fn survives(working: Seq<ActionView>, statuses: Seq<StatusAnswer>, i: int) -> bool {
    statuses[i] matches Ok(status) && necessary(working[i].action, status)
}

/// The necessary ones among the first `n` entries, in order. The first status
/// query that fails ends the filtering.
pub open spec fn retain_first(working: Seq<ActionView>, statuses: Seq<StatusAnswer>, n: int) -> Result<
    Seq<ActionView>,
    PlanningFailure,
>
    decreases n,
{
    if n <= 0 {
        Ok(Seq::empty())
    } else {
        match retain_first(working, statuses, n - 1) {
            Err(e) => Err(e),
            Ok(kept) => match statuses[n - 1] {
                Err(e) => Err(PlanningFailure::InvalidStatus(e)),
                Ok(status) => if necessary(working[n - 1].action, status) {
                    Ok(kept.push(working[n - 1]))
                } else {
                    Ok(kept)
                },
            },
        }
    }
}

/// The necessary entries of the list, in order.
pub open spec fn retain_necessary(working: Seq<ActionView>, statuses: Seq<StatusAnswer>) -> Result<
    Seq<ActionView>,
    PlanningFailure,
> {
    retain_first(working, statuses, working.len() as int)
}

/// Everything that the store answered while one plan was built.
pub struct StoreAnswers {
    /// One answer for each requested action, in order.
    pub lookups: Seq<Lookup>,
    /// One answer for each entry of the expanded list, in order.
    pub statuses: Seq<StatusAnswer>,
}

/// The plan that follows from the requested actions and the store's answers:
/// expand every action, sweep for contradictions, keep what is necessary.
pub open spec fn plan(actions: Seq<ActionView>, answers: StoreAnswers) -> Result<
    Seq<ActionView>,
    PlanningFailure,
> {
    match expand(actions, answers.lookups) {
        Err(e) => Err(e),
        Ok(working) => match sweep(working) {
            Err(e) => Err(e),
            Ok(_) => retain_necessary(working, answers.statuses),
        },
    }
}

/// What an answer of the store about dependencies says to the planner: the
/// keys of the dependencies, or the failure as the store reported it.
pub open spec fn dependency_answer<P>(
    answer: Result<Vec<(PackageKey, P)>, PackageDependencyError>,
) -> Result<Seq<Seq<char>>, PackageDependencyError> {
    match answer {
        Ok(dependencies) => Ok(dependency_keys(dependencies@)),
        Err(e) => Err(e),
    }
}

/// Whether `dependencies` is what `store` answered when it was asked for the
/// dependencies of `package`, the package of the install `action`, under the
/// target of that install.
pub open spec fn resolved_by<S: PackageStore>(
    store: &S,
    action: PackageAction,
    package: S::Package,
    dependencies: Result<Seq<Seq<char>>, PackageDependencyError>,
) -> bool {
    exists|answer: Result<Vec<(PackageKey, S::Package)>, PackageDependencyError>|
        #[trigger] call_ensures(
            S::find_package_dependencies,
            (store, &action.id, &package, &action.target),
            answer,
        ) && dependencies == dependency_answer(answer)
}

/// Whether `lookup` is what `store` answered about the requested `action`:
/// it was asked for the package by the key of the action, and, where it found
/// the package of an install, for the dependencies of that package.
pub open spec fn looked_up_in<S: PackageStore>(
    store: &S,
    action: PackageAction,
    lookup: Lookup,
) -> bool {
    exists|found: Option<S::Package>|
        {
            &&& #[trigger] call_ensures(S::find_package_by_key, (store, &action.id), found)
            &&& lookup.found == (found is Some)
            &&& found is Some && action.action == PackageActionType::Install ==> resolved_by(
                store,
                action,
                found->Some_0,
                lookup.dependencies,
            )
        }
}

/// Whether `answer` is what `store` answered when it was asked for the status
/// of the package of `entry` under the target of `entry`.
pub open spec fn status_told_by<S: PackageStore>(
    store: &S,
    entry: ActionView,
    answer: StatusAnswer,
) -> bool {
    exists|key: PackageKey|
        key@ == entry.id && #[trigger] call_ensures(S::status, (store, &key, entry.target), answer)
}

/// Whether `answers` is what `store` answered while the plan for `actions`
/// was built, and all that planning read.
///
/// Each lookup is the store's answer about the requested action of the same
/// place, and the expansion reads no lookup beyond those given. Statuses were
/// asked for only when the expanded list had passed the sweep; each is the
/// store's answer about the entry of the same place, and the filtering reads
/// no status beyond those given.
pub open spec fn answered_by<S: PackageStore>(
    store: &S,
    actions: Seq<PackageAction>,
    answers: StoreAnswers,
) -> bool {
    let requested = views(actions);
    let expansion = expand(requested, answers.lookups);
    &&& answers.lookups.len() <= actions.len()
    &&& forall|i: int|
        0 <= i < answers.lookups.len() ==> looked_up_in(
            store,
            actions[i],
            #[trigger] answers.lookups[i],
        )
    &&& expand_first(requested, answers.lookups, answers.lookups.len() as int) == expansion
    &&& match expansion {
        Err(_) => answers.statuses.len() == 0,
        Ok(working) => if sweep(working) is Err {
            answers.statuses.len() == 0
        } else {
            &&& answers.statuses.len() <= working.len()
            &&& forall|j: int|
                0 <= j < answers.statuses.len() ==> status_told_by(
                    store,
                    working[j],
                    #[trigger] answers.statuses[j],
                )
            &&& retain_first(working, answers.statuses, answers.statuses.len() as int)
                == retain_necessary(working, answers.statuses)
        },
    }
}

/// An expansion of `n` actions reads the first `n` answers only.
pub proof fn lemma_expand_reads_prefix(
    actions: Seq<ActionView>,
    lookups: Seq<Lookup>,
    others: Seq<Lookup>,
    n: int,
)
    requires
        forall|i: int| 0 <= i < n ==> lookups[i] == others[i],
    ensures
        expand_first(actions, lookups, n) == expand_first(actions, others, n),
    decreases n,
{
    if n > 0 {
        lemma_expand_reads_prefix(actions, lookups, others, n - 1);
    }
}

/// Once an expansion has failed, it stays failed, with the same failure.
pub proof fn lemma_expand_failure_stays(
    actions: Seq<ActionView>,
    lookups: Seq<Lookup>,
    k: int,
    n: int,
)
    requires
        k <= n,
        expand_first(actions, lookups, k) is Err,
    ensures
        expand_first(actions, lookups, n) == expand_first(actions, lookups, k),
    decreases n - k,
{
    if k < n {
        lemma_expand_failure_stays(actions, lookups, k, n - 1);
    }
}

/// A filtering of `n` entries reads the first `n` answers only.
pub proof fn lemma_retain_reads_prefix(
    working: Seq<ActionView>,
    statuses: Seq<StatusAnswer>,
    others: Seq<StatusAnswer>,
    n: int,
)
    requires
        forall|i: int| 0 <= i < n ==> statuses[i] == others[i],
    ensures
        retain_first(working, statuses, n) == retain_first(working, others, n),
    decreases n,
{
    if n > 0 {
        lemma_retain_reads_prefix(working, statuses, others, n - 1);
    }
}

/// Once a filtering has failed, it stays failed, with the same failure.
pub proof fn lemma_retain_failure_stays(
    working: Seq<ActionView>,
    statuses: Seq<StatusAnswer>,
    k: int,
    n: int,
)
    requires
        k <= n,
        retain_first(working, statuses, k) is Err,
    ensures
        retain_first(working, statuses, n) == retain_first(working, statuses, k),
    decreases n - k,
{
    if k < n {
        lemma_retain_failure_stays(working, statuses, k, n - 1);
    }
}

/// Appending an action appends its view.
pub proof fn lemma_views_push(actions: Seq<PackageAction>, action: PackageAction)
    ensures
        views(actions.push(action)) == views(actions).push(action@),
{
}

/// The position of the first entry that addresses `key`, if there is one.
pub fn find_action(working: &Vec<PackageAction>, key: &PackageKey) -> (found: Option<usize>)
    ensures
        match found {
            Some(i) => first_addressing(views(working@), key@, i as int),
            None => !addresses(views(working@), key@),
        },
{
    let mut i: usize = 0;
    while i < working.len()
        invariant
            i <= working.len(),
            forall|j: int| 0 <= j < i ==> (#[trigger] views(working@)[j]).id != key@,
        decreases working.len() - i,
    {
        if working[i].id == *key {
            return Some(i);
        }
        i += 1;
    }
    None
}

/// Takes a dependency list in: each dependency that no entry addresses yet
/// is appended as an install under `target`.
pub fn add_dependencies<P>(
    working: &mut Vec<PackageAction>,
    dependencies: Vec<(PackageKey, P)>,
    target: InstallTarget,
)
    ensures
        views(final(working)@) == with_dependencies(
            views(old(working)@),
            dependency_keys(dependencies@),
            target,
        ),
{
    let ghost before = views(working@);
    let ghost keys = dependency_keys(dependencies@);
    for dependency in it: dependencies
        invariant
            it.seq() == dependencies@,
            keys == dependency_keys(dependencies@),
            views(working@) == with_first_dependencies(before, keys, target, it.index() as int),
    {
        if find_action(working, &dependency.0).is_none() {
            working.push(PackageAction::install(dependency.0, target));
        }
    }
}

/// Takes a requested action in; see [`merge`].
pub fn merge_action(working: &mut Vec<PackageAction>, action: PackageAction) -> (r: Result<
    (),
    PackageTransactionError,
>)
    ensures
        match merge(views(old(working)@), action@) {
            Ok(merged) => r is Ok && views(final(working)@) == merged,
            Err(failure) => r matches Err(e) && e@ == failure && final(working)@ == old(working)@,
        },
{
    match find_action(working, &action.id) {
        Some(i) => {
            assert(i as int == position(views(working@), action.id@));
            if working[i].action != action.action {
                Err(PackageTransactionError::ActionContradiction(action.id.to_string()))
            } else {
                Ok(())
            }
        },
        None => {
            working.push(action);
            Ok(())
        },
    }
}

/// The keys of a list as contracts see them.
pub open spec fn key_views(keys: Seq<PackageKey>) -> Seq<Seq<char>> {
    keys.map_values(|k: PackageKey| k@)
}

/// Whether some entry of the list does `action` to the package `key`.
pub fn requests_action(
    working: &Vec<PackageAction>,
    key: &PackageKey,
    action: PackageActionType,
) -> (yes: bool)
    ensures
        yes == requests(views(working@), key@, action),
{
    let mut i: usize = 0;
    while i < working.len()
        invariant
            i <= working.len(),
            forall|j: int|
                0 <= j < i ==> !((#[trigger] views(working@)[j]).id == key@ && views(
                    working@,
                )[j].action == action),
        decreases working.len() - i,
    {
        if working[i].id == *key && working[i].action == action {
            assert(views(working@)[i as int].id == key@);
            return true;
        }
        i += 1;
    }
    false
}

/// Whether `key` is among `keys`.
pub fn contains_key(keys: &Vec<PackageKey>, key: &PackageKey) -> (yes: bool)
    ensures
        yes == key_views(keys@).contains(key@),
{
    let mut i: usize = 0;
    while i < keys.len()
        invariant
            i <= keys.len(),
            forall|j: int| 0 <= j < i ==> #[trigger] key_views(keys@)[j] != key@,
        decreases keys.len() - i,
    {
        if keys[i] == *key {
            assert(key_views(keys@)[i as int] == key@);
            return true;
        }
        i += 1;
    }
    false
}

/// The keys that the list both installs and uninstalls, each once, in the
/// order in which the list first installs them: the keys that the set of
/// installed keys and the set of uninstalled keys have in common.
pub fn find_contradictions(working: &Vec<PackageAction>) -> (found: Vec<PackageKey>)
    ensures
        key_views(found@) == contradictions(views(working@)),
        key_views(found@).no_duplicates(),
        forall|key: Seq<char>| #[trigger]
            key_views(found@).contains(key) <==> contradicted(views(working@), key),
{
    proof {
        lemma_sweep(views(working@));
    }
    let mut found: Vec<PackageKey> = Vec::new();
    let mut i: usize = 0;
    while i < working.len()
        invariant
            i <= working.len(),
            key_views(found@) == contradictions_among(views(working@), i as int),
        decreases working.len() - i,
    {
        let entry = &working[i];
        if entry.is_install() && requests_action(working, &entry.id, PackageActionType::Uninstall)
            && !contains_key(&found, &entry.id) {
            let key = entry.id.clone();
            found.push(key);
        }
        i += 1;
    }
    found
}

/// A set of keys in words; see [`keys_text`].
pub fn render_keys(keys: &Vec<PackageKey>) -> (text: String)
    ensures
        text@ == keys_text(key_views(keys@)),
{
    let mut text = String::new();
    let mut i: usize = 0;
    while i < keys.len()
        invariant
            i <= keys.len(),
            text@ == joined(key_views(keys@), i as int),
        decreases keys.len() - i,
    {
        if i > 0 {
            text = text.concat(", ");
        }
        text = text.concat(keys[i].as_str());
        i += 1;
    }
    let whole = "{".to_owned().concat(text.as_str()).concat("}");
    whole
}

/// Sweeps the whole list for contradictions; see [`sweep`].
pub fn check_contradictions(working: &Vec<PackageAction>) -> (r: Result<(), PackageTransactionError>)
    ensures
        match sweep(views(working@)) {
            Ok(_) => r is Ok,
            Err(failure) => r matches Err(e) && e@ == failure,
        },
{
    let found = find_contradictions(working);
    if found.len() > 0 {
        Err(PackageTransactionError::ActionContradiction(render_keys(&found)))
    } else {
        Ok(())
    }
}

impl PackageAction {
    /// Whether the action still has to be carried out when the package has
    /// the given status.
    pub fn is_necessary(&self, status: PackageStatus) -> (yes: bool)
        ensures
            yes == necessary(self.action, status),
    {
        if self.is_install() {
            status != PackageStatus::UpToDate
        } else {
            status == PackageStatus::UpToDate || status == PackageStatus::RequiresUpdate
        }
    }
}

} // verus!
