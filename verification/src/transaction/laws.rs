//! What holds of every plan, whatever the store answered.

use vstd::prelude::*;

use crate::package_store::InstallTarget;
use crate::transaction::plan::{
    addresses, answered, contradicted, contradictions, contradictions_among, entry_for, expand,
    expand_first, first_addressing, install_of, lemma_expand_failure_stays, merge, necessary,
    plan, position, requests, retain_first, retain_necessary, survives, sweep,
    with_dependencies, with_first_dependencies, Lookup, StatusAnswer, StoreAnswers,
};
use crate::transaction::{ActionView, PackageActionType, PackageStatus, PlanningFailure};

verus! {

/// Whether `whole` begins with the entries of `part`.
pub open spec fn starts_with(whole: Seq<ActionView>, part: Seq<ActionView>) -> bool {
    &&& part.len() <= whole.len()
    &&& forall|i: int| 0 <= i < part.len() ==> whole[i] == part[i]
}

/// Whether no two entries of the list address the same package.
pub open spec fn distinct_keys(working: Seq<ActionView>) -> bool {
    forall|i: int, j: int|
        0 <= i < j < working.len() ==> (#[trigger] working[i]).id != (#[trigger] working[j]).id
}

/// An entry that addresses `key` at `i` means that some first entry does, at
/// `i` or before it.
proof fn lemma_first_exists(working: Seq<ActionView>, key: Seq<char>, i: int)
    requires
        0 <= i < working.len(),
        working[i].id == key,
    ensures
        first_addressing(working, key, position(working, key)),
        position(working, key) <= i,
    decreases i,
{
    if exists|j: int| 0 <= j < i && (#[trigger] working[j]).id == key {
        let j = choose|j: int| 0 <= j < i && (#[trigger] working[j]).id == key;
        lemma_first_exists(working, key, j);
    } else {
        assert(first_addressing(working, key, i));
    }
}

/// In a list that addresses `key`, the position of `key` is that of its first
/// entry.
pub proof fn lemma_position(working: Seq<ActionView>, key: Seq<char>)
    requires
        addresses(working, key),
    ensures
        first_addressing(working, key, position(working, key)),
{
    let i = choose|i: int| 0 <= i < working.len() && (#[trigger] working[i]).id == key;
    lemma_first_exists(working, key, i);
}

/// Where no two entries address the same package, an entry that addresses
/// `key` stands at the position of `key`.
pub proof fn lemma_position_of_entry(working: Seq<ActionView>, i: int)
    requires
        distinct_keys(working),
        0 <= i < working.len(),
    ensures
        position(working, working[i].id) == i,
{
    lemma_first_exists(working, working[i].id, i);
}

/// Taking dependencies in keeps what the list held, appends installs under
/// the given target only, leaves every dependency addressed, and adds no
/// second entry for a package.
pub proof fn lemma_with_dependencies(
    working: Seq<ActionView>,
    dependencies: Seq<Seq<char>>,
    target: InstallTarget,
    n: int,
)
    requires
        0 <= n <= dependencies.len(),
    ensures
        starts_with(with_first_dependencies(working, dependencies, target, n), working),
        forall|m: int|
            0 <= m < n ==> addresses(
                with_first_dependencies(working, dependencies, target, n),
                #[trigger] dependencies[m],
            ),
        forall|i: int|
            working.len() <= i < with_first_dependencies(working, dependencies, target, n).len()
                ==> (#[trigger] with_first_dependencies(working, dependencies, target, n)[i])
                == install_of(
                with_first_dependencies(working, dependencies, target, n)[i].id,
                target,
            ) && dependencies.contains(
                with_first_dependencies(working, dependencies, target, n)[i].id,
            ),
        distinct_keys(working) ==> distinct_keys(
            with_first_dependencies(working, dependencies, target, n),
        ),
    decreases n,
{
    if n > 0 {
        lemma_with_dependencies(working, dependencies, target, n - 1);
        let before = with_first_dependencies(working, dependencies, target, n - 1);
        let after = with_first_dependencies(working, dependencies, target, n);
        let key = dependencies[n - 1];
        assert forall|m: int| 0 <= m < n implies addresses(after, #[trigger] dependencies[m]) by {
            if m < n - 1 {
                let i = choose|i: int|
                    0 <= i < before.len() && (#[trigger] before[i]).id == dependencies[m];
                assert(after[i].id == dependencies[m]);
            }
        }
        if !addresses(before, key) {
            assert(after[before.len() as int] == install_of(key, target));
            if distinct_keys(working) {
                assert forall|i: int, j: int| 0 <= i < j < after.len() implies (#[trigger] after[i]).id
                    != (#[trigger] after[j]).id by {}
            }
        }
    }
}

/// Taking an action in keeps what the list held, leaves the action's package
/// addressed, appends at most the action itself, and adds no second entry for
/// a package.
pub proof fn lemma_merge(working: Seq<ActionView>, action: ActionView)
    requires
        merge(working, action) is Ok,
    ensures
        starts_with(merge(working, action)->Ok_0, working),
        addresses(merge(working, action)->Ok_0, action.id),
        addresses(working, action.id) ==> merge(working, action)->Ok_0 == working,
        !addresses(working, action.id) ==> merge(working, action)->Ok_0 == working.push(action),
        distinct_keys(working) ==> distinct_keys(merge(working, action)->Ok_0),
{
    let after = merge(working, action)->Ok_0;
    if !addresses(working, action.id) {
        assert(after[working.len() as int].id == action.id);
        if distinct_keys(working) {
            assert forall|i: int, j: int| 0 <= i < j < after.len() implies (#[trigger] after[i]).id
                != (#[trigger] after[j]).id by {}
        }
    }
}

/// The list as it stands when requested action `k` itself is taken in: the
/// actions before it are expanded, and its own dependencies are in.
pub open spec fn ready_for(actions: Seq<ActionView>, lookups: Seq<Lookup>, k: int) -> Seq<ActionView>
    recommends
        0 <= k < actions.len(),
        expand_first(actions, lookups, k + 1) is Ok,
{
    let before = expand_first(actions, lookups, k)->Ok_0;
    if actions[k].action == PackageActionType::Install {
        with_dependencies(before, lookups[k].dependencies->Ok_0, actions[k].target)
    } else {
        before
    }
}

/// One step of an expansion that succeeds: the action is taken into the list
/// that is ready for it.
pub proof fn lemma_expand_step(actions: Seq<ActionView>, lookups: Seq<Lookup>, k: int)
    requires
        0 <= k,
        expand_first(actions, lookups, k + 1) is Ok,
    ensures
        expand_first(actions, lookups, k) is Ok,
        lookups[k].found,
        actions[k].action == PackageActionType::Install ==> lookups[k].dependencies is Ok,
        expand_first(actions, lookups, k + 1) == merge(ready_for(actions, lookups, k), actions[k]),
        starts_with(ready_for(actions, lookups, k), expand_first(actions, lookups, k)->Ok_0),
        starts_with(expand_first(actions, lookups, k + 1)->Ok_0, ready_for(actions, lookups, k)),
        distinct_keys(expand_first(actions, lookups, k)->Ok_0) ==> distinct_keys(
            expand_first(actions, lookups, k + 1)->Ok_0,
        ),
{
    let before = expand_first(actions, lookups, k)->Ok_0;
    if actions[k].action == PackageActionType::Install {
        let dependencies = lookups[k].dependencies->Ok_0;
        lemma_with_dependencies(before, dependencies, actions[k].target, dependencies.len() as int);
    }
}

/// An expansion only appends: what the list held after `n` actions, it still
/// holds, in the same places, after `m`.
pub proof fn lemma_expand_grows(actions: Seq<ActionView>, lookups: Seq<Lookup>, n: int, m: int)
    requires
        0 <= n <= m,
        expand_first(actions, lookups, m) is Ok,
    ensures
        expand_first(actions, lookups, n) is Ok,
        starts_with(expand_first(actions, lookups, m)->Ok_0, expand_first(actions, lookups, n)->Ok_0),
    decreases m - n,
{
    if n < m {
        lemma_expand_step(actions, lookups, m - 1);
        lemma_expand_grows(actions, lookups, n, m - 1);
    }
}

/// No two entries of an expanded list address the same package.
pub proof fn lemma_expand_distinct(actions: Seq<ActionView>, lookups: Seq<Lookup>, n: int)
    requires
        0 <= n,
        expand_first(actions, lookups, n) is Ok,
    ensures
        distinct_keys(expand_first(actions, lookups, n)->Ok_0),
    decreases n,
{
    if n > 0 {
        lemma_expand_step(actions, lookups, n - 1);
        lemma_expand_distinct(actions, lookups, n - 1);
    }
}

/// How many of the first `i` entries of the list stay in the plan.
pub open spec fn rank(working: Seq<ActionView>, statuses: Seq<StatusAnswer>, i: int) -> int
    decreases i,
{
    if i <= 0 {
        0
    } else if survives(working, statuses, i - 1) {
        rank(working, statuses, i - 1) + 1
    } else {
        rank(working, statuses, i - 1)
    }
}

/// Whether entry `i` of the list stays in the plan, and as entry `j` of it.
pub open spec fn kept_as(
    working: Seq<ActionView>,
    statuses: Seq<StatusAnswer>,
    i: int,
    j: int,
) -> bool {
    &&& 0 <= i < working.len()
    &&& survives(working, statuses, i)
    &&& rank(working, statuses, i) == j
}

/// Whether entry `j` of `kept` is an entry of the list that stays in the
/// plan, and as entry `j` of it.
pub open spec fn came_from(
    working: Seq<ActionView>,
    statuses: Seq<StatusAnswer>,
    kept: Seq<ActionView>,
    j: int,
) -> bool {
    exists|i: int| #[trigger] kept_as(working, statuses, i, j) && working[i] == kept[j]
}

/// Later entries have no smaller rank, and a greater one if an entry that
/// stays lies between.
pub proof fn lemma_rank_grows(
    working: Seq<ActionView>,
    statuses: Seq<StatusAnswer>,
    i: int,
    j: int,
)
    requires
        0 <= i <= j,
    ensures
        0 <= rank(working, statuses, i) <= rank(working, statuses, j),
        rank(working, statuses, i) <= i,
        i < j && survives(working, statuses, i) ==> rank(working, statuses, i) < rank(
            working,
            statuses,
            j,
        ),
    decreases j,
{
    if i < j {
        lemma_rank_grows(working, statuses, i, j - 1);
    } else if i > 0 {
        lemma_rank_grows(working, statuses, i - 1, i - 1);
    }
}

/// The shape of a filtering that succeeds: every status query was answered,
/// an entry that stays stands in the result at its rank, and every entry of
/// the result is one that stays.
pub proof fn lemma_retain_shape(working: Seq<ActionView>, statuses: Seq<StatusAnswer>, n: int)
    requires
        0 <= n <= working.len(),
        retain_first(working, statuses, n) is Ok,
    ensures
        retain_first(working, statuses, n)->Ok_0.len() == rank(working, statuses, n),
        forall|i: int| 0 <= i < n ==> (#[trigger] statuses[i]) is Ok,
        forall|i: int|
            0 <= i < n && #[trigger] survives(working, statuses, i) ==> 0 <= rank(
                working,
                statuses,
                i,
            ) < rank(working, statuses, n) && retain_first(working, statuses, n)->Ok_0[rank(
                working,
                statuses,
                i,
            )] == working[i],
        forall|j: int|
            0 <= j < rank(working, statuses, n) ==> #[trigger] came_from(
                working,
                statuses,
                retain_first(working, statuses, n)->Ok_0,
                j,
            ),
    decreases n,
{
    if n > 0 {
        lemma_retain_shape(working, statuses, n - 1);
        let before = retain_first(working, statuses, n - 1)->Ok_0;
        let after = retain_first(working, statuses, n)->Ok_0;
        assert forall|i: int| 0 <= i < n && #[trigger] survives(working, statuses, i) implies 0
            <= rank(working, statuses, i) < rank(working, statuses, n) && after[rank(
            working,
            statuses,
            i,
        )] == working[i] by {
            if i < n - 1 {
            }
        }
        assert forall|j: int| 0 <= j < rank(working, statuses, n) implies #[trigger] came_from(
            working,
            statuses,
            after,
            j,
        ) by {
            if j < rank(working, statuses, n - 1) {
                assert(came_from(working, statuses, before, j));
            } else {
                assert(kept_as(working, statuses, n - 1, j));
            }
        }
    }
}

/// The keys that the list installs.
pub open spec fn installed_keys(list: Seq<ActionView>) -> Set<Seq<char>> {
    Set::new(|key: Seq<char>| requests(list, key, PackageActionType::Install))
}

/// The keys that the list uninstalls.
pub open spec fn uninstalled_keys(list: Seq<ActionView>) -> Set<Seq<char>> {
    Set::new(|key: Seq<char>| requests(list, key, PackageActionType::Uninstall))
}

/// Whether one of the first `n` entries installs the package `key`.
pub open spec fn installs_within(list: Seq<ActionView>, key: Seq<char>, n: int) -> bool {
    exists|i: int|
        0 <= i < n && (#[trigger] list[i]).id == key && list[i].action
            == PackageActionType::Install
}

/// The contradictions found among the first `n` entries are the keys that one
/// of those entries installs and some entry uninstalls, each once.
pub proof fn lemma_contradictions_among(working: Seq<ActionView>, n: int)
    requires
        0 <= n <= working.len(),
    ensures
        forall|key: Seq<char>| #[trigger]
            contradictions_among(working, n).contains(key) <==> installs_within(working, key, n)
                && requests(working, key, PackageActionType::Uninstall),
        contradictions_among(working, n).no_duplicates(),
    decreases n,
{
    if n > 0 {
        lemma_contradictions_among(working, n - 1);
        let before = contradictions_among(working, n - 1);
        let after = contradictions_among(working, n);
        let entry = working[n - 1];
        let added = entry.action == PackageActionType::Install && requests(
            working,
            entry.id,
            PackageActionType::Uninstall,
        ) && !before.contains(entry.id);
        assert forall|key: Seq<char>| #[trigger]
            after.contains(key) <==> installs_within(working, key, n) && requests(
                working,
                key,
                PackageActionType::Uninstall,
            ) by {
            if after.contains(key) {
                let j = choose|j: int| 0 <= j < after.len() && after[j] == key;
                if !(added && j == before.len()) {
                    assert(before.contains(key));
                    let i = choose|i: int|
                        0 <= i < n - 1 && (#[trigger] working[i]).id == key && working[i].action
                            == PackageActionType::Install;
                }
            }
            if installs_within(working, key, n) && requests(
                working,
                key,
                PackageActionType::Uninstall,
            ) {
                let i = choose|i: int|
                    0 <= i < n && (#[trigger] working[i]).id == key && working[i].action
                        == PackageActionType::Install;
                if i < n - 1 {
                    assert(before.contains(key));
                    let j = choose|j: int| 0 <= j < before.len() && before[j] == key;
                    assert(after[j] == key);
                } else if added {
                    assert(after[before.len() as int] == key);
                }
            }
        }
    }
}

/// The sweep passes exactly the lists whose installed keys and uninstalled
/// keys are disjoint, and it finds every contradicted key.
pub proof fn lemma_sweep(working: Seq<ActionView>)
    ensures
        sweep(working) is Ok <==> installed_keys(working).disjoint(uninstalled_keys(working)),
        forall|key: Seq<char>| #[trigger]
            contradictions(working).contains(key) <==> contradicted(working, key),
        contradictions(working).no_duplicates(),
{
    let n = working.len() as int;
    lemma_contradictions_among(working, n);
    assert forall|key: Seq<char>| #[trigger]
        contradictions(working).contains(key) <==> contradicted(working, key) by {}
    if sweep(working) is Ok {
        assert forall|key: Seq<char>|
            !(installed_keys(working).contains(key) && uninstalled_keys(working).contains(
                key,
            )) by {
            if contradicted(working, key) {
                assert(contradictions(working).contains(key));
            }
        }
    } else {
        let key = contradictions(working)[0];
        assert(contradictions(working).contains(key));
        assert(installed_keys(working).contains(key) && uninstalled_keys(working).contains(key));
    }
}

/// Where no two entries address the same package, nothing is contradicted:
/// the sweep passes.
pub proof fn lemma_distinct_passes_sweep(working: Seq<ActionView>)
    requires
        distinct_keys(working),
    ensures
        sweep(working) is Ok,
{
    lemma_sweep(working);
    assert forall|key: Seq<char>| !contradicted(working, key) by {}
    if contradictions(working).len() > 0 {
        assert(contradictions(working).contains(contradictions(working)[0]));
    }
}

/// The sweep passes every list that an expansion builds: a contradiction is
/// met, and refused, where the second of the two actions is taken in.
pub proof fn lemma_expanded_passes_sweep(actions: Seq<ActionView>, lookups: Seq<Lookup>)
    requires
        expand(actions, lookups) is Ok,
    ensures
        sweep(expand(actions, lookups)->Ok_0) is Ok,
{
    lemma_expand_distinct(actions, lookups, actions.len() as int);
    lemma_distinct_passes_sweep(expand(actions, lookups)->Ok_0);
}

/// The expanded list from which a plan was filtered.
pub open spec fn expanded(actions: Seq<ActionView>, answers: StoreAnswers) -> Seq<ActionView>
    recommends
        plan(actions, answers) is Ok,
{
    expand(actions, answers.lookups)->Ok_0
}

/// A plan is what stays of the expanded list: each of its entries is an
/// entry of that list, in the order of that list.
pub proof fn lemma_plan_shape(actions: Seq<ActionView>, answers: StoreAnswers)
    requires
        plan(actions, answers) is Ok,
    ensures
        expand(actions, answers.lookups) is Ok,
        sweep(expanded(actions, answers)) is Ok,
        plan(actions, answers) == retain_necessary(expanded(actions, answers), answers.statuses),
        plan(actions, answers)->Ok_0.len() == rank(
            expanded(actions, answers),
            answers.statuses,
            expanded(actions, answers).len() as int,
        ),
        distinct_keys(expanded(actions, answers)),
{
    let working = expanded(actions, answers);
    lemma_retain_shape(working, answers.statuses, working.len() as int);
    lemma_expand_distinct(actions, answers.lookups, actions.len() as int);
}

/// The set of keys that a plan installs and the set of keys that it
/// uninstalls are disjoint; more than that, no two entries of a plan address
/// the same package.
pub proof fn lemma_plan_contradiction_free(actions: Seq<ActionView>, answers: StoreAnswers)
    requires
        plan(actions, answers) is Ok,
    ensures
        installed_keys(plan(actions, answers)->Ok_0).disjoint(
            uninstalled_keys(plan(actions, answers)->Ok_0),
        ),
        distinct_keys(plan(actions, answers)->Ok_0),
{
    let working = expanded(actions, answers);
    let statuses = answers.statuses;
    let built = plan(actions, answers)->Ok_0;
    let n = working.len() as int;
    lemma_plan_shape(actions, answers);
    lemma_retain_shape(working, statuses, n);
    assert forall|i: int, j: int| 0 <= i < j < built.len() implies (#[trigger] built[i]).id
        != (#[trigger] built[j]).id by {
        assert(came_from(working, statuses, built, i));
        assert(came_from(working, statuses, built, j));
    }
    assert forall|key: Seq<char>|
        !(installed_keys(built).contains(key) && uninstalled_keys(built).contains(key)) by {}
}

/// Every entry of a plan is necessary: it is an entry of the expanded list,
/// the store told the status of its package, and by that status the action
/// still has to be carried out.
pub proof fn lemma_plan_necessary(actions: Seq<ActionView>, answers: StoreAnswers, j: int)
    requires
        plan(actions, answers) is Ok,
        0 <= j < plan(actions, answers)->Ok_0.len(),
    ensures
        exists|i: int| #[trigger]
            kept_as(expanded(actions, answers), answers.statuses, i, j) && expanded(
                actions,
                answers,
            )[i] == plan(actions, answers)->Ok_0[j] && answers.statuses[i] is Ok && necessary(
                plan(actions, answers)->Ok_0[j].action,
                answers.statuses[i]->Ok_0,
            ),
{
    let working = expanded(actions, answers);
    let n = working.len() as int;
    lemma_retain_shape(working, answers.statuses, n);
    assert(came_from(working, answers.statuses, plan(actions, answers)->Ok_0, j));
}

/// Whether requested action `k` was appended to the list itself: it was not
/// refused, and no entry addressed its package when it was taken in.
pub open spec fn placed(actions: Seq<ActionView>, lookups: Seq<Lookup>, k: int) -> bool {
    &&& 0 <= k < actions.len()
    &&& expand_first(actions, lookups, k + 1) is Ok
    &&& !addresses(ready_for(actions, lookups, k), actions[k].id)
}

/// Where requested action `k` stands in the expanded list, if it was placed.
pub open spec fn slot(actions: Seq<ActionView>, lookups: Seq<Lookup>, k: int) -> int
    recommends
        placed(actions, lookups, k),
{
    ready_for(actions, lookups, k).len() as int
}

/// A requested action that was placed stands in the expanded list at its
/// slot, behind everything that the actions before it put there.
pub proof fn lemma_placed(actions: Seq<ActionView>, lookups: Seq<Lookup>, k: int)
    requires
        expand(actions, lookups) is Ok,
        placed(actions, lookups, k),
    ensures
        expand_first(actions, lookups, k) is Ok,
        expand_first(actions, lookups, k)->Ok_0.len() <= slot(actions, lookups, k),
        slot(actions, lookups, k) < expand_first(actions, lookups, k + 1)->Ok_0.len(),
        slot(actions, lookups, k) < expand(actions, lookups)->Ok_0.len(),
        expand(actions, lookups)->Ok_0[slot(actions, lookups, k)] == actions[k],
        position(expand(actions, lookups)->Ok_0, actions[k].id) == slot(actions, lookups, k),
{
    let n = actions.len() as int;
    let whole = expand(actions, lookups)->Ok_0;
    lemma_expand_step(actions, lookups, k);
    lemma_expand_grows(actions, lookups, k + 1, n);
    lemma_expand_distinct(actions, lookups, n);
    lemma_position_of_entry(whole, slot(actions, lookups, k));
}

/// Requested actions that are carried out as themselves stand in the plan in
/// the order in which they were requested: of two that were placed and stay,
/// the one requested first comes first.
pub proof fn lemma_plan_keeps_request_order(
    actions: Seq<ActionView>,
    answers: StoreAnswers,
    first: int,
    second: int,
)
    requires
        plan(actions, answers) is Ok,
        first < second,
        placed(actions, answers.lookups, first),
        placed(actions, answers.lookups, second),
        survives(
            expanded(actions, answers),
            answers.statuses,
            slot(actions, answers.lookups, first),
        ),
        survives(
            expanded(actions, answers),
            answers.statuses,
            slot(actions, answers.lookups, second),
        ),
    ensures
        ({
            let working = expanded(actions, answers);
            let built = plan(actions, answers)->Ok_0;
            let j1 = rank(working, answers.statuses, slot(actions, answers.lookups, first));
            let j2 = rank(working, answers.statuses, slot(actions, answers.lookups, second));
            &&& 0 <= j1 < j2 < built.len()
            &&& built[j1] == actions[first]
            &&& built[j2] == actions[second]
        }),
{
    let working = expanded(actions, answers);
    let lookups = answers.lookups;
    let statuses = answers.statuses;
    lemma_placed(actions, lookups, first);
    lemma_placed(actions, lookups, second);
    lemma_expand_grows(actions, lookups, first + 1, second);
    lemma_retain_shape(working, statuses, working.len() as int);
    lemma_rank_grows(working, statuses, slot(actions, lookups, first), slot(actions, lookups, second));
}

/// The dependencies of a requested install that was placed stand before it in
/// the expanded list.
pub proof fn lemma_dependencies_precede(
    actions: Seq<ActionView>,
    lookups: Seq<Lookup>,
    k: int,
    m: int,
)
    requires
        expand(actions, lookups) is Ok,
        placed(actions, lookups, k),
        actions[k].action == PackageActionType::Install,
        0 <= m < lookups[k].dependencies->Ok_0.len(),
    ensures
        lookups[k].dependencies is Ok,
        addresses(expand(actions, lookups)->Ok_0, lookups[k].dependencies->Ok_0[m]),
        position(expand(actions, lookups)->Ok_0, lookups[k].dependencies->Ok_0[m]) < slot(
            actions,
            lookups,
            k,
        ),
        position(expand(actions, lookups)->Ok_0, actions[k].id) == slot(actions, lookups, k),
{
    let n = actions.len() as int;
    let whole = expand(actions, lookups)->Ok_0;
    let dependencies = lookups[k].dependencies->Ok_0;
    let ready = ready_for(actions, lookups, k);
    lemma_placed(actions, lookups, k);
    lemma_expand_grows(actions, lookups, k + 1, n);
    lemma_with_dependencies(
        expand_first(actions, lookups, k)->Ok_0,
        dependencies,
        actions[k].target,
        dependencies.len() as int,
    );
    let i = choose|i: int| 0 <= i < ready.len() && (#[trigger] ready[i]).id == dependencies[m];
    lemma_first_exists(whole, dependencies[m], i);
}

/// Whether some entry of the plan before entry `j` addresses the package
/// `key`.
pub open spec fn appears_before(built: Seq<ActionView>, key: Seq<char>, j: int) -> bool {
    exists|i: int| 0 <= i < j && i < built.len() && (#[trigger] built[i]).id == key
}

/// A plan is complete: where the install of a requested package stays in the
/// plan, each dependency of that package either appears earlier in the plan
/// or was reported up to date.
///
/// Two kinds of answers are left out, on which this cannot hold. The entry of
/// the dependency must stand before the entry of the install in the expanded
/// list, as it does whenever the install was placed, unless the dependency is
/// up to date: an install that was merged into an entry that an earlier
/// dependency list put there may stand before its own dependencies. And the
/// dependency must not be a package that is not installed and whose
/// uninstall was requested: that uninstall is dropped, and nothing installs
/// the package.
pub proof fn lemma_plan_complete(
    actions: Seq<ActionView>,
    answers: StoreAnswers,
    k: int,
    m: int,
)
    requires
        plan(actions, answers) is Ok,
        0 <= k < actions.len(),
        actions[k].action == PackageActionType::Install,
        0 <= m < answers.lookups[k].dependencies->Ok_0.len(),
        survives(
            expanded(actions, answers),
            answers.statuses,
            position(expanded(actions, answers), actions[k].id),
        ),
        ({
            let working = expanded(actions, answers);
            let p = position(working, actions[k].id);
            let q = position(working, answers.lookups[k].dependencies->Ok_0[m]);
            &&& q < p || answered(answers.statuses, q, PackageStatus::UpToDate)
            &&& !(working[q].action == PackageActionType::Uninstall && answered(
                answers.statuses,
                q,
                PackageStatus::NotInstalled,
            ))
        }),
    ensures
        ({
            let working = expanded(actions, answers);
            let built = plan(actions, answers)->Ok_0;
            let dependency = answers.lookups[k].dependencies->Ok_0[m];
            let p = position(working, actions[k].id);
            let q = position(working, dependency);
            let j = rank(working, answers.statuses, p);
            &&& answers.lookups[k].dependencies is Ok
            &&& first_addressing(working, actions[k].id, p)
            &&& first_addressing(working, dependency, q)
            &&& 0 <= j < built.len()
            &&& built[j] == working[p]
            &&& built[j].action == PackageActionType::Install
            &&& appears_before(built, dependency, j) || answered(
                answers.statuses,
                q,
                PackageStatus::UpToDate,
            )
        }),
{
    let n = actions.len() as int;
    let lookups = answers.lookups;
    let statuses = answers.statuses;
    let working = expanded(actions, answers);
    let dependencies = lookups[k].dependencies->Ok_0;
    let dependency = dependencies[m];
    let ready = ready_for(actions, lookups, k);
    let p = position(working, actions[k].id);
    let q = position(working, dependency);

    lemma_plan_shape(actions, answers);
    lemma_expand_grows(actions, lookups, k + 1, n);
    lemma_with_dependencies(
        expand_first(actions, lookups, k)->Ok_0,
        dependencies,
        actions[k].target,
        dependencies.len() as int,
    );
    lemma_merge(ready, actions[k]);

    // The dependency is addressed in the whole list.
    let i = choose|i: int| 0 <= i < ready.len() && (#[trigger] ready[i]).id == dependency;
    lemma_first_exists(working, dependency, i);

    // So is the package of the install, by an install.
    if addresses(ready, actions[k].id) {
        lemma_position(ready, actions[k].id);
        let r = position(ready, actions[k].id);
        lemma_position_of_entry(working, r);
    } else {
        lemma_position_of_entry(working, ready.len() as int);
    }

    lemma_retain_shape(working, statuses, working.len() as int);
    if !answered(statuses, q, PackageStatus::UpToDate) {
        assert(survives(working, statuses, q));
        lemma_rank_grows(working, statuses, q, p);
    }
}

/// Whether the expansion fails at requested action `i`: the actions before
/// it were expanded, and this one is refused.
pub open spec fn fails_at(actions: Seq<ActionView>, lookups: Seq<Lookup>, i: int) -> bool {
    &&& 0 <= i < actions.len()
    &&& expand_first(actions, lookups, i) is Ok
    &&& expand_first(actions, lookups, i + 1) is Err
    &&& expand_first(actions, lookups, i + 1) == expand(actions, lookups)
}

/// Whether the filtering fails at entry `j`: the store told the status of
/// every entry before it, and not of this one.
pub open spec fn status_fails_at(
    working: Seq<ActionView>,
    statuses: Seq<StatusAnswer>,
    j: int,
) -> bool {
    &&& 0 <= j < working.len()
    &&& statuses[j] is Err
    &&& forall|k: int| 0 <= k < j ==> (#[trigger] statuses[k]) is Ok
}

/// An expansion that fails, fails at one of the first `n` actions.
proof fn lemma_expand_fails_somewhere(actions: Seq<ActionView>, lookups: Seq<Lookup>, n: int)
    requires
        0 <= n <= actions.len(),
        expand_first(actions, lookups, n) is Err,
    ensures
        exists|i: int|
            i < n && #[trigger] fails_at(actions, lookups, i) && expand_first(
                actions,
                lookups,
                i + 1,
            ) == expand_first(actions, lookups, n),
    decreases n,
{
    if expand_first(actions, lookups, n - 1) is Err {
        lemma_expand_fails_somewhere(actions, lookups, n - 1);
    } else {
        lemma_expand_failure_stays(actions, lookups, n, actions.len() as int);
        assert(fails_at(actions, lookups, n - 1));
    }
}

/// A filtering that fails, fails at one of the first `n` entries, with what
/// the store answered there.
proof fn lemma_retain_fails_somewhere(working: Seq<ActionView>, statuses: Seq<StatusAnswer>, n: int)
    requires
        0 <= n <= working.len(),
        retain_first(working, statuses, n) is Err,
    ensures
        exists|j: int|
            j < n && #[trigger] status_fails_at(working, statuses, j) && retain_first(
                working,
                statuses,
                n,
            ) == Err::<Seq<ActionView>, _>(PlanningFailure::InvalidStatus(statuses[j]->Err_0)),
    decreases n,
{
    if retain_first(working, statuses, n - 1) is Err {
        lemma_retain_fails_somewhere(working, statuses, n - 1);
    } else {
        lemma_retain_shape(working, statuses, n - 1);
        assert(status_fails_at(working, statuses, n - 1));
    }
}

/// Every failure of planning has its cause, and names it. An unknown package
/// is the package of a requested action that the store did not find. A
/// dependency failure is what the store answered when asked for the
/// dependencies of a requested install. A contradiction names the package
/// of a requested action, and an entry that does the opposite to that
/// package stood in the list when the action was taken in. An invalid status
/// is what the store answered about an entry of the expanded list.
pub proof fn lemma_failure_has_a_cause(actions: Seq<ActionView>, answers: StoreAnswers)
    requires
        plan(actions, answers) is Err,
    ensures
        match plan(actions, answers)->Err_0 {
            PlanningFailure::NoPackage(key) => exists|i: int| #[trigger]
                fails_at(actions, answers.lookups, i) && actions[i].id == key
                    && !answers.lookups[i].found,
            PlanningFailure::Deps(e) => exists|i: int| #[trigger]
                fails_at(actions, answers.lookups, i) && actions[i].action
                    == PackageActionType::Install && answers.lookups[i].found
                    && answers.lookups[i].dependencies == Err::<Seq<Seq<char>>, _>(e),
            PlanningFailure::ActionContradiction(key) => exists|i: int| #[trigger]
                fails_at(actions, answers.lookups, i) && actions[i].id == key && addresses(
                    ready_for(actions, answers.lookups, i),
                    key,
                ) && entry_for(ready_for(actions, answers.lookups, i), key).action
                    != actions[i].action,
            PlanningFailure::InvalidStatus(e) => expand(actions, answers.lookups) is Ok
                && exists|j: int| #[trigger]
                status_fails_at(expanded(actions, answers), answers.statuses, j)
                    && answers.statuses[j] == Err::<PackageStatus, _>(e),
        },
{
    let lookups = answers.lookups;
    let n = actions.len() as int;
    if expand(actions, lookups) is Err {
        lemma_expand_fails_somewhere(actions, lookups, n);
    } else {
        let working = expanded(actions, answers);
        lemma_expanded_passes_sweep(actions, lookups);
        lemma_retain_fails_somewhere(working, answers.statuses, working.len() as int);
    }
}

} // verus!
