use std::sync::Arc;

use pahkat_client::transaction::install::InstallError;
use pahkat_client::transaction::uninstall::UninstallError;
use pahkat_client::transaction::{
    PackageAction, PackageActionType, PackageDependencyError, PackageStatus, PackageStatusError,
    PackageTransaction, PackageTransactionError,
};
use pahkat_client::{InstallTarget, PackageKey, PackageStore};

const KEYS: [&str; 3] = ["a", "b", "c"];

const STATUSES: [PackageStatus; 3] =
    [PackageStatus::NotInstalled, PackageStatus::UpToDate, PackageStatus::RequiresUpdate];

/// A store that knows `a`, `b` and `c`, where `a` needs `b` and `c`, and `b`
/// needs `c`.
struct World {
    statuses: [PackageStatus; 3],
    reversed: bool,
}

impl World {
    fn index(name: &str) -> usize {
        match KEYS.iter().position(|k| *k == name) {
            Some(i) => i,
            None => panic!("unknown key {}", name),
        }
    }

    fn status_of(&self, name: &str) -> PackageStatus {
        self.statuses[World::index(name)]
    }

    fn dependencies_of(&self, name: &str) -> Vec<&'static str> {
        let mut list = match name {
            "a" => vec!["b", "c"],
            "b" => vec!["c"],
            _ => Vec::new(),
        };
        if self.reversed {
            list.reverse();
        }
        list
    }
}

impl PackageStore for World {
    type Package = ();

    fn find_package_by_key(&self, key: &PackageKey) -> Option<()> {
        if KEYS.iter().any(|k| *k == key.as_str()) {
            Some(())
        } else {
            None
        }
    }

    fn find_package_dependencies(
        &self,
        key: &PackageKey,
        _package: &(),
        _target: &InstallTarget,
    ) -> Result<Vec<(PackageKey, ())>, PackageDependencyError> {
        Ok(self
            .dependencies_of(key.as_str())
            .into_iter()
            .map(|d| (PackageKey::new(d.to_string()), ()))
            .collect())
    }

    fn status(
        &self,
        key: &PackageKey,
        _target: InstallTarget,
    ) -> Result<PackageStatus, PackageStatusError> {
        Ok(self.status_of(key.as_str()))
    }

    fn install(&self, _key: &PackageKey, _target: InstallTarget) -> Result<(), InstallError> {
        Ok(())
    }

    fn uninstall(&self, _key: &PackageKey, _target: InstallTarget) -> Result<(), UninstallError> {
        Ok(())
    }
}

type Request = (&'static str, PackageActionType);

fn all_requests() -> Vec<Vec<Request>> {
    let mut options: Vec<Request> = Vec::new();
    for k in KEYS.iter() {
        options.push((k, PackageActionType::Install));
        options.push((k, PackageActionType::Uninstall));
    }
    let mut out: Vec<Vec<Request>> = vec![Vec::new()];
    let mut last: Vec<Vec<Request>> = vec![Vec::new()];
    for _ in 0..3 {
        let mut next = Vec::new();
        for prefix in last.iter() {
            for o in options.iter() {
                let mut longer = prefix.clone();
                longer.push(*o);
                next.push(longer);
            }
        }
        out.extend(next.iter().cloned());
        last = next;
    }
    out
}

fn all_worlds() -> Vec<World> {
    let mut out = Vec::new();
    for a in STATUSES.iter() {
        for b in STATUSES.iter() {
            for c in STATUSES.iter() {
                for reversed in [false, true] {
                    out.push(World { statuses: [*a, *b, *c], reversed });
                }
            }
        }
    }
    out
}

fn build(world: World, requests: &Vec<Request>) -> (Arc<World>, Result<Vec<Request>, String>) {
    let store = Arc::new(world);
    let actions: Vec<PackageAction> = requests
        .iter()
        .map(|(k, t)| PackageAction {
            id: PackageKey::new(k.to_string()),
            action: *t,
            target: InstallTarget::System,
        })
        .collect();
    let outcome = match PackageTransaction::new(Arc::clone(&store), actions) {
        Ok(transaction) => Ok(transaction
            .actions()
            .iter()
            .map(|a| (KEYS[World::index(a.id.as_str())], a.action))
            .collect()),
        Err(PackageTransactionError::ActionContradiction(what)) => Err(what),
        Err(other) => panic!("unexpected failure: {:?}", other),
    };
    (store, outcome)
}

/// Whether request `i` is appended to the list itself: nothing before it, and
/// none of its own dependencies, addresses its package.
fn placed(world: &World, requests: &Vec<Request>, i: usize) -> bool {
    let (key, action) = requests[i];
    let mut addressed: Vec<&str> = Vec::new();
    for (k, t) in requests.iter().take(i) {
        if *t == PackageActionType::Install {
            addressed.extend(world.dependencies_of(k));
        }
        addressed.push(k);
    }
    if action == PackageActionType::Install {
        addressed.extend(world.dependencies_of(key));
    }
    !addressed.contains(&key)
}

fn place_in(plan: &Vec<Request>, key: &str) -> Option<usize> {
    plan.iter().position(|(k, _)| *k == key)
}

#[test]
fn every_small_plan_is_free_of_contradictions() {
    for requests in all_requests().iter() {
        for world in all_worlds() {
            if let (_, Ok(plan)) = build(world, requests) {
                for (i, (k, _)) in plan.iter().enumerate() {
                    for (l, _) in plan.iter().skip(i + 1) {
                        assert!(k != l, "{:?} gives {:?}", requests, plan);
                    }
                }
            }
        }
    }
}

#[test]
fn every_small_plan_holds_necessary_actions_only() {
    for requests in all_requests().iter() {
        for world in all_worlds() {
            if let (store, Ok(plan)) = build(world, requests) {
                for (k, t) in plan.iter() {
                    let status = store.status_of(k);
                    let necessary = match t {
                        PackageActionType::Install => status != PackageStatus::UpToDate,
                        PackageActionType::Uninstall => status != PackageStatus::NotInstalled,
                    };
                    assert!(necessary, "{:?} gives {:?}", requests, plan);
                }
            }
        }
    }
}

#[test]
fn every_small_plan_keeps_the_order_of_placed_requests() {
    for requests in all_requests().iter() {
        for world in all_worlds() {
            if let (store, Ok(plan)) = build(world, requests) {
                let mut last: Option<usize> = None;
                for i in 0..requests.len() {
                    if !placed(&store, requests, i) {
                        continue;
                    }
                    if let Some(at) = place_in(&plan, requests[i].0) {
                        assert_eq!(plan[at], requests[i]);
                        if let Some(before) = last {
                            assert!(before < at, "{:?} gives {:?}", requests, plan);
                        }
                        last = Some(at);
                    }
                }
            }
        }
    }
}

#[test]
fn every_small_plan_is_complete() {
    for requests in all_requests().iter() {
        for world in all_worlds() {
            if let (store, Ok(plan)) = build(world, requests) {
                for i in 0..requests.len() {
                    let (key, action) = requests[i];
                    if action != PackageActionType::Install || !placed(&store, requests, i) {
                        continue;
                    }
                    let at = match place_in(&plan, key) {
                        Some(at) => at,
                        None => continue,
                    };
                    for d in store.dependencies_of(key) {
                        let dropped_uninstall = store.status_of(d) == PackageStatus::NotInstalled
                            && requests
                                .iter()
                                .take(i)
                                .any(|(k, t)| *k == d && *t == PackageActionType::Uninstall);
                        if dropped_uninstall {
                            assert!(place_in(&plan, d).is_none());
                            continue;
                        }
                        let earlier = matches!(place_in(&plan, d), Some(p) if p < at);
                        let up_to_date = store.status_of(d) == PackageStatus::UpToDate;
                        assert!(earlier || up_to_date, "{:?} gives {:?}", requests, plan);
                    }
                }
            }
        }
    }
}

#[test]
fn every_small_contradiction_names_a_package_requested_both_ways() {
    let mut refused = 0;
    for requests in all_requests().iter() {
        for world in all_worlds() {
            if let (store, Err(what)) = build(world, requests) {
                refused += 1;
                let mut installed: Vec<&str> = Vec::new();
                let mut uninstalled: Vec<&str> = Vec::new();
                for (k, t) in requests.iter() {
                    match t {
                        PackageActionType::Install => {
                            installed.extend(store.dependencies_of(k));
                            installed.push(k);
                        }
                        PackageActionType::Uninstall => uninstalled.push(k),
                    }
                }
                assert!(installed.contains(&what.as_str()), "{:?} names {}", requests, what);
                assert!(uninstalled.contains(&what.as_str()), "{:?} names {}", requests, what);
            }
        }
    }
    assert!(refused > 0);
}

#[test]
fn an_install_merged_into_a_dependency_may_stand_before_its_own_dependency() {
    let world = World { statuses: [PackageStatus::NotInstalled; 3], reversed: false };
    let requests = vec![("a", PackageActionType::Install), ("b", PackageActionType::Install)];
    let (_, outcome) = build(world, &requests);
    assert_eq!(
        outcome,
        Ok(vec![
            ("b", PackageActionType::Install),
            ("c", PackageActionType::Install),
            ("a", PackageActionType::Install)
        ])
    );
}

#[test]
fn an_uninstall_requested_first_hides_the_dependency() {
    let world = World {
        statuses: [PackageStatus::NotInstalled, PackageStatus::NotInstalled, PackageStatus::UpToDate],
        reversed: false,
    };
    let requests = vec![("b", PackageActionType::Uninstall), ("a", PackageActionType::Install)];
    let (_, outcome) = build(world, &requests);
    assert_eq!(outcome, Ok(vec![("a", PackageActionType::Install)]));
}
