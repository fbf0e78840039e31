use std::cell::RefCell;
use std::sync::Arc;

use pahkat_client::repo::PayloadError;
use pahkat_client::transaction::install::InstallError;
use pahkat_client::transaction::run::RunState;
use pahkat_client::transaction::uninstall::UninstallError;
use pahkat_client::transaction::{
    PackageAction, PackageActionType, PackageDependencyError, PackageStatus, PackageStatusError,
    PackageTransaction, PackageTransactionError, TransactionError, TransactionEvent,
};
use pahkat_client::{InstallTarget, PackageKey, PackageStore};

struct MockStore {
    known: Vec<&'static str>,
    dependencies: Vec<(&'static str, Vec<&'static str>)>,
    unresolved: Vec<(&'static str, PackageDependencyError)>,
    statuses: Vec<(&'static str, PackageStatus)>,
    broken_status: Vec<&'static str>,
    failing: Vec<&'static str>,
    log: RefCell<Vec<String>>,
}

impl MockStore {
    fn new(known: &[&'static str]) -> MockStore {
        MockStore {
            known: known.to_vec(),
            dependencies: Vec::new(),
            unresolved: Vec::new(),
            statuses: Vec::new(),
            broken_status: Vec::new(),
            failing: Vec::new(),
            log: RefCell::new(Vec::new()),
        }
    }

    fn depends(mut self, package: &'static str, on: &[&'static str]) -> MockStore {
        self.dependencies.push((package, on.to_vec()));
        self
    }

    fn status_of(mut self, package: &'static str, status: PackageStatus) -> MockStore {
        self.statuses.push((package, status));
        self
    }

    fn failing_on(mut self, package: &'static str) -> MockStore {
        self.failing.push(package);
        self
    }

    fn log(&self) -> Vec<String> {
        self.log.borrow().clone()
    }
}

impl PackageStore for MockStore {
    type Package = String;

    fn find_package_by_key(&self, key: &PackageKey) -> Option<String> {
        let name = key.to_string();
        self.log.borrow_mut().push(format!("find {}", name));
        if self.known.iter().any(|k| *k == name) {
            Some(name)
        } else {
            None
        }
    }

    fn find_package_dependencies(
        &self,
        key: &PackageKey,
        _package: &String,
        _target: &InstallTarget,
    ) -> Result<Vec<(PackageKey, String)>, PackageDependencyError> {
        let name = key.to_string();
        self.log.borrow_mut().push(format!("dependencies {}", name));
        for (package, error) in self.unresolved.iter() {
            if *package == name {
                return Err(error.clone());
            }
        }
        let mut out = Vec::new();
        for (package, on) in self.dependencies.iter() {
            if *package == name {
                for d in on.iter() {
                    out.push((PackageKey::new(d.to_string()), d.to_string()));
                }
            }
        }
        Ok(out)
    }

    fn status(
        &self,
        key: &PackageKey,
        _target: InstallTarget,
    ) -> Result<PackageStatus, PackageStatusError> {
        let name = key.to_string();
        self.log.borrow_mut().push(format!("status {}", name));
        if self.broken_status.iter().any(|k| *k == name) {
            return Err(PackageStatusError::ParsingVersion);
        }
        for (package, status) in self.statuses.iter() {
            if *package == name {
                return Ok(*status);
            }
        }
        Ok(PackageStatus::NotInstalled)
    }

    fn install(&self, key: &PackageKey, _target: InstallTarget) -> Result<(), InstallError> {
        let name = key.to_string();
        self.log.borrow_mut().push(format!("install {}", name));
        if self.failing.iter().any(|k| *k == name) {
            Err(InstallError { reason: format!("cannot install {}", name) })
        } else {
            Ok(())
        }
    }

    fn uninstall(&self, key: &PackageKey, _target: InstallTarget) -> Result<(), UninstallError> {
        let name = key.to_string();
        self.log.borrow_mut().push(format!("uninstall {}", name));
        if self.failing.iter().any(|k| *k == name) {
            Err(UninstallError { reason: format!("cannot uninstall {}", name) })
        } else {
            Ok(())
        }
    }
}

fn key(name: &str) -> PackageKey {
    PackageKey::new(name.to_string())
}

fn install(name: &str, target: InstallTarget) -> PackageAction {
    PackageAction::install(key(name), target)
}

fn uninstall(name: &str, target: InstallTarget) -> PackageAction {
    PackageAction::uninstall(key(name), target)
}

fn show_action(action: &PackageAction) -> String {
    format!("{:?}({}, {:?})", action.action, action.id.to_string(), action.target)
}

fn show_plan(transaction: &PackageTransaction<MockStore>) -> Vec<String> {
    transaction.actions().iter().map(show_action).collect()
}

fn show_event(event: &TransactionEvent) -> String {
    match event {
        TransactionEvent::Installing(k) => format!("Installing({})", k.to_string()),
        TransactionEvent::Uninstalling(k) => format!("Uninstalling({})", k.to_string()),
        TransactionEvent::Progress(k, m) => format!("Progress({}, {})", k.to_string(), m),
        TransactionEvent::Error(k, TransactionError::Install(e)) => {
            format!("Error({}, Install({}))", k.to_string(), e.reason)
        }
        TransactionEvent::Error(k, TransactionError::Uninstall(e)) => {
            format!("Error({}, Uninstall({}))", k.to_string(), e.reason)
        }
        TransactionEvent::Error(k, other) => format!("Error({}, {:?})", k.to_string(), other),
        TransactionEvent::Complete => "Complete".to_string(),
    }
}

fn drain(transaction: &PackageTransaction<MockStore>) -> Vec<String> {
    let (trigger, mut run) = transaction.process();
    let mut events = Vec::new();
    while let Some(event) = run.next_event() {
        events.push(show_event(&event));
        assert!(events.len() < 100);
    }
    trigger.disable();
    events
}

fn build(
    store: &Arc<MockStore>,
    actions: Vec<PackageAction>,
) -> Result<PackageTransaction<MockStore>, PackageTransactionError> {
    PackageTransaction::new(Arc::clone(store), actions)
}

fn expect_plan(
    store: &Arc<MockStore>,
    actions: Vec<PackageAction>,
) -> PackageTransaction<MockStore> {
    match build(store, actions) {
        Ok(transaction) => transaction,
        Err(e) => panic!("no plan: {:?}", e),
    }
}

fn expect_failure(store: &Arc<MockStore>, actions: Vec<PackageAction>) -> PackageTransactionError {
    match build(store, actions) {
        Ok(transaction) => panic!("a plan: {:?}", show_plan(&transaction)),
        Err(e) => e,
    }
}

#[test]
fn single_install_up_to_date_gives_empty_plan() {
    let store = Arc::new(MockStore::new(&["a"]).status_of("a", PackageStatus::UpToDate));
    let transaction = expect_plan(&store, vec![install("a", InstallTarget::System)]);
    assert_eq!(transaction.actions().len(), 0);
    assert!(transaction.validate());
    assert_eq!(drain(&transaction), vec!["Complete"]);
}

#[test]
fn install_with_one_missing_dependency() {
    let store = Arc::new(MockStore::new(&["a", "b"]).depends("a", &["b"]));
    let transaction = expect_plan(&store, vec![install("a", InstallTarget::System)]);
    assert_eq!(show_plan(&transaction), vec!["Install(b, System)", "Install(a, System)"]);
    assert_eq!(drain(&transaction), vec!["Installing(b)", "Installing(a)", "Complete"]);
    let log = store.log();
    let installs: Vec<&String> = log.iter().filter(|l| l.starts_with("install")).collect();
    assert_eq!(installs, vec!["install b", "install a"]);
}

#[test]
fn direct_contradiction_is_refused() {
    let store = Arc::new(MockStore::new(&["a"]));
    let failure = expect_failure(
        &store,
        vec![install("a", InstallTarget::User), uninstall("a", InstallTarget::User)],
    );
    match failure {
        PackageTransactionError::ActionContradiction(what) => assert_eq!(what, "a"),
        other => panic!("unexpected failure: {:?}", other),
    }
    assert!(store.log().iter().all(|l| !l.starts_with("install") && !l.starts_with("uninstall")));
}

#[test]
fn transitive_contradiction_is_refused() {
    let store = Arc::new(MockStore::new(&["a", "b"]).depends("a", &["b"]));
    let failure = expect_failure(
        &store,
        vec![install("a", InstallTarget::System), uninstall("b", InstallTarget::System)],
    );
    match failure {
        PackageTransactionError::ActionContradiction(what) => assert!(what.contains("b")),
        other => panic!("unexpected failure: {:?}", other),
    }
}

#[test]
fn install_failure_ends_the_run() {
    let store = Arc::new(MockStore::new(&["a", "b"]).depends("a", &["b"]).failing_on("b"));
    let transaction = expect_plan(&store, vec![install("a", InstallTarget::System)]);
    assert_eq!(show_plan(&transaction), vec!["Install(b, System)", "Install(a, System)"]);
    assert_eq!(
        drain(&transaction),
        vec!["Installing(b)", "Error(b, Install(cannot install b))"]
    );
    assert!(store.log().iter().all(|l| l != "install a"));
}

#[test]
fn cancellation_between_actions_ends_the_run_silently() {
    let store = Arc::new(MockStore::new(&["a", "b"]).depends("a", &["b"]));
    let transaction = expect_plan(&store, vec![install("a", InstallTarget::System)]);
    let (trigger, mut run) = transaction.process();
    assert_eq!(run.state(), RunState::Idle);
    let first = run.next_event();
    assert_eq!(first.as_ref().map(show_event), Some("Installing(b)".to_string()));
    assert_eq!(run.state(), RunState::Running);
    trigger.cancel();
    let second = run.next_event();
    assert!(second.is_none());
    assert_eq!(run.state(), RunState::Cancelled);
    let log = store.log();
    assert!(log.iter().any(|l| l == "install b"));
    assert!(log.iter().all(|l| l != "install a"));
    assert!(run.next_event().is_none());
    assert!(run.next_event().is_none());
    assert_eq!(run.state(), RunState::Cancelled);
    assert!(store.log().iter().all(|l| l != "install a"));
}

#[test]
fn cancellation_before_the_first_action_reports_nothing() {
    let store = Arc::new(MockStore::new(&["a"]));
    let transaction = expect_plan(&store, vec![install("a", InstallTarget::System)]);
    let (trigger, mut run) = transaction.process();
    trigger.cancel();
    assert!(run.next_event().is_none());
    assert_eq!(run.state(), RunState::Cancelled);
    assert!(store.log().iter().all(|l| l != "install a"));
}

#[test]
fn dropping_the_trigger_cancels() {
    let store = Arc::new(MockStore::new(&["a", "b"]).depends("a", &["b"]));
    let transaction = expect_plan(&store, vec![install("a", InstallTarget::System)]);
    let (trigger, mut run) = transaction.process();
    assert_eq!(run.next_event().as_ref().map(show_event), Some("Installing(b)".to_string()));
    drop(trigger);
    assert!(run.next_event().is_none());
    assert_eq!(run.state(), RunState::Cancelled);
    assert!(store.log().iter().any(|l| l == "install b"));
    assert!(store.log().iter().all(|l| l != "install a"));
}

#[test]
fn disabled_trigger_lets_the_run_complete() {
    let store = Arc::new(MockStore::new(&["a", "b"]).depends("a", &["b"]));
    let transaction = expect_plan(&store, vec![install("a", InstallTarget::System)]);
    let (trigger, mut run) = transaction.process();
    assert_eq!(run.next_event().as_ref().map(show_event), Some("Installing(b)".to_string()));
    trigger.disable();
    assert_eq!(run.next_event().as_ref().map(show_event), Some("Installing(a)".to_string()));
    assert_eq!(run.next_event().as_ref().map(show_event), Some("Complete".to_string()));
    assert_eq!(run.state(), RunState::Completed);
    assert!(run.next_event().is_none());
}

#[test]
fn failure_is_reported_even_when_cancelled() {
    let store = Arc::new(MockStore::new(&["a"]).failing_on("a"));
    let transaction = expect_plan(&store, vec![install("a", InstallTarget::System)]);
    let (trigger, mut run) = transaction.process();
    assert_eq!(run.next_event().as_ref().map(show_event), Some("Installing(a)".to_string()));
    trigger.cancel();
    let outcome = run.next_event();
    assert_eq!(
        outcome.as_ref().map(show_event),
        Some("Error(a, Install(cannot install a))".to_string())
    );
    assert_eq!(run.state(), RunState::Errored);
    assert!(run.next_event().is_none());
}

#[test]
fn cancellation_after_the_last_action_suppresses_complete() {
    let store = Arc::new(MockStore::new(&["a"]));
    let transaction = expect_plan(&store, vec![install("a", InstallTarget::System)]);
    let (trigger, mut run) = transaction.process();
    assert!(run.next_event().is_some());
    trigger.cancel();
    assert!(run.next_event().is_none());
    assert_eq!(run.state(), RunState::Cancelled);
    assert!(store.log().iter().any(|l| l == "install a"));
}

#[test]
fn completed_run_stays_completed() {
    let store = Arc::new(MockStore::new(&["a"]));
    let transaction = expect_plan(&store, vec![install("a", InstallTarget::System)]);
    let (trigger, mut run) = transaction.process();
    assert_eq!(run.next_event().as_ref().map(show_event), Some("Installing(a)".to_string()));
    assert_eq!(run.next_event().as_ref().map(show_event), Some("Complete".to_string()));
    assert_eq!(run.state(), RunState::Completed);
    trigger.cancel();
    assert!(run.next_event().is_none());
    assert_eq!(run.state(), RunState::Completed);
    let installs = store.log().iter().filter(|l| l.starts_with("install")).count();
    assert_eq!(installs, 1);
}

#[test]
fn uninstall_is_announced_and_carried_out() {
    let store = Arc::new(MockStore::new(&["a"]).status_of("a", PackageStatus::RequiresUpdate));
    let transaction = expect_plan(&store, vec![uninstall("a", InstallTarget::User)]);
    assert_eq!(show_plan(&transaction), vec!["Uninstall(a, User)"]);
    assert_eq!(drain(&transaction), vec!["Uninstalling(a)", "Complete"]);
    assert!(store.log().iter().any(|l| l == "uninstall a"));
}

#[test]
fn uninstall_failure_is_an_uninstall_error() {
    let store = Arc::new(
        MockStore::new(&["a"]).status_of("a", PackageStatus::UpToDate).failing_on("a"),
    );
    let transaction = expect_plan(&store, vec![uninstall("a", InstallTarget::System)]);
    assert_eq!(
        drain(&transaction),
        vec!["Uninstalling(a)", "Error(a, Uninstall(cannot uninstall a))"]
    );
}

#[test]
fn events_of_a_run_are_linear() {
    let store = Arc::new(
        MockStore::new(&["a", "b", "c"])
            .depends("a", &["b"])
            .status_of("c", PackageStatus::UpToDate),
    );
    let transaction = expect_plan(
        &store,
        vec![install("a", InstallTarget::System), uninstall("c", InstallTarget::System)],
    );
    let events = drain(&transaction);
    assert_eq!(events, vec!["Installing(b)", "Installing(a)", "Uninstalling(c)", "Complete"]);
    let terminal = events.iter().filter(|e| *e == "Complete" || e.starts_with("Error")).count();
    assert_eq!(terminal, 1);
    assert_eq!(events.last().map(|e| e.as_str()), Some("Complete"));
}

#[test]
fn empty_request_gives_empty_plan_without_asking() {
    let store = Arc::new(MockStore::new(&[]));
    let transaction = expect_plan(&store, Vec::new());
    assert_eq!(transaction.actions().len(), 0);
    assert!(store.log().is_empty());
    assert_eq!(drain(&transaction), vec!["Complete"]);
}

#[test]
fn unknown_package_is_refused() {
    let store = Arc::new(MockStore::new(&["a"]));
    let failure = expect_failure(
        &store,
        vec![install("a", InstallTarget::System), install("ghost", InstallTarget::System)],
    );
    match failure {
        PackageTransactionError::NoPackage(what) => assert_eq!(what, "ghost"),
        other => panic!("unexpected failure: {:?}", other),
    }
    assert!(store.log().iter().all(|l| !l.starts_with("status")));
}

#[test]
fn unresolved_dependencies_are_handed_on() {
    let mut store = MockStore::new(&["a", "b", "c"]);
    store.unresolved.push(("a", PackageDependencyError::PackageNotFound("x".to_string())));
    store.unresolved.push(("b", PackageDependencyError::VersionNotFound("y".to_string())));
    store.unresolved.push((
        "c",
        PackageDependencyError::PackageStatusError(
            "z".to_string(),
            PackageStatusError::Payload(PayloadError::NoPayloadFound),
        ),
    ));
    let store = Arc::new(store);
    match expect_failure(&store, vec![install("a", InstallTarget::System)]) {
        PackageTransactionError::Deps(PackageDependencyError::PackageNotFound(x)) => {
            assert_eq!(x, "x")
        }
        other => panic!("unexpected failure: {:?}", other),
    }
    match expect_failure(&store, vec![install("b", InstallTarget::System)]) {
        PackageTransactionError::Deps(PackageDependencyError::VersionNotFound(y)) => {
            assert_eq!(y, "y")
        }
        other => panic!("unexpected failure: {:?}", other),
    }
    match expect_failure(&store, vec![install("c", InstallTarget::System)]) {
        PackageTransactionError::Deps(PackageDependencyError::PackageStatusError(z, inner)) => {
            assert_eq!(z, "z");
            assert!(matches!(inner, PackageStatusError::Payload(PayloadError::NoPayloadFound)));
        }
        other => panic!("unexpected failure: {:?}", other),
    }
}

#[test]
fn dependencies_are_not_asked_for_an_uninstall() {
    let mut store = MockStore::new(&["a"]).status_of("a", PackageStatus::UpToDate);
    store.unresolved.push(("a", PackageDependencyError::PackageNotFound("x".to_string())));
    let store = Arc::new(store);
    let transaction = expect_plan(&store, vec![uninstall("a", InstallTarget::System)]);
    assert_eq!(show_plan(&transaction), vec!["Uninstall(a, System)"]);
    assert!(store.log().iter().all(|l| !l.starts_with("dependencies")));
}

#[test]
fn failed_status_query_is_refused() {
    let mut store = MockStore::new(&["a", "b"]).depends("a", &["b"]);
    store.broken_status.push("a");
    let store = Arc::new(store);
    match expect_failure(&store, vec![install("a", InstallTarget::System)]) {
        PackageTransactionError::InvalidStatus(PackageStatusError::ParsingVersion) => {}
        other => panic!("unexpected failure: {:?}", other),
    }
    assert_eq!(
        store.log().iter().filter(|l| l.starts_with("status")).collect::<Vec<_>>(),
        vec!["status b", "status a"]
    );
}

#[test]
fn contradiction_is_reported_even_if_nothing_would_be_done() {
    let store = Arc::new(MockStore::new(&["a"]).status_of("a", PackageStatus::UpToDate));
    let failure = expect_failure(
        &store,
        vec![uninstall("a", InstallTarget::System), install("a", InstallTarget::System)],
    );
    assert!(matches!(failure, PackageTransactionError::ActionContradiction(_)));
    assert!(store.log().iter().all(|l| !l.starts_with("status")));
}

#[test]
fn repeated_request_is_kept_once() {
    let store = Arc::new(MockStore::new(&["a"]));
    let transaction = expect_plan(
        &store,
        vec![install("a", InstallTarget::System), install("a", InstallTarget::User)],
    );
    assert_eq!(show_plan(&transaction), vec!["Install(a, System)"]);
}

#[test]
fn dependency_takes_the_target_of_the_request() {
    let store = Arc::new(MockStore::new(&["a", "b"]).depends("a", &["b"]));
    let transaction = expect_plan(&store, vec![install("a", InstallTarget::User)]);
    assert_eq!(show_plan(&transaction), vec!["Install(b, User)", "Install(a, User)"]);
}

#[test]
fn dependency_already_requested_is_not_added_again() {
    let store = Arc::new(MockStore::new(&["a", "b"]).depends("a", &["b"]));
    let transaction = expect_plan(
        &store,
        vec![install("b", InstallTarget::User), install("a", InstallTarget::System)],
    );
    assert_eq!(show_plan(&transaction), vec!["Install(b, User)", "Install(a, System)"]);
}

#[test]
fn only_necessary_actions_stay() {
    let store = Arc::new(
        MockStore::new(&["a", "b", "c", "d", "e", "f"])
            .status_of("a", PackageStatus::NotInstalled)
            .status_of("b", PackageStatus::UpToDate)
            .status_of("c", PackageStatus::RequiresUpdate)
            .status_of("d", PackageStatus::NotInstalled)
            .status_of("e", PackageStatus::UpToDate)
            .status_of("f", PackageStatus::RequiresUpdate),
    );
    let transaction = expect_plan(
        &store,
        vec![
            install("a", InstallTarget::System),
            install("b", InstallTarget::System),
            install("c", InstallTarget::System),
            uninstall("d", InstallTarget::System),
            uninstall("e", InstallTarget::System),
            uninstall("f", InstallTarget::System),
        ],
    );
    assert_eq!(
        show_plan(&transaction),
        vec![
            "Install(a, System)",
            "Install(c, System)",
            "Uninstall(e, System)",
            "Uninstall(f, System)"
        ]
    );
}

#[test]
fn plan_keeps_the_order_of_the_requests() {
    let store = Arc::new(
        MockStore::new(&["a", "b", "c", "d", "x"])
            .depends("c", &["x"])
            .status_of("b", PackageStatus::UpToDate)
            .status_of("d", PackageStatus::UpToDate),
    );
    let transaction = expect_plan(
        &store,
        vec![
            install("d", InstallTarget::System),
            install("c", InstallTarget::System),
            uninstall("b", InstallTarget::System),
            install("a", InstallTarget::System),
        ],
    );
    assert_eq!(
        show_plan(&transaction),
        vec![
            "Install(x, System)",
            "Install(c, System)",
            "Uninstall(b, System)",
            "Install(a, System)"
        ]
    );
}

#[test]
fn dependencies_come_before_what_needs_them_or_are_up_to_date() {
    let store = Arc::new(
        MockStore::new(&["a", "b", "c", "d"])
            .depends("a", &["b", "c", "d"])
            .status_of("c", PackageStatus::UpToDate)
            .status_of("d", PackageStatus::RequiresUpdate),
    );
    let transaction = expect_plan(&store, vec![install("a", InstallTarget::System)]);
    assert_eq!(
        show_plan(&transaction),
        vec!["Install(b, System)", "Install(d, System)", "Install(a, System)"]
    );
}

#[test]
fn plan_never_installs_and_uninstalls_one_package() {
    let store = Arc::new(
        MockStore::new(&["a", "b"]).depends("a", &["b"]).status_of("b", PackageStatus::UpToDate),
    );
    let transaction = expect_plan(
        &store,
        vec![uninstall("b", InstallTarget::System), install("a", InstallTarget::System)],
    );
    let actions = transaction.actions();
    for (i, first) in actions.iter().enumerate() {
        for second in actions.iter().skip(i + 1) {
            assert!(first.id != second.id);
        }
    }
    assert_eq!(show_plan(&transaction), vec!["Uninstall(b, System)", "Install(a, System)"]);
}

#[test]
fn action_constructors_and_tests() {
    let a = install("a", InstallTarget::System);
    assert!(a.is_install());
    assert!(!a.is_uninstall());
    assert_eq!(a.action, PackageActionType::Install);
    assert_eq!(a.target, InstallTarget::System);
    assert_eq!(a.id, key("a"));
    let b = uninstall("b", InstallTarget::User);
    assert!(b.is_uninstall());
    assert!(!b.is_install());
    assert_eq!(b.action, PackageActionType::Uninstall);
    assert_eq!(b.target, InstallTarget::User);
    assert_eq!(b.id.to_string(), "b");
    assert_eq!(b.id.as_str(), "b");
    assert!(a.id != b.id);
    assert_eq!(a.id.clone(), a.id);
}
