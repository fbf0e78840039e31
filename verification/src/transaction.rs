//! Package actions, the statuses and errors around them, and the transaction
//! that plans and runs them.

use std::sync::Arc;
use vstd::prelude::*;
use vstd::std_specs::convert::FromSpecImpl;
use vstd::string::StringExecFns;

use crate::package_key::PackageKey;
use crate::package_store::{InstallTarget, PackageStore};
use crate::repo::PayloadError;
use crate::text::{debug_quoted, quote};
use crate::transaction::install::InstallError;
use crate::transaction::laws::{
    distinct_keys, installed_keys, lemma_plan_contradiction_free, uninstalled_keys,
};
use crate::transaction::plan::{
    add_dependencies, answered_by, check_contradictions, dependency_answer, dependency_keys,
    expand, expand_first, looked_up_in, resolved_by, status_told_by,
    lemma_expand_failure_stays, lemma_expand_reads_prefix, lemma_retain_failure_stays,
    lemma_retain_reads_prefix, lemma_views_push, merge_action, plan, retain_first, sweep, views,
    with_dependencies, Lookup, StatusAnswer, StoreAnswers,
};
use crate::transaction::run::{EventView, RunState, TransactionRun};
use crate::transaction::uninstall::UninstallError;

pub mod install;
pub mod laws;
pub mod plan;
pub mod run;
pub mod uninstall;

verus! {

/// Whether a package is installed, and whether what is installed is current.
#[derive(Debug, Clone, Copy, PartialEq, Eq, Hash, Structural)]
pub enum PackageStatus {
    NotInstalled,
    UpToDate,
    RequiresUpdate,
}

/// Why the status of a package could not be told.
#[derive(Debug, Clone)]
pub enum PackageStatusError {
    Payload(PayloadError),
    WrongPayloadType,
    ParsingVersion,
}

impl From<PayloadError> for PackageStatusError {
    /// A payload failure, as the failure of a status query.
    fn from(e: PayloadError) -> (failure: PackageStatusError) {
        PackageStatusError::Payload(e)
    }
}

impl FromSpecImpl<PayloadError> for PackageStatusError {
    open spec fn obeys_from_spec() -> bool {
        true
    }

    open spec fn from_spec(e: PayloadError) -> PackageStatusError {
        PackageStatusError::Payload(e)
    }
}

/// The code that stands for the outcome of a status query at a boundary
/// where only a small signed integer can be passed: 0, 1 and 2 for the three
/// statuses, negative numbers for the failures.
pub open spec fn status_code(result: Result<PackageStatus, PackageStatusError>) -> int {
    match result {
        Ok(PackageStatus::NotInstalled) => 0,
        Ok(PackageStatus::UpToDate) => 1,
        Ok(PackageStatus::RequiresUpdate) => 2,
        Err(PackageStatusError::Payload(PayloadError::NoPackage)) => -1,
        Err(PackageStatusError::Payload(PayloadError::NoConcretePackage)) => -1,
        Err(PackageStatusError::Payload(PayloadError::NoPayloadFound)) => -2,
        Err(PackageStatusError::WrongPayloadType) => -3,
        Err(PackageStatusError::ParsingVersion) => -4,
        Err(PackageStatusError::Payload(PayloadError::CriteriaUnmet(_))) => -5,
    }
}

/// Projects the outcome of a status query onto its code.
pub fn status_to_i8(result: Result<PackageStatus, PackageStatusError>) -> (code: i8)
    ensures
        code == status_code(result),
{
    match result {
        Ok(status) => match status {
            PackageStatus::NotInstalled => 0,
            PackageStatus::UpToDate => 1,
            PackageStatus::RequiresUpdate => 2,
        },
        Err(error) => match error {
            PackageStatusError::Payload(e) => match e {
                PayloadError::NoPackage | PayloadError::NoConcretePackage => -1,
                PayloadError::NoPayloadFound => -2,
                PayloadError::CriteriaUnmet(_) => -5,
            },
            PackageStatusError::WrongPayloadType => -3,
            PackageStatusError::ParsingVersion => -4,
        },
    }
}

/// Whether two outcomes of a status query mean the same at the boundary: the
/// same status, or the same kind of failure. A missing package and a missing
/// concrete variant are one kind, and so are unmet criteria whatever their
/// text.
pub open spec fn same_status_meaning(
    a: Result<PackageStatus, PackageStatusError>,
    b: Result<PackageStatus, PackageStatusError>,
) -> bool {
    match (a, b) {
        (Ok(x), Ok(y)) => x == y,
        (Err(PackageStatusError::WrongPayloadType), Err(PackageStatusError::WrongPayloadType)) => true,
        (Err(PackageStatusError::ParsingVersion), Err(PackageStatusError::ParsingVersion)) => true,
        (Err(PackageStatusError::Payload(x)), Err(PackageStatusError::Payload(y))) => match (x, y) {
            (PayloadError::NoPackage, PayloadError::NoPackage) => true,
            (PayloadError::NoPackage, PayloadError::NoConcretePackage) => true,
            (PayloadError::NoConcretePackage, PayloadError::NoPackage) => true,
            (PayloadError::NoConcretePackage, PayloadError::NoConcretePackage) => true,
            (PayloadError::NoPayloadFound, PayloadError::NoPayloadFound) => true,
            (PayloadError::CriteriaUnmet(_), PayloadError::CriteriaUnmet(_)) => true,
            _ => false,
        },
        _ => false,
    }
}

/// The status code tells the meanings apart: every outcome has a code from
/// -5 to 2, and two outcomes have the same code exactly when they mean the
/// same.
pub proof fn lemma_status_code_injective(
    a: Result<PackageStatus, PackageStatusError>,
    b: Result<PackageStatus, PackageStatusError>,
)
    ensures
        -5 <= status_code(a) <= 2,
        status_code(a) == status_code(b) <==> same_status_meaning(a, b),
        status_code(a) >= 0 <==> a is Ok,
{
}

impl PackageStatus {
    /// The status in words.
    pub open spec fn label(self) -> Seq<char> {
        match self {
            PackageStatus::NotInstalled => "Not installed"@,
            PackageStatus::UpToDate => "Up to date"@,
            PackageStatus::RequiresUpdate => "Requires update"@,
        }
    }

    /// The status in words, as it is shown to a user.
    pub fn to_string(&self) -> (text: String)
        ensures
            text@ == self.label(),
    {
        match *self {
            PackageStatus::NotInstalled => "Not installed".to_owned(),
            PackageStatus::UpToDate => "Up to date".to_owned(),
            PackageStatus::RequiresUpdate => "Requires update".to_owned(),
        }
    }
}

impl PackageStatusError {
    /// The failure in words.
    pub open spec fn label(self) -> Seq<char> {
        match self {
            PackageStatusError::Payload(_) => "Payload error"@,
            PackageStatusError::WrongPayloadType => "Wrong payload type"@,
            PackageStatusError::ParsingVersion => "Error parsing version"@,
        }
    }

    /// The failure in words, as it is shown to a user.
    pub fn to_string(&self) -> (text: String)
        ensures
            text@ == self.label(),
    {
        match self {
            PackageStatusError::Payload(_) => "Payload error".to_owned(),
            PackageStatusError::WrongPayloadType => "Wrong payload type".to_owned(),
            PackageStatusError::ParsingVersion => "Error parsing version".to_owned(),
        }
    }
}

impl PackageStatusError {
    /// The failure as it is printed for inspection: the name of the variant,
    /// and behind it, in brackets, what it holds.
    pub open spec fn debug_text(self) -> Seq<char> {
        match self {
            PackageStatusError::Payload(e) => "Payload("@ + e.debug_text() + ")"@,
            PackageStatusError::WrongPayloadType => "WrongPayloadType"@,
            PackageStatusError::ParsingVersion => "ParsingVersion"@,
        }
    }

    /// The failure as it is printed for inspection.
    pub fn debug_string(&self) -> (text: String)
        ensures
            text@ == self.debug_text(),
    {
        match self {
            PackageStatusError::Payload(e) => {
                let inner = e.debug_string();
                "Payload(".to_owned().concat(inner.as_str()).concat(")")
            },
            PackageStatusError::WrongPayloadType => "WrongPayloadType".to_owned(),
            PackageStatusError::ParsingVersion => "ParsingVersion".to_owned(),
        }
    }
}

/// The two things that can be done to a package.
#[derive(Debug, Clone, Copy, PartialEq, Eq, Hash, Structural)]
pub enum PackageActionType {
    Install,
    Uninstall,
}

impl PackageActionType {
    /// The byte that stands for an action type: 0 for an install, 1 for an
    /// uninstall.
    pub open spec fn byte(self) -> u8 {
        match self {
            PackageActionType::Install => 0,
            PackageActionType::Uninstall => 1,
        }
    }

    /// Whether a byte stands for an action type: 0 and 1 do, no other byte
    /// does.
    pub open spec fn is_byte(x: u8) -> bool {
        x == 0 || x == 1
    }

    /// The action type that a byte stands for. Only 0 and 1 stand for one.
    pub open spec fn of_byte(x: u8) -> PackageActionType
        recommends
            PackageActionType::is_byte(x),
    {
        if x == 0 {
            PackageActionType::Install
        } else {
            PackageActionType::Uninstall
        }
    }

    /// Decodes an action type. A byte other than 0 and 1 stands for none, and
    /// to pass one is a programming error: no caller that is held to this
    /// contract does, and for any other the call ends the program.
    pub fn from_u8(x: u8) -> (action: PackageActionType)
        requires
            PackageActionType::is_byte(x),
        ensures
            action == PackageActionType::of_byte(x),
            action.byte() == x,
    {
        match x {
            0 => PackageActionType::Install,
            1 => PackageActionType::Uninstall,
            _ => vstd::pervasive::unreached(),
        }
    }

    /// Encodes an action type.
    pub fn to_u8(&self) -> (x: u8)
        ensures
            x == self.byte(),
            PackageActionType::of_byte(x) == *self,
    {
        match self {
            PackageActionType::Install => 0,
            PackageActionType::Uninstall => 1,
        }
    }
}

impl PackageActionType {
    /// The name of the action type.
    pub open spec fn name(self) -> Seq<char> {
        match self {
            PackageActionType::Install => "Install"@,
            PackageActionType::Uninstall => "Uninstall"@,
        }
    }

    /// The name of the action type, as it is printed for inspection.
    pub fn debug_string(&self) -> (text: String)
        ensures
            text@ == self.name(),
    {
        match self {
            PackageActionType::Install => "Install".to_owned(),
            PackageActionType::Uninstall => "Uninstall".to_owned(),
        }
    }
}

/// Decoding undoes encoding, and encoding undoes decoding on the two bytes
/// that stand for an action type. Those two are the bytes that an encoding
/// gives, and the only ones: a byte is the encoding of an action type exactly
/// when it is 0 or 1, so no other byte can be decoded.
pub proof fn lemma_action_type_byte_round_trip(action: PackageActionType, x: u8)
    ensures
        PackageActionType::of_byte(action.byte()) == action,
        PackageActionType::is_byte(action.byte()),
        PackageActionType::is_byte(x) ==> PackageActionType::of_byte(x).byte() == x,
        PackageActionType::is_byte(x) <==> exists|encoded: PackageActionType|
            #[trigger] encoded.byte() == x,
{
    if PackageActionType::is_byte(x) {
        assert(PackageActionType::of_byte(x).byte() == x);
    }
}

/// A package action as contracts see it: the key by its text.
pub struct ActionView {
    pub id: Seq<char>,
    pub action: PackageActionType,
    pub target: InstallTarget,
}

/// One thing to do to one package in one scope.
#[derive(Debug, Clone)]
pub struct PackageAction {
    pub id: PackageKey,
    pub action: PackageActionType,
    pub target: InstallTarget,
}

impl View for PackageAction {
    type V = ActionView;

    open spec fn view(&self) -> ActionView {
        ActionView { id: self.id@, action: self.action, target: self.target }
    }
}

impl PackageAction {
    /// The action that installs `id` under `target`.
    pub fn install(id: PackageKey, target: InstallTarget) -> (action: PackageAction)
        ensures
            action.id == id,
            action.action == PackageActionType::Install,
            action.target == target,
    {
        PackageAction { id, action: PackageActionType::Install, target }
    }

    /// The action that uninstalls `id` from `target`.
    pub fn uninstall(id: PackageKey, target: InstallTarget) -> (action: PackageAction)
        ensures
            action.id == id,
            action.action == PackageActionType::Uninstall,
            action.target == target,
    {
        PackageAction { id, action: PackageActionType::Uninstall, target }
    }

    /// The action in words: its three fields by name, the key quoted.
    pub open spec fn label(self) -> Seq<char> {
        "PackageAction { id: "@ + debug_quoted(self.id@) + ", action: "@ + self.action.name()
            + ", target: "@ + self.target.name() + " }"@
    }

    /// The action in words, as it is shown to a user.
    pub fn to_string(&self) -> (text: String)
        ensures
            text@ == self.label(),
    {
        let id = quote(self.id.as_str());
        let action = self.action.debug_string();
        let target = self.target.debug_string();
        "PackageAction { id: ".to_owned().concat(id.as_str()).concat(", action: ").concat(
            action.as_str(),
        ).concat(", target: ").concat(target.as_str()).concat(" }")
    }

    #[inline]
    pub fn is_install(&self) -> (yes: bool)
        ensures
            yes == (self.action == PackageActionType::Install),
    {
        self.action == PackageActionType::Install
    }

    #[inline]
    pub fn is_uninstall(&self) -> (yes: bool)
        ensures
            yes == (self.action == PackageActionType::Uninstall),
    {
        self.action == PackageActionType::Uninstall
    }
}

/// Why the dependencies of a package could not be worked out.
#[derive(Debug, Clone)]
pub enum PackageDependencyError {
    /// A declared dependency resolves to no known key.
    PackageNotFound(String),
    /// A declared version constraint matches no available release.
    VersionNotFound(String),
    /// The status of a dependency could not be told.
    PackageStatusError(String, PackageStatusError),
}

impl PackageDependencyError {
    /// The failure in words.
    pub open spec fn label(self) -> Seq<char> {
        match self {
            PackageDependencyError::PackageNotFound(x) => "Error: Package '"@ + x@ + "' not found"@,
            PackageDependencyError::VersionNotFound(x) => "Error: Package version '"@ + x@
                + "' not found"@,
            PackageDependencyError::PackageStatusError(pkg, e) => pkg@ + ": "@ + e.label(),
        }
    }

    /// The failure in words, as it is shown to a user.
    pub fn to_string(&self) -> (text: String)
        ensures
            text@ == self.label(),
    {
        match self {
            PackageDependencyError::PackageNotFound(x) => {
                "Error: Package '".to_owned().concat(x.as_str()).concat("' not found")
            },
            PackageDependencyError::VersionNotFound(x) => {
                "Error: Package version '".to_owned().concat(x.as_str()).concat("' not found")
            },
            PackageDependencyError::PackageStatusError(pkg, e) => {
                let detail = e.to_string();
                pkg.clone().concat(": ").concat(detail.as_str())
            },
        }
    }
}

impl PackageDependencyError {
    /// The failure as it is printed for inspection: the name of the variant,
    /// and behind it, in brackets, what it holds, texts quoted.
    pub open spec fn debug_text(self) -> Seq<char> {
        match self {
            PackageDependencyError::PackageNotFound(x) => "PackageNotFound("@ + debug_quoted(x@)
                + ")"@,
            PackageDependencyError::VersionNotFound(x) => "VersionNotFound("@ + debug_quoted(x@)
                + ")"@,
            PackageDependencyError::PackageStatusError(pkg, e) => "PackageStatusError("@
                + debug_quoted(pkg@) + ", "@ + e.debug_text() + ")"@,
        }
    }

    /// The failure as it is printed for inspection.
    pub fn debug_string(&self) -> (text: String)
        ensures
            text@ == self.debug_text(),
    {
        match self {
            PackageDependencyError::PackageNotFound(x) => {
                let quoted = quote(x.as_str());
                "PackageNotFound(".to_owned().concat(quoted.as_str()).concat(")")
            },
            PackageDependencyError::VersionNotFound(x) => {
                let quoted = quote(x.as_str());
                "VersionNotFound(".to_owned().concat(quoted.as_str()).concat(")")
            },
            PackageDependencyError::PackageStatusError(pkg, e) => {
                let quoted = quote(pkg.as_str());
                let inner = e.debug_string();
                "PackageStatusError(".to_owned().concat(quoted.as_str()).concat(", ").concat(
                    inner.as_str(),
                ).concat(")")
            },
        }
    }
}

/// Why no plan could be built.
#[derive(Debug, Clone)]
pub enum PackageTransactionError {
    /// A requested action names a key that the store does not know.
    NoPackage(String),
    /// The dependencies of a package to install could not be worked out.
    Deps(PackageDependencyError),
    /// The same package would be both installed and uninstalled.
    ActionContradiction(String),
    /// The store could not tell the status of a package of the plan.
    InvalidStatus(PackageStatusError),
}

/// A planning failure as contracts see it: texts by their characters, what
/// the store reported as it was reported.
pub enum PlanningFailure {
    NoPackage(Seq<char>),
    Deps(PackageDependencyError),
    ActionContradiction(Seq<char>),
    InvalidStatus(PackageStatusError),
}

impl View for PackageTransactionError {
    type V = PlanningFailure;

    open spec fn view(&self) -> PlanningFailure {
        match *self {
            PackageTransactionError::NoPackage(key) => PlanningFailure::NoPackage(key@),
            PackageTransactionError::Deps(e) => PlanningFailure::Deps(e),
            PackageTransactionError::ActionContradiction(what) => PlanningFailure::ActionContradiction(
                what@,
            ),
            PackageTransactionError::InvalidStatus(e) => PlanningFailure::InvalidStatus(e),
        }
    }
}

impl PackageTransactionError {
    /// The failure as it is printed for inspection: the name of the variant,
    /// and behind it, in brackets, what it holds, texts quoted.
    pub open spec fn debug_text(self) -> Seq<char> {
        match self {
            PackageTransactionError::NoPackage(key) => "NoPackage("@ + debug_quoted(key@) + ")"@,
            PackageTransactionError::Deps(e) => "Deps("@ + e.debug_text() + ")"@,
            PackageTransactionError::ActionContradiction(what) => "ActionContradiction("@
                + debug_quoted(what@) + ")"@,
            PackageTransactionError::InvalidStatus(e) => "InvalidStatus("@ + e.debug_text() + ")"@,
        }
    }

    /// The failure as it is printed for inspection.
    pub fn debug_string(&self) -> (text: String)
        ensures
            text@ == self.debug_text(),
    {
        match self {
            PackageTransactionError::NoPackage(key) => {
                let quoted = quote(key.as_str());
                "NoPackage(".to_owned().concat(quoted.as_str()).concat(")")
            },
            PackageTransactionError::Deps(e) => {
                let inner = e.debug_string();
                "Deps(".to_owned().concat(inner.as_str()).concat(")")
            },
            PackageTransactionError::ActionContradiction(what) => {
                let quoted = quote(what.as_str());
                "ActionContradiction(".to_owned().concat(quoted.as_str()).concat(")")
            },
            PackageTransactionError::InvalidStatus(e) => {
                let inner = e.debug_string();
                "InvalidStatus(".to_owned().concat(inner.as_str()).concat(")")
            },
        }
    }

    /// The failure as it is shown to a user: as it is printed for
    /// inspection, on a line of its own.
    pub fn to_string(&self) -> (text: String)
        ensures
            text@ == self.debug_text() + "\n"@,
    {
        self.debug_string().concat("\n")
    }
}

/// Why a running transaction stopped early.
#[derive(Debug)]
pub enum TransactionError {
    /// Kept for a validation step that does not exist yet.
    ValidationFailed,
    /// Kept for callers; a cancelled run ends without an event.
    UserCancelled,
    /// The store could not uninstall a package.
    Uninstall(UninstallError),
    /// The store could not install a package.
    Install(InstallError),
}

impl TransactionError {
    /// The failure in words: what the store reported is shown as it is
    /// printed for inspection.
    pub open spec fn label(self) -> Seq<char> {
        match self {
            TransactionError::ValidationFailed => "Validation failed"@,
            TransactionError::UserCancelled => "User cancelled"@,
            TransactionError::Uninstall(e) => e.debug_text(),
            TransactionError::Install(e) => e.debug_text(),
        }
    }

    /// The failure in words, as it is shown to a user.
    pub fn to_string(&self) -> (text: String)
        ensures
            text@ == self.label(),
    {
        match self {
            TransactionError::ValidationFailed => "Validation failed".to_owned(),
            TransactionError::UserCancelled => "User cancelled".to_owned(),
            TransactionError::Uninstall(e) => e.debug_string(),
            TransactionError::Install(e) => e.debug_string(),
        }
    }
}

/// What a running transaction reports.
#[derive(Debug)]
pub enum TransactionEvent {
    /// The install of the package is about to start.
    Installing(PackageKey),
    /// The uninstall of the package is about to start.
    Uninstalling(PackageKey),
    /// A message about the action that is under way.
    Progress(PackageKey, String),
    /// The action on the package failed; nothing follows.
    Error(PackageKey, TransactionError),
    /// Every action of the plan was carried out; nothing follows.
    Complete,
}

/// How taking in the dependencies of an install went, `answer` being what
/// the store said when asked for them: the list took them in, or the store's
/// failure is handed on and the list is as it was.
pub open spec fn dependencies_taken_in(
    before: Seq<ActionView>,
    after: Seq<ActionView>,
    r: Result<(), PackageTransactionError>,
    target: InstallTarget,
    answer: Result<Seq<Seq<char>>, PackageDependencyError>,
) -> bool {
    match answer {
        Ok(dependencies) => r is Ok && after == with_dependencies(before, dependencies, target),
        Err(e) => r == Err::<(), _>(PackageTransactionError::Deps(e)) && after == before,
    }
}

/// Asks the store for the dependencies of the package of an install, and
/// takes them into the list under the target of that install.
fn process_install_action<S: PackageStore>(
    store: &Arc<S>,
    package: &S::Package,
    action: &PackageAction,
    new_actions: &mut Vec<PackageAction>,
) -> (r: Result<(), PackageTransactionError>)
    ensures
        exists|answer: Result<Vec<(PackageKey, S::Package)>, PackageDependencyError>|
            {
                &&& #[trigger] call_ensures(
                    S::find_package_dependencies,
                    (&**store, &action.id, package, &action.target),
                    answer,
                )
                &&& dependencies_taken_in(
                    views(old(new_actions)@),
                    views(final(new_actions)@),
                    r,
                    action.target,
                    dependency_answer(answer),
                )
            },
{
    match store.find_package_dependencies(&action.id, package, &action.target) {
        Ok(dependencies) => {
            add_dependencies(new_actions, dependencies, action.target);
            Ok(())
        },
        Err(e) => Err(PackageTransactionError::Deps(e)),
    }
}

/// A plan that was built against a store, together with that store.
pub struct PackageTransaction<S: PackageStore> {
    store: Arc<S>,
    actions: Arc<Vec<PackageAction>>,
}

impl<S: PackageStore> PackageTransaction<S> {
    /// The plan: the actions that will be carried out, in order.
    pub closed spec fn planned(&self) -> Seq<ActionView> {
        views(self.actions@)
    }

    /// The store against which the plan was built, and will be run.
    pub closed spec fn store(&self) -> Arc<S> {
        self.store
    }

    /// How an attempt to build a transaction ended, as contracts see it: with
    /// a plan, or with a failure.
    pub open spec fn outcome(r: Result<PackageTransaction<S>, PackageTransactionError>) -> Result<
        Seq<ActionView>,
        PlanningFailure,
    > {
        match r {
            Ok(transaction) => Ok(transaction.planned()),
            Err(e) => Err(e@),
        }
    }

    /// Builds the plan for the requested actions against `store`.
    ///
    /// The store is asked about each requested action in turn: for the
    /// package by the key of the action, and for the dependencies of the
    /// package of an install. Once the expanded list is free of
    /// contradictions, it is asked for the status of each entry, by the key
    /// and the target of the entry. The first failure ends the asking. What
    /// comes out is what [`plan`] gives for the requested actions and the
    /// answers of the store. With nothing requested the store is not asked,
    /// and the plan is empty. No plan addresses a package twice, so none both
    /// installs and uninstalls one. The transaction keeps the store.
    pub fn new(store: Arc<S>, actions: Vec<PackageAction>) -> (r: Result<
        PackageTransaction<S>,
        PackageTransactionError,
    >)
        ensures
            exists|answers: StoreAnswers|
                answered_by(&*store, actions@, answers) && #[trigger] plan(
                    views(actions@),
                    answers,
                ) == Self::outcome(r),
            actions@.len() == 0 ==> r is Ok,
            r matches Ok(transaction) ==> transaction.store() == store && distinct_keys(
                transaction.planned(),
            ) && installed_keys(transaction.planned()).disjoint(
                uninstalled_keys(transaction.planned()),
            ),
    {
        let mut new_actions: Vec<PackageAction> = Vec::new();
        let ghost requested = views(actions@);
        let ghost total = actions@.len() as int;
        let ghost mut lookups: Seq<Lookup> = Seq::empty();
        let ghost none: Seq<StatusAnswer> = Seq::empty();
        assert(views(new_actions@) =~= Seq::<ActionView>::empty());

        for action in it: actions
            invariant
                it.seq() == actions@,
                requested == views(actions@),
                total == actions@.len(),
                none.len() == 0,
                lookups.len() == it.index(),
                forall|k: int|
                    0 <= k < lookups.len() ==> looked_up_in(
                        &*store,
                        actions@[k],
                        #[trigger] lookups[k],
                    ),
                expand_first(requested, lookups, it.index() as int) == Ok::<_, PlanningFailure>(
                    views(new_actions@),
                ),
        {
            let ghost i = it.index() as int;
            let ghost before = views(new_actions@);
            let ghost asked_for = action;

            let package = match store.find_package_by_key(&action.id) {
                Some(package) => package,
                None => {
                    let e = PackageTransactionError::NoPackage(action.id.to_string());
                    proof {
                        let lookup = Lookup { found: false, dependencies: Ok(Seq::empty()) };
                        let asked = lookups.push(lookup);
                        assert(looked_up_in(&*store, asked_for, lookup));
                        lemma_expand_reads_prefix(requested, lookups, asked, i);
                        lemma_expand_failure_stays(requested, asked, i + 1, total);
                        let answers = StoreAnswers { lookups: asked, statuses: none };
                        assert(answered_by(&*store, actions@, answers));
                        assert(plan(requested, answers) == Self::outcome(Err(e)));
                    }
                    return Err(e);
                },
            };

            let ghost mut dependencies: Result<Seq<Seq<char>>, PackageDependencyError> = Ok(
                Seq::empty(),
            );
            if action.is_install() {
                let taken = process_install_action(&store, &package, &action, &mut new_actions);
                proof {
                    let answer = choose|
                        answer: Result<Vec<(PackageKey, S::Package)>, PackageDependencyError>,
                    |
                        {
                            &&& #[trigger] call_ensures(
                                S::find_package_dependencies,
                                (&*store, &action.id, &package, &action.target),
                                answer,
                            )
                            &&& dependencies_taken_in(
                                before,
                                views(new_actions@),
                                taken,
                                action.target,
                                dependency_answer(answer),
                            )
                        };
                    dependencies = dependency_answer(answer);
                    assert(resolved_by(&*store, asked_for, package, dependencies));
                }
                if let Err(e) = taken {
                    proof {
                        let lookup = Lookup { found: true, dependencies };
                        let asked = lookups.push(lookup);
                        assert(looked_up_in(&*store, asked_for, lookup));
                        lemma_expand_reads_prefix(requested, lookups, asked, i);
                        lemma_expand_failure_stays(requested, asked, i + 1, total);
                        let answers = StoreAnswers { lookups: asked, statuses: none };
                        assert(answered_by(&*store, actions@, answers));
                        assert(plan(requested, answers) == Self::outcome(Err(e)));
                    }
                    return Err(e);
                }
            }
            let ghost lookup = Lookup { found: true, dependencies };
            let ghost asked = lookups.push(lookup);
            let merged = merge_action(&mut new_actions, action);
            proof {
                assert(looked_up_in(&*store, asked_for, lookup));
                lemma_expand_reads_prefix(requested, lookups, asked, i);
            }
            if let Err(e) = merged {
                proof {
                    lemma_expand_failure_stays(requested, asked, i + 1, total);
                    let answers = StoreAnswers { lookups: asked, statuses: none };
                    assert(answered_by(&*store, actions@, answers));
                    assert(plan(requested, answers) == Self::outcome(Err(e)));
                }
                return Err(e);
            }
            proof {
                lookups = asked;
            }
        }

        let ghost working = views(new_actions@);

        if let Err(e) = check_contradictions(&new_actions) {
            proof {
                let answers = StoreAnswers { lookups, statuses: none };
                assert(answered_by(&*store, actions@, answers));
                assert(plan(requested, answers) == Self::outcome(Err(e)));
            }
            return Err(e);
        }
        let ghost size = new_actions@.len() as int;
        let mut kept: Vec<PackageAction> = Vec::new();
        let ghost mut statuses: Seq<StatusAnswer> = Seq::empty();
        assert(views(kept@) =~= Seq::<ActionView>::empty());

        for action in it: new_actions
            invariant
                it.seq() == new_actions@,
                working == views(new_actions@),
                size == new_actions@.len(),
                requested == views(actions@),
                total == actions@.len(),
                lookups.len() == total,
                forall|k: int|
                    0 <= k < lookups.len() ==> looked_up_in(
                        &*store,
                        actions@[k],
                        #[trigger] lookups[k],
                    ),
                expand(requested, lookups) == Ok::<_, PlanningFailure>(working),
                sweep(working) is Ok,
                statuses.len() == it.index(),
                forall|k: int|
                    0 <= k < statuses.len() ==> status_told_by(
                        &*store,
                        working[k],
                        #[trigger] statuses[k],
                    ),
                retain_first(working, statuses, it.index() as int) == Ok::<_, PlanningFailure>(
                    views(kept@),
                ),
        {
            let ghost i = it.index() as int;
            let answer = store.status(&action.id, action.target);
            let ghost told = answer;
            proof {
                assert(working[i] == action@);
                assert(status_told_by(&*store, working[i], told));
            }
            let status = match answer {
                Ok(status) => status,
                Err(error) => {
                    let e = PackageTransactionError::InvalidStatus(error);
                    proof {
                        let asked = statuses.push(told);
                        lemma_retain_reads_prefix(working, statuses, asked, i);
                        lemma_retain_failure_stays(working, asked, i + 1, size);
                        let answers = StoreAnswers { lookups, statuses: asked };
                        assert(answered_by(&*store, actions@, answers));
                        assert(plan(requested, answers) == Self::outcome(Err(e)));
                    }
                    return Err(e);
                },
            };
            proof {
                let asked = statuses.push(told);
                lemma_retain_reads_prefix(working, statuses, asked, i);
                statuses = asked;
                lemma_views_push(kept@, action);
            }
            if action.is_necessary(status) {
                kept.push(action);
            }
        }

        let transaction = PackageTransaction { store, actions: Arc::new(kept) };
        proof {
            let answers = StoreAnswers { lookups, statuses };
            assert(answered_by(&*transaction.store, actions@, answers));
            assert(plan(requested, answers) == Self::outcome(Ok(transaction)));
            lemma_plan_contradiction_free(requested, answers);
        }
        Ok(transaction)
    }

    /// The plan, shared with the transaction.
    pub fn actions(&self) -> (actions: Arc<Vec<PackageAction>>)
        ensures
            views(actions@) == self.planned(),
    {
        Arc::clone(&self.actions)
    }

    /// Starts a run of the plan, and hands out the trigger that cancels it.
    /// The run shares the store and the plan with the transaction, has
    /// reported nothing yet, and does nothing until it is pulled.
    pub fn process(&self) -> (started: (stream_cancel::Trigger, TransactionRun<S>))
        ensures
            started.1.wf(),
            started.1.store() == self.store(),
            started.1.plan() == self.planned(),
            started.1.phase() == RunState::Idle,
            started.1.position() == 0,
            started.1.emitted() == Seq::<EventView>::empty(),
            !started.1.cancelled(),
            started.1.wire() is Some,
    {
        TransactionRun::new(Arc::clone(&self.store), Arc::clone(&self.actions))
    }

    /// Whether the plan may be run. Planning refuses what is invalid, so a
    /// transaction that exists is valid.
    pub fn validate(&self) -> (valid: bool)
        ensures
            valid,
    {
        true
    }
}

} // verus!
