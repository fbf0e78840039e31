use pahkat_client::repo::PayloadError;
use pahkat_client::transaction::install::InstallError;
use pahkat_client::transaction::uninstall::UninstallError;
use pahkat_client::transaction::{
    PackageAction, PackageActionType, PackageDependencyError, PackageStatusError,
    PackageTransactionError, TransactionError,
};
use pahkat_client::{InstallTarget, PackageKey};

fn tricky() -> String {
    "a \"quoted\" \\ name\n\twith\u{7f} marks".to_string()
}

#[test]
fn payload_error_prints_as_derived() {
    let all = vec![
        PayloadError::NoPackage,
        PayloadError::NoConcretePackage,
        PayloadError::NoPayloadFound,
        PayloadError::CriteriaUnmet("needs more".to_string()),
        PayloadError::CriteriaUnmet(tricky()),
    ];
    for e in all.iter() {
        assert_eq!(e.debug_string(), format!("{:?}", e));
    }
    assert_eq!(
        PayloadError::CriteriaUnmet("x\"y".to_string()).debug_string(),
        "CriteriaUnmet(\"x\\\"y\")"
    );
}

#[test]
fn status_error_prints_as_derived() {
    let all = vec![
        PackageStatusError::Payload(PayloadError::NoPackage),
        PackageStatusError::Payload(PayloadError::CriteriaUnmet(tricky())),
        PackageStatusError::WrongPayloadType,
        PackageStatusError::ParsingVersion,
    ];
    for e in all.iter() {
        assert_eq!(e.debug_string(), format!("{:?}", e));
    }
    assert_eq!(
        PackageStatusError::Payload(PayloadError::NoPayloadFound).debug_string(),
        "Payload(NoPayloadFound)"
    );
}

#[test]
fn dependency_error_prints_as_derived() {
    let all = vec![
        PackageDependencyError::PackageNotFound("kbd".to_string()),
        PackageDependencyError::VersionNotFound(tricky()),
        PackageDependencyError::PackageStatusError(
            tricky(),
            PackageStatusError::Payload(PayloadError::CriteriaUnmet("c".to_string())),
        ),
    ];
    for e in all.iter() {
        assert_eq!(e.debug_string(), format!("{:?}", e));
    }
    assert_eq!(
        PackageDependencyError::PackageStatusError(
            "kbd".to_string(),
            PackageStatusError::ParsingVersion
        )
        .debug_string(),
        "PackageStatusError(\"kbd\", ParsingVersion)"
    );
}

#[test]
fn transaction_error_of_planning_prints_as_derived_on_its_own_line() {
    let all = vec![
        PackageTransactionError::NoPackage("kbd".to_string()),
        PackageTransactionError::Deps(PackageDependencyError::VersionNotFound(tricky())),
        PackageTransactionError::ActionContradiction("{a, b}".to_string()),
        PackageTransactionError::InvalidStatus(PackageStatusError::WrongPayloadType),
    ];
    for e in all.iter() {
        assert_eq!(e.debug_string(), format!("{:?}", e));
        assert_eq!(e.to_string(), format!("{:?}\n", e));
    }
    assert_eq!(
        PackageTransactionError::NoPackage("kbd".to_string()).to_string(),
        "NoPackage(\"kbd\")\n"
    );
}

#[test]
fn store_failures_print_as_derived() {
    let i = InstallError { reason: tricky() };
    let u = UninstallError { reason: "busy".to_string() };
    assert_eq!(i.debug_string(), format!("{:?}", i));
    assert_eq!(u.debug_string(), format!("{:?}", u));
    assert_eq!(u.debug_string(), "UninstallError { reason: \"busy\" }");
}

#[test]
fn transaction_error_in_words() {
    assert_eq!(TransactionError::ValidationFailed.to_string(), "Validation failed");
    assert_eq!(TransactionError::UserCancelled.to_string(), "User cancelled");
    assert_eq!(
        TransactionError::Install(InstallError { reason: "disk full".to_string() }).to_string(),
        "InstallError { reason: \"disk full\" }"
    );
    assert_eq!(
        TransactionError::Uninstall(UninstallError { reason: "busy".to_string() }).to_string(),
        "UninstallError { reason: \"busy\" }"
    );
}

#[test]
fn names_print_as_derived() {
    for a in [PackageActionType::Install, PackageActionType::Uninstall] {
        assert_eq!(a.debug_string(), format!("{:?}", a));
    }
    for t in [InstallTarget::System, InstallTarget::User] {
        assert_eq!(t.debug_string(), format!("{:?}", t));
    }
}

#[test]
fn action_in_words() {
    let a = PackageAction::install(PackageKey::new("kbd".to_string()), InstallTarget::System);
    assert_eq!(a.to_string(), "PackageAction { id: \"kbd\", action: Install, target: System }");
    let b = PackageAction::uninstall(PackageKey::new(tricky()), InstallTarget::User);
    assert_eq!(
        b.to_string(),
        format!("PackageAction {{ id: {:?}, action: Uninstall, target: User }}", tricky())
    );
}
