use pahkat_client::repo::PayloadError;
use pahkat_client::transaction::{
    status_to_i8, PackageActionType, PackageDependencyError, PackageStatus, PackageStatusError,
};

#[test]
fn status_codes_follow_the_table() {
    assert_eq!(status_to_i8(Ok(PackageStatus::NotInstalled)), 0);
    assert_eq!(status_to_i8(Ok(PackageStatus::UpToDate)), 1);
    assert_eq!(status_to_i8(Ok(PackageStatus::RequiresUpdate)), 2);
    assert_eq!(status_to_i8(Err(PackageStatusError::Payload(PayloadError::NoPackage))), -1);
    assert_eq!(status_to_i8(Err(PackageStatusError::Payload(PayloadError::NoConcretePackage))), -1);
    assert_eq!(status_to_i8(Err(PackageStatusError::Payload(PayloadError::NoPayloadFound))), -2);
    assert_eq!(status_to_i8(Err(PackageStatusError::WrongPayloadType)), -3);
    assert_eq!(status_to_i8(Err(PackageStatusError::ParsingVersion)), -4);
    assert_eq!(
        status_to_i8(Err(PackageStatusError::Payload(PayloadError::CriteriaUnmet(
            "needs more".to_string()
        )))),
        -5
    );
}

#[test]
fn status_codes_tell_the_rows_apart() {
    let rows = vec![
        status_to_i8(Ok(PackageStatus::NotInstalled)),
        status_to_i8(Ok(PackageStatus::UpToDate)),
        status_to_i8(Ok(PackageStatus::RequiresUpdate)),
        status_to_i8(Err(PackageStatusError::Payload(PayloadError::NoPackage))),
        status_to_i8(Err(PackageStatusError::Payload(PayloadError::NoPayloadFound))),
        status_to_i8(Err(PackageStatusError::WrongPayloadType)),
        status_to_i8(Err(PackageStatusError::ParsingVersion)),
        status_to_i8(Err(PackageStatusError::Payload(PayloadError::CriteriaUnmet(String::new())))),
    ];
    for i in 0..rows.len() {
        for j in (i + 1)..rows.len() {
            assert_ne!(rows[i], rows[j]);
        }
    }
}

#[test]
fn action_type_bytes_round_trip() {
    assert_eq!(PackageActionType::Install.to_u8(), 0);
    assert_eq!(PackageActionType::Uninstall.to_u8(), 1);
    assert_eq!(PackageActionType::from_u8(0), PackageActionType::Install);
    assert_eq!(PackageActionType::from_u8(1), PackageActionType::Uninstall);
    for action in [PackageActionType::Install, PackageActionType::Uninstall] {
        assert_eq!(PackageActionType::from_u8(action.to_u8()), action);
    }
    for byte in [0u8, 1u8] {
        assert_eq!(PackageActionType::from_u8(byte).to_u8(), byte);
    }
}

#[test]
fn status_in_words() {
    assert_eq!(PackageStatus::NotInstalled.to_string(), "Not installed");
    assert_eq!(PackageStatus::UpToDate.to_string(), "Up to date");
    assert_eq!(PackageStatus::RequiresUpdate.to_string(), "Requires update");
}

#[test]
fn status_error_in_words() {
    assert_eq!(
        PackageStatusError::Payload(PayloadError::NoPackage).to_string(),
        "Payload error"
    );
    assert_eq!(PackageStatusError::WrongPayloadType.to_string(), "Wrong payload type");
    assert_eq!(PackageStatusError::ParsingVersion.to_string(), "Error parsing version");
}

#[test]
fn dependency_error_in_words() {
    assert_eq!(
        PackageDependencyError::PackageNotFound("kbd".to_string()).to_string(),
        "Error: Package 'kbd' not found"
    );
    assert_eq!(
        PackageDependencyError::VersionNotFound("kbd".to_string()).to_string(),
        "Error: Package version 'kbd' not found"
    );
    assert_eq!(
        PackageDependencyError::PackageStatusError(
            "kbd".to_string(),
            PackageStatusError::WrongPayloadType
        )
        .to_string(),
        "kbd: Wrong payload type"
    );
}

#[test]
fn payload_error_becomes_a_status_error() {
    assert!(matches!(
        PackageStatusError::from(PayloadError::NoPackage),
        PackageStatusError::Payload(PayloadError::NoPackage)
    ));
    assert!(matches!(
        PackageStatusError::from(PayloadError::NoConcretePackage),
        PackageStatusError::Payload(PayloadError::NoConcretePackage)
    ));
    assert!(matches!(
        PackageStatusError::from(PayloadError::NoPayloadFound),
        PackageStatusError::Payload(PayloadError::NoPayloadFound)
    ));
    let converted: PackageStatusError = PayloadError::CriteriaUnmet("needs more".to_string()).into();
    match converted {
        PackageStatusError::Payload(PayloadError::CriteriaUnmet(what)) => {
            assert_eq!(what, "needs more")
        }
        other => panic!("unexpected: {:?}", other),
    }
    assert_eq!(status_to_i8(Err(PayloadError::NoPayloadFound.into())), -2);
}
