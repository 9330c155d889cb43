use gpui_ios::dispatcher::{
    record_task_end, record_task_start, IosDispatcher, Priority, TaskTiming,
    DISPATCH_QUEUE_PRIORITY_DEFAULT, DISPATCH_QUEUE_PRIORITY_HIGH, DISPATCH_QUEUE_PRIORITY_LOW,
};
use gpui_ios::platform::{
    appearance_changed, appearance_from_interface_style, credential_delete_result, credential_from_item, CredentialItemError,
    credential_lookup, credential_write_needs_add, credential_write_result, export_file_name,
    first_picked_path, forget_delegate, presenting_controller, prompt_content_types,
    thermal_state_from_raw, CredentialLookup, IosDisplay, KeychainError, KeychainOperation,
    PathPromptError, SceneWindow, ThermalState, WindowAppearance, ERR_SEC_ITEM_NOT_FOUND,
    ERR_SEC_SUCCESS, ERR_SEC_USER_CANCELED,
};
use std::time::Duration;

#[test]
fn queue_priorities() {
    assert_eq!(IosDispatcher::queue_priority(Priority::High), DISPATCH_QUEUE_PRIORITY_HIGH);
    assert_eq!(IosDispatcher::queue_priority(Priority::Medium), DISPATCH_QUEUE_PRIORITY_DEFAULT);
    assert_eq!(IosDispatcher::queue_priority(Priority::Low), DISPATCH_QUEUE_PRIORITY_LOW);
    assert_eq!(DISPATCH_QUEUE_PRIORITY_HIGH, 2);
    assert_eq!(DISPATCH_QUEUE_PRIORITY_LOW, -2);
}

#[test]
fn dispatch_delta_is_nanoseconds() {
    assert_eq!(IosDispatcher::duration_to_dispatch_delta(Duration::from_millis(5)), 5_000_000);
    assert_eq!(IosDispatcher::duration_to_dispatch_delta(Duration::from_nanos(1)), 1);
    assert_eq!(IosDispatcher::duration_to_dispatch_delta(Duration::ZERO), 0);
}

#[test]
fn dispatch_delta_saturates() {
    assert_eq!(IosDispatcher::duration_to_dispatch_delta(Duration::MAX), i64::MAX);
    assert_eq!(IosDispatcher::dispatch_delta_from_nanos(u128::MAX), i64::MAX);
    assert_eq!(IosDispatcher::dispatch_delta_from_nanos(i64::MAX as u128 + 1), i64::MAX);
    assert_eq!(IosDispatcher::dispatch_delta_from_nanos(i64::MAX as u128), i64::MAX);
    assert_eq!(IosDispatcher::dispatch_delta_from_nanos(42), 42);
}

#[test]
fn task_timings_reuse_same_location() {
    let mut timings: Vec<TaskTiming> = Vec::new();
    record_task_end(&mut timings, 5);
    assert!(timings.is_empty());
    record_task_start(&mut timings, 7, 100);
    record_task_start(&mut timings, 7, 200);
    assert_eq!(timings, vec![TaskTiming { location: 7, start: 100, end: None }]);
    record_task_end(&mut timings, 250);
    assert_eq!(timings[0].end, Some(250));
    record_task_start(&mut timings, 8, 300);
    assert_eq!(timings.len(), 2);
    assert_eq!(timings[1], TaskTiming { location: 8, start: 300, end: None });
}

#[test]
fn display_identity() {
    let d = IosDisplay::primary();
    assert_eq!(d.id(), 1);
}

#[test]
fn display_uuid_from_vendor_identifier() {
    let bytes = IosDisplay::uuid_bytes(Some("67e55044-10b1-426f-9247-bb680e5fe0c8"));
    assert_eq!(
        bytes,
        [0x67, 0xe5, 0x50, 0x44, 0x10, 0xb1, 0x42, 0x6f, 0x92, 0x47, 0xbb, 0x68, 0x0e, 0x5f, 0xe0, 0xc8]
    );
    let uuid = IosDisplay::primary().uuid(Some("67e55044-10b1-426f-9247-bb680e5fe0c8"));
    assert_eq!(uuid.to_string(), "67e55044-10b1-426f-9247-bb680e5fe0c8");
}

#[test]
fn display_uuid_fallback() {
    assert_eq!(IosDisplay::uuid_bytes(None), [1u8; 16]);
    assert_eq!(IosDisplay::uuid_bytes(Some("not a uuid")), [1u8; 16]);
    let uuid = IosDisplay::primary().uuid(None);
    assert_eq!(uuid.as_bytes(), &[1u8; 16]);
}

#[test]
fn interface_style_appearance() {
    assert_eq!(appearance_from_interface_style(2), WindowAppearance::Dark);
    assert_eq!(appearance_from_interface_style(1), WindowAppearance::Light);
    assert_eq!(appearance_from_interface_style(0), WindowAppearance::Light);
    assert!(appearance_changed(2, None));
    assert!(appearance_changed(2, Some(1)));
    assert!(!appearance_changed(2, Some(2)));
}

#[test]
fn thermal_states() {
    assert_eq!(thermal_state_from_raw(0), ThermalState::Nominal);
    assert_eq!(thermal_state_from_raw(1), ThermalState::Fair);
    assert_eq!(thermal_state_from_raw(2), ThermalState::Serious);
    assert_eq!(thermal_state_from_raw(3), ThermalState::Critical);
    assert_eq!(thermal_state_from_raw(9), ThermalState::Nominal);
}

#[test]
fn prompt_types_and_errors() {
    assert_eq!(prompt_content_types(false, true, true), Err(PathPromptError::NoPresenter));
    assert_eq!(prompt_content_types(true, false, false), Err(PathPromptError::InvalidOptions));
    assert_eq!(prompt_content_types(true, true, false), Ok(vec!["public.data"]));
    assert_eq!(prompt_content_types(true, false, true), Ok(vec!["public.folder"]));
    assert_eq!(prompt_content_types(true, true, true), Ok(vec!["public.data", "public.folder"]));
    assert_eq!(
        PathPromptError::NoPresenter.message(),
        "no active view controller to present document picker"
    );
    assert_eq!(
        PathPromptError::InvalidOptions.message(),
        "invalid path prompt options: at least one of files/directories must be true"
    );
}

#[test]
fn export_names() {
    assert_eq!(export_file_name(1700000000123, Some("notes.md")), "gpui-export-1700000000123-notes.md");
    assert_eq!(export_file_name(0, None), "gpui-export-0-untitled.txt");
}

#[test]
fn picked_path_is_first() {
    assert_eq!(first_picked_path(Some(vec!["/a".to_string(), "/b".to_string()])), Some("/a".to_string()));
    assert_eq!(first_picked_path(Some(vec![])), None);
    assert_eq!(first_picked_path(None), None);
}

#[test]
fn forgetting_delegates() {
    let mut live = vec![10, 20, 30, 20];
    forget_delegate(&mut live, 20);
    assert_eq!(live, vec![10, 20, 30]);
    forget_delegate(&mut live, 99);
    assert_eq!(live, vec![10, 20, 30]);
    forget_delegate(&mut live, 10);
    assert_eq!(live, vec![30, 20]);
}

#[test]
fn presenting_controller_search() {
    let windows = [
        SceneWindow { is_key: false, root_controller: 5 },
        SceneWindow { is_key: true, root_controller: 0 },
        SceneWindow { is_key: true, root_controller: 9 },
        SceneWindow { is_key: true, root_controller: 11 },
    ];
    assert_eq!(presenting_controller(3, &windows), Some(3));
    assert_eq!(presenting_controller(0, &windows), Some(9));
    assert_eq!(presenting_controller(0, &windows[..2]), None);
    assert_eq!(presenting_controller(0, &[]), None);
}

#[test]
fn keychain_write() {
    assert!(credential_write_needs_add(ERR_SEC_ITEM_NOT_FOUND));
    assert!(!credential_write_needs_add(ERR_SEC_SUCCESS));
    assert!(credential_write_result(false, ERR_SEC_SUCCESS).is_ok());
    let err = credential_write_result(true, -34018).unwrap_err();
    assert_eq!(err, KeychainError { operation: KeychainOperation::Creating, status: -34018 });
    assert_eq!(err.message(), "creating password failed: -34018");
    let err = credential_write_result(false, -25299).unwrap_err();
    assert_eq!(err.message(), "updating password failed: -25299");
}

#[test]
fn keychain_read_and_delete() {
    assert_eq!(credential_lookup(ERR_SEC_SUCCESS), CredentialLookup::Found);
    assert_eq!(credential_lookup(ERR_SEC_ITEM_NOT_FOUND), CredentialLookup::Absent);
    assert_eq!(credential_lookup(ERR_SEC_USER_CANCELED), CredentialLookup::Absent);
    match credential_lookup(-50) {
        CredentialLookup::Failed(e) => assert_eq!(e.message(), "reading password failed: -50"),
        other => panic!("unexpected {:?}", other),
    }
    assert!(credential_delete_result(ERR_SEC_SUCCESS).is_ok());
    let err = credential_delete_result(ERR_SEC_ITEM_NOT_FOUND).unwrap_err();
    assert_eq!(err.message(), "delete password failed: -25300");
}

#[test]
fn display_uuid_fallback_from_parsed() {
    assert_eq!(IosDisplay::uuid_bytes_or_fallback(None), [1u8; 16]);
    let parsed = [7u8; 16];
    assert_eq!(IosDisplay::uuid_bytes_or_fallback(Some(parsed)), parsed);
}

#[test]
fn keychain_item_to_credentials() {
    assert_eq!(
        credential_from_item(true, Some(Some("me".to_string())), Some(Some(vec![1, 2]))),
        Ok(("me".to_string(), vec![1, 2]))
    );
    assert_eq!(credential_from_item(false, None, None), Err(CredentialItemError::NotDictionary));
    assert_eq!(credential_from_item(true, None, Some(Some(vec![]))), Err(CredentialItemError::AccountMissing));
    assert_eq!(credential_from_item(true, Some(None), None), Err(CredentialItemError::AccountNotString));
    assert_eq!(credential_from_item(true, Some(Some("me".into())), None), Err(CredentialItemError::PasswordMissing));
    assert_eq!(credential_from_item(true, Some(Some("me".into())), Some(None)), Err(CredentialItemError::PasswordNotData));
    assert_eq!(CredentialItemError::PasswordNotData.message(), "password was not data");
    assert_eq!(CredentialItemError::AccountMissing.message(), "account was missing from keychain item");
}
