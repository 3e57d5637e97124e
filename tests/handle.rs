use webseal::handle::{check_argument_count, check_payload, check_self, HandleError, SelfKind, WEBVIEW_IPC_TAG};

fn extract(got: i32, expected: i32, kind: SelfKind, tag: i32, outer_null: bool, inner_null: bool) -> Result<(), HandleError> {
    check_argument_count(got, expected)?;
    check_self(kind, tag)?;
    check_payload(outer_null, inner_null)
}

#[test]
fn extraction_refusals_are_distinct() {
    let null_payload = extract(1, 1, SelfKind::Userdata, WEBVIEW_IPC_TAG, false, true);
    let wrong_tag = extract(1, 1, SelfKind::Userdata, 7, false, false);
    let wrong_count = extract(2, 1, SelfKind::Userdata, WEBVIEW_IPC_TAG, false, false);
    assert_eq!(null_payload, Err(HandleError::NullPayload));
    assert_eq!(wrong_tag, Err(HandleError::WrongTag(7)));
    assert_eq!(wrong_count, Err(HandleError::WrongArgumentCount { expected: 1, got: 2 }));
    assert_ne!(null_payload, wrong_tag);
    assert_ne!(null_payload, wrong_count);
    assert_ne!(wrong_tag, wrong_count);
}

#[test]
fn each_check_in_turn() {
    assert_eq!(WEBVIEW_IPC_TAG, 13);
    assert_eq!(extract(2, 2, SelfKind::Userdata, 13, false, false), Ok(()));
    assert_eq!(extract(0, 2, SelfKind::Missing, 0, true, true), Err(HandleError::WrongArgumentCount { expected: 2, got: 0 }));
    assert_eq!(extract(1, 1, SelfKind::Missing, 13, false, false), Err(HandleError::MissingSelf));
    assert_eq!(extract(1, 1, SelfKind::Other, 13, false, false), Err(HandleError::NotUserdata));
    assert_eq!(extract(1, 1, SelfKind::Userdata, 13, true, false), Err(HandleError::NullPayload));
    assert_eq!(check_payload(false, false), Ok(()));
    assert_eq!(check_self(SelfKind::Userdata, 13), Ok(()));
    assert_eq!(check_argument_count(3, 3), Ok(()));
}
