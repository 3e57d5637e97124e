use webseal::ipc::{parse_ipc_message, ChromeRequest, IpcParseError, UserEvent};
use webseal::text::{chars_of, parse_i32};

fn chrome(body: &str) -> Result<ChromeRequest, IpcParseError> {
    match parse_ipc_message(body.to_string()) {
        Ok(UserEvent::Chrome(c)) => Ok(c),
        Ok(UserEvent::SendIpc(s)) => panic!("forwarded as content: {}", s),
        Err(e) => Err(e),
    }
}

fn forwarded(body: &str) -> String {
    match parse_ipc_message(body.to_string()) {
        Ok(UserEvent::SendIpc(s)) => s,
        other => panic!("not forwarded: {:?}", other),
    }
}

#[test]
fn application_content_passes_through_verbatim() {
    assert_eq!(forwarded("hello"), "hello");
    assert_eq!(forwarded(""), "");
    assert_eq!(forwarded("input"), "input");
    assert_eq!(forwarded("Input!minimize"), "Input!minimize");
    assert_eq!(forwarded("{\"k\": \"input!close\"}"), "{\"k\": \"input!close\"}");
    assert_eq!(forwarded("héllo ✓"), "héllo ✓");
}

#[test]
fn unknown_reserved_names_are_content() {
    assert_eq!(forwarded("input!"), "input!");
    assert_eq!(forwarded("input!resize:1,2"), "input!resize:1,2");
    assert_eq!(forwarded("input!minimizer"), "input!minimizer");
}

#[test]
fn reserved_window_commands() {
    assert_eq!(chrome("input!minimize"), Ok(ChromeRequest::Minimize));
    assert_eq!(chrome("input!maximize"), Ok(ChromeRequest::Maximize));
    assert_eq!(chrome("input!drag_window"), Ok(ChromeRequest::DragWindow));
    assert_eq!(chrome("input!close"), Ok(ChromeRequest::CloseWindow));
    assert_eq!(chrome("input!minimize:ignored"), Ok(ChromeRequest::Minimize));
}

#[test]
fn pointer_messages_carry_coordinates() {
    assert_eq!(chrome("input!mousedown:10,20"), Ok(ChromeRequest::MouseDown(10, 20)));
    assert_eq!(chrome("input!mousemove:-3,+4"), Ok(ChromeRequest::MouseMove(-3, 4)));
    assert_eq!(chrome("input!mousemove:0,0:extra"), Ok(ChromeRequest::MouseMove(0, 0)));
    assert_eq!(chrome("input!mousedown,7,8"), Ok(ChromeRequest::MouseDown(7, 8)));
    assert_eq!(
        chrome("input!mousedown:-2147483648,2147483647"),
        Ok(ChromeRequest::MouseDown(i32::MIN, i32::MAX))
    );
}

#[test]
fn malformed_pointer_messages_are_typed_errors() {
    assert_eq!(chrome("input!mousedown:abc"), Err(IpcParseError::BadCoordinate));
    assert_eq!(chrome("input!mousedown"), Err(IpcParseError::MissingCoordinate));
    assert_eq!(chrome("input!mousedown:5"), Err(IpcParseError::MissingCoordinate));
    assert_eq!(chrome("input!mousemove:5,"), Err(IpcParseError::BadCoordinate));
    assert_eq!(chrome("input!mousemove:,5"), Err(IpcParseError::BadCoordinate));
    assert_eq!(chrome("input!mousemove:1,2147483648"), Err(IpcParseError::BadCoordinate));
    assert_eq!(chrome("input!mousemove: 1,2"), Err(IpcParseError::BadCoordinate));
    assert_eq!(chrome("input!mousedown:x"), Err(IpcParseError::BadCoordinate));
}

#[test]
fn decimal_fields_read_like_rust() {
    let cases: [(&str, Option<i32>); 12] = [
        ("0", Some(0)),
        ("42", Some(42)),
        ("-42", Some(-42)),
        ("+42", Some(42)),
        ("007", Some(7)),
        ("2147483647", Some(i32::MAX)),
        ("-2147483648", Some(i32::MIN)),
        ("2147483648", None),
        ("-2147483649", None),
        ("", None),
        ("-", None),
        ("1a", None),
    ];
    for (text, expected) in cases {
        let cs = chars_of(text);
        assert_eq!(parse_i32(&cs, 0, cs.len()), expected, "{}", text);
        assert_eq!(text.parse::<i32>().ok(), expected, "{}", text);
    }
}
