use webseal::bridge::{append_decimal, create_bridge, delivery_outcome, host_message, read_outcome, size_outcome, BridgeError};
use webseal::channel::RecvFailure;
use webseal::messages::{ToLuau, ToWindow};

#[test]
fn empty_open_queue_reads_as_nothing() {
    let (ipc, _window) = create_bridge("t".to_string());
    assert!(matches!(ipc.try_read(), Ok(None)));
    assert!(matches!(read_outcome(Err(RecvFailure::Empty)), Ok(None)));
}

#[test]
fn disconnected_queue_reads_as_error() {
    let (ipc, window) = create_bridge("t".to_string());
    drop(window);
    assert!(matches!(ipc.try_read(), Err(BridgeError::Disconnected)));
    assert!(matches!(read_outcome(Err(RecvFailure::Disconnected)), Err(BridgeError::Disconnected)));
}

#[test]
fn read_outcome_of_each_event() {
    assert_eq!(read_outcome(Ok(ToLuau::IpcMessage("m".to_string()))).ok(), Some(Some("m".to_string())));
    assert!(matches!(read_outcome(Ok(ToLuau::WindowClosed)), Err(BridgeError::WindowClosed)));
    assert!(matches!(read_outcome(Ok(ToLuau::SizeReturned(3, 4))), Err(BridgeError::StraySizeReport(3, 4))));
}

#[test]
fn size_outcome_accepts_only_size_reports() {
    assert_eq!(size_outcome(Some(ToLuau::SizeReturned(640, 480))).ok(), Some((640, 480)));
    assert!(matches!(
        size_outcome(Some(ToLuau::IpcMessage("x".to_string()))),
        Err(BridgeError::UnexpectedReply(ToLuau::IpcMessage(_)))
    ));
    assert!(matches!(
        size_outcome(Some(ToLuau::WindowClosed)),
        Err(BridgeError::UnexpectedReply(ToLuau::WindowClosed))
    ));
    assert!(matches!(size_outcome(None), Err(BridgeError::ReplyLost)));
}

#[test]
fn messages_with_nul_are_replaced_by_a_notice() {
    assert_eq!(host_message("plain".to_string()), "plain");
    assert_eq!(host_message(String::new()), "");
    assert_eq!(
        host_message("ab\0c".to_string()),
        "WebviewIpc:try_read(new_html: string): IPC message contains NUL byte at 2"
    );
    // The position counts bytes: 'é' takes two.
    assert_eq!(
        host_message("é\0\0".to_string()),
        "WebviewIpc:try_read(new_html: string): IPC message contains NUL byte at 2"
    );
    assert_eq!(host_message("\0".to_string()), "WebviewIpc:try_read(new_html: string): IPC message contains NUL byte at 0");
}

#[test]
fn nul_notice_reaches_the_host_through_try_read() {
    let (ipc, window) = create_bridge("t".to_string());
    let long = format!("{}\0", "x".repeat(1234));
    window.events.send(ToLuau::IpcMessage(long)).unwrap();
    assert_eq!(
        ipc.try_read().ok(),
        Some(Some("WebviewIpc:try_read(new_html: string): IPC message contains NUL byte at 1234".to_string()))
    );
}

#[test]
fn delivery_outcome_of_each_send_result() {
    assert!(matches!(delivery_outcome(Ok(())), Ok(())));
    assert!(matches!(
        delivery_outcome(Err(ToWindow::SetAlert(false))),
        Err(BridgeError::Undelivered(ToWindow::SetAlert(false)))
    ));
}

#[test]
fn sends_succeed_while_the_window_thread_lives() {
    let (ipc, window) = create_bridge("t".to_string());
    assert!(ipc.replace_html(b"<b>x</b>").is_ok());
    assert!(ipc.alert(false).is_ok());
    assert!(ipc.close().is_ok());
    match window.commands.try_recv() {
        Ok(ToWindow::ReplaceHtml(s)) => assert_eq!(s, "<b>x</b>"),
        other => panic!("unexpected {:?}", other),
    }
    assert!(matches!(window.commands.try_recv(), Ok(ToWindow::SetAlert(false))));
    assert!(matches!(window.commands.try_recv(), Ok(ToWindow::Close)));
    assert!(window.commands.try_recv().is_err());
}

#[test]
fn failed_size_send_does_not_wait_for_a_reply() {
    let (ipc, window) = create_bridge("t".to_string());
    // The window thread's event sender stays alive, so a receive would block.
    let events = window.events.clone();
    drop(window);
    assert!(matches!(ipc.size(), Err(BridgeError::Undelivered(ToWindow::SizeRequested))));
    drop(events);
}

#[test]
fn decimal_rendering() {
    for n in [0usize, 7, 10, 99, 100, 12345, usize::MAX] {
        let mut s = "n=".to_string();
        append_decimal(&mut s, n);
        assert_eq!(s, format!("n={}", n));
    }
}

#[test]
fn invalid_utf8_markup_is_read_lossily() {
    let (ipc, window) = create_bridge("t".to_string());
    ipc.replace_html(b"<p>\xFFok</p>").unwrap();
    ipc.replace_html("<p>é</p>".as_bytes()).unwrap();
    match window.commands.try_recv() {
        Ok(ToWindow::ReplaceHtml(s)) => assert_eq!(s, "<p>\u{FFFD}ok</p>"),
        other => panic!("unexpected {:?}", other),
    }
    match window.commands.try_recv() {
        Ok(ToWindow::ReplaceHtml(s)) => assert_eq!(s, "<p>é</p>"),
        other => panic!("unexpected {:?}", other),
    }
}

#[test]
fn commands_arrive_in_order() {
    let (ipc, window) = create_bridge("t".to_string());
    ipc.alert(true).unwrap();
    ipc.replace_html_text("<i>a</i>".to_string()).unwrap();
    ipc.close().unwrap();
    assert!(matches!(window.commands.try_recv(), Ok(ToWindow::SetAlert(true))));
    assert!(matches!(window.commands.try_recv(), Ok(ToWindow::ReplaceHtml(_))));
    assert!(matches!(window.commands.try_recv(), Ok(ToWindow::Close)));
    assert!(window.commands.try_recv().is_err());
}
