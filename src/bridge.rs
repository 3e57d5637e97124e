//! The bridge handle held by the host: the sending end of the command
//! channel and the receiving end of the event channel, with the operations
//! the host may call on them.

use vstd::prelude::*;
use vstd::utf8::{decode_utf8, valid_utf8};
use crossbeam_channel::{Receiver, Sender};
use crate::channel::{receive, send_message, try_receive, unbounded_channel, RecvFailure};
use crate::messages::{ToLuau, ToWindow};
use crate::window::WindowThread;

verus! {

broadcast use vstd::string::group_string_axioms;

/// Why a bridge operation failed.
#[derive(Debug)]
pub enum BridgeError {
    /// The command could not be queued: the window thread is gone. The
    /// command comes back.
    Undelivered(ToWindow),
    /// The window has been closed.
    WindowClosed,
    /// The event channel is empty and the window thread is gone.
    Disconnected,
    /// A size report arrived outside a size query; the single-query
    /// discipline of `size` was broken.
    StraySizeReport(i32, i32),
    /// A size query was answered by another event.
    UnexpectedReply(ToLuau),
    /// A size query got no answer: the window thread is gone.
    ReplyLost,
}

/// The text that `bstr`'s lossy conversion makes of `b`.
pub uninterp spec fn lossy_text(b: Seq<u8>) -> Seq<char>;

/// Relies on `bstr::ByteSlice::to_str_lossy`: the bytes read as UTF-8, each
/// invalid run replaced by U+FFFD; valid UTF-8 comes back unchanged.
#[verifier::external_body]
fn text_from_bytes(b: &[u8]) -> (r: String)
    ensures
        r@ == lossy_text(b@),
        valid_utf8(b@) ==> r@ == decode_utf8(b@),
{
    bstr::ByteSlice::to_str_lossy(b).into_owned()
}

/// The decimal digits, in order.
pub const DIGITS: &'static str = "0123456789";

/// `n` written in decimal, without leading zeros.
pub open spec fn decimal_text(n: nat) -> Seq<char>
    decreases n,
{
    if n < 10 {
        seq![DIGITS@[n as int]]
    } else {
        decimal_text(n / 10).push(DIGITS@[(n % 10) as int])
    }
}

/// Appends `n` written in decimal to `out`.
pub fn append_decimal(out: &mut String, n: usize)
    ensures
        final(out)@ == old(out)@ + decimal_text(n as nat),
    decreases n,
{
    proof {
        reveal_strlit("0123456789");
    }
    if n >= 10 {
        append_decimal(out, n / 10);
    }
    let d = n % 10;
    out.append(DIGITS.substring_char(d, d + 1));
    assert(DIGITS@.subrange(d as int, d + 1) =~= seq![DIGITS@[d as int]]);
    assert(n >= 10 ==> decimal_text(n as nat) == decimal_text((n / 10) as nat).push(DIGITS@[d as int]));
    assert(old(out)@ + decimal_text(n as nat) =~= final(out)@) by {
        if n >= 10 {
            assert(decimal_text(n as nat) =~= decimal_text((n / 10) as nat) + seq![DIGITS@[d as int]]);
        }
    }
}

/// The index of the first zero byte of `b` at or after `i`, or the length
/// of `b` if there is none.
pub open spec fn zero_index(b: Seq<u8>, i: int) -> int
    decreases b.len() - i,
{
    if i >= b.len() {
        b.len() as int
    } else if b[i] == 0 {
        i
    } else {
        zero_index(b, i + 1)
    }
}

/// The start of the text that stands in for a message holding a NUL byte.
pub open spec fn nul_notice() -> Seq<char> {
    "WebviewIpc:try_read(new_html: string): IPC message contains NUL byte at "@
}

/// The text handed to the host for the message `m`: `m` itself, or, if its
/// UTF-8 encoding holds a NUL byte, a notice that gives the byte position of
/// the first one.
pub open spec fn host_text(m: Seq<char>) -> Seq<char> {
    let b = vstd::utf8::encode_utf8(m);
    let p = zero_index(b, 0);
    if p < b.len() {
        nul_notice() + decimal_text(p as nat)
    } else {
        m
    }
}

/// Makes a message safe to hand to the host as a NUL-terminated string.
pub fn host_message(m: String) -> (r: String)
    ensures
        r@ == host_text(m@),
{
    let bytes = m.as_str().as_bytes();
    let mut i: usize = 0;
    while i < bytes.len() && bytes[i] != 0
        invariant
            i <= bytes@.len(),
            bytes@ == vstd::utf8::encode_utf8(m@),
            zero_index(bytes@, 0) == zero_index(bytes@, i as int),
        decreases bytes@.len() - i,
    {
        i += 1;
    }
    if i < bytes.len() {
        let mut notice = String::from_str("WebviewIpc:try_read(new_html: string): IPC message contains NUL byte at ");
        append_decimal(&mut notice, i);
        notice
    } else {
        m
    }
}

/// `r` is what `try_read` returns when the poll of the event channel gave
/// `polled`.
pub open spec fn read_fits(polled: Result<ToLuau, RecvFailure>, r: Result<Option<String>, BridgeError>) -> bool {
    match polled {
        Ok(ToLuau::IpcMessage(m)) => r matches Ok(Some(t)) && t@ == host_text(m@),
        Ok(ToLuau::WindowClosed) => r == Err::<Option<String>, BridgeError>(BridgeError::WindowClosed),
        Ok(ToLuau::SizeReturned(w, h)) => r == Err::<Option<String>, BridgeError>(
            BridgeError::StraySizeReport(w, h),
        ),
        Err(RecvFailure::Empty) => r == Ok::<Option<String>, BridgeError>(None),
        Err(RecvFailure::Disconnected) => r == Err::<Option<String>, BridgeError>(
            BridgeError::Disconnected,
        ),
    }
}

/// What the host gets from a poll of the event channel: the text of a
/// content message, nothing when the channel is empty, or the reason no
/// more will come.
pub fn read_outcome(polled: Result<ToLuau, RecvFailure>) -> (r: Result<Option<String>, BridgeError>)
    ensures
        read_fits(polled, r),
{
    match polled {
        Ok(ToLuau::IpcMessage(m)) => Ok(Some(host_message(m))),
        Ok(ToLuau::WindowClosed) => Err(BridgeError::WindowClosed),
        Ok(ToLuau::SizeReturned(w, h)) => Err(BridgeError::StraySizeReport(w, h)),
        Err(RecvFailure::Empty) => Ok(None),
        Err(RecvFailure::Disconnected) => Err(BridgeError::Disconnected),
    }
}

/// `r` is what `size` returns when its blocking receive gave `reply`
/// (`None`: the channel was disconnected).
pub open spec fn size_fits(reply: Option<ToLuau>, r: Result<(i32, i32), BridgeError>) -> bool {
    match reply {
        Some(ToLuau::SizeReturned(w, h)) => r == Ok::<(i32, i32), BridgeError>((w, h)),
        Some(other) => r == Err::<(i32, i32), BridgeError>(BridgeError::UnexpectedReply(other)),
        None => r == Err::<(i32, i32), BridgeError>(BridgeError::ReplyLost),
    }
}

/// What a size query returns for the reply it received: only a size report
/// is an answer.
pub fn size_outcome(reply: Option<ToLuau>) -> (r: Result<(i32, i32), BridgeError>)
    ensures
        size_fits(reply, r),
{
    match reply {
        Some(ToLuau::SizeReturned(w, h)) => Ok((w, h)),
        Some(other) => Err(BridgeError::UnexpectedReply(other)),
        None => Err(BridgeError::ReplyLost),
    }
}

/// `r` is what a command send returns when the channel's send gave `sent`
/// (`Err` hands the command back: the window thread is gone).
pub open spec fn delivery_fits(sent: Result<(), ToWindow>, r: Result<(), BridgeError>) -> bool {
    match sent {
        Ok(()) => r == Ok::<(), BridgeError>(()),
        Err(c) => r == Err::<(), BridgeError>(BridgeError::Undelivered(c)),
    }
}

/// What a command send returns for the outcome of the channel's send: a
/// delivered command is success, a command handed back is `Undelivered`.
pub fn delivery_outcome(sent: Result<(), ToWindow>) -> (r: Result<(), BridgeError>)
    ensures
        delivery_fits(sent, r),
{
    match sent {
        Ok(()) => Ok(()),
        Err(c) => Err(BridgeError::Undelivered(c)),
    }
}

/// `sent` is a possible outcome of sending `command`: delivered, or handed
/// back unchanged.
pub open spec fn send_result_of(command: ToWindow, sent: Result<(), ToWindow>) -> bool {
    sent is Ok || sent == Err::<(), ToWindow>(command)
}

/// `r` is what `size` returns when its send gave `sent` and, if the send
/// succeeded, its blocking receive gave `reply`; after a failed send no
/// reply is awaited.
pub open spec fn size_query_fits(
    sent: Result<(), ToWindow>,
    reply: Option<ToLuau>,
    r: Result<(i32, i32), BridgeError>,
) -> bool {
    match sent {
        Err(c) => r == Err::<(i32, i32), BridgeError>(BridgeError::Undelivered(c)),
        Ok(()) => size_fits(reply, r),
    }
}

/// The host's handle on one window.
pub struct WebviewIpc {
    pub sender: Sender<ToWindow>,
    pub receiver: Receiver<ToLuau>,
}

/// Creates the two channels of a new window: the host's handle, and the
/// window thread's ends with the window's title.
pub fn create_bridge(title: String) -> (r: (WebviewIpc, WindowThread))
    ensures
        r.1.title@ == title@,
{
    let (to_luau_tx, to_luau_rx) = unbounded_channel::<ToLuau>();
    let (to_window_tx, to_window_rx) = unbounded_channel::<ToWindow>();
    let ipc = WebviewIpc { sender: to_window_tx, receiver: to_luau_rx };
    (ipc, WindowThread::new(title, to_luau_tx, to_window_rx))
}

impl WebviewIpc {
    /// Queues a command for the window thread; it fails only when the
    /// window thread is gone, and then hands the command back.
    pub fn send_command(&self, command: ToWindow) -> (r: Result<(), BridgeError>)
        ensures
            exists|sent: Result<(), ToWindow>|
                send_result_of(command, sent) && #[trigger] delivery_fits(sent, r),
    {
        let sent = send_message(&self.sender, command);
        let ghost s = sent;
        let r = delivery_outcome(sent);
        assert(send_result_of(command, s) && delivery_fits(s, r));
        r
    }

    /// Asks the window thread to show `markup` as the page body.
    pub fn replace_html_text(&self, markup: String) -> (r: Result<(), BridgeError>)
        ensures
            exists|sent: Result<(), ToWindow>|
                send_result_of(ToWindow::ReplaceHtml(markup), sent) && #[trigger] delivery_fits(sent, r),
    {
        self.send_command(ToWindow::ReplaceHtml(markup))
    }

    /// Asks the window thread to show the markup given as raw bytes from
    /// the host, read as UTF-8 with invalid runs replaced.
    pub fn replace_html(&self, new_html: &[u8]) -> (r: Result<(), BridgeError>)
        ensures
            exists|markup: String, sent: Result<(), ToWindow>|
                markup@ == lossy_text(new_html@) && #[trigger] send_result_of(
                    ToWindow::ReplaceHtml(markup),
                    sent,
                ) && delivery_fits(sent, r),
    {
        let markup = text_from_bytes(new_html);
        let ghost m = markup;
        let r = self.replace_html_text(markup);
        let ghost s = choose|sent: Result<(), ToWindow>|
            send_result_of(ToWindow::ReplaceHtml(m), sent) && #[trigger] delivery_fits(sent, r);
        assert(send_result_of(ToWindow::ReplaceHtml(m), s) && delivery_fits(s, r));
        r
    }

    /// Polls the event channel without blocking.
    pub fn try_read(&self) -> (r: Result<Option<String>, BridgeError>)
        ensures
            exists|polled: Result<ToLuau, RecvFailure>| #[trigger] read_fits(polled, r),
    {
        let polled = try_receive(&self.receiver);
        let ghost p = polled;
        let r = read_outcome(polled);
        assert(read_fits(p, r));
        r
    }

    /// Asks the window thread to request (or clear) the user's attention.
    pub fn alert(&self, enabled: bool) -> (r: Result<(), BridgeError>)
        ensures
            exists|sent: Result<(), ToWindow>|
                send_result_of(ToWindow::SetAlert(enabled), sent) && #[trigger] delivery_fits(sent, r),
    {
        self.send_command(ToWindow::SetAlert(enabled))
    }

    /// Asks the window thread for the window's size and blocks until the
    /// reply. At most one size query may be outstanding at a time.
    pub fn size(&self) -> (r: Result<(i32, i32), BridgeError>)
        ensures
            exists|sent: Result<(), ToWindow>, reply: Option<ToLuau>|
                send_result_of(ToWindow::SizeRequested, sent) && #[trigger] size_query_fits(
                    sent,
                    reply,
                    r,
                ),
    {
        let sent = send_message(&self.sender, ToWindow::SizeRequested);
        let ghost s = sent;
        match delivery_outcome(sent) {
            Err(e) => {
                let r: Result<(i32, i32), BridgeError> = Err(e);
                assert(size_query_fits(s, None, r));
                return r;
            },
            Ok(()) => {},
        }
        let reply = receive(&self.receiver);
        let ghost p = reply;
        let r = size_outcome(reply);
        assert(size_query_fits(s, p, r));
        r
    }

    /// Asks the window thread to close the window and end.
    pub fn close(&self) -> (r: Result<(), BridgeError>)
        ensures
            exists|sent: Result<(), ToWindow>|
                send_result_of(ToWindow::Close, sent) && #[trigger] delivery_fits(sent, r),
    {
        self.send_command(ToWindow::Close)
    }
}

} // verus!
