//! The small protocol spoken by the rendered content: messages that start
//! with `input!` ask the window thread for a window-chrome action, every
//! other message is application content for the host.

use vstd::prelude::*;
use crate::text::{chars_of, i32_value, parse_i32, range_equals};

verus! {

broadcast use vstd::string::group_string_axioms;

/// A window-chrome action asked for by the rendered content.
#[derive(Debug, Clone, Copy, PartialEq, Eq, Structural)]
pub enum ChromeRequest {
    Minimize,
    Maximize,
    DragWindow,
    CloseWindow,
    MouseDown(i32, i32),
    MouseMove(i32, i32),
}

/// What a message from the rendered content asks of the window thread.
#[derive(Debug)]
pub enum UserEvent {
    /// A window-chrome action, performed on the window thread.
    Chrome(ChromeRequest),
    /// Application content, handed on to the host verbatim.
    SendIpc(String),
}

/// Why a reserved pointer message could not be read.
#[derive(Debug, Clone, Copy, PartialEq, Eq, Structural)]
pub enum IpcParseError {
    /// A coordinate field is absent.
    MissingCoordinate,
    /// A coordinate field is not a decimal `i32`.
    BadCoordinate,
}

pub open spec fn reserved_prefix() -> Seq<char> {
    seq!['i', 'n', 'p', 'u', 't', '!']
}

pub open spec fn has_reserved_prefix(body: Seq<char>) -> bool {
    body.len() >= 6 && body.take(6) == reserved_prefix()
}

pub open spec fn is_field_separator(c: char) -> bool {
    c == ':' || c == ','
}

/// The end of the field that starts at `start`: the first separator at or
/// after `start`, or the end of `s`.
pub open spec fn field_end(s: Seq<char>, start: int) -> int
    decreases s.len() - start,
{
    if start >= s.len() {
        s.len() as int
    } else if is_field_separator(s[start]) {
        start
    } else {
        field_end(s, start + 1)
    }
}

/// The two coordinates that follow the command name of a pointer message;
/// `name_end` is where the name ends in `rest`.
pub open spec fn pointer_coordinates(rest: Seq<char>, name_end: int) -> Result<(i32, i32), IpcParseError> {
    if name_end >= rest.len() {
        Err(IpcParseError::MissingCoordinate)
    } else {
        let x_end = field_end(rest, name_end + 1);
        match i32_value(rest.subrange(name_end + 1, x_end)) {
            None => Err(IpcParseError::BadCoordinate),
            Some(x) => if x_end >= rest.len() {
                Err(IpcParseError::MissingCoordinate)
            } else {
                let y_end = field_end(rest, x_end + 1);
                match i32_value(rest.subrange(x_end + 1, y_end)) {
                    None => Err(IpcParseError::BadCoordinate),
                    Some(y) => Ok((x, y)),
                }
            },
        }
    }
}

/// The chrome action that `body` asks for, if `body` is a reserved message:
/// the prefix `input!`, then one of the command names, up to the first `:`
/// or `,` (what follows a name that takes no coordinates is ignored).
/// `None` for every other message, which is application content.
pub open spec fn reserved_request(body: Seq<char>) -> Option<Result<ChromeRequest, IpcParseError>> {
    if !has_reserved_prefix(body) {
        None
    } else {
        let rest = body.skip(6);
        let name_end = field_end(rest, 0);
        let name = rest.take(name_end);
        if name == "minimize"@ {
            Some(Ok(ChromeRequest::Minimize))
        } else if name == "maximize"@ {
            Some(Ok(ChromeRequest::Maximize))
        } else if name == "drag_window"@ {
            Some(Ok(ChromeRequest::DragWindow))
        } else if name == "close"@ {
            Some(Ok(ChromeRequest::CloseWindow))
        } else if name == "mousedown"@ {
            Some(
                match pointer_coordinates(rest, name_end) {
                    Ok((x, y)) => Ok(ChromeRequest::MouseDown(x, y)),
                    Err(e) => Err(e),
                },
            )
        } else if name == "mousemove"@ {
            Some(
                match pointer_coordinates(rest, name_end) {
                    Ok((x, y)) => Ok(ChromeRequest::MouseMove(x, y)),
                    Err(e) => Err(e),
                },
            )
        } else {
            None
        }
    }
}

/// Where the field of `s` that starts at `start` ends.
fn find_field_end(s: &Vec<char>, start: usize) -> (r: usize)
    requires
        start <= s@.len(),
    ensures
        r == field_end(s@, start as int),
        start <= r <= s@.len(),
{
    let mut i = start;
    while i < s.len() && s[i] != ':' && s[i] != ','
        invariant
            start <= i <= s@.len(),
            field_end(s@, start as int) == field_end(s@, i as int),
        decreases s@.len() - i,
    {
        i += 1;
    }
    i
}

/// Reads the coordinates of a pointer message whose name ends at `name_end`
/// (an index into `s`, which holds the message after its prefix).
fn read_pointer_coordinates(s: &Vec<char>, name_end: usize) -> (r: Result<(i32, i32), IpcParseError>)
    requires
        name_end <= s@.len(),
    ensures
        r == pointer_coordinates(s@, name_end as int),
{
    if name_end >= s.len() {
        return Err(IpcParseError::MissingCoordinate);
    }
    let x_end = find_field_end(s, name_end + 1);
    let x = match parse_i32(s, name_end + 1, x_end) {
        None => return Err(IpcParseError::BadCoordinate),
        Some(x) => x,
    };
    if x_end >= s.len() {
        return Err(IpcParseError::MissingCoordinate);
    }
    let y_end = find_field_end(s, x_end + 1);
    match parse_i32(s, x_end + 1, y_end) {
        None => Err(IpcParseError::BadCoordinate),
        Some(y) => Ok((x, y)),
    }
}

/// Reads a message posted by the rendered content.
///
/// A reserved message becomes the chrome action it names, or the reason its
/// coordinates could not be read; any other message is handed on whole as
/// application content.
pub fn parse_ipc_message(body: String) -> (r: Result<UserEvent, IpcParseError>)
    ensures
        match reserved_request(body@) {
            None => r matches Ok(UserEvent::SendIpc(s)) && s@ == body@,
            Some(Ok(c)) => r == Ok::<UserEvent, IpcParseError>(UserEvent::Chrome(c)),
            Some(Err(e)) => r == Err::<UserEvent, IpcParseError>(e),
        },
{
    let all = chars_of(body.as_str());
    if all.len() < 6 || !range_equals(&all, 0, 6, "input!") {
        proof {
            reveal_strlit("input!");
            assert("input!"@ =~= reserved_prefix());
        }
        return Ok(UserEvent::SendIpc(body));
    }
    proof {
        reveal_strlit("input!");
        assert("input!"@ =~= reserved_prefix());
    }
    let mut rest: Vec<char> = Vec::new();
    let mut i: usize = 6;
    while i < all.len()
        invariant
            6 <= i <= all@.len(),
            rest@ == all@.subrange(6, i as int),
        decreases all@.len() - i,
    {
        rest.push(all[i]);
        i += 1;
    }
    assert(rest@ =~= body@.skip(6));
    let name_end = find_field_end(&rest, 0);
    assert(rest@.subrange(0, name_end as int) =~= rest@.take(name_end as int));
    if range_equals(&rest, 0, name_end, "minimize") {
        Ok(UserEvent::Chrome(ChromeRequest::Minimize))
    } else if range_equals(&rest, 0, name_end, "maximize") {
        Ok(UserEvent::Chrome(ChromeRequest::Maximize))
    } else if range_equals(&rest, 0, name_end, "drag_window") {
        Ok(UserEvent::Chrome(ChromeRequest::DragWindow))
    } else if range_equals(&rest, 0, name_end, "close") {
        Ok(UserEvent::Chrome(ChromeRequest::CloseWindow))
    } else if range_equals(&rest, 0, name_end, "mousedown") {
        match read_pointer_coordinates(&rest, name_end) {
            Ok((x, y)) => Ok(UserEvent::Chrome(ChromeRequest::MouseDown(x, y))),
            Err(e) => Err(e),
        }
    } else if range_equals(&rest, 0, name_end, "mousemove") {
        match read_pointer_coordinates(&rest, name_end) {
            Ok((x, y)) => Ok(UserEvent::Chrome(ChromeRequest::MouseMove(x, y))),
            Err(e) => Err(e),
        }
    } else {
        Ok(UserEvent::SendIpc(body))
    }
}

} // verus!
