//! The decisions of the window thread.
//!
//! The native event loop calls `WindowThread::tick` once per iteration with
//! the native event of that iteration and what it knows of the window; the
//! tick takes at most one command off the command channel, sends the events
//! it owes to the host, and returns the window operations to perform.

use vstd::prelude::*;
use crossbeam_channel::{Receiver, Sender};
use crate::channel::{send_message, try_receive};
use crate::ipc::{ChromeRequest, UserEvent};
use crate::messages::{ToLuau, ToWindow};
use crate::page::{body_offset, lemma_page_embeds, page_text, render_page, PAGE_HEAD};
use crate::resize::{
    check_bounds,
    hit_region,
    spec_cursor_shape,
    spec_resize_edge,
    CursorShape,
    HitTestResult,
    ResizeEdge,
};

verus! {

/// A native event as the window thread sees it.
#[derive(Debug)]
pub enum NativeEvent {
    /// The loop has just started.
    Init,
    /// The user or the system asked to close the window.
    CloseRequested,
    /// A message posted by the rendered content, already parsed.
    User(UserEvent),
    /// Anything else; it asks for nothing.
    Other,
}

/// What the window thread reads off the native window in a tick.
#[derive(Debug, Clone, Copy, PartialEq, Eq, Structural)]
pub struct WindowFacts {
    /// Inner width in physical pixels.
    pub width: u32,
    /// Inner height in physical pixels.
    pub height: u32,
    /// Inner width in logical units (physical divided by the scale factor).
    pub logical_width: i32,
    /// Inner height in logical units.
    pub logical_height: i32,
    /// Whether the window is maximized.
    pub maximized: bool,
}

/// A best-effort operation on the native window.
#[derive(Debug, Clone, Copy, PartialEq, Eq, Structural)]
pub enum WindowAction {
    Minimize,
    SetMaximized(bool),
    DragWindow,
    DragResize(ResizeEdge),
    SetCursor(CursorShape),
}

/// What one tick asks of the native side and of the event channel.
#[derive(Debug)]
pub struct TickPlan {
    /// A page to load into the renderer.
    pub load_html: Option<String>,
    /// Request (`true`) or clear (`false`) the user's attention.
    pub attention: Option<bool>,
    /// A window operation asked for by the content.
    pub action: Option<WindowAction>,
    /// Events to send to the host, in order.
    pub outgoing: Vec<ToLuau>,
    /// Whether the loop ends after this tick.
    pub exit: bool,
}

/// What one tick did and what is left for the native side.
pub struct TickReport {
    pub load_html: Option<String>,
    pub attention: Option<bool>,
    pub action: Option<WindowAction>,
    pub exit: bool,
    /// The events handed to the event channel, in the order of the sends.
    pub handed: Ghost<Seq<ToLuau>>,
    /// For each event handed over, whether its send failed.
    pub failed: Ghost<Seq<bool>>,
    /// Events that could not be sent because the host side is gone; they
    /// are only worth a diagnostic.
    pub undelivered: Vec<ToLuau>,
}

/// Whether the tick closes the window: a `Close` command, a close request
/// from the system, or a close asked for by the content.
pub open spec fn closes(command: Option<ToWindow>, event: NativeEvent) -> bool {
    ||| command matches Some(ToWindow::Close)
    ||| event is CloseRequested
    ||| event matches NativeEvent::User(UserEvent::Chrome(ChromeRequest::CloseWindow))
}

pub open spec fn spec_load_html(title: Seq<char>, command: Option<ToWindow>) -> Option<Seq<char>> {
    match command {
        Some(ToWindow::ReplaceHtml(markup)) => Some(page_text(title, markup@)),
        _ => None,
    }
}

pub open spec fn spec_attention(command: Option<ToWindow>) -> Option<bool> {
    match command {
        Some(ToWindow::SetAlert(enabled)) => Some(enabled),
        _ => None,
    }
}

pub open spec fn spec_action(event: NativeEvent, facts: WindowFacts) -> Option<WindowAction> {
    match event {
        NativeEvent::User(UserEvent::Chrome(request)) => match request {
            ChromeRequest::Minimize => Some(WindowAction::Minimize),
            ChromeRequest::Maximize => Some(WindowAction::SetMaximized(!facts.maximized)),
            ChromeRequest::DragWindow => Some(WindowAction::DragWindow),
            ChromeRequest::CloseWindow => None,
            ChromeRequest::MouseDown(x, y) => match spec_resize_edge(
                hit_region(facts.logical_width as int, facts.logical_height as int, x as int, y as int),
            ) {
                Some(edge) => Some(WindowAction::DragResize(edge)),
                None => None,
            },
            ChromeRequest::MouseMove(x, y) => Some(
                WindowAction::SetCursor(
                    spec_cursor_shape(
                        hit_region(
                            facts.logical_width as int,
                            facts.logical_height as int,
                            x as int,
                            y as int,
                        ),
                    ),
                ),
            ),
        },
        _ => None,
    }
}

/// The events a tick owes the host, in order: the size reply, the content
/// message, and last the notice that the window is gone.
pub open spec fn spec_outgoing(command: Option<ToWindow>, event: NativeEvent, facts: WindowFacts) -> Seq<ToLuau> {
    let size: Seq<ToLuau> = if command matches Some(ToWindow::SizeRequested) {
        seq![ToLuau::SizeReturned(facts.logical_width, facts.logical_height)]
    } else {
        Seq::empty()
    };
    let content: Seq<ToLuau> = match event {
        NativeEvent::User(UserEvent::SendIpc(body)) => seq![ToLuau::IpcMessage(body)],
        _ => Seq::empty(),
    };
    let closed: Seq<ToLuau> = if closes(command, event) {
        seq![ToLuau::WindowClosed]
    } else {
        Seq::empty()
    };
    size + content + closed
}

/// The native-side part of a tick agrees with what `command` and `event`
/// ask for.
pub open spec fn native_part_fits(
    title: Seq<char>,
    command: Option<ToWindow>,
    event: NativeEvent,
    facts: WindowFacts,
    load_html: Option<String>,
    attention: Option<bool>,
    action: Option<WindowAction>,
    exit: bool,
) -> bool {
    &&& load_html is Some <==> spec_load_html(title, command) is Some
    &&& load_html matches Some(h) ==> h@ == spec_load_html(title, command)->0
    &&& attention == spec_attention(command)
    &&& action == spec_action(event, facts)
    &&& exit == closes(command, event)
}

/// The events of `sent` whose send failed, in order; `failed[i]` tells
/// whether the send of `sent[i]` failed.
pub open spec fn undelivered_of(sent: Seq<ToLuau>, failed: Seq<bool>) -> Seq<ToLuau>
    decreases sent.len(),
{
    if sent.len() == 0 {
        Seq::empty()
    } else {
        let before = undelivered_of(sent.drop_last(), failed);
        if failed[sent.len() - 1] {
            before.push(sent.last())
        } else {
            before
        }
    }
}

/// The window operation that a chrome request asks for.
fn chrome_action(request: ChromeRequest, facts: WindowFacts) -> (r: Option<WindowAction>)
    ensures
        r == spec_action(NativeEvent::User(UserEvent::Chrome(request)), facts),
{
    match request {
        ChromeRequest::Minimize => Some(WindowAction::Minimize),
        ChromeRequest::Maximize => Some(WindowAction::SetMaximized(!facts.maximized)),
        ChromeRequest::DragWindow => Some(WindowAction::DragWindow),
        ChromeRequest::CloseWindow => None,
        ChromeRequest::MouseDown(x, y) => {
            let region: HitTestResult = check_bounds(facts.logical_width, facts.logical_height, x, y);
            match region.resize_edge() {
                Some(edge) => Some(WindowAction::DragResize(edge)),
                None => None,
            }
        },
        ChromeRequest::MouseMove(x, y) => {
            let region: HitTestResult = check_bounds(facts.logical_width, facts.logical_height, x, y);
            Some(WindowAction::SetCursor(region.cursor_shape()))
        },
    }
}

/// Decides one tick of the window loop from the command taken off the
/// command channel (if any), the native event and the state of the window.
pub fn plan_tick(title: &str, command: Option<ToWindow>, event: NativeEvent, facts: WindowFacts) -> (r: TickPlan)
    ensures
        native_part_fits(title@, command, event, facts, r.load_html, r.attention, r.action, r.exit),
        r.outgoing@ == spec_outgoing(command, event, facts),
{
    let ghost command0 = command;
    let ghost event0 = event;
    let is_close = match &event {
        NativeEvent::CloseRequested => true,
        NativeEvent::User(UserEvent::Chrome(ChromeRequest::CloseWindow)) => true,
        _ => false,
    };
    let mut outgoing: Vec<ToLuau> = Vec::new();
    let mut load_html: Option<String> = None;
    let mut attention: Option<bool> = None;
    let mut exit = is_close;
    match command {
        Some(ToWindow::ReplaceHtml(markup)) => {
            load_html = Some(render_page(title, markup.as_str()));
        },
        Some(ToWindow::SetAlert(enabled)) => {
            attention = Some(enabled);
        },
        Some(ToWindow::SizeRequested) => {
            outgoing.push(ToLuau::SizeReturned(facts.logical_width, facts.logical_height));
        },
        Some(ToWindow::Close) => {
            exit = true;
        },
        None => {},
    }
    let action = match event {
        NativeEvent::User(UserEvent::Chrome(request)) => chrome_action(request, facts),
        NativeEvent::User(UserEvent::SendIpc(body)) => {
            outgoing.push(ToLuau::IpcMessage(body));
            None
        },
        _ => None,
    };
    if exit {
        outgoing.push(ToLuau::WindowClosed);
    }
    assert(outgoing@ =~= spec_outgoing(command0, event0, facts));
    TickPlan { load_html, attention, action, outgoing, exit }
}

/// The window thread's ends of the two channels, and the window's title.
pub struct WindowThread {
    pub title: String,
    pub events: Sender<ToLuau>,
    pub commands: Receiver<ToWindow>,
}

impl WindowThread {
    pub fn new(title: String, events: Sender<ToLuau>, commands: Receiver<ToWindow>) -> (r: Self)
        ensures
            r.title@ == title@,
            r.events == events,
            r.commands == commands,
    {
        WindowThread { title, events, commands }
    }

    /// Runs one tick: takes at most one command without blocking, decides
    /// the tick by `plan_tick`, and sends the events it owes the host in
    /// order; a failed send is reported back, never fatal.
    pub fn tick(&self, event: NativeEvent, facts: WindowFacts) -> (r: TickReport)
        ensures
            exists|command: Option<ToWindow>|
                {
                    &&& native_part_fits(
                        self.title@,
                        command,
                        event,
                        facts,
                        r.load_html,
                        r.attention,
                        r.action,
                        r.exit,
                    )
                    &&& r.handed@ == #[trigger] spec_outgoing(command, event, facts)
                },
            r.failed@.len() == r.handed@.len(),
            r.undelivered@ == undelivered_of(r.handed@, r.failed@),
    {
        let command = match try_receive(&self.commands) {
            Ok(c) => Some(c),
            Err(_) => None,
        };
        let ghost command0 = command;
        let plan = plan_tick(self.title.as_str(), command, event, facts);
        let TickPlan { load_html, attention, action, outgoing, exit } = plan;
        let ghost sent = outgoing@;
        let ghost mut failed: Seq<bool> = Seq::empty();
        let ghost mut handed: Seq<ToLuau> = Seq::empty();
        let mut undelivered: Vec<ToLuau> = Vec::new();
        let mut pending = outgoing;
        let mut k: usize = 0;
        while pending.len() > 0
            invariant
                sent.len() <= 3,
                k + pending@.len() == sent.len(),
                pending@ == sent.skip(k as int),
                failed.len() == k,
                handed == sent.take(k as int),
                undelivered@ == undelivered_of(sent.take(k as int), failed),
            decreases pending@.len(),
        {
            let msg = pending.remove(0);
            let ghost before = failed;
            proof {
                handed = handed.push(msg);
            }
            match send_message(&self.events, msg) {
                Ok(()) => {
                    proof {
                        failed = failed.push(false);
                    }
                },
                Err(back) => {
                    undelivered.push(back);
                    proof {
                        failed = failed.push(true);
                    }
                },
            }
            proof {
                assert(sent.take(k + 1).drop_last() =~= sent.take(k as int));
                assert(sent.take(k + 1).last() == sent[k as int]);
                lemma_undelivered_prefix(sent.take(k as int), before, failed);
            }
            k += 1;
        }
        assert(sent.take(k as int) =~= sent);
        assert(handed == spec_outgoing(command0, event, facts));
        TickReport {
            load_html,
            attention,
            action,
            exit,
            handed: Ghost(handed),
            failed: Ghost(failed),
            undelivered,
        }
    }
}

/// A `ReplaceHtml` command makes the tick load the page shell with the
/// window's title and, at the body's place, exactly the given markup.
pub proof fn lemma_replace_html_renders(title: Seq<char>, markup: String)
    ensures
        spec_load_html(title, Some(ToWindow::ReplaceHtml(markup))) == Some(page_text(title, markup@)),
        page_text(title, markup@).subrange(
            body_offset(title),
            body_offset(title) + markup@.len(),
        ) == markup@,
        page_text(title, markup@).subrange(
            PAGE_HEAD@.len() as int,
            (PAGE_HEAD@.len() + title.len()) as int,
        ) == title,
{
    lemma_page_embeds(title, markup@);
}

/// A size query yields exactly one size report, at the head of the tick's
/// events; a tick without one sends no size report at all.
pub proof fn lemma_size_report_once(command: Option<ToWindow>, event: NativeEvent, facts: WindowFacts)
    ensures
        command matches Some(ToWindow::SizeRequested) ==> spec_outgoing(command, event, facts)[0]
            == ToLuau::SizeReturned(facts.logical_width, facts.logical_height),
        forall|i: int|
            0 <= i < spec_outgoing(command, event, facts).len() && (#[trigger] spec_outgoing(
                command,
                event,
                facts,
            )[i]) is SizeReturned ==> i == 0 && command matches Some(ToWindow::SizeRequested),
{
}

/// A tick that processes `Close` ends the loop, whatever the native event;
/// the window-closed notice is sent exactly when the loop ends, and it is
/// the last event of the tick.
pub proof fn lemma_close_ends_loop(command: Option<ToWindow>, event: NativeEvent, facts: WindowFacts)
    ensures
        command matches Some(ToWindow::Close) ==> closes(command, event),
        closes(command, event) <==> (spec_outgoing(command, event, facts).len() > 0 && spec_outgoing(
            command,
            event,
            facts,
        ).last() is WindowClosed),
        forall|i: int|
            0 <= i < spec_outgoing(command, event, facts).len() && (#[trigger] spec_outgoing(
                command,
                event,
                facts,
            )[i]) is WindowClosed ==> i == spec_outgoing(command, event, facts).len() - 1,
{
}

/// Only the first `sent.len()` failure flags matter.
proof fn lemma_undelivered_prefix(sent: Seq<ToLuau>, f: Seq<bool>, g: Seq<bool>)
    requires
        sent.len() <= f.len(),
        sent.len() <= g.len(),
        forall|i: int| 0 <= i < sent.len() ==> f[i] == g[i],
    ensures
        undelivered_of(sent, f) == undelivered_of(sent, g),
    decreases sent.len(),
{
    if sent.len() > 0 {
        lemma_undelivered_prefix(sent.drop_last(), f, g);
    }
}

} // verus!
