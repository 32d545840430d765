//! Switching focus-follows-mouse on and off by a hotkey.
//!
//! The machine makes no system call itself. Each step it names one request; whoever drives it
//! performs the request and hands the answer back as an event.

use crate::tracking::as_bool;
use vstd::prelude::*;

verus! {

/// Whether a hotkey went down or up.
#[derive(Debug, Clone, Copy, PartialEq, Eq, Structural)]
pub enum HotKeyState {
    Pressed,
    Released,
}

/// What the machine wants done next.
#[derive(Debug, Clone, Copy, PartialEq, Eq, Structural)]
pub enum HotKeyRequest {
    /// Wait for a window message.
    GetMessage,
    /// Dispatch the message.
    DispatchMessage,
    /// Take the next hotkey event that has arrived, if there is one.
    TakeHotKey,
    /// Switch following the mouse over.
    Toggle,
    /// Nothing: the machine has stopped.
    Stop,
}

/// What came of a request.
#[derive(Debug, Clone, Copy, PartialEq, Eq, Structural)]
pub enum HotKeyEvent {
    /// What `GetMessageW` returned.
    Message { returned: i32 },
    Dispatched,
    HotKey(Option<HotKeyState>),
    Toggled,
}

/// The request made after an event, if the event answers the last request.
pub open spec fn request_after(request: HotKeyRequest, event: HotKeyEvent) -> Option<HotKeyRequest> {
    match (request, event) {
        (HotKeyRequest::GetMessage, HotKeyEvent::Message { returned }) => Some(
            if returned != 0 {
                HotKeyRequest::DispatchMessage
            } else {
                HotKeyRequest::Stop
            },
        ),
        (HotKeyRequest::DispatchMessage, HotKeyEvent::Dispatched) => Some(
            HotKeyRequest::TakeHotKey,
        ),
        (HotKeyRequest::TakeHotKey, HotKeyEvent::HotKey(hotkey)) => Some(
            match hotkey {
                None => HotKeyRequest::GetMessage,
                Some(HotKeyState::Pressed) => HotKeyRequest::Toggle,
                Some(HotKeyState::Released) => HotKeyRequest::TakeHotKey,
            },
        ),
        (HotKeyRequest::Toggle, HotKeyEvent::Toggled) => Some(HotKeyRequest::TakeHotKey),
        _ => None,
    }
}

/// The machine: it waits for the answer to one request.
#[derive(Debug)]
pub struct HotKeyListener {
    request: HotKeyRequest,
}

impl View for HotKeyListener {
    type V = HotKeyRequest;

    closed spec fn view(&self) -> HotKeyRequest {
        self.request
    }
}

impl HotKeyListener {
    /// A machine that waits for the first message.
    pub fn new() -> (listener: HotKeyListener)
        ensures
            listener@ == HotKeyRequest::GetMessage,
    {
        HotKeyListener { request: HotKeyRequest::GetMessage }
    }

    /// What the machine wants done next.
    pub fn request(&self) -> (request: HotKeyRequest)
        ensures
            request == self@,
    {
        self.request
    }

    /// Takes the answer to the last request and gives the next one. An event that does not
    /// answer the last request changes nothing and gives `None`.
    pub fn step(&mut self, event: HotKeyEvent) -> (request: Option<HotKeyRequest>)
        ensures
            request == request_after(old(self)@, event),
            match request_after(old(self)@, event) {
                Some(next) => final(self)@ == next,
                None => final(self)@ == old(self)@,
            },
    {
        let next = match (self.request, event) {
            (HotKeyRequest::GetMessage, HotKeyEvent::Message { returned }) => {
                if as_bool(returned) {
                    HotKeyRequest::DispatchMessage
                } else {
                    HotKeyRequest::Stop
                }
            },
            (HotKeyRequest::DispatchMessage, HotKeyEvent::Dispatched) => HotKeyRequest::TakeHotKey,
            (HotKeyRequest::TakeHotKey, HotKeyEvent::HotKey(hotkey)) => match hotkey {
                None => HotKeyRequest::GetMessage,
                Some(HotKeyState::Pressed) => HotKeyRequest::Toggle,
                Some(HotKeyState::Released) => HotKeyRequest::TakeHotKey,
            },
            (HotKeyRequest::Toggle, HotKeyEvent::Toggled) => HotKeyRequest::TakeHotKey,
            _ => {
                return None;
            },
        };
        self.request = next;
        Some(next)
    }
}

/// Whether following the mouse is switched on after it was switched over.
pub fn toggle(enabled: bool) -> (toggled: bool)
    ensures
        toggled == !enabled,
{
    !enabled
}

/// How often the hotkey was pressed.
pub open spec fn presses(hotkeys: Seq<HotKeyState>) -> nat
    decreases hotkeys.len(),
{
    if hotkeys.len() == 0 {
        0
    } else {
        presses(hotkeys.drop_first()) + if hotkeys[0] == HotKeyState::Pressed {
            1nat
        } else {
            0nat
        }
    }
}

/// Drives the machine through the hotkey events that have arrived: the request that it ends
/// with, and whether following the mouse is then switched on.
pub open spec fn drain(
    request: HotKeyRequest,
    hotkeys: Seq<HotKeyState>,
    enabled: bool,
) -> (HotKeyRequest, bool)
    decreases hotkeys.len(),
{
    if hotkeys.len() == 0 {
        match request_after(request, HotKeyEvent::HotKey(None)) {
            Some(next) => (next, enabled),
            None => (request, enabled),
        }
    } else {
        match request_after(request, HotKeyEvent::HotKey(Some(hotkeys[0]))) {
            Some(HotKeyRequest::Toggle) => match request_after(
                HotKeyRequest::Toggle,
                HotKeyEvent::Toggled,
            ) {
                Some(next) => drain(next, hotkeys.drop_first(), !enabled),
                None => (HotKeyRequest::Toggle, !enabled),
            },
            Some(next) => drain(next, hotkeys.drop_first(), enabled),
            None => (request, enabled),
        }
    }
}

/// Every press that has arrived switches following the mouse over, releases do not, and the
/// machine then waits for the next message. So an even number of presses leaves all as it was.
pub proof fn every_press_toggles(hotkeys: Seq<HotKeyState>, enabled: bool)
    ensures
        drain(HotKeyRequest::TakeHotKey, hotkeys, enabled) == (
            HotKeyRequest::GetMessage,
            enabled == (presses(hotkeys) % 2 == 0),
        ),
    decreases hotkeys.len(),
{
    if hotkeys.len() > 0 {
        every_press_toggles(
            hotkeys.drop_first(),
            if hotkeys[0] == HotKeyState::Pressed {
                !enabled
            } else {
                enabled
            },
        );
    }
}

/// An event is taken exactly if it is of the sort that the request asks for; a machine that has
/// stopped takes none.
pub proof fn only_an_answer_is_taken(request: HotKeyRequest, event: HotKeyEvent)
    ensures
        request_after(request, event) is Some <==> {
            ||| request == HotKeyRequest::GetMessage && event is Message
            ||| request == HotKeyRequest::DispatchMessage && event is Dispatched
            ||| request == HotKeyRequest::TakeHotKey && event is HotKey
            ||| request == HotKeyRequest::Toggle && event is Toggled
        },
{
}

/// The machine stops exactly if it waits for a message and the call returns zero. A message with
/// any other return, below zero too, is dispatched, and then the hotkeys that have arrived are
/// taken.
pub proof fn only_zero_stops(request: HotKeyRequest, event: HotKeyEvent, returned: i32)
    ensures
        request_after(request, event) == Some(HotKeyRequest::Stop) <==> request
            == HotKeyRequest::GetMessage && event == (HotKeyEvent::Message { returned: 0 }),
        returned != 0 ==> request_after(
            HotKeyRequest::GetMessage,
            HotKeyEvent::Message { returned },
        ) == Some(HotKeyRequest::DispatchMessage),
        request_after(HotKeyRequest::DispatchMessage, HotKeyEvent::Dispatched) == Some(
            HotKeyRequest::TakeHotKey,
        ),
{
}

/// Following the mouse is switched over exactly if a press was taken. A hotkey, pressed or
/// released, leads to taking the next, and only when none is left is a message waited for.
pub proof fn only_a_press_toggles(request: HotKeyRequest, event: HotKeyEvent, hotkey: HotKeyState)
    ensures
        request_after(request, event) == Some(HotKeyRequest::Toggle) <==> request
            == HotKeyRequest::TakeHotKey && event == HotKeyEvent::HotKey(
            Some(HotKeyState::Pressed),
        ),
        request_after(request, event) == Some(HotKeyRequest::GetMessage) <==> request
            == HotKeyRequest::TakeHotKey && event == HotKeyEvent::HotKey(None),
        request_after(request, event) == Some(HotKeyRequest::TakeHotKey) <==> {
            ||| request == HotKeyRequest::DispatchMessage && event == HotKeyEvent::Dispatched
            ||| request == HotKeyRequest::Toggle && event == HotKeyEvent::Toggled
            ||| request == HotKeyRequest::TakeHotKey && event == HotKeyEvent::HotKey(
                Some(HotKeyState::Released),
            )
        },
{
}

/// A message: what the call that waits for it returned, and the hotkey events that have arrived
/// by the time it was dispatched.
pub struct Delivery {
    pub returned: i32,
    pub hotkeys: Seq<HotKeyState>,
}

/// Drives the machine through messages, each with its hotkey events: the request that it ends
/// with, and whether following the mouse is then switched on.
pub open spec fn deliver(
    request: HotKeyRequest,
    deliveries: Seq<Delivery>,
    enabled: bool,
) -> (HotKeyRequest, bool)
    decreases deliveries.len(),
{
    if deliveries.len() == 0 {
        (request, enabled)
    } else {
        let (before, enabled) = deliver(request, deliveries.drop_last(), enabled);
        let last = deliveries.last();
        match request_after(before, HotKeyEvent::Message { returned: last.returned }) {
            None => (before, enabled),
            Some(received) => match request_after(received, HotKeyEvent::Dispatched) {
                None => (received, enabled),
                Some(dispatched) => drain(dispatched, last.hotkeys, enabled),
            },
        }
    }
}

/// How often the hotkey was pressed over all messages.
pub open spec fn presses_delivered(deliveries: Seq<Delivery>) -> nat
    decreases deliveries.len(),
{
    if deliveries.len() == 0 {
        0
    } else {
        presses_delivered(deliveries.drop_last()) + presses(deliveries.last().hotkeys)
    }
}

/// Over messages whose calls all return other than zero, following the mouse is switched over
/// once for every press, and the machine ends waiting for the next message.
pub proof fn every_press_of_a_run_toggles(deliveries: Seq<Delivery>, enabled: bool)
    requires
        forall|i: int|
            0 <= i < deliveries.len() ==> (#[trigger] deliveries[i]).returned != 0,
    ensures
        deliver(HotKeyRequest::GetMessage, deliveries, enabled) == (
            HotKeyRequest::GetMessage,
            enabled == (presses_delivered(deliveries) % 2 == 0),
        ),
    decreases deliveries.len(),
{
    if deliveries.len() > 0 {
        let rest = deliveries.drop_last();
        assert forall|i: int| 0 <= i < rest.len() implies (#[trigger] rest[i]).returned != 0 by {
            assert(rest[i] == deliveries[i]);
        }
        every_press_of_a_run_toggles(rest, enabled);
        assert(deliveries.last() == deliveries[deliveries.len() - 1]);
        every_press_toggles(
            deliveries.last().hotkeys,
            enabled == (presses_delivered(rest) % 2 == 0),
        );
    }
}

/// Once a call has returned zero the machine has stopped, and whatever is delivered later
/// changes nothing.
pub proof fn a_stopped_run_changes_nothing(
    before: Seq<Delivery>,
    last: Delivery,
    later: Seq<Delivery>,
    enabled: bool,
)
    requires
        forall|i: int| 0 <= i < before.len() ==> (#[trigger] before[i]).returned != 0,
        last.returned == 0,
    ensures
        deliver(HotKeyRequest::GetMessage, before.push(last) + later, enabled) == (
            HotKeyRequest::Stop,
            enabled == (presses_delivered(before) % 2 == 0),
        ),
    decreases later.len(),
{
    if later.len() == 0 {
        let all = before.push(last);
        assert(all + later =~= all);
        assert(all.drop_last() =~= before);
        every_press_of_a_run_toggles(before, enabled);
    } else {
        let all = before.push(last) + later;
        assert(all.drop_last() =~= before.push(last) + later.drop_last());
        a_stopped_run_changes_nothing(before, last, later.drop_last(), enabled);
    }
}

} // verus!
