//! What holds of a turn of the machine that follows the mouse, request by request.

use crate::movement::{
    chars_of, request_of, ButtonAction, Event, EventModel, Input, ListenerModel, Phase, Request,
};
use crate::run_laws::run;
use vstd::prelude::*;

verus! {

/// Whether an event is taken, and a request made in answer to it.
pub open spec fn leads_to(state: ListenerModel, event: EventModel, request: Request) -> bool {
    state.after(event) matches Some(next) && request_of(next.phase) == request
}

/// An event is told as it came: the machine's view of it keeps every number and every character.
pub proof fn an_event_is_taken_as_it_came(event: Event, text: String)
    ensures
        match event {
            Event::Running(running) => event@ == EventModel::Running(running),
            Event::Input(input) => event@ == EventModel::Input(input),
            Event::CacheAge { nanos } => event@ == (EventModel::CacheAge { nanos: nanos as int }),
            Event::CacheClockRestarted => event@ is CacheClockRestarted,
            Event::Windows { at_cursor, foreground } => event@ == (EventModel::Windows {
                at_cursor,
                foreground,
            }),
            Event::Ancestor(root) => event@ == EventModel::Ancestor(root),
            Event::Class(class) => event@ == EventModel::Class(chars_of(class)),
            Event::Hwnds(raw_hwnds) => event@ == EventModel::Hwnds(chars_of(raw_hwnds)),
            Event::ExStyles { root_style, foreground_style } => event@ == (EventModel::ExStyles {
                root_style,
                foreground_style,
            }),
            Event::Enabled(enabled) => event@ == EventModel::Enabled(enabled),
            Event::Raised => event@ is Raised,
        },
        chars_of(Some(text)) == Some(text@),
        chars_of(None) is None,
{
}

/// A machine that has seen nothing asks whether to go on, holds no button down, remembers nothing
/// of any window and keeps what it was made with.
pub proof fn a_new_machine_knows_nothing(no_raise: bool, uses_hwnds: bool, hwnd: isize)
    ensures
        ({
            let start = ListenerModel::initial(no_raise, uses_hwnds);
            &&& request_of(start.phase) == Request::CheckRunning
            &&& !start.is_mouse_down
            &&& start.no_raise == no_raise
            &&& start.uses_hwnds == uses_hwnds
            &&& !start.caches.eligibility.contains_key(hwnd)
            &&& !start.caches.class.contains_key(hwnd)
            &&& !start.caches.hwnd_pair.contains_key(hwnd)
            &&& !start.caches.root_hwnd.contains_key(hwnd)
        }),
{
}

/// An event is taken exactly if it is of the sort that the last request asks for. So the machine
/// never waits for an answer that it would refuse, and one that has stopped takes none.
pub proof fn only_an_answer_is_taken(state: ListenerModel, event: EventModel)
    ensures
        state.after(event) is Some <==> match request_of(state.phase) {
            Request::CheckRunning => event is Running,
            Request::NextEvent => event is Input,
            Request::CheckCacheAge => event is CacheAge,
            Request::RestartCacheClock => event is CacheClockRestarted,
            Request::LocateWindows => event is Windows,
            Request::GetAncestor { .. } => event is Ancestor,
            Request::GetClass { .. } => event is Class,
            Request::ReadHwnds => event is Hwnds,
            Request::GetExStyles { .. } => event is ExStyles,
            Request::CheckEnabled => event is Enabled,
            Request::Raise { .. } => event is Raised,
            Request::Stop => false,
        },
{
}

/// No event changes what the machine was made with.
pub proof fn a_machine_keeps_what_it_was_made_with(state: ListenerModel, event: EventModel)
    requires
        state.after(event) is Some,
    ensures
        (state.after(event)->0).no_raise == state.no_raise,
        (state.after(event)->0).uses_hwnds == state.uses_hwnds,
{
}

/// Told not to go on, the machine stops; told to go on, it asks for an input message at once where
/// focus is left to the system, and else for the age of the caches. It does neither otherwise.
pub proof fn a_turn_begins_when_told_to_go_on(state: ListenerModel, event: EventModel)
    ensures
        leads_to(state, event, Request::Stop) <==> request_of(state.phase) == Request::CheckRunning
            && event == EventModel::Running(false),
        leads_to(state, event, Request::CheckCacheAge) <==> request_of(state.phase)
            == Request::CheckRunning && event == EventModel::Running(true) && !state.no_raise,
        request_of(state.phase) == Request::CheckRunning ==> (leads_to(
            state,
            event,
            Request::NextEvent,
        ) <==> event == EventModel::Running(true) && state.no_raise),
        request_of(state.phase) == Request::CheckRunning && state.after(event) is Some ==> (
        state.after(event)->0).caches == state.caches,
        request_of(state.phase) == Request::CheckRunning && state.after(event) is Some ==> (
        state.after(event)->0).is_mouse_down == state.is_mouse_down,
{
}

/// Whatever the age of the caches, an input message is asked for: right away and with nothing
/// forgotten if they are at most ten minutes old, and else once the clock is set back and
/// everything forgotten.
pub proof fn every_age_leads_to_an_input(state: ListenerModel, nanos: int, hwnd: isize)
    requires
        request_of(state.phase) == Request::CheckCacheAge,
    ensures
        nanos <= 600_000_000_000 ==> {
            &&& state.after(EventModel::CacheAge { nanos }) matches Some(next)
            &&& next.phase == Phase::Listening
            &&& request_of(next.phase) == Request::NextEvent
            &&& next.caches == state.caches
            &&& next.is_mouse_down == state.is_mouse_down
        },
        nanos > 600_000_000_000 ==> {
            &&& state.after(EventModel::CacheAge { nanos }) matches Some(next)
            &&& request_of(next.phase) == Request::RestartCacheClock
            &&& next.is_mouse_down == state.is_mouse_down
            &&& !next.caches.eligibility.contains_key(hwnd)
            &&& !next.caches.class.contains_key(hwnd)
            &&& !next.caches.hwnd_pair.contains_key(hwnd)
            &&& !next.caches.root_hwnd.contains_key(hwnd)
            &&& next.after(EventModel::CacheClockRestarted) matches Some(last)
            &&& last.phase == Phase::Listening
            &&& request_of(last.phase) == Request::NextEvent
            &&& last.caches == next.caches
            &&& last.is_mouse_down == state.is_mouse_down
        },
{
}

/// Unless focus is left to the system, every turn of a running program takes an input message,
/// and takes notice of it: told to go on, the machine asks for the age of the caches, and
/// whatever it is told, it then listens.
pub proof fn every_turn_takes_an_input(state: ListenerModel, nanos: int)
    requires
        request_of(state.phase) == Request::CheckRunning,
        !state.no_raise,
    ensures
        ({
            let told_to_go_on = seq![EventModel::Running(true), EventModel::CacheAge { nanos }];
            let events = if nanos > 600_000_000_000 {
                told_to_go_on.push(EventModel::CacheClockRestarted)
            } else {
                told_to_go_on
            };
            let listening = run(state, events);
            &&& listening.phase == Phase::Listening
            &&& request_of(listening.phase) == Request::NextEvent
            &&& listening.is_mouse_down == state.is_mouse_down
            &&& nanos <= 600_000_000_000 ==> listening.caches == state.caches
        }),
{
    reveal_with_fuel(run, 4);
    let told_to_go_on = seq![EventModel::Running(true), EventModel::CacheAge { nanos }];
    assert(told_to_go_on.drop_last() =~= seq![EventModel::Running(true)]);
    assert(told_to_go_on.drop_last().drop_last() =~= seq![]);
    assert(told_to_go_on.push(EventModel::CacheClockRestarted).drop_last() =~= told_to_go_on);
}

/// The clock is set back exactly if the caches are found to be older than ten minutes, and an
/// input message that is taken notice of is asked for exactly then or when they are found younger.
pub proof fn listening_comes_of_the_age_alone(state: ListenerModel, event: EventModel)
    ensures
        leads_to(state, event, Request::RestartCacheClock) <==> request_of(state.phase)
            == Request::CheckCacheAge && (event matches EventModel::CacheAge { nanos } && nanos
            > 600_000_000_000),
        leads_to(state, event, Request::NextEvent) <==> {
            ||| request_of(state.phase) == Request::CheckRunning && event == EventModel::Running(
                true,
            ) && state.no_raise
            ||| request_of(state.phase) == Request::CheckCacheAge && (
            event matches EventModel::CacheAge { nanos } && nanos <= 600_000_000_000)
            ||| request_of(state.phase) == Request::RestartCacheClock
                && event is CacheClockRestarted
        },
{
}

/// Windows are located only in answer to a movement of the mouse that is taken notice of while no
/// button counts as down. Every other input message ends the turn: nothing is remembered or
/// forgotten, and the machine asks whether to go on.
pub proof fn windows_are_located_for_a_movement_alone(
    state: ListenerModel,
    event: EventModel,
    input: Input,
)
    ensures
        leads_to(state, event, Request::LocateWindows) <==> {
            &&& state.phase == Phase::Listening
            &&& event == EventModel::Input(Input::MouseMoveRelative)
            &&& !state.is_mouse_down
        },
        request_of(state.phase) == Request::NextEvent && !(state.phase == Phase::Listening && input
            == Input::MouseMoveRelative && !state.is_mouse_down) ==> {
            &&& leads_to(state, EventModel::Input(input), Request::CheckRunning)
            &&& (state.after(EventModel::Input(input))->0).caches == state.caches
        },
{
}

/// A button counts as down from the press that is taken notice of until the release. Nothing else
/// changes whether one does.
pub proof fn a_button_is_down_from_press_to_release(state: ListenerModel, event: EventModel)
    requires
        state.after(event) is Some,
    ensures
        (state.after(event)->0).is_mouse_down == if state.phase == Phase::Listening && event
            == EventModel::Input(Input::MouseButton { action: ButtonAction::Press }) {
            true
        } else if state.phase == Phase::Listening && event == EventModel::Input(
            Input::MouseButton { action: ButtonAction::Release },
        ) {
            false
        } else {
            state.is_mouse_down
        },
{
}

/// Whether the machine waits for one of the answers with which a turn begins.
pub open spec fn is_at_the_outset(phase: Phase) -> bool {
    match request_of(phase) {
        Request::CheckRunning
        | Request::NextEvent
        | Request::CheckCacheAge
        | Request::RestartCacheClock
        | Request::Stop => true,
        _ => false,
    }
}

/// From a turn that begins with a button down, no window is asked about, let alone raised, for as
/// long as no button message comes.
pub proof fn a_held_button_keeps_windows_out(state: ListenerModel, events: Seq<EventModel>)
    requires
        is_at_the_outset(state.phase),
        state.is_mouse_down,
        forall|i: int|
            0 <= i < events.len() ==> !((#[trigger] events[i]) matches EventModel::Input(input)
                && input is MouseButton),
    ensures
        is_at_the_outset(run(state, events).phase),
        run(state, events).is_mouse_down,
    decreases events.len(),
{
    if events.len() > 0 {
        let rest = events.drop_last();
        assert forall|i: int| 0 <= i < rest.len() implies !((
        #[trigger] rest[i]) matches EventModel::Input(input) && input is MouseButton) by {
            assert(rest[i] == events[i]);
        }
        a_held_button_keeps_windows_out(state, rest);
        assert(events.last() == events[events.len() - 1]);
    }
}

/// In every state that the machine can come to, windows are asked about only while no button
/// counts as down.
pub proof fn windows_are_asked_about_with_no_button_down(
    no_raise: bool,
    uses_hwnds: bool,
    events: Seq<EventModel>,
)
    ensures
        ({
            let state = run(ListenerModel::initial(no_raise, uses_hwnds), events);
            !is_at_the_outset(state.phase) ==> !state.is_mouse_down
        }),
    decreases events.len(),
{
    if events.len() > 0 {
        windows_are_asked_about_with_no_button_down(no_raise, uses_hwnds, events.drop_last());
    }
}

/// The root that is told of a window is remembered of the window that was asked about, and the
/// class likewise. Old caches apart, roots and classes change in no other way.
pub proof fn roots_and_classes_are_remembered_as_told(state: ListenerModel, event: EventModel)
    requires
        state.after(event) is Some,
        !(event matches EventModel::CacheAge { nanos } && nanos > 600_000_000_000),
    ensures
        ({
            let next = state.after(event)->0;
            &&& next.caches.root_hwnd == match (request_of(state.phase), event) {
                (
                    Request::GetAncestor { hwnd },
                    EventModel::Ancestor(Some(root)),
                ) => state.caches.root_hwnd.insert(hwnd, root),
                _ => state.caches.root_hwnd,
            }
            &&& next.caches.class == match (request_of(state.phase), event) {
                (
                    Request::GetClass { hwnd },
                    EventModel::Class(Some(class)),
                ) => state.caches.class.insert(hwnd, class),
                _ => state.caches.class,
            }
        }),
{
}

/// Where following the mouse is found switched off, the turn ends; where it is found switched on, a
/// window is raised and the turn ends then. Nothing is remembered or forgotten either way.
pub proof fn the_switch_has_the_last_word(state: ListenerModel)
    requires
        request_of(state.phase) == Request::CheckEnabled,
    ensures
        leads_to(state, EventModel::Enabled(false), Request::CheckRunning),
        (state.after(EventModel::Enabled(false))->0).caches == state.caches,
        state.after(EventModel::Enabled(true)) matches Some(raising) && request_of(
            raising.phase,
        ) is Raise && raising.caches == state.caches && leads_to(
            raising,
            EventModel::Raised,
            Request::CheckRunning,
        ) && (raising.after(EventModel::Raised)->0).caches == state.caches,
{
}

} // verus!
