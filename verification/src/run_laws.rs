//! What holds of the machine that follows the mouse, over its steps and whole runs.

use crate::caches::CachesModel;
use crate::eligibility::is_steam_pair;
use crate::movement::{
    request_of, ButtonAction, EventModel, Input, ListenerModel, Phase, Request,
    MAX_CACHE_AGE_NANOS,
};
use crate::movement_laws::{
    are_steam, both_judged, caches_after, contenders, raised, root_told, Surroundings,
};
use vstd::prelude::*;

verus! {

/// What the machine may rely on while it waits for an answer. It asks only for what is not
/// remembered, of two windows that are not known to belong together. A window that it is about
/// to raise is remembered as eligible. By a window manager's list, no window is ever remembered
/// as not eligible. Windows that are remembered to belong together are remembered with their
/// classes, which are Steam's.
pub open spec fn consistent(state: ListenerModel) -> bool {
    &&& match state.phase {
        Phase::FindingRoot { at_cursor, foreground } => {
            &&& at_cursor != foreground
            &&& state.caches.root_of(at_cursor) is None
        },
        Phase::ClassifyingRoot { cursor_root, foreground } => {
            &&& apart(state.caches, cursor_root, foreground)
            &&& state.caches.class_of(cursor_root) is None
        },
        Phase::ClassifyingForeground { cursor_root, foreground } => {
            &&& apart(state.caches, cursor_root, foreground)
            &&& state.caches.class_of(foreground) is None
        },
        Phase::ReadingHwnds { cursor_root, foreground } => {
            &&& apart(state.caches, cursor_root, foreground)
            &&& !both_judged(state.caches, cursor_root, foreground)
            &&& state.uses_hwnds
        },
        Phase::ReadingStyles { cursor_root, foreground } => {
            &&& apart(state.caches, cursor_root, foreground)
            &&& !both_judged(state.caches, cursor_root, foreground)
            &&& !state.uses_hwnds
        },
        Phase::Permitting { cursor_root } | Phase::Raising {
            cursor_root,
        } => state.caches.eligibility_of(cursor_root) == Some(true),
        _ => true,
    }
    &&& state.uses_hwnds ==> forall|h: isize| #[trigger]
        state.caches.eligibility.contains_key(h) ==> state.caches.eligibility[h]
    &&& forall|h: isize|
        (#[trigger] state.caches.paired_with(h)) matches Some(paired) ==> is_steam_pair(
            state.caches.class_of(h),
            state.caches.class_of(paired),
        )
}

/// Whether two windows differ and are not remembered to belong together.
pub open spec fn apart(caches: CachesModel, cursor_root: isize, foreground: isize) -> bool {
    cursor_root != foreground && caches.paired_with(cursor_root) != Some(foreground)
}

/// The state after a run of events; those that answer no request are passed over.
pub open spec fn run(state: ListenerModel, events: Seq<EventModel>) -> ListenerModel
    decreases events.len(),
{
    if events.len() == 0 {
        state
    } else {
        let before = run(state, events.drop_last());
        match before.after(events.last()) {
            Some(next) => next,
            None => before,
        }
    }
}

/// Every step keeps the machine consistent.
pub proof fn a_step_keeps_consistency(state: ListenerModel, event: EventModel)
    requires
        consistent(state),
        state.after(event) is Some,
    ensures
        consistent(state.after(event)->0),
{
    let next = state.after(event)->0;
    assert forall|h: isize| (#[trigger] next.caches.paired_with(h)) is Some implies is_steam_pair(
        next.caches.class_of(h),
        next.caches.class_of(next.caches.paired_with(h)->0),
    ) by {
        assert(state.caches.paired_with(h) matches Some(paired) ==> is_steam_pair(
            state.caches.class_of(h),
            state.caches.class_of(paired),
        ));
    }
}

/// The machine is consistent in every state that it can come to.
pub proof fn a_run_stays_consistent(no_raise: bool, uses_hwnds: bool, events: Seq<EventModel>)
    ensures
        consistent(run(ListenerModel::initial(no_raise, uses_hwnds), events)),
        run(ListenerModel::initial(no_raise, uses_hwnds), events).uses_hwnds == uses_hwnds,
        run(ListenerModel::initial(no_raise, uses_hwnds), events).no_raise == no_raise,
    decreases events.len(),
{
    if events.len() > 0 {
        a_run_stays_consistent(no_raise, uses_hwnds, events.drop_last());
        let before = run(ListenerModel::initial(no_raise, uses_hwnds), events.drop_last());
        if before.after(events.last()) is Some {
            a_step_keeps_consistency(before, events.last());
        }
    }
}

/// The caches are cleared when they are found older than ten minutes, all at once, and the
/// clock is restarted. No other step forgets anything: roots and classes stay as they are, and
/// a window once paired or judged stays paired or judged, if not always in the same way.
pub proof fn caches_are_cleared_when_old_and_only_when_old(
    state: ListenerModel,
    event: EventModel,
)
    requires
        consistent(state),
        state.after(event) is Some,
    ensures
        ({
            let next = state.after(event)->0;
            if event matches EventModel::CacheAge { nanos } && nanos > MAX_CACHE_AGE_NANOS {
                &&& next.caches == CachesModel::empty()
                &&& request_of(next.phase) == Request::RestartCacheClock
            } else {
                &&& state.caches.root_hwnd.submap_of(next.caches.root_hwnd)
                &&& state.caches.class.submap_of(next.caches.class)
                &&& state.caches.hwnd_pair.dom().subset_of(next.caches.hwnd_pair.dom())
                &&& state.caches.eligibility.dom().subset_of(next.caches.eligibility.dom())
                &&& request_of(next.phase) != Request::RestartCacheClock
            }
        }),
{
    let next = state.after(event)->0;
    if let Phase::FindingRoot { at_cursor, .. } = state.phase {
        assert(!state.caches.root_hwnd.contains_key(at_cursor));
    }
    if let Phase::ClassifyingRoot { cursor_root, .. } = state.phase {
        assert(!state.caches.class.contains_key(cursor_root));
    }
    if let Phase::ClassifyingForeground { foreground, .. } = state.phase {
        assert(!state.caches.class.contains_key(foreground));
    }
}

/// With a button down, a movement is let pass: nothing is asked and nothing changes. Only
/// pressing or releasing a button changes whether one counts as down.
pub proof fn a_held_button_keeps_the_focus(state: ListenerModel, event: EventModel)
    requires
        state.after(event) is Some,
    ensures
        state.is_mouse_down && state.phase == Phase::Listening && event == EventModel::Input(
            Input::MouseMoveRelative,
        ) ==> state.after(event) == Some(state.at(Phase::Idling)),
        (state.after(event)->0).is_mouse_down != state.is_mouse_down ==> event
            == EventModel::Input(
            Input::MouseButton {
                action: if state.is_mouse_down {
                    ButtonAction::Release
                } else {
                    ButtonAction::Press
                },
            },
        ),
{
}

/// What was last done with a button, of what the machine took notice of in a run of events.
pub open spec fn last_button(state: ListenerModel, events: Seq<EventModel>) -> Option<ButtonAction>
    decreases events.len(),
{
    if events.len() == 0 {
        None
    } else if run(state, events.drop_last()).phase == Phase::Listening {
        match events.last() {
            EventModel::Input(Input::MouseButton { action }) => Some(action),
            _ => last_button(state, events.drop_last()),
        }
    } else {
        last_button(state, events.drop_last())
    }
}

/// Over a whole run, the last button message that was taken decides whether a button counts as
/// down, and so whether a movement is let pass; with none taken, no button does.
pub proof fn the_last_button_decides(no_raise: bool, uses_hwnds: bool, events: Seq<EventModel>)
    ensures
        ({
            let start = ListenerModel::initial(no_raise, uses_hwnds);
            let state = run(start, events);
            let held = last_button(start, events) == Some(ButtonAction::Press);
            &&& state.is_mouse_down == held
            &&& state.phase == Phase::Listening ==> state.after(
                EventModel::Input(Input::MouseMoveRelative),
            ) == Some(
                state.at(
                    if held {
                        Phase::Idling
                    } else {
                        Phase::Locating
                    },
                ),
            )
        }),
    decreases events.len(),
{
    if events.len() > 0 {
        the_last_button_decides(no_raise, uses_hwnds, events.drop_last());
    }
}

/// A window is raised in one way alone: it was due, and following the mouse was found switched
/// on right before.
pub proof fn a_raise_is_permitted(state: ListenerModel, event: EventModel, hwnd: isize)
    requires
        state.after(event) is Some,
    ensures
        request_of((state.after(event)->0).phase) == (Request::Raise { hwnd }) <==> {
            &&& state.phase == (Phase::Permitting { cursor_root: hwnd })
            &&& event == EventModel::Enabled(true)
        },
{
}

/// Where focus is left to the system, the machine asks for nothing but input messages and
/// whether to go on, and remembers nothing.
pub proof fn focus_left_to_the_system_is_left_alone(uses_hwnds: bool, events: Seq<EventModel>)
    ensures
        ({
            let state = run(ListenerModel::initial(true, uses_hwnds), events);
            let request = request_of(state.phase);
            &&& state == ListenerModel::initial(true, uses_hwnds).at(state.phase)
            &&& request == Request::CheckRunning || request == Request::NextEvent || request
                == Request::Stop
        }),
{
    no_raise_phases(uses_hwnds, events);
}

proof fn no_raise_phases(uses_hwnds: bool, events: Seq<EventModel>)
    ensures
        ({
            let state = run(ListenerModel::initial(true, uses_hwnds), events);
            &&& state.phase == Phase::Idling || state.phase == Phase::Pumping || state.phase
                == Phase::Stopped
            &&& state == ListenerModel::initial(true, uses_hwnds).at(state.phase)
        }),
    decreases events.len(),
{
    if events.len() > 0 {
        no_raise_phases(uses_hwnds, events.drop_last());
    }
}

/// Hearing that the program is not to run any more stops the machine, and nothing else does.
/// Once stopped, it stays so whatever happens: it never makes another request.
pub proof fn stopping_is_final(state: ListenerModel, event: EventModel, later: Seq<EventModel>)
    requires
        state.after(event) is Some,
    ensures
        (state.after(event)->0).phase == Phase::Stopped <==> event == EventModel::Running(false),
        event == EventModel::Running(false) ==> {
            &&& run(state.after(event)->0, later) == state.after(event)->0
            &&& request_of(run(state.after(event)->0, later).phase) == Request::Stop
        },
    decreases later.len(),
{
    if later.len() > 0 {
        stopping_is_final(state, event, later.drop_last());
    }
}

/// How many input messages the machine takes in a run of events.
pub open spec fn inputs_taken(state: ListenerModel, events: Seq<EventModel>) -> nat
    decreases events.len(),
{
    if events.len() == 0 {
        0
    } else {
        let before = run(state, events.drop_last());
        inputs_taken(state, events.drop_last()) + if before.after(events.last()) is Some
            && events.last() is Input {
            1nat
        } else {
            0nat
        }
    }
}

/// How often the machine asks for a window to be raised in a run of events.
pub open spec fn raises_asked(state: ListenerModel, events: Seq<EventModel>) -> nat
    decreases events.len(),
{
    if events.len() == 0 {
        0
    } else {
        let before = run(state, events.drop_last());
        raises_asked(state, events.drop_last()) + if before.after(events.last()) matches Some(next)
            && request_of(next.phase) is Raise {
            1nat
        } else {
            0nat
        }
    }
}

/// Whether the machine may still take an input message before it asks whether to go on.
spec fn may_listen(phase: Phase) -> bool {
    phase == Phase::Pumping || phase == Phase::Aging || phase == Phase::Resetting || phase
        == Phase::Listening
}

/// Whether the machine may still ask for a raise before it asks whether to go on.
spec fn may_raise(phase: Phase) -> bool {
    !(phase == Phase::Idling || phase == Phase::Pumping || phase == Phase::Stopped
        || phase is Raising)
}

proof fn what_a_turn_has_left(state: ListenerModel, events: Seq<EventModel>)
    requires
        forall|i: int| 0 <= i < events.len() ==> #[trigger] events[i] != EventModel::Running(true),
    ensures
        ({
            let end = run(state, events);
            &&& inputs_taken(state, events) <= 1
            &&& may_listen(end.phase) ==> inputs_taken(state, events) == 0
            &&& !may_listen(state.phase) ==> inputs_taken(state, events) == 0 && !may_listen(
                end.phase,
            )
            &&& raises_asked(state, events) <= 1
            &&& may_raise(end.phase) ==> raises_asked(state, events) == 0
            &&& !may_raise(state.phase) ==> raises_asked(state, events) == 0 && !may_raise(
                end.phase,
            )
        }),
    decreases events.len(),
{
    if events.len() > 0 {
        let rest = events.drop_last();
        assert forall|i: int| 0 <= i < rest.len() implies #[trigger] rest[i]
            != EventModel::Running(true) by {
            assert(rest[i] == events[i]);
        }
        what_a_turn_has_left(state, rest);
        assert(events.last() == events[events.len() - 1]);
    }
}

/// Once the program is not to run any more, the machine takes one further input message at
/// most and asks for one raise at most, both in the turn that it is in; a machine that is
/// between two turns does neither. So it asks whether to go on once in every turn.
pub proof fn the_turn_is_finished_and_no_other_begun(
    state: ListenerModel,
    events: Seq<EventModel>,
)
    requires
        forall|i: int| 0 <= i < events.len() ==> #[trigger] events[i] != EventModel::Running(true),
    ensures
        inputs_taken(state, events) <= 1,
        raises_asked(state, events) <= 1,
        state.phase == Phase::Idling ==> inputs_taken(state, events) == 0 && raises_asked(
            state,
            events,
        ) == 0,
{
    what_a_turn_has_left(state, events);
}

/// Whether no event tells that the caches are too old.
pub open spec fn caches_stay_young(events: Seq<EventModel>) -> bool {
    forall|i: int|
        0 <= i < events.len() ==> ((#[trigger] events[i]) matches EventModel::CacheAge { nanos }
            ==> nanos <= MAX_CACHE_AGE_NANOS)
}

/// Until the caches are too old, a run forgets no root and no class.
pub proof fn a_run_forgets_nothing_young(state: ListenerModel, events: Seq<EventModel>)
    requires
        consistent(state),
        caches_stay_young(events),
    ensures
        consistent(run(state, events)),
        state.caches.root_hwnd.submap_of(run(state, events).caches.root_hwnd),
        state.caches.class.submap_of(run(state, events).caches.class),
    decreases events.len(),
{
    if events.len() > 0 {
        let rest = events.drop_last();
        assert forall|i: int| 0 <= i < rest.len() implies ((#[trigger] rest[i]) matches
            EventModel::CacheAge { nanos } ==> nanos <= MAX_CACHE_AGE_NANOS) by {
            assert(rest[i] == events[i]);
        }
        a_run_forgets_nothing_young(state, rest);
        assert(events.last() == events[events.len() - 1]);
        let before = run(state, rest);
        if before.after(events.last()) is Some {
            a_step_keeps_consistency(before, events.last());
            caches_are_cleared_when_old_and_only_when_old(before, events.last());
        }
        let end = run(state, events);
        assert forall|h: isize| #[trigger] state.caches.root_hwnd.dom().contains(h) implies
            end.caches.root_hwnd.dom().contains(h) && state.caches.root_hwnd[h]
            == end.caches.root_hwnd[h] by {
            assert(before.caches.root_hwnd.dom().contains(h));
        }
        assert forall|h: isize| #[trigger] state.caches.class.dom().contains(h) implies
            end.caches.class.dom().contains(h) && state.caches.class[h] == end.caches.class[h] by {
            assert(before.caches.class.dom().contains(h));
        }
    }
}

/// Steam's two windows, once remembered to belong together, are known for what they are until
/// the caches are cleared: whatever happens in between, and whatever else the system tells,
/// moving over the one while the other has the focus raises nothing.
pub proof fn steam_windows_stay_recognised(
    state: ListenerModel,
    events: Seq<EventModel>,
    world: Surroundings,
    root: isize,
    foreground: isize,
)
    requires
        consistent(state),
        state.caches.paired_with(root) == Some(foreground),
        caches_stay_young(events),
        world.at_cursor is Some,
        root_told(run(state, events).caches, world, world.at_cursor->0) == Some(root),
        world.foreground == Some(foreground),
    ensures
        raised(run(state, events), world) is None,
{
    a_run_forgets_nothing_young(state, events);
    let later = run(state, events);
    assert(state.caches.class.contains_key(root) && state.caches.class.contains_key(foreground));
    assert(later.caches.class_of(root) == state.caches.class_of(root));
    assert(later.caches.class_of(foreground) == state.caches.class_of(foreground));
}

/// A movement that finds Steam's two windows raises nothing, and remembers them with their
/// classes and as belonging together.
pub proof fn steam_windows_are_remembered(state: ListenerModel, world: Surroundings)
    requires
        consistent(state),
        state.phase == Phase::Listening,
        contenders(state.caches, world) matches Some((root, foreground)) && are_steam(
            state.caches,
            world,
            root,
            foreground,
        ),
    ensures
        ({
            let (root, foreground) = contenders(state.caches, world)->0;
            let after = state.remembering(caches_after(state, world)).at(Phase::Idling);
            &&& raised(state, world) is None
            &&& consistent(after)
            &&& after.caches.paired_with(root) == Some(foreground)
            &&& is_steam_pair(after.caches.class_of(root), after.caches.class_of(foreground))
        }),
{
    let (root, foreground) = contenders(state.caches, world)->0;
    let after = state.remembering(caches_after(state, world)).at(Phase::Idling);
    assert forall|h: isize| (#[trigger] after.caches.paired_with(h)) is Some implies is_steam_pair(
        after.caches.class_of(h),
        after.caches.class_of(after.caches.paired_with(h)->0),
    ) by {
        assert(state.caches.paired_with(h) matches Some(paired) ==> is_steam_pair(
            state.caches.class_of(h),
            state.caches.class_of(paired),
        ));
    }
}

/// Steam's two windows are recognised once: from the movement that finds them on, until the
/// caches are cleared, moving over the one while the other has the focus raises nothing,
/// whatever happens in between and whatever else the system tells.
pub proof fn steam_windows_are_recognised_once(
    state: ListenerModel,
    found: Surroundings,
    events: Seq<EventModel>,
    later: Surroundings,
)
    requires
        consistent(state),
        state.phase == Phase::Listening,
        contenders(state.caches, found) matches Some((root, foreground)) && are_steam(
            state.caches,
            found,
            root,
            foreground,
        ),
        caches_stay_young(events),
        ({
            let (root, foreground) = contenders(state.caches, found)->0;
            let after = state.remembering(caches_after(state, found)).at(Phase::Idling);
            &&& later.at_cursor is Some
            &&& root_told(run(after, events).caches, later, later.at_cursor->0) == Some(root)
            &&& later.foreground == Some(foreground)
        }),
    ensures
        raised(state, found) is None,
        raised(
            run(state.remembering(caches_after(state, found)).at(Phase::Idling), events),
            later,
        ) is None,
{
    let (root, foreground) = contenders(state.caches, found)->0;
    let after = state.remembering(caches_after(state, found)).at(Phase::Idling);
    steam_windows_are_remembered(state, found);
    steam_windows_stay_recognised(after, events, later, root, foreground);
}

} // verus!
