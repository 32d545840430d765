//! What a movement of the mouse comes to as a whole: what is asked, what is raised and what is
//! remembered, by what the system tells and what the caches hold.

use crate::listing::is_listed;
use crate::matching::is_ignored;
use crate::movement::{request_of, EventModel, Input, ListenerModel, Phase, Request};
use crate::movement_laws::{
    a_movement_is_handled_as_told, are_steam, both_eligible, both_judged, caches_after, candidate,
    class_told, contenders, handle, judgement, made_if, requests_about, requests_of,
    requests_of_contains, requests_to_decide, root_told, undecided, windows_told, Surroundings,
};
use vstd::prelude::*;

verus! {

/// Without two known windows that differ there is nothing to follow: the windows are located, and
/// that is all. Nothing is remembered.
pub proof fn one_window_is_left_alone(state: ListenerModel, world: Surroundings, budget: nat)
    requires
        state.phase == Phase::Listening,
        !state.is_mouse_down,
        budget >= 7,
        world.at_cursor is None || world.foreground is None || world.at_cursor == world.foreground,
    ensures
        state.after(EventModel::Input(Input::MouseMoveRelative)) matches Some(start) && {
            let (end, made) = handle(start, world, budget);
            &&& request_of(end.phase) == Request::CheckRunning
            &&& made == seq![Request::LocateWindows]
            &&& end.caches == state.caches
            &&& end.is_mouse_down == state.is_mouse_down
        },
{
    a_movement_is_handled_as_told(state, world, budget);
    assert(requests_of(state, world) =~= seq![Request::LocateWindows]);
}

/// The root of the window under the cursor is asked for exactly if it is not remembered, and
/// remembered if the system tells it. If there is none, or it has the focus, or goes with the
/// window that has, nothing more is asked and nothing more remembered.
pub proof fn the_root_is_asked_for_once(
    state: ListenerModel,
    world: Surroundings,
    at_cursor: isize,
    foreground: isize,
    budget: nat,
)
    requires
        state.phase == Phase::Listening,
        !state.is_mouse_down,
        budget >= 7,
        world.at_cursor == Some(at_cursor),
        world.foreground == Some(foreground),
        at_cursor != foreground,
    ensures
        state.after(EventModel::Input(Input::MouseMoveRelative)) matches Some(start) && {
            let (end, made) = handle(start, world, budget);
            let known = state.caches.root_hwnd.contains_key(at_cursor);
            let root = if known {
                Some(state.caches.root_hwnd[at_cursor])
            } else {
                (world.root)(at_cursor)
            };
            &&& request_of(end.phase) == Request::CheckRunning
            &&& end.is_mouse_down == state.is_mouse_down
            &&& end.caches.root_hwnd == if !known && root is Some {
                state.caches.root_hwnd.insert(at_cursor, root->0)
            } else {
                state.caches.root_hwnd
            }
            &&& forall|hwnd: isize| #[trigger]
                made.contains(Request::GetAncestor { hwnd }) <==> hwnd == at_cursor && !known
            &&& root is None || root == Some(foreground) || (state.caches.hwnd_pair.contains_key(
                root->0,
            ) && state.caches.hwnd_pair[root->0] == foreground) ==> {
                &&& end.caches.class == state.caches.class
                &&& end.caches.hwnd_pair == state.caches.hwnd_pair
                &&& end.caches.eligibility == state.caches.eligibility
                &&& made == if known {
                    seq![Request::LocateWindows]
                } else {
                    seq![Request::LocateWindows, Request::GetAncestor { hwnd: at_cursor }]
                }
            }
        },
{
    a_movement_is_handled_as_told(state, world, budget);
    let made = requests_of(state, world);
    assert forall|hwnd: isize| #[trigger]
        made.contains(Request::GetAncestor { hwnd }) <==> hwnd == at_cursor
            && !state.caches.root_hwnd.contains_key(at_cursor) by {
        requests_of_contains(state, world, Request::GetAncestor { hwnd });
    }
    if contenders(state.caches, world) is None {
        assert(made =~= if state.caches.root_hwnd.contains_key(at_cursor) {
            seq![Request::LocateWindows]
        } else {
            seq![Request::LocateWindows, Request::GetAncestor { hwnd: at_cursor }]
        });
    }
}

/// Whether `root` is the root of the window under the cursor, as remembered or else as told, and
/// differs from `foreground` and is not remembered to go with it.
pub open spec fn contend(
    state: ListenerModel,
    world: Surroundings,
    root: isize,
    foreground: isize,
) -> bool {
    &&& world.at_cursor matches Some(at_cursor)
    &&& world.foreground == Some(foreground)
    &&& at_cursor != foreground
    &&& if state.caches.root_hwnd.contains_key(at_cursor) {
        state.caches.root_hwnd[at_cursor] == root
    } else {
        (world.root)(at_cursor) == Some(root)
    }
    &&& root != foreground
    &&& !(state.caches.hwnd_pair.contains_key(root) && state.caches.hwnd_pair[root] == foreground)
}

/// The class of a window: as remembered, else as the system tells.
pub open spec fn class_at_hand(
    state: ListenerModel,
    world: Surroundings,
    hwnd: isize,
) -> Option<Seq<char>> {
    if state.caches.class.contains_key(hwnd) {
        Some(state.caches.class[hwnd])
    } else {
        (world.class)(hwnd)
    }
}

/// Whether the classes at hand of two windows are those of Steam's.
pub open spec fn look_like_steam(
    state: ListenerModel,
    world: Surroundings,
    root: isize,
    foreground: isize,
) -> bool {
    &&& class_at_hand(state, world, root) == Some("Chrome_RenderWidgetHostHWND"@)
    &&& class_at_hand(state, world, foreground) == Some("SDL_app"@)
}

/// Whether a window passes what the system tells of it now, beside another window. A window
/// manager's list must hold its handle, where one is used; else neither of two bits of its style
/// may be set. Where both classes are at hand, its own must not be ignored.
pub open spec fn passes(
    state: ListenerModel,
    world: Surroundings,
    hwnd: isize,
    other: isize,
) -> bool {
    let class = class_at_hand(state, world, hwnd);
    &&& class is Some && class_at_hand(state, world, other) is Some ==> !is_ignored(class->0)
    &&& if state.uses_hwnds {
        world.raw_hwnds is Some && is_listed(hwnd as int, world.raw_hwnds->0)
    } else {
        (world.ex_style)(hwnd) & 0x80 != 0x80 && (world.ex_style)(hwnd) & 0x0800_0000
            != 0x0800_0000
    }
}

/// Whether the eligibility of two windows is remembered.
pub open spec fn known_eligibility(state: ListenerModel, root: isize, foreground: isize) -> bool {
    state.caches.eligibility.contains_key(root) && state.caches.eligibility.contains_key(foreground)
}

/// Whether the root may take the focus from the foreground window: the two do not look like
/// Steam's, and both are eligible, as remembered if both are, else as they pass.
pub open spec fn may_take_focus(
    state: ListenerModel,
    world: Surroundings,
    root: isize,
    foreground: isize,
) -> bool {
    &&& !look_like_steam(state, world, root, foreground)
    &&& if known_eligibility(state, root, foreground) {
        state.caches.eligibility[root] && state.caches.eligibility[foreground]
    } else {
        passes(state, world, root, foreground) && passes(state, world, foreground, root)
    }
}

/// The two ways to speak of contenders agree.
proof fn contenders_are_as_told(
    state: ListenerModel,
    world: Surroundings,
    root: isize,
    foreground: isize,
)
    requires
        contend(state, world, root, foreground),
    ensures
        contenders(state.caches, world) == Some((root, foreground)),
        class_told(state.caches, world, root) == class_at_hand(state, world, root),
        class_told(state.caches, world, foreground) == class_at_hand(state, world, foreground),
        are_steam(state.caches, world, root, foreground) == look_like_steam(
            state,
            world,
            root,
            foreground,
        ),
        both_judged(state.caches, root, foreground) == known_eligibility(state, root, foreground),
        (judgement(state, world, root, foreground) == Some(true)) == passes(
            state,
            world,
            root,
            foreground,
        ),
        (judgement(state, world, foreground, root) == Some(true)) == passes(
            state,
            world,
            foreground,
            root,
        ),
        judgement(state, world, root, foreground) is None <==> state.uses_hwnds
            && world.raw_hwnds is None,
        judgement(state, world, foreground, root) is None <==> state.uses_hwnds
            && world.raw_hwnds is None,
        (candidate(state, world) is Some) == may_take_focus(state, world, root, foreground),
{
    let at_cursor = world.at_cursor->0;
    assert(windows_told(world) == Some((at_cursor, foreground)));
    assert(root_told(state.caches, world, at_cursor) == Some(root));
    assert(both_eligible(state, world, root, foreground) == if known_eligibility(
        state,
        root,
        foreground,
    ) {
        state.caches.eligibility[root] && state.caches.eligibility[foreground]
    } else {
        passes(state, world, root, foreground) && passes(state, world, foreground, root)
    });
}

/// What is asked of two contenders. A class is asked for exactly if it is not remembered. The list,
/// or the styles of both windows, are asked for exactly if the two do not look like Steam's and
/// the eligibility of one is not remembered. Whether following the mouse is switched on is asked
/// exactly if the root may take the focus, and exactly the root is raised, if it is.
pub proof fn contenders_are_asked_about_as_needed(
    state: ListenerModel,
    world: Surroundings,
    root: isize,
    foreground: isize,
    budget: nat,
)
    requires
        state.phase == Phase::Listening,
        !state.is_mouse_down,
        budget >= 7,
        contend(state, world, root, foreground),
    ensures
        state.after(EventModel::Input(Input::MouseMoveRelative)) matches Some(start) && {
            let (end, made) = handle(start, world, budget);
            let undecided = !look_like_steam(state, world, root, foreground) && !known_eligibility(
                state,
                root,
                foreground,
            );
            &&& forall|hwnd: isize| #[trigger]
                made.contains(Request::GetClass { hwnd }) <==> (hwnd == root || hwnd == foreground)
                    && !state.caches.class.contains_key(hwnd)
            &&& made.contains(Request::ReadHwnds) <==> undecided && state.uses_hwnds
            &&& forall|first: isize, second: isize| #[trigger]
                made.contains(
                    Request::GetExStyles { cursor_root: first, foreground: second },
                ) <==> undecided && !state.uses_hwnds && first == root && second == foreground
            &&& made.contains(Request::CheckEnabled) <==> may_take_focus(
                state,
                world,
                root,
                foreground,
            )
            &&& forall|hwnd: isize| #[trigger]
                made.contains(Request::Raise { hwnd }) <==> hwnd == root && world.enabled
                    && may_take_focus(state, world, root, foreground)
            &&& made.contains(Request::LocateWindows)
            &&& !made.contains(Request::CheckRunning)
            &&& !made.contains(Request::NextEvent)
            &&& !made.contains(Request::CheckCacheAge)
            &&& !made.contains(Request::RestartCacheClock)
            &&& !made.contains(Request::Stop)
        },
{
    a_movement_is_handled_as_told(state, world, budget);
    contenders_are_as_told(state, world, root, foreground);
    let made = requests_of(state, world);
    assert forall|hwnd: isize| #[trigger]
        made.contains(Request::GetClass { hwnd }) <==> (hwnd == root || hwnd == foreground)
            && !state.caches.class.contains_key(hwnd) by {
        requests_of_contains(state, world, Request::GetClass { hwnd });
    }
    assert forall|first: isize, second: isize| #[trigger]
        made.contains(Request::GetExStyles { cursor_root: first, foreground: second }) <==> undecided(
            state,
            world,
            root,
            foreground,
        ) && !state.uses_hwnds && first == root && second == foreground by {
        requests_of_contains(
            state,
            world,
            Request::GetExStyles { cursor_root: first, foreground: second },
        );
    }
    assert forall|hwnd: isize| #[trigger]
        made.contains(Request::Raise { hwnd }) <==> hwnd == root && world.enabled && may_take_focus(
            state,
            world,
            root,
            foreground,
        ) by {
        requests_of_contains(state, world, Request::Raise { hwnd });
    }
    requests_of_contains(state, world, Request::ReadHwnds);
    requests_of_contains(state, world, Request::CheckEnabled);
    requests_of_contains(state, world, Request::LocateWindows);
    requests_of_contains(state, world, Request::CheckRunning);
    requests_of_contains(state, world, Request::NextEvent);
    requests_of_contains(state, world, Request::CheckCacheAge);
    requests_of_contains(state, world, Request::RestartCacheClock);
    requests_of_contains(state, world, Request::Stop);
}

/// What is remembered of two contenders. A class that was not remembered is, if the system tells
/// it. The two are remembered to go together if they look like Steam's. By the list, a window that
/// passes is remembered as eligible and one that does not is not remembered; by the styles, both
/// windows are remembered, each as it passed. Nothing is remembered of any other window.
pub proof fn contenders_are_remembered_as_found(
    state: ListenerModel,
    world: Surroundings,
    root: isize,
    foreground: isize,
    budget: nat,
)
    requires
        state.phase == Phase::Listening,
        !state.is_mouse_down,
        budget >= 7,
        contend(state, world, root, foreground),
    ensures
        state.after(EventModel::Input(Input::MouseMoveRelative)) matches Some(start) && {
            let end = handle(start, world, budget).0;
            let steam = look_like_steam(state, world, root, foreground);
            let undecided = !steam && !known_eligibility(state, root, foreground);
            &&& request_of(end.phase) == Request::CheckRunning
            &&& end.no_raise == state.no_raise
            &&& end.uses_hwnds == state.uses_hwnds
            &&& end.is_mouse_down == state.is_mouse_down
            &&& end.caches.hwnd_pair == if steam {
                state.caches.hwnd_pair.insert(root, foreground)
            } else {
                state.caches.hwnd_pair
            }
            &&& forall|h: isize|
                {
                    let asked = h == root || h == foreground;
                    &&& #[trigger] end.caches.class.contains_key(h) <==> state.caches.class.contains_key(h)
                        || (asked && (world.class)(h) is Some)
                    &&& end.caches.class.contains_key(h) ==> Some(end.caches.class[h])
                        == class_at_hand(state, world, h)
                }
            &&& forall|h: isize|
                {
                    let other = if h == root {
                        foreground
                    } else {
                        root
                    };
                    let judged = undecided && (h == root || h == foreground) && (!state.uses_hwnds
                        || passes(state, world, h, other));
                    &&& #[trigger] end.caches.eligibility.contains_key(h)
                        <==> state.caches.eligibility.contains_key(h) || judged
                    &&& judged ==> end.caches.eligibility[h] == passes(state, world, h, other)
                    &&& !judged && state.caches.eligibility.contains_key(h)
                        ==> end.caches.eligibility[h] == state.caches.eligibility[h]
                }
        },
{
    a_movement_is_handled_as_told(state, world, budget);
    contenders_are_as_told(state, world, root, foreground);
    let caches = caches_after(state, world);
    assert(windows_told(world) == Some((world.at_cursor->0, foreground)));
    assert(caches.hwnd_pair =~= if look_like_steam(state, world, root, foreground) {
        state.caches.hwnd_pair.insert(root, foreground)
    } else {
        state.caches.hwnd_pair
    });
}

/// The place of a request in the course of a movement.
pub open spec fn place_in_course(request: Request, foreground: isize) -> int {
    match request {
        Request::LocateWindows => 0,
        Request::GetAncestor { .. } => 1,
        Request::GetClass { hwnd } => if hwnd != foreground {
            2
        } else {
            3
        },
        Request::ReadHwnds | Request::GetExStyles { .. } => 4,
        Request::CheckEnabled => 5,
        Request::Raise { .. } => 6,
        _ => 7,
    }
}

/// Whether requests are made in order, from a place on and before another.
pub open spec fn in_course(made: Seq<Request>, foreground: isize, from: int, before: int) -> bool {
    &&& forall|i: int|
        0 <= i < made.len() ==> from <= place_in_course(#[trigger] made[i], foreground) < before
    &&& forall|i: int, j: int|
        0 <= i < j < made.len() ==> place_in_course(#[trigger] made[i], foreground)
            < place_in_course(#[trigger] made[j], foreground)
}

proof fn courses_follow_on(
    first: Seq<Request>,
    second: Seq<Request>,
    foreground: isize,
    from: int,
    between: int,
    before: int,
)
    requires
        in_course(first, foreground, from, between),
        in_course(second, foreground, between, before),
        from <= between <= before,
    ensures
        in_course(first + second, foreground, from, before),
{
    let all = first + second;
    assert forall|i: int| 0 <= i < all.len() implies from <= place_in_course(
        #[trigger] all[i],
        foreground,
    ) < before by {
        if i < first.len() {
            assert(all[i] == first[i]);
        } else {
            assert(all[i] == second[i - first.len()]);
        }
    }
    assert forall|i: int, j: int| 0 <= i < j < all.len() implies place_in_course(
        #[trigger] all[i],
        foreground,
    ) < place_in_course(#[trigger] all[j], foreground) by {
        if j < first.len() {
            assert(all[i] == first[i] && all[j] == first[j]);
        } else if i < first.len() {
            assert(all[i] == first[i] && all[j] == second[j - first.len()]);
        } else {
            assert(all[i] == second[i - first.len()] && all[j] == second[j - first.len()]);
        }
    }
}

/// The requests of a movement come in their order, each once at most: first the windows are
/// located, then the root is asked for, its class, the class of the foreground window, what
/// decides about them and whether following the mouse is switched on. Raising comes last.
pub proof fn a_movement_takes_its_course(
    state: ListenerModel,
    world: Surroundings,
    foreground: isize,
    budget: nat,
)
    requires
        state.phase == Phase::Listening,
        !state.is_mouse_down,
        budget >= 7,
        world.foreground == Some(foreground),
    ensures
        state.after(EventModel::Input(Input::MouseMoveRelative)) matches Some(start) && {
            let made = handle(start, world, budget).1;
            &&& made.len() > 0 && made[0] == Request::LocateWindows
            &&& forall|i: int, j: int|
                0 <= i < j < made.len() ==> place_in_course(#[trigger] made[i], foreground)
                    < place_in_course(#[trigger] made[j], foreground)
        },
{
    a_movement_is_handled_as_told(state, world, budget);
    let caches = state.caches;
    let located = seq![Request::LocateWindows];
    let nothing: Seq<Request> = seq![];
    let about_root = match windows_told(world) {
        Some((at_cursor, _)) => made_if(
            caches.root_of(at_cursor) is None,
            Request::GetAncestor { hwnd: at_cursor },
        ),
        None => nothing,
    };
    let about_contenders = match contenders(caches, world) {
        Some((root, other)) => requests_about(state, world, root, other),
        None => nothing,
    };
    assert(in_course(about_contenders, foreground, 2, 7)) by {
        if let Some((root, other)) = contenders(caches, world) {
            assert(other == foreground && root != foreground);
            let root_class = made_if(
                caches.class_of(root) is None,
                Request::GetClass { hwnd: root },
            );
            let foreground_class = made_if(
                caches.class_of(foreground) is None,
                Request::GetClass { hwnd: foreground },
            );
            let should_raise = !are_steam(caches, world, root, foreground) && both_eligible(
                state,
                world,
                root,
                foreground,
            );
            let question = made_if(
                undecided(state, world, root, foreground),
                if state.uses_hwnds {
                    Request::ReadHwnds
                } else {
                    Request::GetExStyles { cursor_root: root, foreground }
                },
            );
            let switch = made_if(should_raise, Request::CheckEnabled);
            let raise = made_if(should_raise && world.enabled, Request::Raise { hwnd: root });
            courses_follow_on(question, switch, foreground, 4, 5, 6);
            courses_follow_on(question + switch, raise, foreground, 4, 6, 7);
            assert(requests_to_decide(state, world, root, foreground) == question + switch + raise);
            courses_follow_on(root_class, foreground_class, foreground, 2, 3, 4);
            courses_follow_on(
                root_class + foreground_class,
                question + switch + raise,
                foreground,
                2,
                4,
                7,
            );
        }
    }
    courses_follow_on(located, about_root, foreground, 0, 1, 2);
    courses_follow_on(located + about_root, about_contenders, foreground, 0, 2, 7);
    assert(requests_of(state, world) == located + about_root + about_contenders);
}

} // verus!
