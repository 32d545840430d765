//! What holds of the machine that follows the mouse, over whole movements and whole runs.

use crate::caches::CachesModel;
use crate::eligibility::{eligible_by_hwnds, eligible_by_style, is_steam_pair};
use crate::movement::{
    request_of, EventModel, Input, ListenerModel, Phase, Request,
};
use vstd::prelude::*;

verus! {

/// What the system would answer while one movement of the mouse is handled.
pub struct Surroundings {
    pub at_cursor: Option<isize>,
    pub foreground: Option<isize>,
    pub root: spec_fn(isize) -> Option<isize>,
    pub class: spec_fn(isize) -> Option<Seq<char>>,
    pub raw_hwnds: Option<Seq<char>>,
    pub ex_style: spec_fn(isize) -> u32,
    pub enabled: bool,
}

impl Surroundings {
    /// The answer to a request that is made while a movement is handled.
    pub open spec fn answer(self, request: Request) -> EventModel {
        match request {
            Request::LocateWindows => EventModel::Windows {
                at_cursor: self.at_cursor,
                foreground: self.foreground,
            },
            Request::GetAncestor { hwnd } => EventModel::Ancestor((self.root)(hwnd)),
            Request::GetClass { hwnd } => EventModel::Class((self.class)(hwnd)),
            Request::ReadHwnds => EventModel::Hwnds(self.raw_hwnds),
            Request::GetExStyles { cursor_root, foreground } => EventModel::ExStyles {
                root_style: (self.ex_style)(cursor_root),
                foreground_style: (self.ex_style)(foreground),
            },
            Request::CheckEnabled => EventModel::Enabled(self.enabled),
            _ => EventModel::Raised,
        }
    }
}

/// Drives the machine until it is done with a movement, `budget` steps at most: the state it
/// ends in, and the requests it made.
pub open spec fn handle(
    state: ListenerModel,
    world: Surroundings,
    budget: nat,
) -> (ListenerModel, Seq<Request>)
    decreases budget,
{
    if state.phase == Phase::Idling || budget == 0 {
        (state, seq![])
    } else {
        let request = request_of(state.phase);
        match state.after(world.answer(request)) {
            Some(next) => {
                let (end, requests) = handle(next, world, (budget - 1) as nat);
                (end, seq![request] + requests)
            },
            None => (state, seq![]),
        }
    }
}

/// A request that is made on a condition.
pub open spec fn made_if(condition: bool, request: Request) -> Seq<Request> {
    if condition {
        seq![request]
    } else {
        seq![]
    }
}

/// The root of a window: as remembered, else as the system tells.
pub open spec fn root_told(
    caches: CachesModel,
    world: Surroundings,
    hwnd: isize,
) -> Option<isize> {
    match caches.root_of(hwnd) {
        Some(root) => Some(root),
        None => (world.root)(hwnd),
    }
}

/// The class of a window: as remembered, else as the system tells.
pub open spec fn class_told(
    caches: CachesModel,
    world: Surroundings,
    hwnd: isize,
) -> Option<Seq<char>> {
    match caches.class_of(hwnd) {
        Some(class) => Some(class),
        None => (world.class)(hwnd),
    }
}

/// The window under the cursor and the foreground window, if both are known and differ.
pub open spec fn windows_told(world: Surroundings) -> Option<(isize, isize)> {
    match (world.at_cursor, world.foreground) {
        (Some(at_cursor), Some(foreground)) => if at_cursor != foreground {
            Some((at_cursor, foreground))
        } else {
            None
        },
        _ => None,
    }
}

/// The root of the window under the cursor and the foreground window, if the two are not
/// known to belong together.
pub open spec fn contenders(caches: CachesModel, world: Surroundings) -> Option<(isize, isize)> {
    match windows_told(world) {
        Some((at_cursor, foreground)) => match root_told(caches, world, at_cursor) {
            Some(root) => if root != foreground && caches.paired_with(root) != Some(foreground) {
                Some((root, foreground))
            } else {
                None
            },
            None => None,
        },
        None => None,
    }
}

/// Whether two contenders turn out to be Steam's windows.
pub open spec fn are_steam(
    caches: CachesModel,
    world: Surroundings,
    root: isize,
    foreground: isize,
) -> bool {
    is_steam_pair(class_told(caches, world, root), class_told(caches, world, foreground))
}

/// Whether the eligibility of both windows is remembered.
pub open spec fn both_judged(caches: CachesModel, root: isize, foreground: isize) -> bool {
    caches.eligibility_of(root) is Some && caches.eligibility_of(foreground) is Some
}

/// Whether a window is eligible by what the system tells now: `None` where a window manager's
/// list should decide and cannot be read.
pub open spec fn judgement(
    state: ListenerModel,
    world: Surroundings,
    hwnd: isize,
    other: isize,
) -> Option<bool> {
    let class = class_told(state.caches, world, hwnd);
    let other_class = class_told(state.caches, world, other);
    if state.uses_hwnds {
        match world.raw_hwnds {
            Some(raw_hwnds) => Some(eligible_by_hwnds(raw_hwnds, hwnd, class, other_class)),
            None => None,
        }
    } else {
        Some(eligible_by_style((world.ex_style)(hwnd), class, other_class))
    }
}

/// Whether both contenders are eligible: as remembered if both are, else as the system tells.
pub open spec fn both_eligible(
    state: ListenerModel,
    world: Surroundings,
    root: isize,
    foreground: isize,
) -> bool {
    if both_judged(state.caches, root, foreground) {
        state.caches.eligibility[root] && state.caches.eligibility[foreground]
    } else {
        &&& judgement(state, world, root, foreground) == Some(true)
        &&& judgement(state, world, foreground, root) == Some(true)
    }
}

/// The window that a movement should raise, were following the mouse switched on.
pub open spec fn candidate(state: ListenerModel, world: Surroundings) -> Option<isize> {
    match contenders(state.caches, world) {
        Some((root, foreground)) => if !are_steam(state.caches, world, root, foreground)
            && both_eligible(state, world, root, foreground) {
            Some(root)
        } else {
            None
        },
        None => None,
    }
}

/// The window that a movement raises.
pub open spec fn raised(state: ListenerModel, world: Surroundings) -> Option<isize> {
    if world.enabled {
        candidate(state, world)
    } else {
        None
    }
}

/// The caches with the root of a window added, if it was missing and the system tells it.
pub open spec fn learn_root(caches: CachesModel, world: Surroundings, hwnd: isize) -> CachesModel {
    if caches.root_of(hwnd) is None && (world.root)(hwnd) is Some {
        caches.with_root(hwnd, (world.root)(hwnd)->0)
    } else {
        caches
    }
}

/// The caches with the class of a window added, if it was missing and the system tells it.
pub open spec fn learn_class(
    caches: CachesModel,
    world: Surroundings,
    hwnd: isize,
) -> CachesModel {
    if caches.class_of(hwnd) is None && (world.class)(hwnd) is Some {
        caches.with_class(hwnd, (world.class)(hwnd)->0)
    } else {
        caches
    }
}

/// The caches with a judgement added. By a window manager's list only eligible windows are.
pub open spec fn learn_judgement(
    caches: CachesModel,
    uses_hwnds: bool,
    judgement: Option<bool>,
    hwnd: isize,
) -> CachesModel {
    match judgement {
        Some(eligible) => if eligible || !uses_hwnds {
            caches.with_eligibility(hwnd, eligible)
        } else {
            caches
        },
        None => caches,
    }
}

/// The caches with what was found out of two contenders added: that they belong together, or
/// how they were judged.
pub open spec fn learn_decision(
    caches: CachesModel,
    state: ListenerModel,
    world: Surroundings,
    root: isize,
    foreground: isize,
) -> CachesModel {
    if are_steam(state.caches, world, root, foreground) {
        caches.with_pair(root, foreground)
    } else if both_judged(state.caches, root, foreground) {
        caches
    } else {
        learn_judgement(
            learn_judgement(
                caches,
                state.uses_hwnds,
                judgement(state, world, root, foreground),
                root,
            ),
            state.uses_hwnds,
            judgement(state, world, foreground, root),
            foreground,
        )
    }
}

/// What is remembered once a movement was handled.
pub open spec fn caches_after(state: ListenerModel, world: Surroundings) -> CachesModel {
    let with_root = match windows_told(world) {
        Some((at_cursor, _)) => learn_root(state.caches, world, at_cursor),
        None => state.caches,
    };
    match contenders(state.caches, world) {
        None => with_root,
        Some((root, foreground)) => learn_decision(
            learn_class(learn_class(with_root, world, root), world, foreground),
            state,
            world,
            root,
            foreground,
        ),
    }
}

/// Whether the system must be asked which of two contenders are eligible.
pub open spec fn undecided(
    state: ListenerModel,
    world: Surroundings,
    root: isize,
    foreground: isize,
) -> bool {
    !are_steam(state.caches, world, root, foreground) && !both_judged(
        state.caches,
        root,
        foreground,
    )
}

/// The requests about two contenders once their classes are known.
pub open spec fn requests_to_decide(
    state: ListenerModel,
    world: Surroundings,
    root: isize,
    foreground: isize,
) -> Seq<Request> {
    let should_raise = !are_steam(state.caches, world, root, foreground) && both_eligible(
        state,
        world,
        root,
        foreground,
    );
    made_if(
        undecided(state, world, root, foreground),
        if state.uses_hwnds {
            Request::ReadHwnds
        } else {
            Request::GetExStyles { cursor_root: root, foreground }
        },
    ) + made_if(should_raise, Request::CheckEnabled) + made_if(
        should_raise && world.enabled,
        Request::Raise { hwnd: root },
    )
}

/// The requests about a pair of contenders, from the first to the last.
pub open spec fn requests_about(
    state: ListenerModel,
    world: Surroundings,
    root: isize,
    foreground: isize,
) -> Seq<Request> {
    made_if(state.caches.class_of(root) is None, Request::GetClass { hwnd: root }) + made_if(
        state.caches.class_of(foreground) is None,
        Request::GetClass { hwnd: foreground },
    ) + requests_to_decide(state, world, root, foreground)
}

/// The requests that a movement leads to, in order: only what is not remembered is asked for.
pub open spec fn requests_of(state: ListenerModel, world: Surroundings) -> Seq<Request> {
    let caches = state.caches;
    let about_root = match windows_told(world) {
        Some((at_cursor, _)) => made_if(
            caches.root_of(at_cursor) is None,
            Request::GetAncestor { hwnd: at_cursor },
        ),
        None => seq![],
    };
    let about_contenders = match contenders(caches, world) {
        Some((root, foreground)) => requests_about(state, world, root, foreground),
        None => seq![],
    };
    seq![Request::LocateWindows] + about_root + about_contenders
}

proof fn verdict_leads_on(
    state: ListenerModel,
    world: Surroundings,
    root: isize,
    should_raise: bool,
    budget: nat,
)
    requires
        budget >= 2,
    ensures
        handle(state.after_verdict(root, should_raise), world, budget) == (
            state.at(Phase::Idling),
            made_if(should_raise, Request::CheckEnabled) + made_if(
                should_raise && world.enabled,
                Request::Raise { hwnd: root },
            ),
        ),
{
    reveal_with_fuel(handle, 3);
    let (end, requests) = handle(state.after_verdict(root, should_raise), world, budget);
    assert(end =~= state.at(Phase::Idling));
    assert(requests =~= made_if(should_raise, Request::CheckEnabled) + made_if(
        should_raise && world.enabled,
        Request::Raise { hwnd: root },
    ));
}

proof fn classes_lead_on(
    state: ListenerModel,
    world: Surroundings,
    root: isize,
    foreground: isize,
    budget: nat,
)
    requires
        budget >= 3,
        class_told(state.caches, world, root) == state.caches.class_of(root),
        class_told(state.caches, world, foreground) == state.caches.class_of(foreground),
    ensures
        handle(state.after_classes(root, foreground), world, budget) == (
            state.remembering(
                learn_decision(state.caches, state, world, root, foreground),
            ).at(Phase::Idling),
            requests_to_decide(state, world, root, foreground),
        ),
{
    reveal_with_fuel(handle, 2);
    let next = state.after_classes(root, foreground);
    let goal = requests_to_decide(state, world, root, foreground);
    if are_steam(state.caches, world, root, foreground) {
        assert(goal =~= seq![]);
    } else if both_judged(state.caches, root, foreground) {
        let should_raise = both_eligible(state, world, root, foreground);
        verdict_leads_on(state, world, root, should_raise, budget);
        assert(handle(next, world, budget).1 =~= goal);
        assert(handle(next, world, budget).0 =~= state.remembering(
            learn_decision(state.caches, state, world, root, foreground),
        ).at(Phase::Idling));
    } else {
        let learned = state.remembering(
            learn_decision(state.caches, state, world, root, foreground),
        );
        let should_raise = both_eligible(state, world, root, foreground);
        verdict_leads_on(learned, world, root, should_raise, (budget - 1) as nat);
        let after = next.after(world.answer(request_of(next.phase)))->0;
        if state.uses_hwnds && world.raw_hwnds is None {
            assert(after =~= state.at(Phase::Idling));
        } else {
            assert(after =~= learned.after_verdict(root, should_raise));
        }
        assert(handle(next, world, budget).1 =~= goal);
        assert(handle(next, world, budget).0 =~= learned.at(Phase::Idling));
    }
}

/// Adding a class that the system tells changes nothing of what is found out.
proof fn learning_a_class_changes_no_decision(
    state: ListenerModel,
    world: Surroundings,
    hwnd: isize,
    root: isize,
    foreground: isize,
)
    ensures
        ({
            let learned = state.remembering(learn_class(state.caches, world, hwnd));
            &&& class_told(learned.caches, world, hwnd) == learned.caches.class_of(hwnd)
            &&& forall|h: isize| #[trigger]
                class_told(learned.caches, world, h) == class_told(state.caches, world, h)
            &&& requests_to_decide(learned, world, root, foreground) == requests_to_decide(
                state,
                world,
                root,
                foreground,
            )
            &&& forall|caches: CachesModel| #[trigger]
                learn_decision(caches, learned, world, root, foreground) == learn_decision(
                    caches,
                    state,
                    world,
                    root,
                    foreground,
                )
        }),
{
    let learned = state.remembering(learn_class(state.caches, world, hwnd));
    assert(forall|h: isize|
        #![trigger class_told(learned.caches, world, h)]
        class_told(learned.caches, world, h) == class_told(state.caches, world, h));
    assert(judgement(learned, world, root, foreground) == judgement(
        state,
        world,
        root,
        foreground,
    ));
    assert(judgement(learned, world, foreground, root) == judgement(
        state,
        world,
        foreground,
        root,
    ));
}

proof fn root_class_leads_on(
    state: ListenerModel,
    world: Surroundings,
    root: isize,
    foreground: isize,
    budget: nat,
)
    requires
        budget >= 4,
        root != foreground,
        class_told(state.caches, world, root) == state.caches.class_of(root),
    ensures
        handle(state.after_root_class(root, foreground), world, budget) == (
            state.remembering(
                learn_decision(
                    learn_class(state.caches, world, foreground),
                    state,
                    world,
                    root,
                    foreground,
                ),
            ).at(Phase::Idling),
            made_if(
                state.caches.class_of(foreground) is None,
                Request::GetClass { hwnd: foreground },
            ) + requests_to_decide(state, world, root, foreground),
        ),
{
    reveal_with_fuel(handle, 2);
    let learned = state.remembering(learn_class(state.caches, world, foreground));
    let decision = requests_to_decide(state, world, root, foreground);
    learning_a_class_changes_no_decision(state, world, foreground, root, foreground);
    if state.caches.class_of(foreground) is None {
        classes_lead_on(learned, world, root, foreground, (budget - 1) as nat);
    } else {
        classes_lead_on(state, world, root, foreground, budget);
        assert(made_if(false, Request::GetClass { hwnd: foreground }) + decision =~= decision);
    }
}

proof fn root_leads_on(
    state: ListenerModel,
    world: Surroundings,
    root: isize,
    foreground: isize,
    budget: nat,
)
    requires
        budget >= 5,
        root != foreground,
        state.caches.paired_with(root) != Some(foreground),
    ensures
        handle(state.after_root(root, foreground), world, budget) == (
            state.remembering(
                learn_decision(
                    learn_class(learn_class(state.caches, world, root), world, foreground),
                    state,
                    world,
                    root,
                    foreground,
                ),
            ).at(Phase::Idling),
            requests_about(state, world, root, foreground),
        ),
{
    reveal_with_fuel(handle, 2);
    let learned = state.remembering(learn_class(state.caches, world, root));
    let rest = made_if(
        state.caches.class_of(foreground) is None,
        Request::GetClass { hwnd: foreground },
    ) + requests_to_decide(state, world, root, foreground);
    learning_a_class_changes_no_decision(state, world, root, root, foreground);
    if state.caches.class_of(root) is None {
        root_class_leads_on(learned, world, root, foreground, (budget - 1) as nat);
        assert(handle(state.after_root(root, foreground), world, budget).1 =~= seq![
            Request::GetClass { hwnd: root },
        ] + rest);
    } else {
        root_class_leads_on(state, world, root, foreground, budget);
        assert(handle(state.after_root(root, foreground), world, budget).1 =~= rest);
    }
    assert(requests_about(state, world, root, foreground) =~= made_if(
        state.caches.class_of(root) is None,
        Request::GetClass { hwnd: root },
    ) + rest);
}

/// Adding a root that the system tells changes nothing of what is found out.
proof fn learning_a_root_changes_no_decision(
    state: ListenerModel,
    world: Surroundings,
    at_cursor: isize,
    root: isize,
    foreground: isize,
)
    ensures
        ({
            let learned = state.remembering(learn_root(state.caches, world, at_cursor));
            &&& requests_to_decide(learned, world, root, foreground) == requests_to_decide(
                state,
                world,
                root,
                foreground,
            )
            &&& forall|caches: CachesModel| #[trigger]
                learn_decision(caches, learned, world, root, foreground) == learn_decision(
                    caches,
                    state,
                    world,
                    root,
                    foreground,
                )
        }),
{
    let learned = state.remembering(learn_root(state.caches, world, at_cursor));
    assert(judgement(learned, world, root, foreground) == judgement(
        state,
        world,
        root,
        foreground,
    ));
    assert(judgement(learned, world, foreground, root) == judgement(
        state,
        world,
        foreground,
        root,
    ));
}

/// From the moment that the root of the window under the cursor is known.
proof fn known_root_leads_on(
    state: ListenerModel,
    world: Surroundings,
    at_cursor: isize,
    root: isize,
    foreground: isize,
    budget: nat,
)
    requires
        budget >= 5,
        windows_told(world) == Some((at_cursor, foreground)),
        root_told(state.caches, world, at_cursor) == Some(root),
    ensures
        handle(
            state.remembering(learn_root(state.caches, world, at_cursor)).after_root(
                root,
                foreground,
            ),
            world,
            budget,
        ) == (
            state.remembering(caches_after(state, world)).at(Phase::Idling),
            if contenders(state.caches, world) is Some {
                requests_about(state, world, root, foreground)
            } else {
                seq![]
            },
        ),
{
    let learned = state.remembering(learn_root(state.caches, world, at_cursor));
    if contenders(state.caches, world) is Some {
        root_leads_on(learned, world, root, foreground, budget);
        learning_a_root_changes_no_decision(state, world, at_cursor, root, foreground);
    }
}

/// A movement with no button down is handled in at most seven requests. They are those that
/// the caches leave open, and what they find out is remembered.
pub proof fn a_movement_is_handled_as_told(
    state: ListenerModel,
    world: Surroundings,
    budget: nat,
)
    requires
        state.phase == Phase::Listening,
        !state.is_mouse_down,
        budget >= 7,
    ensures
        state.after(EventModel::Input(Input::MouseMoveRelative)) == Some(
            state.at(Phase::Locating),
        ),
        handle(state.at(Phase::Locating), world, budget) == (
            state.remembering(caches_after(state, world)).at(Phase::Idling),
            requests_of(state, world),
        ),
        requests_of(state, world).len() <= 7,
{
    let start = state.at(Phase::Locating);
    let done = state.remembering(caches_after(state, world)).at(Phase::Idling);
    let (end, made) = handle(start, world, budget);
    match windows_told(world) {
        None => {
            reveal_with_fuel(handle, 2);
            assert(end =~= done);
            assert(made =~= requests_of(state, world));
        },
        Some((at_cursor, foreground)) => {
            match root_told(state.caches, world, at_cursor) {
                None => {
                    reveal_with_fuel(handle, 3);
                    assert(end =~= done);
                    assert(made =~= requests_of(state, world));
                },
                Some(root) => {
                    let left = if state.caches.root_of(at_cursor) is None {
                        (budget - 2) as nat
                    } else {
                        (budget - 1) as nat
                    };
                    known_root_leads_on(start, world, at_cursor, root, foreground, left);
                    known_root_is_reached(start, world, at_cursor, root, foreground, budget);
                    assert(caches_after(start, world) == caches_after(state, world));
                    assert(end =~= done);
                    assert(made =~= requests_of(state, world));
                },
            }
        },
    }
}

/// The way to the moment that the root of the window under the cursor is known.
proof fn known_root_is_reached(
    state: ListenerModel,
    world: Surroundings,
    at_cursor: isize,
    root: isize,
    foreground: isize,
    budget: nat,
)
    requires
        budget >= 2,
        state.phase == Phase::Locating,
        windows_told(world) == Some((at_cursor, foreground)),
        root_told(state.caches, world, at_cursor) == Some(root),
    ensures
        ({
            let asked = state.caches.root_of(at_cursor) is None;
            let (end, rest) = handle(
                state.remembering(learn_root(state.caches, world, at_cursor)).after_root(
                    root,
                    foreground,
                ),
                world,
                if asked {
                    (budget - 2) as nat
                } else {
                    (budget - 1) as nat
                },
            );
            handle(state, world, budget) == (
                end,
                seq![Request::LocateWindows] + (made_if(
                    asked,
                    Request::GetAncestor { hwnd: at_cursor },
                ) + rest),
            )
        }),
{
    let learned = state.remembering(learn_root(state.caches, world, at_cursor));
    let next = state.after(world.answer(Request::LocateWindows))->0;
    if state.caches.root_of(at_cursor) is None {
        assert(next == state.at(Phase::FindingRoot { at_cursor, foreground }));
        let then = next.after(world.answer(request_of(next.phase)))->0;
        assert(then =~= learned.after_root(root, foreground));
        let (end, rest) = handle(then, world, (budget - 2) as nat);
        assert(handle(next, world, (budget - 1) as nat) == (
            end,
            seq![Request::GetAncestor { hwnd: at_cursor }] + rest,
        ));
    } else {
        assert(next =~= learned.after_root(root, foreground));
        let (end, rest) = handle(next, world, (budget - 1) as nat);
        assert(made_if(false, Request::GetAncestor { hwnd: at_cursor }) + rest =~= rest);
    }
}

proof fn made_if_contains(condition: bool, request: Request, sought: Request)
    ensures
        made_if(condition, request).contains(sought) <==> condition && sought == request,
{
    if condition {
        assert(made_if(condition, request)[0] == request);
    }
}

/// Which requests are among those that a movement leads to.
pub(crate) proof fn requests_of_contains(state: ListenerModel, world: Surroundings, sought: Request)
    ensures
        requests_of(state, world).contains(sought) <==> {
            ||| sought == Request::LocateWindows
            ||| windows_told(world) matches Some((at_cursor, _))
                && state.caches.root_of(at_cursor) is None && sought == (Request::GetAncestor {
                hwnd: at_cursor,
            })
            ||| contenders(state.caches, world) matches Some((root, foreground)) && {
                ||| state.caches.class_of(root) is None && sought == (Request::GetClass {
                    hwnd: root,
                })
                ||| state.caches.class_of(foreground) is None && sought == (Request::GetClass {
                    hwnd: foreground,
                })
                ||| undecided(state, world, root, foreground) && sought == if state.uses_hwnds {
                    Request::ReadHwnds
                } else {
                    Request::GetExStyles { cursor_root: root, foreground }
                }
                ||| candidate(state, world) is Some && sought == Request::CheckEnabled
                ||| candidate(state, world) is Some && world.enabled && sought == (
                Request::Raise { hwnd: root })
            }
        },
{
    broadcast use vstd::seq_lib::lemma_seq_concat_contains_all_elements;

    let caches = state.caches;
    assert(seq![Request::LocateWindows].contains(sought) <==> sought == Request::LocateWindows)
        by {
        made_if_contains(true, Request::LocateWindows, sought);
    }
    if let Some((at_cursor, _)) = windows_told(world) {
        made_if_contains(
            caches.root_of(at_cursor) is None,
            Request::GetAncestor { hwnd: at_cursor },
            sought,
        );
    }
    if let Some((root, foreground)) = contenders(caches, world) {
        made_if_contains(
            caches.class_of(root) is None,
            Request::GetClass { hwnd: root },
            sought,
        );
        made_if_contains(
            caches.class_of(foreground) is None,
            Request::GetClass { hwnd: foreground },
            sought,
        );
        made_if_contains(
            undecided(state, world, root, foreground),
            if state.uses_hwnds {
                Request::ReadHwnds
            } else {
                Request::GetExStyles { cursor_root: root, foreground }
            },
            sought,
        );
        let should_raise = !are_steam(caches, world, root, foreground) && both_eligible(
            state,
            world,
            root,
            foreground,
        );
        made_if_contains(should_raise, Request::CheckEnabled, sought);
        made_if_contains(should_raise && world.enabled, Request::Raise { hwnd: root }, sought);
    }
}

/// A movement raises a window only while following the mouse is switched on. The window is the
/// root of the one under the cursor. It is not the foreground window, nor one known to belong
/// to its application, and both are eligible.
pub proof fn a_raise_is_warranted(state: ListenerModel, world: Surroundings, hwnd: isize)
    ensures
        requests_of(state, world).contains(Request::Raise { hwnd }) <==> raised(state, world)
            == Some(hwnd),
        raised(state, world) == Some(hwnd) <==> {
            &&& world.enabled
            &&& world.at_cursor is Some
            &&& world.foreground is Some
            &&& world.at_cursor != world.foreground
            &&& root_told(state.caches, world, world.at_cursor->0) == Some(hwnd)
            &&& Some(hwnd) != world.foreground
            &&& state.caches.paired_with(hwnd) != world.foreground
            &&& !are_steam(state.caches, world, hwnd, world.foreground->0)
            &&& both_eligible(state, world, hwnd, world.foreground->0)
        },
{
    requests_of_contains(state, world, Request::Raise { hwnd });
}

/// Whether two surroundings differ at most in whether following the mouse is switched on.
pub open spec fn same_but_for_the_switch(left: Surroundings, right: Surroundings) -> bool {
    right == (Surroundings { enabled: right.enabled, ..left })
}

/// Switching following the mouse off keeps windows from being raised and does nothing else:
/// what is remembered, what would be raised and the state that a movement ends in stay the same.
pub proof fn the_switch_touches_the_raise_alone(
    state: ListenerModel,
    left: Surroundings,
    right: Surroundings,
    budget: nat,
)
    requires
        same_but_for_the_switch(left, right),
        state.phase == Phase::Listening,
        !state.is_mouse_down,
        budget >= 7,
    ensures
        caches_after(state, left) == caches_after(state, right),
        candidate(state, left) == candidate(state, right),
        handle(state.at(Phase::Locating), left, budget).0 == handle(
            state.at(Phase::Locating),
            right,
            budget,
        ).0,
{
    the_switch_changes_no_memory(state, left, right);
    a_movement_is_handled_as_told(state, left, budget);
    a_movement_is_handled_as_told(state, right, budget);
}

proof fn the_switch_changes_no_memory(
    state: ListenerModel,
    left: Surroundings,
    right: Surroundings,
)
    requires
        same_but_for_the_switch(left, right),
    ensures
        caches_after(state, left) == caches_after(state, right),
        candidate(state, left) == candidate(state, right),
{
    assert(windows_told(left) == windows_told(right));
    assert(contenders(state.caches, left) == contenders(state.caches, right));
    if let Some((root, foreground)) = contenders(state.caches, left) {
        assert(judgement(state, left, root, foreground) == judgement(
            state,
            right,
            root,
            foreground,
        ));
        assert(judgement(state, left, foreground, root) == judgement(
            state,
            right,
            foreground,
            root,
        ));
    }
}

/// The state after movements, one after the other, each in its own surroundings.
pub open spec fn after_movements(
    state: ListenerModel,
    worlds: Seq<Surroundings>,
) -> ListenerModel
    decreases worlds.len(),
{
    if worlds.len() == 0 {
        state
    } else {
        let before = after_movements(state, worlds.drop_last());
        before.remembering(caches_after(before, worlds.last()))
    }
}

/// However often following the mouse is switched on and off in between, any number of movements
/// leaves the machine in the same state.
pub proof fn the_switch_leaves_no_trace(
    state: ListenerModel,
    left: Seq<Surroundings>,
    right: Seq<Surroundings>,
)
    requires
        left.len() == right.len(),
        forall|i: int|
            0 <= i < left.len() ==> same_but_for_the_switch(#[trigger] left[i], right[i]),
    ensures
        after_movements(state, left) == after_movements(state, right),
    decreases left.len(),
{
    if left.len() > 0 {
        let l = left.drop_last();
        let r = right.drop_last();
        assert forall|i: int| 0 <= i < l.len() implies same_but_for_the_switch(
            #[trigger] l[i],
            r[i],
        ) by {
            assert(l[i] == left[i] && r[i] == right[i]);
        }
        the_switch_leaves_no_trace(state, l, r);
        let last = left.len() - 1;
        assert(same_but_for_the_switch(left[last], right[last]));
        the_switch_changes_no_memory(after_movements(state, l), left.last(), right.last());
    }
}

/// The same state with nothing remembered.
pub open spec fn forgetful(state: ListenerModel) -> ListenerModel {
    state.remembering(CachesModel::empty())
}

/// Whether everything remembered is what the system would still tell.
pub open spec fn up_to_date(state: ListenerModel, world: Surroundings) -> bool {
    &&& forall|h: isize|
        (#[trigger] state.caches.root_of(h)) is Some ==> state.caches.root_of(h) == (world.root)(h)
    &&& forall|h: isize|
        (#[trigger] state.caches.class_of(h)) is Some ==> state.caches.class_of(h) == (
        world.class)(h)
    &&& forall|h: isize|
        (#[trigger] state.caches.paired_with(h)) matches Some(paired) ==> is_steam_pair(
            (world.class)(h),
            (world.class)(paired),
        )
    &&& contenders(CachesModel::empty(), world) matches Some((root, foreground)) ==> {
        &&& state.caches.eligibility_of(root) is Some ==> state.caches.eligibility_of(root)
            == judgement(forgetful(state), world, root, foreground)
        &&& state.caches.eligibility_of(foreground) is Some ==> state.caches.eligibility_of(
            foreground,
        ) == judgement(forgetful(state), world, foreground, root)
    }
}

/// As long as what is remembered is still so, remembering it changes no decision, and what a
/// movement adds is so as well.
pub proof fn remembering_changes_no_decision(state: ListenerModel, world: Surroundings)
    requires
        up_to_date(state, world),
    ensures
        raised(state, world) == raised(forgetful(state), world),
        up_to_date(state.remembering(caches_after(state, world)), world),
{
    let fresh = forgetful(state);
    assert(forall|h: isize| #[trigger]
        class_told(state.caches, world, h) == class_told(fresh.caches, world, h));
    assert(forall|h: isize| #[trigger]
        root_told(state.caches, world, h) == root_told(fresh.caches, world, h));
    let after = state.remembering(caches_after(state, world));
    assert forall|h: isize| (#[trigger] after.caches.root_of(h)) is Some implies after.caches.root_of(
        h,
    ) == (world.root)(h) by {
        assert(state.caches.root_of(h) is Some ==> state.caches.root_of(h) == (world.root)(h));
    }
    assert forall|h: isize|
        (#[trigger] after.caches.class_of(h)) is Some implies after.caches.class_of(h) == (
    world.class)(h) by {
        assert(state.caches.class_of(h) is Some ==> state.caches.class_of(h) == (world.class)(h));
    }
    assert forall|h: isize|
        (#[trigger] after.caches.paired_with(h)) is Some implies is_steam_pair(
        (world.class)(h),
        (world.class)(after.caches.paired_with(h)->0),
    ) by {
        assert(state.caches.paired_with(h) matches Some(paired) ==> is_steam_pair(
            (world.class)(h),
            (world.class)(paired),
        ));
    }
    if let Some((root, foreground)) = contenders(CachesModel::empty(), world) {
        assert(judgement(state, world, root, foreground) == judgement(
            fresh,
            world,
            root,
            foreground,
        ));
        assert(judgement(state, world, foreground, root) == judgement(
            fresh,
            world,
            foreground,
            root,
        ));
    }
}

/// Whether a window manager's list lacks a contender that is remembered as eligible, while it
/// holds the other, which is not remembered yet.
pub open spec fn list_contradicts_memory(state: ListenerModel, world: Surroundings) -> bool {
    &&& state.uses_hwnds
    &&& contenders(state.caches, world) matches Some((root, foreground)) && {
        ||| dropped_beside(state, world, root, foreground)
        ||| dropped_beside(state, world, foreground, root)
    }
}

/// Whether a window remembered as eligible is not eligible by the list, and the other is, but
/// is not remembered.
pub open spec fn dropped_beside(
    state: ListenerModel,
    world: Surroundings,
    hwnd: isize,
    other: isize,
) -> bool {
    &&& state.caches.eligibility_of(hwnd) == Some(true)
    &&& state.caches.eligibility_of(other) is None
    &&& judgement(state, world, hwnd, other) == Some(false)
    &&& judgement(state, world, other, hwnd) == Some(true)
}

/// When the mouse moves again and nothing else changed, the system is asked for no root and no
/// class that it told before. It is asked for no style again; a window manager's list is read
/// again only if the windows were not both found eligible. Nothing new is remembered, and the
/// decision stands, but for one case: a window that the list lost still counts as eligible once
/// the other window is remembered as well.
pub proof fn what_was_told_is_not_asked_again(state: ListenerModel, world: Surroundings)
    ensures
        ({
            let again = state.remembering(caches_after(state, world));
            let asked = requests_of(again, world);
            &&& forall|hwnd: isize| #[trigger]
                asked.contains(Request::GetAncestor { hwnd }) ==> (world.root)(hwnd) is None
            &&& forall|hwnd: isize| #[trigger]
                asked.contains(Request::GetClass { hwnd }) ==> (world.class)(hwnd) is None
            &&& forall|cursor_root: isize, foreground: isize|
                !(#[trigger] asked.contains(Request::GetExStyles { cursor_root, foreground }))
            &&& asked.contains(Request::ReadHwnds) ==> candidate(state, world) is None
            &&& caches_after(again, world) == caches_after(state, world)
            &&& !list_contradicts_memory(state, world) ==> candidate(again, world) == candidate(
                state,
                world,
            )
        }),
{
    let again = state.remembering(caches_after(state, world));
    let asked = requests_of(again, world);
    assert forall|hwnd: isize| #[trigger]
        asked.contains(Request::GetAncestor { hwnd }) implies (world.root)(hwnd) is None by {
        requests_of_contains(again, world, Request::GetAncestor { hwnd });
    }
    assert forall|hwnd: isize| #[trigger]
        asked.contains(Request::GetClass { hwnd }) implies (world.class)(hwnd) is None by {
        requests_of_contains(again, world, Request::GetClass { hwnd });
    }
    assert forall|cursor_root: isize, foreground: isize|
        !(#[trigger] asked.contains(Request::GetExStyles { cursor_root, foreground })) by {
        requests_of_contains(again, world, Request::GetExStyles { cursor_root, foreground });
    }
    requests_of_contains(again, world, Request::ReadHwnds);
    if let Some((root, foreground)) = contenders(state.caches, world) {
        assert(judgement(again, world, root, foreground) == judgement(
            state,
            world,
            root,
            foreground,
        ));
        assert(judgement(again, world, foreground, root) == judgement(
            state,
            world,
            foreground,
            root,
        ));
    }
    assert(caches_after(again, world) =~= caches_after(state, world));
}

/// When the mouse moves again right after Steam's two windows were recognised, and nothing else
/// changed, nothing more is asked than where the windows are, and nothing is raised.
pub proof fn recognised_steam_windows_need_no_question(state: ListenerModel, world: Surroundings)
    requires
        contenders(state.caches, world) matches Some((root, foreground)) && are_steam(
            state.caches,
            world,
            root,
            foreground,
        ),
    ensures
        ({
            let again = state.remembering(caches_after(state, world));
            &&& raised(state, world) is None
            &&& raised(again, world) is None
            &&& requests_of(again, world) == seq![Request::LocateWindows]
            &&& caches_after(again, world) == again.caches
        }),
{
    let again = state.remembering(caches_after(state, world));
    assert(requests_of(again, world) =~= seq![Request::LocateWindows]);
}

} // verus!
