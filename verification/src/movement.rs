//! Following the mouse: a machine that is told what happened and says what to do next.
//!
//! The machine makes no system call itself. Each step it names one request; whoever drives it
//! performs the request and hands the answer back as an event.

use crate::caches::{Caches, CachesModel};
use crate::eligibility::{
    are_steam_classes, eligible_by_hwnds, eligible_by_style, is_eligible_by_hwnds,
    is_eligible_by_style, is_steam_pair,
};
use vstd::prelude::*;

verus! {

/// The age in nanoseconds above which the caches are cleared: ten minutes.
pub const MAX_CACHE_AGE_NANOS: u128 = 60 * 10 * 1_000_000_000;

/// What was done with a button of the mouse.
#[derive(Debug, Clone, Copy, PartialEq, Eq, Structural)]
pub enum ButtonAction {
    Press,
    Release,
}

/// An input message, as far as it matters here.
#[derive(Debug, Clone, Copy, PartialEq, Eq, Structural)]
pub enum Input {
    MouseMoveRelative,
    MouseButton { action: ButtonAction },
    Other,
}

/// What the machine wants done next.
#[derive(Debug, Clone, Copy, PartialEq, Eq, Structural)]
pub enum Request {
    /// Tell whether the program is still to run.
    CheckRunning,
    /// Wait for the next input message.
    NextEvent,
    /// Tell how long ago the caches were last cleared.
    CheckCacheAge,
    /// Measure the age of the caches from now on.
    RestartCacheClock,
    /// Find the window under the cursor and the foreground window.
    LocateWindows,
    /// Find the root window of a window.
    GetAncestor { hwnd: isize },
    /// Read the class of a window.
    GetClass { hwnd: isize },
    /// Read the window manager's list of handles.
    ReadHwnds,
    /// Read the extended styles of both windows.
    GetExStyles { cursor_root: isize, foreground: isize },
    /// Tell whether following the mouse is switched on.
    CheckEnabled,
    /// Raise and focus a window.
    Raise { hwnd: isize },
    /// Nothing: the machine has stopped.
    Stop,
}

/// What came of a request. Where the system gave no answer, the answer is `None`.
#[derive(Debug)]
pub enum Event {
    Running(bool),
    Input(Input),
    CacheAge { nanos: u128 },
    CacheClockRestarted,
    Windows { at_cursor: Option<isize>, foreground: Option<isize> },
    Ancestor(Option<isize>),
    Class(Option<String>),
    Hwnds(Option<String>),
    ExStyles { root_style: u32, foreground_style: u32 },
    Enabled(bool),
    Raised,
}

/// An event, its texts as characters.
#[verifier::ext_equal]
pub enum EventModel {
    Running(bool),
    Input(Input),
    CacheAge { nanos: int },
    CacheClockRestarted,
    Windows { at_cursor: Option<isize>, foreground: Option<isize> },
    Ancestor(Option<isize>),
    Class(Option<Seq<char>>),
    Hwnds(Option<Seq<char>>),
    ExStyles { root_style: u32, foreground_style: u32 },
    Enabled(bool),
    Raised,
}

/// The characters of an owned text, if there is one.
pub open spec fn chars_of(text: Option<String>) -> Option<Seq<char>> {
    match text {
        Some(text) => Some(text@),
        None => None,
    }
}

impl View for Event {
    type V = EventModel;

    open spec fn view(&self) -> EventModel {
        match *self {
            Event::Running(running) => EventModel::Running(running),
            Event::Input(input) => EventModel::Input(input),
            Event::CacheAge { nanos } => EventModel::CacheAge { nanos: nanos as int },
            Event::CacheClockRestarted => EventModel::CacheClockRestarted,
            Event::Windows { at_cursor, foreground } => EventModel::Windows {
                at_cursor,
                foreground,
            },
            Event::Ancestor(root) => EventModel::Ancestor(root),
            Event::Class(class) => EventModel::Class(chars_of(class)),
            Event::Hwnds(raw_hwnds) => EventModel::Hwnds(chars_of(raw_hwnds)),
            Event::ExStyles { root_style, foreground_style } => EventModel::ExStyles {
                root_style,
                foreground_style,
            },
            Event::Enabled(enabled) => EventModel::Enabled(enabled),
            Event::Raised => EventModel::Raised,
        }
    }
}

/// Which answer the machine waits for, and the windows that it has found so far.
#[derive(Debug, Clone, Copy, PartialEq, Eq, Structural)]
pub enum Phase {
    /// Waits to hear whether to go on, before the next turn.
    Idling,
    /// Waits for an input message that it will ignore, where focus is left to the system.
    Pumping,
    /// Waits for nothing any more.
    Stopped,
    /// Waits for the age of the caches.
    Aging,
    /// Waits for the clock to be set back.
    Resetting,
    /// Waits for an input message.
    Listening,
    /// Waits for the window under the cursor and the foreground window.
    Locating,
    /// Waits for the root of the window under the cursor.
    FindingRoot { at_cursor: isize, foreground: isize },
    /// Waits for the class of the root window.
    ClassifyingRoot { cursor_root: isize, foreground: isize },
    /// Waits for the class of the foreground window.
    ClassifyingForeground { cursor_root: isize, foreground: isize },
    /// Waits for the window manager's list of handles.
    ReadingHwnds { cursor_root: isize, foreground: isize },
    /// Waits for the extended styles of both windows.
    ReadingStyles { cursor_root: isize, foreground: isize },
    /// Waits to hear whether following the mouse is switched on.
    Permitting { cursor_root: isize },
    /// Waits for the window to be raised.
    Raising { cursor_root: isize },
}

/// The request that leads to the answer waited for.
pub open spec fn request_of(phase: Phase) -> Request {
    match phase {
        Phase::Idling => Request::CheckRunning,
        Phase::Pumping => Request::NextEvent,
        Phase::Stopped => Request::Stop,
        Phase::Aging => Request::CheckCacheAge,
        Phase::Resetting => Request::RestartCacheClock,
        Phase::Listening => Request::NextEvent,
        Phase::Locating => Request::LocateWindows,
        Phase::FindingRoot { at_cursor, .. } => Request::GetAncestor { hwnd: at_cursor },
        Phase::ClassifyingRoot { cursor_root, .. } => Request::GetClass { hwnd: cursor_root },
        Phase::ClassifyingForeground { foreground, .. } => Request::GetClass { hwnd: foreground },
        Phase::ReadingHwnds { .. } => Request::ReadHwnds,
        Phase::ReadingStyles { cursor_root, foreground } => Request::GetExStyles {
            cursor_root,
            foreground,
        },
        Phase::Permitting { .. } => Request::CheckEnabled,
        Phase::Raising { cursor_root } => Request::Raise { hwnd: cursor_root },
    }
}

/// The state of the machine.
#[verifier::ext_equal]
pub struct ListenerModel {
    pub no_raise: bool,
    pub uses_hwnds: bool,
    pub is_mouse_down: bool,
    pub caches: CachesModel,
    pub phase: Phase,
}

impl ListenerModel {
    /// The state before anything happened.
    pub open spec fn initial(no_raise: bool, uses_hwnds: bool) -> ListenerModel {
        ListenerModel {
            no_raise,
            uses_hwnds,
            is_mouse_down: false,
            caches: CachesModel::empty(),
            phase: Phase::Idling,
        }
    }

    /// The same state in another phase.
    pub open spec fn at(self, phase: Phase) -> ListenerModel {
        ListenerModel { phase, ..self }
    }

    /// The same state with other caches.
    pub open spec fn remembering(self, caches: CachesModel) -> ListenerModel {
        ListenerModel { caches, ..self }
    }

    /// The state once the root of the window under the cursor is known: nothing is left to do
    /// if it has the focus, or is remembered to belong to the application that has.
    pub open spec fn after_root(self, cursor_root: isize, foreground: isize) -> ListenerModel {
        if cursor_root == foreground || self.caches.paired_with(cursor_root) == Some(foreground) {
            self.at(Phase::Idling)
        } else if self.caches.class_of(cursor_root) is None {
            self.at(Phase::ClassifyingRoot { cursor_root, foreground })
        } else {
            self.after_root_class(cursor_root, foreground)
        }
    }

    /// The state once the class of the root window is known, or known not to be had.
    pub open spec fn after_root_class(
        self,
        cursor_root: isize,
        foreground: isize,
    ) -> ListenerModel {
        if self.caches.class_of(foreground) is None {
            self.at(Phase::ClassifyingForeground { cursor_root, foreground })
        } else {
            self.after_classes(cursor_root, foreground)
        }
    }

    /// The state once both classes are known, or known not to be had.
    pub open spec fn after_classes(self, cursor_root: isize, foreground: isize) -> ListenerModel {
        if is_steam_pair(self.caches.class_of(cursor_root), self.caches.class_of(foreground)) {
            self.remembering(self.caches.with_pair(cursor_root, foreground)).at(Phase::Idling)
        } else {
            match (
                self.caches.eligibility_of(cursor_root),
                self.caches.eligibility_of(foreground),
            ) {
                (Some(cursor_root_is_eligible), Some(foreground_is_eligible)) => self.after_verdict(
                    cursor_root,
                    cursor_root_is_eligible && foreground_is_eligible,
                ),
                _ => if self.uses_hwnds {
                    self.at(Phase::ReadingHwnds { cursor_root, foreground })
                } else {
                    self.at(Phase::ReadingStyles { cursor_root, foreground })
                },
            }
        }
    }

    /// The state once it is clear whether the window should be raised.
    pub open spec fn after_verdict(self, cursor_root: isize, should_raise: bool) -> ListenerModel {
        if should_raise {
            self.at(Phase::Permitting { cursor_root })
        } else {
            self.at(Phase::Idling)
        }
    }

    /// The state once the list of handles was read. Only eligible windows are remembered: the
    /// window manager may be late in writing its list.
    pub open spec fn after_hwnds(
        self,
        cursor_root: isize,
        foreground: isize,
        raw_hwnds: Option<Seq<char>>,
    ) -> ListenerModel {
        match raw_hwnds {
            None => self.at(Phase::Idling),
            Some(raw_hwnds) => {
                let root_class = self.caches.class_of(cursor_root);
                let foreground_class = self.caches.class_of(foreground);
                let root_ok = eligible_by_hwnds(
                    raw_hwnds,
                    cursor_root,
                    root_class,
                    foreground_class,
                );
                let foreground_ok = eligible_by_hwnds(
                    raw_hwnds,
                    foreground,
                    foreground_class,
                    root_class,
                );
                let first = if root_ok {
                    self.caches.with_eligibility(cursor_root, true)
                } else {
                    self.caches
                };
                let second = if foreground_ok {
                    first.with_eligibility(foreground, true)
                } else {
                    first
                };
                self.remembering(second).after_verdict(cursor_root, root_ok && foreground_ok)
            },
        }
    }

    /// The state once the extended styles were read: what they say of both windows is
    /// remembered.
    pub open spec fn after_styles(
        self,
        cursor_root: isize,
        foreground: isize,
        root_style: u32,
        foreground_style: u32,
    ) -> ListenerModel {
        let root_class = self.caches.class_of(cursor_root);
        let foreground_class = self.caches.class_of(foreground);
        let root_ok = eligible_by_style(root_style, root_class, foreground_class);
        let foreground_ok = eligible_by_style(foreground_style, foreground_class, root_class);
        let caches = self.caches.with_eligibility(cursor_root, root_ok).with_eligibility(
            foreground,
            foreground_ok,
        );
        self.remembering(caches).after_verdict(cursor_root, root_ok && foreground_ok)
    }

    /// The state after an event, if it is one that the machine waits for.
    pub open spec fn after(self, event: EventModel) -> Option<ListenerModel> {
        match (self.phase, event) {
            (Phase::Idling, EventModel::Running(running)) => Some(
                self.at(
                    if !running {
                        Phase::Stopped
                    } else if self.no_raise {
                        Phase::Pumping
                    } else {
                        Phase::Aging
                    },
                ),
            ),
            (Phase::Pumping, EventModel::Input(_)) => Some(self.at(Phase::Idling)),
            (Phase::Aging, EventModel::CacheAge { nanos }) => Some(
                if nanos > MAX_CACHE_AGE_NANOS {
                    self.remembering(CachesModel::empty()).at(Phase::Resetting)
                } else {
                    self.at(Phase::Listening)
                },
            ),
            (Phase::Resetting, EventModel::CacheClockRestarted) => Some(self.at(Phase::Listening)),
            (Phase::Listening, EventModel::Input(Input::MouseMoveRelative)) => Some(
                self.at(
                    if self.is_mouse_down {
                        Phase::Idling
                    } else {
                        Phase::Locating
                    },
                ),
            ),
            (Phase::Listening, EventModel::Input(Input::MouseButton { action })) => Some(
                ListenerModel {
                    is_mouse_down: action == ButtonAction::Press,
                    ..self.at(Phase::Idling)
                },
            ),
            (Phase::Listening, EventModel::Input(Input::Other)) => Some(self.at(Phase::Idling)),
            (Phase::Locating, EventModel::Windows { at_cursor, foreground }) => Some(
                match (at_cursor, foreground) {
                    (Some(at_cursor), Some(foreground)) => if at_cursor == foreground {
                        self.at(Phase::Idling)
                    } else {
                        match self.caches.root_of(at_cursor) {
                            Some(cursor_root) => self.after_root(cursor_root, foreground),
                            None => self.at(Phase::FindingRoot { at_cursor, foreground }),
                        }
                    },
                    _ => self.at(Phase::Idling),
                },
            ),
            (Phase::FindingRoot { at_cursor, foreground }, EventModel::Ancestor(root)) => Some(
                match root {
                    Some(cursor_root) => self.remembering(
                        self.caches.with_root(at_cursor, cursor_root),
                    ).after_root(cursor_root, foreground),
                    None => self.at(Phase::Idling),
                },
            ),
            (
                Phase::ClassifyingRoot { cursor_root, foreground },
                EventModel::Class(class),
            ) => Some(
                match class {
                    Some(class) => self.remembering(
                        self.caches.with_class(cursor_root, class),
                    ).after_root_class(cursor_root, foreground),
                    None => self.after_root_class(cursor_root, foreground),
                },
            ),
            (
                Phase::ClassifyingForeground { cursor_root, foreground },
                EventModel::Class(class),
            ) => Some(
                match class {
                    Some(class) => self.remembering(
                        self.caches.with_class(foreground, class),
                    ).after_classes(cursor_root, foreground),
                    None => self.after_classes(cursor_root, foreground),
                },
            ),
            (
                Phase::ReadingHwnds { cursor_root, foreground },
                EventModel::Hwnds(raw_hwnds),
            ) => Some(self.after_hwnds(cursor_root, foreground, raw_hwnds)),
            (
                Phase::ReadingStyles { cursor_root, foreground },
                EventModel::ExStyles { root_style, foreground_style },
            ) => Some(
                self.after_styles(cursor_root, foreground, root_style, foreground_style),
            ),
            (Phase::Permitting { cursor_root }, EventModel::Enabled(enabled)) => Some(
                self.at(
                    if enabled {
                        Phase::Raising { cursor_root }
                    } else {
                        Phase::Idling
                    },
                ),
            ),
            (Phase::Raising { .. }, EventModel::Raised) => Some(self.at(Phase::Idling)),
            _ => None,
        }
    }
}

/// The machine.
pub struct MovementListener {
    no_raise: bool,
    uses_hwnds: bool,
    is_mouse_down: bool,
    caches: Caches,
    phase: Phase,
}

impl View for MovementListener {
    type V = ListenerModel;

    closed spec fn view(&self) -> ListenerModel {
        ListenerModel {
            no_raise: self.no_raise,
            uses_hwnds: self.uses_hwnds,
            is_mouse_down: self.is_mouse_down,
            caches: self.caches@,
            phase: self.phase,
        }
    }
}

impl MovementListener {
    /// A machine that has seen nothing yet. With `no_raise`, focus is left to the system and
    /// the machine only keeps input messages moving; with `uses_hwnds`, a window manager's list
    /// of handles decides which windows are eligible.
    pub fn new(no_raise: bool, uses_hwnds: bool) -> (listener: MovementListener)
        ensures
            listener@ == ListenerModel::initial(no_raise, uses_hwnds),
    {
        MovementListener {
            no_raise,
            uses_hwnds,
            is_mouse_down: false,
            caches: Caches::new(),
            phase: Phase::Idling,
        }
    }

    /// Which answer the machine waits for.
    pub fn phase(&self) -> (phase: Phase)
        ensures
            phase == self@.phase,
    {
        self.phase
    }

    /// What is remembered of windows.
    pub fn caches(&self) -> (caches: &Caches)
        ensures
            caches@ == self@.caches,
    {
        &self.caches
    }

    /// What the machine wants done next.
    pub fn request(&self) -> (request: Request)
        ensures
            request == request_of(self@.phase),
    {
        match self.phase {
            Phase::Idling => Request::CheckRunning,
            Phase::Pumping => Request::NextEvent,
            Phase::Stopped => Request::Stop,
            Phase::Aging => Request::CheckCacheAge,
            Phase::Resetting => Request::RestartCacheClock,
            Phase::Listening => Request::NextEvent,
            Phase::Locating => Request::LocateWindows,
            Phase::FindingRoot { at_cursor, .. } => Request::GetAncestor { hwnd: at_cursor },
            Phase::ClassifyingRoot { cursor_root, .. } => Request::GetClass { hwnd: cursor_root },
            Phase::ClassifyingForeground { foreground, .. } => Request::GetClass {
                hwnd: foreground,
            },
            Phase::ReadingHwnds { .. } => Request::ReadHwnds,
            Phase::ReadingStyles { cursor_root, foreground } => Request::GetExStyles {
                cursor_root,
                foreground,
            },
            Phase::Permitting { .. } => Request::CheckEnabled,
            Phase::Raising { cursor_root } => Request::Raise { hwnd: cursor_root },
        }
    }

    fn enter_root(&mut self, cursor_root: isize, foreground: isize)
        ensures
            final(self)@ == old(self)@.after_root(cursor_root, foreground),
    {
        if cursor_root == foreground {
            self.phase = Phase::Idling;
            return ;
        }
        if let Some(paired_hwnd) = self.caches.paired_with(cursor_root) {
            if paired_hwnd == foreground {
                self.phase = Phase::Idling;
                return ;
            }
        }
        if self.caches.class_of(cursor_root).is_none() {
            self.phase = Phase::ClassifyingRoot { cursor_root, foreground };
        } else {
            self.enter_root_class(cursor_root, foreground);
        }
    }

    fn enter_root_class(&mut self, cursor_root: isize, foreground: isize)
        ensures
            final(self)@ == old(self)@.after_root_class(cursor_root, foreground),
    {
        if self.caches.class_of(foreground).is_none() {
            self.phase = Phase::ClassifyingForeground { cursor_root, foreground };
        } else {
            self.enter_classes(cursor_root, foreground);
        }
    }

    fn enter_classes(&mut self, cursor_root: isize, foreground: isize)
        ensures
            final(self)@ == old(self)@.after_classes(cursor_root, foreground),
    {
        if are_steam_classes(self.caches.class_of(cursor_root), self.caches.class_of(foreground)) {
            self.caches.remember_pair(cursor_root, foreground);
            self.phase = Phase::Idling;
            return ;
        }
        match (self.caches.eligibility_of(cursor_root), self.caches.eligibility_of(foreground)) {
            (Some(cursor_root_is_eligible), Some(foreground_is_eligible)) => {
                self.enter_verdict(cursor_root, cursor_root_is_eligible && foreground_is_eligible);
            },
            _ => {
                self.phase = if self.uses_hwnds {
                    Phase::ReadingHwnds { cursor_root, foreground }
                } else {
                    Phase::ReadingStyles { cursor_root, foreground }
                };
            },
        }
    }

    fn enter_verdict(&mut self, cursor_root: isize, should_raise: bool)
        ensures
            final(self)@ == old(self)@.after_verdict(cursor_root, should_raise),
    {
        self.phase = if should_raise {
            Phase::Permitting { cursor_root }
        } else {
            Phase::Idling
        };
    }

    fn judge_by_hwnds(&mut self, cursor_root: isize, foreground: isize, raw_hwnds: &Option<String>)
        ensures
            final(self)@ == old(self)@.after_hwnds(cursor_root, foreground, chars_of(*raw_hwnds)),
    {
        match raw_hwnds {
            None => {
                self.phase = Phase::Idling;
            },
            Some(raw_hwnds) => {
                let root_class = self.caches.class_of(cursor_root);
                let foreground_class = self.caches.class_of(foreground);
                let cursor_root_is_eligible = is_eligible_by_hwnds(
                    raw_hwnds.as_str(),
                    cursor_root,
                    root_class,
                    foreground_class,
                );
                let foreground_is_eligible = is_eligible_by_hwnds(
                    raw_hwnds.as_str(),
                    foreground,
                    foreground_class,
                    root_class,
                );
                if cursor_root_is_eligible {
                    self.caches.remember_eligibility(cursor_root, true);
                }
                if foreground_is_eligible {
                    self.caches.remember_eligibility(foreground, true);
                }
                self.enter_verdict(cursor_root, cursor_root_is_eligible && foreground_is_eligible);
            },
        }
    }

    fn judge_by_style(
        &mut self,
        cursor_root: isize,
        foreground: isize,
        root_style: u32,
        foreground_style: u32,
    )
        ensures
            final(self)@ == old(self)@.after_styles(
                cursor_root,
                foreground,
                root_style,
                foreground_style,
            ),
    {
        let root_class = self.caches.class_of(cursor_root);
        let foreground_class = self.caches.class_of(foreground);
        let cursor_root_is_eligible = is_eligible_by_style(
            root_style,
            root_class,
            foreground_class,
        );
        let foreground_is_eligible = is_eligible_by_style(
            foreground_style,
            foreground_class,
            root_class,
        );
        self.caches.remember_eligibility(cursor_root, cursor_root_is_eligible);
        self.caches.remember_eligibility(foreground, foreground_is_eligible);
        self.enter_verdict(cursor_root, cursor_root_is_eligible && foreground_is_eligible);
    }

    /// Takes the answer to the last request and gives the next one. An event that does not
    /// answer the last request changes nothing and gives `None`.
    pub fn step(&mut self, event: Event) -> (request: Option<Request>)
        ensures
            match old(self)@.after(event@) {
                Some(next) => final(self)@ == next && request == Some(request_of(next.phase)),
                None => final(self)@ == old(self)@ && request is None,
            },
    {
        match (self.phase, event) {
            (Phase::Idling, Event::Running(running)) => {
                self.phase = if !running {
                    Phase::Stopped
                } else if self.no_raise {
                    Phase::Pumping
                } else {
                    Phase::Aging
                };
            },
            (Phase::Pumping, Event::Input(_)) => {
                self.phase = Phase::Idling;
            },
            (Phase::Aging, Event::CacheAge { nanos }) => {
                if nanos > MAX_CACHE_AGE_NANOS {
                    self.caches = Caches::new();
                    self.phase = Phase::Resetting;
                } else {
                    self.phase = Phase::Listening;
                }
            },
            (Phase::Resetting, Event::CacheClockRestarted) => {
                self.phase = Phase::Listening;
            },
            (Phase::Listening, Event::Input(input)) => {
                self.phase = Phase::Idling;
                match input {
                    Input::MouseMoveRelative => {
                        // windows are resized and files dragged with a button down
                        if !self.is_mouse_down {
                            self.phase = Phase::Locating;
                        }
                    },
                    Input::MouseButton { action } => {
                        self.is_mouse_down = match action {
                            ButtonAction::Press => true,
                            ButtonAction::Release => false,
                        };
                    },
                    Input::Other => {},
                }
            },
            (Phase::Locating, Event::Windows { at_cursor, foreground }) => {
                match (at_cursor, foreground) {
                    (Some(at_cursor), Some(foreground)) => {
                        if at_cursor == foreground {
                            self.phase = Phase::Idling;
                        } else {
                            match self.caches.root_of(at_cursor) {
                                Some(cursor_root) => self.enter_root(cursor_root, foreground),
                                None => {
                                    self.phase = Phase::FindingRoot { at_cursor, foreground };
                                },
                            }
                        }
                    },
                    _ => {
                        self.phase = Phase::Idling;
                    },
                }
            },
            (Phase::FindingRoot { at_cursor, foreground }, Event::Ancestor(root)) => {
                match root {
                    Some(cursor_root) => {
                        self.caches.remember_root(at_cursor, cursor_root);
                        self.enter_root(cursor_root, foreground);
                    },
                    None => {
                        self.phase = Phase::Idling;
                    },
                }
            },
            (Phase::ClassifyingRoot { cursor_root, foreground }, Event::Class(class)) => {
                if let Some(class) = class {
                    self.caches.remember_class(cursor_root, class);
                }
                self.enter_root_class(cursor_root, foreground);
            },
            (Phase::ClassifyingForeground { cursor_root, foreground }, Event::Class(class)) => {
                if let Some(class) = class {
                    self.caches.remember_class(foreground, class);
                }
                self.enter_classes(cursor_root, foreground);
            },
            (Phase::ReadingHwnds { cursor_root, foreground }, Event::Hwnds(raw_hwnds)) => {
                self.judge_by_hwnds(cursor_root, foreground, &raw_hwnds);
            },
            (
                Phase::ReadingStyles { cursor_root, foreground },
                Event::ExStyles { root_style, foreground_style },
            ) => {
                self.judge_by_style(cursor_root, foreground, root_style, foreground_style);
            },
            (Phase::Permitting { cursor_root }, Event::Enabled(enabled)) => {
                self.phase = if enabled {
                    Phase::Raising { cursor_root }
                } else {
                    Phase::Idling
                };
            },
            (Phase::Raising { .. }, Event::Raised) => {
                self.phase = Phase::Idling;
            },
            _ => {
                return None;
            },
        }
        Some(self.request())
    }
}

} // verus!
