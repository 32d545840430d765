use masir::movement::{
    ButtonAction, Event, Input, MovementListener, Phase, Request, MAX_CACHE_AGE_NANOS,
};

const AT_CURSOR: isize = 11;
const ROOT: isize = 10;
const FOREGROUND: isize = 20;

/// A system with two windows, and a record of what it was asked.
struct Desktop {
    at_cursor: Option<isize>,
    foreground: Option<isize>,
    root: Option<isize>,
    root_class: Option<&'static str>,
    foreground_class: Option<&'static str>,
    raw_hwnds: Option<&'static str>,
    root_style: u32,
    foreground_style: u32,
    enabled: bool,
}

fn desktop() -> Desktop {
    Desktop {
        at_cursor: Some(AT_CURSOR),
        foreground: Some(FOREGROUND),
        root: Some(ROOT),
        root_class: Some("Notepad"),
        foreground_class: Some("CabinetWClass"),
        raw_hwnds: Some("[10,20]"),
        root_style: 0,
        foreground_style: 0,
        enabled: true,
    }
}

impl Desktop {
    fn answer(&self, request: Request) -> Event {
        match request {
            Request::LocateWindows => Event::Windows {
                at_cursor: self.at_cursor,
                foreground: self.foreground,
            },
            Request::GetAncestor { hwnd } => {
                assert_eq!(Some(hwnd), self.at_cursor);
                Event::Ancestor(self.root)
            }
            Request::GetClass { hwnd } => {
                let class = if Some(hwnd) == self.foreground {
                    self.foreground_class
                } else {
                    self.root_class
                };
                Event::Class(class.map(|class| class.to_string()))
            }
            Request::ReadHwnds => Event::Hwnds(self.raw_hwnds.map(|hwnds| hwnds.to_string())),
            Request::GetExStyles { .. } => Event::ExStyles {
                root_style: self.root_style,
                foreground_style: self.foreground_style,
            },
            Request::CheckEnabled => Event::Enabled(self.enabled),
            Request::Raise { .. } => Event::Raised,
            other => panic!("{:?} is not asked while a movement is handled", other),
        }
    }

    /// Moves the mouse and gives the requests that this leads to.
    fn move_mouse(&self, listener: &mut MovementListener) -> Vec<Request> {
        listen(listener);
        let mut request = listener.step(Event::Input(Input::MouseMoveRelative)).unwrap();
        let mut requests = Vec::new();
        while request != Request::CheckRunning {
            requests.push(request);
            request = listener.step(self.answer(request)).unwrap();
        }
        requests
    }
}

fn listen(listener: &mut MovementListener) {
    assert_eq!(listener.request(), Request::CheckRunning);
    assert_eq!(listener.step(Event::Running(true)), Some(Request::CheckCacheAge));
    assert_eq!(listener.step(Event::CacheAge { nanos: 0 }), Some(Request::NextEvent));
}

fn press(listener: &mut MovementListener, action: ButtonAction) {
    listen(listener);
    assert_eq!(
        listener.step(Event::Input(Input::MouseButton { action })),
        Some(Request::CheckRunning)
    );
}

const STYLES: Request = Request::GetExStyles { cursor_root: ROOT, foreground: FOREGROUND };

fn all_by_style() -> Vec<Request> {
    vec![
        Request::LocateWindows,
        Request::GetAncestor { hwnd: AT_CURSOR },
        Request::GetClass { hwnd: ROOT },
        Request::GetClass { hwnd: FOREGROUND },
        STYLES,
        Request::CheckEnabled,
        Request::Raise { hwnd: ROOT },
    ]
}

fn known() -> Vec<Request> {
    vec![Request::LocateWindows, Request::CheckEnabled, Request::Raise { hwnd: ROOT }]
}

#[test]
fn the_window_under_the_cursor_is_raised() {
    let mut listener = MovementListener::new(false, false);
    assert_eq!(desktop().move_mouse(&mut listener), all_by_style());
}

#[test]
fn a_second_movement_asks_for_nothing_known() {
    let mut listener = MovementListener::new(false, false);
    desktop().move_mouse(&mut listener);
    assert_eq!(desktop().move_mouse(&mut listener), known());
}

#[test]
fn a_filtered_style_is_remembered() {
    let mut listener = MovementListener::new(false, false);
    let tool = Desktop { root_style: 0x80, ..desktop() };
    let first = tool.move_mouse(&mut listener);
    assert_eq!(first.last(), Some(&STYLES));
    assert_eq!(desktop().move_mouse(&mut listener), vec![Request::LocateWindows]);
}

#[test]
fn an_inactive_foreground_window_is_not_left() {
    let mut listener = MovementListener::new(false, false);
    let inactive = Desktop { foreground_style: 0x0800_0000, ..desktop() };
    assert_eq!(inactive.move_mouse(&mut listener).last(), Some(&STYLES));
}

#[test]
fn an_ignored_class_is_not_raised() {
    let mut listener = MovementListener::new(false, false);
    let tray = Desktop { root_class: Some("Shell_TrayWnd"), ..desktop() };
    assert_eq!(tray.move_mouse(&mut listener).last(), Some(&STYLES));
    assert_eq!(tray.move_mouse(&mut listener), vec![Request::LocateWindows]);
}

#[test]
fn a_launcher_is_not_left() {
    let mut listener = MovementListener::new(false, false);
    let launcher = Desktop {
        foreground_class: Some("HwndWrapper[Flow.Launcher;;1]"),
        ..desktop()
    };
    assert_eq!(launcher.move_mouse(&mut listener).last(), Some(&STYLES));
}

#[test]
fn an_ignored_class_counts_only_beside_a_known_one() {
    let mut listener = MovementListener::new(false, false);
    let unknown = Desktop {
        root_class: Some("Shell_TrayWnd"),
        foreground_class: None,
        ..desktop()
    };
    let requests = unknown.move_mouse(&mut listener);
    assert_eq!(requests.last(), Some(&Request::Raise { hwnd: ROOT }));
}

#[test]
fn a_window_manager_decides_by_its_list() {
    let mut listener = MovementListener::new(false, true);
    let requests = desktop().move_mouse(&mut listener);
    assert_eq!(
        requests,
        vec![
            Request::LocateWindows,
            Request::GetAncestor { hwnd: AT_CURSOR },
            Request::GetClass { hwnd: ROOT },
            Request::GetClass { hwnd: FOREGROUND },
            Request::ReadHwnds,
            Request::CheckEnabled,
            Request::Raise { hwnd: ROOT },
        ]
    );
    assert_eq!(desktop().move_mouse(&mut listener), known());
}

#[test]
fn a_window_missing_from_the_list_is_looked_up_again() {
    let mut listener = MovementListener::new(false, true);
    let late = Desktop { raw_hwnds: Some("[20]"), ..desktop() };
    assert_eq!(late.move_mouse(&mut listener).last(), Some(&Request::ReadHwnds));
    assert_eq!(
        late.move_mouse(&mut listener),
        vec![Request::LocateWindows, Request::ReadHwnds]
    );
    assert_eq!(
        desktop().move_mouse(&mut listener),
        vec![
            Request::LocateWindows,
            Request::ReadHwnds,
            Request::CheckEnabled,
            Request::Raise { hwnd: ROOT },
        ]
    );
}

#[test]
fn an_unreadable_list_raises_nothing() {
    let mut listener = MovementListener::new(false, true);
    let unreadable = Desktop { raw_hwnds: None, ..desktop() };
    assert_eq!(unreadable.move_mouse(&mut listener).last(), Some(&Request::ReadHwnds));
    assert_eq!(
        unreadable.move_mouse(&mut listener),
        vec![Request::LocateWindows, Request::ReadHwnds]
    );
}

#[test]
fn an_ignored_class_outweighs_the_list() {
    let mut listener = MovementListener::new(false, true);
    let tray = Desktop { root_class: Some("TrayNotifyWnd"), ..desktop() };
    assert_eq!(tray.move_mouse(&mut listener).last(), Some(&Request::ReadHwnds));
}

#[test]
fn the_focused_window_is_left_alone() {
    let mut listener = MovementListener::new(false, false);
    let focused = Desktop { foreground: Some(AT_CURSOR), ..desktop() };
    assert_eq!(focused.move_mouse(&mut listener), vec![Request::LocateWindows]);
    let within = Desktop { foreground: Some(ROOT), ..desktop() };
    assert_eq!(
        within.move_mouse(&mut listener),
        vec![Request::LocateWindows, Request::GetAncestor { hwnd: AT_CURSOR }]
    );
}

#[test]
fn windows_that_cannot_be_told_are_left_alone() {
    let mut listener = MovementListener::new(false, false);
    let nowhere = Desktop { at_cursor: None, ..desktop() };
    assert_eq!(nowhere.move_mouse(&mut listener), vec![Request::LocateWindows]);
    let unfocused = Desktop { foreground: None, ..desktop() };
    assert_eq!(unfocused.move_mouse(&mut listener), vec![Request::LocateWindows]);
    let rootless = Desktop { root: None, ..desktop() };
    for _ in 0..2 {
        assert_eq!(
            rootless.move_mouse(&mut listener),
            vec![Request::LocateWindows, Request::GetAncestor { hwnd: AT_CURSOR }]
        );
    }
}

#[test]
fn steam_is_recognised_once() {
    let mut listener = MovementListener::new(false, false);
    let steam = Desktop {
        root_class: Some("Chrome_RenderWidgetHostHWND"),
        foreground_class: Some("SDL_app"),
        ..desktop()
    };
    assert_eq!(
        steam.move_mouse(&mut listener),
        vec![
            Request::LocateWindows,
            Request::GetAncestor { hwnd: AT_CURSOR },
            Request::GetClass { hwnd: ROOT },
            Request::GetClass { hwnd: FOREGROUND },
        ]
    );
    assert_eq!(steam.move_mouse(&mut listener), vec![Request::LocateWindows]);
}

#[test]
fn nothing_is_raised_while_switched_off() {
    let mut listener = MovementListener::new(false, false);
    let off = Desktop { enabled: false, ..desktop() };
    let requests = off.move_mouse(&mut listener);
    assert_eq!(requests, all_by_style()[..6].to_vec());
    assert_eq!(desktop().move_mouse(&mut listener), known());
}

#[test]
fn a_held_button_keeps_the_focus() {
    let mut listener = MovementListener::new(false, false);
    press(&mut listener, ButtonAction::Press);
    assert_eq!(desktop().move_mouse(&mut listener), vec![]);
    press(&mut listener, ButtonAction::Release);
    assert_eq!(desktop().move_mouse(&mut listener), all_by_style());
}

#[test]
fn other_input_is_passed_over() {
    let mut listener = MovementListener::new(false, false);
    listen(&mut listener);
    assert_eq!(
        listener.step(Event::Input(Input::Other)),
        Some(Request::CheckRunning)
    );
}

#[test]
fn caches_are_cleared_after_ten_minutes() {
    assert_eq!(MAX_CACHE_AGE_NANOS, 600_000_000_000);
    let mut listener = MovementListener::new(false, false);
    desktop().move_mouse(&mut listener);
    listener.step(Event::Running(true));
    assert_eq!(
        listener.step(Event::CacheAge { nanos: MAX_CACHE_AGE_NANOS }),
        Some(Request::NextEvent)
    );
    listener.step(Event::Input(Input::Other));
    assert_eq!(desktop().move_mouse(&mut listener), known());
    listener.step(Event::Running(true));
    assert_eq!(
        listener.step(Event::CacheAge { nanos: MAX_CACHE_AGE_NANOS + 1 }),
        Some(Request::RestartCacheClock)
    );
    assert_eq!(listener.step(Event::CacheClockRestarted), Some(Request::NextEvent));
    listener.step(Event::Input(Input::Other));
    assert_eq!(desktop().move_mouse(&mut listener), all_by_style());
}

#[test]
fn focus_left_to_the_system_only_pumps_messages() {
    let mut listener = MovementListener::new(true, true);
    assert_eq!(listener.request(), Request::CheckRunning);
    for input in [Input::MouseMoveRelative, Input::Other] {
        assert_eq!(listener.step(Event::Running(true)), Some(Request::NextEvent));
        assert_eq!(listener.step(Event::Input(input)), Some(Request::CheckRunning));
    }
    assert_eq!(listener.step(Event::Running(false)), Some(Request::Stop));
    assert_eq!(listener.step(Event::Running(true)), None);
    assert_eq!(listener.request(), Request::Stop);
}

#[test]
fn an_event_that_answers_nothing_changes_nothing() {
    let mut listener = MovementListener::new(false, false);
    assert_eq!(listener.step(Event::Raised), None);
    assert_eq!(listener.step(Event::Enabled(true)), None);
    assert_eq!(listener.request(), Request::CheckRunning);
    assert_eq!(desktop().move_mouse(&mut listener), all_by_style());
}

#[test]
fn a_window_that_the_list_lost_counts_once_the_other_is_known() {
    let mut listener = MovementListener::new(false, true);
    let without_foreground = Desktop { raw_hwnds: Some("[10]"), ..desktop() };
    assert_eq!(without_foreground.move_mouse(&mut listener).last(), Some(&Request::ReadHwnds));
    let without_root = Desktop { raw_hwnds: Some("[20]"), ..desktop() };
    assert_eq!(without_root.move_mouse(&mut listener).last(), Some(&Request::ReadHwnds));
    assert_eq!(without_root.move_mouse(&mut listener), known());
}

#[test]
fn a_handle_inside_a_longer_number_is_not_listed() {
    let mut listener = MovementListener::new(false, true);
    let listed = Desktop {
        at_cursor: Some(123),
        root: Some(123),
        foreground: Some(777),
        root_class: Some("Notepad"),
        foreground_class: Some("Notepad"),
        raw_hwnds: Some("[51234, 777]"),
        ..desktop()
    };
    assert_eq!(listed.move_mouse(&mut listener).last(), Some(&Request::ReadHwnds));
    let now_listed = Desktop { raw_hwnds: Some("[51234, 123, 777]"), ..listed };
    assert_eq!(
        now_listed.move_mouse(&mut listener).last(),
        Some(&Request::Raise { hwnd: 123 })
    );
}

#[test]
fn following_the_mouse_stops_with_the_program() {
    let mut listener = MovementListener::new(false, false);
    desktop().move_mouse(&mut listener);
    assert_eq!(listener.request(), Request::CheckRunning);
    assert_eq!(listener.step(Event::Running(false)), Some(Request::Stop));
    assert_eq!(listener.step(Event::Input(Input::MouseMoveRelative)), None);
    assert_eq!(listener.step(Event::Running(true)), None);
    assert_eq!(listener.request(), Request::Stop);
}

#[test]
fn a_turn_begun_is_finished_before_stopping() {
    let mut listener = MovementListener::new(false, false);
    assert_eq!(desktop().move_mouse(&mut listener), all_by_style());
    listen(&mut listener);
    assert_eq!(
        listener.step(Event::Input(Input::MouseMoveRelative)),
        Some(Request::LocateWindows)
    );
    let mut request = Request::LocateWindows;
    while request != Request::CheckRunning {
        request = listener.step(desktop().answer(request)).unwrap();
    }
    assert_eq!(listener.step(Event::Running(false)), Some(Request::Stop));
}

#[test]
fn what_is_remembered_can_be_looked_up() {
    let mut listener = MovementListener::new(false, false);
    assert_eq!(listener.phase(), Phase::Idling);
    desktop().move_mouse(&mut listener);
    assert_eq!(listener.caches().root_of(AT_CURSOR), Some(ROOT));
    assert_eq!(listener.caches().class_of(ROOT), Some("Notepad"));
    assert_eq!(listener.caches().eligibility_of(FOREGROUND), Some(true));
    listen(&mut listener);
    assert_eq!(listener.phase(), Phase::Listening);
}

#[test]
fn steam_stays_recognised_through_other_movements() {
    let mut listener = MovementListener::new(false, false);
    let steam = Desktop {
        root_class: Some("Chrome_RenderWidgetHostHWND"),
        foreground_class: Some("SDL_app"),
        ..desktop()
    };
    steam.move_mouse(&mut listener);
    let elsewhere = Desktop {
        at_cursor: Some(31),
        root: Some(30),
        root_class: Some("Notepad"),
        foreground_class: Some("SDL_app"),
        ..desktop()
    };
    assert_eq!(
        elsewhere.move_mouse(&mut listener).last(),
        Some(&Request::Raise { hwnd: 30 })
    );
    let another_child = Desktop { at_cursor: Some(12), ..steam };
    assert_eq!(
        another_child.move_mouse(&mut listener),
        vec![Request::LocateWindows, Request::GetAncestor { hwnd: 12 }]
    );
}

#[test]
fn the_last_button_message_decides() {
    let mut listener = MovementListener::new(false, false);
    for action in [
        ButtonAction::Press,
        ButtonAction::Release,
        ButtonAction::Press,
        ButtonAction::Press,
        ButtonAction::Release,
    ] {
        press(&mut listener, action);
        let requests = desktop().move_mouse(&mut listener);
        assert_eq!(requests.is_empty(), action == ButtonAction::Press);
    }
}

#[test]
fn being_switched_off_leaves_no_trace() {
    let mut on = MovementListener::new(false, false);
    let mut off = MovementListener::new(false, false);
    let switched_off = Desktop { enabled: false, ..desktop() };
    let mut first = desktop().move_mouse(&mut on);
    let second = switched_off.move_mouse(&mut off);
    assert_eq!(first.pop(), Some(Request::Raise { hwnd: ROOT }));
    assert_eq!(first, second);
    for hwnd in [AT_CURSOR, ROOT, FOREGROUND] {
        assert_eq!(on.caches().root_of(hwnd), off.caches().root_of(hwnd));
        assert_eq!(on.caches().class_of(hwnd), off.caches().class_of(hwnd));
        assert_eq!(on.caches().eligibility_of(hwnd), off.caches().eligibility_of(hwnd));
    }
    assert_eq!(desktop().move_mouse(&mut on), desktop().move_mouse(&mut off));
}
