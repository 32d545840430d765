use masir::caches::Caches;
use masir::eligibility::{
    are_steam_classes, is_eligible_by_hwnds, is_eligible_by_style, is_permitted_class,
};
use masir::hotkey::{toggle, HotKeyEvent, HotKeyListener, HotKeyRequest, HotKeyState};
use masir::listing::lists_number;
use masir::matching::{class_ignorelist, has_match, is_ignored_class, MatchingStrategy};
use masir::startup::{existing_hwnds, hwnds_candidate, komorebi_hwnds, HwndsCandidate};
use masir::tracking::{
    changes_on_exit, changes_on_start, changes_to, get_active_tracking_settings,
    set_active_window_timeout, set_active_window_tracking, set_active_window_zorder,
    settings_to_store, ActiveTrackingSettings, ParameterChange, TrackingParameter,
};
use masir::window::{get_window_ex_style, has_filtered_style};
use masir::windows_result::{
    real_window_class_w, Hwnd, ProcessWindowsCrateResult, SystemError, WindowsResult,
};

#[test]
fn equal_texts_match() {
    assert!(has_match("Shell_TrayWnd", "Shell_TrayWnd", &MatchingStrategy::Equals));
    assert!(!has_match("Shell_TrayWnd2", "Shell_TrayWnd", &MatchingStrategy::Equals));
    assert!(!has_match("shell_traywnd", "Shell_TrayWnd", &MatchingStrategy::Equals));
}

#[test]
fn contained_texts_match() {
    assert!(has_match("a Flow.Launcher b", "Flow.Launcher", &MatchingStrategy::Contains));
    assert!(has_match("x", "", &MatchingStrategy::Contains));
    assert!(has_match("w\u{00e9}b", "\u{00e9}", &MatchingStrategy::Contains));
    assert!(!has_match("Flow", "Flow.Launcher", &MatchingStrategy::Contains));
}

#[test]
fn ignored_classes_are_matched_by_their_strategies() {
    let list = class_ignorelist();
    assert_eq!(list.len(), 9);
    assert_eq!(list[0], ("SHELLDLL_DefView", MatchingStrategy::Equals));
    assert_eq!(list[8], ("PowerToys.PowerLauncher", MatchingStrategy::Contains));
    for (class, strategy) in list {
        assert!(is_ignored_class(class));
        let longer = format!("{}!", class);
        assert_eq!(is_ignored_class(&longer), strategy == MatchingStrategy::Contains);
    }
    assert!(!is_ignored_class("Notepad"));
    assert!(!is_ignored_class(""));
}

#[test]
fn eligibility_by_list_goes_by_whole_numbers() {
    assert!(is_eligible_by_hwnds("[1, 234]", 234, None, None));
    assert!(!is_eligible_by_hwnds("[1, 234]", 23, None, None));
    assert!(!is_eligible_by_hwnds("[1, 234]", 34, None, None));
    assert!(!is_eligible_by_hwnds("[1, 234]", 3, None, None));
    assert!(is_eligible_by_hwnds("[1, 234]", 1, None, None));
    assert!(!is_eligible_by_hwnds("[1, 234]", 5, None, None));
    assert!(!is_eligible_by_hwnds("[1, 234]", 234, Some("Shell_TrayWnd"), Some("a")));
    assert!(is_eligible_by_hwnds("[1, 234]", 234, Some("Shell_TrayWnd"), None));
    assert!(is_eligible_by_hwnds("[1, 234]", 234, Some("a"), Some("Shell_TrayWnd")));
}

#[test]
fn eligibility_by_style() {
    assert!(is_eligible_by_style(0, Some("a"), Some("b")));
    assert!(!is_eligible_by_style(0x80, Some("a"), Some("b")));
    assert!(!is_eligible_by_style(0, Some("ForegroundStaging"), Some("b")));
    assert!(is_permitted_class(None, Some("ForegroundStaging")));
    assert!(!is_permitted_class(Some("ForegroundStaging"), Some("b")));
}

#[test]
fn steam_is_told_by_both_classes() {
    let content = Some("Chrome_RenderWidgetHostHWND");
    let frame = Some("SDL_app");
    assert!(are_steam_classes(content, frame));
    assert!(!are_steam_classes(frame, content));
    assert!(!are_steam_classes(content, None));
    assert!(!are_steam_classes(None, frame));
}

#[test]
fn styles_are_filtered_by_their_bits() {
    assert!(has_filtered_style(0x0000_0080));
    assert!(has_filtered_style(0x0800_0000));
    assert!(has_filtered_style(0xffff_ffff));
    assert!(!has_filtered_style(0));
    assert!(!has_filtered_style(!0x0800_0080));
}

#[test]
fn a_style_is_read_as_unsigned() {
    assert_eq!(get_window_ex_style(0x80), 0x80);
    assert_eq!(get_window_ex_style(-1), 0xffff_ffff);
    assert_eq!(get_window_ex_style(i32::MIN), 0x8000_0000);
}

#[test]
fn caches_remember_the_last_value() {
    let mut caches = Caches::new();
    assert_eq!(caches.root_of(1), None);
    assert_eq!(caches.class_of(1), None);
    assert_eq!(caches.paired_with(1), None);
    assert_eq!(caches.eligibility_of(1), None);
    caches.remember_root(1, 2);
    caches.remember_class(1, "Notepad".to_string());
    caches.remember_pair(1, 3);
    caches.remember_eligibility(1, true);
    caches.remember_eligibility(1, false);
    assert_eq!(caches.root_of(1), Some(2));
    assert_eq!(caches.class_of(1), Some("Notepad"));
    assert_eq!(caches.paired_with(1), Some(3));
    assert_eq!(caches.eligibility_of(1), Some(false));
    assert_eq!(caches.root_of(2), None);
}

#[test]
fn zero_is_a_failed_call() {
    assert!(matches!(WindowsResult::from(0u32), WindowsResult::Failed(SystemError::LastOs(_))));
    assert!(matches!(WindowsResult::from(0usize), WindowsResult::Failed(SystemError::LastOs(_))));
    assert!(matches!(WindowsResult::from(0isize), WindowsResult::Failed(SystemError::LastOs(_))));
    assert!(matches!(WindowsResult::from(0u16), WindowsResult::Failed(SystemError::LastOs(_))));
    assert!(matches!(WindowsResult::from(0i32), WindowsResult::Failed(SystemError::LastOs(_))));
    assert!(matches!(WindowsResult::from(5u32), WindowsResult::Returned(5)));
    assert!(matches!(WindowsResult::from(-5isize), WindowsResult::Returned(-5)));
    let converted: Result<u16, SystemError> = Result::from(WindowsResult::from(9u16));
    assert_eq!(converted.unwrap(), 9);
    let converted: Result<i32, SystemError> = Result::from(WindowsResult::from(0i32));
    assert!(converted.is_err());
}

#[test]
fn a_null_handle_is_a_failed_call() {
    assert_eq!(Hwnd(17).process().unwrap(), 17);
    assert!(matches!(Hwnd(0).process(), Err(SystemError::LastOs(_))));
}

#[test]
fn results_of_the_windows_crate_are_kept() {
    let returned: Result<u8, windows_core::Error> = Ok(3);
    assert_eq!(returned.process().unwrap(), 3);
    let code = windows_core::HRESULT(-5);
    let failed: Result<u8, windows_core::Error> = Err(windows_core::Error::from_hresult(code));
    match failed.process() {
        Err(SystemError::Windows(error)) => assert_eq!(error.code(), code),
        _ => panic!("the error was not kept"),
    }
}

#[test]
fn a_class_name_is_decoded_up_to_its_length() {
    let mut buffer = [0u16; 8];
    for (i, unit) in "Tray\u{1F5A5}x".encode_utf16().enumerate() {
        buffer[i] = unit;
    }
    assert_eq!(real_window_class_w(&buffer, 4).unwrap(), "Tray");
    assert_eq!(real_window_class_w(&buffer, 6).unwrap(), "Tray\u{1F5A5}");
    assert_eq!(real_window_class_w(&buffer, 8).unwrap(), "Tray\u{1F5A5}x\0");
    assert!(matches!(real_window_class_w(&buffer, 5), Err(SystemError::Utf16(_))));
    assert!(matches!(real_window_class_w(&buffer, 0), Err(SystemError::LastOs(_))));
}

#[test]
fn settings_are_read_from_numbers() {
    let settings = get_active_tracking_settings(-1, 0, 250);
    assert!(settings.tracking_enabled);
    assert!(!settings.zorder_enabled);
    assert_eq!(settings.timeout_ms, 250);
    assert!(get_active_tracking_settings(0, 2, 0).zorder_enabled);
}

fn apply(system: &mut ActiveTrackingSettings, changes: Vec<ParameterChange>) {
    for change in changes {
        match change.parameter {
            TrackingParameter::ActiveWindowTracking => system.tracking_enabled = change.value != 0,
            TrackingParameter::ActiveWindowZorder => system.zorder_enabled = change.value != 0,
            TrackingParameter::ActiveWindowTimeout => system.timeout_ms = change.value as u32,
        }
    }
}

#[test]
fn settings_are_changed_and_put_back() {
    let before = ActiveTrackingSettings {
        tracking_enabled: false,
        zorder_enabled: true,
        timeout_ms: 500,
    };
    let mut system = before;
    apply(&mut system, changes_on_start(true));
    assert_eq!(
        system,
        ActiveTrackingSettings { tracking_enabled: true, zorder_enabled: false, timeout_ms: 0 }
    );
    apply(&mut system, changes_on_exit(&settings_to_store(true, before)));
    assert_eq!(system, before);
    assert_eq!(changes_on_start(false), vec![]);
    assert_eq!(settings_to_store(false, before), None);
    assert_eq!(changes_on_exit(&None), vec![]);
}

#[test]
fn changes_are_numbers_in_order() {
    let settings = ActiveTrackingSettings {
        tracking_enabled: true,
        zorder_enabled: false,
        timeout_ms: u32::MAX,
    };
    assert_eq!(
        changes_to(&settings),
        vec![
            set_active_window_tracking(true),
            set_active_window_zorder(false),
            set_active_window_timeout(u32::MAX),
        ]
    );
    assert_eq!(set_active_window_tracking(true).value, 1);
    assert_eq!(set_active_window_tracking(false).value, 0);
    assert_eq!(set_active_window_zorder(true).value, 1);
    assert_eq!(set_active_window_timeout(u32::MAX).value, 4294967295);
}

#[test]
fn presses_toggle_and_releases_do_not() {
    let mut listener = HotKeyListener::new();
    let mut enabled = true;
    let hotkeys = [
        HotKeyState::Pressed,
        HotKeyState::Released,
        HotKeyState::Pressed,
        HotKeyState::Pressed,
    ];
    assert_eq!(listener.request(), HotKeyRequest::GetMessage);
    assert_eq!(
        listener.step(HotKeyEvent::Message { returned: -1 }),
        Some(HotKeyRequest::DispatchMessage)
    );
    let mut request = listener.step(HotKeyEvent::Dispatched).unwrap();
    for hotkey in hotkeys {
        assert_eq!(request, HotKeyRequest::TakeHotKey);
        request = listener.step(HotKeyEvent::HotKey(Some(hotkey))).unwrap();
        if request == HotKeyRequest::Toggle {
            enabled = toggle(enabled);
            request = listener.step(HotKeyEvent::Toggled).unwrap();
        }
    }
    assert!(!enabled);
    assert_eq!(
        listener.step(HotKeyEvent::HotKey(None)),
        Some(HotKeyRequest::GetMessage)
    );
    assert_eq!(listener.step(HotKeyEvent::Toggled), None);
    assert_eq!(
        listener.step(HotKeyEvent::Message { returned: 0 }),
        Some(HotKeyRequest::Stop)
    );
    assert_eq!(listener.step(HotKeyEvent::Message { returned: 1 }), None);
}

#[test]
fn a_named_list_counts_even_with_integrations_disabled() {
    assert_eq!(hwnds_candidate(Some("a.json"), true), HwndsCandidate::At("a.json"));
    assert_eq!(hwnds_candidate(Some("a.json"), false), HwndsCandidate::At("a.json"));
    assert_eq!(hwnds_candidate::<&str>(None, true), HwndsCandidate::Nowhere);
    assert_eq!(hwnds_candidate::<&str>(None, false), HwndsCandidate::Komorebi);
    assert_eq!(komorebi_hwnds(), ("komorebi", "komorebi.hwnd.json"));
    assert_eq!(existing_hwnds("a.json", true), Some("a.json"));
    assert_eq!(existing_hwnds("a.json", false), None);
}

#[test]
fn numbers_are_found_in_a_list_as_a_whole() {
    assert!(lists_number("[51234, 777]", 777));
    assert!(lists_number("[51234, 777]", 51234));
    assert!(!lists_number("[51234, 777]", 123));
    assert!(!lists_number("[51234, 777]", 5123));
    assert!(!lists_number("[51234, 777]", 1234));
    assert!(lists_number("[77,7]", 7));
    assert!(lists_number("7", 7));
    assert!(!lists_number("", 7));
    assert!(!lists_number("[-7]", 7));
    assert!(lists_number("[-7]", -7));
    assert!(!lists_number("[7]", -7));
    assert!(!lists_number("[-77]", -7));
    assert!(lists_number("\u{00e9}0\u{00e9}", 0));
}

#[test]
fn every_handle_is_found_as_it_is_written() {
    for n in [0, 7, 10, 1234567890, -1, -10, isize::MAX, isize::MIN] {
        assert!(lists_number(&n.to_string(), n));
        assert!(lists_number(&format!("{{\"hwnds\": [5, {}, 6]}}", n), n));
        assert!(!lists_number(&format!("[{}1]", n), n));
        assert!(!lists_number(&format!("[1{}]", n.unsigned_abs()), n));
    }
    assert!(!lists_number("[99999999999999999999999999999999999999999999999999]", 9));
    assert!(!lists_number("[18446744073709551616, 9223372036854775809]", isize::MAX));
}

#[test]
fn zeros_in_front_of_a_number_do_not_matter() {
    assert!(lists_number("07", 7));
    assert!(lists_number("[007, 1]", 7));
    assert!(lists_number("[-007]", -7));
    assert!(!lists_number("[007]", 0));
    assert!(!lists_number("[070]", 7));
    assert!(lists_number("[000]", 0));
    assert!(lists_number("[-0]", 0));
}

#[test]
fn a_hyphen_is_no_sign() {
    assert!(lists_number("hwnd-7", 7));
    assert!(lists_number("hwnd-7", -7));
    assert!(lists_number("3-7", 7));
    assert!(lists_number("\u{00e9}-7", 7));
    assert!(!lists_number("-7", 7));
    assert!(!lists_number(" -7", 7));
    assert!(!lists_number("[1,-7]", 7));
    assert!(!lists_number("--7", 7));
    assert!(lists_number("hwnd7", 7));
}

#[test]
fn separators_split_a_list() {
    for n in [-3isize, 0, 3, 4, 34] {
        let whole = lists_number("[-3, 4]", n);
        assert_eq!(whole, lists_number("[-3", n) || lists_number(" 4]", n));
        assert_eq!(whole, n == -3 || n == 4);
    }
}
