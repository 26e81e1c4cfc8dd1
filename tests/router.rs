use event_window::event::PlatformEvent;
use event_window::flags::{
    DBT_DEVNODES_CHANGED, SPI_ICONVERTICALSPACING, SPI_SETWORKAREA, WM_DEVICECHANGE,
    WM_DISPLAYCHANGE, WM_INPUT, WM_SETTINGCHANGE,
};
use event_window::router::{handle_display_change_msg, route_message, Dispatch};

#[test]
fn nothing_is_routed_before_a_sink_is_installed() {
    assert_eq!(route_message(false, true, WM_INPUT), Dispatch::Ignore);
    assert_eq!(route_message(false, true, WM_DISPLAYCHANGE), Dispatch::Ignore);
    assert_eq!(route_message(false, false, 0x0001), Dispatch::Ignore);
}

#[test]
fn display_class_messages_go_to_the_display_handler() {
    for message in [WM_DISPLAYCHANGE, WM_SETTINGCHANGE, WM_DEVICECHANGE] {
        assert_eq!(route_message(true, false, message), Dispatch::DisplayChange);
        assert_eq!(route_message(true, true, message), Dispatch::DisplayChange);
    }
}

#[test]
fn raw_input_is_decoded_only_when_enabled() {
    assert_eq!(route_message(true, true, WM_INPUT), Dispatch::RawInput);
    assert_eq!(route_message(true, false, WM_INPUT), Dispatch::Default);
}

#[test]
fn other_messages_go_to_the_default_procedure() {
    assert_eq!(route_message(true, true, 0x0001), Dispatch::Default);
    assert_eq!(route_message(true, true, 0x0010), Dispatch::Default);
}

#[test]
fn display_change_always_emits() {
    assert_eq!(
        handle_display_change_msg(WM_DISPLAYCHANGE, 32),
        Some(PlatformEvent::DisplaySettingsChanged)
    );
    assert_eq!(
        handle_display_change_msg(WM_DISPLAYCHANGE, 0),
        Some(PlatformEvent::DisplaySettingsChanged)
    );
}

#[test]
fn settings_change_emits_only_for_work_area_and_icon_spacing() {
    assert_eq!(
        handle_display_change_msg(WM_SETTINGCHANGE, SPI_SETWORKAREA as usize),
        Some(PlatformEvent::DisplaySettingsChanged)
    );
    assert_eq!(
        handle_display_change_msg(WM_SETTINGCHANGE, SPI_ICONVERTICALSPACING as usize),
        Some(PlatformEvent::DisplaySettingsChanged)
    );
    for other in [0usize, 1, 23, 25, 46, 48, 0x2000] {
        assert_eq!(handle_display_change_msg(WM_SETTINGCHANGE, other), None);
    }
}

#[test]
fn settings_change_reads_the_low_32_bits() {
    let wide = ((1u64 << 32) as usize).wrapping_add(SPI_SETWORKAREA as usize);
    if usize::BITS == 64 {
        assert_eq!(
            handle_display_change_msg(WM_SETTINGCHANGE, wide),
            Some(PlatformEvent::DisplaySettingsChanged)
        );
    }
}

#[test]
fn device_change_emits_only_for_device_nodes() {
    assert_eq!(
        handle_display_change_msg(WM_DEVICECHANGE, DBT_DEVNODES_CHANGED as usize),
        Some(PlatformEvent::DisplaySettingsChanged)
    );
    assert_eq!(handle_display_change_msg(WM_DEVICECHANGE, 0x8000), None);
    assert_eq!(handle_display_change_msg(WM_DEVICECHANGE, 0), None);
}

#[test]
fn display_notifications_are_not_throttled() {
    let first = handle_display_change_msg(WM_SETTINGCHANGE, SPI_SETWORKAREA as usize);
    let second = handle_display_change_msg(WM_SETTINGCHANGE, SPI_SETWORKAREA as usize);
    assert_eq!(first, Some(PlatformEvent::DisplaySettingsChanged));
    assert_eq!(second, Some(PlatformEvent::DisplaySettingsChanged));
}
