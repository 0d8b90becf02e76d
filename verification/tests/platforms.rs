use xue_hua_app_badge::platform::android_impl;
use xue_hua_app_badge::platform::dispatched_result;
use xue_hua_app_badge::platform::ios_async::{pump_step, wait_for_async_completion, CompletionSlot, PumpStep};
use xue_hua_app_badge::platform::ios_impl::{
    self, badge_permission_granted, ios_16_or_later, major_version, set_badge_completed,
    AuthorizationStatus, IosBadgeCall, NotificationSetting, PermissionStep,
};
use xue_hua_app_badge::platform::linux_impl::{
    self, desktop_id_from_file_name, is_desktop_file_name, resolve_desktop_id,
};
use xue_hua_app_badge::platform::macos_impl;

const UNRESOLVED: &str = "Cannot resolve .desktop file id; set GAPPLICATION_ID in the Linux runner or launch from a .desktop entry";

#[test]
fn ios_version_parsing() {
    assert_eq!(major_version("16.4.1"), Some(16));
    assert_eq!(major_version("17"), Some(17));
    assert_eq!(major_version("+18.0"), Some(18));
    assert_eq!(major_version(".5"), None);
    assert_eq!(major_version("beta.1"), None);
    assert_eq!(major_version(""), None);
    assert!(ios_16_or_later("16.0"));
    assert!(ios_16_or_later("26.1"));
    assert!(!ios_16_or_later("15.7.9"));
    assert!(!ios_16_or_later("9"));
    assert!(!ios_16_or_later("x16"));
    assert!(!ios_16_or_later("99999999999.0"));
}

#[test]
fn ios_set_badge_picks_the_api() {
    assert_eq!(ios_impl::set_badge(5, Some("16.2")), Ok(IosBadgeCall::Modern(5)));
    assert_eq!(ios_impl::set_badge(500, Some("17.0")), Ok(IosBadgeCall::Modern(99)));
    assert_eq!(ios_impl::set_badge(3, Some("15.4")), Ok(IosBadgeCall::Legacy(3)));
    assert_eq!(ios_impl::set_badge(-3, Some("12")), Ok(IosBadgeCall::Legacy(0)));
    assert_eq!(
        ios_impl::set_badge(3, None).unwrap_err(),
        "UIKit APIs require the main thread"
    );
}

#[test]
fn ios_permission_steps() {
    assert_eq!(ios_impl::request_badge_permission(Some("15.1")), Ok(PermissionStep::Answered(true)));
    assert_eq!(ios_impl::request_badge_permission(Some("16.1")), Ok(PermissionStep::AskSystem));
    assert_eq!(ios_impl::is_badge_permission_granted(Some("14")), Ok(PermissionStep::Answered(true)));
    assert_eq!(ios_impl::is_badge_permission_granted(Some("18.3")), Ok(PermissionStep::AskSystem));
    assert_eq!(
        ios_impl::is_badge_permission_granted(None).unwrap_err(),
        "UIKit APIs require the main thread"
    );
}

#[test]
fn ios_badge_permission_needs_authorization_and_setting() {
    assert!(badge_permission_granted(AuthorizationStatus::Authorized, NotificationSetting::Enabled));
    assert!(badge_permission_granted(AuthorizationStatus::Provisional, NotificationSetting::Enabled));
    assert!(!badge_permission_granted(AuthorizationStatus::Authorized, NotificationSetting::Disabled));
    assert!(!badge_permission_granted(AuthorizationStatus::Denied, NotificationSetting::Enabled));
    assert!(!badge_permission_granted(AuthorizationStatus::NotDetermined, NotificationSetting::Enabled));
    assert!(!badge_permission_granted(AuthorizationStatus::Ephemeral, NotificationSetting::Enabled));
    assert!(!badge_permission_granted(AuthorizationStatus::Other, NotificationSetting::Other));
}

#[test]
fn ios_set_badge_completion() {
    assert_eq!(set_badge_completed(None), Ok(()));
    assert_eq!(
        set_badge_completed(Some("0x1234".to_string())).unwrap_err(),
        "setBadgeCount failed: 0x1234"
    );
}

#[test]
fn main_thread_dispatch_result() {
    assert_eq!(dispatched_result(Some(Ok::<bool, String>(true))), Ok(true));
    assert_eq!(dispatched_result(Some(Err::<(), String>("x".to_string()))), Err("x".to_string()));
    assert_eq!(dispatched_result::<()>(None).unwrap_err(), "Main thread dispatch failed");
}

#[test]
fn async_wait_steps() {
    assert_eq!(pump_step(true, true), Ok(PumpStep::Finished));
    assert_eq!(pump_step(false, false), Ok(PumpStep::RunLoopOnce));
    assert_eq!(pump_step(false, true).unwrap_err(), "Async operation timed out");
    assert_eq!(wait_for_async_completion(Ok(()), CompletionSlot::Filled(7)), Ok(7));
    assert_eq!(
        wait_for_async_completion::<i32>(Ok(()), CompletionSlot::Empty).unwrap_err(),
        "Async completion returned no value"
    );
    assert_eq!(
        wait_for_async_completion::<i32>(Ok(()), CompletionSlot::Poisoned).unwrap_err(),
        "Async completion mutex poisoned"
    );
    assert_eq!(
        wait_for_async_completion(Err("Async operation timed out".to_string()), CompletionSlot::Filled(1))
            .unwrap_err(),
        "Async operation timed out"
    );
}

#[test]
fn macos_dock_label() {
    assert_eq!(macos_impl::set_badge(0, true), Ok(None));
    assert_eq!(macos_impl::set_badge(-2, true), Ok(None));
    assert_eq!(macos_impl::set_badge(12, true), Ok(Some("12".to_string())));
    assert_eq!(macos_impl::set_badge(100, true), Ok(Some("99+".to_string())));
    assert_eq!(
        macos_impl::set_badge(1, false).unwrap_err(),
        "NSApplication APIs require the main thread"
    );
}

#[test]
fn android_helper_calls() {
    assert_eq!(android_impl::set_badge(5, true), Ok(5));
    assert_eq!(android_impl::set_badge(150, true), Ok(99));
    assert_eq!(android_impl::set_badge(-1, true), Ok(0));
    assert_eq!(android_impl::set_badge(5, false).unwrap_err(), "android context was not initialized");
    assert_eq!(android_impl::badge_applied(true), Ok(()));
    assert_eq!(android_impl::badge_applied(false).unwrap_err(), "BadgeHelper.applyBadge returned false");
    let mut activities = android_impl::ActivitySlot::new();
    assert_eq!(
        android_impl::request_badge_permission(true, &activities).unwrap_err(),
        "Android activity not available; ensure Flutter activity is attached"
    );
    activities.init_activity("first");
    activities.init_activity("second");
    assert_eq!(android_impl::request_badge_permission(true, &activities), Ok(&"second"));
    assert_eq!(
        android_impl::request_badge_permission(false, &activities).unwrap_err(),
        "android context was not initialized"
    );
    activities.clear_activity();
    assert_eq!(
        android_impl::request_badge_permission(true, &activities).unwrap_err(),
        "Android activity not available; ensure Flutter activity is attached"
    );
    activities.init_activity("third");
    assert_eq!(android_impl::request_badge_permission(true, &activities), Ok(&"third"));
    assert_eq!(android_impl::is_badge_permission_granted(true), Ok(()));
    assert_eq!(
        android_impl::is_badge_permission_granted(false).unwrap_err(),
        "android context was not initialized"
    );
}

#[test]
fn android_and_label_numbers_agree() {
    for count in -5..=130 {
        assert_eq!(
            android_impl::set_badge(count, true),
            Ok(xue_hua_app_badge::platform::badge_number(count))
        );
    }
}

#[test]
fn linux_desktop_id() {
    assert!(is_desktop_file_name("app.desktop"));
    assert!(is_desktop_file_name(".desktop"));
    assert!(!is_desktop_file_name("app.deskto"));
    assert!(!is_desktop_file_name("desktop"));
    assert_eq!(desktop_id_from_file_name(Some("org.app.desktop"), None), Ok("org.app.desktop".to_string()));
    assert_eq!(desktop_id_from_file_name(Some("org.app"), Some("org.id")), Ok("org.id.desktop".to_string()));
    assert_eq!(desktop_id_from_file_name(None, Some("")).unwrap_err(), UNRESOLVED);
    assert_eq!(desktop_id_from_file_name(None, None).unwrap_err(), UNRESOLVED);
    assert_eq!(
        resolve_desktop_id(Some("/usr/share/applications/com.example.app.desktop"), Some("other")),
        Ok("com.example.app.desktop".to_string())
    );
    assert_eq!(
        resolve_desktop_id(Some("/usr/share/applications/"), Some("com.example")),
        Ok("com.example.desktop".to_string())
    );
    assert_eq!(resolve_desktop_id(Some("/"), None).unwrap_err(), UNRESOLVED);
    assert_eq!(resolve_desktop_id(None, Some("a")), Ok("a.desktop".to_string()));
    assert_eq!(resolve_desktop_id(Some("foo.desktop"), None), Ok("foo.desktop".to_string()));
    assert_eq!(
        resolve_desktop_id(Some("/usr/share/applications/foo.desktop/"), None),
        Ok("foo.desktop".to_string())
    );
    assert_eq!(resolve_desktop_id(Some("apps/foo.desktop/."), None), Ok("foo.desktop".to_string()));
    assert_eq!(resolve_desktop_id(Some("foo.desktop/.."), Some("id")), Ok("id.desktop".to_string()));
    assert_eq!(resolve_desktop_id(Some("."), None).unwrap_err(), UNRESOLVED);
}

#[test]
fn linux_launcher_update() {
    let u = linux_impl::set_badge(0, "a.desktop");
    assert_eq!(u.app_uri, "application://a.desktop");
    assert_eq!(u.count, None);
    assert!(!u.count_visible);
    let u = linux_impl::set_badge(42, "a.desktop");
    assert_eq!(u.count, Some(42));
    assert!(u.count_visible);
    let u = linux_impl::set_badge(420, "b.desktop");
    assert_eq!(u.app_uri, "application://b.desktop");
    assert_eq!(u.count, Some(99));
    assert_eq!(linux_impl::request_badge_permission(), Ok(true));
    assert_eq!(linux_impl::is_badge_permission_granted(), Ok(true));
}
