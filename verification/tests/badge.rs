use xue_hua_app_badge::api::badge::{
    is_badge_permission_granted, remove_badge, request_badge_permission, set_badge, BadgeRoute,
    Platform, PermissionRoute,
};
use xue_hua_app_badge::platform::win_impl::WindowSource;
use xue_hua_app_badge::runtime::{ensure_initialized, mark_initialized, Runtime};

const NOT_INITIALIZED: &str = "Call XueHuaAppBadge.initialize() before using badge APIs";

fn initialized() -> Runtime {
    let mut runtime = Runtime::new();
    mark_initialized(&mut runtime);
    runtime
}

#[test]
fn rejects_negative_count() {
    let runtime = initialized();
    let err = set_badge(&runtime, Platform::Linux, -1, None).unwrap_err();
    assert_eq!(err, "Badge count must be >= 0");
}

#[test]
fn requires_initialize_before_set() {
    let runtime = Runtime::new();
    if ensure_initialized(&runtime).is_err() {
        let err = set_badge(&runtime, Platform::Linux, 0, None).unwrap_err();
        assert_eq!(err, "Call XueHuaAppBadge.initialize() before using badge APIs");
    }
}

#[test]
fn ensure_initialized_after_mark() {
    let mut runtime = Runtime::new();
    assert_eq!(ensure_initialized(&runtime), Err(NOT_INITIALIZED.to_string()));
    mark_initialized(&mut runtime);
    assert_eq!(ensure_initialized(&runtime), Ok(()));
    mark_initialized(&mut runtime);
    assert_eq!(ensure_initialized(&runtime), Ok(()));
}

#[test]
fn every_call_checks_initialization() {
    let runtime = Runtime::new();
    for platform in [
        Platform::Windows,
        Platform::MacOs,
        Platform::Linux,
        Platform::Ios,
        Platform::Android,
        Platform::Unsupported,
    ] {
        assert_eq!(set_badge(&runtime, platform, 3, None).unwrap_err(), NOT_INITIALIZED);
        assert_eq!(set_badge(&runtime, platform, -3, None).unwrap_err(), NOT_INITIALIZED);
        assert_eq!(remove_badge(&runtime, platform, None).unwrap_err(), NOT_INITIALIZED);
        assert_eq!(request_badge_permission(&runtime, platform).unwrap_err(), NOT_INITIALIZED);
        assert_eq!(is_badge_permission_granted(&runtime, platform).unwrap_err(), NOT_INITIALIZED);
    }
}

#[test]
fn set_badge_routes_to_platform() {
    let runtime = initialized();
    assert_eq!(set_badge(&runtime, Platform::MacOs, 5, None), Ok(BadgeRoute::MacOs { count: 5 }));
    assert_eq!(set_badge(&runtime, Platform::Linux, 120, None), Ok(BadgeRoute::Linux { count: 120 }));
    assert_eq!(set_badge(&runtime, Platform::Ios, 7, None), Ok(BadgeRoute::Ios { count: 7 }));
    assert_eq!(set_badge(&runtime, Platform::Android, 0, None), Ok(BadgeRoute::Android { count: 0 }));
    assert_eq!(
        set_badge(&runtime, Platform::Windows, 4, None),
        Ok(BadgeRoute::Windows { count: 4, window: WindowSource::Active })
    );
    assert_eq!(
        set_badge(&runtime, Platform::Windows, 4, Some(77)),
        Ok(BadgeRoute::Windows { count: 4, window: WindowSource::Given(77) })
    );
}

#[test]
fn set_badge_rejects_null_window_handle() {
    let runtime = initialized();
    assert_eq!(
        set_badge(&runtime, Platform::Windows, 4, Some(0)).unwrap_err(),
        "Provided window handle is null"
    );
}

#[test]
fn set_badge_on_unsupported_platform() {
    let runtime = initialized();
    assert_eq!(
        set_badge(&runtime, Platform::Unsupported, 4, None).unwrap_err(),
        "Platform not supported"
    );
    assert_eq!(
        set_badge(&runtime, Platform::Unsupported, -4, None).unwrap_err(),
        "Badge count must be >= 0"
    );
}

#[test]
fn remove_badge_sets_zero() {
    let runtime = initialized();
    for platform in [Platform::MacOs, Platform::Linux, Platform::Ios, Platform::Android] {
        assert_eq!(remove_badge(&runtime, platform, None), set_badge(&runtime, platform, 0, None));
    }
    assert_eq!(
        remove_badge(&runtime, Platform::Windows, Some(9)),
        Ok(BadgeRoute::Windows { count: 0, window: WindowSource::Given(9) })
    );
}

#[test]
fn permission_on_desktop_is_granted() {
    let runtime = initialized();
    for platform in [Platform::Windows, Platform::MacOs, Platform::Linux, Platform::Unsupported] {
        assert_eq!(request_badge_permission(&runtime, platform), Ok(PermissionRoute::Answered(true)));
        assert_eq!(
            is_badge_permission_granted(&runtime, platform),
            Ok(PermissionRoute::Answered(true))
        );
    }
    for platform in [Platform::Ios, Platform::Android] {
        assert_eq!(request_badge_permission(&runtime, platform), Ok(PermissionRoute::AskPlatform));
        assert_eq!(is_badge_permission_granted(&runtime, platform), Ok(PermissionRoute::AskPlatform));
    }
}
