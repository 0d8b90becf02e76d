//! Setting, removing and asking permission for the application badge.
//!
//! Every call first checks that the library was initialized. A badge count
//! must not be negative. What follows depends on the platform the host runs
//! on: each call answers with the platform step the host performs next.
use vstd::prelude::*;
use crate::outcome::result_view;
use crate::platform::{linux_impl, win_impl};
use crate::platform::win_impl::{spec_resolve_hwnd, WindowSource};
use crate::runtime::{ensure_initialized, not_initialized_message, Runtime};

verus! {

/// The platform the host application runs on.
#[derive(PartialEq, Eq, Structural, Debug, Clone, Copy)]
pub enum Platform {
    Windows,
    MacOs,
    Linux,
    Ios,
    Android,
    /// Any other platform; badges are not supported there.
    Unsupported,
}

/// The platform step that sets the badge.
#[derive(PartialEq, Eq, Structural, Debug, Clone, Copy)]
pub enum BadgeRoute {
    /// Draw the overlay for `count` on the taskbar button of `window`.
    Windows { count: i32, window: WindowSource },
    /// Set the Dock tile label for `count`, on the main thread.
    MacOs { count: i32 },
    /// Send the launcher entry update for `count`.
    Linux { count: i32 },
    /// Set the icon badge number for `count`, on the main thread.
    Ios { count: i32 },
    /// Apply the badge for `count` through the Java badge helper.
    Android { count: i32 },
}

/// The platform step that answers a permission question.
#[derive(PartialEq, Eq, Structural, Debug, Clone, Copy)]
pub enum PermissionRoute {
    /// The answer is known: desktop platforms need no badge permission.
    Answered(bool),
    /// The platform's own permission API decides (iOS and Android).
    AskPlatform,
}

/// The error for a negative badge count.
pub open spec fn negative_count_message() -> Seq<char> {
    "Badge count must be >= 0"@
}

/// The error on a platform without badge support.
pub open spec fn unsupported_message() -> Seq<char> {
    "Platform not supported"@
}

/// What `set_badge` decides.
pub open spec fn spec_set_badge(
    initialized: bool,
    platform: Platform,
    count: i32,
    window_handle: Option<i64>,
) -> Result<BadgeRoute, Seq<char>> {
    if !initialized {
        Err(not_initialized_message())
    } else if count < 0 {
        Err(negative_count_message())
    } else {
        match platform {
            Platform::Windows => match spec_resolve_hwnd(window_handle) {
                Ok(window) => Ok(BadgeRoute::Windows { count, window }),
                Err(e) => Err(e),
            },
            Platform::MacOs => Ok(BadgeRoute::MacOs { count }),
            Platform::Linux => Ok(BadgeRoute::Linux { count }),
            Platform::Ios => Ok(BadgeRoute::Ios { count }),
            Platform::Android => Ok(BadgeRoute::Android { count }),
            Platform::Unsupported => Err(unsupported_message()),
        }
    }
}

/// Sets the badge to `count` (`window_handle` picks the window on Windows):
/// fails before initialization, for a negative count, for a null window
/// handle on Windows and on unsupported platforms; otherwise names the
/// platform step.
pub fn set_badge(runtime: &Runtime, platform: Platform, count: i32, window_handle: Option<i64>) -> (r:
    Result<BadgeRoute, String>)
    ensures
        result_view(r) == spec_set_badge(runtime@, platform, count, window_handle),
{
    ensure_initialized(runtime)?;
    if count < 0 {
        return Err("Badge count must be >= 0".to_string());
    }
    match platform {
        Platform::Windows => {
            let window = win_impl::resolve_hwnd(window_handle)?;
            Ok(BadgeRoute::Windows { count, window })
        },
        Platform::MacOs => Ok(BadgeRoute::MacOs { count }),
        Platform::Linux => Ok(BadgeRoute::Linux { count }),
        Platform::Ios => Ok(BadgeRoute::Ios { count }),
        Platform::Android => Ok(BadgeRoute::Android { count }),
        Platform::Unsupported => Err("Platform not supported".to_string()),
    }
}

/// Removes the badge: the same as setting it to zero.
pub fn remove_badge(runtime: &Runtime, platform: Platform, window_handle: Option<i64>) -> (r: Result<
    BadgeRoute,
    String,
>)
    ensures
        result_view(r) == spec_set_badge(runtime@, platform, 0, window_handle),
{
    ensure_initialized(runtime)?;
    set_badge(runtime, platform, 0, window_handle)
}

/// What a permission question is answered with on `platform`.
pub open spec fn spec_permission_route(initialized: bool, platform: Platform) -> Result<
    PermissionRoute,
    Seq<char>,
> {
    if !initialized {
        Err(not_initialized_message())
    } else {
        match platform {
            Platform::Ios | Platform::Android => Ok(PermissionRoute::AskPlatform),
            _ => Ok(PermissionRoute::Answered(true)),
        }
    }
}

fn answered(r: Result<bool, String>) -> (route: Result<PermissionRoute, String>)
    ensures
        result_view(route) == match result_view(r) {
            Ok(b) => Ok(PermissionRoute::Answered(b)),
            Err(e) => Err(e),
        },
{
    match r {
        Ok(b) => Ok(PermissionRoute::Answered(b)),
        Err(e) => Err(e),
    }
}

/// Asks for badge permission: on iOS and Android the platform asks the user;
/// elsewhere no permission is needed and the answer is yes.
pub fn request_badge_permission(runtime: &Runtime, platform: Platform) -> (r: Result<
    PermissionRoute,
    String,
>)
    ensures
        result_view(r) == spec_permission_route(runtime@, platform),
{
    ensure_initialized(runtime)?;
    match platform {
        Platform::Windows => answered(win_impl::request_badge_permission()),
        Platform::Linux => answered(linux_impl::request_badge_permission()),
        Platform::Ios => Ok(PermissionRoute::AskPlatform),
        Platform::Android => Ok(PermissionRoute::AskPlatform),
        Platform::MacOs => Ok(PermissionRoute::Answered(true)),
        Platform::Unsupported => Ok(PermissionRoute::Answered(true)),
    }
}

/// Checks badge permission: on iOS and Android the platform knows; elsewhere
/// no permission is needed and it counts as granted.
pub fn is_badge_permission_granted(runtime: &Runtime, platform: Platform) -> (r: Result<
    PermissionRoute,
    String,
>)
    ensures
        result_view(r) == spec_permission_route(runtime@, platform),
{
    ensure_initialized(runtime)?;
    match platform {
        Platform::Windows => answered(win_impl::is_badge_permission_granted()),
        Platform::Linux => answered(linux_impl::is_badge_permission_granted()),
        Platform::Ios => Ok(PermissionRoute::AskPlatform),
        Platform::Android => Ok(PermissionRoute::AskPlatform),
        Platform::MacOs => Ok(PermissionRoute::Answered(true)),
        Platform::Unsupported => Ok(PermissionRoute::Answered(true)),
    }
}

/// Nothing happens to the badge before initialization, and once initialized
/// a negative count is refused on every platform with the same message.
pub proof fn lemma_set_badge_guards(initialized: bool, platform: Platform, count: i32, window_handle: Option<i64>)
    ensures
        !initialized ==> spec_set_badge(initialized, platform, count, window_handle) == Err::<
            BadgeRoute,
            Seq<char>,
        >(not_initialized_message()),
        initialized && count < 0 ==> spec_set_badge(initialized, platform, count, window_handle)
            == Err::<BadgeRoute, Seq<char>>(negative_count_message()),
        initialized && count >= 0 && platform != Platform::Unsupported && platform
            != Platform::Windows ==> spec_set_badge(initialized, platform, count, window_handle) is Ok,
{
}

/// Desktop platforms never need badge permission: once initialized, asking
/// and checking both answer yes there.
pub proof fn lemma_desktop_permission_always_granted(platform: Platform)
    requires
        platform == Platform::Windows || platform == Platform::MacOs || platform == Platform::Linux,
    ensures
        spec_permission_route(true, platform) == Ok::<PermissionRoute, Seq<char>>(
            PermissionRoute::Answered(true),
        ),
{
}

/// The count a route carries to its platform.
pub open spec fn route_count(route: BadgeRoute) -> i32 {
    match route {
        BadgeRoute::Windows { count, .. } => count,
        BadgeRoute::MacOs { count } => count,
        BadgeRoute::Linux { count } => count,
        BadgeRoute::Ios { count } => count,
        BadgeRoute::Android { count } => count,
    }
}

/// Once initialized, a count that is not negative reaches its platform
/// unchanged: every supported platform gets a route for that platform with
/// that very count (Windows when its window handle is not null), so the
/// macOS Dock label reached through it reads `99+` for every count above 99.
pub proof fn lemma_route_carries_count(platform: Platform, count: i32, window_handle: Option<i64>)
    requires
        count >= 0,
    ensures
        platform != Platform::Unsupported && window_handle != Some(0i64) ==> (match spec_set_badge(
            true,
            platform,
            count,
            window_handle,
        ) {
            Ok(route) => route_count(route) == count,
            Err(_) => false,
        }),
        platform == Platform::MacOs ==> spec_set_badge(true, platform, count, window_handle) == Ok::<
            BadgeRoute,
            Seq<char>,
        >(BadgeRoute::MacOs { count }),
        platform == Platform::Linux ==> spec_set_badge(true, platform, count, window_handle) == Ok::<
            BadgeRoute,
            Seq<char>,
        >(BadgeRoute::Linux { count }),
        platform == Platform::Ios ==> spec_set_badge(true, platform, count, window_handle) == Ok::<
            BadgeRoute,
            Seq<char>,
        >(BadgeRoute::Ios { count }),
        platform == Platform::Android ==> spec_set_badge(true, platform, count, window_handle)
            == Ok::<BadgeRoute, Seq<char>>(BadgeRoute::Android { count }),
        platform == Platform::MacOs && count > 99 ==> match spec_set_badge(
            true,
            platform,
            count,
            window_handle,
        ) {
            Ok(BadgeRoute::MacOs { count: c }) => crate::platform::macos_impl::spec_dock_label(
                c as int,
            ) == Some(seq!['9', '9', '+']),
            _ => false,
        },
{
}

/// Permission questions need initialization; once initialized, iOS and
/// Android ask their own permission API and every other platform answers
/// yes.
pub proof fn lemma_permission_routes(platform: Platform)
    ensures
        spec_permission_route(false, platform) is Err,
        (platform == Platform::Ios || platform == Platform::Android) ==> spec_permission_route(
            true,
            platform,
        ) == Ok::<PermissionRoute, Seq<char>>(PermissionRoute::AskPlatform),
        (platform != Platform::Ios && platform != Platform::Android) ==> spec_permission_route(
            true,
            platform,
        ) == Ok::<PermissionRoute, Seq<char>>(PermissionRoute::Answered(true)),
{
}

} // verus!
