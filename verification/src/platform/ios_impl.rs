//! iOS: the badge is the application icon badge number.
//!
//! From iOS 16 the number is set through the user notification center,
//! which needs the user's permission; before that it is set on the
//! application directly and needs none. UIKit is only used on the main
//! thread, so each step first checks that it runs there.
use vstd::prelude::*;
use vstd::string::{StrSliceExecFns, StringExecFns};
use crate::outcome::{opt_view, result_view};
use crate::platform::{badge_number, spec_badge_number};
use crate::platform::numerals::{parse_u32, parse_u32_str};

verus! {

/// The error when UIKit is used off the main thread.
pub open spec fn main_thread_message() -> Seq<char> {
    "UIKit APIs require the main thread"@
}

/// The index of the first `.` in `s`, or its length when there is none.
pub open spec fn first_dot(s: Seq<char>) -> int
    decreases s.len(),
{
    if s.len() == 0 {
        0
    } else if s[0] == '.' {
        0
    } else {
        1 + first_dot(s.drop_first())
    }
}

/// The part of `s` before its first `.`; what `s.split('.').next()` gives.
pub open spec fn first_segment(s: Seq<char>) -> Seq<char> {
    s.take(first_dot(s))
}

/// The major version of a dotted version string such as `16.4.1`.
pub open spec fn spec_major_version(version: Seq<char>) -> Option<u32> {
    parse_u32(first_segment(version))
}

/// The system version is iOS 16 or later: its major version parses and is at
/// least 16.
pub open spec fn spec_ios_16_or_later(version: Seq<char>) -> bool {
    match spec_major_version(version) {
        Some(major) => major >= 16,
        None => false,
    }
}

proof fn lemma_first_dot(s: Seq<char>, e: int)
    requires
        0 <= e <= s.len(),
        forall|k: int| 0 <= k < e ==> s[k] != '.',
        e == s.len() || s[e] == '.',
    ensures
        first_dot(s) == e,
    decreases e,
{
    if e > 0 {
        let t = s.drop_first();
        assert forall|k: int| 0 <= k < e - 1 implies t[k] != '.' by {
            assert(t[k] == s[k + 1]);
        }
        if e < s.len() {
            assert(t[e - 1] == s[e]);
        }
        lemma_first_dot(t, e - 1);
    }
}

/// The major version of the system version string.
pub fn major_version(version: &str) -> (r: Option<u32>)
    ensures
        r == spec_major_version(version@),
{
    let n = version.unicode_len();
    let mut end: usize = 0;
    loop
        invariant
            n == version@.len(),
            0 <= end <= n,
            forall|k: int| 0 <= k < end ==> version@[k] != '.',
        ensures
            0 <= end <= n,
            forall|k: int| 0 <= k < end ==> version@[k] != '.',
            end == n || version@[end as int] == '.',
        decreases n - end,
    {
        if end >= n {
            break;
        }
        if version.get_char(end) == '.' {
            break;
        }
        end += 1;
    }
    proof {
        lemma_first_dot(version@, end as int);
    }
    let segment = version.substring_char(0, end);
    parse_u32_str(segment)
}

/// Whether the device runs iOS 16 or later, judged by its system version.
pub fn ios_16_or_later(version: &str) -> (r: bool)
    ensures
        r == spec_ios_16_or_later(version@),
{
    match major_version(version) {
        Some(major) => major >= 16,
        None => false,
    }
}

/// How the badge number is set.
#[derive(PartialEq, Eq, Structural, Debug)]
pub enum IosBadgeCall {
    /// Through `UNUserNotificationCenter.setBadgeCount`, iOS 16 and later.
    Modern(i32),
    /// Through `UIApplication.applicationIconBadgeNumber`, before iOS 16.
    Legacy(i32),
}

/// The badge call for `count` given the system version, which is only read
/// on the main thread (`None` elsewhere).
pub open spec fn spec_set_badge(count: int, system_version: Option<Seq<char>>) -> Result<
    IosBadgeCall,
    Seq<char>,
> {
    match system_version {
        None => Err(main_thread_message()),
        Some(v) => if spec_ios_16_or_later(v) {
            Ok(IosBadgeCall::Modern(spec_badge_number(count) as i32))
        } else {
            Ok(IosBadgeCall::Legacy(spec_badge_number(count) as i32))
        },
    }
}

/// How to set the badge for `count`; `system_version` is the device's
/// version string, read on the main thread, or `None` off it.
pub fn set_badge(count: i32, system_version: Option<&str>) -> (r: Result<IosBadgeCall, String>)
    ensures
        result_view(r) == spec_set_badge(count as int, opt_view(system_version)),
{
    match system_version {
        None => Err("UIKit APIs require the main thread".to_string()),
        Some(v) => {
            let n = badge_number(count);
            if ios_16_or_later(v) {
                Ok(IosBadgeCall::Modern(n))
            } else {
                Ok(IosBadgeCall::Legacy(n))
            }
        },
    }
}

/// The prefix of the error reported when setting the badge count fails.
pub open spec fn set_badge_failed_prefix() -> Seq<char> {
    "setBadgeCount failed: "@
}

/// The outcome of `setBadgeCount`, from the description of the error its
/// completion handler received, if any.
pub fn set_badge_completed(error: Option<String>) -> (r: Result<(), String>)
    ensures
        result_view(r) == match error {
            None => Ok(()),
            Some(e) => Err(set_badge_failed_prefix() + e@),
        },
{
    match error {
        None => Ok(()),
        Some(e) => {
            let mut message = "setBadgeCount failed: ".to_string();
            message.append(e.as_str());
            Err(message)
        },
    }
}

/// The next step of a permission question.
#[derive(PartialEq, Eq, Structural, Debug)]
pub enum PermissionStep {
    /// The answer is known without asking the system.
    Answered(bool),
    /// The notification center must be asked.
    AskSystem,
}

/// Before iOS 16 badges need no permission; from iOS 16 the notification
/// center is asked.
pub open spec fn spec_permission_step(system_version: Option<Seq<char>>) -> Result<
    PermissionStep,
    Seq<char>,
> {
    match system_version {
        None => Err(main_thread_message()),
        Some(v) => if spec_ios_16_or_later(v) {
            Ok(PermissionStep::AskSystem)
        } else {
            Ok(PermissionStep::Answered(true))
        },
    }
}

fn permission_step(system_version: Option<&str>) -> (r: Result<PermissionStep, String>)
    ensures
        result_view(r) == spec_permission_step(opt_view(system_version)),
{
    match system_version {
        None => Err("UIKit APIs require the main thread".to_string()),
        Some(v) => {
            if ios_16_or_later(v) {
                Ok(PermissionStep::AskSystem)
            } else {
                Ok(PermissionStep::Answered(true))
            }
        },
    }
}

/// The first step of asking for badge permission.
pub fn request_badge_permission(system_version: Option<&str>) -> (r: Result<PermissionStep, String>)
    ensures
        result_view(r) == spec_permission_step(opt_view(system_version)),
{
    permission_step(system_version)
}

/// The first step of checking badge permission.
pub fn is_badge_permission_granted(system_version: Option<&str>) -> (r: Result<
    PermissionStep,
    String,
>)
    ensures
        result_view(r) == spec_permission_step(opt_view(system_version)),
{
    permission_step(system_version)
}

/// The notification authorization status the system reports.
#[derive(PartialEq, Eq, Structural, Debug, Clone, Copy)]
pub enum AuthorizationStatus {
    NotDetermined,
    Denied,
    Authorized,
    Provisional,
    Ephemeral,
    /// A status this library does not know.
    Other,
}

/// The state of one notification setting.
#[derive(PartialEq, Eq, Structural, Debug, Clone, Copy)]
pub enum NotificationSetting {
    NotSupported,
    Disabled,
    Enabled,
    /// A setting value this library does not know.
    Other,
}

/// Badges are permitted when notifications are authorized, fully or
/// provisionally, and the badge setting is enabled.
pub open spec fn spec_badge_permission_granted(
    status: AuthorizationStatus,
    badge_setting: NotificationSetting,
) -> bool {
    (status == AuthorizationStatus::Authorized || status == AuthorizationStatus::Provisional)
        && badge_setting == NotificationSetting::Enabled
}

/// Whether the notification settings permit badges.
pub fn badge_permission_granted(status: AuthorizationStatus, badge_setting: NotificationSetting) -> (r:
    bool)
    ensures
        r == spec_badge_permission_granted(status, badge_setting),
{
    let authorized = match status {
        AuthorizationStatus::Authorized => true,
        AuthorizationStatus::Provisional => true,
        _ => false,
    };
    let enabled = match badge_setting {
        NotificationSetting::Enabled => true,
        _ => false,
    };
    authorized && enabled
}

/// The number iOS is asked to show is the count held to `0..=99`, on both
/// paths: nothing below one, the count itself up to 99, and 99 above; the
/// notification center is used exactly from iOS 16 on, and off the main
/// thread nothing is set.
pub proof fn lemma_ios_badge_number_capped(count: int, version: Seq<char>)
    ensures
        match spec_set_badge(count, Some(version)) {
            Ok(IosBadgeCall::Modern(n)) => spec_ios_16_or_later(version) && (count <= 0 ==> n == 0)
                && (1 <= count <= 99 ==> n == count) && (count > 99 ==> n == 99),
            Ok(IosBadgeCall::Legacy(n)) => !spec_ios_16_or_later(version) && (count <= 0 ==> n
                == 0) && (1 <= count <= 99 ==> n == count) && (count > 99 ==> n == 99),
            Err(_) => false,
        },
        spec_set_badge(count, None) is Err,
{
}

/// Badges are permitted only when the badge setting is enabled, whatever the
/// authorization; with it enabled, exactly the authorized and provisional
/// statuses permit them.
pub proof fn lemma_badge_permission_needs_enabled_setting(
    status: AuthorizationStatus,
    badge_setting: NotificationSetting,
)
    ensures
        badge_setting != NotificationSetting::Enabled ==> !spec_badge_permission_granted(
            status,
            badge_setting,
        ),
        status != AuthorizationStatus::Authorized && status != AuthorizationStatus::Provisional
            ==> !spec_badge_permission_granted(status, badge_setting),
        spec_badge_permission_granted(AuthorizationStatus::Authorized, NotificationSetting::Enabled),
        spec_badge_permission_granted(AuthorizationStatus::Provisional, NotificationSetting::Enabled),
{
}

/// Permission questions: off the main thread they fail; before iOS 16 the
/// answer is yes with no question asked; from iOS 16 the notification
/// center is asked.
pub proof fn lemma_permission_step_by_version(version: Seq<char>)
    ensures
        spec_permission_step(None) is Err,
        !spec_ios_16_or_later(version) ==> spec_permission_step(Some(version)) == Ok::<
            PermissionStep,
            Seq<char>,
        >(PermissionStep::Answered(true)),
        spec_ios_16_or_later(version) ==> spec_permission_step(Some(version)) == Ok::<
            PermissionStep,
            Seq<char>,
        >(PermissionStep::AskSystem),
        spec_ios_16_or_later(version) <==> (spec_major_version(version) matches Some(m) && m
            >= 16),
{
}

} // verus!
