//! Android: the badge goes through the `BadgeHelper` Java class, and badge
//! permission through `PermissionHelper`, called over JNI with the
//! application context (and, to ask, the current activity).
use vstd::prelude::*;
use crate::outcome::result_view;

verus! {

/// The error when the application context has not been handed over yet.
pub open spec fn context_missing_message() -> Seq<char> {
    "android context was not initialized"@
}

/// The error when there is no activity to show the permission dialog on.
pub open spec fn activity_missing_message() -> Seq<char> {
    "Android activity not available; ensure Flutter activity is attached"@
}

/// The error when `BadgeHelper.applyBadge` reports that nothing was applied.
pub open spec fn not_applied_message() -> Seq<char> {
    "BadgeHelper.applyBadge returned false"@
}

/// The count handed to `BadgeHelper.applyBadge`: `count` kept within `0..=99`.
pub open spec fn spec_helper_count(count: int) -> int {
    if count > 99 {
        99
    } else if count < 0 {
        0
    } else {
        count
    }
}

fn context_ready(context_initialized: bool) -> (r: Result<(), String>)
    ensures
        result_view(r) == if context_initialized {
            Ok(())
        } else {
            Err(context_missing_message())
        },
{
    if context_initialized {
        Ok(())
    } else {
        Err("android context was not initialized".to_string())
    }
}

/// The count to hand to `BadgeHelper.applyBadge` for `count`, once the
/// application context is known.
pub fn set_badge(count: i32, context_initialized: bool) -> (r: Result<i32, String>)
    ensures
        result_view(r) == if context_initialized {
            Ok(spec_helper_count(count as int) as i32)
        } else {
            Err(context_missing_message())
        },
{
    context_ready(context_initialized)?;
    let capped = if count < 99 {
        count
    } else {
        99
    };
    let badge_count = if capped > 0 {
        capped
    } else {
        0
    };
    Ok(badge_count)
}

/// The outcome of setting the badge from what `BadgeHelper.applyBadge`
/// returned.
pub fn badge_applied(applied: bool) -> (r: Result<(), String>)
    ensures
        result_view(r) == if applied {
            Ok(())
        } else {
            Err(not_applied_message())
        },
{
    if applied {
        Ok(())
    } else {
        Err("BadgeHelper.applyBadge returned false".to_string())
    }
}

/// The activity the permission dialog is shown on: the one handed over
/// last, until it is cleared.
pub struct ActivitySlot<A> {
    activity: Option<A>,
}

impl<A> View for ActivitySlot<A> {
    type V = Option<A>;

    /// The activity held, if any.
    closed spec fn view(&self) -> Option<A> {
        self.activity
    }
}

impl<A> ActivitySlot<A> {
    /// A slot holding no activity.
    pub fn new() -> (s: ActivitySlot<A>)
        ensures
            s@ is None,
    {
        ActivitySlot { activity: None }
    }

    /// Holds `activity`, replacing any activity handed over before.
    pub fn init_activity(&mut self, activity: A)
        ensures
            final(self)@ == Some(activity),
    {
        self.activity = Some(activity);
    }

    /// Drops the activity held.
    pub fn clear_activity(&mut self)
        ensures
            final(self)@ is None,
    {
        self.activity = None;
    }
}

/// The activity to call `PermissionHelper.requestBadgePermission` with: it
/// needs the application context and the activity held, the last one handed
/// over.
pub fn request_badge_permission<A>(context_initialized: bool, activities: &ActivitySlot<A>) -> (r:
    Result<&A, String>)
    ensures
        match r {
            Ok(a) => context_initialized && activities@ == Some(*a),
            Err(e) => if !context_initialized {
                e@ == context_missing_message()
            } else {
                activities@ is None && e@ == activity_missing_message()
            },
        },
{
    context_ready(context_initialized)?;
    match &activities.activity {
        Some(a) => Ok(a),
        None => Err(
            "Android activity not available; ensure Flutter activity is attached".to_string(),
        ),
    }
}

/// Whether `PermissionHelper.isBadgePermissionGranted` can be called: it
/// needs the application context.
pub fn is_badge_permission_granted(context_initialized: bool) -> (r: Result<(), String>)
    ensures
        result_view(r) == if context_initialized {
            Ok(())
        } else {
            Err(context_missing_message())
        },
{
    context_ready(context_initialized)
}

/// The count handed to the badge helper is the count held to `0..=99`:
/// nothing below one, the count itself up to 99, and 99 above.
pub proof fn lemma_helper_count_capped(count: int)
    ensures
        0 <= spec_helper_count(count) <= 99,
        count <= 0 ==> spec_helper_count(count) == 0,
        1 <= count <= 99 ==> spec_helper_count(count) == count,
        count > 99 ==> spec_helper_count(count) == 99,
{
}

} // verus!
