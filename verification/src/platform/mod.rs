//! What a badge shows for a count, shared by every platform.
pub mod android_impl;
pub mod ios_async;
pub mod ios_impl;
pub mod linux_impl;
pub mod macos_impl;
pub mod numerals;
pub mod pixels;
pub mod utf16;
pub mod win_impl;

use vstd::prelude::*;
use crate::outcome::result_view;
use crate::platform::numerals::{
    decimal, parse_u32, push_char, push_decimal, lemma_decimal_reads_back,
};

verus! {

/// The largest number a badge shows.
pub open spec fn badge_cap() -> int {
    99
}

/// The number a badge shows for `count`: nothing below one, at most 99.
pub open spec fn spec_badge_number(count: int) -> int {
    if count <= 0 {
        0
    } else if count > badge_cap() {
        badge_cap()
    } else {
        count
    }
}

/// The text a badge label shows for `count`: empty below one, the count up
/// to 99, and `99+` above.
pub open spec fn spec_badge_label(count: int) -> Seq<char> {
    if count <= 0 {
        Seq::<char>::empty()
    } else if count > badge_cap() {
        seq!['9', '9', '+']
    } else {
        decimal(count as nat)
    }
}

/// The badge label for `count`.
pub fn format_badge_label(count: i32) -> (label: String)
    ensures
        label@ == spec_badge_label(count as int),
{
    let mut label = String::new();
    if count <= 0 {
        label
    } else if count > 99 {
        push_char(&mut label, '9');
        push_char(&mut label, '9');
        push_char(&mut label, '+');
        proof {
            assert(label@ =~= seq!['9', '9', '+']);
        }
        label
    } else {
        push_decimal(&mut label, count as u32);
        proof {
            assert(label@ =~= decimal(count as nat));
        }
        label
    }
}

/// The badge number for `count`, clamped to `0..=99`.
pub fn badge_number(count: i32) -> (n: i32)
    ensures
        n == spec_badge_number(count as int),
{
    if count <= 0 {
        0
    } else if count > 99 {
        99
    } else {
        count
    }
}

/// The badge number always lies in `0..=99`, clamping twice changes nothing,
/// and a larger count never shows a smaller number.
pub proof fn lemma_badge_number_clamps(count: int, other: int)
    ensures
        0 <= spec_badge_number(count) <= badge_cap(),
        spec_badge_number(spec_badge_number(count)) == spec_badge_number(count),
        count <= other ==> spec_badge_number(count) <= spec_badge_number(other),
        0 <= count <= badge_cap() ==> spec_badge_number(count) == count,
        count <= 0 ==> spec_badge_number(count) == 0,
        1 <= count <= 99 ==> spec_badge_number(count) == count,
        count > 99 ==> spec_badge_number(count) == 99,
{
}

/// The label and the number tell the same story: the label is empty exactly
/// when the number is zero, it reads `99+` exactly when the count is above 99,
/// and otherwise it is the numeral of the number, which parses back to it.
pub proof fn lemma_label_matches_number(count: int)
    ensures
        spec_badge_label(count).len() == 0 <==> spec_badge_number(count) == 0,
        spec_badge_label(count) == seq!['9', '9', '+'] <==> count > badge_cap(),
        1 <= count <= badge_cap() ==> spec_badge_label(count) == decimal(
            spec_badge_number(count) as nat,
        ),
        1 <= count <= badge_cap() ==> parse_u32(spec_badge_label(count)) == Some(
            spec_badge_number(count) as u32,
        ),
        count <= 0 ==> spec_badge_label(count) == Seq::<char>::empty(),
        count > 99 ==> spec_badge_label(count) == seq!['9', '9', '+'],
        1 <= count <= 99 ==> spec_badge_label(count) == decimal(count as nat) && parse_u32(
            spec_badge_label(count),
        ) == Some(count as u32),
{
    if count >= 1 {
        lemma_decimal_reads_back(spec_badge_number(count) as nat);
    }
    if 1 <= count <= badge_cap() {
        let s = decimal(count as nat);
        if s =~= seq!['9', '9', '+'] {
            assert(s.len() == 3);
            assert(s.last() == '+');
            assert(crate::platform::numerals::digit_value(s[2]) is Some);
        }
    }
}

/// What a call dispatched to the main thread gives back: the result it left
/// behind, or an error when it left none.
pub open spec fn spec_dispatched_result<T>(slot: Option<Result<T, Seq<char>>>) -> Result<T, Seq<char>> {
    match slot {
        Some(r) => r,
        None => Err("Main thread dispatch failed"@),
    }
}

/// The result of work run synchronously on the main thread, read from the
/// slot the work wrote it to.
pub fn dispatched_result<T>(slot: Option<Result<T, String>>) -> (r: Result<T, String>)
    ensures
        result_view(r) == spec_dispatched_result(
            match slot {
                Some(inner) => Some(result_view(inner)),
                None => None,
            },
        ),
{
    match slot {
        Some(inner) => inner,
        None => Err("Main thread dispatch failed".to_string()),
    }
}

/// Every platform shows the same number for a count: Android hands its
/// helper, Linux sends and iOS sets the clamped badge number, and Windows
/// draws its numeral. Only the macOS Dock label differs above 99, where it
/// reads `99+`.
pub proof fn lemma_platforms_show_same_number(count: int)
    ensures
        android_impl::spec_helper_count(count) == spec_badge_number(count),
        linux_impl::spec_launcher_count(count) == if count <= 0 {
            None
        } else {
            Some(spec_badge_number(count) as i64)
        },
        win_impl::overlay_label(count) == if count <= 0 {
            Seq::<char>::empty()
        } else {
            decimal(spec_badge_number(count) as nat)
        },
        count > badge_cap() ==> macos_impl::spec_dock_label(count) == Some(seq!['9', '9', '+']),
        count <= 0 ==> macos_impl::spec_dock_label(count) is None,
        count <= 0 ==> android_impl::spec_helper_count(count) == 0,
        1 <= count <= 99 ==> android_impl::spec_helper_count(count) == count,
        count > 99 ==> android_impl::spec_helper_count(count) == 99,
        count > 99 ==> linux_impl::spec_launcher_count(count) == Some(99i64),
        1 <= count <= 99 ==> linux_impl::spec_launcher_count(count) == Some(count as i64),
        1 <= count <= badge_cap() ==> macos_impl::spec_dock_label(count) == Some(
            decimal(spec_badge_number(count) as nat),
        ),
{
    if count > 0 {
        lemma_decimal_reads_back(spec_badge_number(count) as nat);
    }
}

} // verus!
