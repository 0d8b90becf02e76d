//! Windows: the badge is an overlay icon on the window's taskbar button.
//!
//! These functions make the decisions; the COM and GDI calls that draw and
//! install the icon are made by the host around them.
use vstd::prelude::*;
use crate::platform::{badge_number, format_badge_label, spec_badge_label, spec_badge_number};
use crate::outcome::{result_view, viewed_result};

verus! {

/// Which window carries the overlay.
#[derive(PartialEq, Eq, Structural, Debug, Clone, Copy)]
pub enum WindowSource {
    /// The window whose handle the caller gave.
    Given(i64),
    /// The active window of the calling thread, looked up by the host.
    Active,
}

/// What to do with the taskbar overlay.
pub enum OverlayCommand {
    /// Remove the overlay icon.
    Clear,
    /// Draw an icon showing `label` and install it, with `label` as its
    /// accessibility description.
    Show { label: String },
}

/// An overlay command with its label taken as text.
pub enum OverlayView {
    Clear,
    Show(Seq<char>),
}

impl View for OverlayCommand {
    type V = OverlayView;

    open spec fn view(&self) -> OverlayView {
        match self {
            OverlayCommand::Clear => OverlayView::Clear,
            OverlayCommand::Show { label } => OverlayView::Show(label@),
        }
    }
}

/// The error for a window handle of zero passed in by the caller.
pub open spec fn null_handle_message() -> Seq<char> {
    "Provided window handle is null"@
}

/// The error when no window could be found for the overlay.
pub open spec fn no_window_message() -> Seq<char> {
    "No valid window handle found"@
}

/// What `resolve_hwnd` gives for a window handle argument.
pub open spec fn spec_resolve_hwnd(window_handle: Option<i64>) -> Result<WindowSource, Seq<char>> {
    match window_handle {
        Some(h) => if h == 0 {
            Err(null_handle_message())
        } else {
            Ok(WindowSource::Given(h))
        },
        None => Ok(WindowSource::Active),
    }
}

/// The window to badge: the given handle, which must not be null, or the
/// active window when none is given.
pub fn resolve_hwnd(window_handle: Option<i64>) -> (r: Result<WindowSource, String>)
    ensures
        result_view(r) == spec_resolve_hwnd(window_handle),
{
    match window_handle {
        Some(h) => {
            if h == 0 {
                Err("Provided window handle is null".to_string())
            } else {
                Ok(WindowSource::Given(h))
            }
        },
        None => Ok(WindowSource::Active),
    }
}

/// The overlay text for `count`; like every platform but macOS, Windows
/// shows at most 99.
pub open spec fn overlay_label(count: int) -> Seq<char> {
    spec_badge_label(spec_badge_number(count))
}

/// What `set_badge` decides for `count` on window `hwnd`.
pub open spec fn spec_set_badge(count: int, hwnd: int) -> Result<OverlayView, Seq<char>> {
    if hwnd == 0 {
        Err(no_window_message())
    } else if count == 0 {
        Ok(OverlayView::Clear)
    } else {
        Ok(OverlayView::Show(overlay_label(count)))
    }
}

/// The overlay command for `count` on window `hwnd` (zero when none was
/// found): zero clears the overlay, any other count shows its label.
pub fn set_badge(count: i32, hwnd: i64) -> (r: Result<OverlayCommand, String>)
    ensures
        viewed_result(r) == spec_set_badge(count as int, hwnd as int),
{
    if hwnd == 0 {
        return Err("No valid window handle found".to_string());
    }
    if count == 0 {
        return Ok(OverlayCommand::Clear);
    }
    let label = format_badge_label(badge_number(count));
    Ok(OverlayCommand::Show { label })
}

/// Windows asks no permission for badges.
pub fn request_badge_permission() -> (r: Result<bool, String>)
    ensures
        r == Ok::<bool, String>(true),
{
    Ok(true)
}

/// Windows asks no permission for badges, so it is always granted.
pub fn is_badge_permission_granted() -> (r: Result<bool, String>)
    ensures
        r == Ok::<bool, String>(true),
{
    Ok(true)
}

/// The screen resolution to draw at: the window's, else the screen's, else
/// the classic 96 dots per inch.
pub open spec fn spec_resolve_dpi(window_dpi: u32, device_dpi: i32) -> u32 {
    if window_dpi != 0 {
        window_dpi
    } else if device_dpi as u32 != 0 {
        device_dpi as u32
    } else {
        96
    }
}

/// The resolution the overlay icon is drawn for.
pub fn resolve_dpi(window_dpi: u32, device_dpi: i32) -> (dpi: u32)
    ensures
        dpi == spec_resolve_dpi(window_dpi, device_dpi),
{
    let mut dpi = window_dpi;
    if dpi == 0 {
        dpi = device_dpi as u32;
    }
    if dpi == 0 {
        dpi = 96;
    }
    dpi
}

/// The pixel sizes of the overlay icon.
pub struct IconSize {
    /// Edge of the finished icon.
    pub size: i32,
    /// Edge of the supersampled bitmap it is drawn on, twice `size`.
    pub render: i32,
    /// Height of the label font on the supersampled bitmap.
    pub font_height: i32,
}

/// Larger of two integers.
pub open spec fn max_int(a: int, b: int) -> int {
    if a >= b {
        a
    } else {
        b
    }
}

/// The icon edge: the system small-icon size, never below the classic 16 at
/// 96 dots per inch scaled to `dpi`, and never below 32.
pub open spec fn spec_icon_size(small_icon_metric: int, dpi: int) -> int {
    max_int(max_int(small_icon_metric, max_int(16 * dpi / 96, 16)), 32)
}

/// The sizes to draw the overlay icon at, given the system small-icon metric
/// for `dpi`.
pub fn badge_icon_size(small_icon_metric: i32, dpi: u32) -> (r: IconSize)
    requires
        small_icon_metric <= 97612893,
        dpi <= 134217727,
    ensures
        r.size == spec_icon_size(small_icon_metric as int, dpi as int),
        r.render == 2 * r.size,
        r.font_height == max_int(r.render * 11 / 16, 12),
{
    let mut size = small_icon_metric;
    let scaled: i32 = 16 * (dpi as i32) / 96;
    let dpi_size = if scaled >= 16 {
        scaled
    } else {
        16
    };
    if size < dpi_size {
        size = dpi_size;
    }
    if size < 32 {
        size = 32;
    }
    let render = size * 2;
    let scaled_font = render * 11 / 16;
    let font_height = if scaled_font >= 12 {
        scaled_font
    } else {
        12
    };
    IconSize { size, render, font_height }
}

/// The overlay icon currently installed, which must be destroyed once it is
/// replaced or removed.
pub struct OverlaySlot {
    icon: Option<usize>,
}

impl View for OverlaySlot {
    type V = Option<usize>;

    /// The handle of the installed overlay icon, if any.
    closed spec fn view(&self) -> Option<usize> {
        self.icon
    }
}

impl OverlaySlot {
    /// A slot with no overlay installed.
    pub fn new() -> (s: OverlaySlot)
        ensures
            s@ is None,
    {
        OverlaySlot { icon: None }
    }

    /// Forgets the installed icon when the overlay is cleared, handing it back
    /// to be destroyed.
    pub fn clear_overlay(&mut self) -> (to_destroy: Option<usize>)
        ensures
            to_destroy == old(self)@,
            final(self)@ is None,
    {
        let previous = self.icon;
        self.icon = None;
        previous
    }

    /// Records `icon` as the installed overlay, handing back the one it
    /// replaces to be destroyed.
    pub fn apply_overlay(&mut self, icon: usize) -> (to_destroy: Option<usize>)
        ensures
            to_destroy == old(self)@,
            final(self)@ == Some(icon),
    {
        let previous = self.icon;
        self.icon = Some(icon);
        previous
    }
}

/// The error when the taskbar was not set up and no reason was recorded.
pub open spec fn taskbar_init_failed_message() -> Seq<char> {
    "Taskbar init failed"@
}

/// What the taskbar setup holds after `record_creation` with `created`: the
/// first recorded outcome is kept, later ones are ignored.
pub open spec fn spec_record_creation(
    outcome: Option<Result<(), Seq<char>>>,
    created: Result<(), Seq<char>>,
) -> Option<Result<(), Seq<char>>> {
    match outcome {
        None => Some(created),
        Some(first) => Some(first),
    }
}

/// What `taskbar_state` answers for a setup outcome.
pub open spec fn spec_taskbar_state(outcome: Option<Result<(), Seq<char>>>) -> Result<(), Seq<char>> {
    match outcome {
        Some(r) => r,
        None => Err(taskbar_init_failed_message()),
    }
}

/// The once-only setup of the taskbar interface: whether it was created,
/// or the error its creation failed with. Creation is attempted once; a
/// failure is kept and never retried.
pub struct TaskbarSetup {
    outcome: Option<Result<(), String>>,
}

impl View for TaskbarSetup {
    type V = Option<Result<(), Seq<char>>>;

    /// The outcome of the one creation attempt, once it was made.
    closed spec fn view(&self) -> Option<Result<(), Seq<char>>> {
        match self.outcome {
            Some(r) => Some(result_view(r)),
            None => None,
        }
    }
}

impl TaskbarSetup {
    /// A setup that has not tried to create the taskbar interface yet.
    pub fn new() -> (s: TaskbarSetup)
        ensures
            s@ is None,
    {
        TaskbarSetup { outcome: None }
    }

    /// Whether the taskbar interface still has to be created.
    pub fn needs_creation(&self) -> (r: bool)
        ensures
            r == (self@ is None),
    {
        self.outcome.is_none()
    }

    /// Records the outcome of creating the taskbar interface; only the first
    /// outcome counts.
    pub fn record_creation(&mut self, created: Result<(), String>)
        ensures
            final(self)@ == spec_record_creation(old(self)@, result_view(created)),
    {
        if self.outcome.is_none() {
            self.outcome = Some(created);
        }
    }
}

/// Whether the taskbar interface can be used: the error its creation
/// failed with, if it failed, else whether it was created.
pub fn taskbar_state(setup: &TaskbarSetup) -> (r: Result<(), String>)
    ensures
        result_view(r) == spec_taskbar_state(setup@),
{
    match &setup.outcome {
        Some(Ok(())) => Ok(()),
        Some(Err(e)) => Err(e.clone()),
        None => Err("Taskbar init failed".to_string()),
    }
}

/// The taskbar interface is created at most once: whatever later creation
/// outcomes are recorded, every check answers with the first one, an error
/// included, with no retry.
pub proof fn lemma_taskbar_created_once(
    first: Result<(), Seq<char>>,
    later: Seq<Result<(), Seq<char>>>,
)
    ensures
        spec_taskbar_state(spec_record_creation(None, first)) == first,
        later.fold_left(spec_record_creation(None, first), |o: Option<Result<(), Seq<char>>>, c: Result<(), Seq<char>>| spec_record_creation(o, c))
            == Some(first),
    decreases later.len(),
{
    if later.len() > 0 {
        lemma_taskbar_created_once(first, later.drop_last());
    }
}

/// On a window that exists, the overlay is cleared exactly for a count of
/// zero; every positive count shows its numeral, 99 at most, so a count of 1
/// shows `1`; a negative count shows an empty label. Without a window
/// nothing is drawn.
pub proof fn lemma_overlay_clears_only_for_zero(count: int, hwnd: int)
    ensures
        hwnd == 0 ==> spec_set_badge(count, hwnd) is Err,
        hwnd != 0 ==> (spec_set_badge(count, hwnd) == Ok::<OverlayView, Seq<char>>(
            OverlayView::Clear,
        ) <==> count == 0),
        hwnd != 0 && 1 <= count <= 99 ==> spec_set_badge(count, hwnd) == Ok::<
            OverlayView,
            Seq<char>,
        >(OverlayView::Show(crate::platform::numerals::decimal(count as nat))),
        hwnd != 0 && count > 99 ==> spec_set_badge(count, hwnd) == Ok::<OverlayView, Seq<char>>(
            OverlayView::Show(seq!['9', '9']),
        ),
        hwnd != 0 && count < 0 ==> spec_set_badge(count, hwnd) == Ok::<OverlayView, Seq<char>>(
            OverlayView::Show(Seq::<char>::empty()),
        ),
{
    if count > 99 {
        reveal_with_fuel(crate::platform::numerals::decimal, 2);
        assert(crate::platform::numerals::decimal(99) =~= seq!['9', '9']);
    }
}

} // verus!
