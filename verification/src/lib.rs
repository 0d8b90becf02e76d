//! Application icon badges: what each desktop and mobile platform is asked to
//! show for a count, the checks made before a badge is touched, and the
//! pixel work behind the Windows taskbar overlay.
pub mod api;
pub mod outcome;
pub mod platform;
pub mod runtime;
