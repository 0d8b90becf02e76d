//! The badge API the host application calls.
pub mod badge;
