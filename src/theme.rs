//! The palette roles that status and latency are shown in.

use crate::backend::CheckStatus;
use vstd::prelude::*;

verus! {

/// Latency above this many milliseconds is very poor.
pub const VERY_POOR_LATENCY: u64 = 500;

/// Latency above this many milliseconds is poor.
pub const POOR_LATENCY: u64 = 200;

/// A palette role; the terminal front end picks the color of each.
#[derive(Debug, Clone, Copy, PartialEq, Eq, Structural)]
pub enum Tone {
    /// Healthy (green).
    Healthy,
    /// Redirected (blue).
    Redirect,
    /// Degraded (yellow).
    Degraded,
    /// Failing (red).
    Failing,
    /// Nothing known yet (dark gray).
    Unfocused,
}

/// The dashboard's theme.
pub struct Theme;

/// The role of a status code: 2xx healthy, 3xx redirected, anything else
/// failing.
pub open spec fn code_tone(code: u16) -> Tone {
    if 200 <= code <= 299 {
        Tone::Healthy
    } else if 300 <= code <= 399 {
        Tone::Redirect
    } else {
        Tone::Failing
    }
}

/// The role of a latency in milliseconds.
pub open spec fn latency_tone(latency_ms: u64) -> Tone {
    if latency_ms > VERY_POOR_LATENCY {
        Tone::Failing
    } else if latency_ms > POOR_LATENCY {
        Tone::Degraded
    } else {
        Tone::Healthy
    }
}

impl Theme {
    /// The role a latency is shown in.
    pub fn latency_color(latency_ms: u64) -> (r: Tone)
        ensures
            r == latency_tone(latency_ms),
    {
        if latency_ms > VERY_POOR_LATENCY {
            Tone::Failing
        } else if latency_ms > POOR_LATENCY {
            Tone::Degraded
        } else {
            Tone::Healthy
        }
    }

    /// The role a status code is shown in.
    pub fn color_code(code: &u16) -> (r: Tone)
        ensures
            r == code_tone(*code),
    {
        if 200 <= *code && *code <= 299 {
            Tone::Healthy
        } else if 300 <= *code && *code <= 399 {
            Tone::Redirect
        } else {
            Tone::Failing
        }
    }
}

/// The role a latest status is shown in: by code for a response,
/// failing for an error, unfocused before the first outcome.
pub fn get_status_color(status: &Option<CheckStatus>) -> (r: Tone)
    ensures
        r == match status {
            Some(CheckStatus::Success { code, .. }) => code_tone(*code),
            Some(CheckStatus::Error { .. }) => Tone::Failing,
            None => Tone::Unfocused,
        },
{
    match status {
        Some(CheckStatus::Success { code, .. }) => Theme::color_code(code),
        Some(CheckStatus::Error { .. }) => Tone::Failing,
        None => Tone::Unfocused,
    }
}

} // verus!
