//! The aggregate progress, as the taskbar or the dock shows it.

use vstd::prelude::*;
use crate::manager::Effect;
use crate::text::decimal;
use crate::text::push_decimal;
use crate::text::string_of;

verus! {

/// What the native indicator is to show.
#[derive(Debug, Clone, Copy, PartialEq, Eq, Structural)]
pub enum Indicator {
    /// No progress.
    Cleared,
    /// Progress in whole percent, tinted where a job has failed.
    Shown { percent: u32, is_error: bool },
}

/// The whole percent of a progress in hundredths of a percent.
pub open spec fn whole_percent(progress: u32) -> u32 {
    (progress / 100) as u32
}

/// What the native indicator is to show for an effect of the orchestrator:
/// something for the two effects that speak of it, nothing for any other.
pub fn indicator_of(effect: &Effect) -> (r: Option<Indicator>)
    ensures
        r == match *effect {
            Effect::ClearIndicator => Some(Indicator::Cleared),
            Effect::SetIndicator { progress, is_error } => Some(
                Indicator::Shown { percent: whole_percent(progress), is_error },
            ),
            _ => None,
        },
{
    match effect {
        Effect::ClearIndicator => Some(Indicator::Cleared),
        Effect::SetIndicator { progress, is_error } => Some(
            Indicator::Shown { percent: *progress / 100, is_error: *is_error },
        ),
        _ => None,
    }
}

/// The label of the dock badge: the whole percent and a percent sign.
pub fn badge_label(percent: u32) -> (r: String)
    ensures
        r@ == decimal(percent as nat).push('%'),
{
    let mut out: Vec<char> = Vec::new();
    push_decimal(&mut out, percent as u128);
    out.push('%');
    assert(out@ =~= decimal(percent as nat).push('%'));
    string_of(&out)
}

} // verus!
