//! Recording settings and their validation.

use vstd::arithmetic::power2::pow2;
use vstd::bits::{lemma_u32_pow2_no_overflow, lemma_u32_shl_is_mul};
use crate::text::{decimal, push_decimal};
use vstd::prelude::*;
use vstd::string::*;

verus! {

/// Lowest frequency the receiver can select, in Hz.
pub const MIN_FREQ: u32 = 0;

/// Highest frequency the receiver can select, in Hz.
pub const MAX_FREQ: u32 = 30_000_000;

/// Largest zoom level: the bandwidth divisor is `2^zoom` and must fit a 32-bit shift.
pub const MAX_ZOOM: u8 = 31;

/// What a recording job captures.
#[derive(Clone, Copy, Debug, PartialEq, Eq, Structural)]
pub enum RecordingMode {
    /// Waterfall snapshots stored as PNG images.
    Snapshot,
    /// Raw IQ samples.
    Raw,
}

/// Settings of one recording job, fixed when the job is admitted.
#[derive(Clone, Copy, Debug, PartialEq, Eq, Structural)]
pub struct Settings {
    pub mode: RecordingMode,
    /// Center frequency in Hz.
    pub frequency: u32,
    /// Zoom level; the selected bandwidth is the full range divided by `2^zoom`.
    pub zoom: u8,
    /// Automatic stop after this many seconds; 0 means no limit.
    pub auto_stop: u16,
}

/// Why a set of settings was refused.
#[derive(Clone, Copy, Debug, PartialEq, Eq, Structural)]
pub enum ValidationError {
    ZoomTooHigh,
    RangeExceedsMaximum,
    RangeExceedsMinimum,
}

/// Width in Hz of the window selected at `zoom`.
pub open spec fn bandwidth(zoom: nat) -> int {
    (MAX_FREQ - MIN_FREQ) as int / pow2(zoom) as int
}

/// Upper edge of the window around `center` at `zoom`.
pub open spec fn window_upper(center: int, zoom: nat) -> int {
    center + bandwidth(zoom) / 2
}

/// Lower edge of the window around `center` at `zoom`.
pub open spec fn window_lower(center: int, zoom: nat) -> int {
    center - bandwidth(zoom) / 2
}

/// The verdict on settings in `mode` with a center frequency and a zoom
/// level. The zoom window only selects what a snapshot shows, so raw
/// recordings are not held to it.
pub open spec fn validation(mode: RecordingMode, center: int, zoom: nat) -> Result<(), ValidationError> {
    if zoom > MAX_ZOOM {
        Err(ValidationError::ZoomTooHigh)
    } else if mode == RecordingMode::Raw {
        Ok(())
    } else if window_upper(center, zoom) > MAX_FREQ {
        Err(ValidationError::RangeExceedsMaximum)
    } else if window_lower(center, zoom) < MIN_FREQ {
        Err(ValidationError::RangeExceedsMinimum)
    } else {
        Ok(())
    }
}

/// Checks that the zoom is in range and, for snapshots, that the selected
/// window lies within `[MIN_FREQ, MAX_FREQ]`.
pub fn validate(settings: &Settings) -> (r: Result<(), ValidationError>)
    ensures
        r == validation(settings.mode, settings.frequency as int, settings.zoom as nat),
{
    if settings.zoom > MAX_ZOOM {
        return Err(ValidationError::ZoomTooHigh);
    }
    if let RecordingMode::Raw = settings.mode {
        return Ok(());
    }
    let zoom: u32 = settings.zoom as u32;
    proof {
        lemma_u32_pow2_no_overflow(zoom as nat);
        lemma_u32_shl_is_mul(1, zoom);
    }
    let divisor: u32 = 1u32 << zoom;
    let width: u32 = (MAX_FREQ - MIN_FREQ) / divisor;
    // Saturation keeps the comparison exact: a saturated sum is above the maximum anyway.
    let upper: u32 = settings.frequency.saturating_add(width / 2);
    // Signed arithmetic, so that a window reaching below zero stays negative.
    let lower: i64 = settings.frequency as i64 - (width / 2) as i64;
    if upper > MAX_FREQ {
        return Err(ValidationError::RangeExceedsMaximum);
    }
    if lower < MIN_FREQ as i64 {
        return Err(ValidationError::RangeExceedsMinimum);
    }
    Ok(())
}

/// Validation of a snapshot accepts exactly the settings whose zoom is at
/// most `MAX_ZOOM` and whose window lies within `[MIN_FREQ, MAX_FREQ]`; a
/// larger zoom is refused in any mode whatever the frequency, and a raw
/// recording with an admissible zoom is accepted.
pub proof fn lemma_validation_accepts_iff_window_fits(mode: RecordingMode, center: int, zoom: nat)
    ensures
        validation(RecordingMode::Snapshot, center, zoom) is Ok <==> (zoom <= MAX_ZOOM && MIN_FREQ
            <= window_lower(center, zoom) && window_upper(center, zoom) <= MAX_FREQ),
        zoom > MAX_ZOOM ==> validation(mode, center, zoom) == Err::<(), ValidationError>(
            ValidationError::ZoomTooHigh,
        ),
        zoom <= MAX_ZOOM ==> validation(RecordingMode::Raw, center, zoom) is Ok,
{
}

/// The name of a mode in settings summaries.
pub open spec fn mode_label(mode: RecordingMode) -> Seq<char> {
    match mode {
        RecordingMode::Snapshot => "Png"@,
        RecordingMode::Raw => "Iq"@,
    }
}

/// The zoom part of a summary; only snapshots have one.
pub open spec fn zoom_part(s: Settings) -> Seq<char> {
    match s.mode {
        RecordingMode::Snapshot => "Zoom: "@ + decimal(s.zoom as nat) + " "@,
        RecordingMode::Raw => Seq::empty(),
    }
}

/// The automatic stop part of a summary.
pub open spec fn auto_stop_part(auto_stop: u16) -> Seq<char> {
    if auto_stop == 0 {
        "Off"@
    } else {
        decimal(auto_stop as nat) + " sec"@
    }
}

/// One-line description of settings, as written to a job's log.
pub open spec fn summary(s: Settings) -> Seq<char> {
    "Type: "@ + mode_label(s.mode) + ", Frequency: "@ + decimal(s.frequency as nat) + " Hz, "@
        + zoom_part(s) + "Autostop: "@ + auto_stop_part(s.auto_stop)
}

impl RecordingMode {
    /// The name of the mode in settings summaries.
    pub fn label(&self) -> (r: &'static str)
        ensures
            r@ == mode_label(*self),
    {
        match self {
            RecordingMode::Snapshot => "Png",
            RecordingMode::Raw => "Iq",
        }
    }
}

impl Settings {
    /// One-line description, e.g. `Type: Png, Frequency: 7000000 Hz, Zoom: 3 Autostop: 60 sec`.
    pub fn summary(&self) -> (r: String)
        ensures
            r@ == summary(*self),
    {
        let mut s = String::from_str("Type: ");
        s.append(self.mode.label());
        s.append(", Frequency: ");
        push_decimal(&mut s, self.frequency as u64);
        s.append(" Hz, ");
        match self.mode {
            RecordingMode::Snapshot => {
                s.append("Zoom: ");
                push_decimal(&mut s, self.zoom as u64);
                s.append(" ");
            },
            RecordingMode::Raw => {},
        }
        s.append("Autostop: ");
        if self.auto_stop == 0 {
            s.append("Off");
        } else {
            push_decimal(&mut s, self.auto_stop as u64);
            s.append(" sec");
        }
        assert(s@ =~= summary(*self));
        s
    }
}

impl ValidationError {
    /// The message reported to a client for this error.
    pub fn message(&self) -> (r: &'static str)
        ensures
            r@ == validation_message(*self),
    {
        match self {
            ValidationError::ZoomTooHigh => "Zoom too high",
            ValidationError::RangeExceedsMaximum => "The selected frequency range exceeds the maximum frequency",
            ValidationError::RangeExceedsMinimum => "The selected frequency range exceeds the minimum frequency",
        }
    }
}

/// The message reported to a client for a validation error.
pub open spec fn validation_message(e: ValidationError) -> Seq<char> {
    match e {
        ValidationError::ZoomTooHigh => "Zoom too high"@,
        ValidationError::RangeExceedsMaximum => "The selected frequency range exceeds the maximum frequency"@,
        ValidationError::RangeExceedsMinimum => "The selected frequency range exceeds the minimum frequency"@,
    }
}

} // verus!
