//! Deciding whether a job may start, and the argument list of its recorder process.

use crate::clock::{clock_seconds, format_file_stamp, utc_file_stamp, MAX_STAMP_SECS};
use crate::registry::{admission, AdmissionError, Registry};
use crate::settings::{validate, validation, RecordingMode, Settings, ValidationError};
use crate::text::{decimal, padded3, push_decimal, push_padded3, scientific, to_scientific};
use vstd::prelude::*;
use vstd::string::*;

verus! {

/// Why a job was not started.
#[derive(Clone, Copy, Debug, PartialEq, Eq, Structural)]
pub enum StartError {
    /// The settings were refused.
    Invalid(ValidationError),
    /// The registry had no room or no free id.
    Admission(AdmissionError),
    /// The clock reads a time before the Unix epoch.
    ClockBeforeEpoch,
    /// The clock reads a time after `MAX_STAMP_SECS`, past chrono's last date.
    ClockOutOfRange,
}

/// The verdict on starting a job with `s` beside the jobs `ids`, with room
/// for `cap` jobs: the settings are checked first, then admission.
pub open spec fn start_check(ids: Set<u32>, cap: nat, s: Settings) -> Result<u32, StartError> {
    match validation(s.mode, s.frequency as int, s.zoom as nat) {
        Err(e) => Err(StartError::Invalid(e)),
        Ok(_) => match admission(ids, cap) {
            Err(e) => Err(StartError::Admission(e)),
            Ok(id) => Ok(id),
        },
    }
}

/// A frequency in Hz written in kHz with three decimals.
pub open spec fn khz_text(hz: nat) -> Seq<char> {
    decimal(hz / 1000) + "."@ + padded3(hz % 1000)
}

/// The station name under which the recorder files its output.
pub open spec fn station_text(s: Settings, stamp: Seq<char>) -> Seq<char> {
    stamp + "_Fq"@ + scientific(s.frequency as nat) + match s.mode {
        RecordingMode::Snapshot => "_Zm"@ + decimal(s.zoom as nat),
        RecordingMode::Raw => "_Bw1d2e4"@,
    }
}

/// The arguments every recorder gets: where to connect, the frequency and where to file output.
pub open spec fn common_args(s: Settings, stamp: Seq<char>) -> Seq<Seq<char>> {
    seq![
        "-s"@,
        "127.0.0.1"@,
        "-p"@,
        "8073"@,
        "--freq="@ + khz_text(s.frequency as nat),
        "-d"@,
        "/var/recorder/recorded-files/"@,
        "--filename=KiwiRec"@,
        "--station="@ + station_text(s, stamp),
    ]
}

/// The arguments that select what is recorded.
pub open spec fn mode_args(s: Settings) -> Seq<Seq<char>> {
    match s.mode {
        RecordingMode::Snapshot => seq![
            "--wf"@,
            "--wf-png"@,
            "--speed=4"@,
            "--modulation=am"@,
            "--zoom="@ + decimal(s.zoom as nat),
        ],
        RecordingMode::Raw => seq!["--kiwi-wav"@, "--modulation=iq"@],
    }
}

/// The time limit argument, present only when an automatic stop is set.
pub open spec fn limit_args(s: Settings) -> Seq<Seq<char>> {
    if s.auto_stop == 0 {
        Seq::empty()
    } else {
        seq!["--time-limit="@ + decimal(s.auto_stop as nat)]
    }
}

/// The recorder's arguments for a job with settings `s` started at the date stamp `stamp`.
pub open spec fn recorder_args_of(s: Settings, stamp: Seq<char>) -> Seq<Seq<char>> {
    common_args(s, stamp) + mode_args(s) + limit_args(s)
}

/// The texts of a list of strings.
pub open spec fn texts(v: Seq<String>) -> Seq<Seq<char>> {
    v.map_values(|s: String| s@)
}

/// Appends `text` followed by the decimal notation of `n` to `args`.
fn push_numbered(args: &mut Vec<String>, text: &str, n: u64)
    ensures
        texts(final(args)@) == texts(old(args)@).push(text@ + decimal(n as nat)),
{
    let mut s = String::from_str(text);
    push_decimal(&mut s, n);
    push_string(args, s);
}

/// Appends `text` to `args`.
fn push_text(args: &mut Vec<String>, text: &str)
    ensures
        texts(final(args)@) == texts(old(args)@).push(text@),
{
    push_string(args, String::from_str(text));
}

/// Appends `s` to `args`.
fn push_string(args: &mut Vec<String>, s: String)
    ensures
        texts(final(args)@) == texts(old(args)@).push(s@),
{
    let ghost text = s@;
    args.push(s);
    assert(texts(args@) =~= texts(old(args)@).push(text));
}

/// The station name for `settings` at the date stamp `stamp`.
pub fn station_name(settings: &Settings, stamp: &str) -> (r: String)
    ensures
        r@ == station_text(*settings, stamp@),
{
    let mut s = String::from_str(stamp);
    s.append("_Fq");
    s.append(to_scientific(settings.frequency).as_str());
    match settings.mode {
        RecordingMode::Snapshot => {
            s.append("_Zm");
            push_decimal(&mut s, settings.zoom as u64);
        },
        RecordingMode::Raw => {
            s.append("_Bw1d2e4");
        },
    }
    assert(s@ =~= station_text(*settings, stamp@));
    s
}

/// The recorder's argument list for a job with `settings`, its output
/// named after the date stamp `stamp`.
pub fn recorder_args(settings: &Settings, stamp: &str) -> (r: Vec<String>)
    ensures
        texts(r@) == recorder_args_of(*settings, stamp@),
{
    let mut args: Vec<String> = Vec::new();
    push_text(&mut args, "-s");
    push_text(&mut args, "127.0.0.1");
    push_text(&mut args, "-p");
    push_text(&mut args, "8073");
    let mut freq = String::from_str("--freq=");
    push_decimal(&mut freq, (settings.frequency / 1000) as u64);
    freq.append(".");
    push_padded3(&mut freq, (settings.frequency % 1000) as u64);
    assert(freq@ =~= "--freq="@ + khz_text(settings.frequency as nat));
    push_string(&mut args, freq);
    push_text(&mut args, "-d");
    push_text(&mut args, "/var/recorder/recorded-files/");
    push_text(&mut args, "--filename=KiwiRec");
    let mut station = String::from_str("--station=");
    station.append(station_name(settings, stamp).as_str());
    assert(station@ =~= "--station="@ + station_text(*settings, stamp@));
    push_string(&mut args, station);
    assert(texts(args@) =~= common_args(*settings, stamp@));
    let ghost after_common = texts(args@);
    match settings.mode {
        RecordingMode::Snapshot => {
            push_text(&mut args, "--wf");
            push_text(&mut args, "--wf-png");
            push_text(&mut args, "--speed=4");
            push_text(&mut args, "--modulation=am");
            push_numbered(&mut args, "--zoom=", settings.zoom as u64);
        },
        RecordingMode::Raw => {
            push_text(&mut args, "--kiwi-wav");
            push_text(&mut args, "--modulation=iq");
        },
    }
    assert(texts(args@) =~= after_common + mode_args(*settings));
    let ghost after_mode = texts(args@);
    if settings.auto_stop != 0 {
        push_numbered(&mut args, "--time-limit=", settings.auto_stop as u64);
    }
    assert(texts(args@) =~= after_mode + limit_args(*settings));
    args
}

/// Checks the settings, then asks the registry for an id: the id the new
/// job gets, or why it cannot start. Nothing is changed.
pub fn check_start<T>(registry: &Registry<T>, settings: &Settings) -> (r: Result<u32, StartError>)
    ensures
        r == start_check(registry@.dom(), registry.limit(), *settings),
{
    match validate(settings) {
        Err(e) => Err(StartError::Invalid(e)),
        Ok(()) => match registry.allocate_id() {
            Err(e) => Err(StartError::Admission(e)),
            Ok(id) => Ok(id),
        },
    }
}

/// What is needed to spawn an admitted job's process.
pub struct Launch {
    /// The id the job is admitted under.
    pub id: u32,
    /// The start time, in seconds since the Unix epoch.
    pub started_at: u64,
    /// The recorder's arguments.
    pub args: Vec<String>,
}

/// Checks settings and admission as `check_start` does, then builds the
/// recorder's arguments for the admitted job started at the Unix time
/// `now`. Success is owed whenever the check passes and `now` lies within
/// the dates chrono represents.
pub fn prepare_start_at<T>(registry: &Registry<T>, settings: &Settings, now: u64) -> (r: Result<
    Launch,
    StartError,
>)
    ensures
        start_check(registry@.dom(), registry.limit(), *settings) matches Err(e) ==> r == Err::<
            Launch,
            StartError,
        >(e),
        start_check(registry@.dom(), registry.limit(), *settings) matches Ok(id) ==> if now
            <= MAX_STAMP_SECS {
            match r {
                Ok(launch) => launch.id == id && launch.started_at == now && texts(launch.args@)
                    == recorder_args_of(*settings, utc_file_stamp(now as int)),
                Err(_) => false,
            }
        } else {
            r == Err::<Launch, StartError>(StartError::ClockOutOfRange)
        },
{
    let id = match check_start(registry, settings) {
        Err(e) => return Err(e),
        Ok(id) => id,
    };
    if now > MAX_STAMP_SECS {
        return Err(StartError::ClockOutOfRange);
    }
    match format_file_stamp(now) {
        None => Err(StartError::ClockOutOfRange),
        Some(stamp) => {
            let args = recorder_args(settings, stamp.as_str());
            Ok(Launch { id, started_at: now, args })
        },
    }
}

/// Reads the clock and prepares the start as `prepare_start_at` does at
/// that time; a clock before the Unix epoch refuses the start.
pub fn prepare_start<T>(registry: &Registry<T>, settings: &Settings) -> (r: Result<Launch, StartError>)
    ensures
        start_check(registry@.dom(), registry.limit(), *settings) matches Err(e) ==> r == Err::<
            Launch,
            StartError,
        >(e),
        start_check(registry@.dom(), registry.limit(), *settings) matches Ok(id) ==> match r {
            Ok(launch) => launch.id == id && launch.started_at <= MAX_STAMP_SECS && texts(
                launch.args@,
            ) == recorder_args_of(*settings, utc_file_stamp(launch.started_at as int)),
            Err(e) => e == StartError::ClockBeforeEpoch || e == StartError::ClockOutOfRange,
        },
{
    if let Err(e) = check_start(registry, settings) {
        return Err(e);
    }
    match clock_seconds() {
        None => Err(StartError::ClockBeforeEpoch),
        Some(now) => prepare_start_at(registry, settings, now),
    }
}

impl StartError {
    /// The message reported to a client for this error.
    pub fn message(&self) -> (r: &'static str)
        ensures
            r@ == start_message(*self),
    {
        match self {
            StartError::Invalid(e) => e.message(),
            StartError::Admission(AdmissionError::CapacityExceeded) => "All recorder slots are full",
            StartError::Admission(AdmissionError::IdSpaceExhausted) => "Job ID space exhausted",
            StartError::ClockBeforeEpoch => "The system clock reads before 1970",
            StartError::ClockOutOfRange => "The system clock is out of range",
        }
    }
}

/// The message reported to a client for a start error.
pub open spec fn start_message(e: StartError) -> Seq<char> {
    match e {
        StartError::Invalid(v) => crate::settings::validation_message(v),
        StartError::Admission(AdmissionError::CapacityExceeded) => "All recorder slots are full"@,
        StartError::Admission(AdmissionError::IdSpaceExhausted) => "Job ID space exhausted"@,
        StartError::ClockBeforeEpoch => "The system clock reads before 1970"@,
        StartError::ClockOutOfRange => "The system clock is out of range"@,
    }
}

} // verus!
