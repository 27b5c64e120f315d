//! Recording and seek window resolution.
//!
//! Before an input file is opened, the per-file context's timestamp
//! options are reconciled: a stop time (`-to`) yields to an explicit
//! recording time (`-t`) or becomes one, a start-relative-to-end offset
//! (`-sseof`) yields to an explicit start (`-ss`) or is resolved against
//! the container's duration, and the seek target is computed.  The
//! surrounding tool performs the actual seek; the decisions stand here.

use vstd::prelude::*;

use crate::types::{OptionsContext, AV_NOPTS_VALUE};

verus! {

/// Notices the window resolution can raise for the user.
#[derive(Clone, Copy, PartialEq, Eq, Structural, Debug)]
pub enum WindowNotice {
    /// Both `-t` and `-to` were given; the stop time is ignored.
    StopTimeIgnored,
    /// Both `-ss` and `-sseof` were given; the end-relative start is
    /// ignored.
    StartEofIgnored,
    /// `-sseof` was given, but the container's duration is unknown.
    DurationUnknown,
    /// `-sseof` seeks to before the start of the file; the start offset
    /// is ignored.
    SeekBeforeStart,
}

/// Why the window resolution failed; each aborts the open.
#[derive(Clone, Copy, PartialEq, Eq, Structural, Debug)]
pub enum WindowError {
    /// The stop time does not exceed the start time.
    StopBeforeStart,
    /// `-sseof` takes a negative offset.
    StartEofNotNegative,
    /// A derived timestamp overflows the 64-bit microsecond range.
    Overflow,
}

/// Reconcile the recording time with the stop time.
///
/// With both `-t` and `-to` set, the stop time is cleared in favour of
/// the recording time.  With only a stop time set, the recording time
/// becomes the span from the start time (or zero when unset) to the stop
/// time; a stop time at or before the start is an error, as is a span
/// beyond the 64-bit range.
pub fn resolve_recording_times(o: &mut OptionsContext) -> (r: Result<
    Option<WindowNotice>,
    WindowError,
>)
    ensures
        ({
            let stop_set = old(o).stop_time != i64::MAX;
            let rec_set = old(o).recording_time != i64::MAX;
            let start0: int = if old(o).start_time == AV_NOPTS_VALUE {
                0
            } else {
                old(o).start_time as int
            };
            &&& (match r {
                Result::Ok(n) => {
                    &&& (n == Option::Some(WindowNotice::StopTimeIgnored) <==> stop_set
                        && rec_set)
                    &&& (stop_set && rec_set ==> final(o)@ == (
                    crate::types::OptionsContextView {
                        stop_time: i64::MAX as int,
                        ..old(o)@
                    }))
                    &&& (stop_set && !rec_set ==> old(o).stop_time > start0 && old(
                        o,
                    ).stop_time - start0 <= i64::MAX && final(o)@ == (
                    crate::types::OptionsContextView {
                        recording_time: old(o).stop_time - start0,
                        ..old(o)@
                    }))
                    &&& (!stop_set ==> final(o)@ == old(o)@ && n is None)
                },
                Result::Err(e) => {
                    &&& final(o)@ == old(o)@
                    &&& stop_set && !rec_set
                    &&& (e == WindowError::StopBeforeStart <==> old(o).stop_time <= start0)
                    &&& (e == WindowError::Overflow ==> old(o).stop_time - start0 > i64::MAX)
                },
            })
        }),
{
    let stop_set = o.stop_time != i64::MAX;
    let rec_set = o.recording_time != i64::MAX;
    if stop_set && rec_set {
        o.stop_time = i64::MAX;
        return Result::Ok(Option::Some(WindowNotice::StopTimeIgnored));
    }
    if stop_set {
        let start0: i64 = if o.start_time == AV_NOPTS_VALUE {
            0
        } else {
            o.start_time
        };
        if o.stop_time <= start0 {
            return Result::Err(WindowError::StopBeforeStart);
        }
        match o.stop_time.checked_sub(start0) {
            Option::Some(span) => {
                o.recording_time = span;
                return Result::Ok(Option::None);
            },
            Option::None => {
                return Result::Err(WindowError::Overflow);
            },
        }
    }
    Result::Ok(Option::None)
}

/// Reconcile the start time with the end-relative start offset, against
/// the container's duration.
///
/// With both `-ss` and `-sseof` set, the end-relative offset is cleared.
/// A remaining end-relative offset must be negative; with a known
/// positive duration it becomes an absolute start time, cleared again
/// with a notice when it lands before the file's start.
pub fn resolve_start_times(o: &mut OptionsContext, duration: i64) -> (r: Result<
    Option<WindowNotice>,
    WindowError,
>)
    ensures
        ({
            let start_set = old(o).start_time != AV_NOPTS_VALUE;
            let eof_set = old(o).start_time_eof != AV_NOPTS_VALUE;
            match r {
                Result::Ok(n) => {
                    &&& (start_set && eof_set ==> n == Option::Some(
                        WindowNotice::StartEofIgnored,
                    ) && final(o)@ == (crate::types::OptionsContextView {
                        start_time_eof: AV_NOPTS_VALUE as int,
                        ..old(o)@
                    }))
                    &&& (!eof_set ==> n is None && final(o)@ == old(o)@)
                    &&& (!start_set && eof_set ==> old(o).start_time_eof < 0 && (if duration
                        <= 0 {
                        n == Option::Some(WindowNotice::DurationUnknown) && final(o)@ == old(
                            o,
                        )@
                    } else {
                        (old(o).start_time_eof + duration >= 0 && n is None && final(o)@ == (
                        crate::types::OptionsContextView {
                            start_time: old(o).start_time_eof + duration,
                            ..old(o)@
                        })) || (old(o).start_time_eof + duration < 0 && n == Option::Some(
                            WindowNotice::SeekBeforeStart,
                        ) && final(o)@ == (crate::types::OptionsContextView {
                            start_time: AV_NOPTS_VALUE as int,
                            ..old(o)@
                        }))
                    }))
                },
                Result::Err(e) => {
                    &&& final(o)@ == old(o)@
                    &&& e == WindowError::StartEofNotNegative
                    &&& !start_set && eof_set && old(o).start_time_eof >= 0
                },
            }
        }),
{
    let start_set = o.start_time != AV_NOPTS_VALUE;
    let eof_set = o.start_time_eof != AV_NOPTS_VALUE;
    if start_set && eof_set {
        o.start_time_eof = AV_NOPTS_VALUE;
        return Result::Ok(Option::Some(WindowNotice::StartEofIgnored));
    }
    if eof_set {
        if o.start_time_eof >= 0 {
            return Result::Err(WindowError::StartEofNotNegative);
        }
        if duration > 0 {
            // start_time_eof is negative, so the sum cannot overflow
            let start = o.start_time_eof + duration;
            if start < 0 {
                o.start_time = AV_NOPTS_VALUE;
                return Result::Ok(Option::Some(WindowNotice::SeekBeforeStart));
            } else {
                o.start_time = start;
                return Result::Ok(Option::None);
            }
        } else {
            return Result::Ok(Option::Some(WindowNotice::DurationUnknown));
        }
    }
    Result::Ok(Option::None)
}

/// The seek target for an input file: the start time (zero when unset),
/// shifted by the stream's start timestamp unless seeking by timestamp
/// was requested.  `None` when the shifted target overflows.
pub fn seek_target(o: &OptionsContext, ic_start_time: i64) -> (r: Option<i64>)
    ensures
        ({
            let base: int = if o.start_time == AV_NOPTS_VALUE {
                0
            } else {
                o.start_time as int
            };
            let shifted: int = if o.seek_timestamp == 0 && ic_start_time != AV_NOPTS_VALUE {
                base + ic_start_time
            } else {
                base
            };
            match r {
                Option::Some(t) => t == shifted,
                Option::None => !(i64::MIN <= shifted <= i64::MAX),
            }
        }),
{
    let base: i64 = if o.start_time == AV_NOPTS_VALUE {
        0
    } else {
        o.start_time
    };
    if o.seek_timestamp == 0 && ic_start_time != AV_NOPTS_VALUE {
        base.checked_add(ic_start_time)
    } else {
        Option::Some(base)
    }
}

} // verus!
