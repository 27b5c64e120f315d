//! Tests of recording and seek window resolution.

use optengine::split::init_parse_context;
use optengine::types::{OptionGroupDef, OptionsContext, AV_NOPTS_VALUE};
use optengine::window::{
    resolve_recording_times, resolve_start_times, seek_target, WindowError, WindowNotice,
};

fn fresh_context() -> OptionsContext {
    let groups = vec![OptionGroupDef {
        name: "output url".to_string(),
        sep: None,
        flags: 0,
    }];
    let octx = init_parse_context(&groups);
    OptionsContext::new(octx.cur_group)
}

#[test]
fn stop_time_yields_to_recording_time() {
    let mut o = fresh_context();
    o.recording_time = 5_000_000;
    o.stop_time = 9_000_000;
    let n = resolve_recording_times(&mut o).unwrap();
    assert_eq!(n, Some(WindowNotice::StopTimeIgnored));
    assert_eq!(o.stop_time, i64::MAX);
    assert_eq!(o.recording_time, 5_000_000);
}

#[test]
fn stop_time_becomes_recording_time() {
    let mut o = fresh_context();
    o.stop_time = 9_000_000;
    assert_eq!(resolve_recording_times(&mut o).unwrap(), None);
    assert_eq!(o.recording_time, 9_000_000);

    let mut o = fresh_context();
    o.start_time = 4_000_000;
    o.stop_time = 9_000_000;
    assert_eq!(resolve_recording_times(&mut o).unwrap(), None);
    assert_eq!(o.recording_time, 5_000_000);
}

#[test]
fn stop_time_at_or_before_start_is_rejected() {
    let mut o = fresh_context();
    o.start_time = 9_000_000;
    o.stop_time = 9_000_000;
    assert_eq!(
        resolve_recording_times(&mut o).unwrap_err(),
        WindowError::StopBeforeStart
    );
    assert_eq!(o.recording_time, i64::MAX);
}

#[test]
fn end_relative_start_must_be_negative() {
    let mut o = fresh_context();
    o.start_time_eof = 5;
    assert_eq!(
        resolve_start_times(&mut o, 100).unwrap_err(),
        WindowError::StartEofNotNegative
    );
}

#[test]
fn end_relative_start_resolves_against_duration() {
    let mut o = fresh_context();
    o.start_time_eof = -2_000_000;
    assert_eq!(resolve_start_times(&mut o, 10_000_000).unwrap(), None);
    assert_eq!(o.start_time, 8_000_000);

    // landing before the start of the file is ignored with a notice
    let mut o = fresh_context();
    o.start_time_eof = -20_000_000;
    assert_eq!(
        resolve_start_times(&mut o, 10_000_000).unwrap(),
        Some(WindowNotice::SeekBeforeStart)
    );
    assert_eq!(o.start_time, AV_NOPTS_VALUE);

    // with no known duration nothing can be resolved
    let mut o = fresh_context();
    o.start_time_eof = -2_000_000;
    assert_eq!(
        resolve_start_times(&mut o, 0).unwrap(),
        Some(WindowNotice::DurationUnknown)
    );
    assert_eq!(o.start_time, AV_NOPTS_VALUE);
}

#[test]
fn explicit_start_wins_over_end_relative() {
    let mut o = fresh_context();
    o.start_time = 1_000_000;
    o.start_time_eof = -2_000_000;
    assert_eq!(
        resolve_start_times(&mut o, 10_000_000).unwrap(),
        Some(WindowNotice::StartEofIgnored)
    );
    assert_eq!(o.start_time, 1_000_000);
    assert_eq!(o.start_time_eof, AV_NOPTS_VALUE);
}

#[test]
fn seek_target_shifts_by_stream_start() {
    let mut o = fresh_context();
    o.start_time = 5_000_000;
    assert_eq!(seek_target(&o, 1_000_000), Some(6_000_000));
    // seeking by timestamp keeps the raw start
    o.seek_timestamp = 1;
    assert_eq!(seek_target(&o, 1_000_000), Some(5_000_000));
    // no stream start, no shift
    o.seek_timestamp = 0;
    assert_eq!(seek_target(&o, AV_NOPTS_VALUE), Some(5_000_000));
    // an unset start seeks to the stream start
    o.start_time = AV_NOPTS_VALUE;
    assert_eq!(seek_target(&o, 1_000_000), Some(1_000_000));
}
