//! End-to-end tests of the tokenizer and the applier.

use optengine::apply::{
    parse_optgroup, parse_optgroup_global, ApplyError, ApplyOutcome, OptionHandler,
    RecordingHandler, ValueErrKind,
};
use optengine::driver::{parse_commandline, EngineError};
use optengine::flags::{
    HAS_ARG, OPT_AUDIO, OPT_BOOL, OPT_DOUBLE, OPT_EXIT, OPT_EXPERT, OPT_FLOAT, OPT_INT, OPT_INT64,
    OPT_INPUT, OPT_OFFSET, OPT_OUTPUT, OPT_SPEC, OPT_STRING, OPT_TIME,
};
use optengine::registry::PassThrough;
use optengine::split::{init_parse_context, split_commandline, TokenizeError};
use optengine::types::{
    GlobalStore, OptionDef, OptionGroupDef, OptionOperation, OptionParseContext, OptionsContext,
    ScalarField, SpecListField, SpecifierOptValue,
};

const SLOT_HIDE_BANNER: usize = 0;
const HANDLER_SHOW_HELP: usize = 1;
const HANDLER_LOGLEVEL: usize = 2;

fn def(name: &str, flags: u64, u: OptionOperation) -> OptionDef {
    OptionDef {
        name: name.to_string(),
        help: format!("help for {}", name),
        argname: None,
        flags,
        u,
    }
}

fn options_table() -> Vec<OptionDef> {
    vec![
        def("h", OPT_EXIT, OptionOperation::FuncArg(HANDLER_SHOW_HELP)),
        def("loglevel", HAS_ARG, OptionOperation::FuncArg(HANDLER_LOGLEVEL)),
        def(
            "hide_banner",
            OPT_BOOL | OPT_EXPERT,
            OptionOperation::DstSlot(SLOT_HIDE_BANNER),
        ),
        def(
            "f",
            HAS_ARG | OPT_STRING | OPT_OFFSET | OPT_INPUT | OPT_OUTPUT,
            OptionOperation::OffScalar(ScalarField::Format),
        ),
        def(
            "c",
            HAS_ARG | OPT_STRING | OPT_SPEC | OPT_INPUT | OPT_OUTPUT,
            OptionOperation::OffSpec(SpecListField::CodecNames),
        ),
        def(
            "t",
            HAS_ARG | OPT_TIME | OPT_OFFSET | OPT_INPUT | OPT_OUTPUT,
            OptionOperation::OffScalar(ScalarField::RecordingTime),
        ),
        def(
            "fs",
            HAS_ARG | OPT_INT64 | OPT_OFFSET | OPT_OUTPUT,
            OptionOperation::OffScalar(ScalarField::LimitFilesize),
        ),
        def(
            "ac",
            OPT_AUDIO | HAS_ARG | OPT_INT | OPT_SPEC | OPT_INPUT | OPT_OUTPUT,
            OptionOperation::OffSpec(SpecListField::AudioChannels),
        ),
        def(
            "q",
            HAS_ARG | OPT_EXPERT | OPT_DOUBLE | OPT_SPEC | OPT_OUTPUT,
            OptionOperation::OffSpec(SpecListField::Qscale),
        ),
        def(
            "muxdelay",
            OPT_FLOAT | HAS_ARG | OPT_EXPERT | OPT_OFFSET | OPT_OUTPUT,
            OptionOperation::OffScalar(ScalarField::MuxMaxDelay),
        ),
    ]
}

fn groups_table() -> Vec<OptionGroupDef> {
    vec![
        OptionGroupDef {
            name: "output url".to_string(),
            sep: None,
            flags: OPT_OUTPUT,
        },
        OptionGroupDef {
            name: "input url".to_string(),
            sep: Some("i".to_string()),
            flags: OPT_INPUT,
        },
    ]
}

fn args_of(a: &[&str]) -> Vec<String> {
    a.iter().map(|s| s.to_string()).collect()
}

fn fresh_store() -> GlobalStore {
    GlobalStore {
        slots: vec![SpecifierOptValue::Int(0)],
    }
}

fn tokenize(args: &[&str]) -> Result<(OptionParseContext, PassThrough), TokenizeError> {
    let groups = groups_table();
    let options = options_table();
    let mut octx = init_parse_context(&groups);
    let mut pt = PassThrough::new(Vec::new(), Vec::new());
    let argv = args_of(args);
    split_commandline(&mut octx, &argv, &options, &groups, &mut pt).map(|()| (octx, pt))
}

#[test]
fn empty_argument_vector() {
    // only the program name: zero groups realized, nothing global
    let (octx, _) = tokenize(&["prog"]).unwrap();
    assert_eq!(octx.global_opts.opts.len(), 0);
    assert_eq!(octx.groups[0].groups.len(), 0);
    assert_eq!(octx.groups[1].groups.len(), 0);
    assert_eq!(octx.cur_group.opts.len(), 0);
}

#[test]
fn scenario_input_output_with_specifier() {
    let (octx, _) = tokenize(&["prog", "-i", "in.mp4", "-c:v", "copy", "out.mp4"]).unwrap();
    // one realized input group with argument "in.mp4" and no options
    assert_eq!(octx.groups[1].groups.len(), 1);
    let ingroup = &octx.groups[1].groups[0];
    assert_eq!(ingroup.arg, "in.mp4");
    assert_eq!(ingroup.opts.len(), 0);
    // one realized output group with argument "out.mp4" holding c:v = copy
    assert_eq!(octx.groups[0].groups.len(), 1);
    let outgroup = &octx.groups[0].groups[0];
    assert_eq!(outgroup.arg, "out.mp4");
    assert_eq!(outgroup.opts.len(), 1);
    assert_eq!(outgroup.opts[0].key, "c:v");
    assert_eq!(outgroup.opts[0].val, "copy");
    assert_eq!(octx.global_opts.opts.len(), 0);

    // applying the output group appends one specifier entry
    let mut ctx = OptionsContext::new(outgroup.clone());
    let mut store = fresh_store();
    let mut handler = RecordingHandler { calls: Vec::new() };
    let r = parse_optgroup(&mut ctx, &mut store, &octx.groups[0].groups[0], &mut handler);
    assert!(matches!(r, Ok(ApplyOutcome::Applied)));
    assert_eq!(ctx.codec_names.len(), 1);
    assert_eq!(ctx.codec_names[0].specifier, "v");
    assert!(matches!(&ctx.codec_names[0].u, SpecifierOptValue::Str(s) if s == "copy"));
}

#[test]
fn scenario_global_boolean() {
    let (octx, _) = tokenize(&["prog", "-hide_banner", "-i", "a.mkv", "b.mkv"]).unwrap();
    // hide_banner is global with implicit value "1"
    assert_eq!(octx.global_opts.opts.len(), 1);
    assert_eq!(octx.global_opts.opts[0].key, "hide_banner");
    assert_eq!(octx.global_opts.opts[0].val, "1");
    // one input group and one output group with empty options
    assert_eq!(octx.groups[1].groups.len(), 1);
    assert_eq!(octx.groups[1].groups[0].arg, "a.mkv");
    assert_eq!(octx.groups[0].groups.len(), 1);
    assert_eq!(octx.groups[0].groups[0].arg, "b.mkv");
    assert_eq!(octx.groups[0].groups[0].opts.len(), 0);

    // applying the global group writes the fixed slot
    let mut store = fresh_store();
    let mut handler = RecordingHandler { calls: Vec::new() };
    let r = parse_optgroup_global(&mut store, &octx.global_opts, &mut handler);
    assert!(matches!(r, Ok(ApplyOutcome::Applied)));
    assert!(matches!(store.slots[SLOT_HIDE_BANNER], SpecifierOptValue::Int(1)));
}

#[test]
fn scenario_time_scope_accepted() {
    // -t before -i lands in the input group; t carries both scope bits
    let (octx, _) = tokenize(&["prog", "-t", "10", "-i", "in.mp4", "out.mp4"]).unwrap();
    let ingroup = octx.groups[1].groups[0].clone();
    assert_eq!(ingroup.opts.len(), 1);
    assert_eq!(ingroup.opts[0].key, "t");
    let mut ctx = OptionsContext::new(ingroup.clone());
    let mut store = fresh_store();
    let mut handler = RecordingHandler { calls: Vec::new() };
    let r = parse_optgroup(&mut ctx, &mut store, &ingroup, &mut handler);
    assert!(matches!(r, Ok(ApplyOutcome::Applied)));
    assert_eq!(ctx.recording_time, 10_000_000);
}

#[test]
fn scenario_time_scope_rejected() {
    // an input-only time option sealed into an output group fails scope
    // validation, and the group's remaining writes never happen
    let mut options = options_table();
    options.push(def(
        "itsoffset",
        HAS_ARG | OPT_TIME | OPT_OFFSET | OPT_EXPERT | OPT_INPUT,
        OptionOperation::OffScalar(ScalarField::InputTsOffset),
    ));
    let groups = groups_table();
    let mut octx = init_parse_context(&groups);
    let mut pt = PassThrough::new(Vec::new(), Vec::new());
    let argv = args_of(&["prog", "-i", "in.mp4", "-itsoffset", "10", "-f", "mp4", "out.mp4"]);
    split_commandline(&mut octx, &argv, &options, &groups, &mut pt).unwrap();
    let outgroup = octx.groups[0].groups[0].clone();
    assert_eq!(outgroup.opts.len(), 2);
    let mut ctx = OptionsContext::new(outgroup.clone());
    let mut store = fresh_store();
    let mut handler = RecordingHandler { calls: Vec::new() };
    let r = parse_optgroup(&mut ctx, &mut store, &outgroup, &mut handler);
    match r {
        Err(ApplyError::ScopeMismatch {
            key,
            group_name,
            group_arg,
            ..
        }) => {
            assert_eq!(key, "itsoffset");
            assert_eq!(group_name, "output url");
            assert_eq!(group_arg, "out.mp4");
        }
        other => panic!("unexpected outcome: {:?}", other),
    }
    // the aborted group left the later -f write unapplied
    assert_eq!(ctx.format, "");
}

#[test]
fn scenario_unknown_flag() {
    let r = tokenize(&["prog", "-frobnicate"]);
    match r {
        Err(TokenizeError::UnknownOption { key }) => assert_eq!(key, "frobnicate"),
        other => panic!("unexpected outcome: {:?}", other),
    }
}

#[test]
fn applying_twice_yields_identical_fields() {
    let (octx, _) = tokenize(&[
        "prog", "-i", "in.mp4", "-c:v", "copy", "-fs", "42", "-muxdelay", "0.7", "out.mp4",
    ])
    .unwrap();
    let outgroup = octx.groups[0].groups[0].clone();
    let mut first = OptionsContext::new(outgroup.clone());
    let mut second = OptionsContext::new(outgroup.clone());
    let mut store1 = fresh_store();
    let mut store2 = fresh_store();
    let mut handler = RecordingHandler { calls: Vec::new() };
    parse_optgroup(&mut first, &mut store1, &outgroup, &mut handler).unwrap();
    parse_optgroup(&mut second, &mut store2, &outgroup, &mut handler).unwrap();
    assert_eq!(first.limit_filesize, 42);
    assert_eq!(second.limit_filesize, 42);
    assert_eq!(first.mux_max_delay, second.mux_max_delay);
    assert_eq!(first.codec_names.len(), second.codec_names.len());
    assert_eq!(first.codec_names[0].specifier, second.codec_names[0].specifier);
    assert_eq!(first.recording_time, second.recording_time);
}

#[test]
fn exit_option_consumes_optional_argument() {
    let (octx, _) = tokenize(&["prog", "-h", "topic"]).unwrap();
    assert_eq!(octx.global_opts.opts.len(), 1);
    assert_eq!(octx.global_opts.opts[0].key, "h");
    assert_eq!(octx.global_opts.opts[0].val, "topic");

    // applying it invokes the handler and signals program termination
    let mut store = fresh_store();
    let mut handler = RecordingHandler { calls: Vec::new() };
    let r = parse_optgroup_global(&mut store, &octx.global_opts, &mut handler);
    assert!(matches!(r, Ok(ApplyOutcome::ProgramExit)));
    assert_eq!(handler.calls.len(), 1);
    assert_eq!(handler.calls[0].id, HANDLER_SHOW_HELP);
    assert_eq!(handler.calls[0].key, "h");
    assert_eq!(handler.calls[0].val, "topic");
}

#[test]
fn exit_option_without_argument() {
    let (octx, _) = tokenize(&["prog", "-h"]).unwrap();
    assert_eq!(octx.global_opts.opts.len(), 1);
    assert_eq!(octx.global_opts.opts[0].val, "");
}

#[test]
fn missing_required_arguments() {
    match tokenize(&["prog", "-t"]) {
        Err(TokenizeError::MissingOptArg { key }) => assert_eq!(key, "t"),
        other => panic!("unexpected outcome: {:?}", other),
    }
    match tokenize(&["prog", "-i"]) {
        Err(TokenizeError::MissingGroupArg { sep }) => assert_eq!(sep, "i"),
        other => panic!("unexpected outcome: {:?}", other),
    }
}

#[test]
fn negated_boolean() {
    let (octx, _) = tokenize(&["prog", "-nohide_banner"]).unwrap();
    assert_eq!(octx.global_opts.opts.len(), 1);
    assert_eq!(octx.global_opts.opts[0].key, "hide_banner");
    assert_eq!(octx.global_opts.opts[0].val, "0");

    let mut store = fresh_store();
    let mut handler = RecordingHandler { calls: Vec::new() };
    parse_optgroup_global(&mut store, &octx.global_opts, &mut handler).unwrap();
    assert!(matches!(store.slots[SLOT_HIDE_BANNER], SpecifierOptValue::Int(0)));
}

#[test]
fn negation_of_non_boolean_is_unknown() {
    match tokenize(&["prog", "-not"]) {
        Err(TokenizeError::UnknownOption { key }) => assert_eq!(key, "not"),
        other => panic!("unexpected outcome: {:?}", other),
    }
}

#[test]
fn dashdash_marks_one_positional() {
    let (octx, _) = tokenize(&["prog", "--", "-strange.mp4"]).unwrap();
    assert_eq!(octx.groups[0].groups.len(), 1);
    assert_eq!(octx.groups[0].groups[0].arg, "-strange.mp4");
}

#[test]
fn single_dash_is_positional() {
    let (octx, _) = tokenize(&["prog", "-"]).unwrap();
    assert_eq!(octx.groups[0].groups.len(), 1);
    assert_eq!(octx.groups[0].groups[0].arg, "-");
}

#[test]
fn pass_through_records_recognized_keys() {
    let groups = groups_table();
    let options = options_table();
    let mut octx = init_parse_context(&groups);
    let mut pt = PassThrough::new(
        vec!["b".to_string()],
        vec!["fflags".to_string()],
    );
    let argv = args_of(&["prog", "-b:v", "1200k", "-fflags", "nobuffer", "out.mp4"]);
    split_commandline(&mut octx, &argv, &options, &groups, &mut pt).unwrap();
    // the codec key is looked up with its specifier stripped but recorded
    // with the full key text
    assert_eq!(pt.codec_opts.len(), 1);
    assert_eq!(pt.codec_opts[0].key, "b:v");
    assert_eq!(pt.codec_opts[0].val, "1200k");
    assert_eq!(pt.format_opts.len(), 1);
    assert_eq!(pt.format_opts[0].key, "fflags");
    assert_eq!(pt.format_opts[0].val, "nobuffer");
}

#[test]
fn pass_through_overwrites_repeated_key() {
    let groups = groups_table();
    let options = options_table();
    let mut octx = init_parse_context(&groups);
    let mut pt = PassThrough::new(vec!["b".to_string()], Vec::new());
    let argv = args_of(&["prog", "-b", "100k", "-b", "200k", "out.mp4"]);
    split_commandline(&mut octx, &argv, &options, &groups, &mut pt).unwrap();
    assert_eq!(pt.codec_opts.len(), 1);
    assert_eq!(pt.codec_opts[0].val, "200k");
}

#[test]
fn realizing_a_group_restores_scaler_default() {
    let (_, pt) = tokenize(&["prog", "out.mp4"]).unwrap();
    assert_eq!(pt.sws_dict.len(), 1);
    assert_eq!(pt.sws_dict[0].key, "flags");
    assert_eq!(pt.sws_dict[0].val, "bicubic");
}

#[test]
fn fractional_integer_is_rejected() {
    let (octx, _) = tokenize(&["prog", "-i", "in.mp4", "-ac:a", "42.5", "out.mp4"]).unwrap();
    let outgroup = octx.groups[0].groups[0].clone();
    let mut ctx = OptionsContext::new(outgroup.clone());
    let mut store = fresh_store();
    let mut handler = RecordingHandler { calls: Vec::new() };
    let r = parse_optgroup(&mut ctx, &mut store, &outgroup, &mut handler);
    match r {
        Err(ApplyError::BadValue { key, val, kind }) => {
            assert_eq!(key, "ac:a");
            assert_eq!(val, "42.5");
            assert_eq!(kind, ValueErrKind::NotExact);
        }
        other => panic!("unexpected outcome: {:?}", other),
    }
}

#[test]
fn integer_too_large_for_exact_float_parse() {
    // 2^53 + 1 has no exact 53-bit significand reading
    let (octx, _) = tokenize(&["prog", "-fs", "9007199254740993", "out.mp4"]).unwrap();
    let outgroup = octx.groups[0].groups[0].clone();
    let mut ctx = OptionsContext::new(outgroup.clone());
    let mut store = fresh_store();
    let mut handler = RecordingHandler { calls: Vec::new() };
    match parse_optgroup(&mut ctx, &mut store, &outgroup, &mut handler) {
        Err(ApplyError::BadValue { kind, .. }) => assert_eq!(kind, ValueErrKind::NotExact),
        other => panic!("unexpected outcome: {:?}", other),
    }
}

#[test]
fn integer_out_of_range() {
    let (octx, _) = tokenize(&["prog", "-fs", "99999999999999999999999", "out.mp4"]).unwrap();
    let outgroup = octx.groups[0].groups[0].clone();
    let mut ctx = OptionsContext::new(outgroup.clone());
    let mut store = fresh_store();
    let mut handler = RecordingHandler { calls: Vec::new() };
    match parse_optgroup(&mut ctx, &mut store, &outgroup, &mut handler) {
        Err(ApplyError::BadValue { kind, .. }) => assert_eq!(kind, ValueErrKind::OutOfRange),
        other => panic!("unexpected outcome: {:?}", other),
    }
}

#[test]
fn bad_duration_is_rejected() {
    let (octx, _) = tokenize(&["prog", "-t", "-5", "out.mp4"]).unwrap();
    let outgroup = octx.groups[0].groups[0].clone();
    let mut ctx = OptionsContext::new(outgroup.clone());
    let mut store = fresh_store();
    let mut handler = RecordingHandler { calls: Vec::new() };
    match parse_optgroup(&mut ctx, &mut store, &outgroup, &mut handler) {
        Err(ApplyError::BadValue { kind, .. }) => assert_eq!(kind, ValueErrKind::BadDuration),
        other => panic!("unexpected outcome: {:?}", other),
    }
}

#[test]
fn string_and_float_offsets() {
    let (octx, _) =
        tokenize(&["prog", "-f", "mp4", "-muxdelay", "0.7", "-q:a", "2.5", "out.mp4"]).unwrap();
    let outgroup = octx.groups[0].groups[0].clone();
    let mut ctx = OptionsContext::new(outgroup.clone());
    let mut store = fresh_store();
    let mut handler = RecordingHandler { calls: Vec::new() };
    parse_optgroup(&mut ctx, &mut store, &outgroup, &mut handler).unwrap();
    assert_eq!(ctx.format, "mp4");
    assert_eq!(ctx.mux_max_delay, "0.7");
    assert_eq!(ctx.qscale.len(), 1);
    assert_eq!(ctx.qscale[0].specifier, "a");
    assert!(matches!(&ctx.qscale[0].u, SpecifierOptValue::Dbl(s) if s == "2.5"));
}

#[test]
fn float_kind_rejects_non_numeral() {
    let (octx, _) = tokenize(&["prog", "-muxdelay", "fast", "out.mp4"]).unwrap();
    let outgroup = octx.groups[0].groups[0].clone();
    let mut ctx = OptionsContext::new(outgroup.clone());
    let mut store = fresh_store();
    let mut handler = RecordingHandler { calls: Vec::new() };
    match parse_optgroup(&mut ctx, &mut store, &outgroup, &mut handler) {
        Err(ApplyError::BadValue { kind, .. }) => assert_eq!(kind, ValueErrKind::NotNumber),
        other => panic!("unexpected outcome: {:?}", other),
    }
}

struct FailingHandler;

impl OptionHandler for FailingHandler {
    fn on_option(&mut self, _id: usize, _key: &str, _val: &str) -> i64 {
        -22
    }
}

#[test]
fn handler_failure_aborts_the_group() {
    let (octx, _) = tokenize(&["prog", "-loglevel", "verbose", "out.mp4"]).unwrap();
    let mut store = fresh_store();
    let mut handler = FailingHandler;
    match parse_optgroup_global(&mut store, &octx.global_opts, &mut handler) {
        Err(ApplyError::Handler { key, val, status }) => {
            assert_eq!(key, "loglevel");
            assert_eq!(val, "verbose");
            assert_eq!(status, -22);
        }
        other => panic!("unexpected outcome: {:?}", other),
    }
}

#[test]
fn specifier_entries_accumulate_in_order() {
    let (octx, _) = tokenize(&[
        "prog", "-c:v", "libx264", "-c:a", "aac", "-c", "copy", "out.mp4",
    ])
    .unwrap();
    let outgroup = octx.groups[0].groups[0].clone();
    let mut ctx = OptionsContext::new(outgroup.clone());
    let mut store = fresh_store();
    let mut handler = RecordingHandler { calls: Vec::new() };
    parse_optgroup(&mut ctx, &mut store, &outgroup, &mut handler).unwrap();
    assert_eq!(ctx.codec_names.len(), 3);
    assert_eq!(ctx.codec_names[0].specifier, "v");
    assert_eq!(ctx.codec_names[1].specifier, "a");
    assert_eq!(ctx.codec_names[2].specifier, "");
    assert!(matches!(&ctx.codec_names[2].u, SpecifierOptValue::Str(s) if s == "copy"));
}

#[test]
fn per_file_option_stays_out_of_global_group() {
    // a struct-offset option with no later positional stays in the
    // accumulator: trailing options are kept, not promoted to global
    let (octx, _) = tokenize(&["prog", "-f", "mp4"]).unwrap();
    assert_eq!(octx.global_opts.opts.len(), 0);
    assert_eq!(octx.cur_group.opts.len(), 1);
    assert_eq!(octx.cur_group.opts[0].key, "f");
}

#[test]
fn limit_filesize_writes_unsigned_field() {
    let (octx, _) = tokenize(&["prog", "-fs", "1048576", "out.mp4"]).unwrap();
    let outgroup = octx.groups[0].groups[0].clone();
    let mut ctx = OptionsContext::new(outgroup.clone());
    let mut store = fresh_store();
    let mut handler = RecordingHandler { calls: Vec::new() };
    parse_optgroup(&mut ctx, &mut store, &outgroup, &mut handler).unwrap();
    assert_eq!(ctx.limit_filesize, 1_048_576u64);
}

#[test]
fn driver_applies_global_scope() {
    let groups = groups_table();
    let options = options_table();
    let mut pt = PassThrough::new(Vec::new(), Vec::new());
    let mut store = fresh_store();
    let mut handler = RecordingHandler { calls: Vec::new() };
    let argv = args_of(&["prog", "-hide_banner", "-i", "a.mkv", "b.mkv"]);
    let (octx, outcome) =
        parse_commandline(&argv, &options, &groups, &mut pt, &mut store, &mut handler).unwrap();
    assert_eq!(outcome, ApplyOutcome::Applied);
    assert!(matches!(store.slots[SLOT_HIDE_BANNER], SpecifierOptValue::Int(1)));
    assert_eq!(octx.groups[1].groups[0].arg, "a.mkv");
    assert_eq!(octx.groups[0].groups[0].arg, "b.mkv");

    // an exits-after-handling option stops the run
    let mut store = fresh_store();
    let argv = args_of(&["prog", "-h"]);
    let (_, outcome) =
        parse_commandline(&argv, &options, &groups, &mut pt, &mut store, &mut handler).unwrap();
    assert_eq!(outcome, ApplyOutcome::ProgramExit);

    // a tokenization error leaves the global store untouched
    let mut store = fresh_store();
    let argv = args_of(&["prog", "-hide_banner", "-frobnicate"]);
    match parse_commandline(&argv, &options, &groups, &mut pt, &mut store, &mut handler) {
        Err(EngineError::Tokenize(TokenizeError::UnknownOption { key })) => {
            assert_eq!(key, "frobnicate")
        }
        other => panic!("unexpected outcome: {:?}", other.map(|_| ())),
    }
    assert!(matches!(store.slots[SLOT_HIDE_BANNER], SpecifierOptValue::Int(0)));

    // a run with no options at all succeeds and realizes the groups
    let mut store = fresh_store();
    let argv = args_of(&["prog", "-hide_banner", "out.mp4"]);
    let r = parse_commandline(&argv, &options, &groups, &mut pt, &mut store, &mut handler);
    assert!(r.is_ok());
}
