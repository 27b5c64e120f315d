//! Tests of the registry data model.

use optengine::flags::{HAS_ARG, OPT_EXPERT};
use optengine::types::{AudioChannelMap, OptionDef, OptionGroup, OptionOperation, StreamMap};

fn opt_cpuflags_id() -> usize {
    7
}

#[test]
fn option_def_macro() {
    let opt = OptionDef {
        name: "cpuflags".to_string(),
        help: "force specific cpu flags".to_string(),
        argname: Some("flags".to_string()),
        flags: HAS_ARG | OPT_EXPERT,
        u: OptionOperation::FuncArg(opt_cpuflags_id()),
    };
    assert_eq!(opt.name, "cpuflags");
    assert_eq!(opt.flags, HAS_ARG | OPT_EXPERT);
    assert_eq!(opt.help, "force specific cpu flags");
    assert_eq!(opt.argname.as_deref(), Some("flags"));
}

#[test]
fn option_operation_macro() {
    // The operation variants construct without further ceremony.
    let _ = OptionOperation::FuncArg(0);
    let _ = OptionOperation::DstSlot(0);
}

#[test]
fn global_and_anonymous_groups() {
    let g = OptionGroup::new_global();
    assert_eq!(g.group_def.name, "global");
    assert_eq!(g.group_def.sep, None);
    assert_eq!(g.group_def.flags, 0);
    assert_eq!(g.arg, "");
    assert_eq!(g.opts.len(), 0);

    let a = OptionGroup::new_anonymous();
    assert_eq!(a.group_def.name, "never_used");
    assert_eq!(a.group_def.flags, 0);
    assert_eq!(a.opts.len(), 0);
}

#[test]
fn stream_and_channel_maps() {
    let sm = StreamMap {
        disabled: 0,
        file_index: 1,
        stream_index: 2,
        sync_file_index: 1,
        sync_stream_index: 0,
        linklabel: "out".to_string(),
    };
    assert_eq!(sm.file_index, 1);
    assert_eq!(sm.linklabel, "out");

    let cm = AudioChannelMap {
        file_idx: 0,
        stream_idx: 1,
        channel_idx: 2,
        ofile_idx: 0,
        ostream_idx: 3,
    };
    assert_eq!(cm.channel_idx, 2);
    assert_eq!(cm.ostream_idx, 3);
}
