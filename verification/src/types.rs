//! Data model of the option engine.
//!
//! An option registry is a table of [`OptionDef`] records plus a small table
//! of [`OptionGroupDef`] records.  Tokenizing an argument vector produces an
//! [`OptionParseContext`]: a global option group, one list of realized groups
//! per group kind, and the accumulator group currently being filled.
//! Applying a realized group writes each of its key/value pairs into a typed
//! destination: a field of the per-file [`OptionsContext`], a slot of the
//! process-wide [`GlobalStore`], or a handler.

use vstd::prelude::*;

verus! {

/// Timestamp value meaning "not set".
pub const AV_NOPTS_VALUE: i64 = i64::MIN;

/// Scalar fields of the per-file context that a struct-offset option can
/// target.
#[derive(Clone, Copy, PartialEq, Eq, Structural, Debug)]
pub enum ScalarField {
    Format,
    ChaptersInputFile,
    RecordingTime,
    StopTime,
    LimitFilesize,
    StartTime,
    StartTimeEof,
    SeekTimestamp,
    AccurateSeek,
    InputTsOffset,
    RateEmu,
    Shortest,
    Bitexact,
    Loops,
    VideoDisable,
    AudioDisable,
    SubtitleDisable,
    DataDisable,
    ThreadQueueSize,
    MuxMaxDelay,
    MuxPreload,
}

/// Specifier-list fields of the per-file context that a specifier-qualified
/// option can target.
#[derive(Clone, Copy, PartialEq, Eq, Structural, Debug)]
pub enum SpecListField {
    CodecNames,
    AudioChannels,
    AudioSampleRate,
    FrameRates,
    FrameSizes,
    FramePixFmts,
    TsScale,
    DumpAttachment,
    Hwaccels,
    HwaccelDevices,
    HwaccelOutputFormats,
    Autorotate,
    Metadata,
    MaxFrames,
    BitstreamFilters,
    CodecTags,
    SampleFmts,
    Qscale,
    ForcedKeyFrames,
    ForceFps,
    FrameAspectRatios,
    RcOverrides,
    IntraMatrices,
    InterMatrices,
    ChromaIntraMatrices,
    TopFieldFirst,
    MetadataMap,
    Presets,
    CopyInitialNonkeyframes,
    CopyPriorStart,
    Filters,
    FilterScripts,
    ReinitFilters,
    FixSubDuration,
    CanvasSizes,
    Pass,
    Passlogfiles,
    MaxMuxingQueueSize,
    GuessLayoutMax,
    Apad,
    Discard,
    Disposition,
    Program,
    TimeBases,
    EncTimeBases,
}

/// The destination operation of an option definition.  Exactly one variant
/// is active per definition, selected consistently with the flag bits: a
/// specifier-qualified option carries `OffSpec`, a struct-offset option
/// carries `OffScalar`, a callback option carries `FuncArg` with a handler
/// identifier, and anything else carries `DstSlot` with the index of a fixed
/// process-lifetime slot.
#[derive(Clone, Copy, PartialEq, Eq, Structural, Debug)]
pub enum OptionOperation {
    DstSlot(usize),
    FuncArg(usize),
    OffScalar(ScalarField),
    OffSpec(SpecListField),
}

/// One record of the option registry.
#[derive(Debug)]
pub struct OptionDef {
    pub name: String,
    pub help: String,
    pub argname: Option<String>,
    pub flags: u64,
    pub u: OptionOperation,
}

/// Mathematical model of an option definition.
#[verifier::ext_equal]
pub struct OptionDefView {
    pub name: Seq<char>,
    pub help: Seq<char>,
    pub argname: Option<Seq<char>>,
    pub flags: u64,
    pub u: OptionOperation,
}

impl View for OptionDef {
    type V = OptionDefView;

    open spec fn view(&self) -> OptionDefView {
        OptionDefView {
            name: self.name@,
            help: self.help@,
            argname: match self.argname {
                Option::Some(s) => Option::Some(s@),
                Option::None => Option::None,
            },
            flags: self.flags,
            u: self.u,
        }
    }
}

impl Clone for OptionDef {
    fn clone(&self) -> (res: Self)
        ensures
            res == self,
    {
        OptionDef {
            name: self.name.clone(),
            help: self.help.clone(),
            argname: match &self.argname {
                Option::Some(s) => Option::Some(s.clone()),
                Option::None => Option::None,
            },
            flags: self.flags,
            u: self.u,
        }
    }
}

/// One record of the group registry: the kind's name, its optional
/// separator token (for example "i" so that `-i` begins an input-file
/// group), and the flag mask that options placed in such a group must
/// intersect (an empty mask places no restriction).
#[derive(Debug)]
pub struct OptionGroupDef {
    pub name: String,
    pub sep: Option<String>,
    pub flags: u64,
}

/// Mathematical model of a group definition.
#[verifier::ext_equal]
pub struct OptionGroupDefView {
    pub name: Seq<char>,
    pub sep: Option<Seq<char>>,
    pub flags: u64,
}

impl View for OptionGroupDef {
    type V = OptionGroupDefView;

    open spec fn view(&self) -> OptionGroupDefView {
        OptionGroupDefView {
            name: self.name@,
            sep: match self.sep {
                Option::Some(s) => Option::Some(s@),
                Option::None => Option::None,
            },
            flags: self.flags,
        }
    }
}

impl Clone for OptionGroupDef {
    fn clone(&self) -> (res: Self)
        ensures
            res == self,
    {
        OptionGroupDef {
            name: self.name.clone(),
            sep: match &self.sep {
                Option::Some(s) => Option::Some(s.clone()),
                Option::None => Option::None,
            },
            flags: self.flags,
        }
    }
}

/// One recognized option occurrence: its definition, the literal key text
/// (which may carry a ":specifier" suffix) and the literal value text.
#[derive(Debug)]
pub struct OptionKV {
    pub opt: OptionDef,
    pub key: String,
    pub val: String,
}

/// Mathematical model of an option occurrence.
#[verifier::ext_equal]
pub struct OptionKVView {
    pub opt: OptionDefView,
    pub key: Seq<char>,
    pub val: Seq<char>,
}

impl View for OptionKV {
    type V = OptionKVView;

    open spec fn view(&self) -> OptionKVView {
        OptionKVView { opt: self.opt@, key: self.key@, val: self.val@ }
    }
}

impl Clone for OptionKV {
    fn clone(&self) -> (res: Self)
        ensures
            res == self,
    {
        OptionKV { opt: self.opt.clone(), key: self.key.clone(), val: self.val.clone() }
    }
}

/// The options scoped to one file (or to the global scope): the defining
/// group definition, the group's positional argument (the file name), and
/// the ordered option occurrences.
#[derive(Debug)]
pub struct OptionGroup {
    pub group_def: OptionGroupDef,
    pub arg: String,
    pub opts: Vec<OptionKV>,
}

/// Mathematical model of an option group.
#[verifier::ext_equal]
pub struct OptionGroupView {
    pub group_def: OptionGroupDefView,
    pub arg: Seq<char>,
    pub opts: Seq<OptionKVView>,
}

impl View for OptionGroup {
    type V = OptionGroupView;

    open spec fn view(&self) -> OptionGroupView {
        OptionGroupView {
            group_def: self.group_def@,
            arg: self.arg@,
            opts: self.opts@.map_values(|kv: OptionKV| kv@),
        }
    }
}

impl OptionGroup {
    /// The group holding global options: an anchor definition with no
    /// separator and an empty flag mask, so that scope validation never
    /// restricts it.
    pub fn new_global() -> (res: Self)
        ensures
            res@.group_def.name == "global"@,
            res@.group_def.sep is None,
            res@.group_def.flags == 0u64,
            res@.arg == Seq::<char>::empty(),
            res@.opts == Seq::<OptionKVView>::empty(),
    {
        let res = OptionGroup {
            group_def: OptionGroupDef {
                name: String::from_str("global"),
                sep: Option::None,
                flags: 0,
            },
            arg: String::new(),
            opts: Vec::new(),
        };
        proof {
            assert(res@.opts =~= Seq::<OptionKVView>::empty());
        }
        res
    }

    /// A fresh accumulator group.  Its definition is a placeholder that is
    /// never consulted: the accumulator is stamped with a real group
    /// definition when it is realized.
    pub fn new_anonymous() -> (res: Self)
        ensures
            res@.group_def.name == "never_used"@,
            res@.group_def.sep is None,
            res@.group_def.flags == 0u64,
            res@.arg == Seq::<char>::empty(),
            res@.opts == Seq::<OptionKVView>::empty(),
    {
        let res = OptionGroup {
            group_def: OptionGroupDef {
                name: String::from_str("never_used"),
                sep: Option::None,
                flags: 0,
            },
            arg: String::new(),
            opts: Vec::new(),
        };
        proof {
            assert(res@.opts =~= Seq::<OptionKVView>::empty());
        }
        res
    }
}

impl Clone for OptionGroup {
    fn clone(&self) -> (res: Self)
        ensures
            res@ == self@,
    {
        let opts = self.opts.clone();
        proof {
            assert(forall|i: int|
                0 <= i < self.opts@.len() ==> self.opts@[i] == #[trigger] opts@[i]);
            assert(opts@ =~= self.opts@);
        }
        let res = OptionGroup { group_def: self.group_def.clone(), arg: self.arg.clone(), opts };
        proof {
            assert(res@ =~~= self@);
        }
        res
    }
}

/// All realized groups sharing one group definition (for example all
/// input-file groups).
#[derive(Debug)]
pub struct OptionGroupList {
    pub group_def: OptionGroupDef,
    pub groups: Vec<OptionGroup>,
}

/// Mathematical model of a group list.
#[verifier::ext_equal]
pub struct OptionGroupListView {
    pub group_def: OptionGroupDefView,
    pub groups: Seq<OptionGroupView>,
}

impl View for OptionGroupList {
    type V = OptionGroupListView;

    open spec fn view(&self) -> OptionGroupListView {
        OptionGroupListView {
            group_def: self.group_def@,
            groups: self.groups@.map_values(|g: OptionGroup| g@),
        }
    }
}

/// The complete result of tokenizing an argument vector: the global
/// options, one list of realized groups per group kind, and the accumulator
/// for the file currently being scanned.
#[derive(Debug)]
pub struct OptionParseContext {
    pub global_opts: OptionGroup,
    pub groups: Vec<OptionGroupList>,
    pub cur_group: OptionGroup,
}

/// Mathematical model of a parse context.
#[verifier::ext_equal]
pub struct OptionParseContextView {
    pub global_opts: OptionGroupView,
    pub groups: Seq<OptionGroupListView>,
    pub cur_group: OptionGroupView,
}

impl View for OptionParseContext {
    type V = OptionParseContextView;

    open spec fn view(&self) -> OptionParseContextView {
        OptionParseContextView {
            global_opts: self.global_opts@,
            groups: self.groups@.map_values(|l: OptionGroupList| l@),
            cur_group: self.cur_group@,
        }
    }
}

/// The scalar value carried by one specifier-qualified option occurrence,
/// or stored in one fixed global slot.  Floating-point kinds store the
/// validated literal text; the surrounding tool converts it to its own
/// float representation.
#[derive(Debug)]
pub enum SpecifierOptValue {
    Str(String),
    Int(isize),
    Int64(i64),
    UInt64(u64),
    Flt(String),
    Dbl(String),
}

/// Mathematical model of a scalar value.
#[verifier::ext_equal]
pub enum SpecifierOptValueView {
    Str(Seq<char>),
    Int(int),
    Int64(int),
    UInt64(int),
    Flt(Seq<char>),
    Dbl(Seq<char>),
}

impl View for SpecifierOptValue {
    type V = SpecifierOptValueView;

    open spec fn view(&self) -> SpecifierOptValueView {
        match self {
            SpecifierOptValue::Str(s) => SpecifierOptValueView::Str(s@),
            SpecifierOptValue::Int(i) => SpecifierOptValueView::Int(*i as int),
            SpecifierOptValue::Int64(i) => SpecifierOptValueView::Int64(*i as int),
            SpecifierOptValue::UInt64(i) => SpecifierOptValueView::UInt64(*i as int),
            SpecifierOptValue::Flt(s) => SpecifierOptValueView::Flt(s@),
            SpecifierOptValue::Dbl(s) => SpecifierOptValueView::Dbl(s@),
        }
    }
}

impl Default for SpecifierOptValue {
    /// The default scalar value is the integer zero, matching the zero
    /// initialization of the freshly appended list entry.
    fn default() -> (res: Self)
        ensures
            res@ == SpecifierOptValueView::Int(0),
    {
        SpecifierOptValue::Int(0)
    }
}

/// One entry of a specifier-qualified option's accumulated list: the stream
/// specifier (for example "v" or "a:0") and the tagged scalar value.
#[derive(Debug)]
pub struct SpecifierOpt {
    pub specifier: String,
    pub u: SpecifierOptValue,
}

/// Mathematical model of a specifier-qualified entry.
#[verifier::ext_equal]
pub struct SpecifierOptView {
    pub specifier: Seq<char>,
    pub u: SpecifierOptValueView,
}

impl View for SpecifierOpt {
    type V = SpecifierOptView;

    open spec fn view(&self) -> SpecifierOptView {
        SpecifierOptView { specifier: self.specifier@, u: self.u@ }
    }
}

/// One stream mapping recorded by the surrounding tool.
#[derive(Debug)]
pub struct StreamMap {
    pub disabled: isize,
    pub file_index: isize,
    pub stream_index: isize,
    pub sync_file_index: isize,
    pub sync_stream_index: isize,
    pub linklabel: String,
}

/// One audio channel mapping recorded by the surrounding tool.
#[derive(Debug)]
pub struct AudioChannelMap {
    pub file_idx: isize,
    pub stream_idx: isize,
    pub channel_idx: isize,
    pub ofile_idx: isize,
    pub ostream_idx: isize,
}

/// Per-file destination structure.  A fresh one is constructed for each
/// realized group immediately before that group is applied; struct-offset
/// options write its scalar fields and specifier-qualified options append
/// to its specifier lists.  Fields that no option targets directly are
/// filled by the surrounding tool's handlers.
#[derive(Debug)]
pub struct OptionsContext {
    pub g: OptionGroup,
    // input/output options
    pub start_time: i64,
    pub start_time_eof: i64,
    pub seek_timestamp: isize,
    pub format: String,
    pub codec_names: Vec<SpecifierOpt>,
    pub audio_channels: Vec<SpecifierOpt>,
    pub audio_sample_rate: Vec<SpecifierOpt>,
    pub frame_rates: Vec<SpecifierOpt>,
    pub frame_sizes: Vec<SpecifierOpt>,
    pub frame_pix_fmts: Vec<SpecifierOpt>,
    // input options
    pub input_ts_offset: i64,
    pub loops: isize,
    pub rate_emu: isize,
    pub accurate_seek: isize,
    pub thread_queue_size: isize,
    pub ts_scale: Vec<SpecifierOpt>,
    pub dump_attachment: Vec<SpecifierOpt>,
    pub hwaccels: Vec<SpecifierOpt>,
    pub hwaccel_devices: Vec<SpecifierOpt>,
    pub hwaccel_output_formats: Vec<SpecifierOpt>,
    pub autorotate: Vec<SpecifierOpt>,
    // output options
    pub stream_maps: Vec<StreamMap>,
    pub audio_channel_maps: Vec<AudioChannelMap>,
    pub metadata_global_manual: isize,
    pub metadata_streams_manual: isize,
    pub metadata_chapters_manual: isize,
    pub attachments: Vec<String>,
    pub chapters_input_file: isize,
    pub recording_time: i64,
    pub stop_time: i64,
    pub limit_filesize: u64,
    pub mux_preload: String,
    pub mux_max_delay: String,
    pub shortest: isize,
    pub bitexact: isize,
    pub video_disable: isize,
    pub audio_disable: isize,
    pub subtitle_disable: isize,
    pub data_disable: isize,
    // indexed by output file stream index
    pub streamid_map: Vec<isize>,
    pub metadata: Vec<SpecifierOpt>,
    pub max_frames: Vec<SpecifierOpt>,
    pub bitstream_filters: Vec<SpecifierOpt>,
    pub codec_tags: Vec<SpecifierOpt>,
    pub sample_fmts: Vec<SpecifierOpt>,
    pub qscale: Vec<SpecifierOpt>,
    pub forced_key_frames: Vec<SpecifierOpt>,
    pub force_fps: Vec<SpecifierOpt>,
    pub frame_aspect_ratios: Vec<SpecifierOpt>,
    pub rc_overrides: Vec<SpecifierOpt>,
    pub intra_matrices: Vec<SpecifierOpt>,
    pub inter_matrices: Vec<SpecifierOpt>,
    pub chroma_intra_matrices: Vec<SpecifierOpt>,
    pub top_field_first: Vec<SpecifierOpt>,
    pub metadata_map: Vec<SpecifierOpt>,
    pub presets: Vec<SpecifierOpt>,
    pub copy_initial_nonkeyframes: Vec<SpecifierOpt>,
    pub copy_prior_start: Vec<SpecifierOpt>,
    pub filters: Vec<SpecifierOpt>,
    pub filter_scripts: Vec<SpecifierOpt>,
    pub reinit_filters: Vec<SpecifierOpt>,
    pub fix_sub_duration: Vec<SpecifierOpt>,
    pub canvas_sizes: Vec<SpecifierOpt>,
    pub pass: Vec<SpecifierOpt>,
    pub passlogfiles: Vec<SpecifierOpt>,
    pub max_muxing_queue_size: Vec<SpecifierOpt>,
    pub guess_layout_max: Vec<SpecifierOpt>,
    pub apad: Vec<SpecifierOpt>,
    pub discard: Vec<SpecifierOpt>,
    pub disposition: Vec<SpecifierOpt>,
    pub program: Vec<SpecifierOpt>,
    pub time_bases: Vec<SpecifierOpt>,
    pub enc_time_bases: Vec<SpecifierOpt>,
}

/// View of a specifier list.
pub open spec fn spec_opts_view(v: Vec<SpecifierOpt>) -> Seq<SpecifierOptView> {
    v@.map_values(|o: SpecifierOpt| o@)
}

/// Mathematical model of the per-file destination structure.
#[verifier::ext_equal]
pub struct OptionsContextView {
    pub g: OptionGroupView,
    pub start_time: int,
    pub start_time_eof: int,
    pub seek_timestamp: int,
    pub format: Seq<char>,
    pub codec_names: Seq<SpecifierOptView>,
    pub audio_channels: Seq<SpecifierOptView>,
    pub audio_sample_rate: Seq<SpecifierOptView>,
    pub frame_rates: Seq<SpecifierOptView>,
    pub frame_sizes: Seq<SpecifierOptView>,
    pub frame_pix_fmts: Seq<SpecifierOptView>,
    pub input_ts_offset: int,
    pub loops: int,
    pub rate_emu: int,
    pub accurate_seek: int,
    pub thread_queue_size: int,
    pub ts_scale: Seq<SpecifierOptView>,
    pub dump_attachment: Seq<SpecifierOptView>,
    pub hwaccels: Seq<SpecifierOptView>,
    pub hwaccel_devices: Seq<SpecifierOptView>,
    pub hwaccel_output_formats: Seq<SpecifierOptView>,
    pub autorotate: Seq<SpecifierOptView>,
    pub stream_maps: Seq<StreamMap>,
    pub audio_channel_maps: Seq<AudioChannelMap>,
    pub metadata_global_manual: int,
    pub metadata_streams_manual: int,
    pub metadata_chapters_manual: int,
    pub attachments: Seq<Seq<char>>,
    pub chapters_input_file: int,
    pub recording_time: int,
    pub stop_time: int,
    pub limit_filesize: int,
    pub mux_preload: Seq<char>,
    pub mux_max_delay: Seq<char>,
    pub shortest: int,
    pub bitexact: int,
    pub video_disable: int,
    pub audio_disable: int,
    pub subtitle_disable: int,
    pub data_disable: int,
    pub streamid_map: Seq<int>,
    pub metadata: Seq<SpecifierOptView>,
    pub max_frames: Seq<SpecifierOptView>,
    pub bitstream_filters: Seq<SpecifierOptView>,
    pub codec_tags: Seq<SpecifierOptView>,
    pub sample_fmts: Seq<SpecifierOptView>,
    pub qscale: Seq<SpecifierOptView>,
    pub forced_key_frames: Seq<SpecifierOptView>,
    pub force_fps: Seq<SpecifierOptView>,
    pub frame_aspect_ratios: Seq<SpecifierOptView>,
    pub rc_overrides: Seq<SpecifierOptView>,
    pub intra_matrices: Seq<SpecifierOptView>,
    pub inter_matrices: Seq<SpecifierOptView>,
    pub chroma_intra_matrices: Seq<SpecifierOptView>,
    pub top_field_first: Seq<SpecifierOptView>,
    pub metadata_map: Seq<SpecifierOptView>,
    pub presets: Seq<SpecifierOptView>,
    pub copy_initial_nonkeyframes: Seq<SpecifierOptView>,
    pub copy_prior_start: Seq<SpecifierOptView>,
    pub filters: Seq<SpecifierOptView>,
    pub filter_scripts: Seq<SpecifierOptView>,
    pub reinit_filters: Seq<SpecifierOptView>,
    pub fix_sub_duration: Seq<SpecifierOptView>,
    pub canvas_sizes: Seq<SpecifierOptView>,
    pub pass: Seq<SpecifierOptView>,
    pub passlogfiles: Seq<SpecifierOptView>,
    pub max_muxing_queue_size: Seq<SpecifierOptView>,
    pub guess_layout_max: Seq<SpecifierOptView>,
    pub apad: Seq<SpecifierOptView>,
    pub discard: Seq<SpecifierOptView>,
    pub disposition: Seq<SpecifierOptView>,
    pub program: Seq<SpecifierOptView>,
    pub time_bases: Seq<SpecifierOptView>,
    pub enc_time_bases: Seq<SpecifierOptView>,
}

impl View for OptionsContext {
    type V = OptionsContextView;

    open spec fn view(&self) -> OptionsContextView {
        OptionsContextView {
            g: self.g@,
            start_time: self.start_time as int,
            start_time_eof: self.start_time_eof as int,
            seek_timestamp: self.seek_timestamp as int,
            format: self.format@,
            codec_names: spec_opts_view(self.codec_names),
            audio_channels: spec_opts_view(self.audio_channels),
            audio_sample_rate: spec_opts_view(self.audio_sample_rate),
            frame_rates: spec_opts_view(self.frame_rates),
            frame_sizes: spec_opts_view(self.frame_sizes),
            frame_pix_fmts: spec_opts_view(self.frame_pix_fmts),
            input_ts_offset: self.input_ts_offset as int,
            loops: self.loops as int,
            rate_emu: self.rate_emu as int,
            accurate_seek: self.accurate_seek as int,
            thread_queue_size: self.thread_queue_size as int,
            ts_scale: spec_opts_view(self.ts_scale),
            dump_attachment: spec_opts_view(self.dump_attachment),
            hwaccels: spec_opts_view(self.hwaccels),
            hwaccel_devices: spec_opts_view(self.hwaccel_devices),
            hwaccel_output_formats: spec_opts_view(self.hwaccel_output_formats),
            autorotate: spec_opts_view(self.autorotate),
            stream_maps: self.stream_maps@,
            audio_channel_maps: self.audio_channel_maps@,
            metadata_global_manual: self.metadata_global_manual as int,
            metadata_streams_manual: self.metadata_streams_manual as int,
            metadata_chapters_manual: self.metadata_chapters_manual as int,
            attachments: self.attachments@.map_values(|s: String| s@),
            chapters_input_file: self.chapters_input_file as int,
            recording_time: self.recording_time as int,
            stop_time: self.stop_time as int,
            limit_filesize: self.limit_filesize as int,
            mux_preload: self.mux_preload@,
            mux_max_delay: self.mux_max_delay@,
            shortest: self.shortest as int,
            bitexact: self.bitexact as int,
            video_disable: self.video_disable as int,
            audio_disable: self.audio_disable as int,
            subtitle_disable: self.subtitle_disable as int,
            data_disable: self.data_disable as int,
            streamid_map: self.streamid_map@.map_values(|i: isize| i as int),
            metadata: spec_opts_view(self.metadata),
            max_frames: spec_opts_view(self.max_frames),
            bitstream_filters: spec_opts_view(self.bitstream_filters),
            codec_tags: spec_opts_view(self.codec_tags),
            sample_fmts: spec_opts_view(self.sample_fmts),
            qscale: spec_opts_view(self.qscale),
            forced_key_frames: spec_opts_view(self.forced_key_frames),
            force_fps: spec_opts_view(self.force_fps),
            frame_aspect_ratios: spec_opts_view(self.frame_aspect_ratios),
            rc_overrides: spec_opts_view(self.rc_overrides),
            intra_matrices: spec_opts_view(self.intra_matrices),
            inter_matrices: spec_opts_view(self.inter_matrices),
            chroma_intra_matrices: spec_opts_view(self.chroma_intra_matrices),
            top_field_first: spec_opts_view(self.top_field_first),
            metadata_map: spec_opts_view(self.metadata_map),
            presets: spec_opts_view(self.presets),
            copy_initial_nonkeyframes: spec_opts_view(self.copy_initial_nonkeyframes),
            copy_prior_start: spec_opts_view(self.copy_prior_start),
            filters: spec_opts_view(self.filters),
            filter_scripts: spec_opts_view(self.filter_scripts),
            reinit_filters: spec_opts_view(self.reinit_filters),
            fix_sub_duration: spec_opts_view(self.fix_sub_duration),
            canvas_sizes: spec_opts_view(self.canvas_sizes),
            pass: spec_opts_view(self.pass),
            passlogfiles: spec_opts_view(self.passlogfiles),
            max_muxing_queue_size: spec_opts_view(self.max_muxing_queue_size),
            guess_layout_max: spec_opts_view(self.guess_layout_max),
            apad: spec_opts_view(self.apad),
            discard: spec_opts_view(self.discard),
            disposition: spec_opts_view(self.disposition),
            program: spec_opts_view(self.program),
            time_bases: spec_opts_view(self.time_bases),
            enc_time_bases: spec_opts_view(self.enc_time_bases),
        }
    }
}

impl OptionsContext {
    /// A fresh per-file destination owning the realized group `g`.
    ///
    /// Timestamps default to the not-set marker, the recording and stop
    /// times and the file-size limit to their type's maximum, accurate
    /// seeking to enabled, and every other field to zero or empty.
    pub fn new(g: OptionGroup) -> (res: Self)
        ensures
            res@.g == g@,
            res@.start_time == AV_NOPTS_VALUE as int,
            res@.start_time_eof == AV_NOPTS_VALUE as int,
            res@.seek_timestamp == 0,
            res@.format == Seq::<char>::empty(),
            res@.codec_names == Seq::<SpecifierOptView>::empty(),
            res@.audio_channels == Seq::<SpecifierOptView>::empty(),
            res@.audio_sample_rate == Seq::<SpecifierOptView>::empty(),
            res@.frame_rates == Seq::<SpecifierOptView>::empty(),
            res@.frame_sizes == Seq::<SpecifierOptView>::empty(),
            res@.frame_pix_fmts == Seq::<SpecifierOptView>::empty(),
            res@.input_ts_offset == 0,
            res@.loops == 0,
            res@.rate_emu == 0,
            res@.accurate_seek == 1,
            res@.thread_queue_size == 0,
            res@.ts_scale == Seq::<SpecifierOptView>::empty(),
            res@.dump_attachment == Seq::<SpecifierOptView>::empty(),
            res@.hwaccels == Seq::<SpecifierOptView>::empty(),
            res@.hwaccel_devices == Seq::<SpecifierOptView>::empty(),
            res@.hwaccel_output_formats == Seq::<SpecifierOptView>::empty(),
            res@.autorotate == Seq::<SpecifierOptView>::empty(),
            res@.stream_maps == Seq::<StreamMap>::empty(),
            res@.audio_channel_maps == Seq::<AudioChannelMap>::empty(),
            res@.metadata_global_manual == 0,
            res@.metadata_streams_manual == 0,
            res@.metadata_chapters_manual == 0,
            res@.attachments == Seq::<Seq<char>>::empty(),
            res@.chapters_input_file == isize::MAX as int,
            res@.recording_time == i64::MAX as int,
            res@.stop_time == i64::MAX as int,
            res@.limit_filesize == u64::MAX as int,
            res@.mux_preload == Seq::<char>::empty(),
            res@.mux_max_delay == Seq::<char>::empty(),
            res@.shortest == 0,
            res@.bitexact == 0,
            res@.video_disable == 0,
            res@.audio_disable == 0,
            res@.subtitle_disable == 0,
            res@.data_disable == 0,
            res@.streamid_map == Seq::<int>::empty(),
            res@.metadata == Seq::<SpecifierOptView>::empty(),
            res@.max_frames == Seq::<SpecifierOptView>::empty(),
            res@.bitstream_filters == Seq::<SpecifierOptView>::empty(),
            res@.codec_tags == Seq::<SpecifierOptView>::empty(),
            res@.sample_fmts == Seq::<SpecifierOptView>::empty(),
            res@.qscale == Seq::<SpecifierOptView>::empty(),
            res@.forced_key_frames == Seq::<SpecifierOptView>::empty(),
            res@.force_fps == Seq::<SpecifierOptView>::empty(),
            res@.frame_aspect_ratios == Seq::<SpecifierOptView>::empty(),
            res@.rc_overrides == Seq::<SpecifierOptView>::empty(),
            res@.intra_matrices == Seq::<SpecifierOptView>::empty(),
            res@.inter_matrices == Seq::<SpecifierOptView>::empty(),
            res@.chroma_intra_matrices == Seq::<SpecifierOptView>::empty(),
            res@.top_field_first == Seq::<SpecifierOptView>::empty(),
            res@.metadata_map == Seq::<SpecifierOptView>::empty(),
            res@.presets == Seq::<SpecifierOptView>::empty(),
            res@.copy_initial_nonkeyframes == Seq::<SpecifierOptView>::empty(),
            res@.copy_prior_start == Seq::<SpecifierOptView>::empty(),
            res@.filters == Seq::<SpecifierOptView>::empty(),
            res@.filter_scripts == Seq::<SpecifierOptView>::empty(),
            res@.reinit_filters == Seq::<SpecifierOptView>::empty(),
            res@.fix_sub_duration == Seq::<SpecifierOptView>::empty(),
            res@.canvas_sizes == Seq::<SpecifierOptView>::empty(),
            res@.pass == Seq::<SpecifierOptView>::empty(),
            res@.passlogfiles == Seq::<SpecifierOptView>::empty(),
            res@.max_muxing_queue_size == Seq::<SpecifierOptView>::empty(),
            res@.guess_layout_max == Seq::<SpecifierOptView>::empty(),
            res@.apad == Seq::<SpecifierOptView>::empty(),
            res@.discard == Seq::<SpecifierOptView>::empty(),
            res@.disposition == Seq::<SpecifierOptView>::empty(),
            res@.program == Seq::<SpecifierOptView>::empty(),
            res@.time_bases == Seq::<SpecifierOptView>::empty(),
            res@.enc_time_bases == Seq::<SpecifierOptView>::empty(),
    {
        let res = OptionsContext {
            g,
            start_time: AV_NOPTS_VALUE,
            start_time_eof: AV_NOPTS_VALUE,
            seek_timestamp: 0,
            format: String::new(),
            codec_names: Vec::new(),
            audio_channels: Vec::new(),
            audio_sample_rate: Vec::new(),
            frame_rates: Vec::new(),
            frame_sizes: Vec::new(),
            frame_pix_fmts: Vec::new(),
            input_ts_offset: 0,
            loops: 0,
            rate_emu: 0,
            accurate_seek: 1,
            thread_queue_size: 0,
            ts_scale: Vec::new(),
            dump_attachment: Vec::new(),
            hwaccels: Vec::new(),
            hwaccel_devices: Vec::new(),
            hwaccel_output_formats: Vec::new(),
            autorotate: Vec::new(),
            stream_maps: Vec::new(),
            audio_channel_maps: Vec::new(),
            metadata_global_manual: 0,
            metadata_streams_manual: 0,
            metadata_chapters_manual: 0,
            attachments: Vec::new(),
            chapters_input_file: isize::MAX,
            recording_time: i64::MAX,
            stop_time: i64::MAX,
            limit_filesize: u64::MAX,
            mux_preload: String::new(),
            mux_max_delay: String::new(),
            shortest: 0,
            bitexact: 0,
            video_disable: 0,
            audio_disable: 0,
            subtitle_disable: 0,
            data_disable: 0,
            streamid_map: Vec::new(),
            metadata: Vec::new(),
            max_frames: Vec::new(),
            bitstream_filters: Vec::new(),
            codec_tags: Vec::new(),
            sample_fmts: Vec::new(),
            qscale: Vec::new(),
            forced_key_frames: Vec::new(),
            force_fps: Vec::new(),
            frame_aspect_ratios: Vec::new(),
            rc_overrides: Vec::new(),
            intra_matrices: Vec::new(),
            inter_matrices: Vec::new(),
            chroma_intra_matrices: Vec::new(),
            top_field_first: Vec::new(),
            metadata_map: Vec::new(),
            presets: Vec::new(),
            copy_initial_nonkeyframes: Vec::new(),
            copy_prior_start: Vec::new(),
            filters: Vec::new(),
            filter_scripts: Vec::new(),
            reinit_filters: Vec::new(),
            fix_sub_duration: Vec::new(),
            canvas_sizes: Vec::new(),
            pass: Vec::new(),
            passlogfiles: Vec::new(),
            max_muxing_queue_size: Vec::new(),
            guess_layout_max: Vec::new(),
            apad: Vec::new(),
            discard: Vec::new(),
            disposition: Vec::new(),
            program: Vec::new(),
            time_bases: Vec::new(),
            enc_time_bases: Vec::new(),
        };
        proof {
            assert(res@.codec_names =~= Seq::<SpecifierOptView>::empty());
            assert(res@.audio_channels =~= Seq::<SpecifierOptView>::empty());
            assert(res@.audio_sample_rate =~= Seq::<SpecifierOptView>::empty());
            assert(res@.frame_rates =~= Seq::<SpecifierOptView>::empty());
            assert(res@.frame_sizes =~= Seq::<SpecifierOptView>::empty());
            assert(res@.frame_pix_fmts =~= Seq::<SpecifierOptView>::empty());
            assert(res@.ts_scale =~= Seq::<SpecifierOptView>::empty());
            assert(res@.dump_attachment =~= Seq::<SpecifierOptView>::empty());
            assert(res@.hwaccels =~= Seq::<SpecifierOptView>::empty());
            assert(res@.hwaccel_devices =~= Seq::<SpecifierOptView>::empty());
            assert(res@.hwaccel_output_formats =~= Seq::<SpecifierOptView>::empty());
            assert(res@.autorotate =~= Seq::<SpecifierOptView>::empty());
            assert(res@.stream_maps =~= Seq::<StreamMap>::empty());
            assert(res@.audio_channel_maps =~= Seq::<AudioChannelMap>::empty());
            assert(res@.attachments =~= Seq::<Seq<char>>::empty());
            assert(res@.streamid_map =~= Seq::<int>::empty());
            assert(res@.metadata =~= Seq::<SpecifierOptView>::empty());
            assert(res@.max_frames =~= Seq::<SpecifierOptView>::empty());
            assert(res@.bitstream_filters =~= Seq::<SpecifierOptView>::empty());
            assert(res@.codec_tags =~= Seq::<SpecifierOptView>::empty());
            assert(res@.sample_fmts =~= Seq::<SpecifierOptView>::empty());
            assert(res@.qscale =~= Seq::<SpecifierOptView>::empty());
            assert(res@.forced_key_frames =~= Seq::<SpecifierOptView>::empty());
            assert(res@.force_fps =~= Seq::<SpecifierOptView>::empty());
            assert(res@.frame_aspect_ratios =~= Seq::<SpecifierOptView>::empty());
            assert(res@.rc_overrides =~= Seq::<SpecifierOptView>::empty());
            assert(res@.intra_matrices =~= Seq::<SpecifierOptView>::empty());
            assert(res@.inter_matrices =~= Seq::<SpecifierOptView>::empty());
            assert(res@.chroma_intra_matrices =~= Seq::<SpecifierOptView>::empty());
            assert(res@.top_field_first =~= Seq::<SpecifierOptView>::empty());
            assert(res@.metadata_map =~= Seq::<SpecifierOptView>::empty());
            assert(res@.presets =~= Seq::<SpecifierOptView>::empty());
            assert(res@.copy_initial_nonkeyframes =~= Seq::<SpecifierOptView>::empty());
            assert(res@.copy_prior_start =~= Seq::<SpecifierOptView>::empty());
            assert(res@.filters =~= Seq::<SpecifierOptView>::empty());
            assert(res@.filter_scripts =~= Seq::<SpecifierOptView>::empty());
            assert(res@.reinit_filters =~= Seq::<SpecifierOptView>::empty());
            assert(res@.fix_sub_duration =~= Seq::<SpecifierOptView>::empty());
            assert(res@.canvas_sizes =~= Seq::<SpecifierOptView>::empty());
            assert(res@.pass =~= Seq::<SpecifierOptView>::empty());
            assert(res@.passlogfiles =~= Seq::<SpecifierOptView>::empty());
            assert(res@.max_muxing_queue_size =~= Seq::<SpecifierOptView>::empty());
            assert(res@.guess_layout_max =~= Seq::<SpecifierOptView>::empty());
            assert(res@.apad =~= Seq::<SpecifierOptView>::empty());
            assert(res@.discard =~= Seq::<SpecifierOptView>::empty());
            assert(res@.disposition =~= Seq::<SpecifierOptView>::empty());
            assert(res@.program =~= Seq::<SpecifierOptView>::empty());
            assert(res@.time_bases =~= Seq::<SpecifierOptView>::empty());
            assert(res@.enc_time_bases =~= Seq::<SpecifierOptView>::empty());
        }
        res
    }
}

/// The store of fixed process-lifetime destinations.  The surrounding tool
/// allocates one slot per fixed-destination option; the option's definition
/// carries the slot index.
#[derive(Debug)]
pub struct GlobalStore {
    pub slots: Vec<SpecifierOptValue>,
}

impl View for GlobalStore {
    type V = Seq<SpecifierOptValueView>;

    open spec fn view(&self) -> Seq<SpecifierOptValueView> {
        self.slots@.map_values(|v: SpecifierOptValue| v@)
    }
}

} // verus!
