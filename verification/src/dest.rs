//! Typed destination writes.
//!
//! Applying an option writes a parsed value into one of three kinds of
//! destination: a scalar field of the per-file context, a freshly
//! appended entry of one of its specifier lists, or a fixed slot of the
//! global store.  The spec functions here say field by field what each
//! write changes, and the exec functions carry matching contracts.

use vstd::prelude::*;

use crate::types::{
    GlobalStore,
    OptionsContext,
    OptionsContextView,
    ScalarField,
    SpecListField,
    SpecifierOpt,
    SpecifierOptValue,
    SpecifierOptValueView,
    SpecifierOptView,
    spec_opts_view,
};

verus! {

/// The specifier list of `v` selected by `f`.
pub open spec fn ctx_spec_list(v: OptionsContextView, f: SpecListField) -> Seq<SpecifierOptView> {
    match f {
        SpecListField::CodecNames => v.codec_names,
        SpecListField::AudioChannels => v.audio_channels,
        SpecListField::AudioSampleRate => v.audio_sample_rate,
        SpecListField::FrameRates => v.frame_rates,
        SpecListField::FrameSizes => v.frame_sizes,
        SpecListField::FramePixFmts => v.frame_pix_fmts,
        SpecListField::TsScale => v.ts_scale,
        SpecListField::DumpAttachment => v.dump_attachment,
        SpecListField::Hwaccels => v.hwaccels,
        SpecListField::HwaccelDevices => v.hwaccel_devices,
        SpecListField::HwaccelOutputFormats => v.hwaccel_output_formats,
        SpecListField::Autorotate => v.autorotate,
        SpecListField::Metadata => v.metadata,
        SpecListField::MaxFrames => v.max_frames,
        SpecListField::BitstreamFilters => v.bitstream_filters,
        SpecListField::CodecTags => v.codec_tags,
        SpecListField::SampleFmts => v.sample_fmts,
        SpecListField::Qscale => v.qscale,
        SpecListField::ForcedKeyFrames => v.forced_key_frames,
        SpecListField::ForceFps => v.force_fps,
        SpecListField::FrameAspectRatios => v.frame_aspect_ratios,
        SpecListField::RcOverrides => v.rc_overrides,
        SpecListField::IntraMatrices => v.intra_matrices,
        SpecListField::InterMatrices => v.inter_matrices,
        SpecListField::ChromaIntraMatrices => v.chroma_intra_matrices,
        SpecListField::TopFieldFirst => v.top_field_first,
        SpecListField::MetadataMap => v.metadata_map,
        SpecListField::Presets => v.presets,
        SpecListField::CopyInitialNonkeyframes => v.copy_initial_nonkeyframes,
        SpecListField::CopyPriorStart => v.copy_prior_start,
        SpecListField::Filters => v.filters,
        SpecListField::FilterScripts => v.filter_scripts,
        SpecListField::ReinitFilters => v.reinit_filters,
        SpecListField::FixSubDuration => v.fix_sub_duration,
        SpecListField::CanvasSizes => v.canvas_sizes,
        SpecListField::Pass => v.pass,
        SpecListField::Passlogfiles => v.passlogfiles,
        SpecListField::MaxMuxingQueueSize => v.max_muxing_queue_size,
        SpecListField::GuessLayoutMax => v.guess_layout_max,
        SpecListField::Apad => v.apad,
        SpecListField::Discard => v.discard,
        SpecListField::Disposition => v.disposition,
        SpecListField::Program => v.program,
        SpecListField::TimeBases => v.time_bases,
        SpecListField::EncTimeBases => v.enc_time_bases,
    }
}

/// `v` with the specifier list selected by `f` replaced by `l`.
pub open spec fn ctx_with_spec_list(
    v: OptionsContextView,
    f: SpecListField,
    l: Seq<SpecifierOptView>,
) -> OptionsContextView {
    match f {
        SpecListField::CodecNames => OptionsContextView { codec_names: l, ..v },
        SpecListField::AudioChannels => OptionsContextView { audio_channels: l, ..v },
        SpecListField::AudioSampleRate => OptionsContextView { audio_sample_rate: l, ..v },
        SpecListField::FrameRates => OptionsContextView { frame_rates: l, ..v },
        SpecListField::FrameSizes => OptionsContextView { frame_sizes: l, ..v },
        SpecListField::FramePixFmts => OptionsContextView { frame_pix_fmts: l, ..v },
        SpecListField::TsScale => OptionsContextView { ts_scale: l, ..v },
        SpecListField::DumpAttachment => OptionsContextView { dump_attachment: l, ..v },
        SpecListField::Hwaccels => OptionsContextView { hwaccels: l, ..v },
        SpecListField::HwaccelDevices => OptionsContextView { hwaccel_devices: l, ..v },
        SpecListField::HwaccelOutputFormats => OptionsContextView { hwaccel_output_formats: l, ..v },
        SpecListField::Autorotate => OptionsContextView { autorotate: l, ..v },
        SpecListField::Metadata => OptionsContextView { metadata: l, ..v },
        SpecListField::MaxFrames => OptionsContextView { max_frames: l, ..v },
        SpecListField::BitstreamFilters => OptionsContextView { bitstream_filters: l, ..v },
        SpecListField::CodecTags => OptionsContextView { codec_tags: l, ..v },
        SpecListField::SampleFmts => OptionsContextView { sample_fmts: l, ..v },
        SpecListField::Qscale => OptionsContextView { qscale: l, ..v },
        SpecListField::ForcedKeyFrames => OptionsContextView { forced_key_frames: l, ..v },
        SpecListField::ForceFps => OptionsContextView { force_fps: l, ..v },
        SpecListField::FrameAspectRatios => OptionsContextView { frame_aspect_ratios: l, ..v },
        SpecListField::RcOverrides => OptionsContextView { rc_overrides: l, ..v },
        SpecListField::IntraMatrices => OptionsContextView { intra_matrices: l, ..v },
        SpecListField::InterMatrices => OptionsContextView { inter_matrices: l, ..v },
        SpecListField::ChromaIntraMatrices => OptionsContextView { chroma_intra_matrices: l, ..v },
        SpecListField::TopFieldFirst => OptionsContextView { top_field_first: l, ..v },
        SpecListField::MetadataMap => OptionsContextView { metadata_map: l, ..v },
        SpecListField::Presets => OptionsContextView { presets: l, ..v },
        SpecListField::CopyInitialNonkeyframes => OptionsContextView { copy_initial_nonkeyframes: l, ..v },
        SpecListField::CopyPriorStart => OptionsContextView { copy_prior_start: l, ..v },
        SpecListField::Filters => OptionsContextView { filters: l, ..v },
        SpecListField::FilterScripts => OptionsContextView { filter_scripts: l, ..v },
        SpecListField::ReinitFilters => OptionsContextView { reinit_filters: l, ..v },
        SpecListField::FixSubDuration => OptionsContextView { fix_sub_duration: l, ..v },
        SpecListField::CanvasSizes => OptionsContextView { canvas_sizes: l, ..v },
        SpecListField::Pass => OptionsContextView { pass: l, ..v },
        SpecListField::Passlogfiles => OptionsContextView { passlogfiles: l, ..v },
        SpecListField::MaxMuxingQueueSize => OptionsContextView { max_muxing_queue_size: l, ..v },
        SpecListField::GuessLayoutMax => OptionsContextView { guess_layout_max: l, ..v },
        SpecListField::Apad => OptionsContextView { apad: l, ..v },
        SpecListField::Discard => OptionsContextView { discard: l, ..v },
        SpecListField::Disposition => OptionsContextView { disposition: l, ..v },
        SpecListField::Program => OptionsContextView { program: l, ..v },
        SpecListField::TimeBases => OptionsContextView { time_bases: l, ..v },
        SpecListField::EncTimeBases => OptionsContextView { enc_time_bases: l, ..v },
    }
}

/// Whether the scalar field `f` stores values of the shape of `val`.
pub open spec fn scalar_pair_ok(f: ScalarField, val: SpecifierOptValueView) -> bool {
    match f {
        ScalarField::Format => val is Str,
        ScalarField::ChaptersInputFile => val is Int,
        ScalarField::RecordingTime => val is Int64,
        ScalarField::StopTime => val is Int64,
        ScalarField::LimitFilesize => val is Int64,
        ScalarField::StartTime => val is Int64,
        ScalarField::StartTimeEof => val is Int64,
        ScalarField::SeekTimestamp => val is Int,
        ScalarField::AccurateSeek => val is Int,
        ScalarField::InputTsOffset => val is Int64,
        ScalarField::RateEmu => val is Int,
        ScalarField::Shortest => val is Int,
        ScalarField::Bitexact => val is Int,
        ScalarField::Loops => val is Int,
        ScalarField::VideoDisable => val is Int,
        ScalarField::AudioDisable => val is Int,
        ScalarField::SubtitleDisable => val is Int,
        ScalarField::DataDisable => val is Int,
        ScalarField::ThreadQueueSize => val is Int,
        ScalarField::MuxMaxDelay => val is Flt,
        ScalarField::MuxPreload => val is Flt,
    }
}

/// `v` with the scalar field selected by `f` set to `val`.  A value whose
/// shape the field does not store leaves `v` unchanged; such writes are
/// ruled out by the well-formedness of option definitions.
pub open spec fn ctx_set_scalar(
    v: OptionsContextView,
    f: ScalarField,
    val: SpecifierOptValueView,
) -> OptionsContextView {
    match f {
        ScalarField::Format => match val {
            SpecifierOptValueView::Str(s) => OptionsContextView { format: s, ..v },
            _ => v,
        },
        ScalarField::ChaptersInputFile => match val {
            SpecifierOptValueView::Int(i) => OptionsContextView { chapters_input_file: i, ..v },
            _ => v,
        },
        ScalarField::RecordingTime => match val {
            SpecifierOptValueView::Int64(i) => OptionsContextView { recording_time: i, ..v },
            _ => v,
        },
        ScalarField::StopTime => match val {
            SpecifierOptValueView::Int64(i) => OptionsContextView { stop_time: i, ..v },
            _ => v,
        },
        ScalarField::LimitFilesize => match val {
            SpecifierOptValueView::Int64(i) => OptionsContextView {
                limit_filesize: if i >= 0 { i } else { i + 0x10000000000000000 },
                ..v
            },
            _ => v,
        },
        ScalarField::StartTime => match val {
            SpecifierOptValueView::Int64(i) => OptionsContextView { start_time: i, ..v },
            _ => v,
        },
        ScalarField::StartTimeEof => match val {
            SpecifierOptValueView::Int64(i) => OptionsContextView { start_time_eof: i, ..v },
            _ => v,
        },
        ScalarField::SeekTimestamp => match val {
            SpecifierOptValueView::Int(i) => OptionsContextView { seek_timestamp: i, ..v },
            _ => v,
        },
        ScalarField::AccurateSeek => match val {
            SpecifierOptValueView::Int(i) => OptionsContextView { accurate_seek: i, ..v },
            _ => v,
        },
        ScalarField::InputTsOffset => match val {
            SpecifierOptValueView::Int64(i) => OptionsContextView { input_ts_offset: i, ..v },
            _ => v,
        },
        ScalarField::RateEmu => match val {
            SpecifierOptValueView::Int(i) => OptionsContextView { rate_emu: i, ..v },
            _ => v,
        },
        ScalarField::Shortest => match val {
            SpecifierOptValueView::Int(i) => OptionsContextView { shortest: i, ..v },
            _ => v,
        },
        ScalarField::Bitexact => match val {
            SpecifierOptValueView::Int(i) => OptionsContextView { bitexact: i, ..v },
            _ => v,
        },
        ScalarField::Loops => match val {
            SpecifierOptValueView::Int(i) => OptionsContextView { loops: i, ..v },
            _ => v,
        },
        ScalarField::VideoDisable => match val {
            SpecifierOptValueView::Int(i) => OptionsContextView { video_disable: i, ..v },
            _ => v,
        },
        ScalarField::AudioDisable => match val {
            SpecifierOptValueView::Int(i) => OptionsContextView { audio_disable: i, ..v },
            _ => v,
        },
        ScalarField::SubtitleDisable => match val {
            SpecifierOptValueView::Int(i) => OptionsContextView { subtitle_disable: i, ..v },
            _ => v,
        },
        ScalarField::DataDisable => match val {
            SpecifierOptValueView::Int(i) => OptionsContextView { data_disable: i, ..v },
            _ => v,
        },
        ScalarField::ThreadQueueSize => match val {
            SpecifierOptValueView::Int(i) => OptionsContextView { thread_queue_size: i, ..v },
            _ => v,
        },
        ScalarField::MuxMaxDelay => match val {
            SpecifierOptValueView::Flt(s) => OptionsContextView { mux_max_delay: s, ..v },
            _ => v,
        },
        ScalarField::MuxPreload => match val {
            SpecifierOptValueView::Flt(s) => OptionsContextView { mux_preload: s, ..v },
            _ => v,
        },
    }
}

/// Append one specifier-qualified entry to a list.
fn push_entry(list: &mut Vec<SpecifierOpt>, sp: String, val: SpecifierOptValue)
    ensures
        spec_opts_view(*final(list)) == spec_opts_view(*old(list)).push(
            SpecifierOptView { specifier: sp@, u: val@ },
        ),
{
    let ghost target = spec_opts_view(*list).push(SpecifierOptView { specifier: sp@, u: val@ });
    list.push(SpecifierOpt { specifier: sp, u: val });
    proof {
        assert(spec_opts_view(*list) =~= target);
    }
}

/// Append the entry `{ specifier, value }` to the specifier list of `ctx`
/// selected by `f`.
pub fn write_spec_entry(ctx: &mut OptionsContext, f: SpecListField, sp: String, val: SpecifierOptValue)
    ensures
        final(ctx)@ == ctx_with_spec_list(
            old(ctx)@,
            f,
            ctx_spec_list(old(ctx)@, f).push(SpecifierOptView { specifier: sp@, u: val@ }),
        ),
{
    match f {
        SpecListField::CodecNames => {
            push_entry(&mut ctx.codec_names, sp, val);
            proof {
                assert(ctx@ =~= ctx_with_spec_list(
                    old(ctx)@,
                    f,
                    ctx_spec_list(old(ctx)@, f).push(SpecifierOptView { specifier: sp@, u: val@ }),
                ));
            }
        },
        SpecListField::AudioChannels => {
            push_entry(&mut ctx.audio_channels, sp, val);
            proof {
                assert(ctx@ =~= ctx_with_spec_list(
                    old(ctx)@,
                    f,
                    ctx_spec_list(old(ctx)@, f).push(SpecifierOptView { specifier: sp@, u: val@ }),
                ));
            }
        },
        SpecListField::AudioSampleRate => {
            push_entry(&mut ctx.audio_sample_rate, sp, val);
            proof {
                assert(ctx@ =~= ctx_with_spec_list(
                    old(ctx)@,
                    f,
                    ctx_spec_list(old(ctx)@, f).push(SpecifierOptView { specifier: sp@, u: val@ }),
                ));
            }
        },
        SpecListField::FrameRates => {
            push_entry(&mut ctx.frame_rates, sp, val);
            proof {
                assert(ctx@ =~= ctx_with_spec_list(
                    old(ctx)@,
                    f,
                    ctx_spec_list(old(ctx)@, f).push(SpecifierOptView { specifier: sp@, u: val@ }),
                ));
            }
        },
        SpecListField::FrameSizes => {
            push_entry(&mut ctx.frame_sizes, sp, val);
            proof {
                assert(ctx@ =~= ctx_with_spec_list(
                    old(ctx)@,
                    f,
                    ctx_spec_list(old(ctx)@, f).push(SpecifierOptView { specifier: sp@, u: val@ }),
                ));
            }
        },
        SpecListField::FramePixFmts => {
            push_entry(&mut ctx.frame_pix_fmts, sp, val);
            proof {
                assert(ctx@ =~= ctx_with_spec_list(
                    old(ctx)@,
                    f,
                    ctx_spec_list(old(ctx)@, f).push(SpecifierOptView { specifier: sp@, u: val@ }),
                ));
            }
        },
        SpecListField::TsScale => {
            push_entry(&mut ctx.ts_scale, sp, val);
            proof {
                assert(ctx@ =~= ctx_with_spec_list(
                    old(ctx)@,
                    f,
                    ctx_spec_list(old(ctx)@, f).push(SpecifierOptView { specifier: sp@, u: val@ }),
                ));
            }
        },
        SpecListField::DumpAttachment => {
            push_entry(&mut ctx.dump_attachment, sp, val);
            proof {
                assert(ctx@ =~= ctx_with_spec_list(
                    old(ctx)@,
                    f,
                    ctx_spec_list(old(ctx)@, f).push(SpecifierOptView { specifier: sp@, u: val@ }),
                ));
            }
        },
        SpecListField::Hwaccels => {
            push_entry(&mut ctx.hwaccels, sp, val);
            proof {
                assert(ctx@ =~= ctx_with_spec_list(
                    old(ctx)@,
                    f,
                    ctx_spec_list(old(ctx)@, f).push(SpecifierOptView { specifier: sp@, u: val@ }),
                ));
            }
        },
        SpecListField::HwaccelDevices => {
            push_entry(&mut ctx.hwaccel_devices, sp, val);
            proof {
                assert(ctx@ =~= ctx_with_spec_list(
                    old(ctx)@,
                    f,
                    ctx_spec_list(old(ctx)@, f).push(SpecifierOptView { specifier: sp@, u: val@ }),
                ));
            }
        },
        SpecListField::HwaccelOutputFormats => {
            push_entry(&mut ctx.hwaccel_output_formats, sp, val);
            proof {
                assert(ctx@ =~= ctx_with_spec_list(
                    old(ctx)@,
                    f,
                    ctx_spec_list(old(ctx)@, f).push(SpecifierOptView { specifier: sp@, u: val@ }),
                ));
            }
        },
        SpecListField::Autorotate => {
            push_entry(&mut ctx.autorotate, sp, val);
            proof {
                assert(ctx@ =~= ctx_with_spec_list(
                    old(ctx)@,
                    f,
                    ctx_spec_list(old(ctx)@, f).push(SpecifierOptView { specifier: sp@, u: val@ }),
                ));
            }
        },
        SpecListField::Metadata => {
            push_entry(&mut ctx.metadata, sp, val);
            proof {
                assert(ctx@ =~= ctx_with_spec_list(
                    old(ctx)@,
                    f,
                    ctx_spec_list(old(ctx)@, f).push(SpecifierOptView { specifier: sp@, u: val@ }),
                ));
            }
        },
        SpecListField::MaxFrames => {
            push_entry(&mut ctx.max_frames, sp, val);
            proof {
                assert(ctx@ =~= ctx_with_spec_list(
                    old(ctx)@,
                    f,
                    ctx_spec_list(old(ctx)@, f).push(SpecifierOptView { specifier: sp@, u: val@ }),
                ));
            }
        },
        SpecListField::BitstreamFilters => {
            push_entry(&mut ctx.bitstream_filters, sp, val);
            proof {
                assert(ctx@ =~= ctx_with_spec_list(
                    old(ctx)@,
                    f,
                    ctx_spec_list(old(ctx)@, f).push(SpecifierOptView { specifier: sp@, u: val@ }),
                ));
            }
        },
        SpecListField::CodecTags => {
            push_entry(&mut ctx.codec_tags, sp, val);
            proof {
                assert(ctx@ =~= ctx_with_spec_list(
                    old(ctx)@,
                    f,
                    ctx_spec_list(old(ctx)@, f).push(SpecifierOptView { specifier: sp@, u: val@ }),
                ));
            }
        },
        SpecListField::SampleFmts => {
            push_entry(&mut ctx.sample_fmts, sp, val);
            proof {
                assert(ctx@ =~= ctx_with_spec_list(
                    old(ctx)@,
                    f,
                    ctx_spec_list(old(ctx)@, f).push(SpecifierOptView { specifier: sp@, u: val@ }),
                ));
            }
        },
        SpecListField::Qscale => {
            push_entry(&mut ctx.qscale, sp, val);
            proof {
                assert(ctx@ =~= ctx_with_spec_list(
                    old(ctx)@,
                    f,
                    ctx_spec_list(old(ctx)@, f).push(SpecifierOptView { specifier: sp@, u: val@ }),
                ));
            }
        },
        SpecListField::ForcedKeyFrames => {
            push_entry(&mut ctx.forced_key_frames, sp, val);
            proof {
                assert(ctx@ =~= ctx_with_spec_list(
                    old(ctx)@,
                    f,
                    ctx_spec_list(old(ctx)@, f).push(SpecifierOptView { specifier: sp@, u: val@ }),
                ));
            }
        },
        SpecListField::ForceFps => {
            push_entry(&mut ctx.force_fps, sp, val);
            proof {
                assert(ctx@ =~= ctx_with_spec_list(
                    old(ctx)@,
                    f,
                    ctx_spec_list(old(ctx)@, f).push(SpecifierOptView { specifier: sp@, u: val@ }),
                ));
            }
        },
        SpecListField::FrameAspectRatios => {
            push_entry(&mut ctx.frame_aspect_ratios, sp, val);
            proof {
                assert(ctx@ =~= ctx_with_spec_list(
                    old(ctx)@,
                    f,
                    ctx_spec_list(old(ctx)@, f).push(SpecifierOptView { specifier: sp@, u: val@ }),
                ));
            }
        },
        SpecListField::RcOverrides => {
            push_entry(&mut ctx.rc_overrides, sp, val);
            proof {
                assert(ctx@ =~= ctx_with_spec_list(
                    old(ctx)@,
                    f,
                    ctx_spec_list(old(ctx)@, f).push(SpecifierOptView { specifier: sp@, u: val@ }),
                ));
            }
        },
        SpecListField::IntraMatrices => {
            push_entry(&mut ctx.intra_matrices, sp, val);
            proof {
                assert(ctx@ =~= ctx_with_spec_list(
                    old(ctx)@,
                    f,
                    ctx_spec_list(old(ctx)@, f).push(SpecifierOptView { specifier: sp@, u: val@ }),
                ));
            }
        },
        SpecListField::InterMatrices => {
            push_entry(&mut ctx.inter_matrices, sp, val);
            proof {
                assert(ctx@ =~= ctx_with_spec_list(
                    old(ctx)@,
                    f,
                    ctx_spec_list(old(ctx)@, f).push(SpecifierOptView { specifier: sp@, u: val@ }),
                ));
            }
        },
        SpecListField::ChromaIntraMatrices => {
            push_entry(&mut ctx.chroma_intra_matrices, sp, val);
            proof {
                assert(ctx@ =~= ctx_with_spec_list(
                    old(ctx)@,
                    f,
                    ctx_spec_list(old(ctx)@, f).push(SpecifierOptView { specifier: sp@, u: val@ }),
                ));
            }
        },
        SpecListField::TopFieldFirst => {
            push_entry(&mut ctx.top_field_first, sp, val);
            proof {
                assert(ctx@ =~= ctx_with_spec_list(
                    old(ctx)@,
                    f,
                    ctx_spec_list(old(ctx)@, f).push(SpecifierOptView { specifier: sp@, u: val@ }),
                ));
            }
        },
        SpecListField::MetadataMap => {
            push_entry(&mut ctx.metadata_map, sp, val);
            proof {
                assert(ctx@ =~= ctx_with_spec_list(
                    old(ctx)@,
                    f,
                    ctx_spec_list(old(ctx)@, f).push(SpecifierOptView { specifier: sp@, u: val@ }),
                ));
            }
        },
        SpecListField::Presets => {
            push_entry(&mut ctx.presets, sp, val);
            proof {
                assert(ctx@ =~= ctx_with_spec_list(
                    old(ctx)@,
                    f,
                    ctx_spec_list(old(ctx)@, f).push(SpecifierOptView { specifier: sp@, u: val@ }),
                ));
            }
        },
        SpecListField::CopyInitialNonkeyframes => {
            push_entry(&mut ctx.copy_initial_nonkeyframes, sp, val);
            proof {
                assert(ctx@ =~= ctx_with_spec_list(
                    old(ctx)@,
                    f,
                    ctx_spec_list(old(ctx)@, f).push(SpecifierOptView { specifier: sp@, u: val@ }),
                ));
            }
        },
        SpecListField::CopyPriorStart => {
            push_entry(&mut ctx.copy_prior_start, sp, val);
            proof {
                assert(ctx@ =~= ctx_with_spec_list(
                    old(ctx)@,
                    f,
                    ctx_spec_list(old(ctx)@, f).push(SpecifierOptView { specifier: sp@, u: val@ }),
                ));
            }
        },
        SpecListField::Filters => {
            push_entry(&mut ctx.filters, sp, val);
            proof {
                assert(ctx@ =~= ctx_with_spec_list(
                    old(ctx)@,
                    f,
                    ctx_spec_list(old(ctx)@, f).push(SpecifierOptView { specifier: sp@, u: val@ }),
                ));
            }
        },
        SpecListField::FilterScripts => {
            push_entry(&mut ctx.filter_scripts, sp, val);
            proof {
                assert(ctx@ =~= ctx_with_spec_list(
                    old(ctx)@,
                    f,
                    ctx_spec_list(old(ctx)@, f).push(SpecifierOptView { specifier: sp@, u: val@ }),
                ));
            }
        },
        SpecListField::ReinitFilters => {
            push_entry(&mut ctx.reinit_filters, sp, val);
            proof {
                assert(ctx@ =~= ctx_with_spec_list(
                    old(ctx)@,
                    f,
                    ctx_spec_list(old(ctx)@, f).push(SpecifierOptView { specifier: sp@, u: val@ }),
                ));
            }
        },
        SpecListField::FixSubDuration => {
            push_entry(&mut ctx.fix_sub_duration, sp, val);
            proof {
                assert(ctx@ =~= ctx_with_spec_list(
                    old(ctx)@,
                    f,
                    ctx_spec_list(old(ctx)@, f).push(SpecifierOptView { specifier: sp@, u: val@ }),
                ));
            }
        },
        SpecListField::CanvasSizes => {
            push_entry(&mut ctx.canvas_sizes, sp, val);
            proof {
                assert(ctx@ =~= ctx_with_spec_list(
                    old(ctx)@,
                    f,
                    ctx_spec_list(old(ctx)@, f).push(SpecifierOptView { specifier: sp@, u: val@ }),
                ));
            }
        },
        SpecListField::Pass => {
            push_entry(&mut ctx.pass, sp, val);
            proof {
                assert(ctx@ =~= ctx_with_spec_list(
                    old(ctx)@,
                    f,
                    ctx_spec_list(old(ctx)@, f).push(SpecifierOptView { specifier: sp@, u: val@ }),
                ));
            }
        },
        SpecListField::Passlogfiles => {
            push_entry(&mut ctx.passlogfiles, sp, val);
            proof {
                assert(ctx@ =~= ctx_with_spec_list(
                    old(ctx)@,
                    f,
                    ctx_spec_list(old(ctx)@, f).push(SpecifierOptView { specifier: sp@, u: val@ }),
                ));
            }
        },
        SpecListField::MaxMuxingQueueSize => {
            push_entry(&mut ctx.max_muxing_queue_size, sp, val);
            proof {
                assert(ctx@ =~= ctx_with_spec_list(
                    old(ctx)@,
                    f,
                    ctx_spec_list(old(ctx)@, f).push(SpecifierOptView { specifier: sp@, u: val@ }),
                ));
            }
        },
        SpecListField::GuessLayoutMax => {
            push_entry(&mut ctx.guess_layout_max, sp, val);
            proof {
                assert(ctx@ =~= ctx_with_spec_list(
                    old(ctx)@,
                    f,
                    ctx_spec_list(old(ctx)@, f).push(SpecifierOptView { specifier: sp@, u: val@ }),
                ));
            }
        },
        SpecListField::Apad => {
            push_entry(&mut ctx.apad, sp, val);
            proof {
                assert(ctx@ =~= ctx_with_spec_list(
                    old(ctx)@,
                    f,
                    ctx_spec_list(old(ctx)@, f).push(SpecifierOptView { specifier: sp@, u: val@ }),
                ));
            }
        },
        SpecListField::Discard => {
            push_entry(&mut ctx.discard, sp, val);
            proof {
                assert(ctx@ =~= ctx_with_spec_list(
                    old(ctx)@,
                    f,
                    ctx_spec_list(old(ctx)@, f).push(SpecifierOptView { specifier: sp@, u: val@ }),
                ));
            }
        },
        SpecListField::Disposition => {
            push_entry(&mut ctx.disposition, sp, val);
            proof {
                assert(ctx@ =~= ctx_with_spec_list(
                    old(ctx)@,
                    f,
                    ctx_spec_list(old(ctx)@, f).push(SpecifierOptView { specifier: sp@, u: val@ }),
                ));
            }
        },
        SpecListField::Program => {
            push_entry(&mut ctx.program, sp, val);
            proof {
                assert(ctx@ =~= ctx_with_spec_list(
                    old(ctx)@,
                    f,
                    ctx_spec_list(old(ctx)@, f).push(SpecifierOptView { specifier: sp@, u: val@ }),
                ));
            }
        },
        SpecListField::TimeBases => {
            push_entry(&mut ctx.time_bases, sp, val);
            proof {
                assert(ctx@ =~= ctx_with_spec_list(
                    old(ctx)@,
                    f,
                    ctx_spec_list(old(ctx)@, f).push(SpecifierOptView { specifier: sp@, u: val@ }),
                ));
            }
        },
        SpecListField::EncTimeBases => {
            push_entry(&mut ctx.enc_time_bases, sp, val);
            proof {
                assert(ctx@ =~= ctx_with_spec_list(
                    old(ctx)@,
                    f,
                    ctx_spec_list(old(ctx)@, f).push(SpecifierOptView { specifier: sp@, u: val@ }),
                ));
            }
        },
    }
}

/// Write `val` into the scalar field of `ctx` selected by `f`.
pub fn write_scalar(ctx: &mut OptionsContext, f: ScalarField, val: SpecifierOptValue)
    requires
        scalar_pair_ok(f, val@),
    ensures
        final(ctx)@ == ctx_set_scalar(old(ctx)@, f, val@),
{
    match (f, val) {
        (ScalarField::Format, SpecifierOptValue::Str(s)) => {
            ctx.format = s;
        },
        (ScalarField::ChaptersInputFile, SpecifierOptValue::Int(i)) => {
            ctx.chapters_input_file = i;
        },
        (ScalarField::RecordingTime, SpecifierOptValue::Int64(i)) => {
            ctx.recording_time = i;
        },
        (ScalarField::StopTime, SpecifierOptValue::Int64(i)) => {
            ctx.stop_time = i;
        },
        (ScalarField::LimitFilesize, SpecifierOptValue::Int64(i)) => {
            // the unsigned field takes the two's-complement reading
            if i >= 0 {
                ctx.limit_filesize = i as u64;
            } else {
                let m: u64 = if i == i64::MIN {
                    9223372036854775808u64
                } else {
                    (-i) as u64
                };
                ctx.limit_filesize = u64::MAX - (m - 1);
            }
        },
        (ScalarField::StartTime, SpecifierOptValue::Int64(i)) => {
            ctx.start_time = i;
        },
        (ScalarField::StartTimeEof, SpecifierOptValue::Int64(i)) => {
            ctx.start_time_eof = i;
        },
        (ScalarField::SeekTimestamp, SpecifierOptValue::Int(i)) => {
            ctx.seek_timestamp = i;
        },
        (ScalarField::AccurateSeek, SpecifierOptValue::Int(i)) => {
            ctx.accurate_seek = i;
        },
        (ScalarField::InputTsOffset, SpecifierOptValue::Int64(i)) => {
            ctx.input_ts_offset = i;
        },
        (ScalarField::RateEmu, SpecifierOptValue::Int(i)) => {
            ctx.rate_emu = i;
        },
        (ScalarField::Shortest, SpecifierOptValue::Int(i)) => {
            ctx.shortest = i;
        },
        (ScalarField::Bitexact, SpecifierOptValue::Int(i)) => {
            ctx.bitexact = i;
        },
        (ScalarField::Loops, SpecifierOptValue::Int(i)) => {
            ctx.loops = i;
        },
        (ScalarField::VideoDisable, SpecifierOptValue::Int(i)) => {
            ctx.video_disable = i;
        },
        (ScalarField::AudioDisable, SpecifierOptValue::Int(i)) => {
            ctx.audio_disable = i;
        },
        (ScalarField::SubtitleDisable, SpecifierOptValue::Int(i)) => {
            ctx.subtitle_disable = i;
        },
        (ScalarField::DataDisable, SpecifierOptValue::Int(i)) => {
            ctx.data_disable = i;
        },
        (ScalarField::ThreadQueueSize, SpecifierOptValue::Int(i)) => {
            ctx.thread_queue_size = i;
        },
        (ScalarField::MuxMaxDelay, SpecifierOptValue::Flt(s)) => {
            ctx.mux_max_delay = s;
        },
        (ScalarField::MuxPreload, SpecifierOptValue::Flt(s)) => {
            ctx.mux_preload = s;
        },
        _ => {
            proof {
                assert(false);
            }
        },
    }
    proof {
        assert(ctx@ =~= ctx_set_scalar(old(ctx)@, f, val@));
    }
}

/// Write `val` into slot `i` of the global store.
pub fn write_slot(globals: &mut GlobalStore, i: usize, val: SpecifierOptValue)
    requires
        i < old(globals)@.len(),
    ensures
        final(globals)@ == old(globals)@.update(i as int, val@),
{
    let ghost target = globals@.update(i as int, val@);
    globals.slots.set(i, val);
    proof {
        assert(globals@ =~= target);
    }
}

} // verus!
