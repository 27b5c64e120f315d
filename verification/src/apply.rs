//! The option applier.
//!
//! Applying a realized group walks its key/value pairs in order.  Each
//! entry is first validated against the group's flag mask (an empty mask
//! places no restriction), its value is parsed according to the option's
//! declared kind, and the result is written into the option's destination:
//! a per-file context field, a global slot, or a handler call.  An
//! exits-after-handling option stops the walk with a terminal
//! [`ApplyOutcome::ProgramExit`]; any error aborts the walk and leaves the
//! remaining entries unapplied.

use vstd::prelude::*;

use crate::dest::{
    ctx_set_scalar,
    ctx_spec_list,
    ctx_with_spec_list,
    scalar_pair_ok,
    write_scalar,
    write_slot,
    write_spec_entry,
};
use crate::flags::{
    flag_intersects,
    OPT_BOOL,
    OPT_DOUBLE,
    OPT_EXIT,
    OPT_FLOAT,
    OPT_INT,
    OPT_INT64,
    OPT_OFFSET,
    OPT_SPEC,
    OPT_STRING,
    OPT_TIME,
};
use crate::numparse::{
    check_float_literal,
    is_numeral,
    num_sig_digits,
    parse_number,
    spec_parse_number,
    NumCheck,
    NumErrKind,
};
use crate::strutil::{spec_specifier, specifier_of};
use crate::timeparse::{parse_time, spec_duration_micros};
use crate::types::{
    GlobalStore,
    OptionDef,
    OptionDefView,
    OptionGroup,
    OptionKVView,
    OptionOperation,
    OptionsContext,
    OptionsContextView,
    ScalarField,
    SpecifierOptValue,
    SpecifierOptValueView,
    SpecifierOptView,
};

verus! {

/// Cap on significant integer digits of a single-precision-kind value.
pub const FLT_MAX_SIG_DIGITS: usize = 39;

/// Cap on significant integer digits of a double-precision-kind value.
pub const DBL_MAX_SIG_DIGITS: usize = 309;

/// The value kind declared by an option's flags, in dispatch order:
/// string, boolean or machine int, 64-bit int, time, single, double.
pub enum ValueKind {
    Str,
    Int,
    Int64,
    Time,
    Flt,
    Dbl,
}

/// The value kind selected by a flag set, `None` for a pure callback
/// option.
pub open spec fn value_kind(flags: u64) -> Option<ValueKind> {
    if flags & OPT_STRING != 0 {
        Option::Some(ValueKind::Str)
    } else if flags & (OPT_BOOL | OPT_INT) != 0 {
        Option::Some(ValueKind::Int)
    } else if flags & OPT_INT64 != 0 {
        Option::Some(ValueKind::Int64)
    } else if flags & OPT_TIME != 0 {
        Option::Some(ValueKind::Time)
    } else if flags & OPT_FLOAT != 0 {
        Option::Some(ValueKind::Flt)
    } else if flags & OPT_DOUBLE != 0 {
        Option::Some(ValueKind::Dbl)
    } else {
        Option::None
    }
}

/// Whether the scalar field `f` stores what value kind `k` produces.
pub open spec fn kind_fits_scalar(f: ScalarField, k: ValueKind) -> bool {
    match k {
        ValueKind::Str => scalar_pair_ok(f, SpecifierOptValueView::Str(Seq::empty())),
        ValueKind::Int => scalar_pair_ok(f, SpecifierOptValueView::Int(0)),
        ValueKind::Int64 => scalar_pair_ok(f, SpecifierOptValueView::Int64(0)),
        ValueKind::Time => scalar_pair_ok(f, SpecifierOptValueView::Int64(0)),
        ValueKind::Flt => scalar_pair_ok(f, SpecifierOptValueView::Flt(Seq::empty())),
        ValueKind::Dbl => scalar_pair_ok(f, SpecifierOptValueView::Dbl(Seq::empty())),
    }
}

/// Well-formedness of one option definition against a global store with
/// `nslots` slots: the destination operation agrees with the flag bits and
/// with the declared value kind.
pub open spec fn def_wf(d: OptionDefView, nslots: int) -> bool {
    match d.u {
        OptionOperation::DstSlot(i) => {
            &&& i < nslots
            &&& value_kind(d.flags) is Some
            &&& d.flags & (OPT_SPEC | OPT_OFFSET) == 0
        },
        OptionOperation::FuncArg(_) => {
            &&& value_kind(d.flags) is None
            &&& d.flags & (OPT_SPEC | OPT_OFFSET) == 0
        },
        OptionOperation::OffScalar(f) => {
            &&& d.flags & OPT_OFFSET != 0
            &&& d.flags & OPT_SPEC == 0
            &&& match value_kind(d.flags) {
                Option::Some(k) => kind_fits_scalar(f, k),
                Option::None => false,
            }
        },
        OptionOperation::OffSpec(_) => {
            &&& d.flags & OPT_SPEC != 0
            &&& value_kind(d.flags) is Some
        },
    }
}

/// Why an option value was rejected.
#[derive(Clone, Copy, PartialEq, Eq, Structural, Debug)]
pub enum ValueErrKind {
    /// The text is not a numeral.
    NotNumber,
    /// The value lies outside the kind's range.
    OutOfRange,
    /// The value does not round-trip exactly at the declared width.
    NotExact,
    /// The text is not a valid duration, or its microseconds overflow.
    BadDuration,
}

/// The value an option's declared kind reads from an argument: `Ok(None)`
/// for a callback option (which takes the raw text), `Ok(Some(v))` for a
/// parsed value, `Err` when the argument is rejected.
pub open spec fn spec_parse_value(flags: u64, arg: Seq<char>) -> Result<
    Option<SpecifierOptValueView>,
    ValueErrKind,
> {
    if flags & OPT_STRING != 0 {
        Result::Ok(Option::Some(SpecifierOptValueView::Str(arg)))
    } else if flags & (OPT_BOOL | OPT_INT) != 0 {
        match spec_parse_number(arg, isize::MIN as int, isize::MAX as int) {
            NumCheck::Val(v) => Result::Ok(Option::Some(SpecifierOptValueView::Int(v))),
            NumCheck::NotNumber => Result::Err(ValueErrKind::NotNumber),
            NumCheck::OutOfRange => Result::Err(ValueErrKind::OutOfRange),
            NumCheck::NotExact => Result::Err(ValueErrKind::NotExact),
        }
    } else if flags & OPT_INT64 != 0 {
        match spec_parse_number(arg, i64::MIN as int, i64::MAX as int) {
            NumCheck::Val(v) => Result::Ok(Option::Some(SpecifierOptValueView::Int64(v))),
            NumCheck::NotNumber => Result::Err(ValueErrKind::NotNumber),
            NumCheck::OutOfRange => Result::Err(ValueErrKind::OutOfRange),
            NumCheck::NotExact => Result::Err(ValueErrKind::NotExact),
        }
    } else if flags & OPT_TIME != 0 {
        match spec_duration_micros(arg) {
            Option::Some(v) => if v <= i64::MAX as int {
                Result::Ok(Option::Some(SpecifierOptValueView::Int64(v)))
            } else {
                Result::Err(ValueErrKind::BadDuration)
            },
            Option::None => Result::Err(ValueErrKind::BadDuration),
        }
    } else if flags & OPT_FLOAT != 0 {
        if !is_numeral(arg) {
            Result::Err(ValueErrKind::NotNumber)
        } else if num_sig_digits(arg) > FLT_MAX_SIG_DIGITS as int {
            Result::Err(ValueErrKind::OutOfRange)
        } else {
            Result::Ok(Option::Some(SpecifierOptValueView::Flt(arg)))
        }
    } else if flags & OPT_DOUBLE != 0 {
        if !is_numeral(arg) {
            Result::Err(ValueErrKind::NotNumber)
        } else if num_sig_digits(arg) > DBL_MAX_SIG_DIGITS as int {
            Result::Err(ValueErrKind::OutOfRange)
        } else {
            Result::Ok(Option::Some(SpecifierOptValueView::Dbl(arg)))
        }
    } else {
        Result::Ok(Option::None)
    }
}

/// Parse an option argument according to the option's declared value kind.
fn parse_value(flags: u64, opt: &str, arg: &str) -> (r: Result<
    Option<SpecifierOptValue>,
    ValueErrKind,
>)
    ensures
        match r {
            Result::Ok(Option::Some(v)) => spec_parse_value(flags, arg@) == Result::<
                Option<SpecifierOptValueView>,
                ValueErrKind,
            >::Ok(Option::Some(v@)),
            Result::Ok(Option::None) => spec_parse_value(flags, arg@) == Result::<
                Option<SpecifierOptValueView>,
                ValueErrKind,
            >::Ok(Option::None),
            Result::Err(k) => spec_parse_value(flags, arg@) == Result::<
                Option<SpecifierOptValueView>,
                ValueErrKind,
            >::Err(k),
        },
{
    if flag_intersects(flags, OPT_STRING) {
        Result::Ok(Option::Some(SpecifierOptValue::Str(String::from_str(arg))))
    } else if flag_intersects(flags, OPT_BOOL | OPT_INT) {
        match parse_number(opt, arg, OPT_INT, isize::MIN as i64, isize::MAX as i64) {
            Result::Ok(v) => Result::Ok(Option::Some(SpecifierOptValue::Int(v as isize))),
            Result::Err(e) => Result::Err(num_err_kind(e.kind)),
        }
    } else if flag_intersects(flags, OPT_INT64) {
        match parse_number(opt, arg, OPT_INT64, i64::MIN, i64::MAX) {
            Result::Ok(v) => Result::Ok(Option::Some(SpecifierOptValue::Int64(v))),
            Result::Err(e) => Result::Err(num_err_kind(e.kind)),
        }
    } else if flag_intersects(flags, OPT_TIME) {
        match parse_time(opt, arg) {
            Result::Ok(us) => Result::Ok(Option::Some(SpecifierOptValue::Int64(us))),
            Result::Err(_) => Result::Err(ValueErrKind::BadDuration),
        }
    } else if flag_intersects(flags, OPT_FLOAT) {
        match check_float_literal(opt, arg, FLT_MAX_SIG_DIGITS) {
            Result::Ok(()) => Result::Ok(Option::Some(SpecifierOptValue::Flt(String::from_str(arg)))),
            Result::Err(e) => Result::Err(num_err_kind(e.kind)),
        }
    } else if flag_intersects(flags, OPT_DOUBLE) {
        match check_float_literal(opt, arg, DBL_MAX_SIG_DIGITS) {
            Result::Ok(()) => Result::Ok(Option::Some(SpecifierOptValue::Dbl(String::from_str(arg)))),
            Result::Err(e) => Result::Err(num_err_kind(e.kind)),
        }
    } else {
        Result::Ok(Option::None)
    }
}

/// Translate a numeral rejection into a value rejection.
fn num_err_kind(k: NumErrKind) -> (r: ValueErrKind)
    ensures
        r == (match k {
            NumErrKind::NotNumber => ValueErrKind::NotNumber,
            NumErrKind::OutOfRange => ValueErrKind::OutOfRange,
            NumErrKind::NotExact => ValueErrKind::NotExact,
        }),
{
    match k {
        NumErrKind::NotNumber => ValueErrKind::NotNumber,
        NumErrKind::OutOfRange => ValueErrKind::OutOfRange,
        NumErrKind::NotExact => ValueErrKind::NotExact,
    }
}

/// Handler callbacks supplied by the surrounding tool.  The applier
/// invokes [`OptionHandler::on_option`] for each callback-backed option,
/// with the identifier from the option's definition and the occurrence's
/// key and value text; a negative result reports failure.
pub trait OptionHandler {
    fn on_option(&mut self, id: usize, key: &str, val: &str) -> i64;
}

/// A handler that records every invocation and reports success.
pub struct RecordingHandler {
    pub calls: Vec<HandlerCall>,
}

/// One recorded handler invocation.
pub struct HandlerCall {
    pub id: usize,
    pub key: String,
    pub val: String,
}

impl OptionHandler for RecordingHandler {
    fn on_option(&mut self, id: usize, key: &str, val: &str) -> i64 {
        self.calls.push(
            HandlerCall { id, key: String::from_str(key), val: String::from_str(val) },
        );
        0
    }
}

/// Why applying a group failed.
#[derive(Debug)]
pub enum ApplyError {
    /// The option's flags do not intersect the group's non-empty mask: an
    /// input option in an output-file group or vice versa.
    ScopeMismatch { key: String, help: String, group_name: String, group_arg: String },
    /// The option's argument was rejected by its value kind.
    BadValue { key: String, val: String, kind: ValueErrKind },
    /// A handler reported a negative status.
    Handler { key: String, val: String, status: i64 },
}

/// How applying a group ended without error.
#[derive(Clone, Copy, PartialEq, Eq, Structural, Debug)]
pub enum ApplyOutcome {
    /// Every entry was applied.
    Applied,
    /// An exits-after-handling option was applied; the program should
    /// terminate.
    ProgramExit,
}

/// The destinations an application run writes: the per-file context (absent
/// for the global scope) and the global slots.
#[verifier::ext_equal]
pub struct ApplyState {
    pub ctx: Option<OptionsContextView>,
    pub slots: Seq<SpecifierOptValueView>,
}

/// The state change of writing value `v` for key `key` through operation
/// `op`.
pub open spec fn spec_write_dest(
    st: ApplyState,
    op: OptionOperation,
    key: Seq<char>,
    v: SpecifierOptValueView,
) -> ApplyState {
    match op {
        OptionOperation::DstSlot(i) => ApplyState { slots: st.slots.update(i as int, v), ..st },
        OptionOperation::FuncArg(_) => st,
        OptionOperation::OffScalar(f) => match st.ctx {
            Option::Some(c) => ApplyState { ctx: Option::Some(ctx_set_scalar(c, f, v)), ..st },
            Option::None => st,
        },
        OptionOperation::OffSpec(f) => match st.ctx {
            Option::Some(c) => ApplyState {
                ctx: Option::Some(
                    ctx_with_spec_list(
                        c,
                        f,
                        ctx_spec_list(c, f).push(
                            SpecifierOptView { specifier: spec_specifier(key), u: v },
                        ),
                    ),
                ),
                ..st
            },
            Option::None => st,
        },
    }
}

/// How the deterministic part of applying a group ends.
pub enum FoldOutcome {
    /// All entries applied.
    Applied,
    /// Entry `idx` is an exits-after-handling option; it was applied and
    /// the walk stopped.
    ProgramExit { idx: int },
    /// Entry `idx` fails the scope check.
    Scope { idx: int },
    /// Entry `idx`'s argument is rejected.
    BadValue { idx: int, kind: ValueErrKind },
}

/// State and outcome of applying a group's entries.
#[verifier::ext_equal]
pub struct ApplyFold {
    pub st: ApplyState,
    pub outcome: FoldOutcome,
}

/// Apply entries `i..` of `opts` to `st` under group mask `gflags`.
/// Handler calls do not change the state, so this fold is exact for every
/// run in which no handler fails.
pub open spec fn apply_fold(
    st: ApplyState,
    gflags: u64,
    opts: Seq<OptionKVView>,
    i: int,
) -> ApplyFold
    decreases opts.len() - i,
{
    if i < 0 || i >= opts.len() {
        ApplyFold { st, outcome: FoldOutcome::Applied }
    } else {
        let kv = opts[i];
        if gflags != 0 && gflags & kv.opt.flags == 0 {
            ApplyFold { st, outcome: FoldOutcome::Scope { idx: i } }
        } else {
            match spec_parse_value(kv.opt.flags, kv.val) {
                Result::Err(k) => ApplyFold {
                    st,
                    outcome: FoldOutcome::BadValue { idx: i, kind: k },
                },
                Result::Ok(ov) => {
                    let st2 = match ov {
                        Option::Some(v) => spec_write_dest(st, kv.opt.u, kv.key, v),
                        Option::None => st,
                    };
                    if kv.opt.flags & OPT_EXIT != 0 {
                        ApplyFold { st: st2, outcome: FoldOutcome::ProgramExit { idx: i } }
                    } else {
                        apply_fold(st2, gflags, opts, i + 1)
                    }
                },
            }
        }
    }
}

/// Write one option occurrence into the per-file context, the global
/// store, or a handler.
///
/// The state change is exactly [`spec_write_dest`] of the parsed value;
/// a rejected argument leaves both destinations unchanged.  For a
/// callback option the handler decides between success and
/// [`ApplyError::Handler`]; the destinations are unchanged either way.
pub fn write_option<H: OptionHandler>(
    optctx: &mut OptionsContext,
    globals: &mut GlobalStore,
    po: &OptionDef,
    opt: &str,
    arg: &str,
    handler: &mut H,
) -> (r: Result<ApplyOutcome, ApplyError>)
    requires
        def_wf(po@, old(globals)@.len() as int),
    ensures
        ({
            let st0 = ApplyState { ctx: Option::Some(old(optctx)@), slots: old(globals)@ };
            let stf = ApplyState { ctx: Option::Some(final(optctx)@), slots: final(globals)@ };
            match spec_parse_value(po@.flags, arg@) {
                Result::Err(k) => {
                    &&& stf == st0
                    &&& (r matches Result::Err(ApplyError::BadValue { key, val, kind }) && key@
                        == opt@ && val@ == arg@ && kind == k)
                },
                Result::Ok(ov) => {
                    &&& stf == (match ov {
                        Option::Some(v) => spec_write_dest(st0, po@.u, opt@, v),
                        Option::None => st0,
                    })
                    &&& (match ov {
                        Option::Some(_) => r == Result::<ApplyOutcome, ApplyError>::Ok(
                            if po@.flags & OPT_EXIT != 0 {
                                ApplyOutcome::ProgramExit
                            } else {
                                ApplyOutcome::Applied
                            },
                        ),
                        Option::None => r == Result::<ApplyOutcome, ApplyError>::Ok(
                            if po@.flags & OPT_EXIT != 0 {
                                ApplyOutcome::ProgramExit
                            } else {
                                ApplyOutcome::Applied
                            },
                        ) || (r matches Result::Err(ApplyError::Handler { key, val, status })
                            && key@ == opt@ && val@ == arg@ && status < 0),
                    })
                },
            }
        }),
{
    match parse_value(po.flags, opt, arg) {
        Result::Err(k) => Result::Err(
            ApplyError::BadValue {
                key: String::from_str(opt),
                val: String::from_str(arg),
                kind: k,
            },
        ),
        Result::Ok(Option::Some(v)) => {
            match po.u {
                OptionOperation::DstSlot(i) => {
                    write_slot(globals, i, v);
                },
                OptionOperation::OffScalar(f) => {
                    write_scalar(optctx, f, v);
                },
                OptionOperation::OffSpec(f) => {
                    let sp = specifier_of(opt);
                    write_spec_entry(optctx, f, String::from_str(sp), v);
                },
                OptionOperation::FuncArg(_) => {
                    proof {
                        assert(false);
                    }
                },
            }
            if flag_intersects(po.flags, OPT_EXIT) {
                Result::Ok(ApplyOutcome::ProgramExit)
            } else {
                Result::Ok(ApplyOutcome::Applied)
            }
        },
        Result::Ok(Option::None) => {
            let id: usize = match po.u {
                OptionOperation::FuncArg(h) => h,
                _ => {
                    proof {
                        assert(false);
                    }
                    0
                },
            };
            let ret = handler.on_option(id, opt, arg);
            if ret < 0 {
                Result::Err(
                    ApplyError::Handler {
                        key: String::from_str(opt),
                        val: String::from_str(arg),
                        status: ret,
                    },
                )
            } else if flag_intersects(po.flags, OPT_EXIT) {
                Result::Ok(ApplyOutcome::ProgramExit)
            } else {
                Result::Ok(ApplyOutcome::Applied)
            }
        },
    }
}

/// Apply a realized group against a fresh per-file destination.
///
/// The entries are walked in order; the first scope mismatch, rejected
/// value or failed handler aborts the walk with the offending entry's
/// data, leaving the earlier writes in place and the remaining entries
/// unapplied.  On success the destinations hold exactly the fold of the
/// group over the initial state.
#[verifier::loop_isolation(false)]
pub fn parse_optgroup<H: OptionHandler>(
    optctx: &mut OptionsContext,
    globals: &mut GlobalStore,
    g: &OptionGroup,
    handler: &mut H,
) -> (r: Result<ApplyOutcome, ApplyError>)
    requires
        forall|i: int|
            0 <= i < g@.opts.len() ==> def_wf(
                #[trigger] g@.opts[i].opt,
                old(globals)@.len() as int,
            ),
    ensures
        ({
            let st0 = ApplyState { ctx: Option::Some(old(optctx)@), slots: old(globals)@ };
            let stf = ApplyState { ctx: Option::Some(final(optctx)@), slots: final(globals)@ };
            let fold = apply_fold(st0, g@.group_def.flags, g@.opts, 0);
            match r {
                Result::Ok(o) => stf == fold.st && ((o == ApplyOutcome::Applied && fold.outcome
                    is Applied) || (o == ApplyOutcome::ProgramExit
                    && fold.outcome is ProgramExit)),
                Result::Err(e) => match e {
                    ApplyError::ScopeMismatch { key, help, group_name, group_arg } => {
                        &&& stf == fold.st
                        &&& fold.outcome matches FoldOutcome::Scope { idx } && 0 <= idx
                            < g@.opts.len() && key@ == g@.opts[idx].key && help@
                            == g@.opts[idx].opt.help && group_name@ == g@.group_def.name
                            && group_arg@ == g@.arg
                    },
                    ApplyError::BadValue { key, val, kind } => {
                        &&& stf == fold.st
                        &&& fold.outcome matches FoldOutcome::BadValue { idx, kind: k } && 0 <= idx
                            < g@.opts.len() && key@ == g@.opts[idx].key && val@
                            == g@.opts[idx].val && kind == k
                    },
                    ApplyError::Handler { key, val, status } => {
                        &&& status < 0
                        &&& exists|i: int|
                            0 <= i < g@.opts.len() && (#[trigger] g@.opts[i].opt.u) is FuncArg
                                && key@ == g@.opts[i].key && val@ == g@.opts[i].val && fold
                                == apply_fold(stf, g@.group_def.flags, g@.opts, i)
                    },
                },
            }
        }),
{
    let ghost st0 = ApplyState { ctx: Option::Some(optctx@), slots: globals@ };
    let ghost gf = g@.group_def.flags;
    let ghost fold = apply_fold(st0, gf, g@.opts, 0);
    let n = g.opts.len();
    let mut idx: usize = 0;
    while idx < n
        invariant
            idx <= n,
            n == g@.opts.len(),
            globals@.len() == old(globals)@.len(),
            forall|i: int|
                0 <= i < g@.opts.len() ==> def_wf(
                    #[trigger] g@.opts[i].opt,
                    old(globals)@.len() as int,
                ),
            gf == g@.group_def.flags,
            fold == apply_fold(st0, gf, g@.opts, 0),
            apply_fold(
                ApplyState { ctx: Option::Some(optctx@), slots: globals@ },
                gf,
                g@.opts,
                idx as int,
            ) == fold,
        decreases n - idx,
    {
        let kv = &g.opts[idx];
        proof {
            assert(g@.opts[idx as int] == g.opts@[idx as int]@);
        }
        if g.group_def.flags != 0 && !flag_intersects(g.group_def.flags, kv.opt.flags) {
            return Result::Err(
                ApplyError::ScopeMismatch {
                    key: kv.key.clone(),
                    help: kv.opt.help.clone(),
                    group_name: g.group_def.name.clone(),
                    group_arg: g.arg.clone(),
                },
            );
        }
        match write_option(optctx, globals, &kv.opt, kv.key.as_str(), kv.val.as_str(), handler) {
            Result::Ok(ApplyOutcome::Applied) => {
                proof {
                    assert(g@.opts[idx as int].opt.flags & OPT_EXIT == 0);
                }
            },
            Result::Ok(ApplyOutcome::ProgramExit) => {
                return Result::Ok(ApplyOutcome::ProgramExit);
            },
            Result::Err(e) => {
                proof {
                    let kvv = g@.opts[idx as int];
                    if spec_parse_value(kvv.opt.flags, kvv.val) matches Result::Ok(
                        Option::None,
                    ) {
                        assert(kvv.opt.u is FuncArg);
                    }
                }
                return Result::Err(e);
            },
        }
        idx = idx + 1;
    }
    Result::Ok(ApplyOutcome::Applied)
}

/// Write one global-scope option occurrence into the global store or a
/// handler.  Global application carries no per-file destination, so the
/// option must be neither specifier-qualified nor struct-offset targeted;
/// the tokenizer routes every such option away from the global group.
pub fn write_option_global<H: OptionHandler>(
    globals: &mut GlobalStore,
    po: &OptionDef,
    opt: &str,
    arg: &str,
    handler: &mut H,
) -> (r: Result<ApplyOutcome, ApplyError>)
    requires
        def_wf(po@, old(globals)@.len() as int),
        po@.flags & (OPT_SPEC | OPT_OFFSET) == 0,
    ensures
        ({
            let st0 = ApplyState { ctx: Option::None, slots: old(globals)@ };
            let stf = ApplyState { ctx: Option::None, slots: final(globals)@ };
            match spec_parse_value(po@.flags, arg@) {
                Result::Err(k) => {
                    &&& stf == st0
                    &&& (r matches Result::Err(ApplyError::BadValue { key, val, kind }) && key@
                        == opt@ && val@ == arg@ && kind == k)
                },
                Result::Ok(ov) => {
                    &&& stf == (match ov {
                        Option::Some(v) => spec_write_dest(st0, po@.u, opt@, v),
                        Option::None => st0,
                    })
                    &&& (match ov {
                        Option::Some(_) => r == Result::<ApplyOutcome, ApplyError>::Ok(
                            if po@.flags & OPT_EXIT != 0 {
                                ApplyOutcome::ProgramExit
                            } else {
                                ApplyOutcome::Applied
                            },
                        ),
                        Option::None => r == Result::<ApplyOutcome, ApplyError>::Ok(
                            if po@.flags & OPT_EXIT != 0 {
                                ApplyOutcome::ProgramExit
                            } else {
                                ApplyOutcome::Applied
                            },
                        ) || (r matches Result::Err(ApplyError::Handler { key, val, status })
                            && key@ == opt@ && val@ == arg@ && status < 0),
                    })
                },
            }
        }),
{
    match parse_value(po.flags, opt, arg) {
        Result::Err(k) => Result::Err(
            ApplyError::BadValue {
                key: String::from_str(opt),
                val: String::from_str(arg),
                kind: k,
            },
        ),
        Result::Ok(Option::Some(v)) => {
            match po.u {
                OptionOperation::DstSlot(i) => {
                    write_slot(globals, i, v);
                },
                _ => {
                    proof {
                        let f = po@.flags;
                        assert(0x8000u64 | 0x4000u64 == 0xc000u64) by (bit_vector);
                        assert(f & 0x4000u64 == 0 && f & 0x8000u64 == 0) by (bit_vector)
                            requires
                                f & 0xc000u64 == 0,
                        ;
                        assert(false);
                    }
                },
            }
            if flag_intersects(po.flags, OPT_EXIT) {
                Result::Ok(ApplyOutcome::ProgramExit)
            } else {
                Result::Ok(ApplyOutcome::Applied)
            }
        },
        Result::Ok(Option::None) => {
            let id: usize = match po.u {
                OptionOperation::FuncArg(h) => h,
                _ => {
                    proof {
                        assert(false);
                    }
                    0
                },
            };
            let ret = handler.on_option(id, opt, arg);
            if ret < 0 {
                Result::Err(
                    ApplyError::Handler {
                        key: String::from_str(opt),
                        val: String::from_str(arg),
                        status: ret,
                    },
                )
            } else if flag_intersects(po.flags, OPT_EXIT) {
                Result::Ok(ApplyOutcome::ProgramExit)
            } else {
                Result::Ok(ApplyOutcome::Applied)
            }
        },
    }
}

/// Apply the global option group, which has no per-file destination.
///
/// Identical to [`parse_optgroup`] except that the fold runs with an
/// absent per-file context; the group may hold no specifier-qualified or
/// struct-offset option, which is exactly what the tokenizer guarantees
/// of the global group.
#[verifier::loop_isolation(false)]
pub fn parse_optgroup_global<H: OptionHandler>(
    globals: &mut GlobalStore,
    g: &OptionGroup,
    handler: &mut H,
) -> (r: Result<ApplyOutcome, ApplyError>)
    requires
        forall|i: int|
            0 <= i < g@.opts.len() ==> def_wf(
                #[trigger] g@.opts[i].opt,
                old(globals)@.len() as int,
            ),
        forall|i: int|
            0 <= i < g@.opts.len() ==> (#[trigger] g@.opts[i].opt.flags) & (OPT_SPEC | OPT_OFFSET)
                == 0,
    ensures
        ({
            let st0 = ApplyState { ctx: Option::None, slots: old(globals)@ };
            let stf = ApplyState { ctx: Option::None, slots: final(globals)@ };
            let fold = apply_fold(st0, g@.group_def.flags, g@.opts, 0);
            match r {
                Result::Ok(o) => stf == fold.st && ((o == ApplyOutcome::Applied && fold.outcome
                    is Applied) || (o == ApplyOutcome::ProgramExit
                    && fold.outcome is ProgramExit)),
                Result::Err(e) => match e {
                    ApplyError::ScopeMismatch { key, help, group_name, group_arg } => {
                        &&& stf == fold.st
                        &&& fold.outcome matches FoldOutcome::Scope { idx } && 0 <= idx
                            < g@.opts.len() && key@ == g@.opts[idx].key && help@
                            == g@.opts[idx].opt.help && group_name@ == g@.group_def.name
                            && group_arg@ == g@.arg
                    },
                    ApplyError::BadValue { key, val, kind } => {
                        &&& stf == fold.st
                        &&& fold.outcome matches FoldOutcome::BadValue { idx, kind: k } && 0 <= idx
                            < g@.opts.len() && key@ == g@.opts[idx].key && val@
                            == g@.opts[idx].val && kind == k
                    },
                    ApplyError::Handler { key, val, status } => {
                        &&& status < 0
                        &&& exists|i: int|
                            0 <= i < g@.opts.len() && (#[trigger] g@.opts[i].opt.u) is FuncArg
                                && key@ == g@.opts[i].key && val@ == g@.opts[i].val && fold
                                == apply_fold(stf, g@.group_def.flags, g@.opts, i)
                    },
                },
            }
        }),
{
    let ghost st0 = ApplyState { ctx: Option::None, slots: globals@ };
    let ghost gf = g@.group_def.flags;
    let ghost fold = apply_fold(st0, gf, g@.opts, 0);
    let n = g.opts.len();
    let mut idx: usize = 0;
    while idx < n
        invariant
            idx <= n,
            n == g@.opts.len(),
            globals@.len() == old(globals)@.len(),
            apply_fold(
                ApplyState { ctx: Option::None, slots: globals@ },
                gf,
                g@.opts,
                idx as int,
            ) == fold,
        decreases n - idx,
    {
        let kv = &g.opts[idx];
        proof {
            assert(g@.opts[idx as int] == g.opts@[idx as int]@);
        }
        if g.group_def.flags != 0 && !flag_intersects(g.group_def.flags, kv.opt.flags) {
            return Result::Err(
                ApplyError::ScopeMismatch {
                    key: kv.key.clone(),
                    help: kv.opt.help.clone(),
                    group_name: g.group_def.name.clone(),
                    group_arg: g.arg.clone(),
                },
            );
        }
        match write_option_global(globals, &kv.opt, kv.key.as_str(), kv.val.as_str(), handler) {
            Result::Ok(ApplyOutcome::Applied) => {
                proof {
                    assert(g@.opts[idx as int].opt.flags & OPT_EXIT == 0);
                }
            },
            Result::Ok(ApplyOutcome::ProgramExit) => {
                return Result::Ok(ApplyOutcome::ProgramExit);
            },
            Result::Err(e) => {
                proof {
                    let kvv = g@.opts[idx as int];
                    if spec_parse_value(kvv.opt.flags, kvv.val) matches Result::Ok(
                        Option::None,
                    ) {
                        assert(kvv.opt.u is FuncArg);
                    }
                }
                return Result::Err(e);
            },
        }
        idx = idx + 1;
    }
    Result::Ok(ApplyOutcome::Applied)
}

} // verus!
