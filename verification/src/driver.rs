//! The parse driver.
//!
//! The engine runs as one deterministic pass: tokenize the whole argument
//! vector, apply the global scope immediately, and hand the realized
//! per-file groups back for the caller to apply against fresh per-file
//! destinations in file order.  [`parse_commandline`] performs the first
//! two steps; the engine-wide laws discharge the global application's
//! preconditions, so a well-formed registry table is all it asks for.

use vstd::prelude::*;

use crate::apply::{
    apply_fold,
    parse_optgroup_global,
    ApplyError,
    ApplyOutcome,
    ApplyState,
    FoldOutcome,
    OptionHandler,
};
use crate::laws::{
    ctx_defs_wf,
    kvs_wf,
    lemma_global_excludes_spec_offset,
    scope_routed,
    table_wf,
};
use crate::registry::PassThrough;
use crate::split::{
    args_view,
    defs_view,
    gdefs_view,
    init_ctx_view,
    init_parse_context,
    split_commandline,
    tok_fold,
    TokErrModel,
    TokState,
    TokenizeError,
};
use crate::types::{GlobalStore, OptionDef, OptionGroupDef, OptionParseContext};

verus! {

/// Why a parse run failed.
#[derive(Debug)]
pub enum EngineError {
    /// The argument vector could not be tokenized.
    Tokenize(TokenizeError),
    /// The global scope could not be applied.
    Apply(ApplyError),
}

/// Tokenize the argument vector into a fresh parse context and apply the
/// global scope.
///
/// On success the returned context holds the realized per-file groups
/// (exactly the tokenization fold over the fresh context) with the
/// global options already applied to the global store, and the outcome
/// says whether an exits-after-handling option asked for termination.
/// Each error names the offending token or option; a tokenization error
/// leaves the global store untouched.
#[verifier::rlimit(30)]
pub fn parse_commandline<H: OptionHandler>(
    args: &Vec<String>,
    options: &Vec<OptionDef>,
    groups: &Vec<OptionGroupDef>,
    pt: &mut PassThrough,
    globals: &mut GlobalStore,
    handler: &mut H,
) -> (r: Result<(OptionParseContext, ApplyOutcome), EngineError>)
    requires
        groups@.len() >= 1,
        table_wf(defs_view(*options), old(globals)@.len() as int),
    ensures
        ({
            let a = args_view(*args);
            let ov = defs_view(*options);
            let gv = gdefs_view(*groups);
            let st0 = TokState {
                octx: init_ctx_view(gv),
                pt: old(pt)@,
                dashdash: Option::None,
            };
            let fold = tok_fold(st0, a, ov, gv, 1);
            let g = fold.st.octx.global_opts;
            let af = apply_fold(
                ApplyState { ctx: Option::None, slots: old(globals)@ },
                g.group_def.flags,
                g.opts,
                0,
            );
            &&& final(pt)@ == fold.st.pt
            &&& match r {
                Result::Ok((octx, o)) => {
                    &&& fold.err is None
                    &&& octx@ == fold.st.octx
                    &&& final(globals)@ == af.st.slots
                    &&& ((o == ApplyOutcome::Applied && af.outcome is Applied) || (o
                        == ApplyOutcome::ProgramExit && af.outcome is ProgramExit))
                },
                Result::Err(EngineError::Tokenize(e)) => {
                    &&& final(globals)@ == old(globals)@
                    &&& match e {
                        TokenizeError::MissingGroupArg { sep } => fold.err matches Option::Some(
                            TokErrModel::MissingGroupArg { idx },
                        ) && 0 <= idx < a.len() && sep@ == a[idx].subrange(
                            1,
                            a[idx].len() as int,
                        ),
                        TokenizeError::MissingOptArg { key } => fold.err matches Option::Some(
                            TokErrModel::MissingOptArg { idx },
                        ) && 0 <= idx < a.len() && key@ == a[idx].subrange(
                            1,
                            a[idx].len() as int,
                        ),
                        TokenizeError::UnknownOption { key } => fold.err matches Option::Some(
                            TokErrModel::UnknownOption { idx },
                        ) && 0 <= idx < a.len() && key@ == a[idx].subrange(
                            1,
                            a[idx].len() as int,
                        ),
                    }
                },
                Result::Err(EngineError::Apply(e)) => {
                    &&& fold.err is None
                    &&& match e {
                        ApplyError::ScopeMismatch { key, help, group_name, group_arg } => {
                            &&& final(globals)@ == af.st.slots
                            &&& af.outcome matches FoldOutcome::Scope { idx } && 0 <= idx
                                < g.opts.len() && key@ == g.opts[idx].key && help@
                                == g.opts[idx].opt.help && group_name@ == g.group_def.name
                                && group_arg@ == g.arg
                        },
                        ApplyError::BadValue { key, val, kind } => {
                            &&& final(globals)@ == af.st.slots
                            &&& af.outcome matches FoldOutcome::BadValue { idx, kind: k } && 0
                                <= idx < g.opts.len() && key@ == g.opts[idx].key && val@
                                == g.opts[idx].val && kind == k
                        },
                        ApplyError::Handler { key, val, status } => {
                            &&& status < 0
                            &&& exists|i: int|
                                0 <= i < g.opts.len() && (#[trigger] g.opts[i].opt.u)
                                    is FuncArg && key@ == g.opts[i].key && val@
                                    == g.opts[i].val && af == apply_fold(
                                    ApplyState { ctx: Option::None, slots: final(globals)@ },
                                    g.group_def.flags,
                                    g.opts,
                                    i,
                                )
                        },
                    }
                },
            }
        }),
{
    let mut octx = init_parse_context(groups);
    let ghost st0 = TokState { octx: octx@, pt: pt@, dashdash: Option::None };
    proof {
        // the fresh context has only empty groups, so the scope routing
        // and definition well-formedness invariants hold of it
        assert(scope_routed(st0));
        assert(ctx_defs_wf(st0.octx, old(globals)@.len() as int));
    }
    match split_commandline(&mut octx, args, options, groups, pt) {
        Result::Err(e) => {
            return Result::Err(EngineError::Tokenize(e));
        },
        Result::Ok(()) => {},
    }
    proof {
        // the laws carried by the tokenizer's contract give the global
        // group's entries: well-formed definitions, all global-scope
        let a = args_view(*args);
        let ov = defs_view(*options);
        let gv = gdefs_view(*groups);
        let fold = tok_fold(st0, a, ov, gv, 1);
        let nslots = old(globals)@.len() as int;
        assert(octx@ == fold.st.octx);
        assert(ctx_defs_wf(fold.st.octx, nslots));
        assert(crate::laws::scope_routed(fold.st));
        assert(kvs_wf(octx@.global_opts.opts, nslots));
        assert forall|i: int| 0 <= i < octx@.global_opts.opts.len() implies (
        #[trigger] octx@.global_opts.opts[i].opt.flags) & (crate::flags::OPT_SPEC
            | crate::flags::OPT_OFFSET) == 0 by {
            lemma_global_excludes_spec_offset(octx@.global_opts.opts[i].opt.flags);
        }
    }
    match parse_optgroup_global(globals, &octx.global_opts, handler) {
        Result::Ok(o) => Result::Ok((octx, o)),
        Result::Err(e) => Result::Err(EngineError::Apply(e)),
    }
}

} // verus!
