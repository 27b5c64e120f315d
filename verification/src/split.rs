//! The tokenizer / group splitter.
//!
//! A single left-to-right scan of the argument vector (the program name
//! at index zero is skipped) turns options and positional arguments into
//! a parse context:
//!
//! - `--` marks exactly the next token as positional, whatever it looks
//!   like;
//! - a token that does not begin with '-', or is a single character, or
//!   was marked by `--`, is the positional argument of the unnamed group
//!   kind (index zero, conventionally the output file) and realizes the
//!   accumulator group;
//! - a token whose text after '-' matches a group separator consumes the
//!   next token as the group's argument and realizes the accumulator
//!   into that kind (no next token is an error);
//! - a token whose text after '-', up to a ':' suffix, names a registry
//!   option consumes an argument per its flags: the next token for an
//!   exits-after-handling option (empty if absent) or a has-argument
//!   option (absent is an error), the literal "1" for a plain boolean;
//!   the occurrence lands in the global group unless the option is
//!   per-file-only, specifier-qualified or struct-offset targeted;
//! - otherwise, if a next token exists and the pass-through registry
//!   recognizes the key, the pair is recorded there and both tokens are
//!   consumed;
//! - otherwise a key of the shape `no<name>` naming a boolean registry
//!   option is accepted as that option with value "0";
//! - anything else is an unrecognized option, which aborts the scan.

use vstd::prelude::*;

use crate::flags::{
    flag_intersects,
    flags_global,
    HAS_ARG,
    OPT_BOOL,
    OPT_EXIT,
    OPT_OFFSET,
    OPT_PERFILE,
    OPT_SPEC,
};
use crate::registry::{dict_upsert, opt_default, pt_record, pt_recognizes, PassThrough, PassThroughView};
use crate::strutil::{spec_stripped, str_eq, stripped_of, tail_of};
use crate::types::{
    OptionDef,
    OptionDefView,
    OptionGroup,
    OptionGroupDef,
    OptionGroupDefView,
    OptionGroupListView,
    OptionGroupView,
    OptionKV,
    OptionKVView,
    OptionParseContext,
    OptionParseContextView,
};

verus! {

/// Why tokenization failed.
#[derive(Debug)]
pub enum TokenizeError {
    /// A group separator stood last, with no token left for its argument.
    MissingGroupArg { sep: String },
    /// A has-argument option stood last, with no token left for its
    /// argument.
    MissingOptArg { key: String },
    /// The key names no registry option, no pass-through option and no
    /// negated boolean.
    UnknownOption { key: String },
}

/// View of an option registry table.
pub open spec fn defs_view(v: Vec<OptionDef>) -> Seq<OptionDefView> {
    v@.map_values(|d: OptionDef| d@)
}

/// View of a group definition table.
pub open spec fn gdefs_view(v: Vec<OptionGroupDef>) -> Seq<OptionGroupDefView> {
    v@.map_values(|d: OptionGroupDef| d@)
}

/// View of an argument vector.
pub open spec fn args_view(v: Vec<String>) -> Seq<Seq<char>> {
    v@.map_values(|s: String| s@)
}

/// The first registry option whose name is `stripped`.
pub open spec fn spec_find_option(opts: Seq<OptionDefView>, stripped: Seq<char>) -> Option<
    OptionDefView,
>
    decreases opts.len(),
{
    if opts.len() == 0 {
        Option::None
    } else if opts[0].name == stripped {
        Option::Some(opts[0])
    } else {
        spec_find_option(opts.subrange(1, opts.len() as int), stripped)
    }
}

proof fn lemma_find_option_at(opts: Seq<OptionDefView>, stripped: Seq<char>, i: int)
    requires
        0 <= i <= opts.len(),
        forall|j: int| 0 <= j < i ==> opts[j].name != stripped,
        i < opts.len() ==> opts[i].name == stripped,
    ensures
        i < opts.len() ==> spec_find_option(opts, stripped) == Option::Some(opts[i]),
        i == opts.len() ==> spec_find_option(opts, stripped) is None,
    decreases opts.len(),
{
    if opts.len() == 0 {
    } else if i == 0 {
    } else {
        let t = opts.subrange(1, opts.len() as int);
        assert(forall|j: int| 0 <= j < i - 1 ==> t[j] == opts[j + 1] && t[j].name != stripped);
        lemma_find_option_at(t, stripped, i - 1);
    }
}

/// The index of the first group definition whose separator is `opt`.
pub open spec fn spec_match_sep(gdefs: Seq<OptionGroupDefView>, opt: Seq<char>) -> Option<int>
    decreases gdefs.len(),
{
    if gdefs.len() == 0 {
        Option::None
    } else if gdefs[0].sep == Option::Some(opt) {
        Option::Some(0)
    } else {
        match spec_match_sep(gdefs.subrange(1, gdefs.len() as int), opt) {
            Option::Some(i) => Option::Some(i + 1),
            Option::None => Option::None,
        }
    }
}

proof fn lemma_match_sep_at(gdefs: Seq<OptionGroupDefView>, opt: Seq<char>, i: int)
    requires
        0 <= i <= gdefs.len(),
        forall|j: int| 0 <= j < i ==> (#[trigger] gdefs[j].sep) != Option::Some(opt),
        i < gdefs.len() ==> gdefs[i].sep == Option::Some(opt),
    ensures
        i < gdefs.len() ==> spec_match_sep(gdefs, opt) == Option::Some(i),
        i == gdefs.len() ==> spec_match_sep(gdefs, opt) is None,
    decreases gdefs.len(),
{
    if gdefs.len() == 0 {
    } else if i == 0 {
    } else {
        let t = gdefs.subrange(1, gdefs.len() as int);
        assert(forall|j: int| 0 <= j < i - 1 ==> t[j] == gdefs[j + 1] && (#[trigger] t[j].sep)
            != Option::Some(opt));
        lemma_match_sep_at(t, opt, i - 1);
    }
}

/// Look `name` (stripped of any ':' suffix) up in the option registry.
pub fn find_option<'a>(options: &'a Vec<OptionDef>, name: &str) -> (r: Option<&'a OptionDef>)
    ensures
        match r {
            Option::Some(d) => spec_find_option(defs_view(*options), spec_stripped(name@))
                == Option::Some(d@),
            Option::None => spec_find_option(defs_view(*options), spec_stripped(name@)) is None,
        },
{
    let stripped = stripped_of(name);
    let n = options.len();
    let mut i: usize = 0;
    while i < n
        invariant
            i <= n,
            n == options@.len(),
            stripped@ == spec_stripped(name@),
            forall|j: int| 0 <= j < i ==> defs_view(*options)[j].name != spec_stripped(name@),
        decreases n - i,
    {
        if str_eq(options[i].name.as_str(), stripped) {
            proof {
                assert(defs_view(*options)[i as int] == options@[i as int]@);
                lemma_find_option_at(defs_view(*options), spec_stripped(name@), i as int);
            }
            return Option::Some(&options[i]);
        }
        proof {
            assert(defs_view(*options)[i as int] == options@[i as int]@);
        }
        i = i + 1;
    }
    proof {
        lemma_find_option_at(defs_view(*options), spec_stripped(name@), n as int);
    }
    Option::None
}

/// Match `opt` against the group separators, returning the group kind's
/// index.
pub fn match_group_separator(groups: &Vec<OptionGroupDef>, opt: &str) -> (r: Option<usize>)
    ensures
        match r {
            Option::Some(i) => i < groups@.len() && spec_match_sep(gdefs_view(*groups), opt@)
                == Option::Some(i as int),
            Option::None => spec_match_sep(gdefs_view(*groups), opt@) is None,
        },
{
    let n = groups.len();
    let mut i: usize = 0;
    while i < n
        invariant
            i <= n,
            n == groups@.len(),
            forall|j: int|
                0 <= j < i ==> (#[trigger] gdefs_view(*groups)[j].sep) != Option::Some(opt@),
        decreases n - i,
    {
        let matched: bool = match &groups[i].sep {
            Option::Some(s) => str_eq(s.as_str(), opt),
            Option::None => false,
        };
        proof {
            assert(gdefs_view(*groups)[i as int] == groups@[i as int]@);
        }
        if matched {
            proof {
                lemma_match_sep_at(gdefs_view(*groups), opt@, i as int);
            }
            return Option::Some(i);
        }
        i = i + 1;
    }
    proof {
        lemma_match_sep_at(gdefs_view(*groups), opt@, n as int);
    }
    Option::None
}

/// The accumulator group a fresh scan state holds.
pub open spec fn anon_group_view() -> OptionGroupView {
    OptionGroupView {
        group_def: OptionGroupDefView {
            name: "never_used"@,
            sep: Option::None,
            flags: 0,
        },
        arg: Seq::empty(),
        opts: Seq::empty(),
    }
}

/// The parse context after realizing the accumulator into group kind
/// `gi` with positional argument `arg`: the accumulator's entries are
/// stamped with the kind's definition and `arg`, appended to the kind's
/// list, and a fresh accumulator takes their place.
pub open spec fn finish_model(c: OptionParseContextView, gi: int, arg: Seq<char>) -> OptionParseContextView {
    if 0 <= gi < c.groups.len() {
        let lst = c.groups[gi];
        let newg = OptionGroupView { group_def: lst.group_def, arg, opts: c.cur_group.opts };
        OptionParseContextView {
            groups: c.groups.update(
                gi,
                OptionGroupListView { group_def: lst.group_def, groups: lst.groups.push(newg) },
            ),
            cur_group: anon_group_view(),
            ..c
        }
    } else {
        c
    }
}

/// The pass-through registry after the default scaler entry is restored,
/// which realizing a group does.
pub open spec fn sws_stamp(pt: PassThroughView) -> PassThroughView {
    PassThroughView { sws_dict: dict_upsert(pt.sws_dict, "flags"@, "bicubic"@), ..pt }
}

/// The parse context after recording the occurrence `key = val` of
/// option `po`: it lands in the global group when the flags exclude the
/// per-file-only, specifier and struct-offset bits, in the accumulator
/// otherwise.
pub open spec fn add_model(
    c: OptionParseContextView,
    po: OptionDefView,
    key: Seq<char>,
    val: Seq<char>,
) -> OptionParseContextView {
    let kv = OptionKVView { opt: po, key, val };
    if flags_global(po.flags) {
        OptionParseContextView {
            global_opts: OptionGroupView {
                opts: c.global_opts.opts.push(kv),
                ..c.global_opts
            },
            ..c
        }
    } else {
        OptionParseContextView {
            cur_group: OptionGroupView { opts: c.cur_group.opts.push(kv), ..c.cur_group },
            ..c
        }
    }
}

/// Realize the accumulator group into group kind `group_idx` with
/// positional argument `arg`.
pub fn finish_group(
    octx: &mut OptionParseContext,
    pt: &mut PassThrough,
    group_idx: usize,
    arg: &str,
)
    requires
        group_idx < old(octx)@.groups.len(),
    ensures
        final(octx)@ == finish_model(old(octx)@, group_idx as int, arg@),
        final(pt)@ == sws_stamp(old(pt)@),
{
    let mut new_group = OptionGroup::new_anonymous();
    core::mem::swap(&mut octx.cur_group, &mut new_group);
    new_group.arg = String::from_str(arg);
    new_group.group_def = octx.groups[group_idx].group_def.clone();
    let ghost before = octx@;
    octx.groups[group_idx].groups.push(new_group);
    init_opts(pt);
    proof {
        let target = finish_model(old(octx)@, group_idx as int, arg@);
        let gi = group_idx as int;
        assert(octx@.groups[gi].groups =~~= target.groups[gi].groups);
        assert(octx@.groups[gi] =~~= target.groups[gi]);
        assert(forall|j: int|
            0 <= j < octx@.groups.len() && j != gi ==> octx@.groups[j] == target.groups[j]);
        assert(octx@.groups =~~= target.groups);
        assert(octx@.cur_group =~~= target.cur_group);
        assert(octx@ =~~= target);
    }
}

/// Restore the default scaler entry, as realizing a group does.
fn init_opts(pt: &mut PassThrough)
    ensures
        final(pt)@ == sws_stamp(old(pt)@),
{
    crate::registry::dict_set(&mut pt.sws_dict, "flags", "bicubic");
    proof {
        assert(final(pt)@ =~= sws_stamp(old(pt)@));
    }
}

/// Record the occurrence `key = val` of option `opt` into the group the
/// option's flags select.
pub fn add_opt(octx: &mut OptionParseContext, opt: &OptionDef, key: &str, val: &str)
    ensures
        final(octx)@ == add_model(old(octx)@, opt@, key@, val@),
{
    let global = !flag_intersects(opt.flags, OPT_PERFILE | OPT_SPEC | OPT_OFFSET);
    let kv = OptionKV {
        opt: opt.clone(),
        key: String::from_str(key),
        val: String::from_str(val),
    };
    if global {
        octx.global_opts.opts.push(kv);
    } else {
        octx.cur_group.opts.push(kv);
    }
    proof {
        let target = add_model(old(octx)@, opt@, key@, val@);
        assert(octx@.global_opts.opts =~= target.global_opts.opts);
        assert(octx@.cur_group.opts =~= target.cur_group.opts);
        assert(octx@ =~= target);
    }
}

/// The negated-boolean reading of `opt` (shaped `no<name>`): the boolean
/// registry option `<name>` names, if any.
pub open spec fn no_bool_opt(opts: Seq<OptionDefView>, opt: Seq<char>) -> Option<OptionDefView> {
    match spec_find_option(opts, spec_stripped(opt.subrange(2, opt.len() as int))) {
        Option::Some(po) => if po.flags & OPT_BOOL != 0 {
            Option::Some(po)
        } else {
            Option::None
        },
        Option::None => Option::None,
    }
}

/// The tokenizer's scan state: the parse context under construction, the
/// pass-through registry, and the single-shot `--` marker.
#[verifier::ext_equal]
pub struct TokState {
    pub octx: OptionParseContextView,
    pub pt: PassThroughView,
    pub dashdash: Option<int>,
}

/// Which token a failing scan stopped at, and why.
pub enum TokErrModel {
    MissingGroupArg { idx: int },
    MissingOptArg { idx: int },
    UnknownOption { idx: int },
}

/// Scan state and outcome of tokenization.
#[verifier::ext_equal]
pub struct TokFold {
    pub st: TokState,
    pub err: Option<TokErrModel>,
}

/// Tokenize `a` from index `i` in state `st` against the registries.
pub open spec fn tok_fold(
    st: TokState,
    a: Seq<Seq<char>>,
    opts: Seq<OptionDefView>,
    gdefs: Seq<OptionGroupDefView>,
    i: int,
) -> TokFold
    decreases a.len() - i,
{
    if i < 0 || i >= a.len() {
        TokFold { st, err: Option::None }
    } else {
        let tok = a[i];
        if tok == "--"@ {
            tok_fold(TokState { dashdash: Option::Some(i + 1), ..st }, a, opts, gdefs, i + 1)
        } else if tok.len() <= 1 || tok[0] != '-' || st.dashdash == Option::Some(i) {
            let st2 = TokState {
                octx: finish_model(st.octx, 0, tok),
                pt: sws_stamp(st.pt),
                dashdash: st.dashdash,
            };
            tok_fold(st2, a, opts, gdefs, i + 1)
        } else {
            let opt = tok.subrange(1, tok.len() as int);
            match spec_match_sep(gdefs, opt) {
                Option::Some(gi) => if i + 1 < a.len() {
                    let st2 = TokState {
                        octx: finish_model(st.octx, gi, a[i + 1]),
                        pt: sws_stamp(st.pt),
                        dashdash: st.dashdash,
                    };
                    tok_fold(st2, a, opts, gdefs, i + 2)
                } else {
                    TokFold { st, err: Option::Some(TokErrModel::MissingGroupArg { idx: i }) }
                },
                Option::None => match spec_find_option(opts, spec_stripped(opt)) {
                    Option::Some(po) => if po.flags & OPT_EXIT != 0 {
                        let arg = if i + 1 < a.len() {
                            a[i + 1]
                        } else {
                            Seq::empty()
                        };
                        let st2 = TokState { octx: add_model(st.octx, po, opt, arg), ..st };
                        let ni = if i + 2 <= a.len() {
                            i + 2
                        } else {
                            a.len() as int
                        };
                        tok_fold(st2, a, opts, gdefs, ni)
                    } else if po.flags & HAS_ARG != 0 {
                        if i + 1 < a.len() {
                            let st2 = TokState {
                                octx: add_model(st.octx, po, opt, a[i + 1]),
                                ..st
                            };
                            tok_fold(st2, a, opts, gdefs, i + 2)
                        } else {
                            TokFold {
                                st,
                                err: Option::Some(TokErrModel::MissingOptArg { idx: i }),
                            }
                        }
                    } else {
                        let st2 = TokState { octx: add_model(st.octx, po, opt, "1"@), ..st };
                        tok_fold(st2, a, opts, gdefs, i + 1)
                    },
                    Option::None => if pt_recognizes(st.pt, opt) && i + 1 < a.len() {
                        let st2 = TokState { pt: pt_record(st.pt, opt, a[i + 1]), ..st };
                        tok_fold(st2, a, opts, gdefs, i + 2)
                    } else if opt.len() >= 2 && opt[0] == 'n' && opt[1] == 'o' && no_bool_opt(
                        opts,
                        opt,
                    ) is Some {
                        let po = no_bool_opt(opts, opt)->0;
                        let st2 = TokState {
                            octx: add_model(
                                st.octx,
                                po,
                                opt.subrange(2, opt.len() as int),
                                "0"@,
                            ),
                            ..st
                        };
                        tok_fold(st2, a, opts, gdefs, i + 1)
                    } else {
                        TokFold { st, err: Option::Some(TokErrModel::UnknownOption { idx: i }) }
                    },
                },
            }
        }
    }
}

/// View of the single-shot `--` marker.
pub open spec fn dd_view(d: Option<usize>) -> Option<int> {
    match d {
        Option::Some(v) => Option::Some(v as int),
        Option::None => Option::None,
    }
}

/// Tokenize the argument vector into `octx`, skipping the program name
/// at index zero.
///
/// The resulting context and pass-through tables are exactly the fold of
/// the scan over the initial state; on error they hold what the scan
/// built before the offending token, whose text the error carries.
#[verifier::loop_isolation(false)]
pub fn split_commandline(
    octx: &mut OptionParseContext,
    args: &Vec<String>,
    options: &Vec<OptionDef>,
    groups: &Vec<OptionGroupDef>,
    pt: &mut PassThrough,
) -> (r: Result<(), TokenizeError>)
    requires
        old(octx)@.groups.len() >= 1,
        groups@.len() <= old(octx)@.groups.len(),
    ensures
        ({
            let a = args_view(*args);
            let st0 = TokState { octx: old(octx)@, pt: old(pt)@, dashdash: Option::None };
            let fold = tok_fold(st0, a, defs_view(*options), gdefs_view(*groups), 1);
            &&& final(octx)@ == fold.st.octx
            &&& final(pt)@ == fold.st.pt
            &&& crate::laws::scope_routed(st0) ==> crate::laws::scope_routed(fold.st)
            &&& forall|n_slots: int|
                crate::laws::table_wf(defs_view(*options), n_slots) && crate::laws::ctx_defs_wf(
                    old(octx)@,
                    n_slots,
                ) ==> #[trigger] crate::laws::ctx_defs_wf(fold.st.octx, n_slots)
            &&& match r {
                Result::Ok(()) => fold.err is None,
                Result::Err(e) => match e {
                    TokenizeError::MissingGroupArg { sep } => fold.err matches Option::Some(
                        TokErrModel::MissingGroupArg { idx },
                    ) && 0 <= idx < a.len() && sep@ == a[idx].subrange(1, a[idx].len() as int),
                    TokenizeError::MissingOptArg { key } => fold.err matches Option::Some(
                        TokErrModel::MissingOptArg { idx },
                    ) && 0 <= idx < a.len() && key@ == a[idx].subrange(1, a[idx].len() as int),
                    TokenizeError::UnknownOption { key } => fold.err matches Option::Some(
                        TokErrModel::UnknownOption { idx },
                    ) && 0 <= idx < a.len() && key@ == a[idx].subrange(1, a[idx].len() as int),
                },
            }
        }),
{
    let ghost a = args_view(*args);
    let ghost ov = defs_view(*options);
    let ghost gv = gdefs_view(*groups);
    let ghost st0 = TokState { octx: octx@, pt: pt@, dashdash: Option::None };
    let ghost fold = tok_fold(st0, a, ov, gv, 1);
    proof {
        if crate::laws::scope_routed(st0) {
            crate::laws::lemma_tokenize_scope_routing(st0, a, ov, gv, 1);
        }
        assert forall|n_slots: int|
            crate::laws::table_wf(ov, n_slots) && crate::laws::ctx_defs_wf(
                st0.octx,
                n_slots,
            ) implies #[trigger] crate::laws::ctx_defs_wf(
            tok_fold(st0, a, ov, gv, 1).st.octx,
            n_slots,
        ) by {
            crate::laws::lemma_tokenize_defs_wf(st0, a, ov, gv, 1, n_slots);
        }
    }
    let n = args.len();
    let mut i: usize = 1;
    let mut dd: Option<usize> = Option::None;
    while i < n
        invariant
            n == args@.len(),
            octx@.groups.len() == old(octx)@.groups.len(),
            tok_fold(
                TokState { octx: octx@, pt: pt@, dashdash: dd_view(dd) },
                a,
                ov,
                gv,
                i as int,
            ) == fold,
        decreases n - i,
    {
        let ghost i0 = i as int;
        proof {
            assert(a[i0] == args@[i0]@);
        }
        if str_eq(args[i].as_str(), "--") {
            dd = Option::Some(i + 1);
            i = i + 1;
        } else {
            let tlen = args[i].as_str().unicode_len();
            let positional: bool = tlen <= 1 || args[i].as_str().get_char(0) != '-' || (match dd {
                Option::Some(d) => d == i,
                Option::None => false,
            });
            if positional {
                finish_group(octx, pt, 0, args[i].as_str());
                i = i + 1;
            } else {
                let tok = &args[i];
                let opt_s = tail_of(tok.as_str(), 1);
                match match_group_separator(groups, opt_s) {
                    Option::Some(gi) => {
                        if i + 1 < n {
                            proof {
                                assert(a[i0 + 1] == args@[i0 + 1]@);
                            }
                            finish_group(octx, pt, gi, args[i + 1].as_str());
                            i = i + 2;
                        } else {
                            return Result::Err(
                                TokenizeError::MissingGroupArg { sep: String::from_str(opt_s) },
                            );
                        }
                    },
                    Option::None => {
                        match find_option(options, opt_s) {
                            Option::Some(po) => {
                                if flag_intersects(po.flags, OPT_EXIT) {
                                    if i + 1 < n {
                                        proof {
                                            assert(a[i0 + 1] == args@[i0 + 1]@);
                                        }
                                        add_opt(octx, po, opt_s, args[i + 1].as_str());
                                        i = i + 2;
                                    } else {
                                        proof {
                                            reveal_strlit("");
                                            assert(""@ =~= Seq::<char>::empty());
                                        }
                                        add_opt(octx, po, opt_s, "");
                                        i = i + 1;
                                    }
                                } else if flag_intersects(po.flags, HAS_ARG) {
                                    if i + 1 < n {
                                        proof {
                                            assert(a[i0 + 1] == args@[i0 + 1]@);
                                        }
                                        add_opt(octx, po, opt_s, args[i + 1].as_str());
                                        i = i + 2;
                                    } else {
                                        return Result::Err(
                                            TokenizeError::MissingOptArg {
                                                key: String::from_str(opt_s),
                                            },
                                        );
                                    }
                                } else {
                                    add_opt(octx, po, opt_s, "1");
                                    i = i + 1;
                                }
                            },
                            Option::None => {
                                let mut handled = false;
                                if i + 1 < n {
                                    proof {
                                        assert(a[i0 + 1] == args@[i0 + 1]@);
                                    }
                                    if opt_default(pt, opt_s, args[i + 1].as_str()) {
                                        i = i + 2;
                                        handled = true;
                                    }
                                }
                                if !handled {
                                    let olen = opt_s.unicode_len();
                                    let negated: bool = olen >= 2 && opt_s.get_char(0) == 'n'
                                        && opt_s.get_char(1) == 'o';
                                    if negated {
                                        let rest = tail_of(opt_s, 2);
                                        match find_option(options, rest) {
                                            Option::Some(po) => {
                                                if flag_intersects(po.flags, OPT_BOOL) {
                                                    add_opt(octx, po, rest, "0");
                                                    i = i + 1;
                                                } else {
                                                    return Result::Err(
                                                        TokenizeError::UnknownOption {
                                                            key: String::from_str(opt_s),
                                                        },
                                                    );
                                                }
                                            },
                                            Option::None => {
                                                return Result::Err(
                                                    TokenizeError::UnknownOption {
                                                        key: String::from_str(opt_s),
                                                    },
                                                );
                                            },
                                        }
                                    } else {
                                        return Result::Err(
                                            TokenizeError::UnknownOption {
                                                key: String::from_str(opt_s),
                                            },
                                        );
                                    }
                                }
                            },
                        }
                    },
                }
            }
        }
    }
    Result::Ok(())
}

/// The empty parse context for a group definition table.
pub open spec fn init_ctx_view(gdefs: Seq<OptionGroupDefView>) -> OptionParseContextView {
    OptionParseContextView {
        global_opts: OptionGroupView {
            group_def: OptionGroupDefView { name: "global"@, sep: Option::None, flags: 0 },
            arg: Seq::empty(),
            opts: Seq::empty(),
        },
        groups: Seq::new(
            gdefs.len(),
            |k: int| OptionGroupListView { group_def: gdefs[k], groups: Seq::empty() },
        ),
        cur_group: anon_group_view(),
    }
}

/// Build the empty parse context for a group definition table: one empty
/// list per group kind, an empty global group and a fresh accumulator.
pub fn init_parse_context(groups: &Vec<OptionGroupDef>) -> (res: OptionParseContext)
    ensures
        res@ == init_ctx_view(gdefs_view(*groups)),
{
    let n = groups.len();
    let mut lists: Vec<crate::types::OptionGroupList> = Vec::new();
    let mut k: usize = 0;
    while k < n
        invariant
            k <= n,
            n == groups@.len(),
            lists@.len() == k,
            forall|j: int|
                0 <= j < k ==> (#[trigger] lists@[j])@ == (OptionGroupListView {
                    group_def: groups@[j]@,
                    groups: Seq::empty(),
                }),
        decreases n - k,
    {
        let lst = crate::types::OptionGroupList {
            group_def: groups[k].clone(),
            groups: Vec::new(),
        };
        proof {
            assert(lst@.groups =~= Seq::<OptionGroupView>::empty());
        }
        lists.push(lst);
        k = k + 1;
    }
    let res = OptionParseContext {
        global_opts: OptionGroup::new_global(),
        groups: lists,
        cur_group: OptionGroup::new_anonymous(),
    };
    proof {
        let target = init_ctx_view(gdefs_view(*groups));
        assert(res@.cur_group =~~= target.cur_group);
        assert(res@.global_opts =~~= target.global_opts);
        assert forall|j: int| 0 <= j < groups@.len() implies (#[trigger] res@.groups[j])
            == target.groups[j] by {
            assert(res@.groups[j] == lists@[j]@);
            assert(gdefs_view(*groups)[j] == groups@[j]@);
        }
        assert(res@.groups =~~= target.groups);
        assert(res@ =~~= target);
    }
    res
}

} // verus!
