//! Engine-wide laws.
//!
//! These proof functions state, over the same spec functions the
//! engine's contracts use, the properties that hold of every tokenization
//! and every application run.

use vstd::prelude::*;

use crate::apply::{apply_fold, ApplyState};
use crate::flags::flags_global;
use crate::numparse::{
    frac_nonzero,
    is_numeral,
    num_floor,
    num_frac,
    num_mag,
    spec_parse_number,
    spec_repr53,
    NumCheck,
};
use crate::split::{tok_fold, TokFold, TokState};
use crate::types::{OptionDefView, OptionGroupDefView, OptionGroupListView, OptionKVView};

verus! {

/// Every entry of a key/value sequence is a global-scope option.
pub open spec fn all_global(opts: Seq<OptionKVView>) -> bool {
    forall|i: int| 0 <= i < opts.len() ==> flags_global(#[trigger] opts[i].opt.flags)
}

/// No entry of a key/value sequence is a global-scope option.
pub open spec fn none_global(opts: Seq<OptionKVView>) -> bool {
    forall|i: int| 0 <= i < opts.len() ==> !flags_global(#[trigger] opts[i].opt.flags)
}

/// No realized group of any kind holds a global-scope option.
pub open spec fn groups_none_global(groups: Seq<OptionGroupListView>) -> bool {
    forall|k: int, j: int|
        0 <= k < groups.len() && 0 <= j < groups[k].groups.len() ==> none_global(
            #[trigger] groups[k].groups[j].opts,
        )
}

/// Scope routing invariant of a scan state: the global group holds only
/// global-scope options, and the accumulator and every realized group
/// hold none.
pub open spec fn scope_routed(st: TokState) -> bool {
    &&& all_global(st.octx.global_opts.opts)
    &&& none_global(st.octx.cur_group.opts)
    &&& groups_none_global(st.octx.groups)
}

/// For every tokenization, the global group gains only options whose
/// flags exclude the per-file-only, specifier and struct-offset bits;
/// every other recognized option lands in the accumulator or in a
/// realized per-file group, never in the global group.  Stated as: the
/// scope routing invariant holds of the scan's result whenever it holds
/// of its starting state — in particular of a fresh one, whose groups
/// are all empty.
pub proof fn lemma_tokenize_scope_routing(
    st: TokState,
    a: Seq<Seq<char>>,
    opts: Seq<OptionDefView>,
    gdefs: Seq<OptionGroupDefView>,
    i: int,
)
    requires
        scope_routed(st),
    ensures
        scope_routed(tok_fold(st, a, opts, gdefs, i).st),
    decreases a.len() - i,
{
    if i < 0 || i >= a.len() {
    } else {
        let tok = a[i];
        if tok == "--"@ {
            lemma_tokenize_scope_routing(
                TokState { dashdash: Option::Some(i + 1), ..st },
                a,
                opts,
                gdefs,
                i + 1,
            );
        } else if tok.len() <= 1 || tok[0] != '-' || st.dashdash == Option::Some(i) {
            let st2 = TokState {
                octx: crate::split::finish_model(st.octx, 0, tok),
                pt: crate::split::sws_stamp(st.pt),
                dashdash: st.dashdash,
            };
            lemma_finish_keeps_routing(st, st2, 0, tok);
            lemma_tokenize_scope_routing(st2, a, opts, gdefs, i + 1);
        } else {
            let opt = tok.subrange(1, tok.len() as int);
            match crate::split::spec_match_sep(gdefs, opt) {
                Option::Some(gi) => {
                    if i + 1 < a.len() {
                        let st2 = TokState {
                            octx: crate::split::finish_model(st.octx, gi, a[i + 1]),
                            pt: crate::split::sws_stamp(st.pt),
                            dashdash: st.dashdash,
                        };
                        lemma_finish_keeps_routing(st, st2, gi, a[i + 1]);
                        lemma_tokenize_scope_routing(st2, a, opts, gdefs, i + 2);
                    }
                },
                Option::None => {
                    match crate::split::spec_find_option(opts, crate::strutil::spec_stripped(opt)) {
                        Option::Some(po) => {
                            if po.flags & crate::flags::OPT_EXIT != 0 {
                                let arg = if i + 1 < a.len() {
                                    a[i + 1]
                                } else {
                                    Seq::empty()
                                };
                                let st2 = TokState {
                                    octx: crate::split::add_model(st.octx, po, opt, arg),
                                    ..st
                                };
                                let ni = if i + 2 <= a.len() {
                                    i + 2
                                } else {
                                    a.len() as int
                                };
                                lemma_add_keeps_routing(st, st2, po, opt, arg);
                                lemma_tokenize_scope_routing(st2, a, opts, gdefs, ni);
                            } else if po.flags & crate::flags::HAS_ARG != 0 {
                                if i + 1 < a.len() {
                                    let st2 = TokState {
                                        octx: crate::split::add_model(st.octx, po, opt, a[i + 1]),
                                        ..st
                                    };
                                    lemma_add_keeps_routing(st, st2, po, opt, a[i + 1]);
                                    lemma_tokenize_scope_routing(st2, a, opts, gdefs, i + 2);
                                }
                            } else {
                                let st2 = TokState {
                                    octx: crate::split::add_model(st.octx, po, opt, "1"@),
                                    ..st
                                };
                                lemma_add_keeps_routing(st, st2, po, opt, "1"@);
                                lemma_tokenize_scope_routing(st2, a, opts, gdefs, i + 1);
                            }
                        },
                        Option::None => {
                            if crate::registry::pt_recognizes(st.pt, opt) && i + 1 < a.len() {
                                let st2 = TokState {
                                    pt: crate::registry::pt_record(st.pt, opt, a[i + 1]),
                                    ..st
                                };
                                lemma_tokenize_scope_routing(st2, a, opts, gdefs, i + 2);
                            } else if opt.len() >= 2 && opt[0] == 'n' && opt[1] == 'o'
                                && crate::split::no_bool_opt(opts, opt) is Some {
                                let po = crate::split::no_bool_opt(opts, opt)->0;
                                let key = opt.subrange(2, opt.len() as int);
                                let st2 = TokState {
                                    octx: crate::split::add_model(st.octx, po, key, "0"@),
                                    ..st
                                };
                                lemma_add_keeps_routing(st, st2, po, key, "0"@);
                                lemma_tokenize_scope_routing(st2, a, opts, gdefs, i + 1);
                            }
                        },
                    }
                },
            }
        }
    }
}

/// Realizing the accumulator group preserves the scope routing invariant.
proof fn lemma_finish_keeps_routing(st: TokState, st2: TokState, gi: int, arg: Seq<char>)
    requires
        scope_routed(st),
        st2.octx == crate::split::finish_model(st.octx, gi, arg),
    ensures
        scope_routed(st2),
{
    if 0 <= gi < st.octx.groups.len() {
        let c = st.octx;
        let c2 = st2.octx;
        assert forall|k: int, j: int|
            0 <= k < c2.groups.len() && 0 <= j < c2.groups[k].groups.len() implies none_global(
            #[trigger] c2.groups[k].groups[j].opts,
        ) by {
            if k == gi && j == c.groups[gi].groups.len() {
                assert(c2.groups[k].groups[j].opts == c.cur_group.opts);
            } else if k == gi {
                assert(c2.groups[k].groups[j] == c.groups[k].groups[j]);
            } else {
                assert(c2.groups[k] == c.groups[k]);
            }
        }
    }
}

/// Recording an option occurrence preserves the scope routing invariant:
/// a global-scope occurrence goes to the global group, any other to the
/// accumulator.
proof fn lemma_add_keeps_routing(
    st: TokState,
    st2: TokState,
    po: OptionDefView,
    key: Seq<char>,
    val: Seq<char>,
)
    requires
        scope_routed(st),
        st2.octx == crate::split::add_model(st.octx, po, key, val),
    ensures
        scope_routed(st2),
{
    let kv = OptionKVView { opt: po, key, val };
    if flags_global(po.flags) {
        assert(st2.octx.global_opts.opts == st.octx.global_opts.opts.push(kv));
    } else {
        assert(st2.octx.cur_group.opts == st.octx.cur_group.opts.push(kv));
    }
}

/// Every definition of a registry table is well-formed against a global
/// store with `nslots` slots.
pub open spec fn table_wf(opts: Seq<OptionDefView>, nslots: int) -> bool {
    forall|i: int| 0 <= i < opts.len() ==> crate::apply::def_wf(#[trigger] opts[i], nslots)
}

/// Every occurrence of a key/value sequence carries a well-formed
/// definition.
pub open spec fn kvs_wf(opts: Seq<OptionKVView>, nslots: int) -> bool {
    forall|i: int| 0 <= i < opts.len() ==> crate::apply::def_wf(#[trigger] opts[i].opt, nslots)
}

/// Every occurrence anywhere in a parse context carries a well-formed
/// definition.
pub open spec fn ctx_defs_wf(c: crate::types::OptionParseContextView, nslots: int) -> bool {
    &&& kvs_wf(c.global_opts.opts, nslots)
    &&& kvs_wf(c.cur_group.opts, nslots)
    &&& forall|k: int, j: int|
        0 <= k < c.groups.len() && 0 <= j < c.groups[k].groups.len() ==> kvs_wf(
            (#[trigger] c.groups[k].groups[j]).opts,
            nslots,
        )
}

proof fn lemma_find_option_member(opts: Seq<OptionDefView>, stripped: Seq<char>)
    requires
        crate::split::spec_find_option(opts, stripped) is Some,
    ensures
        exists|i: int|
            0 <= i < opts.len() && opts[i] == crate::split::spec_find_option(opts, stripped)->0,
    decreases opts.len(),
{
    if opts.len() == 0 {
    } else if opts[0].name == stripped {
        assert(opts[0] == crate::split::spec_find_option(opts, stripped)->0);
    } else {
        let t = opts.subrange(1, opts.len() as int);
        lemma_find_option_member(t, stripped);
        let w = choose|i: int|
            0 <= i < t.len() && t[i] == crate::split::spec_find_option(t, stripped)->0;
        assert(opts[w + 1] == t[w]);
    }
}

proof fn lemma_finish_keeps_defs_wf(
    c: crate::types::OptionParseContextView,
    gi: int,
    arg: Seq<char>,
    nslots: int,
)
    requires
        ctx_defs_wf(c, nslots),
    ensures
        ctx_defs_wf(crate::split::finish_model(c, gi, arg), nslots),
{
    if 0 <= gi < c.groups.len() {
        let c2 = crate::split::finish_model(c, gi, arg);
        assert forall|k: int, j: int|
            0 <= k < c2.groups.len() && 0 <= j < c2.groups[k].groups.len() implies kvs_wf(
            (#[trigger] c2.groups[k].groups[j]).opts,
            nslots,
        ) by {
            if k == gi && j == c.groups[gi].groups.len() {
                assert(c2.groups[k].groups[j].opts == c.cur_group.opts);
            } else if k == gi {
                assert(c2.groups[k].groups[j] == c.groups[k].groups[j]);
            } else {
                assert(c2.groups[k] == c.groups[k]);
            }
        }
    }
}

proof fn lemma_add_keeps_defs_wf(
    c: crate::types::OptionParseContextView,
    po: OptionDefView,
    key: Seq<char>,
    val: Seq<char>,
    nslots: int,
)
    requires
        ctx_defs_wf(c, nslots),
        crate::apply::def_wf(po, nslots),
    ensures
        ctx_defs_wf(crate::split::add_model(c, po, key, val), nslots),
{
    let kv = OptionKVView { opt: po, key, val };
    if flags_global(po.flags) {
        assert(crate::split::add_model(c, po, key, val).global_opts.opts
            == c.global_opts.opts.push(kv));
    } else {
        assert(crate::split::add_model(c, po, key, val).cur_group.opts == c.cur_group.opts.push(
            kv,
        ));
    }
}

/// Tokenization hands the applier only well-formed definitions: when
/// every definition of the registry table is well-formed against the
/// global store and the starting context holds only well-formed
/// occurrences, so does every group of the scan's result.  Together with
/// the scope routing law this discharges the applier's preconditions for
/// every group a scan produces.
pub proof fn lemma_tokenize_defs_wf(
    st: TokState,
    a: Seq<Seq<char>>,
    opts: Seq<OptionDefView>,
    gdefs: Seq<OptionGroupDefView>,
    i: int,
    nslots: int,
)
    requires
        table_wf(opts, nslots),
        ctx_defs_wf(st.octx, nslots),
    ensures
        ctx_defs_wf(tok_fold(st, a, opts, gdefs, i).st.octx, nslots),
    decreases a.len() - i,
{
    if i < 0 || i >= a.len() {
    } else {
        let tok = a[i];
        if tok == "--"@ {
            lemma_tokenize_defs_wf(
                TokState { dashdash: Option::Some(i + 1), ..st },
                a,
                opts,
                gdefs,
                i + 1,
                nslots,
            );
        } else if tok.len() <= 1 || tok[0] != '-' || st.dashdash == Option::Some(i) {
            let st2 = TokState {
                octx: crate::split::finish_model(st.octx, 0, tok),
                pt: crate::split::sws_stamp(st.pt),
                dashdash: st.dashdash,
            };
            lemma_finish_keeps_defs_wf(st.octx, 0, tok, nslots);
            lemma_tokenize_defs_wf(st2, a, opts, gdefs, i + 1, nslots);
        } else {
            let opt = tok.subrange(1, tok.len() as int);
            match crate::split::spec_match_sep(gdefs, opt) {
                Option::Some(gi) => {
                    if i + 1 < a.len() {
                        let st2 = TokState {
                            octx: crate::split::finish_model(st.octx, gi, a[i + 1]),
                            pt: crate::split::sws_stamp(st.pt),
                            dashdash: st.dashdash,
                        };
                        lemma_finish_keeps_defs_wf(st.octx, gi, a[i + 1], nslots);
                        lemma_tokenize_defs_wf(st2, a, opts, gdefs, i + 2, nslots);
                    }
                },
                Option::None => {
                    match crate::split::spec_find_option(opts, crate::strutil::spec_stripped(opt)) {
                        Option::Some(po) => {
                            lemma_find_option_member(opts, crate::strutil::spec_stripped(opt));
                            assert(crate::apply::def_wf(po, nslots));
                            if po.flags & crate::flags::OPT_EXIT != 0 {
                                let arg = if i + 1 < a.len() {
                                    a[i + 1]
                                } else {
                                    Seq::empty()
                                };
                                let st2 = TokState {
                                    octx: crate::split::add_model(st.octx, po, opt, arg),
                                    ..st
                                };
                                let ni = if i + 2 <= a.len() {
                                    i + 2
                                } else {
                                    a.len() as int
                                };
                                lemma_add_keeps_defs_wf(st.octx, po, opt, arg, nslots);
                                lemma_tokenize_defs_wf(st2, a, opts, gdefs, ni, nslots);
                            } else if po.flags & crate::flags::HAS_ARG != 0 {
                                if i + 1 < a.len() {
                                    let st2 = TokState {
                                        octx: crate::split::add_model(st.octx, po, opt, a[i + 1]),
                                        ..st
                                    };
                                    lemma_add_keeps_defs_wf(st.octx, po, opt, a[i + 1], nslots);
                                    lemma_tokenize_defs_wf(st2, a, opts, gdefs, i + 2, nslots);
                                }
                            } else {
                                let st2 = TokState {
                                    octx: crate::split::add_model(st.octx, po, opt, "1"@),
                                    ..st
                                };
                                lemma_add_keeps_defs_wf(st.octx, po, opt, "1"@, nslots);
                                lemma_tokenize_defs_wf(st2, a, opts, gdefs, i + 1, nslots);
                            }
                        },
                        Option::None => {
                            if crate::registry::pt_recognizes(st.pt, opt) && i + 1 < a.len() {
                                let st2 = TokState {
                                    pt: crate::registry::pt_record(st.pt, opt, a[i + 1]),
                                    ..st
                                };
                                lemma_tokenize_defs_wf(st2, a, opts, gdefs, i + 2, nslots);
                            } else if opt.len() >= 2 && opt[0] == 'n' && opt[1] == 'o'
                                && crate::split::no_bool_opt(opts, opt) is Some {
                                let po = crate::split::no_bool_opt(opts, opt)->0;
                                let rest = opt.subrange(2, opt.len() as int);
                                lemma_find_option_member(
                                    opts,
                                    crate::strutil::spec_stripped(rest),
                                );
                                assert(crate::apply::def_wf(po, nslots));
                                let st2 = TokState {
                                    octx: crate::split::add_model(st.octx, po, rest, "0"@),
                                    ..st
                                };
                                lemma_add_keeps_defs_wf(st.octx, po, rest, "0"@, nslots);
                                lemma_tokenize_defs_wf(st2, a, opts, gdefs, i + 1, nslots);
                            }
                        },
                    }
                },
            }
        }
    }
}

/// A global-scope option is in particular neither specifier-qualified
/// nor struct-offset targeted, which is what applying the global group
/// with no per-file destination asks of every entry.
pub proof fn lemma_global_excludes_spec_offset(flags: u64)
    requires
        flags_global(flags),
    ensures
        flags & (crate::flags::OPT_SPEC | crate::flags::OPT_OFFSET) == 0,
{
    assert(flags & (0x8000u64 | 0x4000u64) == 0) by (bit_vector)
        requires
            flags & (0x2000u64 | 0x8000u64 | 0x4000u64) == 0,
    ;
}

/// Integer round-trip law: a numeral whose fraction is zero, whose value
/// lies in the declared range and whose magnitude is exactly
/// representable with a 53-bit significand parses to exactly that value;
/// one with a nonzero fraction (for example "42.5" for an integer kind)
/// never parses to a value.
pub proof fn lemma_int_round_trip(s: Seq<char>, min: int, max: int)
    requires
        is_numeral(s),
    ensures
        !frac_nonzero(num_frac(s)) && min <= num_floor(s) <= max && spec_repr53(
            num_mag(s) as nat,
        ) ==> spec_parse_number(s, min, max) == NumCheck::Val(num_floor(s)),
        frac_nonzero(num_frac(s)) ==> spec_parse_number(s, min, max) != NumCheck::Val(
            num_floor(s),
        ) && !(spec_parse_number(s, min, max) is Val),
{
}

/// Specifier-qualified writes accumulate: a second write through the
/// same specifier-list field appends a second entry after the first,
/// never merging or overwriting — also when the two specifier strings
/// are equal.
pub proof fn lemma_specifier_writes_accumulate(
    c: crate::types::OptionsContextView,
    f: crate::types::SpecListField,
    e1: crate::types::SpecifierOptView,
    e2: crate::types::SpecifierOptView,
)
    ensures
        ({
            let c1 = crate::dest::ctx_with_spec_list(
                c,
                f,
                crate::dest::ctx_spec_list(c, f).push(e1),
            );
            let c2 = crate::dest::ctx_with_spec_list(
                c1,
                f,
                crate::dest::ctx_spec_list(c1, f).push(e2),
            );
            crate::dest::ctx_spec_list(c2, f) == crate::dest::ctx_spec_list(c, f) + seq![e1, e2]
        }),
{
    let c1 = crate::dest::ctx_with_spec_list(c, f, crate::dest::ctx_spec_list(c, f).push(e1));
    let c2 = crate::dest::ctx_with_spec_list(c1, f, crate::dest::ctx_spec_list(c1, f).push(e2));
    assert(crate::dest::ctx_spec_list(c2, f) =~= crate::dest::ctx_spec_list(c, f) + seq![e1, e2]);
}

/// Application is a function of the initial destinations and the group
/// alone: two runs over equal groups from equal fresh destinations yield
/// equal destinations, field for field.  Specifier lists accumulate by
/// appending, which this determinism covers too: equal starting lists
/// gain equal entries.  Handler calls carry no destination access, so
/// they cannot break this.
pub proof fn lemma_apply_deterministic(
    st1: ApplyState,
    st2: ApplyState,
    gflags: u64,
    opts: Seq<OptionKVView>,
)
    requires
        st1 == st2,
    ensures
        apply_fold(st1, gflags, opts, 0) == apply_fold(st2, gflags, opts, 0),
{
}

/// Boundary law: an argument vector with nothing after the program name
/// tokenizes to the starting state — zero realized groups, untouched
/// global options — with no error.
pub proof fn lemma_tokenize_empty(
    st: TokState,
    a: Seq<Seq<char>>,
    opts: Seq<OptionDefView>,
    gdefs: Seq<OptionGroupDefView>,
)
    requires
        a.len() <= 1,
    ensures
        tok_fold(st, a, opts, gdefs, 1) == (TokFold { st, err: Option::None }),
{
}

} // verus!
