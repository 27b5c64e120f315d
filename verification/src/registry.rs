//! The pass-through registry.
//!
//! Options that are not in the local registry may still be recognized by
//! an external subsystem (generic codec or format parameters).  The
//! surrounding tool supplies the sets of keys those subsystems recognize
//! as plain data; during tokenization the engine looks keys up in them
//! and records recognized key/value pairs into the matching side tables.
//! The tables are owned by the caller and live for exactly one parse.

use vstd::prelude::*;

use crate::strutil::{spec_stripped, str_eq, stripped_of, tail_of};

verus! {

/// One recorded key/value pair.
#[derive(Debug)]
pub struct DictEntry {
    pub key: String,
    pub val: String,
}

/// Mathematical model of a recorded pair.
#[verifier::ext_equal]
pub struct DictEntryView {
    pub key: Seq<char>,
    pub val: Seq<char>,
}

impl View for DictEntry {
    type V = DictEntryView;

    open spec fn view(&self) -> DictEntryView {
        DictEntryView { key: self.key@, val: self.val@ }
    }
}

/// View of a side table.
pub open spec fn dict_view(d: Vec<DictEntry>) -> Seq<DictEntryView> {
    d@.map_values(|e: DictEntry| e@)
}

/// View of a key set.
pub open spec fn keys_view(v: Vec<String>) -> Seq<Seq<char>> {
    v@.map_values(|s: String| s@)
}

/// Whether a key set holds `k`.
pub open spec fn keys_has(keys: Seq<Seq<char>>, k: Seq<char>) -> bool {
    exists|i: int| 0 <= i < keys.len() && keys[i] == k
}

/// A side table with `k` set to `v`: the first entry with key `k` is
/// replaced, or a new entry is appended.
pub open spec fn dict_upsert(d: Seq<DictEntryView>, k: Seq<char>, v: Seq<char>) -> Seq<
    DictEntryView,
>
    decreases d.len(),
{
    if d.len() == 0 {
        seq![DictEntryView { key: k, val: v }]
    } else if d[0].key == k {
        seq![DictEntryView { key: k, val: v }] + d.subrange(1, d.len() as int)
    } else {
        seq![d[0]] + dict_upsert(d.subrange(1, d.len() as int), k, v)
    }
}

proof fn lemma_dict_upsert_at(d: Seq<DictEntryView>, k: Seq<char>, v: Seq<char>, i: int)
    requires
        0 <= i <= d.len(),
        forall|j: int| 0 <= j < i ==> d[j].key != k,
        i < d.len() ==> d[i].key == k,
    ensures
        i < d.len() ==> dict_upsert(d, k, v) == d.update(i, DictEntryView { key: k, val: v }),
        i == d.len() ==> dict_upsert(d, k, v) == d.push(DictEntryView { key: k, val: v }),
    decreases d.len(),
{
    if d.len() == 0 {
        assert(dict_upsert(d, k, v) =~= d.push(DictEntryView { key: k, val: v }));
    } else if i == 0 {
        if i < d.len() {
            assert(dict_upsert(d, k, v) =~= d.update(0, DictEntryView { key: k, val: v }));
        }
    } else {
        let t = d.subrange(1, d.len() as int);
        assert(forall|j: int| 0 <= j < i - 1 ==> t[j] == d[j + 1] && t[j].key != k);
        lemma_dict_upsert_at(t, k, v, i - 1);
        if i < d.len() {
            assert(seq![d[0]] + t.update(i - 1, DictEntryView { key: k, val: v }) =~= d.update(
                i,
                DictEntryView { key: k, val: v },
            ));
        } else {
            assert(seq![d[0]] + t.push(DictEntryView { key: k, val: v }) =~= d.push(
                DictEntryView { key: k, val: v },
            ));
        }
    }
}

/// Set `k` to `v` in a side table.
pub(crate) fn dict_set(d: &mut Vec<DictEntry>, k: &str, v: &str)
    ensures
        dict_view(*final(d)) == dict_upsert(dict_view(*old(d)), k@, v@),
{
    let n = d.len();
    let mut i: usize = 0;
    while i < n
        invariant
            i <= n,
            n == d@.len(),
            d == old(d),
            forall|j: int| 0 <= j < i ==> dict_view(*d)[j].key != k@,
        decreases n - i,
    {
        if str_eq(d[i].key.as_str(), k) {
            proof {
                lemma_dict_upsert_at(dict_view(*d), k@, v@, i as int);
            }
            let ghost target = dict_view(*d).update(
                i as int,
                DictEntryView { key: k@, val: v@ },
            );
            d.set(i, DictEntry { key: String::from_str(k), val: String::from_str(v) });
            proof {
                assert(dict_view(*d) =~= target);
            }
            return ;
        }
        proof {
            assert(dict_view(*d)[i as int].key == d@[i as int].key@);
        }
        i = i + 1;
    }
    proof {
        lemma_dict_upsert_at(dict_view(*d), k@, v@, n as int);
    }
    let ghost target = dict_view(*d).push(DictEntryView { key: k@, val: v@ });
    d.push(DictEntry { key: String::from_str(k), val: String::from_str(v) });
    proof {
        assert(dict_view(*d) =~= target);
    }
}

/// Whether a key set holds `k`.
fn keys_lookup(keys: &Vec<String>, k: &str) -> (r: bool)
    ensures
        r == keys_has(keys_view(*keys), k@),
{
    let n = keys.len();
    let mut i: usize = 0;
    while i < n
        invariant
            i <= n,
            n == keys@.len(),
            forall|j: int| 0 <= j < i ==> keys_view(*keys)[j] != k@,
        decreases n - i,
    {
        if str_eq(keys[i].as_str(), k) {
            proof {
                assert(keys_view(*keys)[i as int] == k@);
            }
            return true;
        }
        proof {
            assert(keys_view(*keys)[i as int] == keys@[i as int]@);
        }
        i = i + 1;
    }
    false
}

/// The pass-through registry and its side tables: the key sets the codec
/// and format subsystems recognize, and the pairs recorded for them
/// during tokenization.  The scaler table holds the default entry that
/// realizing a group restores.
#[derive(Debug)]
pub struct PassThrough {
    pub codec_keys: Vec<String>,
    pub format_keys: Vec<String>,
    pub codec_opts: Vec<DictEntry>,
    pub format_opts: Vec<DictEntry>,
    pub resample_opts: Vec<DictEntry>,
    pub sws_dict: Vec<DictEntry>,
}

/// Mathematical model of the pass-through registry.
#[verifier::ext_equal]
pub struct PassThroughView {
    pub codec_keys: Seq<Seq<char>>,
    pub format_keys: Seq<Seq<char>>,
    pub codec_opts: Seq<DictEntryView>,
    pub format_opts: Seq<DictEntryView>,
    pub resample_opts: Seq<DictEntryView>,
    pub sws_dict: Seq<DictEntryView>,
}

impl View for PassThrough {
    type V = PassThroughView;

    open spec fn view(&self) -> PassThroughView {
        PassThroughView {
            codec_keys: keys_view(self.codec_keys),
            format_keys: keys_view(self.format_keys),
            codec_opts: dict_view(self.codec_opts),
            format_opts: dict_view(self.format_opts),
            resample_opts: dict_view(self.resample_opts),
            sws_dict: dict_view(self.sws_dict),
        }
    }
}

impl PassThrough {
    /// A registry with the given recognized key sets and empty side
    /// tables.
    pub fn new(codec_keys: Vec<String>, format_keys: Vec<String>) -> (res: Self)
        ensures
            res@.codec_keys == keys_view(codec_keys),
            res@.format_keys == keys_view(format_keys),
            res@.codec_opts == Seq::<DictEntryView>::empty(),
            res@.format_opts == Seq::<DictEntryView>::empty(),
            res@.resample_opts == Seq::<DictEntryView>::empty(),
            res@.sws_dict == Seq::<DictEntryView>::empty(),
    {
        let res = PassThrough {
            codec_keys,
            format_keys,
            codec_opts: Vec::new(),
            format_opts: Vec::new(),
            resample_opts: Vec::new(),
            sws_dict: Vec::new(),
        };
        proof {
            assert(res@.codec_opts =~= Seq::<DictEntryView>::empty());
            assert(res@.format_opts =~= Seq::<DictEntryView>::empty());
            assert(res@.resample_opts =~= Seq::<DictEntryView>::empty());
            assert(res@.sws_dict =~= Seq::<DictEntryView>::empty());
        }
        res
    }
}

/// Whether the codec subsystem recognizes `opt`: its text up to the first
/// ':' is a codec key, or, for a key led by a stream-type letter 'v', 'a'
/// or 's', the text after that letter is.
pub open spec fn pt_codec_hit(pt: PassThroughView, opt: Seq<char>) -> bool {
    keys_has(pt.codec_keys, spec_stripped(opt)) || (opt.len() >= 1 && (opt[0] == 'v' || opt[0]
        == 'a' || opt[0] == 's') && keys_has(pt.codec_keys, opt.subrange(1, opt.len() as int)))
}

/// Whether the format subsystem recognizes `opt` (looked up in full).
pub open spec fn pt_format_hit(pt: PassThroughView, opt: Seq<char>) -> bool {
    keys_has(pt.format_keys, opt)
}

/// Whether some external subsystem recognizes `opt`.
pub open spec fn pt_recognizes(pt: PassThroughView, opt: Seq<char>) -> bool {
    pt_codec_hit(pt, opt) || pt_format_hit(pt, opt)
}

/// The registry after recording `opt = arg` for every subsystem that
/// recognizes it.
pub open spec fn pt_record(pt: PassThroughView, opt: Seq<char>, arg: Seq<char>) -> PassThroughView {
    let pt1 = if pt_codec_hit(pt, opt) {
        PassThroughView { codec_opts: dict_upsert(pt.codec_opts, opt, arg), ..pt }
    } else {
        pt
    };
    if pt_format_hit(pt, opt) {
        PassThroughView { format_opts: dict_upsert(pt1.format_opts, opt, arg), ..pt1 }
    } else {
        pt1
    }
}

/// Try `opt` against the pass-through registry: when some subsystem
/// recognizes it, record `opt = arg` in the matching side tables.
/// Returns whether the option was consumed.
pub fn opt_default(pt: &mut PassThrough, opt: &str, arg: &str) -> (consumed: bool)
    ensures
        consumed == pt_recognizes(old(pt)@, opt@),
        final(pt)@ == pt_record(old(pt)@, opt@, arg@),
{
    let stripped = stripped_of(opt);
    let codec_hit = if keys_lookup(&pt.codec_keys, stripped) {
        true
    } else {
        let n = crate::numparse::s_len(opt);
        if n >= 1 {
            let c0 = opt.get_char(0);
            if c0 == 'v' || c0 == 'a' || c0 == 's' {
                let nohead = tail_of(opt, 1);
                keys_lookup(&pt.codec_keys, nohead)
            } else {
                false
            }
        } else {
            false
        }
    };
    let format_hit = keys_lookup(&pt.format_keys, opt);
    if codec_hit {
        dict_set(&mut pt.codec_opts, opt, arg);
    }
    if format_hit {
        dict_set(&mut pt.format_opts, opt, arg);
    }
    proof {
        assert(final(pt)@ =~= pt_record(old(pt)@, opt@, arg@));
    }
    codec_hit || format_hit
}

} // verus!
