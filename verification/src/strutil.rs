//! Verified string helpers.
//!
//! The tokenizer and the applier inspect option keys character by
//! character: the flag prefix, the ":specifier" suffix of a key, the "no"
//! negation prefix.  The spec functions here give those derived strings a
//! mathematical definition, and the exec functions compute them with
//! matching contracts.

use vstd::prelude::*;

verus! {

/// The part of `s` before its first ':', or all of `s` when it has none.
pub open spec fn spec_stripped(s: Seq<char>) -> Seq<char>
    decreases s.len(),
{
    if s.len() == 0 {
        Seq::empty()
    } else if s[0] == ':' {
        Seq::empty()
    } else {
        seq![s[0]] + spec_stripped(s.subrange(1, s.len() as int))
    }
}

/// The part of `s` after its first ':', or empty when it has none.
pub open spec fn spec_specifier(s: Seq<char>) -> Seq<char>
    decreases s.len(),
{
    if s.len() == 0 {
        Seq::empty()
    } else if s[0] == ':' {
        s.subrange(1, s.len() as int)
    } else {
        spec_specifier(s.subrange(1, s.len() as int))
    }
}

proof fn lemma_stripped_at(s: Seq<char>, i: int)
    requires
        0 <= i <= s.len(),
        forall|j: int| 0 <= j < i ==> s[j] != ':',
        i < s.len() ==> s[i] == ':',
    ensures
        spec_stripped(s) == s.subrange(0, i),
        i < s.len() ==> spec_specifier(s) == s.subrange(i + 1, s.len() as int),
        i == s.len() ==> spec_specifier(s) == Seq::<char>::empty(),
    decreases s.len(),
{
    if s.len() == 0 {
        assert(spec_stripped(s) =~= s.subrange(0, i));
    } else if i == 0 {
        if i < s.len() {
            assert(spec_stripped(s) =~= s.subrange(0, 0));
        }
    } else {
        let t = s.subrange(1, s.len() as int);
        assert(forall|j: int| 0 <= j < i - 1 ==> t[j] == s[j + 1] && t[j] != ':');
        lemma_stripped_at(t, i - 1);
        assert(spec_stripped(s) == seq![s[0]] + spec_stripped(t));
        assert(spec_stripped(t) == t.subrange(0, i - 1));
        assert(seq![s[0]] + t.subrange(0, i - 1) =~= s.subrange(0, i));
        if i < s.len() {
            assert(t.subrange(i, t.len() as int) =~= s.subrange(i + 1, s.len() as int));
        }
    }
}

/// Index of the first ':' in `s`, if any.
pub fn find_colon(s: &str) -> (r: Option<usize>)
    ensures
        match r {
            Option::Some(i) => i < s@.len() && s@[i as int] == ':' && (forall|j: int|
                0 <= j < i ==> s@[j] != ':'),
            Option::None => forall|j: int| 0 <= j < s@.len() ==> s@[j] != ':',
        },
{
    let n = s.unicode_len();
    let mut i: usize = 0;
    while i < n
        invariant
            n == s@.len(),
            i <= n,
            forall|j: int| 0 <= j < i ==> s@[j] != ':',
        decreases n - i,
    {
        if s.get_char(i) == ':' {
            return Option::Some(i);
        }
        i = i + 1;
    }
    Option::None
}

/// The key text before the first ':' of `s`.
pub fn stripped_of<'a>(s: &'a str) -> (r: &'a str)
    ensures
        r@ == spec_stripped(s@),
{
    let n = s.unicode_len();
    match find_colon(s) {
        Option::Some(i) => {
            proof {
                lemma_stripped_at(s@, i as int);
            }
            s.substring_char(0, i)
        },
        Option::None => {
            proof {
                lemma_stripped_at(s@, s@.len() as int);
                assert(s@.subrange(0, s@.len() as int) =~= s@);
            }
            s
        },
    }
}

/// The specifier suffix after the first ':' of `s`, or empty.
pub fn specifier_of<'a>(s: &'a str) -> (r: &'a str)
    ensures
        r@ == spec_specifier(s@),
{
    let n = s.unicode_len();
    match find_colon(s) {
        Option::Some(i) => {
            proof {
                lemma_stripped_at(s@, i as int);
            }
            s.substring_char(i + 1, n)
        },
        Option::None => {
            proof {
                lemma_stripped_at(s@, s@.len() as int);
            }
            s.substring_char(n, n)
        },
    }
}

/// Character-wise string equality.
pub fn str_eq(a: &str, b: &str) -> (r: bool)
    ensures
        r == (a@ == b@),
{
    let na = a.unicode_len();
    let nb = b.unicode_len();
    if na != nb {
        proof {
            assert(a@ != b@);
        }
        return false;
    }
    let mut i: usize = 0;
    while i < na
        invariant
            na == a@.len(),
            na == b@.len(),
            i <= na,
            forall|j: int| 0 <= j < i ==> a@[j] == b@[j],
        decreases na - i,
    {
        if a.get_char(i) != b.get_char(i) {
            return false;
        }
        i = i + 1;
    }
    proof {
        assert(a@ =~= b@);
    }
    true
}

/// The characters of `s` from position `from` on.
pub fn tail_of<'a>(s: &'a str, from: usize) -> (r: &'a str)
    requires
        from <= s@.len(),
    ensures
        r@ == s@.subrange(from as int, s@.len() as int),
{
    let n = s.unicode_len();
    s.substring_char(from, n)
}

} // verus!
