//! Option flag bits.
//!
//! Every option definition carries a set of flag bits describing its value
//! kind (string, integer, time, ...), where it may appear (input files,
//! output files, global scope) and special behaviours (exits after handling,
//! per-file only, specifier-qualified, struct-offset targeted).

use vstd::prelude::*;

verus! {

/// The option takes an explicit argument token.
pub const HAS_ARG: u64 = 0x0001;

/// Boolean option: without an argument the implicit value is "1".
pub const OPT_BOOL: u64 = 0x0002;

/// Shown only in expert help.
pub const OPT_EXPERT: u64 = 0x0004;

/// The value is stored as literal text.
pub const OPT_STRING: u64 = 0x0008;

/// The option applies to video streams.
pub const OPT_VIDEO: u64 = 0x0010;

/// The option applies to audio streams.
pub const OPT_AUDIO: u64 = 0x0020;

/// The value is parsed as a machine-word integer.
pub const OPT_INT: u64 = 0x0080;

/// The value is parsed as a single-precision magnitude; the engine stores
/// the validated literal.
pub const OPT_FLOAT: u64 = 0x0100;

/// The option applies to subtitle streams.
pub const OPT_SUBTITLE: u64 = 0x0200;

/// The value is parsed as a 64-bit integer.
pub const OPT_INT64: u64 = 0x0400;

/// After this option is applied the program terminates.
pub const OPT_EXIT: u64 = 0x0800;

/// The option applies to data streams.
pub const OPT_DATA: u64 = 0x1000;

/// The option is only meaningful for a particular file, never global.
pub const OPT_PERFILE: u64 = 0x2000;

/// The write target is a field of the per-file context.
pub const OPT_OFFSET: u64 = 0x4000;

/// The option accumulates stream-specifier-qualified values.
pub const OPT_SPEC: u64 = 0x8000;

/// The value is parsed as a duration in microseconds.
pub const OPT_TIME: u64 = 0x10000;

/// The value is parsed as a double-precision magnitude; the engine stores
/// the validated literal.
pub const OPT_DOUBLE: u64 = 0x20000;

/// The option is legal in input-file groups.
pub const OPT_INPUT: u64 = 0x40000;

/// The option is legal in output-file groups.
pub const OPT_OUTPUT: u64 = 0x80000;

/// Two flag sets intersect when they share at least one bit.
pub open spec fn flags_intersect(a: u64, b: u64) -> bool {
    a & b != 0
}

/// An option lands in the global scope unless it is per-file-only,
/// specifier-qualified or struct-offset targeted.
pub open spec fn flags_global(flags: u64) -> bool {
    !flags_intersect(flags, OPT_PERFILE | OPT_SPEC | OPT_OFFSET)
}

/// Whether two flag sets share a bit.
pub fn flag_intersects(a: u64, b: u64) -> (r: bool)
    ensures
        r == flags_intersect(a, b),
{
    a & b != 0
}

} // verus!
