//! Build-time target selection: which Cortex-M variant a target triple
//! denotes, and the per-variant build outputs (compile-time marker, memory
//! layout source, support-library linkage).

use vstd::prelude::*;
use vstd::string::StrSliceExecFns;

verus! {

/// The two core variants the firmware supports.
#[derive(Clone, Copy, Debug, PartialEq, Eq, Structural)]
pub enum Variant {
    /// Cortex-M0+ (target triple `thumbv6m-none-eabi`).
    Cm0,
    /// Cortex-M4F (target triple `thumbv7em-none-eabihf`).
    Cm4,
}

/// Character-for-character equality of two string slices.
fn str_eq(a: &str, b: &str) -> (r: bool)
    ensures
        r == (a@ == b@),
{
    let a_len = a.unicode_len();
    let b_len = b.unicode_len();
    if a_len != b_len {
        return false;
    }
    let mut i: usize = 0;
    while i < a_len
        invariant
            a_len == a@.len(),
            b_len == b@.len(),
            a_len == b_len,
            i <= a_len,
            forall|j: int| 0 <= j < i ==> a@[j] == b@[j],
        decreases a_len - i,
    {
        if a.get_char(i) != b.get_char(i) {
            return false;
        }
        i = i + 1;
    }
    proof {
        assert(a@ =~= b@);
    }
    true
}

/// The variant a target triple selects: exactly the two supported triples
/// are accepted, anything else is rejected.
pub open spec fn spec_variant_for(triple: Seq<char>) -> Option<Variant> {
    if triple == "thumbv7em-none-eabihf"@ {
        Some(Variant::Cm4)
    } else if triple == "thumbv6m-none-eabi"@ {
        Some(Variant::Cm0)
    } else {
        None
    }
}

/// Maps the toolchain target triple to the core variant, rejecting every
/// triple other than the two supported ones.
pub fn variant_for_triple(triple: &str) -> (r: Option<Variant>)
    ensures
        r == spec_variant_for(triple@),
{
    if str_eq(triple, "thumbv7em-none-eabihf") {
        Some(Variant::Cm4)
    } else if str_eq(triple, "thumbv6m-none-eabi") {
        Some(Variant::Cm0)
    } else {
        None
    }
}

/// The compile-time marker emitted for a variant, observed by downstream
/// conditional compilation.
pub open spec fn spec_marker(v: Variant) -> Seq<char> {
    match v {
        Variant::Cm4 => "cm4"@,
        Variant::Cm0 => "cm0"@,
    }
}

/// The compile-time marker (`cm4` or `cm0`) for a variant.
pub fn marker(v: Variant) -> (r: &'static str)
    ensures
        r@ == spec_marker(v),
{
    match v {
        Variant::Cm4 => "cm4",
        Variant::Cm0 => "cm0",
    }
}

/// Whether a variant needs the compiler support library linked in: only the
/// Cortex-M0+ build does, for the size-optimized dispatch tables the vendor
/// C code compiles to.
pub open spec fn spec_links_gcc(v: Variant) -> bool {
    v == Variant::Cm0
}

/// Whether the build must request linkage against the compiler support
/// library.
pub fn links_gcc(v: Variant) -> (r: bool)
    ensures
        r == spec_links_gcc(v),
{
    match v {
        Variant::Cm4 => false,
        Variant::Cm0 => true,
    }
}

/// The repository file the memory layout is copied from, per variant; an
/// edit to it must force a relink.
pub open spec fn spec_memory_source(v: Variant) -> Seq<char> {
    match v {
        Variant::Cm4 => "memory_cm4.x"@,
        Variant::Cm0 => "memory_cm0.x"@,
    }
}

/// The name of the memory-layout source file for a variant.
pub fn memory_source(v: Variant) -> (r: &'static str)
    ensures
        r@ == spec_memory_source(v),
{
    match v {
        Variant::Cm4 => "memory_cm4.x",
        Variant::Cm0 => "memory_cm0.x",
    }
}

} // verus!
