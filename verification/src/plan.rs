//! The build-time plan: everything the build step must produce, computed
//! from the target triple and the two memory-layout sources.
//!
//! The shell around the library performs the environment and file access;
//! this module fixes what is written and emitted.

use vstd::prelude::*;
use vstd::slice::slice_to_vec;

use crate::target::{
    spec_links_gcc, spec_marker, spec_memory_source, spec_variant_for, links_gcc, marker,
    memory_source, variant_for_triple, Variant,
};

verus! {

/// Everything the build step produces for a supported target: the bytes to
/// install as `memory.x`, the compile-time marker, whether to request the
/// compiler support library, and the layout source to re-run on.
#[derive(Debug)]
pub struct BuildPlan {
    /// The chosen core variant.
    pub variant: Variant,
    /// Byte-for-byte contents of the `memory.x` file to install.
    pub memory_image: Vec<u8>,
    /// The compile-time marker to emit (`cm4` or `cm0`).
    pub marker: String,
    /// Whether to request linkage against the compiler support library.
    pub link_gcc: bool,
    /// The memory-layout source file a rebuild must be registered on.
    pub rerun_source: String,
}

/// The one build-time failure: a target triple that is neither of the two
/// supported ones.
#[derive(Clone, Copy, Debug, PartialEq, Eq, Structural)]
pub enum BuildError {
    UnexpectedTarget,
}

impl BuildError {
    /// The diagnostic the failed build reports.
    pub fn message(&self) -> (m: String)
        ensures
            m@ == "Unexpected target"@,
    {
        "Unexpected target".to_owned()
    }
}

/// The memory image a variant selects: the Cortex-M4 build installs the
/// `cm4` layout source, the Cortex-M0+ build the `cm0` one, verbatim.
pub open spec fn spec_memory_image(v: Variant, cm4: Seq<u8>, cm0: Seq<u8>) -> Seq<u8> {
    match v {
        Variant::Cm4 => cm4,
        Variant::Cm0 => cm0,
    }
}

/// What a correct plan for variant `v` and layout sources `cm4`/`cm0` holds.
pub open spec fn plan_matches(p: BuildPlan, v: Variant, cm4: Seq<u8>, cm0: Seq<u8>) -> bool {
    &&& p.variant == v
    &&& p.memory_image@ == spec_memory_image(v, cm4, cm0)
    &&& p.marker@ == spec_marker(v)
    &&& p.link_gcc == spec_links_gcc(v)
    &&& p.rerun_source@ == spec_memory_source(v)
}

/// Computes the full build plan from the target triple and the contents of
/// the two memory-layout sources. Succeeds exactly on the two supported
/// triples; any other triple is an `UnexpectedTarget` error.
pub fn build_plan(triple: &str, cm4_image: &[u8], cm0_image: &[u8]) -> (r: Result<
    BuildPlan,
    BuildError,
>)
    ensures
        r is Ok <==> spec_variant_for(triple@) is Some,
        r is Ok ==> plan_matches(
            r->Ok_0,
            spec_variant_for(triple@)->Some_0,
            cm4_image@,
            cm0_image@,
        ),
        r is Err ==> r->Err_0 == BuildError::UnexpectedTarget,
{
    match variant_for_triple(triple) {
        Some(v) => {
            let memory_image = match v {
                Variant::Cm4 => slice_to_vec(cm4_image),
                Variant::Cm0 => slice_to_vec(cm0_image),
            };
            Ok(
                BuildPlan {
                    variant: v,
                    memory_image,
                    marker: marker(v).to_owned(),
                    link_gcc: links_gcc(v),
                    rerun_source: memory_source(v).to_owned(),
                },
            )
        },
        None => Err(BuildError::UnexpectedTarget),
    }
}

/// The plan is a function of the target triple and the two layout sources
/// alone: re-running the build step on unchanged inputs selects the same
/// variant and installs a bit-identical memory image, marker, linkage
/// request and rebuild dependency.
pub proof fn lemma_plan_deterministic(
    t1: Seq<char>,
    t2: Seq<char>,
    cm4_1: Seq<u8>,
    cm4_2: Seq<u8>,
    cm0_1: Seq<u8>,
    cm0_2: Seq<u8>,
    p1: BuildPlan,
    p2: BuildPlan,
)
    requires
        t1 == t2,
        cm4_1 == cm4_2,
        cm0_1 == cm0_2,
        spec_variant_for(t1) is Some,
        plan_matches(p1, spec_variant_for(t1)->Some_0, cm4_1, cm0_1),
        plan_matches(p2, spec_variant_for(t2)->Some_0, cm4_2, cm0_2),
    ensures
        p1.variant == p2.variant,
        p1.memory_image@ == p2.memory_image@,
        p1.marker@ == p2.marker@,
        p1.link_gcc == p2.link_gcc,
        p1.rerun_source@ == p2.rerun_source@,
{
}

/// The compile-time configuration of the vendor C support library: the
/// board, release and platform definitions, and the compiler flags that
/// split function sections, suppress the standard library and quiet the
/// warnings the vendor code trips.
pub struct CLibConfig {
    /// Preprocessor symbols to define (with no value).
    pub defines: Vec<String>,
    /// Compiler flags to pass.
    pub flags: Vec<String>,
    /// Whether to compile as C++ (the vendor library is plain C).
    pub cpp: bool,
}

/// The fixed configuration the vendor C support library is compiled with.
pub fn c_lib_config() -> (c: CLibConfig)
    ensures
        c.defines@.len() == 3,
        c.defines@[0]@ == "CYT2B75CAE"@,
        c.defines@[1]@ == "NDEBUG"@,
        c.defines@[2]@ == "tviibe2m"@,
        c.flags@.len() == 5,
        c.flags@[0]@ == "-ffunction-sections"@,
        c.flags@[1]@ == "-nostdlib"@,
        c.flags@[2]@ == "-Wno-unused-parameter"@,
        c.flags@[3]@ == "-Wno-unused-function"@,
        c.flags@[4]@ == "-Wno-expansion-to-defined"@,
        !c.cpp,
{
    let mut defines: Vec<String> = Vec::new();
    defines.push("CYT2B75CAE".to_owned());
    defines.push("NDEBUG".to_owned());
    defines.push("tviibe2m".to_owned());
    let mut flags: Vec<String> = Vec::new();
    flags.push("-ffunction-sections".to_owned());
    flags.push("-nostdlib".to_owned());
    flags.push("-Wno-unused-parameter".to_owned());
    flags.push("-Wno-unused-function".to_owned());
    flags.push("-Wno-expansion-to-defined".to_owned());
    CLibConfig { defines, flags, cpp: false }
}

} // verus!
