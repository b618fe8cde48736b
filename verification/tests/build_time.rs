//! Build-time behavior: target selection, the build plan, and the vendor
//! C-library configuration.

use blinky::plan::{build_plan, c_lib_config, BuildError};
use blinky::target::{links_gcc, marker, memory_source, variant_for_triple, Variant};

const CM4_LAYOUT: &[u8] = b"MEMORY { FLASH : ORIGIN = 0x10080000, LENGTH = 0x60000 }\n";
const CM0_LAYOUT: &[u8] = b"MEMORY { FLASH : ORIGIN = 0x10000000, LENGTH = 0x80000 }\n";

#[test]
fn cm4_triple_selects_cm4() {
    assert_eq!(variant_for_triple("thumbv7em-none-eabihf"), Some(Variant::Cm4));
}

#[test]
fn cm0_triple_selects_cm0() {
    assert_eq!(variant_for_triple("thumbv6m-none-eabi"), Some(Variant::Cm0));
}

#[test]
fn other_triples_are_rejected() {
    assert_eq!(variant_for_triple("x86_64-unknown-linux-gnu"), None);
    assert_eq!(variant_for_triple("thumbv7em-none-eabi"), None);
    assert_eq!(variant_for_triple(""), None);
}

#[test]
fn markers_match_variants() {
    assert_eq!(marker(Variant::Cm4), "cm4");
    assert_eq!(marker(Variant::Cm0), "cm0");
}

#[test]
fn only_cm0_links_gcc() {
    assert!(!links_gcc(Variant::Cm4));
    assert!(links_gcc(Variant::Cm0));
}

#[test]
fn memory_sources_match_variants() {
    assert_eq!(memory_source(Variant::Cm4), "memory_cm4.x");
    assert_eq!(memory_source(Variant::Cm0), "memory_cm0.x");
}

#[test]
fn scenario_cm4_build() {
    let plan = build_plan("thumbv7em-none-eabihf", CM4_LAYOUT, CM0_LAYOUT).unwrap();
    assert_eq!(plan.variant, Variant::Cm4);
    assert_eq!(plan.memory_image.as_slice(), CM4_LAYOUT);
    assert_eq!(plan.marker, "cm4");
    assert!(!plan.link_gcc);
    assert_eq!(plan.rerun_source, "memory_cm4.x");
}

#[test]
fn scenario_cm0_build() {
    let plan = build_plan("thumbv6m-none-eabi", CM4_LAYOUT, CM0_LAYOUT).unwrap();
    assert_eq!(plan.variant, Variant::Cm0);
    assert_eq!(plan.memory_image.as_slice(), CM0_LAYOUT);
    assert_eq!(plan.marker, "cm0");
    assert!(plan.link_gcc);
    assert_eq!(plan.rerun_source, "memory_cm0.x");
}

#[test]
fn scenario_unknown_target_fails() {
    let err = build_plan("x86_64-unknown-linux-gnu", CM4_LAYOUT, CM0_LAYOUT).unwrap_err();
    assert_eq!(err, BuildError::UnexpectedTarget);
    assert!(err.message().contains("Unexpected target"));
    assert_eq!(err.message(), "Unexpected target");
}

#[test]
fn rerunning_the_plan_is_bit_identical() {
    let first = build_plan("thumbv7em-none-eabihf", CM4_LAYOUT, CM0_LAYOUT).unwrap();
    let second = build_plan("thumbv7em-none-eabihf", CM4_LAYOUT, CM0_LAYOUT).unwrap();
    assert_eq!(first.memory_image, second.memory_image);
    assert_eq!(first.marker, second.marker);
    assert_eq!(first.link_gcc, second.link_gcc);
    assert_eq!(first.rerun_source, second.rerun_source);
}

#[test]
fn empty_layout_sources_are_copied_verbatim() {
    let plan = build_plan("thumbv6m-none-eabi", b"", b"").unwrap();
    assert!(plan.memory_image.is_empty());
}

#[test]
fn c_lib_config_is_fixed() {
    let c = c_lib_config();
    assert_eq!(c.defines, vec!["CYT2B75CAE", "NDEBUG", "tviibe2m"]);
    assert_eq!(
        c.flags,
        vec![
            "-ffunction-sections",
            "-nostdlib",
            "-Wno-unused-parameter",
            "-Wno-unused-function",
            "-Wno-expansion-to-defined",
        ]
    );
    assert!(!c.cpp);
}
