use nekor_aal::arch::x86::cpuid::{Cpuid, CpuidResult};
use nekor_aal::arch::x86::descriptor::RawSegmentDescriptor;
use nekor_aal::arch::x86::fred::Level;
use nekor_aal::arch::x86::privilege::{IoPrivilegeLevel, PrivilegeLevel};
use nekor_aal::arch::x86::xstate::{Xcr0, XstateComponents};
use nekor_aal::bits::State;

#[test]
fn static_selector_identity_preserves_complete_register_domains() {
    let registers = Cpuid::<{ u32::MAX }, { u32::MAX }>::synthetic(CpuidResult { eax: 1, ebx: 2, ecx: 3, edx: 4 });
    let result = registers.result();

    assert_eq!((result.eax, result.ebx), (1, 2));
    assert_eq!((result.ecx, result.edx), (3, 4));
}

#[test]
fn long_mode_code_descriptor_matches_architectural_encoding() {
    let descriptor = RawSegmentDescriptor::long_mode_code(PrivilegeLevel::Ring0);

    assert_eq!(descriptor.raw(), 0x00af_9b00_0000_ffff);
    assert_eq!(descriptor.raw().to_le_bytes(), [0xff, 0xff, 0, 0, 0, 0x9b, 0xaf, 0]);
}

#[test]
fn flat_data_descriptor_matches_architectural_encoding() {
    let descriptor = RawSegmentDescriptor::flat_data(PrivilegeLevel::Ring0);

    assert_eq!(descriptor.raw(), 0x00cf_9300_0000_ffff);
}

#[test]
fn user_descriptors_carry_their_privilege_level() {
    assert_eq!(RawSegmentDescriptor::long_mode_code(PrivilegeLevel::Ring3).raw(), 0x00af_fb00_0000_ffff);
    assert_eq!(RawSegmentDescriptor::flat_data(PrivilegeLevel::Ring3).raw(), 0x00cf_f300_0000_ffff);
}

#[test]
fn stack_levels_cover_the_complete_hardware_domain() {
    assert_eq!(Level::lift(0), Some(Level::Zero));
    assert_eq!(Level::lift(3), Some(Level::Three));
    assert_eq!(Level::lift(4), None);
}

#[test]
fn privilege_level_lifts_and_erases_stable_repr() {
    assert_eq!(PrivilegeLevel::Ring0.raw(), 0);
    assert_eq!(PrivilegeLevel::Ring1.raw(), 1);
    assert_eq!(PrivilegeLevel::Ring2.raw(), 2);
    assert_eq!(PrivilegeLevel::Ring3.raw(), 3);
    assert_eq!(PrivilegeLevel::lift(0), Some(PrivilegeLevel::Ring0));
    assert_eq!(PrivilegeLevel::lift(3), Some(PrivilegeLevel::Ring3));
    assert_eq!(PrivilegeLevel::lift(4), None);
}

#[test]
fn privilege_level_lift_inverts_raw() {
    for level in [PrivilegeLevel::Ring0, PrivilegeLevel::Ring1, PrivilegeLevel::Ring2, PrivilegeLevel::Ring3] {
        assert_eq!(PrivilegeLevel::lift(level.raw()), Some(level));
    }
    for raw in 4u8..=255 {
        assert_eq!(PrivilegeLevel::lift(raw), None);
    }
}

#[test]
fn io_privilege_level_uses_generated_repr_wrappers() {
    assert_eq!(IoPrivilegeLevel::Ring0.raw(), 0);
    assert_eq!(IoPrivilegeLevel::Ring3.raw(), 3);
    assert_eq!(IoPrivilegeLevel::lift(4), None);
}

#[test]
fn component_bitmap_matches_the_architectural_word() {
    assert_eq!(std::mem::size_of::<XstateComponents>(), std::mem::size_of::<u64>());
    assert_eq!(std::mem::align_of::<XstateComponents>(), std::mem::align_of::<u64>());
    assert_eq!(std::mem::size_of::<Xcr0>(), std::mem::size_of::<u64>());
    assert_eq!(std::mem::align_of::<Xcr0>(), std::mem::align_of::<u64>());
}

#[test]
fn component_operations_preserve_reserved_bits() {
    let reserved = XstateComponents::from_bits_retain(1 << 63);
    let selected = reserved.union(XstateComponents::X87().union(XstateComponents::SSE()));

    assert!(selected.contains(XstateComponents::X87().union(XstateComponents::SSE())));
    assert_eq!(selected.bits(), (1 << 63) | 0b11);
}

#[test]
fn xcr0_retains_register_identity_around_shared_components() {
    let mut provided = Xcr0::EMPTY();
    let required = Xcr0::new(XstateComponents::X87().union(XstateComponents::SSE()).bits());

    provided
        .components_mut()
        .insert(XstateComponents::X87().union(XstateComponents::SSE()).union(XstateComponents::AVX()));

    assert!(provided.contains(required));
    assert!(!required.contains(provided));
}

#[test]
fn component_set_operations_follow_set_algebra() {
    let a = XstateComponents::from_bits_retain(0b1010_0110);
    let b = XstateComponents::from_bits_retain(0b0110_0011);

    assert_eq!(a.union(b).bits(), 0b1110_0111);
    assert_eq!(a.intersection(b).bits(), 0b0010_0010);
    assert_eq!(a.difference(b).bits(), 0b1000_0100);
    assert!(a.union(b).contains(a));
    assert!(a.contains(a.intersection(b)));
    assert!(XstateComponents::empty().is_empty());
    assert!(a.difference(a).is_empty());

    let mut c = a;
    c.remove(b);
    assert_eq!(c, a.difference(b));
    assert_eq!(c.component::<7>(), State::Raised);
    assert_eq!(c.component::<1>(), State::Cleared);
    c.component_mut::<1>(State::Raised);
    assert_eq!(c.bits(), 0b1000_0110);
}

#[test]
fn named_components_sit_at_their_architectural_bits() {
    assert_eq!(XstateComponents::X87().bits(), 1);
    assert_eq!(XstateComponents::AVX().bits(), 1 << 2);
    assert_eq!(XstateComponents::PKRU().bits(), 1 << 9);
    assert_eq!(XstateComponents::CET_SUPERVISOR().bits(), 1 << 12);
    assert_eq!(XstateComponents::TILE_DATA().bits(), 1 << 18);
    assert_eq!(XstateComponents::APX().bits(), 1 << 19);
}
