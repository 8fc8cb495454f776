use nekor_aal::arch::x86::descriptor::{DescriptorIndex, RawSegmentDescriptor};
use nekor_aal::arch::x86::fred::Level as FredLevel;
use nekor_aal::arch::x86::msr::efer::{Efer, LongModeEfer, RawEfer};
use nekor_aal::arch::x86::msr::fred::{
    FredConfig, FredLevels, FredRsp1, RawFredConfig, RawFredLevels, RawFredRsp0, RawFredRsp1, RawFredRsp2,
    RawFredRsp3, RawFredSsp1, RawFredSsp2, RawFredSsp3,
};
use nekor_aal::arch::x86::msr::segment::{RawFsBase, RawGsBase, RawKernelGsBase};
use nekor_aal::arch::x86::msr::syscall::{RawCStar, RawFMask, RawLStar, RawStar, Star, SyscallSegments, SysretSegments};
use nekor_aal::arch::x86::msr::sysenter::{RawSysEnterCs, RawSysEnterIp, RawSysEnterSp, SysEnterCs};
use nekor_aal::arch::x86::msr::xstate::{RawXfd, RawXfdErr, RawXss};
use nekor_aal::arch::x86::msr::{Msr, RawMsr};
use nekor_aal::arch::x86::privilege::PrivilegeLevel;
use nekor_aal::arch::x86::segmentation::{CodeSegment, DataSegment, SegmentSelector, TableIndicator};
use nekor_aal::arch::x86_64::paging::address::{La, La48};
use nekor_aal::bits::State;

fn code(index: u16, privilege: PrivilegeLevel) -> CodeSegment {
    let index = DescriptorIndex::lift(index).expect("fixture index must be nonzero");
    let selector = SegmentSelector::new(index, TableIndicator::Gdt, privilege);
    let descriptor = RawSegmentDescriptor::long_mode_code(privilege);

    CodeSegment::new(selector, descriptor).expect("fixture descriptor must be long-mode code")
}

fn data(index: u16, privilege: PrivilegeLevel) -> DataSegment {
    let index = DescriptorIndex::lift(index).expect("fixture index must be nonzero");
    let selector = SegmentSelector::new(index, TableIndicator::Gdt, privilege);
    let descriptor = RawSegmentDescriptor::flat_data(privilege);

    DataSegment::new(selector, descriptor).expect("fixture descriptor must be writable data")
}

#[test]
fn raw_msr_erases_typed_representation() {
    let RawMsr(target_value) = RawMsr::take(RawEfer::new(0x800));

    assert_eq!(target_value, 0x800);
}

#[test]
fn long_mode_requires_enable_and_sets_active_restore_state() {
    let inactive = LongModeEfer::new(Efer::RESET());
    let mut enabled = Efer::RESET();

    enabled.lme_mut(State::Raised);

    let active = LongModeEfer::new(enabled);
    let raw = active.map(LongModeEfer::raw);

    assert_eq!(inactive, None);
    assert_eq!(raw.map(RawEfer::raw), Some(0x500));
}

#[test]
fn semantic_mutation_excludes_lma() {
    let mut efer = Efer::RESET();

    efer.sce_mut(State::Raised);
    efer.lme_mut(State::Raised);
    efer.nxe_mut(State::Raised);

    assert_eq!(efer.sce(), State::Raised);
    assert_eq!(efer.lme(), State::Raised);
    assert_eq!(efer.lma(), State::Cleared);
    assert_eq!(efer.nxe(), State::Raised);
}

#[test]
fn raw_efer_preserves_processor_owned_state() {
    let mut target_value = RawEfer::new(u64::MAX);

    target_value.lma_mut(State::Cleared);

    assert_eq!(target_value.lma(), State::Cleared);
    assert_eq!(target_value.raw(), u64::MAX & !(1 << 10));
}

#[test]
fn register_index_matches_architecture() {
    assert_eq!(<RawEfer as Msr>::address(), 0xC000_0080);
}

#[test]
fn config_lowers_without_representation_leaks() {
    let handler = La::new::<La48>(0xffff_ffff_8000_1000).expect("fixture handler page must be canonical");
    let config = FredConfig::new(handler, FredLevel::Zero).expect("page-aligned handler must configure FRED");
    let raw = config.raw();

    assert_eq!(config.handler(), handler);
    assert_eq!(config.interrupt(), FredLevel::Zero);
    assert_eq!(raw.level(), 0);
    assert_eq!(raw.interrupt(), 0);
    assert_eq!(raw.regular(), 0);
    assert_eq!(raw.shadow(), State::Cleared);
    assert_eq!(raw.reserved_2(), State::Cleared);
    assert_eq!(raw.reserved_4_5(), 0);
    assert_eq!(raw.reserved_11(), State::Cleared);

    let unaligned = La::new::<La48>(handler.bits() + 8).expect("fixture address remains canonical");

    assert!(FredConfig::new(unaligned, FredLevel::Zero).is_none());
}

#[test]
fn machine_safety_levels_lower_to_named_fields() {
    let levels = FredLevels::machine_safety();
    let raw = levels.raw();

    assert_eq!(levels.nmi(), FredLevel::One);
    assert_eq!(levels.df(), FredLevel::Two);
    assert_eq!(levels.mc(), FredLevel::Three);
    assert_eq!(raw.nmi(), FredLevel::One.raw());
    assert_eq!(raw.df(), FredLevel::Two.raw());
    assert_eq!(raw.mc(), FredLevel::Three.raw());
}

#[test]
fn regular_stacks_require_sixty_four_byte_alignment() {
    let aligned = La::new::<La48>(0xffff_ffff_8000_2040).expect("fixture stack top must be canonical");
    let unaligned = La::new::<La48>(aligned.bits() + 8).expect("fixture address remains canonical");
    let rsp = FredRsp1::new(aligned).expect("aligned FRED stack top must validate");

    assert_eq!(rsp.la(), aligned);
    assert_eq!(FredRsp1::lift::<La48>(rsp.raw()).map(FredRsp1::la), Some(aligned));
    assert!(FredRsp1::new(unaligned).is_none());
}

#[test]
fn raw_config_exposes_all_named_fields() {
    let mut target_value = RawFredConfig::new(u64::MIN);

    target_value.level_mut(FredLevel::Three.raw());
    target_value.reserved_2_mut(State::Raised);
    target_value.shadow_mut(State::Raised);
    target_value.reserved_4_5_mut(3);
    target_value.regular_mut(7);
    target_value.interrupt_mut(FredLevel::Two.raw());
    target_value.reserved_11_mut(State::Raised);
    target_value.handler_mut(1);

    assert_eq!(target_value.level(), FredLevel::Three.raw());
    assert_eq!(target_value.reserved_2(), State::Raised);
    assert_eq!(target_value.shadow(), State::Raised);
    assert_eq!(target_value.reserved_4_5(), 3);
    assert_eq!(target_value.regular(), 7);
    assert_eq!(target_value.interrupt(), FredLevel::Two.raw());
    assert_eq!(target_value.reserved_11(), State::Raised);
    assert_eq!(target_value.handler(), 1);
}

#[test]
fn fred_register_indices_match_architecture() {
    assert_eq!(<RawFredRsp0 as Msr>::address(), 0x1CC);
    assert_eq!(<RawFredRsp1 as Msr>::address(), 0x1CD);
    assert_eq!(<RawFredRsp2 as Msr>::address(), 0x1CE);
    assert_eq!(<RawFredRsp3 as Msr>::address(), 0x1CF);
    assert_eq!(<RawFredLevels as Msr>::address(), 0x1D0);
    assert_eq!(<RawFredSsp1 as Msr>::address(), 0x1D1);
    assert_eq!(<RawFredSsp2 as Msr>::address(), 0x1D2);
    assert_eq!(<RawFredSsp3 as Msr>::address(), 0x1D3);
    assert_eq!(<RawFredConfig as Msr>::address(), 0x1D4);
}

#[test]
fn segment_register_indices_match_architecture() {
    assert_eq!(<RawFsBase as Msr>::address(), 0xC000_0100);
    assert_eq!(<RawGsBase as Msr>::address(), 0xC000_0101);
    assert_eq!(<RawKernelGsBase as Msr>::address(), 0xC000_0102);
}

#[test]
fn star_encodes_proven_selector_families() {
    let kernel = SyscallSegments::new(code(1, PrivilegeLevel::Ring0), data(2, PrivilegeLevel::Ring0))
        .expect("adjacent kernel segments must validate");
    let user = SysretSegments::new(data(3, PrivilegeLevel::Ring3), code(4, PrivilegeLevel::Ring3))
        .expect("adjacent user segments must validate");
    let star = Star::new(kernel, user);

    assert_eq!(star.kernel(), 8);
    assert_eq!(star.user(), 16);

    let raw = star.raw();

    assert_eq!(raw.kernel(), 8);
    assert_eq!(raw.user(), 16);
}

#[test]
fn raw_star_preserves_arbitrary_images() {
    let raw = RawStar::new(u64::MAX);

    assert_eq!(raw.raw(), u64::MAX);
}

#[test]
fn segment_families_reject_nonadjacent_descriptors() {
    let kernel = SyscallSegments::new(code(1, PrivilegeLevel::Ring0), data(3, PrivilegeLevel::Ring0));
    let user = SysretSegments::new(data(3, PrivilegeLevel::Ring3), code(5, PrivilegeLevel::Ring3));

    assert_eq!(kernel, None);
    assert_eq!(user, None);
}

#[test]
fn syscall_register_indices_match_architecture() {
    assert_eq!(<RawStar as Msr>::address(), 0xC000_0081);
    assert_eq!(<RawLStar as Msr>::address(), 0xC000_0082);
    assert_eq!(<RawCStar as Msr>::address(), 0xC000_0083);
    assert_eq!(<RawFMask as Msr>::address(), 0xC000_0084);
}

#[test]
fn sysenter_cs_requires_adjacent_ring_zero_gdt_segments() {
    let valid = SysEnterCs::new(code(1, PrivilegeLevel::Ring0), data(2, PrivilegeLevel::Ring0));
    let invalid = SysEnterCs::new(code(1, PrivilegeLevel::Ring0), data(3, PrivilegeLevel::Ring0));

    assert_eq!(valid.map(|value| value.selector()), Some(8));
    assert_eq!(invalid, None);
}

#[test]
fn sysenter_register_indices_match_architecture() {
    assert_eq!(<RawSysEnterCs as Msr>::address(), 0x174);
    assert_eq!(<RawSysEnterSp as Msr>::address(), 0x175);
    assert_eq!(<RawSysEnterIp as Msr>::address(), 0x176);
}

#[test]
fn xfd_registers_share_component_storage_without_losing_identity() {
    let mut xfd = RawXfd::EMPTY();
    let mut error = RawXfdErr::EMPTY();

    xfd.components_mut().component_mut::<18>(State::Raised);
    error.components_mut().component_mut::<18>(State::Raised);

    assert_eq!(xfd.components().component::<18>(), State::Raised);
    assert_eq!(error.components().component::<18>(), State::Raised);
    assert_eq!(xfd.raw(), 1 << 18);
    assert_eq!(error.raw(), 1 << 18);
}

#[test]
fn xss_named_views_preserve_unknown_components() {
    let mut xss = RawXss::new(1 << 63);

    xss.cet_supervisor_mut(State::Raised);
    xss.lbr_mut(State::Raised);

    assert_eq!(xss.cet_supervisor(), State::Raised);
    assert_eq!(xss.lbr(), State::Raised);
    assert_eq!(xss.hdc(), State::Cleared);
    assert_eq!(xss.components().component::<63>(), State::Raised);
}

#[test]
fn xstate_msr_layout_and_indices_match_architecture() {
    assert_eq!(std::mem::size_of::<RawXfd>(), std::mem::size_of::<u64>());
    assert_eq!(std::mem::align_of::<RawXfd>(), std::mem::align_of::<u64>());
    assert_eq!(std::mem::size_of::<RawXfdErr>(), std::mem::size_of::<u64>());
    assert_eq!(std::mem::align_of::<RawXfdErr>(), std::mem::align_of::<u64>());
    assert_eq!(std::mem::size_of::<RawXss>(), std::mem::size_of::<u64>());
    assert_eq!(std::mem::align_of::<RawXss>(), std::mem::align_of::<u64>());

    assert_eq!(<RawXfd as Msr>::address(), 0x1C4);
    assert_eq!(<RawXfdErr as Msr>::address(), 0x1C5);
    assert_eq!(<RawXss as Msr>::address(), 0xDA0);
}

#[test]
fn data_segments_expose_their_selector() {
    let segment = data(2, PrivilegeLevel::Ring3);

    assert_eq!(segment.index().raw(), 2);
    assert_eq!(*segment.privilege(), PrivilegeLevel::Ring3);
    assert_eq!(segment.raw().raw(), 0x13);
}
