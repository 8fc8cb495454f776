use nekor_aal::arch::x86::descriptor::DescriptorIndex;
use nekor_aal::arch::x86::msr::efer::{Efer, LongModeEfer};
use nekor_aal::arch::x86_64::control::{Cr0, Cr3, Cr4, Cr8, LongModeControl, RawCr0, RawCr2, RawCr3, RawCr4, RawCr8};
use nekor_aal::arch::x86_64::descriptor::{
    GdtRegister, LongModeTssDescriptor, RawLongModeTssDescriptor, SUPERVISOR_CODE_INDEX, SUPERVISOR_DATA_INDEX,
    TASK_INDEX,
};
use nekor_aal::arch::x86_64::gate::GateType64;
use nekor_aal::arch::x86_64::paging::address::{La, La48, La48Page, La57, Pa};
use nekor_aal::arch::x86_64::paging::entry::{Pde, Pdpte, Pml4e, Pml5e, Pte};
use nekor_aal::arch::x86_64::paging::table::{PageTable, Pml4, Pml4Index, Pml5, Pml5Index, PtIndex};
use nekor_aal::arch::x86_64::register::{Base, Gpr, RawDr6, RawRflags, Rflags, Rip};
use nekor_aal::arch::x86_64::task::{
    IoPermission, IoPermissionMap, IoPort, RawInterruptStack, RawIoPermissionMap, RawPrivilegeStack,
    RawTaskStateSegmentBase, TaskIoMapBase, TaskRegisterSelector, TaskStackHigh, TaskStackLow, TaskStateSegment,
};
use nekor_aal::bits::State;

#[test]
fn control_register_transport_round_trips_trusted_images() {
    let raw_cr0 = RawCr0::take(Cr0::RESET());
    let RawCr0(cr0_bits) = raw_cr0;
    let raw_cr4 = RawCr4::take(Cr4::RESET());
    let RawCr4(cr4_bits) = raw_cr4;

    let cr0 = RawCr0(cr0_bits).restore();
    let cr4 = RawCr4(cr4_bits).restore();

    assert_eq!(cr0, Cr0::RESET());
    assert_eq!(cr4, Cr4::RESET());
}

#[test]
fn cr3_root_requires_page_alignment_and_round_trips() {
    let aligned = Pa::new(0x4000).and_then(Cr3::root_table);
    let unaligned = Pa::new(0x4123).and_then(Cr3::root_table);
    let restored = aligned.map(|cr3| {
        let raw = RawCr3::take(cr3);
        let RawCr3(bits) = raw;

        RawCr3(bits).restore()
    });

    assert_eq!(aligned.map(|cr3| cr3.root()), Some(4));
    assert_eq!(unaligned, None);
    assert_eq!(restored, aligned);
}

#[test]
fn long_mode_control_rejects_incomplete_control_state() {
    let cr3 = Pa::new(0x1000).and_then(Cr3::root_table);
    let mut efer = Efer::RESET();

    efer.lme_mut(State::Raised);

    let efer = LongModeEfer::new(efer);
    let inactive = match (cr3, efer) {
        (Some(cr3), Some(efer)) => LongModeControl::new(Cr0::RESET(), cr3, Cr4::RESET(), efer),
        _ => None,
    };
    let active = match (cr3, efer) {
        (Some(cr3), Some(efer)) => {
            let mut cr0 = Cr0::RESET();
            let mut cr4 = Cr4::RESET();

            cr0.flag_pe_mut(State::Raised);
            cr0.flag_pg_mut(State::Raised);
            cr4.flag_pae_mut(State::Raised);

            LongModeControl::new(cr0, cr3, cr4, efer)
        },
        _ => None,
    };

    assert_eq!(inactive, None);
    assert!(active.is_some(), "complete long-mode control state must validate");
    let active = active.unwrap();
    assert_eq!(active.cr0().flag_pg(), State::Raised);
    assert_eq!(active.cr4().flag_pae(), State::Raised);
    assert_eq!(active.cr3(), cr3.unwrap());
    assert_eq!(active.efer(), efer.unwrap());
}

#[test]
fn control_register_fields_are_independent_named_views() {
    let mut cr0 = Cr0::RESET();
    let mut cr4 = Cr4::RESET();

    cr0.flag_pe_mut(State::Raised);
    cr0.flag_pg_mut(State::Raised);
    cr4.flag_pae_mut(State::Raised);
    cr4.flag_osfxsr_mut(State::Raised);
    cr4.flag_osxmmexcpt_mut(State::Raised);
    cr4.flag_fsgsbase_mut(State::Raised);
    cr4.flag_la57_mut(State::Raised);

    assert_eq!(cr0.flag_pe(), State::Raised);
    assert_eq!(cr0.flag_pg(), State::Raised);
    assert_eq!(cr0.flag_wp(), State::Cleared);
    assert_eq!(cr4.flag_pae(), State::Raised);
    assert_eq!(cr4.flag_pge(), State::Cleared);
    assert_eq!(cr4.flag_osfxsr(), State::Raised);
    assert_eq!(cr4.flag_osxmmexcpt(), State::Raised);
    assert_eq!(cr4.flag_fsgsbase(), State::Raised);
    assert_eq!(cr4.flag_la57(), State::Raised);
}

#[test]
fn reserved_cr0_fields_have_no_mutable_architectural_api() {
    let cr0 = Cr0::RESET();

    assert_eq!(cr0.flag_et(), State::Raised);
    assert_eq!(cr0.reserved_6_15(), 0);
    assert_eq!(cr0.flag_reserved17(), State::Cleared);
    assert_eq!(cr0.flag_nw(), State::Raised);
    assert_eq!(cr0.flag_cd(), State::Raised);
    assert_eq!(cr0.reserved_19_28(), 0);
    assert_eq!(cr0.reserved_32_63(), 0);
}

#[test]
fn control_register_reset_images_are_architectural() {
    assert_eq!(RawCr0::take(Cr0::RESET()).0, 0x6000_0010);
    assert_eq!(RawCr4::take(Cr4::RESET()).0, 0);
    assert_eq!(RawCr8::take(Cr8::RESET()).0, 0);

    let mut cr8 = Cr8::RESET();
    cr8.task_priority_mut(0xf);
    assert_eq!(cr8.task_priority(), 0xf);
    assert_eq!(cr8.reserved_4_63(), 0);
    assert_eq!(RawCr8::take(cr8).0, 0xf);

    let cr2 = RawCr2(0xdead_beef_0000).restore();
    assert_eq!(cr2.linear_address(), 0xdead_beef_0000);
    assert_eq!(RawCr2::take(cr2).0, 0xdead_beef_0000);
}

#[test]
fn cr3_named_fields_share_the_root_image() {
    let mut cr3 = Pa::new(0x7000).and_then(Cr3::root_table).unwrap();

    cr3.pcid_mut(0x123);
    cr3.flag_no_flush_mut(State::Raised);

    assert_eq!(cr3.pcid(), 0x123);
    assert_eq!(cr3.root(), 7);
    assert_eq!(cr3.flag_no_flush(), State::Raised);
    assert_eq!(cr3.reserved_52_60(), 0);
    assert_eq!(RawCr3::take(cr3).0, (1 << 63) | 0x7000 | 0x123);
}

#[test]
fn descriptor_table_register_tracks_architectural_limit() {
    let base = La::new::<La48>(0x6000).expect("test table base must be canonical");
    let smallest = GdtRegister::fit(base, 1).expect("one byte table must fit");
    let largest = GdtRegister::fit(base, 0x0001_0000).expect("maximum table must fit");

    assert_eq!(smallest.base(), base);
    assert_eq!(smallest.limit(), 0);
    assert_eq!(largest.limit(), u16::MAX);
    assert!(GdtRegister::fit(base, 0x0001_0001).is_none());
}

#[test]
fn long_mode_tss_descriptor_matches_the_architectural_layout() {
    let base = La::new::<La48>(0x1234_5678).expect("test TSS base must be canonical");
    let state = TaskStateSegment::<0>::new();
    let raw = state.raw();
    let descriptor =
        LongModeTssDescriptor::new(base, &raw).expect("bare TSS extent must fit the architectural descriptor limit");

    assert_eq!(descriptor.limit_low(), 0x67);
    assert_eq!(descriptor.limit_high(), 0);
    assert_eq!(descriptor.base_low(), 0x5678);
    assert_eq!(descriptor.base_middle(), 0x34);
    assert_eq!(descriptor.base_high(), 0x12);
    assert_eq!(descriptor.base_upper(), 0);
    assert_eq!(descriptor.descriptor_type(), 9);
    assert_eq!(descriptor.privilege(), 0);
    assert_eq!(descriptor.present(), State::Raised);

    let raw = descriptor.raw();

    assert_eq!(raw.to_bytes().len(), 16);
    assert_eq!(raw.to_bytes(), [0x67, 0, 0x78, 0x56, 0x34, 0x89, 0, 0x12, 0, 0, 0, 0, 0, 0, 0, 0]);
}

#[test]
fn raw_tss_descriptor_exposes_named_mutable_fields() {
    let mut descriptor = RawLongModeTssDescriptor::new(u64::MIN, u64::MIN);

    descriptor.limit_low_mut(0x1234);
    descriptor.base_low_mut(0x5678);
    descriptor.base_middle_mut(0x9a);
    descriptor.descriptor_type_mut(0x9);
    descriptor.privilege_mut(0x3);
    descriptor.present_mut(State::Raised);
    descriptor.limit_high_mut(0xb);
    descriptor.base_high_mut(0xcd);
    descriptor.base_upper_mut(0x1234_5678);

    assert_eq!(descriptor.limit_low(), 0x1234);
    assert_eq!(descriptor.base_low(), 0x5678);
    assert_eq!(descriptor.base_middle(), 0x9a);
    assert_eq!(descriptor.descriptor_type(), 0x9);
    assert_eq!(descriptor.privilege(), 0x3);
    assert_eq!(descriptor.present(), State::Raised);
    assert_eq!(descriptor.limit_high(), 0xb);
    assert_eq!(descriptor.base_high(), 0xcd);
    assert_eq!(descriptor.base_upper(), 0x1234_5678);
}

#[test]
fn long_mode_tss_descriptor_includes_the_io_map_extent() {
    let base = La::new::<La48>(0x1234_5678).expect("test TSS base must be canonical");
    let state = TaskStateSegment::<3>::new();
    let raw = state.raw();
    let descriptor =
        LongModeTssDescriptor::new(base, &raw).expect("small I/O map must fit the architectural descriptor limit");

    assert_eq!(&descriptor.raw().to_bytes()[..2], [0x6a, 0]);
}

#[test]
fn gdt_layout_indices_are_fixed() {
    assert_eq!(SUPERVISOR_CODE_INDEX().raw(), 1);
    assert_eq!(SUPERVISOR_DATA_INDEX().raw(), 2);
    assert_eq!(TASK_INDEX().raw(), 3);
    assert_eq!(GateType64::Interrupt.raw(), 0x0E);
    assert_eq!(GateType64::Trap.raw(), 0x0F);
}

#[test]
fn physical_addresses_respect_the_architectural_entry_envelope() {
    let maximum = Pa::new((1_u64 << 52) - 1);
    let outside = Pa::new(1_u64 << 52);

    assert!(maximum.is_some());
    assert!(outside.is_none());
}

#[test]
fn construction_validates_the_selected_linear_address_mode() {
    let la48 = La::new::<La48>(0xffff_8abc_def1_2345);
    let la57_only = La::new::<La57>(0x00ff_8abc_def1_2345);
    let invalid_la57 = La::new::<La57>(0x01ff_8abc_def1_2345);
    let la57_under_la48 = la57_only.map(La::is_canonical::<La48>);

    assert!(la48.is_some());
    assert!(la57_only.is_some());
    assert!(invalid_la57.is_none());
    assert_eq!(la57_under_la48, Some(false));
}

#[test]
fn la48_page_rejects_unaligned_and_la57_only_addresses() {
    let aligned = La48Page::raw(0xffff_ffff_8000_1000);
    let unaligned = La48Page::raw(0xffff_ffff_8000_1001);
    let la57_only = La::new::<La57>(0x00ff_8000_0000_0000).and_then(La48Page::new);

    assert_eq!(aligned.map(La48Page::bits), Some(0xffff_ffff_8000_1000));
    assert!(unaligned.is_none());
    assert!(la57_only.is_none());
}

#[test]
fn linear_address_fields_cover_the_five_level_walk() {
    let fields = La::new::<La57>(0x00f2_7abc_def1_2345).map(|address| {
        (
            address.pml5_index(),
            address.pml4_index(),
            address.pdpt_index(),
            address.page_directory_index(),
            address.page_table_index(),
            address.offset_4kib(),
        )
    });

    assert_eq!(fields, Some((0xf2, 0xf5, 0xf3, 0xf7, 0x112, 0x345)));
}

#[test]
fn empty_entries_are_architecturally_non_present() {
    assert_eq!(Pml5e::empty().present(), State::Cleared);
    assert_eq!(Pml4e::empty().present(), State::Cleared);
    assert_eq!(Pdpte::empty().present(), State::Cleared);
    assert_eq!(Pde::empty().present(), State::Cleared);
    assert_eq!(Pte::empty().present(), State::Cleared);
}

#[test]
fn table_pointer_constructor_sets_presence_and_frame() {
    let fields = Pa::new(0x2000).and_then(Pml4e::table).map(|entry| (entry.present(), entry.address()));

    assert_eq!(fields, Some((State::Raised, 2)));
}

#[test]
fn large_leaf_constructors_select_the_correct_level_shape() {
    let two_mib = Pa::new(0x3fe0_0000)
        .and_then(Pde::page_2mib)
        .map(|entry| (entry.page_size(), entry.page_address(), entry.reserved_2mib()));
    let one_gib = Pa::new(0x4000_0000)
        .and_then(Pdpte::page_1gib)
        .map(|entry| (entry.page_size(), entry.page_address(), entry.reserved_1gib()));

    assert_eq!(two_mib, Some((State::Raised, 0x1ff, 0)));
    assert_eq!(one_gib, Some((State::Raised, 1, 0)));
}

#[test]
fn paging_entry_byte_transport_matches_hardware_layout() {
    let pml4 = Pa::new(0x2000).and_then(Pml4e::table).map(Pml4e::to_le_bytes);
    let pdpt = Pa::new(0x3000).and_then(Pdpte::table).map(Pdpte::to_le_bytes);
    let page = Pa::new(0).and_then(Pde::page_2mib).map(Pde::to_le_bytes);

    assert_eq!(pml4, Some(0x2001_u64.to_le_bytes()));
    assert_eq!(pdpt, Some(0x3001_u64.to_le_bytes()));
    assert_eq!(page, Some(0x81_u64.to_le_bytes()));
}

#[test]
fn leaf_construction_rejects_misaligned_addresses() {
    let entry = Pa::new(0x20_1000).and_then(Pde::page_2mib);

    assert_eq!(entry, None);
}

#[test]
fn leaf_entries_keep_independent_attribute_fields() {
    let mut pte = Pa::new(0x5000).and_then(Pte::page_4kib).unwrap();

    pte.writable_mut(State::Raised);
    pte.no_execute_mut(State::Raised);
    pte.protection_key_mut(0xa);
    pte.page_attribute_table_mut(State::Raised);

    assert_eq!(pte.address(), 5);
    assert_eq!(pte.writable(), State::Raised);
    assert_eq!(pte.protection_key(), 0xa);
    assert_eq!(pte.to_le_bytes(), ((1u64 << 63) | (0xa << 59) | 0x5000 | 0x83).to_le_bytes());
    assert!(Pa::new(0x5001).and_then(Pte::page_4kib).is_none());
}

#[test]
fn linear_address_indices_select_the_matching_hardware_levels() {
    let state = La::new::<La57>(0x00f2_7abc_def1_2345).map(|address| {
        let pml5_index = Pml5Index::from_address(&address);
        let pml4_index = Pml4Index::from_address(&address);
        let pml5 = Pa::new(0x4000).and_then(Pml5e::table).map(|entry| {
            let mut table = Pml5::empty();

            *table.index_mut(pml5_index) = entry;

            (table.index(pml5_index).present(), table.index(pml5_index).address())
        });
        let pml4 = Pa::new(0x8000).and_then(Pml4e::table).map(|entry| {
            let mut table = Pml4::empty();

            *table.index_mut(pml4_index) = entry;

            (table.index(pml4_index).present(), table.index(pml4_index).address())
        });

        (pml5, pml4)
    });

    assert_eq!(state, Some((Some((State::Raised, 4)), Some((State::Raised, 8)))));
}

#[test]
fn table_indices_are_bounded_to_one_page() {
    assert!(PtIndex::new(511).is_some());
    assert!(PtIndex::new(512).is_none());

    let mut table = PageTable::empty();
    let entry = Pa::new(0x9000).and_then(Pte::page_4kib).unwrap();
    *table.index_mut(PtIndex::new(511).unwrap()) = entry;

    assert_eq!(table.entries()[511], entry);
    assert_eq!(table.entries()[510], Pte::empty());
    table.entries_mut()[0] = entry;
    assert_eq!(*table.index(PtIndex::new(0).unwrap()), entry);
}

#[test]
fn dr6_views_preserve_named_debug_state() {
    let bits = 1 | (1 << 11) | (1 << 13) | (1 << 14) | (1 << 15) | (1 << 16);
    let dr6 = RawDr6::new(bits);

    assert_eq!(dr6.b0(), State::Raised);
    assert_eq!(dr6.bld(), State::Raised);
    assert_eq!(dr6.bd(), State::Raised);
    assert_eq!(dr6.bs(), State::Raised);
    assert_eq!(dr6.bt(), State::Raised);
    assert_eq!(dr6.rtm(), State::Raised);
    assert_eq!(dr6.b1(), State::Cleared);

    assert_eq!(dr6.raw(), bits);
}

#[test]
fn instruction_pointer_preserves_complete_register_image() {
    let rip = Rip::new(0xffff_ffff_ffff_fff0);

    assert_eq!(rip.unwrap(), 0xffff_ffff_ffff_fff0);
}

#[test]
fn rflags_transport_round_trips_trusted_images() {
    let raw = RawRflags::take(Rflags::RESET());
    let RawRflags(bits) = raw;

    assert_eq!(bits, 2);

    let restored = RawRflags(bits).restore();

    assert_eq!(restored, Rflags::RESET());
}

#[test]
fn rflags_reset_models_reserved_bit_one_explicitly() {
    let flags = Rflags::RESET();

    assert_eq!(flags.flag_reserved(), State::Raised);
    assert_eq!(flags.flag_cf(), State::Cleared);
    assert_eq!(flags.flag_pf(), State::Cleared);
}

#[test]
fn rflags_flags_and_iopl_keep_the_fixed_bit() {
    let mut flags = Rflags::RESET();

    flags.flag_if_mut(State::Raised);
    flags.field_iopl_mut(3);
    flags.flag_id_mut(State::Raised);

    assert_eq!(flags.field_iopl(), 3);
    assert_eq!(RawRflags::take(flags).0, 2 | (1 << 9) | (3 << 12) | (1 << 21));
}

#[test]
fn general_purpose_register_views_overlap_as_the_architecture_defines() {
    let mut rax = Gpr::new(0x1122_3344_5566_7788);

    assert_eq!(rax.low8(), 0x88);
    assert_eq!(rax.high8(), 0x77);
    assert_eq!(rax.val16(), 0x7788);
    assert_eq!(rax.val32(), 0x5566_7788);
    assert_eq!(rax.val64(), 0x1122_3344_5566_7788);

    rax.high8_mut(0xab);
    assert_eq!(rax.unwrap(), 0x1122_3344_5566_ab88);
    rax.val32_mut(0xdead_beef);
    assert_eq!(rax.unwrap(), 0x1122_3344_dead_beef);

    let mut base = Base::new(0);
    base.val64_mut(u64::MAX);
    base.low8_mut(0);
    assert_eq!(base.unwrap(), u64::MAX & !0xff);
}

#[test]
fn raw_task_state_layout_and_stacks_round_trip() {
    let ring0 = La::new::<La48>(0x8000).expect("ring-zero stack must be canonical");
    let ist = La::new::<La48>(0x9000).expect("interrupt stack must be canonical");
    let mut state = TaskStateSegment::<0>::new();

    *state.rsp0_mut() = ring0;
    *state.ist0_mut() = ist;

    let raw = state.raw();
    let base = raw.base();
    let bytes = base.to_bytes();

    assert_eq!(bytes.len(), 104);
    assert_eq!(raw.to_bytes().len(), 104);
    assert_eq!(&bytes[4..12], &0x8000_u64.to_le_bytes());
    assert_eq!(&bytes[36..44], &0x9000_u64.to_le_bytes());
    assert_eq!(&bytes[102..104], &104_u16.to_le_bytes());
    assert_eq!(base.rsp0().lift(), Some(ring0));
    assert_eq!(base.ist0().lift(), Some(ist));
    assert_eq!(base.io_map_base().raw(), 104);
}

#[test]
fn raw_task_state_base_preserves_reserved_storage() {
    let stack = RawPrivilegeStack::new(TaskStackLow::raw(0), TaskStackHigh::raw(0));
    let interrupt = RawInterruptStack::new(TaskStackLow::raw(0), TaskStackHigh::raw(0));
    let raw = RawTaskStateSegmentBase::new(
        0x89ab_cdef,
        stack,
        stack,
        stack,
        [0x0123_4567, 0x7654_3210],
        interrupt,
        interrupt,
        interrupt,
        interrupt,
        interrupt,
        interrupt,
        interrupt,
        [0xa5a5_5a5a, 0x5a5a_a5a5],
        0xc3d4,
        TaskIoMapBase::new(104),
    );

    let bytes = raw.to_bytes();

    assert_eq!(bytes.len(), 104);
    assert_eq!(&bytes[0..4], &0x89ab_cdef_u32.to_le_bytes());
    assert_eq!(&bytes[28..32], &0x0123_4567_u32.to_le_bytes());
    assert_eq!(&bytes[32..36], &0x7654_3210_u32.to_le_bytes());
    assert_eq!(&bytes[92..96], &0xa5a5_5a5a_u32.to_le_bytes());
    assert_eq!(&bytes[96..100], &0x5a5a_a5a5_u32.to_le_bytes());
    assert_eq!(&bytes[100..102], &0xc3d4_u16.to_le_bytes());
    assert_eq!(&bytes[102..104], &104_u16.to_le_bytes());
    assert_eq!(raw.io_map_base().raw(), 104);
    assert_eq!(raw.rsp2().lift(), La::new::<La48>(0));
    assert_eq!(raw.ist6().lift(), La::new::<La48>(0));
}

#[test]
fn io_map_extent_is_const_generic() {
    let state = TaskStateSegment::<3>::new();
    let raw = state.raw();

    let bytes = raw.to_bytes();

    assert_eq!(bytes.len(), 107);
    assert_eq!(&bytes[104..], &[u8::MAX; 3]);
    assert_eq!(raw.io_map().raw(), &[u8::MAX; 3]);
    assert_eq!(raw.limit(), Some(106));
}

#[test]
fn io_map_lift_requires_an_all_ones_terminator() {
    let absent = RawIoPermissionMap::new([]);
    let valid = RawIoPermissionMap::new([0, 0, u8::MAX]);
    let invalid = RawIoPermissionMap::new([0, 0, 0]);

    assert!(IoPermissionMap::lift(absent).is_some());
    assert!(IoPermissionMap::lift(valid).is_some());
    assert!(IoPermissionMap::lift(invalid).is_none());
}

#[test]
fn io_map_uses_port_permissions_and_preserves_the_terminator() {
    let mut state = TaskStateSegment::<3>::new();
    let port = IoPort::new(9);

    assert_eq!(state.io_map().capacity(), 16);
    assert_eq!(state.io_map().permission(port), Some(IoPermission::Denied));
    assert_eq!(state.io_map_mut().permit(port), Some(()));
    assert_eq!(state.io_map().permission(port), Some(IoPermission::Permitted));
    assert_eq!(state.io_map_mut().deny(port), Some(()));
    assert_eq!(state.io_map().permission(port), Some(IoPermission::Denied));
    assert_eq!(state.io_map().permission(IoPort::new(16)), None);

    let raw = state.raw();

    assert_eq!(raw.io_map().raw().last(), Some(&u8::MAX));
}

#[test]
fn io_map_updates_touch_only_the_named_port() {
    let mut map = IoPermissionMap::<4>::new();

    assert_eq!(map.permit(IoPort::new(0)), Some(()));
    assert_eq!(map.permit(IoPort::new(23)), Some(()));
    assert_eq!(map.permit(IoPort::new(24)), None);
    assert_eq!(map.raw().raw(), &[0xfe, 0xff, 0x7f, 0xff]);
    assert_eq!(map.permission(IoPort::new(1)), Some(IoPermission::Denied));
    assert_eq!(map.deny(IoPort::new(0)), Some(()));
    assert_eq!(map.raw().raw(), &[0xff, 0xff, 0x7f, 0xff]);

    let mut empty = IoPermissionMap::<0>::new();
    assert_eq!(empty.capacity(), 0);
    assert_eq!(empty.permit(IoPort::new(0)), None);
    assert_eq!(IoPermissionMap::<1>::new().permission(IoPort::new(0)), None);
}

#[test]
fn la57_only_stack_pointer_round_trips() {
    let pointer = La::new::<La57>(0x0001_0000_0000_0000).expect("test pointer must be LA57 canonical");

    assert!(!pointer.is_canonical::<La48>());

    let mut state = TaskStateSegment::<0>::new();

    *state.rsp0_mut() = pointer;

    let raw = state.raw();

    assert_eq!(*state.rsp0(), pointer);
    assert_eq!(raw.base().rsp0().lift(), Some(pointer));
}

#[test]
fn task_register_selector_names_ring_zero_gdt_entries() {
    let selector = TaskRegisterSelector::lift(0x18).expect("GDT entry three at ring zero");

    assert_eq!(selector.index().raw(), 3);
    assert_eq!(selector.raw(), 0x18);
    assert!(TaskRegisterSelector::lift(0x1b).is_none());
    assert!(TaskRegisterSelector::lift(0x1c).is_none());
    assert!(TaskRegisterSelector::lift(0x0).is_none());
    assert_eq!(TaskRegisterSelector::new(DescriptorIndex::lift(5).unwrap()).raw(), 0x28);
}
