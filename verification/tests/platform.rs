use nekor_aal::cache::padded::CachePadded;
use nekor_aal::feature::x86::{Cpuid, CpuidReg, Cached, Eax, Ebx, Ecx, Edx, Output, Store, CpuidField};
use nekor_aal::feature::x86::qualified::{Avx2, Lzcnt, Sse2, XSave};
use nekor_aal::feature::{Feature, Present, Signal};
use nekor_aal::arch::x86::cpuid::CpuidResult;
use nekor_aal::arch::x86_64::paging::address::{La, La48};
use nekor_aal::bits::State;

struct Unknown;

impl Feature for Unknown {}

struct Baseline;

impl Feature for Baseline {
    const PREDETERMINED: Option<Signal> = Some(Signal::Guaranteed(Present::Yes));
}

#[test]
fn presence_combines_as_a_conjunction() {
    assert_eq!(Present::Yes.and(Present::Yes), Present::Yes);
    assert_eq!(Present::Yes.and(Present::No), Present::No);
    assert_eq!(Present::No.and(Present::Yes), Present::No);
    assert_eq!(Present::No.and(Present::No), Present::No);
}

#[test]
fn signals_keep_their_source() {
    assert_eq!(Signal::forced::<true>(), Signal::Guaranteed(Present::Yes));
    assert_eq!(Signal::forced::<false>(), Signal::Guaranteed(Present::No));
    assert_eq!(Signal::unknown(), Signal::Guaranteed(Present::No));
    assert_eq!(Signal::state(State::Raised), Signal::Detected(Present::Yes));
    assert_eq!(Signal::state(State::Cleared), Signal::Detected(Present::No));

    let guaranteed = Signal::forced::<true>();
    let detected = Signal::state(State::Raised);

    assert_eq!(guaranteed.and(guaranteed), Signal::Guaranteed(Present::Yes));
    assert_eq!(guaranteed.and(detected), Signal::Detected(Present::Yes));
    assert_eq!(detected.and(Signal::unknown()), Signal::Detected(Present::No));
    assert!(detected.is(Present::Yes));
    assert!(!detected.is(Present::No));
    assert!(Signal::unknown().is(Present::No));
}

#[test]
fn features_default_to_their_baseline() {
    assert_eq!(Unknown::supported(), Signal::Guaranteed(Present::No));
    assert_eq!(Baseline::supported(), Signal::Guaranteed(Present::Yes));
}

#[test]
fn cpuid_registers_are_picked_by_name() {
    let result = CpuidResult { eax: 1, ebx: 2, ecx: 3, edx: 4 };

    assert_eq!(Eax::grab(&result), 1);
    assert_eq!(Ebx::grab(&result), 2);
    assert_eq!(Ecx::grab(&result), 3);
    assert_eq!(Edx::grab(&result), 4);
    assert_eq!(CpuidReg::<Edx, 1, 0>::of(&result).0, 4);
}

#[test]
fn cpuid_queries_run_on_the_host() {
    let Cpuid(vendor) = Cpuid::<0, 0>::unconditional();
    assert!(vendor.eax >= 1);
    assert!(Cpuid::<0, 0>::cached().is_none());
    let CpuidReg(max_leaf, ..) = CpuidReg::<Eax, 0, 0>::lazy();
    assert_eq!(max_leaf, vendor.eax);
    assert_eq!(Sse2::supported(), Signal::Detected(Present::Yes));
    assert!(matches!(XSave::supported(), Signal::Detected(_)));
}

#[test]
fn cache_padding_wraps_its_value() {
    let base = La::new::<La48>(0x1000).unwrap();
    let mut padded = CachePadded::new(base);

    assert_eq!(*padded.as_ref(), base);
    *padded.as_mut() = La::new::<La48>(0x2000).unwrap();
    assert_eq!(padded.bits(), 0x2000);
    assert_eq!(padded.unwrap().bits(), 0x2000);
}

fn record<const LEAF: u32, const SUBLEAF: u32>(eax: u32, ebx: u32, ecx: u32, edx: u32) -> Cpuid<LEAF, SUBLEAF> {
    Cpuid(CpuidResult { eax, ebx, ecx, edx })
}

#[test]
fn detection_reads_the_named_register_and_bit() {
    let xsave_only = record::<0x01, 0x00>(0, 0, 1 << 26, 0);
    assert_eq!(XSave::detect(&xsave_only), Signal::Detected(Present::Yes));
    assert_eq!(Sse2::detect(&xsave_only), Signal::Detected(Present::No));
    let sse2_only = record::<0x01, 0x00>(1 << 26, 1 << 26, 0, 1 << 26);
    assert_eq!(XSave::detect(&sse2_only), Signal::Detected(Present::No));
    assert_eq!(Sse2::detect(&sse2_only), Signal::Detected(Present::Yes));
    let avx2 = record::<0x07, 0x00>(0, 1 << 5, 0, 0);
    assert_eq!(Avx2::detect(&avx2), Signal::Detected(Present::Yes));
    assert_eq!(Avx2::detect(&record::<0x07, 0x00>(!0, !(1 << 5), !0, !0)), Signal::Detected(Present::No));
    assert_eq!(Lzcnt::detect(&record::<0x80000001, 0x00>(0, 0, 1 << 5, 0)), Signal::Detected(Present::Yes));
    assert_eq!(Lzcnt::detect(&record::<0x80000001, 0x00>(1 << 5, 1 << 5, 0, 1 << 5)), Signal::Detected(Present::No));
}

#[test]
fn a_store_keeps_the_first_output() {
    let mut store = Store::empty();
    assert_eq!(store.cached(), None);
    assert_eq!(store.fill(7u32), 7);
    assert_eq!(store.cached(), Some(7));
    assert_eq!(store.fill(9), 7);
    assert_eq!(store.cached(), Some(7));
}

#[test]
fn cpuid_fields_read_an_inclusive_bit_range() {
    let register = CpuidReg::<Eax, 0x01, 0x00>::of(&CpuidResult { eax: 0x000a_06a4, ebx: 0, ecx: 0, edx: 0 });
    assert_eq!(CpuidField::<0, 3, Eax, 0x01, 0x00>::of(&register), 0x4);
    assert_eq!(CpuidField::<4, 7, Eax, 0x01, 0x00>::of(&register), 0xa);
    assert_eq!(CpuidField::<8, 11, Eax, 0x01, 0x00>::of(&register), 0x6);
    assert_eq!(CpuidField::<16, 19, Eax, 0x01, 0x00>::of(&register), 0xa);
    assert_eq!(CpuidField::<0, 31, Eax, 0x01, 0x00>::of(&register), 0x000a_06a4);
    assert_eq!(CpuidField::<5, 4, Eax, 0x01, 0x00>::of(&register), 0);
    assert_eq!(CpuidField::<0, 32, Eax, 0x01, 0x00>::of(&register), 0);
}
