use nekor_aal::agnostic::opaque::Opaque;
use nekor_aal::agnostic::partitioned::Partitioned;
use nekor_aal::agnostic::rel_ptr::{RelPtr, RelPtrMut};
use nekor_aal::agnostic::reserved::Reserved;
use nekor_aal::agnostic::swap::Swap;

#[test]
fn reserved_storage_matches_the_wrapped_layout() {
    assert_eq!(std::mem::size_of::<Reserved<u32>>(), std::mem::size_of::<u32>());
    assert_eq!(std::mem::align_of::<Reserved<u32>>(), std::mem::align_of::<u32>());
}

#[test]
fn partitions_split_and_rebuild_a_whole() {
    let whole: u64 = 0x0123_4567_89ab_cdef;
    let low = Partitioned::<0, 31>::away(whole);
    let high = Partitioned::<32, 63>::away(whole);

    assert_eq!(*low.value(), 0x89ab_cdef);
    assert_eq!(*high.value(), 0x0123_4567);

    let mut rebuilt = 0u64;
    let _ = low.merge(&mut rebuilt);
    assert_eq!(high.merge(&mut rebuilt), whole);

    let mut target = u64::MAX;
    assert_eq!(Partitioned::<8, 15>::raw(0).merge(&mut target), u64::MAX & !0xff00);
    assert_eq!(Partitioned::<8, 15>::raw(0x1ff).merge(&mut target), u64::MAX);
}

#[test]
fn relative_pointers_survive_moving_with_their_target() {
    let pointer = RelPtr::<u64>::new(0x1000, 0x1800);

    assert_eq!(pointer.base(0x1000), 0x1800);
    assert_eq!(pointer.base(0x5000), 0x5800);

    let backwards = RelPtrMut::<u64>::new(0x2000, 0x10);
    let copy = backwards;

    assert_eq!(copy.base(0x2000), 0x10);
    assert_eq!(backwards.base(usize::MAX), 0x10usize.wrapping_sub(0x2000).wrapping_add(usize::MAX));
}

#[test]
fn swap_chain_activates_the_prepared_slot() {
    let mut chain = Swap::chain(1u32);

    assert_eq!(*chain.active(), 1);
    assert_eq!(*chain.inactive(), None);

    *chain.inactive_mut() = Some(2);
    assert_eq!(*chain.active(), 1);

    assert_eq!(*chain.now(), 2);
    assert_eq!(*chain.active(), 2);
    assert_eq!(*chain.inactive(), Some(1));
    assert_eq!(*chain.left(), Some(1));
    assert_eq!(*chain.right(), Some(2));

    *chain.active_mut() = 3;
    assert_eq!(*chain.right(), Some(3));
    *chain.left_mut() = Some(4);
    assert_eq!(*chain.now(), 4);
    *chain.right_mut() = None;
    assert_eq!(*chain.active(), 4);
}

#[test]
fn opaque_values_round_trip() {
    assert_eq!(Opaque::value(0x5au8).unwrap(), 0x5a);
}
