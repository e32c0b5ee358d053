use atomicvec::AtomicVec;
use atomicvec::error::{TryReserveError, VecFull};

/// A freshly constructed container is empty and reports the requested
/// capacity.
#[test]
fn fresh_container() {
    let vec = AtomicVec::<u8>::new(7);
    assert_eq!(vec.len(), 0);
    assert!(vec.is_empty());
    assert_eq!(vec.capacity(), 7);
    assert_eq!(vec.as_slice(), &[] as &[u8]);

    let vec = AtomicVec::<String>::try_new(0).unwrap();
    assert_eq!(vec.len(), 0);
    assert_eq!(vec.capacity(), 0);
}

/// Each push grows the length by exactly one and appends at the end: the
/// contents are always the pushed values so far, in order.
#[test]
fn push_prefix_property() {
    let mut vec = AtomicVec::new(8);
    let mut pushed: Vec<u32> = Vec::new();
    let mut guard = vec.lock().unwrap();
    for value in [4u32, 11, 0, 4, 99, 7] {
        let before = guard.len();
        guard.push(value);
        pushed.push(value);
        assert_eq!(guard.len(), before + 1);
        assert_eq!(guard.as_slice(), pushed.as_slice());
    }
}

/// Capacity 5, pushing five values fills the container; a further push is
/// refused and the length stays 5.
#[test]
fn scenario_full_container() {
    let mut vec = AtomicVec::new(5);
    let mut guard = vec.lock().unwrap();
    for i in 0..5 {
        guard.push(i);
    }
    assert_eq!(guard.len(), 5);
    assert!(guard.is_full());
    assert_eq!(guard.as_slice(), &[0, 1, 2, 3, 4]);
    assert_eq!(guard.try_push(5), Err(VecFull));
    assert_eq!(guard.len(), 5);
    guard.unlock();
    assert_eq!(vec.len(), 5);
    assert_eq!(vec.as_slice(), &[0, 1, 2, 3, 4]);
}

/// Capacity 10 starting from [1, 2, 3]: already-written elements stay
/// readable and unchanged while a writer appends more.
#[test]
fn scenario_slow_writer() {
    let mut vec = AtomicVec::new(10);
    {
        let mut guard = vec.lock().unwrap();
        guard.extend(vec![1, 2, 3]);
    }
    let mut guard = vec.lock().unwrap();
    guard.push(4);
    assert!(guard.len() >= 3);
    assert_eq!(&guard.as_slice()[..3], &[1, 2, 3]);
    guard.push(5);
    guard.unlock();
    assert_eq!(vec.len(), 5);
    assert_eq!(&vec.as_slice()[3..], &[4, 5]);
}

/// A zero-sized element type accepts the platform's maximum count:
/// construction allocates nothing, the requested capacity is reported, and
/// pushes succeed.
#[test]
fn scenario_zst_max_capacity() {
    // The fallible form is owed success too: no storage is needed.
    let empty = AtomicVec::<()>::try_new(usize::MAX).unwrap();
    assert_eq!(empty.capacity(), usize::MAX);
    assert_eq!(empty.len(), 0);

    let mut vec = AtomicVec::<()>::new(usize::MAX);
    assert_eq!(vec.capacity(), usize::MAX);
    let mut guard = vec.lock().unwrap();
    for _ in 0..1000 {
        assert_eq!(guard.try_push(()), Ok(()));
    }
    guard.unlock();
    assert_eq!(vec.len(), 1000);
}

/// `try_push` on a container already holding `capacity` elements returns
/// `VecFull` and leaves the length unchanged.
#[test]
fn try_push_overflow() {
    let mut vec = AtomicVec::new(5);
    let mut guard = vec.lock().unwrap();
    for i in 0..5 {
        assert!(guard.try_push(i).is_ok());
    }
    assert!(guard.try_push(6).is_err());
    assert_eq!(guard.len(), 5);
}

/// A rejected capacity is reported as `CapacityOverflow`.
#[test]
fn try_new_capacity_overflow() {
    assert!(matches!(
        AtomicVec::<u64>::try_new(usize::MAX),
        Err(TryReserveError::CapacityOverflow)
    ));
    let max_count = (isize::MAX as usize) / 8;
    assert!(matches!(
        AtomicVec::<u64>::try_new(max_count + 1),
        Err(TryReserveError::CapacityOverflow)
    ));
    // The same count of a zero-sized element is admissible.
    assert!(AtomicVec::<()>::try_new(usize::MAX).is_ok());
}

/// An admissible capacity whose byte size no allocator can provide is
/// reported as `AllocationFailure`: the implied reservation here is nearly
/// the whole address space.
#[test]
fn try_new_allocation_failure() {
    let max_count = (isize::MAX as usize) / 8;
    assert!(matches!(
        AtomicVec::<u64>::try_new(max_count),
        Err(TryReserveError::AllocationFailure)
    ));
}

/// `extend` appends the whole sequence in order, after what is already
/// there; a failed `try_push` before it changes nothing.
#[test]
fn extend_appends_in_order() {
    let mut vec = AtomicVec::new(6);
    {
        let mut guard = vec.lock().unwrap();
        guard.push(1u64);
        guard.extend(vec![2, 3, 4]);
        assert_eq!(guard.as_slice(), &[1, 2, 3, 4]);
    }
    assert_eq!(vec.as_slice(), &[1, 2, 3, 4]);
    assert_eq!(vec.len(), 4);
    assert_eq!(vec.capacity(), 6);
}

/// The guard's read surface mirrors the container's.
#[test]
fn guard_read_surface() {
    let mut vec = AtomicVec::new(3);
    let mut guard = vec.lock().unwrap();
    assert!(guard.is_empty());
    assert_eq!(guard.capacity(), 3);
    guard.push('x');
    assert!(!guard.is_empty());
    assert!(!guard.is_full());
    assert_eq!(guard.len(), 1);
    assert_eq!(guard.as_slice(), &['x']);
}

/// Locking always succeeds, and can be repeated once the previous guard is
/// released.
#[test]
fn lock_cycles() {
    let mut vec = AtomicVec::new(2);
    {
        let mut guard = vec.lock().unwrap();
        guard.push(1u8);
    }
    {
        let mut guard = vec.lock().unwrap();
        guard.push(2u8);
    }
    assert_eq!(vec.as_slice(), &[1, 2]);
}
