use kitties::{AllocationExhausted, Error, IdAllocator, KittyId};

#[test]
fn allocate_counts_up_from_zero() {
    let mut allocator = IdAllocator::new();
    assert_eq!(allocator.next(), 0);
    assert_eq!(allocator.allocate(), Ok(0));
    assert_eq!(allocator.allocate(), Ok(1));
    assert_eq!(allocator.allocate(), Ok(2));
    assert_eq!(allocator.next(), 3);
}

#[test]
fn allocate_starts_where_it_is_told() {
    let mut allocator = IdAllocator::starting_at(41);
    assert_eq!(allocator.allocate(), Ok(41));
    assert_eq!(allocator.next(), 42);
}

#[test]
fn allocate_fails_at_the_maximum_and_keeps_the_counter() {
    let mut allocator = IdAllocator::starting_at(KittyId::MAX - 1);
    assert_eq!(allocator.allocate(), Ok(KittyId::MAX - 1));
    assert_eq!(allocator.next(), KittyId::MAX);
    assert_eq!(allocator.allocate(), Err(AllocationExhausted));
    assert_eq!(allocator.next(), KittyId::MAX);
    assert_eq!(allocator.allocate(), Err(AllocationExhausted));
    assert_eq!(allocator.next(), KittyId::MAX);
}

#[test]
fn exhaustion_surfaces_as_invalid_kitty_id() {
    assert_eq!(Error::from_exhausted(AllocationExhausted), Error::InvalidKittyId);
}
