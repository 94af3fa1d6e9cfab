use shadow_reg::bump_alloc::BumpAllocator;

#[test]
fn test_alloc() {
    let mut allocator = BumpAllocator::new();
    let base: usize = 0x10000;
    allocator.init(base, 0x1000 * 16);
    allocator.enable_alloc();

    let ptr1 = allocator.allocate(100, 8).unwrap();
    assert_eq!(ptr1, base);
    assert_eq!(ptr1 % 8, 0);

    let ptr2 = allocator.allocate(200, 16).unwrap();
    assert_eq!(ptr2 % 16, 0);
    assert!(ptr2 >= ptr1 + 100);

    let ptr3 = allocator.allocate(300, 32).unwrap();
    assert_eq!(ptr3 % 32, 0);
    assert!(ptr3 >= ptr2 + 200);

    // A large request that still fits, as a growing buffer would make.
    let ptr4 = allocator.allocate(10000, 1).unwrap();
    assert!(ptr4 >= ptr3 + 300);

    let (allocated, free, count) = allocator.stats();
    assert_eq!(count, 4);
    assert_eq!(allocated + free, 0x1000 * 16);
}

#[test]
fn test_alloc_out_of_space() {
    let mut allocator = BumpAllocator::new();
    let base: usize = 0x10000;
    allocator.init(base, 0x1000);
    allocator.enable_alloc();

    let ptr1 = allocator.allocate(0x800, 8);
    assert!(ptr1.is_some());

    let ptr2 = allocator.allocate(0x900, 16);
    assert!(ptr2.is_none());

    // A failed allocation leaves the allocator unchanged: a fitting request
    // still succeeds afterwards.
    let ptr3 = allocator.allocate(0x100, 8);
    assert!(ptr3.is_some());
}

#[test]
fn test_exact_fit_is_refused() {
    // The window never hands out its very last byte: an allocation whose
    // end coincides with the window's end is refused.
    let mut allocator = BumpAllocator::new();
    allocator.init(0x2000, 0x100);
    allocator.enable_alloc();
    assert!(allocator.allocate(0x100, 1).is_none());
    assert!(allocator.allocate(0xff, 1).is_some());
}

#[test]
fn test_enable_then_disable() {
    let mut allocator = BumpAllocator::new();
    allocator.init(0x3000, 0x1000);
    allocator.enable_alloc();
    let p = allocator.allocate(16, 8);
    assert!(p.is_some());
    allocator.disable_alloc();
    let (allocated, _, count) = allocator.stats();
    assert_eq!(allocated, 16);
    assert_eq!(count, 1);
}
