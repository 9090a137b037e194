use nexus::arena::Arena;

#[test]
fn arena_hands_out_ranges_in_turn() {
    let mut arena = Arena::new(8);
    assert_eq!(arena.remaining(), 8);
    assert_eq!(arena.buffer(), &[0u8; 8]);
    {
        let first = arena.allocate(3).unwrap();
        assert_eq!(first.len(), 3);
        first.copy_from_slice(&[1, 2, 3]);
    }
    assert_eq!(arena.remaining(), 5);
    {
        let second = arena.allocate(5).unwrap();
        assert_eq!(second, &[0u8; 5]);
        second[4] = 9;
    }
    assert_eq!(arena.remaining(), 0);
    assert_eq!(arena.buffer(), &[1, 2, 3, 0, 0, 0, 0, 9]);
    assert_eq!(arena.get(2), 3);
    assert!(arena.allocate(1).is_none());
    assert_eq!(arena.allocate(0).map(|s| s.len()), Some(0));
}

#[test]
fn arena_refuses_what_does_not_fit() {
    let mut arena = Arena::new(4);
    assert!(arena.allocate(5).is_none());
    assert!(arena.allocate(usize::MAX).is_none());
    assert_eq!(arena.remaining(), 4);
    assert!(arena.allocate(4).is_some());
    assert!(arena.allocate(usize::MAX).is_none());
}

#[test]
fn arena_reset_and_clear() {
    let mut arena = Arena::new(4);
    arena.allocate(4).unwrap().copy_from_slice(&[7, 7, 7, 7]);
    arena.reset();
    assert_eq!(arena.remaining(), 4);
    assert_eq!(arena.buffer(), &[7, 7, 7, 7]);
    arena.allocate(2).unwrap();
    arena.clear();
    assert_eq!(arena.remaining(), 4);
    assert_eq!(arena.buffer(), &[0, 0, 0, 0]);
}

#[test]
fn arena_pages() {
    let mut arena = Arena::new(0);
    assert!(arena.alloc_page().is_empty());
    assert!(arena.alloc_page().is_empty());
    assert_eq!(arena.remaining(), 0);
    assert!(arena.allocate(1).is_none());
}
