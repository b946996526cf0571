use modalcell::{ExclusiveCell, GroupMismatch, SharedMode, SingleThreaded};

#[test]
fn test_single_threaded() {
    let mut mode = SharedMode::new();
    let mut a = ExclusiveCell::new(1, &mode);
    let b = a.as_shared();

    let writer = mode.as_exclusive();
    let mut a_value = a.get_mut(writer);
    a_value.set(2);

    assert_eq!(b.get(&mode), 2);
}

#[test]
fn new_cell_holds_its_initial_value() {
    let mut mode = SharedMode::new();
    let mut cell = mode.new_cell(41u64);
    let view = cell.as_shared();
    assert_eq!(view.get(&mode), 41);
    assert_eq!(view.try_get(&mode), Ok(41));
    assert_eq!(view.get_unchecked(&mode), 41);

    let guard = cell.get_mut(mode.as_exclusive());
    assert_eq!(guard.get(), 41);
}

#[test]
fn shared_view_reads_the_value_last_written() {
    let mut mode = SharedMode::new();
    let mut cell = mode.new_cell(0u32);
    let view = cell.as_shared();

    for step in 1..=5u32 {
        cell.get_mut(mode.as_exclusive()).set(step * 10);
        assert_eq!(view.get(&mode), step * 10);
        let token: &SharedMode = &mode;
        assert_eq!(view.get(token), step * 10);
    }

    let mut guard = cell.get_mut(mode.as_exclusive());
    guard.set(7);
    guard.set(8);
    assert_eq!(guard.get(), 8);
    assert_eq!(view.get(&mode), 8);
}

#[test]
fn replace_returns_the_previous_value() {
    let mut mode = SharedMode::new();
    let mut cell = mode.new_cell(String::from("first"));
    let mut guard = cell.get_mut(mode.as_exclusive());
    assert_eq!(guard.replace(String::from("second")), "first");
    assert_eq!(guard.replace(String::from("third")), "second");
    guard.set(String::from("fourth"));
    assert_eq!(guard.replace(String::new()), "fourth");
}

#[test]
fn write_with_foreign_token_is_a_group_mismatch() {
    let first = SharedMode::new();
    let mut second = SharedMode::new();
    let mut cell = first.new_cell(1);
    let view = cell.as_shared();

    let foreign = second.as_exclusive();
    assert!(matches!(cell.try_get_mut(foreign), Err(GroupMismatch)));
    assert_eq!(view.get(&first), 1);
}

#[test]
fn read_with_foreign_token_is_a_group_mismatch() {
    let first = SharedMode::new();
    let second = SharedMode::new();
    let cell = first.new_cell(5u8);
    let view = cell.as_shared();

    assert_eq!(view.try_get(&second), Err(GroupMismatch));
    assert_eq!(view.try_get(&first), Ok(5));
}

#[test]
fn every_fresh_token_is_its_own_group() {
    let mut tokens = vec![SharedMode::new(), SharedMode::new(), SharedMode::default()];
    let mut cells = Vec::new();
    for token in tokens.iter() {
        cells.push(token.new_cell(0u8));
    }
    for (i, cell) in cells.iter_mut().enumerate() {
        for (j, token) in tokens.iter_mut().enumerate() {
            let outcome = cell.try_get_mut(token.as_exclusive());
            assert_eq!(outcome.is_ok(), i == j);
        }
    }
}

#[test]
fn matching_token_opens_the_cell() {
    let mut mode = SharedMode::new();
    let mut cell = mode.new_cell(3i64);
    match cell.try_get_mut(mode.as_exclusive()) {
        Ok(mut guard) => guard.set(4),
        Err(GroupMismatch) => panic!("the cell's own token was turned away"),
    }
    assert_eq!(cell.as_shared().get(&mode), 4);
}

#[test]
fn unchecked_write_reaches_the_same_storage() {
    let mut mode = SharedMode::new();
    let mut cell = mode.new_cell(10u16);
    let view = cell.as_shared();
    cell.get_mut_unchecked(mode.as_exclusive()).set(11);
    assert_eq!(view.get_unchecked(&mode), 11);
}

#[test]
fn writer_token_makes_cells_of_its_group() {
    let mut mode = SharedMode::new();
    let writer = mode.as_exclusive();
    let mut first = writer.new_cell(1usize);
    let mut second = writer.new_cell(2usize);
    let first_view = first.as_shared();
    let second_view = second.as_shared();

    let copy = writer;
    let mut first_guard = first.get_mut(writer);
    let mut second_guard = second.get_mut(copy.clone());
    first_guard.set(10);
    second_guard.set(20);

    assert_eq!(first_view.get(&mode), 10);
    assert_eq!(second_view.get(&mode), 20);
}

#[test]
fn clones_read_identical_values() {
    let mut mode = SharedMode::new();
    let mut cell = mode.new_cell(9u64);
    let view = cell.as_shared();

    let mut clones = Vec::new();
    for _ in 0..16 {
        clones.push(view.clone());
        assert_eq!(view.get(&mode), 9);
    }
    for clone in clones.iter() {
        assert_eq!(clone.get(&mode), 9);
    }

    cell.get_mut(mode.as_exclusive()).set(12);
    for clone in clones.iter() {
        assert_eq!(clone.get(&mode), 12);
        assert_eq!(clone.clone().get(&mode), 12);
    }
    assert_eq!(view.get(&mode), 12);
}

#[test]
fn views_outlive_the_exclusive_cell() {
    let mut mode = SharedMode::new();
    let mut cell = mode.new_cell(100i32);
    let views: Vec<_> = (0..8).map(|_| cell.as_shared()).collect();
    cell.get_mut(mode.as_exclusive()).set(101);
    drop(cell);

    for view in views.iter() {
        assert_eq!(view.get(&mode), 101);
    }
    let last = views[7].clone();
    drop(views);
    assert_eq!(last.get(&mode), 101);
}

#[test]
fn cells_of_one_group_have_separate_storage() {
    let mut mode = SharedMode::new();
    let mut left = mode.new_cell(1u8);
    let right = mode.new_cell(2u8);
    let left_view = left.as_shared();
    let right_view = right.as_shared();

    left.get_mut(mode.as_exclusive()).set(3);
    assert_eq!(left_view.get(&mode), 3);
    assert_eq!(right_view.get(&mode), 2);
}

#[test]
fn default_token_is_single_threaded() {
    let mut mode: SharedMode<SingleThreaded> = SharedMode::default();
    let mut cell = mode.new_cell('a');
    cell.get_mut(mode.as_exclusive()).set('b');
    assert_eq!(cell.as_shared().get(&mode), 'b');
}

#[test]
fn cells_of_a_dropped_token_stay_closed() {
    let first = SharedMode::new();
    let mut cell = first.new_cell(21u32);
    let view = cell.as_shared();
    drop(first);

    let mut second = SharedMode::new();
    assert_eq!(view.try_get(&second), Err(GroupMismatch));
    assert!(cell.try_get_mut(second.as_exclusive()).is_err());
    assert_eq!(view.clone().try_get(&second), Err(GroupMismatch));
}

#[test]
fn write_sessions_follow_one_another() {
    let mut mode = SharedMode::new();
    let mut cell = mode.new_cell(1u8);
    let view = cell.as_shared();

    let writer = mode.as_exclusive();
    cell.get_mut(writer).set(2);
    assert_eq!(view.get(&mode), 2);

    let writer = mode.as_exclusive();
    cell.get_mut(writer).set(3);
    assert_eq!(view.get(&mode), 3);
}

/// A value that counts, in a place of its owner's choosing, how often one of
/// its kind was dropped.
struct Counted(std::rc::Rc<std::cell::Cell<usize>>);

impl Drop for Counted {
    fn drop(&mut self) {
        self.0.set(self.0.get() + 1);
    }
}

#[test]
fn contents_are_not_dropped_with_the_last_handle() {
    let drops = std::rc::Rc::new(std::cell::Cell::new(0usize));
    let mode = SharedMode::new();
    let cell = mode.new_cell(Counted(drops.clone()));
    let view = cell.as_shared();
    let clone = view.clone();

    drop(cell);
    drop(view);
    assert_eq!(drops.get(), 0);
    drop(clone);
    drop(mode);
    assert_eq!(drops.get(), 0);
}

#[test]
fn contents_taken_out_are_dropped_by_their_new_owner() {
    let first = std::rc::Rc::new(std::cell::Cell::new(0usize));
    let second = std::rc::Rc::new(std::cell::Cell::new(0usize));
    let third = std::rc::Rc::new(std::cell::Cell::new(0usize));
    let mut mode = SharedMode::new();
    let mut cell = mode.new_cell(Counted(first.clone()));

    let mut guard = cell.get_mut(mode.as_exclusive());
    let taken = guard.replace(Counted(second.clone()));
    assert_eq!(first.get(), 0);
    drop(taken);
    assert_eq!(first.get(), 1);

    guard.set(Counted(third.clone()));
    assert_eq!(second.get(), 1);

    drop(cell);
    drop(mode);
    assert_eq!((first.get(), second.get(), third.get()), (1, 1, 0));
}
