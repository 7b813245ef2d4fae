use ghost_cell::{GhostAliasingError, GhostCell, GhostToken};

#[test]
fn token_returns_closure_result() {
    let value = GhostToken::new(|mut token| {
        let cell = GhostCell::new(42, &mut token);
        let handles: Vec<GhostCell<i32>> = (0..12).map(|_| cell).collect();
        *handles[6].borrow_mut(&mut token) = 33;
        *cell.borrow(&token)
    });
    assert_eq!(33, value);
}

#[test]
fn read_after_wrap() {
    let value = GhostToken::new(|mut token| {
        let cell = GhostCell::new(String::from("wrapped"), &mut token);
        cell.borrow(&token).clone()
    });
    assert_eq!("wrapped", value);
}

#[test]
fn read_after_write() {
    let value = GhostToken::new(|mut token| {
        let cell = GhostCell::new(1, &mut token);
        let other = GhostCell::new(2, &mut token);
        *cell.borrow_mut(&mut token) = 10;
        (*cell.borrow(&token), *other.borrow(&token))
    });
    assert_eq!((10, 2), value);
}

#[test]
fn two_reads_through_shared_token() {
    let value = GhostToken::new(|mut token| {
        let cell = GhostCell::new(42, &mut token);
        let handles: Vec<GhostCell<i32>> = (0..12).map(|_| cell).collect();
        let one: &i32 = handles[1].borrow(&token);
        let two: &i32 = handles[2].borrow(&token);
        *one + *two
    });
    assert_eq!(84, value);
}

#[test]
fn replace_returns_previous_value() {
    let value = GhostToken::new(|mut token| {
        let cell = GhostCell::new(42, &mut token);
        let previous = cell.replace(33, &mut token);
        (previous, *cell.borrow(&token))
    });
    assert_eq!((42, 33), value);
}

#[test]
fn extract_after_wrap() {
    let value = GhostToken::new(|mut token| {
        let cell = GhostCell::new(vec![1, 2, 3], &mut token);
        cell.into_inner(&mut token)
    });
    assert_eq!(vec![1, 2, 3], value);
}

#[test]
fn extract_leaves_other_cells() {
    let value = GhostToken::new(|mut token| {
        let first = GhostCell::new(1, &mut token);
        let second = GhostCell::new(2, &mut token);
        let taken = second.into_inner(&mut token);
        (*first.borrow(&token), taken)
    });
    assert_eq!((1, 2), value);
}

#[test]
fn swap_same_cell_is_noop() {
    let value = GhostToken::new(|mut token| {
        let cell = GhostCell::new(42, &mut token);
        let copy = cell;
        let r = cell.swap(&copy, &mut token);
        (r, *cell.borrow(&token))
    });
    assert_eq!((Ok(()), 42), value);
}

#[test]
fn swap_distinct_cells_exchanges() {
    let value = GhostToken::new(|mut token| {
        let cell1 = GhostCell::new(42, &mut token);
        let cell2 = GhostCell::new(33, &mut token);
        let handles: Vec<GhostCell<i32>> = (0..12).flat_map(|_| [cell1, cell2]).collect();
        handles[6].swap(&handles[7], &mut token).expect("overlapping references");
        (*cell1.borrow(&token), *cell2.borrow(&token))
    });
    assert_eq!((33, 42), value);
}

#[test]
fn borrow_mut_pair_distinct_cells() {
    let value = GhostToken::new(|mut token| {
        let a = GhostCell::new(1, &mut token);
        let b = GhostCell::new(2, &mut token);
        let (x, y) = GhostCell::borrow_mut_pair(&a, &b, &mut token).unwrap();
        std::mem::swap(x, y);
        *x += 100;
        (*a.borrow(&token), *b.borrow(&token))
    });
    assert_eq!((102, 1), value);
}

#[test]
fn borrow_mut_pair_reversed_order() {
    let value = GhostToken::new(|mut token| {
        let a = GhostCell::new(1, &mut token);
        let b = GhostCell::new(2, &mut token);
        let (y, x) = GhostCell::borrow_mut_pair(&b, &a, &mut token).unwrap();
        *y = 20;
        *x = 10;
        (*a.borrow(&token), *b.borrow(&token))
    });
    assert_eq!((10, 20), value);
}

#[test]
fn borrow_mut_pair_same_cell_is_aliasing() {
    let value = GhostToken::new(|mut token| {
        let a = GhostCell::new(1, &mut token);
        let copy = a;
        let r = GhostCell::borrow_mut_pair(&a, &copy, &mut token).map(|_| ());
        (r, *a.borrow(&token))
    });
    assert_eq!((Err(GhostAliasingError), 1), value);
}

#[test]
fn borrow_mut_many_in_requested_order() {
    let value = GhostToken::new(|mut token| {
        let a = GhostCell::new(1, &mut token);
        let b = GhostCell::new(2, &mut token);
        let c = GhostCell::new(3, &mut token);
        let d = GhostCell::new(4, &mut token);
        let refs = GhostCell::borrow_mut_many(&[c, a, d], &mut token).unwrap();
        let before: Vec<i32> = refs.iter().map(|r| **r).collect();
        for (i, r) in refs.into_iter().enumerate() {
            *r = 10 * (i as i32 + 1);
        }
        let after: Vec<i32> = [a, b, c, d].iter().map(|x| *x.borrow(&token)).collect();
        (before, after)
    });
    assert_eq!((vec![3, 1, 4], vec![20, 2, 10, 30]), value);
}

#[test]
fn borrow_mut_many_twelve_cells() {
    let value = GhostToken::new(|mut token| {
        let cells: Vec<GhostCell<u32>> = (0..12u32).map(|i| GhostCell::new(i, &mut token)).collect();
        for r in GhostCell::borrow_mut_many(&cells, &mut token).unwrap() {
            *r += 100;
        }
        cells.iter().map(|c| *c.borrow(&token)).collect::<Vec<u32>>()
    });
    assert_eq!((100..112).collect::<Vec<u32>>(), value);
}

#[test]
fn borrow_mut_many_empty() {
    let value = GhostToken::new(|mut token: GhostToken<i32>| {
        GhostCell::borrow_mut_many(&[], &mut token).map(|refs| refs.len())
    });
    assert_eq!(Ok(0), value);
}

#[test]
fn borrow_mut_many_duplicate_is_aliasing() {
    let value = GhostToken::new(|mut token| {
        let a = GhostCell::new(1, &mut token);
        let b = GhostCell::new(2, &mut token);
        let r = GhostCell::borrow_mut_many(&[a, b, a], &mut token).map(|refs| refs.len());
        (r, *a.borrow(&token), *b.borrow(&token))
    });
    assert_eq!((Err(GhostAliasingError), 1, 2), value);
}

#[test]
fn borrow_mut_many_after_extract() {
    let value = GhostToken::new(|mut token| {
        let a = GhostCell::new(1, &mut token);
        let b = GhostCell::new(2, &mut token);
        let c = GhostCell::new(3, &mut token);
        let taken = b.into_inner(&mut token);
        for r in GhostCell::borrow_mut_many(&[c, a], &mut token).unwrap() {
            *r *= 7;
        }
        (taken, *a.borrow(&token), *c.borrow(&token))
    });
    assert_eq!((2, 7, 21), value);
}

#[test]
fn take_leaves_default() {
    let value = GhostToken::new(|mut token| {
        let cell = GhostCell::new(42, &mut token);
        let handles: Vec<GhostCell<i32>> = (0..12).map(|_| cell).collect();
        let previous = handles[6].take(&mut token);
        (previous, *cell.borrow(&token))
    });
    assert_eq!((42, 0), value);
}
