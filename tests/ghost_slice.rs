use ghost_cell::{GhostAliasingError, GhostCell, GhostSlice, GhostToken};

fn values(slice: &GhostSlice<i32>, token: &GhostToken<i32>) -> Vec<i32> {
    slice.borrow(token).into_iter().copied().collect()
}

#[test]
fn slice_borrow_in_order() {
    let value = GhostToken::new(|mut token| {
        let slice = GhostSlice::new(vec![42, 47, 7, 9], &mut token);
        (slice.len(), values(&slice, &token))
    });
    assert_eq!((4, vec![42, 47, 7, 9]), value);
}

#[test]
fn slice_of_many_cells() {
    let value = GhostToken::new(|mut token| {
        let slice = GhostSlice::new((0..100).collect(), &mut token);
        values(&slice, &token)
    });
    assert_eq!((0..100).collect::<Vec<i32>>(), value);
}

#[test]
fn empty_slice() {
    let value = GhostToken::new(|mut token| {
        let slice = GhostSlice::new(Vec::new(), &mut token);
        let other = GhostSlice::new(Vec::new(), &mut token);
        let swapped = slice.swap(&other, &mut token);
        let all = slice.borrow_mut(&mut token).len();
        (slice.len(), values(&slice, &token), swapped, all)
    });
    assert_eq!((0, Vec::new(), Ok(()), 0), value);
}

#[test]
fn slice_cells_are_ordinary_cells() {
    let value = GhostToken::new(|mut token| {
        let slice = GhostSlice::new(vec![1, 2, 3], &mut token);
        let cells: Vec<GhostCell<i32>> = slice.as_slice_of_cells();
        *cells[1].borrow_mut(&mut token) = 20;
        let third = slice.cell(2).replace(30, &mut token);
        (third, values(&slice, &token))
    });
    assert_eq!((3, vec![1, 20, 30]), value);
}

#[test]
fn slice_borrow_mut_always_succeeds() {
    let value = GhostToken::new(|mut token| {
        let slice = GhostSlice::new(vec![1, 2, 3], &mut token);
        for (i, r) in slice.borrow_mut(&mut token).into_iter().enumerate() {
            *r += 10 * (i as i32 + 1);
        }
        values(&slice, &token)
    });
    assert_eq!(vec![11, 22, 33], value);
}

#[test]
fn subslice_window() {
    let value = GhostToken::new(|mut token| {
        let slice = GhostSlice::new(vec![1, 2, 3, 4, 5], &mut token);
        let window = slice.subslice(1, 4);
        values(&window, &token)
    });
    assert_eq!(vec![2, 3, 4], value);
}

#[test]
fn slice_swap_with_itself_is_noop() {
    let value = GhostToken::new(|mut token| {
        let slice = GhostSlice::new(vec![1, 2, 3], &mut token);
        let copy = slice;
        let r = slice.swap(&copy, &mut token);
        (r, values(&slice, &token))
    });
    assert_eq!((Ok(()), vec![1, 2, 3]), value);
}

#[test]
fn slice_swap_disjoint_exchanges() {
    let value = GhostToken::new(|mut token| {
        let a = GhostSlice::new(vec![1, 2], &mut token);
        let b = GhostSlice::new(vec![8, 9], &mut token);
        let r = a.swap(&b, &mut token);
        (r, values(&a, &token), values(&b, &token))
    });
    assert_eq!((Ok(()), vec![8, 9], vec![1, 2]), value);
}

#[test]
fn slice_swap_adjacent_windows_exchanges() {
    let value = GhostToken::new(|mut token| {
        let slice = GhostSlice::new(vec![1, 2, 3, 4], &mut token);
        let r = slice.subslice(0, 2).swap(&slice.subslice(2, 4), &mut token);
        (r, values(&slice, &token))
    });
    assert_eq!((Ok(()), vec![3, 4, 1, 2]), value);
}

#[test]
fn slice_swap_partial_overlap_is_aliasing() {
    let value = GhostToken::new(|mut token| {
        let slice = GhostSlice::new(vec![1, 2, 3, 4], &mut token);
        let r = slice.subslice(0, 3).swap(&slice.subslice(1, 4), &mut token);
        (r, values(&slice, &token))
    });
    assert_eq!((Err(GhostAliasingError), vec![1, 2, 3, 4]), value);
}
