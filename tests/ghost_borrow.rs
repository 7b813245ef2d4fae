use ghost_cell::{GhostBorrow, GhostCell, GhostToken};

#[test]
fn multiple_borrows_tuple() {
    let value = GhostToken::new(|mut token| {
        let cell1 = GhostCell::new(42, &mut token);
        let cell2 = GhostCell::new(47, &mut token);
        let cell3 = GhostCell::new(7, &mut token);
        let cell4 = GhostCell::new(9, &mut token);

        let (reference1, reference2, reference3, reference4): (&i32, &i32, &i32, &i32) =
            (&cell1, &cell2, &cell3, &cell4).borrow(&token);

        (*reference1, *reference2, *reference3, *reference4)
    });
    assert_eq!((42, 47, 7, 9), value);
}

#[test]
fn multiple_borrows_tuple_ref() {
    let value = GhostToken::new(|mut token| {
        let cell1 = GhostCell::new(42, &mut token);
        let cell2 = GhostCell::new(47, &mut token);
        let cell3 = GhostCell::new(7, &mut token);
        let cell4 = GhostCell::new(9, &mut token);
        let tuple = (cell1, cell2, cell3, cell4);

        let reference: (&i32, &i32, &i32, &i32) = tuple.borrow(&token);

        (*reference.0, *reference.1, *reference.2, *reference.3)
    });
    assert_eq!((42, 47, 7, 9), value);
}

#[test]
fn multiple_borrows_array_ref() {
    let value = GhostToken::new(|mut token| {
        let cell1 = GhostCell::new(42, &mut token);
        let cell2 = GhostCell::new(47, &mut token);
        let cell3 = GhostCell::new(7, &mut token);
        let cell4 = GhostCell::new(9, &mut token);
        let array = [cell1, cell2, cell3, cell4];

        let reference: Vec<&i32> = array.borrow(&token);

        (*reference[0], *reference[1], *reference[2], *reference[3])
    });
    assert_eq!((42, 47, 7, 9), value);
}

#[test]
fn multiple_borrows_slice_of_cells() {
    let value = GhostToken::new(|mut token| {
        let cells = vec![
            GhostCell::new(42, &mut token),
            GhostCell::new(47, &mut token),
            GhostCell::new(7, &mut token),
        ];
        let reference: Vec<&i32> = cells.as_slice().borrow(&token);
        reference.into_iter().copied().collect::<Vec<i32>>()
    });
    assert_eq!(vec![42, 47, 7], value);
}

#[test]
fn multiple_borrows_single_element_tuple() {
    let value = GhostToken::new(|mut token| {
        let cell = GhostCell::new(5u8, &mut token);
        let (reference,) = (&cell,).borrow(&token);
        *reference
    });
    assert_eq!(5, value);
}

#[test]
fn multiple_borrows_twelve_element_tuple() {
    let value = GhostToken::new(|mut token| {
        let c: Vec<GhostCell<u32>> = (0..12u32).map(|i| GhostCell::new(i * 10, &mut token)).collect();
        let r = (&c[0], &c[1], &c[2], &c[3], &c[4], &c[5], &c[6], &c[7], &c[8], &c[9], &c[10], &c[11])
            .borrow(&token);
        vec![*r.0, *r.1, *r.2, *r.3, *r.4, *r.5, *r.6, *r.7, *r.8, *r.9, *r.10, *r.11]
    });
    assert_eq!(vec![0, 10, 20, 30, 40, 50, 60, 70, 80, 90, 100, 110], value);
}

#[test]
fn multiple_borrows_same_cell_twice() {
    let value = GhostToken::new(|mut token| {
        let cell = GhostCell::new(3, &mut token);
        let (a, b) = (&cell, &cell).borrow(&token);
        (*a, *b)
    });
    assert_eq!((3, 3), value);
}

#[test]
fn multiple_borrows_array_of_cell_refs() {
    let value = GhostToken::new(|mut token| {
        let cell1 = GhostCell::new(vec![42], &mut token);
        let cell2 = GhostCell::new(vec![47], &mut token);
        let cell3 = GhostCell::new(vec![7], &mut token);
        let cell4 = GhostCell::new(vec![9], &mut token);
        let array = [&cell1, &cell2, &cell3, &cell4];

        let reference: Vec<&Vec<i32>> = array.borrow(&token);

        reference.iter().map(|v| v[0]).collect::<Vec<i32>>()
    });
    assert_eq!(vec![42, 47, 7, 9], value);
}

#[test]
fn multiple_borrows_single_cell_tuple_ref() {
    let value = GhostToken::new(|mut token| {
        let tuple = (GhostCell::new('x', &mut token),);
        let (reference,) = tuple.borrow(&token);
        *reference
    });
    assert_eq!('x', value);
}
