use ghost_cell::{GhostCell, GhostCursor, GhostToken};

struct Node {
    value: i32,
    next: Option<GhostCell<Node>>,
}

#[test]
fn cursor_moves_and_mutates_next_node() {
    let value = GhostToken::new(|mut token| {
        let b = GhostCell::new(Node { value: 2, next: None }, &mut token);
        let a = GhostCell::new(Node { value: 1, next: Some(b) }, &mut token);
        {
            let mut cursor = GhostCursor::new(&mut token, Some(a));
            cursor.move_to(|node: &Node| node.next);
            if let Some(node) = cursor.current_mut() {
                node.value = 20;
            }
            assert_eq!(Some(20), cursor.current().map(|node| node.value));
        }
        let na = a.borrow(&token);
        let nb = b.borrow(&token);
        (na.value, na.next.is_some(), nb.value)
    });
    assert_eq!((1, true, 20), value);
}

#[test]
fn cursor_into_inner_and_parts() {
    let value = GhostToken::new(|mut token| {
        let a = GhostCell::new(Node { value: 5, next: None }, &mut token);
        let cursor = GhostCursor::new(&mut token, Some(a));
        if let Some(node) = cursor.into_inner() {
            node.value = 6;
        }
        let cursor = GhostCursor::new(&mut token, Some(a));
        let (shared, position) = cursor.into_parts();
        let seen = position.map(|c| c.borrow(shared).value);
        (seen, a.borrow(&token).value)
    });
    assert_eq!((Some(6), 6), value);
}

#[test]
fn cursor_moving_past_the_end_unanchors() {
    let value = GhostToken::new(|mut token| {
        let a = GhostCell::new(Node { value: 1, next: None }, &mut token);
        let mut cursor = GhostCursor::new(&mut token, Some(a));
        cursor.move_to(|node: &Node| node.next);
        cursor.current().is_none()
    });
    assert!(value);
}

#[test]
fn unanchored_cursor_gives_nothing() {
    let value = GhostToken::new(|mut token| {
        let a = GhostCell::new(Node { value: 1, next: None }, &mut token);
        let mut cursor = GhostCursor::new(&mut token, None);
        let current = cursor.current().is_none();
        let current_mut = cursor.current_mut().is_none();
        let mut called = false;
        cursor.move_to(|node: &Node| {
            called = true;
            node.next
        });
        let inner = cursor.into_inner().is_none();
        (current, current_mut, called, inner, a.borrow(&token).value)
    });
    assert_eq!((true, true, false, true, 1), value);
}
