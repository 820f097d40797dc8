use ratbagtui::cursor::Cursor;

#[test]
fn a_cursor_starts_where_it_is_put() {
    let cursor = Cursor::at(1, 3);
    assert_eq!(cursor.index(), 1);
    assert_eq!(cursor.len(), 3);
}

#[test]
fn a_cursor_outside_the_list_starts_at_the_first_entry() {
    assert_eq!(Cursor::at(3, 3).index(), 0);
    assert_eq!(Cursor::at(100, 3).index(), 0);
    assert_eq!(Cursor::at(5, 0).index(), 0);
    assert_eq!(Cursor::at(0, 0).len(), 0);
}

#[test]
fn up_at_the_first_entry_stays() {
    let mut cursor = Cursor::at(0, 4);
    cursor.up();
    assert_eq!(cursor, Cursor::at(0, 4));
    cursor.up();
    assert_eq!(cursor.index(), 0);
}

#[test]
fn down_at_the_last_entry_stays() {
    let mut cursor = Cursor::at(3, 4);
    cursor.down();
    assert_eq!(cursor, Cursor::at(3, 4));
    cursor.down();
    assert_eq!(cursor.index(), 3);
}

#[test]
fn moves_go_one_entry_at_a_time() {
    let mut cursor = Cursor::at(1, 4);
    cursor.down();
    assert_eq!(cursor.index(), 2);
    cursor.up();
    cursor.up();
    assert_eq!(cursor.index(), 0);
    assert_eq!(cursor.len(), 4);
}

#[test]
fn the_end_is_reached_within_len_minus_one_moves() {
    for len in 1usize..7 {
        for start in 0..len {
            let mut cursor = Cursor::at(start, len);
            for _ in 0..(len - 1) {
                cursor.down();
            }
            assert_eq!(cursor.index(), len - 1);
            let mut exact = Cursor::at(start, len);
            for _ in 0..(len - 1 - start) {
                exact.down();
            }
            assert_eq!(exact.index(), len - 1);
        }
    }
}

#[test]
fn a_cursor_on_an_empty_list_does_not_move() {
    let mut cursor = Cursor::at(0, 0);
    cursor.down();
    assert_eq!(cursor.index(), 0);
    cursor.up();
    assert_eq!(cursor.index(), 0);
}

#[test]
fn a_cursor_on_a_single_entry_does_not_move() {
    let mut cursor = Cursor::at(0, 1);
    cursor.down();
    assert_eq!(cursor.index(), 0);
    cursor.up();
    assert_eq!(cursor.index(), 0);
}
