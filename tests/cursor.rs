use syntax::Cursor;

#[test]
fn kind_of_json_parser() {
    let input = r#"0{"name": "Bob", "age": 11}"#;
    let cursor = Cursor::new(input.chars().collect()).unwrap();
    assert_eq!(cursor.pos(), 0);
    assert_eq!(*cursor.current_value(), '0');
}

#[test]
fn empty_buffer_has_no_cursor() {
    assert!(Cursor::<u8>::new(Vec::new()).is_none());
}

#[test]
fn new_cursor_starts_at_zero() {
    let cursor = Cursor::new(vec![7u8, 8, 9]).unwrap();
    assert_eq!(cursor.pos(), 0);
    assert_eq!(*cursor.current_value(), 7);
    assert_eq!(cursor.remaining_values(), 2);
}

#[test]
fn five_value_walk() {
    let mut cursor = Cursor::new(vec![1, 2, 3, 4, 5]).unwrap();
    assert!(cursor.advance_by(10).is_err());
    assert_eq!(cursor.pos(), 0);
    assert!(cursor.advance_by(2).is_ok());
    assert_eq!(cursor.pos(), 2);
    assert_eq!(*cursor.current_value(), 3);
    assert!(cursor.retreat_by(5).is_err());
    assert_eq!(cursor.pos(), 2);
    assert_eq!(cursor.next_n_values::<2>(), Some(&[4, 5]));
    assert_eq!(cursor.pos(), 4);
}

#[test]
fn failed_moves_leave_cursor_in_place() {
    let mut cursor = Cursor::new(vec![1, 2, 3]).unwrap();
    assert!(cursor.move_to(1).is_ok());
    assert!(cursor.move_to(3).is_err());
    assert!(cursor.advance_by(2).is_err());
    assert!(cursor.advance_by(usize::MAX).is_err());
    assert!(cursor.retreat_by(2).is_err());
    assert!(cursor.offset_by(2).is_err());
    assert!(cursor.offset_by(-2).is_err());
    assert!(cursor.offset_by(isize::MIN).is_err());
    assert!(cursor.offset_by(isize::MAX).is_err());
    assert_eq!(cursor.pos(), 1);
}

#[test]
fn advance_bound_is_last_index() {
    let mut cursor = Cursor::new(vec![1, 2, 3, 4]).unwrap();
    assert!(cursor.advance_by(4).is_err());
    assert!(cursor.advance_by(3).is_ok());
    assert_eq!(cursor.pos(), 3);
    assert_eq!(cursor.remaining_values(), 0);
    assert!(cursor.advance_by(0).is_ok());
    assert_eq!(cursor.pos(), 3);
}

#[test]
fn retreat_bound_is_current_index() {
    let mut cursor = Cursor::new(vec![1, 2, 3, 4]).unwrap();
    assert!(cursor.move_to(2).is_ok());
    assert!(cursor.retreat_by(3).is_err());
    assert!(cursor.retreat_by(2).is_ok());
    assert_eq!(cursor.pos(), 0);
}

#[test]
fn offset_moves_both_ways() {
    let mut cursor = Cursor::new(vec![10, 20, 30, 40]).unwrap();
    assert!(cursor.offset_by(3).is_ok());
    assert_eq!(cursor.pos(), 3);
    assert!(cursor.offset_by(-2).is_ok());
    assert_eq!(cursor.pos(), 1);
    assert_eq!(*cursor.current_value(), 20);
}

#[test]
fn next_and_previous_values() {
    let mut cursor = Cursor::new(vec!['a', 'b']).unwrap();
    assert_eq!(cursor.previous_value(), None);
    assert_eq!(cursor.pos(), 0);
    assert_eq!(cursor.next_val(), Some(&'b'));
    assert_eq!(cursor.pos(), 1);
    assert_eq!(cursor.next_val(), None);
    assert_eq!(cursor.pos(), 1);
    assert_eq!(cursor.previous_value(), Some(&'a'));
    assert_eq!(cursor.pos(), 0);
}

#[test]
fn peeking_never_moves() {
    let mut cursor = Cursor::new(vec![1, 2, 3]).unwrap();
    assert_eq!(cursor.peek_previous_value(), None);
    assert_eq!(cursor.peek_next_value(), Some(&2));
    assert_eq!(cursor.pos(), 0);
    assert!(cursor.move_to(2).is_ok());
    assert_eq!(cursor.peek_next_value(), None);
    assert_eq!(cursor.peek_previous_value(), Some(&2));
    assert_eq!(cursor.pos(), 2);
}

#[test]
fn bulk_extraction_is_all_or_nothing() {
    let mut cursor = Cursor::new(vec![1, 2, 3, 4, 5]).unwrap();
    assert!(cursor.move_to(1).is_ok());
    assert_eq!(cursor.next_n_values::<4>(), None);
    assert_eq!(cursor.pos(), 1);
    assert_eq!(cursor.next_values(4), None);
    assert_eq!(cursor.pos(), 1);
    assert_eq!(cursor.next_values(0), None);
    assert_eq!(cursor.next_n_values::<0>(), None);
    assert_eq!(cursor.pos(), 1);
    assert_eq!(cursor.next_values(3), Some(&[3, 4, 5][..]));
    assert_eq!(cursor.pos(), 4);
}

#[test]
fn fixed_window_holds_following_values() {
    let mut cursor = Cursor::new(vec![9, 8, 7, 6]).unwrap();
    assert_eq!(cursor.next_n_values::<3>(), Some(&[8, 7, 6]));
    assert_eq!(cursor.pos(), 3);
    assert_eq!(cursor.remaining_values(), 0);
}
