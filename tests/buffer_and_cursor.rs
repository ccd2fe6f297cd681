use typewriter::cursor::CursorPointer;
use typewriter::memory::Memory;

#[test]
fn memory_insert_and_full() {
    let mut m = Memory::new(3);
    assert!(m.cursor_at_beginning());
    assert!(m.cursor_at_end());
    assert!(!m.memory_full());
    m.insert(1);
    m.insert(2);
    m.insert(3);
    assert!(m.memory_full());
    assert_eq!(m.content(), vec![1, 2, 3]);
    assert_eq!(m.before_len(), 3);
    assert_eq!(m.after_len(), 0);
}

#[test]
fn memory_moves_keep_order() {
    let mut m = Memory::new(5);
    m.insert(10);
    m.insert(20);
    m.insert(30);
    m.move_after_cursor();
    m.move_after_cursor();
    assert_eq!(m.before_len(), 1);
    assert_eq!(m.after_len(), 2);
    assert_eq!(m.after_at(0), 20);
    assert_eq!(m.after_at(1), 30);
    assert_eq!(m.content(), vec![10, 20, 30]);
    m.insert(15);
    assert_eq!(m.content(), vec![10, 15, 20, 30]);
    m.move_before_cursor();
    assert_eq!(m.before_at(2), 20);
    assert_eq!(m.content(), vec![10, 15, 20, 30]);
    assert!(!m.cursor_at_end());
}

#[test]
fn memory_full_then_move_left_at_one_char() {
    let mut m = Memory::new(2);
    m.insert(7);
    m.move_after_cursor();
    m.insert(8);
    assert!(m.memory_full());
    m.move_after_cursor();
    assert!(m.cursor_at_beginning());
    assert_eq!(m.content(), vec![8, 7]);
}

#[test]
fn memory_occupancy_counts_inserts_minus_deletes() {
    let mut m = Memory::new(8);
    let mut inserted = 0usize;
    let mut deleted = 0usize;
    for c in 0..6u8 {
        m.insert(c);
        inserted += 1;
    }
    m.move_after_cursor();
    m.move_after_cursor();
    m.delete_backwards();
    deleted += 1;
    m.move_before_cursor();
    m.delete_backwards();
    deleted += 1;
    assert_eq!(m.before_len() + m.after_len(), inserted - deleted);
    assert_eq!(m.content(), vec![0, 1, 2, 5]);
}

#[test]
fn memory_default_capacity_is_large() {
    let m = Memory::default();
    assert!(m.cursor_at_beginning());
    assert!(m.cursor_at_end());
    assert!(!m.memory_full());
}

#[test]
fn cursor_increment_wraps_past_line_end() {
    let mut c = CursorPointer::new(5, 2);
    for _ in 0..5 {
        c.increment();
    }
    assert_eq!(c.get_draw_cursor_position(), (5, 0));
    assert!(!c.is_at_canvas_end());
    assert_eq!(c.get_draw_letter_position(), (0, 1));
    c.increment();
    assert_eq!(c.get_draw_cursor_position(), (1, 1));
    for _ in 0..4 {
        c.increment();
    }
    assert!(c.is_at_canvas_end());
    c.increment();
    assert_eq!(c.get_draw_cursor_position(), (1, 0));
}

#[test]
fn cursor_decrement_goes_to_previous_row_end() {
    let mut c = CursorPointer::new(5, 2);
    c.decrement();
    assert_eq!(c.get_draw_cursor_position(), (5, 1));
    c.decrement();
    assert_eq!(c.get_draw_cursor_position(), (4, 1));
    c.x = 1;
    c.decrement();
    assert_eq!(c.get_draw_cursor_position(), (5, 0));
}

#[test]
fn cursor_decrement_slot_stays_on_cells() {
    let mut c = CursorPointer::new(5, 2);
    c.decrement_slot();
    assert_eq!(c.get_draw_cursor_position(), (4, 1));
    c.x = 0;
    c.decrement_slot();
    assert_eq!(c.get_draw_cursor_position(), (4, 0));
    c.decrement_slot();
    assert_eq!(c.get_draw_cursor_position(), (3, 0));
}

#[test]
fn cursor_backup_restore() {
    let mut c = CursorPointer::new(5, 3);
    c.x = 3;
    c.y = 1;
    c.backup();
    c.to_line_beginning();
    c.to_next_line();
    assert_eq!(c.get_draw_cursor_position(), (0, 2));
    assert!(c.is_last_line());
    c.restore();
    assert_eq!(c.get_draw_cursor_position(), (3, 1));
    c.to_previous_line();
    assert!(c.is_first_line());
}

#[test]
fn cursor_predicates() {
    let mut c = CursorPointer::new(5, 2);
    assert!(c.is_at_canvas_start());
    assert!(c.is_at_line_start());
    assert!(!c.is_at_line_end());
    c.x = 4;
    assert!(c.is_at_line_end());
    assert!(!c.is_at_canvas_start());
    c.x = 5;
    c.y = 1;
    assert!(c.is_at_canvas_end());
}
