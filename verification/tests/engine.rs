use lineview::tui::{command_of_char, MotionCommand, TuiCTX};
use lineview::util::{Direction, Point};

fn doc(lines: &[&str]) -> Vec<Vec<char>> {
    lines.iter().map(|l| l.chars().collect()).collect()
}

fn engine(lines: &[&str], cols: usize, rows: usize) -> TuiCTX {
    TuiCTX::new(doc(lines), cols, rows)
}

fn cursor_of(t: &TuiCTX) -> (usize, usize) {
    let p = t.get_cursor();
    (p.y(), p.x())
}

#[test]
fn starts_at_origin() {
    let t = engine(&["alpha", "beta"], 80, 24);
    assert_eq!(cursor_of(&t), (0, 0));
    assert!(!t.should_quit());
}

#[test]
fn step_up_at_top_is_noop() {
    let mut t = engine(&["abc", "def"], 80, 24);
    t.apply_command(MotionCommand::StepUp);
    assert_eq!(cursor_of(&t), (0, 0));
}

#[test]
fn step_down_at_bottom_is_noop_on_row() {
    let mut t = engine(&["abc", "def"], 80, 24);
    t.apply_command(MotionCommand::StepDown);
    t.apply_command(MotionCommand::StepDown);
    assert_eq!(cursor_of(&t), (1, 0));
}

#[test]
fn step_left_at_col0_is_noop() {
    let mut t = engine(&["abc"], 80, 24);
    t.apply_command(MotionCommand::StepLeft);
    assert_eq!(cursor_of(&t), (0, 0));
}

#[test]
fn step_right_at_last_col_is_noop() {
    let mut t = engine(&["ab"], 80, 24);
    t.apply_command(MotionCommand::StepRight);
    assert_eq!(cursor_of(&t), (0, 1));
    t.apply_command(MotionCommand::StepRight);
    assert_eq!(cursor_of(&t), (0, 1));
}

#[test]
fn vertical_snap_clamps_then_keeps_clamped_column() {
    // From (0,4) on "  abc": the move down clamps the column to the last
    // index of "xyz" (2); moving back up, the candidate is the clamped
    // column 2, which the first non-blank column (2) does not raise.
    let mut t = engine(&["  abc", "xyz"], 80, 24);
    t.set_cursor(Point::new(4, 0));
    t.apply_command(MotionCommand::StepDown);
    assert_eq!(cursor_of(&t), (1, 2));
    t.apply_command(MotionCommand::StepUp);
    assert_eq!(cursor_of(&t), (0, 2));
}

#[test]
fn vertical_round_trip_keeps_column_when_rows_are_long_enough() {
    let mut t = engine(&["  abc", "vwxyz"], 80, 24);
    t.set_cursor(Point::new(4, 0));
    t.apply_command(MotionCommand::StepDown);
    assert_eq!(cursor_of(&t), (1, 4));
    t.apply_command(MotionCommand::StepUp);
    assert_eq!(cursor_of(&t), (0, 4));
}

#[test]
fn vertical_snap_raises_column_onto_first_nonblank() {
    let mut t = engine(&["xyz", "  abc"], 80, 24);
    t.apply_command(MotionCommand::StepDown);
    // Column 0 lies in the indentation of "  abc": snapped to column 2.
    assert_eq!(cursor_of(&t), (1, 2));
}

#[test]
fn word_forward_lands_on_following_words() {
    let mut t = engine(&["foo bar baz"], 80, 24);
    t.apply_command(MotionCommand::WordForward);
    assert_eq!(cursor_of(&t), (0, 4));
    t.apply_command(MotionCommand::WordForward);
    assert_eq!(cursor_of(&t), (0, 8));
}

#[test]
fn word_forward_without_delimiter_stops_at_line_end() {
    let mut t = engine(&["foo bar baz"], 80, 24);
    t.apply_command(MotionCommand::WordForward);
    t.apply_command(MotionCommand::WordForward);
    t.apply_command(MotionCommand::WordForward);
    assert_eq!(cursor_of(&t), (0, 10));
    t.apply_command(MotionCommand::WordForward);
    assert_eq!(cursor_of(&t), (0, 10));
}

#[test]
fn word_backward_steps_back_before_previous_delimiter() {
    let mut t = engine(&["foo bar baz"], 80, 24);
    t.set_cursor(Point::new(10, 0));
    t.apply_command(MotionCommand::WordBackward);
    // The delimiter before column 10 is at column 7, two steps back in the
    // backward scan; the step count is one less than that distance.
    assert_eq!(cursor_of(&t), (0, 9));
}

#[test]
fn word_backward_adjacent_to_delimiter_does_not_move() {
    let mut t = engine(&["foo bar baz"], 80, 24);
    t.set_cursor(Point::new(4, 0));
    t.apply_command(MotionCommand::WordBackward);
    assert_eq!(cursor_of(&t), (0, 4));
}

#[test]
fn word_backward_without_delimiter_goes_to_col0() {
    let mut t = engine(&["foobar"], 80, 24);
    t.set_cursor(Point::new(5, 0));
    t.apply_command(MotionCommand::WordBackward);
    assert_eq!(cursor_of(&t), (0, 0));
}

#[test]
fn line_end_goes_to_last_column() {
    let mut t = engine(&["abcde"], 80, 24);
    t.apply_command(MotionCommand::LineEnd);
    assert_eq!(cursor_of(&t), (0, 4));
}

#[test]
fn line_end_on_empty_line_stays_at_col0() {
    let mut t = engine(&[""], 80, 24);
    t.apply_command(MotionCommand::LineEnd);
    assert_eq!(cursor_of(&t), (0, 0));
}

#[test]
fn line_start_goes_to_col0_even_with_indentation() {
    let mut t = engine(&["  abc"], 80, 24);
    t.set_cursor(Point::new(4, 0));
    t.apply_command(MotionCommand::LineStart);
    assert_eq!(cursor_of(&t), (0, 0));
}

#[test]
fn step_down_over_blank_row_lands_on_next_nonblank_at_col0() {
    let mut t = engine(&["alpha", "", "beta"], 80, 24);
    t.apply_command(MotionCommand::StepDown);
    assert_eq!(cursor_of(&t), (2, 0));
}

#[test]
fn step_down_onto_trailing_blank_rows_stops_at_edge() {
    let mut t = engine(&["alpha", "", "   "], 80, 24);
    t.set_cursor(Point::new(3, 0));
    t.apply_command(MotionCommand::StepDown);
    // Both rows below are blank: the skip stops at the last row, column 0.
    assert_eq!(cursor_of(&t), (2, 0));
}

#[test]
fn step_up_over_blank_row_lands_on_previous_nonblank_at_col0() {
    let mut t = engine(&["alpha", "  ", "beta"], 80, 24);
    t.set_cursor(Point::new(2, 2));
    t.apply_command(MotionCommand::StepUp);
    assert_eq!(cursor_of(&t), (0, 0));
}

#[test]
fn quit_sets_flag_and_freezes_state() {
    let mut t = engine(&["foo bar", "baz"], 80, 24);
    t.apply_command(MotionCommand::WordForward);
    assert_eq!(cursor_of(&t), (0, 4));
    t.apply_command(MotionCommand::Quit);
    assert!(t.should_quit());
    t.apply_command(MotionCommand::StepDown);
    t.apply_command(MotionCommand::WordForward);
    t.apply_command(MotionCommand::LineStart);
    assert!(t.should_quit());
    assert_eq!(cursor_of(&t), (0, 4));
    let p = t.screen_cursor();
    assert_eq!((p.y(), p.x()), (0, 4));
}

#[test]
fn scroll_follows_cursor_below_window() {
    let mut t = engine(&["a", "b", "c", "d", "e"], 80, 2);
    t.apply_command(MotionCommand::StepDown);
    t.apply_command(MotionCommand::StepDown);
    t.apply_command(MotionCommand::StepDown);
    // Cursor on row 3, window of 2 rows: the first visible row is 2.
    let p = t.screen_cursor();
    assert_eq!((p.y(), p.x()), (1, 0));
    let visible = t.visible_rows();
    assert_eq!(visible.len(), 2);
    assert_eq!(visible[0], vec!['c']);
    assert_eq!(visible[1], vec!['d']);
}

#[test]
fn scroll_follows_cursor_back_above_window() {
    let mut t = engine(&["a", "b", "c", "d", "e"], 80, 2);
    for _ in 0..4 {
        t.apply_command(MotionCommand::StepDown);
    }
    for _ in 0..4 {
        t.apply_command(MotionCommand::StepUp);
    }
    let p = t.screen_cursor();
    assert_eq!((p.y(), p.x()), (0, 0));
    let visible = t.visible_rows();
    assert_eq!(visible[0], vec!['a']);
}

#[test]
fn visible_rows_stop_at_document_end() {
    let t = engine(&["one", "two"], 80, 24);
    let visible = t.visible_rows();
    assert_eq!(visible.len(), 2);
    assert_eq!(visible[0].iter().collect::<String>(), "one");
    assert_eq!(visible[1].iter().collect::<String>(), "two");
}

#[test]
fn key_bindings_map_to_commands() {
    assert_eq!(command_of_char('q'), Some(MotionCommand::Quit));
    assert_eq!(command_of_char('h'), Some(MotionCommand::StepLeft));
    assert_eq!(command_of_char('j'), Some(MotionCommand::StepDown));
    assert_eq!(command_of_char('k'), Some(MotionCommand::StepUp));
    assert_eq!(command_of_char('l'), Some(MotionCommand::StepRight));
    assert_eq!(command_of_char('w'), Some(MotionCommand::WordForward));
    assert_eq!(command_of_char('b'), Some(MotionCommand::WordBackward));
    assert_eq!(command_of_char('a'), Some(MotionCommand::LineEnd));
    assert_eq!(command_of_char('_'), Some(MotionCommand::LineStart));
    assert_eq!(command_of_char('0'), Some(MotionCommand::LineStart));
    assert_eq!(command_of_char('x'), None);
    assert_eq!(command_of_char(' '), None);
}

#[test]
fn point_moves_saturate_at_zero() {
    let mut p = Point::new(1, 2);
    p.move_dir(Direction::Up, 5);
    assert_eq!((p.y(), p.x()), (0, 1));
    p.move_dir(Direction::Left, 5);
    assert_eq!((p.y(), p.x()), (0, 0));
    p.move_dir(Direction::Down, 3);
    p.move_dir(Direction::Right, 2);
    assert_eq!((p.y(), p.x()), (3, 2));
}

#[test]
fn point_setters_update_coordinates() {
    let mut p = Point::new(0, 0);
    p.set_x(7);
    p.set_y(9);
    assert_eq!((p.y(), p.x()), (9, 7));
}

#[test]
fn set_cursor_places_cursor() {
    let mut t = engine(&["hello", "world"], 80, 24);
    t.set_cursor(Point::new(3, 1));
    assert_eq!(cursor_of(&t), (1, 3));
    assert_eq!(t.current_line().iter().collect::<String>(), "world");
}

#[test]
fn tab_containing_line_snaps_past_whitespace() {
    // A tab counts as whitespace for the first-non-blank scan.
    let mut t = engine(&["xy", "\t\tz"], 80, 24);
    t.apply_command(MotionCommand::StepDown);
    assert_eq!(cursor_of(&t), (1, 2));
}
