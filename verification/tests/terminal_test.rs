use pcmanx_rs::terminal::screen::ScreenBuffer;
use pcmanx_rs::terminal::types::{CharAttr, TermCell};
use pcmanx_rs::terminal::vt100::Vt100Performer;
use vte::{Params, Parser, Perform};

/// Feeds parser callbacks to the library's performer.
struct Driver<'a> {
    performer: Vt100Performer<'a>,
}

impl<'a> Perform for Driver<'a> {
    fn print(&mut self, c: char) {
        self.performer.print(c);
    }

    fn execute(&mut self, byte: u8) {
        self.performer.execute(byte);
    }

    fn csi_dispatch(&mut self, params: &Params, intermediates: &[u8], ignore: bool, action: char) {
        let params: Vec<Vec<u16>> = params.iter().map(|p| p.to_vec()).collect();
        self.performer.csi_dispatch(&params, intermediates, ignore, action);
    }

    fn esc_dispatch(&mut self, intermediates: &[u8], ignore: bool, byte: u8) {
        self.performer.esc_dispatch(intermediates, ignore, byte);
    }
}

fn process_bytes(screen: &mut ScreenBuffer, data: &[u8]) {
    let mut parser = Parser::new();
    let mut driver = Driver { performer: Vt100Performer { screen, cursor_visible: true } };
    for byte in data {
        parser.advance(&mut driver, *byte);
    }
}

#[test]
fn put_char_writes_line_text() {
    let mut screen = ScreenBuffer::new(24, 80);
    screen.put_char('A');
    screen.put_char('B');
    screen.put_char('C');
    assert!(screen.get_line_text(0).starts_with("ABC"));
}

#[test]
fn clear_screen_sequence_works() {
    let mut screen = ScreenBuffer::new(24, 80);
    process_bytes(&mut screen, b"Hello");
    process_bytes(&mut screen, b"\x1b[2J");

    for r in 0..screen.rows {
        for c in 0..screen.cols {
            assert_eq!(screen.cell(r, c).ch, ' ');
        }
    }
}

#[test]
fn cursor_home_sequence_works() {
    let mut screen = ScreenBuffer::new(24, 80);
    process_bytes(&mut screen, b"\x1b[1;1H");
    assert_eq!(screen.cursor, (0, 0));
}

#[test]
fn sgr_green_sets_fg() {
    let mut screen = ScreenBuffer::new(24, 80);
    process_bytes(&mut screen, b"\x1b[32mHello\x1b[0m");
    assert_eq!(screen.cell(0, 0).ch, 'H');
    assert_eq!(screen.cell(0, 0).attr.fg, 2);
}

#[test]
fn carriage_return_overwrites_column_zero() {
    let mut screen = ScreenBuffer::new(24, 80);
    process_bytes(&mut screen, b"A\rB");
    assert_eq!(screen.cell(0, 0).ch, 'B');
}

#[test]
fn backspace_moves_cursor_back() {
    let mut screen = ScreenBuffer::new(24, 80);
    process_bytes(&mut screen, b"AB\x08C");
    assert_eq!(screen.cell(0, 1).ch, 'C');
}

#[test]
fn scroll_up_moves_rows() {
    let mut screen = ScreenBuffer::new(24, 80);
    for r in 0..24 {
        screen.go_to_xy(0, r);
        screen.put_char((b'A' + (r as u8 % 26)) as char);
    }

    let old_row1 = screen.get_line_text(1);
    screen.scroll_up(1);
    assert_eq!(screen.get_line_text(0), old_row1);
}

#[test]
fn sgr_bold_sets_bright() {
    let mut screen = ScreenBuffer::new(24, 80);
    process_bytes(&mut screen, b"\x1b[1mX");
    assert!(screen.cell(0, 0).attr.bright);
}

#[test]
fn sgr_inverse_sets_inverse() {
    let mut screen = ScreenBuffer::new(24, 80);
    process_bytes(&mut screen, b"\x1b[7mX");
    assert!(screen.cell(0, 0).attr.inverse);
}

#[test]
fn cursor_position_sequence() {
    let mut screen = ScreenBuffer::new(24, 80);
    process_bytes(&mut screen, b"\x1b[5;10H");
    assert_eq!(screen.cursor, (4, 9));
}

fn line(screen: &ScreenBuffer, row: usize) -> String {
    screen.get_line_text(row)
}

#[test]
fn new_screen_is_blank_and_at_least_one_cell() {
    let screen = ScreenBuffer::new(0, 0);
    assert_eq!((screen.rows, screen.cols), (1, 1));
    assert_eq!(screen.scroll_bottom, 0);
    let screen = ScreenBuffer::new(3, 4);
    assert_eq!(screen.get_all_text(), "    \n    \n    ");
    assert_eq!(*screen.cell(2, 3), TermCell::default());
    assert_eq!(screen.current_attr, CharAttr::default());
    assert_eq!(CharAttr::default().fg, 7);
}

#[test]
fn put_char_wraps_at_right_margin() {
    let mut screen = ScreenBuffer::new(3, 3);
    for c in "abcd".chars() {
        screen.put_char(c);
    }
    assert_eq!(line(&screen, 0), "abc");
    assert_eq!(line(&screen, 1), "d  ");
    assert_eq!(screen.cursor, (1, 1));
    assert!(screen.cell(0, 0).attr.need_update);
}

#[test]
fn wide_char_advances_two_columns() {
    let mut screen = ScreenBuffer::new(2, 10);
    screen.put_char('中');
    assert_eq!(screen.cursor, (0, 2));
}

#[test]
fn line_feed_at_bottom_scrolls() {
    let mut screen = ScreenBuffer::new(2, 2);
    screen.put_char('x');
    screen.go_to_xy(0, 1);
    screen.put_char('y');
    screen.line_feed();
    assert_eq!(screen.get_all_text(), "y \n  ");
    assert_eq!(screen.cursor, (1, 1));
}

#[test]
fn tab_stops_at_multiples_of_eight() {
    let mut screen = ScreenBuffer::new(2, 20);
    screen.put_char('a');
    screen.tab();
    assert_eq!(screen.cursor, (0, 8));
    screen.tab();
    assert_eq!(screen.cursor, (0, 16));
    screen.tab();
    assert_eq!(screen.cursor, (0, 19));
    screen.tab();
    assert_eq!(screen.cursor, (0, 19));
}

#[test]
fn back_stops_at_first_column() {
    let mut screen = ScreenBuffer::new(2, 5);
    screen.back();
    assert_eq!(screen.cursor, (0, 0));
    screen.go_to_xy(3, 1);
    screen.back();
    assert_eq!(screen.cursor, (1, 2));
}

#[test]
fn go_to_xy_clamps() {
    let mut screen = ScreenBuffer::new(5, 6);
    screen.go_to_xy(100, 100);
    assert_eq!(screen.cursor, (4, 5));
}

fn filled(rows: usize, cols: usize) -> ScreenBuffer {
    let mut screen = ScreenBuffer::new(rows, cols);
    for r in 0..rows {
        screen.go_to_xy(0, r);
        for c in 0..cols - 1 {
            screen.put_char((b'a' + ((r * cols + c) % 26) as u8) as char);
        }
    }
    screen
}

#[test]
fn erase_line_modes() {
    let mut s = filled(2, 6);
    s.go_to_xy(2, 0);
    s.erase_line(0);
    assert_eq!(line(&s, 0), "ab    ");
    let mut s = filled(2, 6);
    s.go_to_xy(2, 0);
    s.erase_line(1);
    assert_eq!(line(&s, 0), "   de ");
    let mut s = filled(2, 6);
    s.go_to_xy(2, 0);
    s.erase_line(2);
    assert_eq!(line(&s, 0), "      ");
    let mut s = filled(2, 6);
    s.go_to_xy(2, 0);
    s.erase_line(9);
    assert_eq!(line(&s, 0), "abcde ");
}

#[test]
fn clear_screen_modes() {
    let mut s = filled(3, 3);
    s.go_to_xy(1, 1);
    s.clear_screen(0);
    assert_eq!(s.get_all_text(), "ab \nd  \n   ");
    let mut s = filled(3, 3);
    s.go_to_xy(1, 1);
    s.clear_screen(1);
    assert_eq!(s.get_all_text(), "   \n   \ngh ");
}

#[test]
fn insert_and_delete_chars() {
    let mut s = filled(1, 6);
    s.go_to_xy(1, 0);
    s.insert_char(2);
    assert_eq!(line(&s, 0), "a  bcd");
    s.delete_char(2);
    assert_eq!(line(&s, 0), "abcd  ");
    s.delete_char(0);
    assert_eq!(line(&s, 0), "acd   ");
    s.insert_char(100);
    assert_eq!(line(&s, 0), "a     ");
}

#[test]
fn scroll_region_down() {
    let mut s = filled(3, 2);
    s.scroll_down(1);
    assert_eq!(s.get_all_text(), "  \na \nc ");
    s.scroll_up(5);
    assert_eq!(s.get_all_text(), "  \n  \n  ");
}

#[test]
fn save_and_restore_cursor() {
    let mut s = ScreenBuffer::new(5, 5);
    s.restore_cursor();
    assert_eq!(s.cursor, (0, 0));
    s.go_to_xy(3, 2);
    s.save_cursor();
    s.go_to_xy(0, 0);
    s.restore_cursor();
    assert_eq!(s.cursor, (2, 3));
}

#[test]
fn resize_keeps_shared_cells() {
    let mut s = filled(3, 3);
    s.go_to_xy(2, 2);
    s.resize(2, 4);
    assert_eq!(s.get_all_text(), "ab  \nde  ");
    assert_eq!(s.cursor, (1, 2));
    assert_eq!((s.scroll_top, s.scroll_bottom), (0, 1));
    s.resize(0, 0);
    assert_eq!(s.get_all_text(), "a");
}

#[test]
fn cell_mut_writes_cell() {
    let mut s = ScreenBuffer::new(2, 2);
    s.cell_mut(1, 1).ch = 'z';
    assert_eq!(line(&s, 1), " z");
    let copy = s.clone();
    assert_eq!(copy.get_all_text(), s.get_all_text());
}

#[test]
fn cursor_moves_clamp() {
    let mut s = ScreenBuffer::new(5, 5);
    process_bytes(&mut s, b"\x1b[9B\x1b[9C");
    assert_eq!(s.cursor, (4, 4));
    process_bytes(&mut s, b"\x1b[2A\x1b[D");
    assert_eq!(s.cursor, (2, 3));
    process_bytes(&mut s, b"\x1b[F");
    assert_eq!(s.cursor, (1, 0));
    process_bytes(&mut s, b"\x1b[E\x1b[3G");
    assert_eq!(s.cursor, (2, 2));
}

#[test]
fn insert_and_delete_lines() {
    let mut s = filled(4, 2);
    s.go_to_xy(0, 1);
    process_bytes(&mut s, b"\x1b[L");
    assert_eq!(s.get_all_text(), "a \n  \nc \ng ");
    let mut s = filled(4, 2);
    s.go_to_xy(0, 1);
    process_bytes(&mut s, b"\x1b[M");
    assert_eq!(s.get_all_text(), "a \ne \ng \n  ");
}

#[test]
fn scroll_margins_and_reverse_index() {
    let mut s = filled(4, 2);
    process_bytes(&mut s, b"\x1b[2;3r");
    assert_eq!((s.scroll_top, s.scroll_bottom), (1, 2));
    process_bytes(&mut s, b"\x1bM");
    assert_eq!(s.get_all_text(), "a \n  \nc \ng ");
    process_bytes(&mut s, b"\x1b[9;2r");
    assert_eq!((s.scroll_top, s.scroll_bottom), (3, 3));
}

#[test]
fn cursor_visibility_mode() {
    let mut s = ScreenBuffer::new(2, 2);
    let mut p = Vt100Performer { screen: &mut s, cursor_visible: true };
    p.csi_dispatch(&vec![vec![25]], b"?", false, 'l');
    assert!(!p.cursor_visible);
    p.csi_dispatch(&vec![vec![25]], b"?", false, 'h');
    assert!(p.cursor_visible);
    p.csi_dispatch(&vec![vec![25]], b"", false, 'l');
    assert!(p.cursor_visible);
}

#[test]
fn sgr_codes() {
    let mut s = ScreenBuffer::new(2, 2);
    process_bytes(&mut s, b"\x1b[1;4;5;8;44;93m");
    let a = s.current_attr;
    assert!(a.bright && a.underline && a.blink && a.invisible);
    assert_eq!((a.fg, a.bg), (3, 4));
    process_bytes(&mut s, b"\x1b[22;28;105m");
    let a = s.current_attr;
    assert!(!a.bright && !a.invisible);
    assert_eq!(a.bg, 5);
    process_bytes(&mut s, b"\x1b[m");
    assert_eq!(s.current_attr, CharAttr::default());
}

#[test]
fn ignored_sequence_does_nothing() {
    let mut s = ScreenBuffer::new(3, 3);
    let mut p = Vt100Performer { screen: &mut s, cursor_visible: true };
    p.csi_dispatch(&vec![vec![2], vec![2]], b"", true, 'H');
    assert_eq!(p.screen.cursor, (0, 0));
}

#[test]
fn save_restore_by_escape() {
    let mut s = ScreenBuffer::new(4, 4);
    process_bytes(&mut s, b"\x1b[2;3H\x1b7\x1b[H\x1b8");
    assert_eq!(s.cursor, (1, 2));
    process_bytes(&mut s, b"\x1b[s\x1b[4;4H\x1b[u");
    assert_eq!(s.cursor, (1, 2));
}

#[test]
fn erase_sequences() {
    let mut s = filled(2, 4);
    process_bytes(&mut s, b"\x1b[1;2H\x1b[K");
    assert_eq!(line(&s, 0), "a   ");
    process_bytes(&mut s, b"\x1b[2;2H\x1b[1J");
    assert_eq!(s.get_all_text(), "    \n  g ");
}

#[test]
fn delete_and_insert_char_sequences() {
    let mut s = filled(1, 5);
    process_bytes(&mut s, b"\x1b[1;2H\x1b[2P");
    assert_eq!(line(&s, 0), "ad   ");
    process_bytes(&mut s, b"\x1b[@");
    assert_eq!(line(&s, 0), "a d  ");
}

#[test]
fn resize_to_same_size_keeps_everything() {
    let mut s = filled(3, 4);
    s.go_to_xy(2, 1);
    let before = s.get_all_text();
    s.resize(3, 4);
    assert_eq!(s.get_all_text(), before);
    assert_eq!(s.cursor, (1, 2));
}

#[test]
fn every_operation_keeps_cursor_on_screen() {
    let mut s = ScreenBuffer::new(3, 3);
    process_bytes(&mut s, b"\x1b[99;99H\x1b[5Lxyz\x1b[9M\x1b[99@\x1b[99P\t\t\x08\n\n\n\r");
    assert!(s.cursor.0 < s.rows && s.cursor.1 < s.cols);
    assert!(s.scroll_top <= s.scroll_bottom && s.scroll_bottom < s.rows);
    assert_eq!(s.get_all_text().len(), 3 * 3 + 2);
}
