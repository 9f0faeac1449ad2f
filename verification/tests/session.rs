use ctx::buffer_manager::Buffer;
use ctx::cursor_manager::{Cursor, MainCursor};
use ctx::input::{Command, Direction, KeyCode, KeyEvent};
use ctx::manager::{Action, Manager, Size, RESERVED_COLUMNS, RESERVED_ROWS};

fn key(code: KeyCode) -> KeyEvent {
    KeyEvent { code, control: false }
}

fn ctrl(code: KeyCode) -> KeyEvent {
    KeyEvent { code, control: true }
}

fn session(content: &str) -> Manager {
    let mut m = Manager::new(13, 7);
    m.cursor.reset();
    m.read_file(content);
    m
}

fn lines(m: &Manager) -> Vec<String> {
    m.buffer.lines().clone()
}

fn place(m: &mut Manager, row: usize, col: usize) {
    m.cursor.main = MainCursor { x: col, y: row };
}

#[test]
fn new_session_is_empty() {
    let m = Manager::new(80, 24);
    assert_eq!(m.size, Size(80, 24));
    assert_eq!(m.cursor, Cursor { x: 0, y: 0, main: MainCursor { x: 0, y: 0 } });
    assert_eq!(m.buffer.len(), 0);
    assert_eq!(Size::default(), Size(0, 0));
    assert_eq!(Buffer::default().len(), 0);
}

#[test]
fn text_area_leaves_out_the_reserved_cells() {
    assert_eq!((RESERVED_COLUMNS, RESERVED_ROWS), (3, 2));
    assert_eq!(Size(80, 24).text_columns(), 77);
    assert_eq!(Size(80, 24).text_rows(), 22);
    assert_eq!(Size(4, 3).text_columns(), 1);
    assert_eq!(Size(4, 3).text_rows(), 1);
}

#[test]
fn keys_stand_for_commands() {
    assert_eq!(key(KeyCode::Left).to_command(), Some(Command::MoveCursor(Direction::Left)));
    assert_eq!(key(KeyCode::Right).to_command(), Some(Command::MoveCursor(Direction::Right)));
    assert_eq!(key(KeyCode::Up).to_command(), Some(Command::MoveCursor(Direction::Up)));
    assert_eq!(key(KeyCode::Down).to_command(), Some(Command::MoveCursor(Direction::Down)));
    assert_eq!(key(KeyCode::Backspace).to_command(), Some(Command::DeleteCharBackward));
    assert_eq!(key(KeyCode::Enter).to_command(), Some(Command::NewLine));
    assert_eq!(key(KeyCode::Esc).to_command(), Some(Command::Quit));
    assert_eq!(key(KeyCode::Char('q')).to_command(), Some(Command::InsertChar('q')));
    assert_eq!(key(KeyCode::Char('r')).to_command(), Some(Command::InsertChar('r')));
    assert_eq!(key(KeyCode::Char('s')).to_command(), Some(Command::InsertChar('s')));
    assert_eq!(key(KeyCode::Char('d')).to_command(), Some(Command::InsertChar('d')));
    assert_eq!(key(KeyCode::Other).to_command(), None);
}

#[test]
fn control_changes_some_keys() {
    assert_eq!(ctrl(KeyCode::Up).to_command(), Some(Command::SplitUpward));
    assert_eq!(ctrl(KeyCode::Down).to_command(), Some(Command::SplitDownward));
    assert_eq!(ctrl(KeyCode::Char('r')).to_command(), Some(Command::Resize));
    assert_eq!(ctrl(KeyCode::Char('s')).to_command(), Some(Command::Save));
    assert_eq!(ctrl(KeyCode::Char('d')).to_command(), Some(Command::RemoveLine));
    assert_eq!(ctrl(KeyCode::Left).to_command(), Some(Command::MoveCursor(Direction::Left)));
    assert_eq!(ctrl(KeyCode::Right).to_command(), Some(Command::MoveCursor(Direction::Right)));
    assert_eq!(ctrl(KeyCode::Char('a')).to_command(), Some(Command::InsertChar('a')));
    assert_eq!(ctrl(KeyCode::Esc).to_command(), Some(Command::Quit));
    assert_eq!(ctrl(KeyCode::Enter).to_command(), Some(Command::NewLine));
    assert_eq!(ctrl(KeyCode::Other).to_command(), None);
}

#[test]
fn origin_is_the_start_of_the_cursor_page() {
    let mut m = session("");
    place(&mut m, 12, 25);
    assert_eq!(m.nearest_cursors(), (20, 10));
    place(&mut m, 0, 0);
    assert_eq!(m.nearest_cursors(), (0, 0));
    place(&mut m, 4, 9);
    assert_eq!(m.nearest_cursors(), (0, 0));
    place(&mut m, 5, 10);
    assert_eq!(m.nearest_cursors(), (10, 5));
}

#[test]
fn origin_is_aligned_and_holds_the_cursor() {
    for (columns, rows) in [(4u16, 3u16), (13, 7), (80, 24), (u16::MAX, u16::MAX)] {
        let width = columns as usize - 3;
        let height = rows as usize - 2;
        for (row, col) in [(0usize, 0usize), (1, 1), (21, 76), (22, 77), (1000, 12345), (usize::MAX, usize::MAX)] {
            let mut m = Manager::new(columns, rows);
            place(&mut m, row, col);
            let (x, y) = m.nearest_cursors();
            assert_eq!(x % width, 0);
            assert_eq!(y % height, 0);
            assert!(x <= col && col - x < width);
            assert!(y <= row && row - y < height);
            assert_eq!((x, y), ((col / width) * width, (row / height) * height));
        }
    }
}

#[test]
fn rendering_shows_the_page_of_the_cursor() {
    let mut m = session("0123456789abcdefghij\nshort\n\nl3\nl4\nl5\nl6");
    assert_eq!(m.handle_buffer(), vec!["0123456789", "short", "", "l3", "l4"]);
    place(&mut m, 1, 13);
    assert_eq!(m.handle_buffer(), vec!["abcdefghij", "", "", "", ""]);
    place(&mut m, 6, 0);
    assert_eq!(m.handle_buffer(), vec!["l5", "l6", "", "", ""]);
    place(&mut m, 10, 0);
    assert_eq!(m.handle_buffer(), vec!["", "", "", "", ""]);
    assert_eq!(m.cursor.main, MainCursor { x: 0, y: 10 });
}

#[test]
fn typing_inserts_and_steps_right() {
    let mut m = session("ab\ncd");
    place(&mut m, 0, 1);
    m.cursor.x = 3;
    assert_eq!(m.handle_key(key(KeyCode::Char('X'))), Some(Action::Render));
    assert_eq!(lines(&m), vec!["aXb", "cd"]);
    assert_eq!(m.cursor, Cursor { x: 4, y: 1, main: MainCursor { x: 2, y: 0 } });
    m.type_char('Y');
    assert_eq!(lines(&m), vec!["aXYb", "cd"]);
    assert_eq!(m.cursor.main, MainCursor { x: 3, y: 0 });
}

#[test]
fn backspace_steps_left_then_deletes() {
    let mut m = session("abc");
    place(&mut m, 0, 2);
    m.cursor.x = 4;
    assert_eq!(m.handle_key(key(KeyCode::Backspace)), Some(Action::Render));
    assert_eq!(lines(&m), vec!["ac"]);
    assert_eq!(m.cursor, Cursor { x: 3, y: 1, main: MainCursor { x: 1, y: 0 } });
}

#[test]
fn backspace_on_an_empty_line_removes_it() {
    let mut m = session("\nx");
    assert_eq!(m.execute(Command::DeleteCharBackward), Action::Render);
    assert_eq!(lines(&m), vec!["x"]);
    assert_eq!(m.cursor.main, MainCursor { x: 0, y: 0 });
}

#[test]
fn enter_opens_a_line_and_steps_down() {
    let mut m = session("a\nb");
    place(&mut m, 1, 0);
    m.cursor.y = 2;
    assert_eq!(m.handle_key(key(KeyCode::Enter)), Some(Action::Render));
    assert_eq!(lines(&m), vec!["a", "", "b"]);
    assert_eq!(m.cursor, Cursor { x: 2, y: 3, main: MainCursor { x: 0, y: 2 } });
}

#[test]
fn control_d_removes_the_line() {
    let mut m = session("a\nb\nc");
    place(&mut m, 1, 0);
    let before = m.cursor;
    assert_eq!(m.handle_key(ctrl(KeyCode::Char('d'))), Some(Action::Render));
    assert_eq!(lines(&m), vec!["a", "c"]);
    assert_eq!(m.cursor, before);
}

#[test]
fn control_arrows_split() {
    let mut m = session("ab\ncd");
    place(&mut m, 1, 1);
    let before = m.cursor;
    assert_eq!(m.handle_key(ctrl(KeyCode::Up)), Some(Action::Render));
    assert_eq!(lines(&m), vec!["abd", "c"]);
    assert_eq!(m.cursor, before);
    place(&mut m, 0, 2);
    assert_eq!(m.handle_key(ctrl(KeyCode::Down)), Some(Action::Render));
    assert_eq!(lines(&m), vec!["ab", "cd"]);
}

#[test]
fn arrows_move_the_cursor() {
    let mut m = session("ab\ncd");
    assert_eq!(m.handle_key(key(KeyCode::Right)), Some(Action::Render));
    assert_eq!(m.cursor, Cursor { x: 3, y: 1, main: MainCursor { x: 1, y: 0 } });
    assert_eq!(m.handle_key(key(KeyCode::Down)), Some(Action::Render));
    assert_eq!(m.cursor, Cursor { x: 3, y: 2, main: MainCursor { x: 1, y: 1 } });
    assert_eq!(m.handle_key(key(KeyCode::Left)), Some(Action::Render));
    assert_eq!(m.cursor, Cursor { x: 2, y: 2, main: MainCursor { x: 0, y: 1 } });
    assert_eq!(m.handle_key(key(KeyCode::Up)), Some(Action::Render));
    assert_eq!(m.cursor, Cursor { x: 2, y: 1, main: MainCursor { x: 0, y: 0 } });
    assert_eq!(lines(&m), vec!["ab", "cd"]);
}

#[test]
fn handle_arrows_acts_on_arrows_only() {
    let mut m = session("ab\ncd");
    m.handle_arrows(key(KeyCode::Right));
    assert_eq!(m.cursor.main, MainCursor { x: 1, y: 0 });
    m.handle_arrows(key(KeyCode::Down));
    assert_eq!(m.cursor.main, MainCursor { x: 1, y: 1 });
    m.handle_arrows(ctrl(KeyCode::Up));
    assert_eq!(lines(&m), vec!["abd", "c"]);
    let before = m.cursor;
    m.handle_arrows(key(KeyCode::Char('x')));
    m.handle_arrows(key(KeyCode::Enter));
    m.handle_arrows(key(KeyCode::Other));
    assert_eq!(m.cursor, before);
    assert_eq!(lines(&m), vec!["abd", "c"]);
}

#[test]
fn save_resize_and_quit_are_left_to_the_caller() {
    let mut m = session("ab");
    place(&mut m, 3, 4);
    let before = m.cursor;
    assert_eq!(m.handle_key(ctrl(KeyCode::Char('s'))), Some(Action::Save));
    assert_eq!(m.handle_key(ctrl(KeyCode::Char('r'))), Some(Action::Resize));
    assert_eq!(m.handle_key(key(KeyCode::Esc)), Some(Action::Quit));
    assert_eq!(m.cursor, before);
    assert_eq!(m.size, Size(13, 7));
    assert_eq!(lines(&m), vec!["ab"]);
}

#[test]
fn unknown_keys_change_nothing() {
    let mut m = session("ab");
    let before = m.cursor;
    assert_eq!(m.handle_key(key(KeyCode::Other)), None);
    assert_eq!(m.cursor, before);
    assert_eq!(lines(&m), vec!["ab"]);
}

#[test]
fn resize_keeps_the_document_position() {
    let mut m = session("ab\ncd");
    place(&mut m, 12, 25);
    m.cursor.x = 7;
    m.cursor.y = 3;
    m.resize(80, 24);
    assert_eq!(m.size, Size(80, 24));
    assert_eq!(m.cursor, Cursor { x: 2, y: 1, main: MainCursor { x: 25, y: 12 } });
    assert_eq!(lines(&m), vec!["ab", "cd"]);
    assert_eq!(m.nearest_cursors(), (0, 0));
    m.resize(13, 7);
    assert_eq!(m.nearest_cursors(), (20, 10));
}

#[test]
fn typing_across_a_page_keeps_screen_and_document_together() {
    let mut m = session("");
    for (i, ch) in "abcdefghijklmnopqrstuvwxy".chars().enumerate() {
        assert_eq!(m.handle_key(key(KeyCode::Char(ch))), Some(Action::Render));
        let (x, y) = m.nearest_cursors();
        assert_eq!(m.cursor.main.x, i + 1);
        assert_eq!(m.cursor.main.x, x + (m.cursor.x as usize - 2));
        assert_eq!(m.cursor.main.y, y + (m.cursor.y as usize - 1));
    }
    assert_eq!(lines(&m), vec!["abcdefghijklmnopqrstuvwxy"]);
    assert_eq!(m.handle_buffer(), vec!["uvwxy", "", "", "", ""]);
}

#[test]
fn home_shows_the_first_cell_of_the_document() {
    let mut m = Manager::new(13, 7);
    m.cursor.reset();
    let (x, y) = m.nearest_cursors();
    assert_eq!((x, y), (0, 0));
    assert_eq!(m.cursor.main.x, x + (m.cursor.x as usize - 2));
    assert_eq!(m.cursor.main.y, y + (m.cursor.y as usize - 1));
}

#[test]
fn rows_on_page_follows_the_cursor_page() {
    let mut m = session("l0\nl1\nl2\nl3\nl4\nl5\nl6");
    assert_eq!(m.rows_on_page(), 5);
    place(&mut m, 6, 0);
    assert_eq!(m.rows_on_page(), 2);
    assert_eq!(m.handle_buffer(), vec!["l5", "l6", "", "", ""]);
    place(&mut m, 10, 0);
    assert_eq!(m.rows_on_page(), 0);
    let mut e = session("");
    assert_eq!(e.rows_on_page(), 0);
    assert_eq!(m.cursor.main, MainCursor { x: 0, y: 10 });
}

#[test]
fn text_area_may_be_empty() {
    assert_eq!(Size(3, 2).text_columns(), 0);
    assert_eq!(Size(3, 2).text_rows(), 0);
}
