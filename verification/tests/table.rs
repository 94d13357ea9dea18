use command_browser::event::{KeyCode, KeyEvent, KeyEventKind, MouseEvent, MouseEventKind};
use command_browser::ui::state::{Action, Area, Position, UIComponent};
use command_browser::ui::table::CommandsTable;

fn press(code: KeyCode) -> KeyEvent {
    KeyEvent { code, ctrl: false, kind: KeyEventKind::Press }
}

fn rows(count: usize) -> CommandsTable<usize> {
    CommandsTable::new((0..count).collect())
}

#[test]
fn a_new_table_has_its_rows_and_no_cursor() {
    let table = CommandsTable::new(vec!["ls", "pwd", "cd"]);
    assert_eq!(table.content(), &vec!["ls", "pwd", "cd"]);
    assert_eq!(table.cursor(), None);
    assert_eq!(table.offset(), 0);
    assert_eq!(table.commands_in_view(), 0);
    assert_eq!(table.area(), None);
}

#[test]
fn an_arrow_brings_the_cursor_to_the_first_row() {
    let mut table = rows(3);
    assert_eq!(table.key(press(KeyCode::Down)), Action::Done);
    assert_eq!(table.cursor(), Some(0));
    let mut table = rows(3);
    assert_eq!(table.key(press(KeyCode::Up)), Action::Done);
    assert_eq!(table.cursor(), Some(0));
}

#[test]
fn the_down_arrow_stops_at_the_last_row() {
    let mut table = rows(3);
    table.key(press(KeyCode::Down));
    table.key(press(KeyCode::Down));
    assert_eq!(table.cursor(), Some(1));
    table.key(press(KeyCode::Down));
    assert_eq!(table.cursor(), Some(2));
    table.key(press(KeyCode::Down));
    assert_eq!(table.cursor(), Some(2));
}

#[test]
fn the_up_arrow_stops_at_the_first_row() {
    let mut table = rows(3);
    for _ in 0..3 {
        table.key(press(KeyCode::Down));
    }
    assert_eq!(table.cursor(), Some(2));
    table.key(press(KeyCode::Up));
    assert_eq!(table.cursor(), Some(1));
    table.key(press(KeyCode::Up));
    assert_eq!(table.cursor(), Some(0));
    table.key(press(KeyCode::Up));
    assert_eq!(table.cursor(), Some(0));
}

#[test]
fn a_table_of_one_row_keeps_its_cursor_on_it() {
    let mut table = rows(1);
    table.key(press(KeyCode::Down));
    table.key(press(KeyCode::Down));
    assert_eq!(table.cursor(), Some(0));
    table.key(press(KeyCode::Up));
    assert_eq!(table.cursor(), Some(0));
}

#[test]
fn an_empty_table_takes_the_first_arrow() {
    let mut table = rows(0);
    table.key(press(KeyCode::Up));
    assert_eq!(table.cursor(), Some(0));
    table.key(press(KeyCode::Up));
    assert_eq!(table.cursor(), Some(0));
    let mut table = rows(0);
    table.key(press(KeyCode::Down));
    assert_eq!(table.cursor(), Some(0));
}

#[test]
fn only_a_pressed_key_moves_the_cursor() {
    let mut table = rows(3);
    table.key(KeyEvent { code: KeyCode::Down, ctrl: false, kind: KeyEventKind::Release });
    assert_eq!(table.cursor(), None);
    table.key(KeyEvent { code: KeyCode::Down, ctrl: false, kind: KeyEventKind::Repeat });
    assert_eq!(table.cursor(), None);
    table.key(press(KeyCode::Down));
    table.key(press(KeyCode::Down));
    table.key(KeyEvent { code: KeyCode::Up, ctrl: false, kind: KeyEventKind::Release });
    assert_eq!(table.cursor(), Some(1));
}

#[test]
fn other_keys_leave_the_cursor() {
    let mut table = rows(3);
    table.key(press(KeyCode::Enter));
    table.key(press(KeyCode::Char('j')));
    table.key(press(KeyCode::Esc));
    table.key(press(KeyCode::Other));
    assert_eq!(table.cursor(), None);
    table.key(press(KeyCode::Down));
    table.key(press(KeyCode::Down));
    table.key(press(KeyCode::Enter));
    assert_eq!(table.cursor(), Some(1));
    assert_eq!(table.content(), &vec![0, 1, 2]);
}

#[test]
fn a_click_leaves_the_table_as_it_is() {
    let mut table = rows(3);
    table.key(press(KeyCode::Down));
    table.click(MouseEvent { kind: MouseEventKind::ScrollDown, column: 0, row: 0 });
    table.click(MouseEvent { kind: MouseEventKind::Other, column: 3, row: 1 });
    assert_eq!(table.cursor(), Some(0));
    assert_eq!(table.content(), &vec![0, 1, 2]);
}

#[test]
fn a_table_is_put_into_its_area() {
    let mut table = rows(3);
    table.key(press(KeyCode::Down));
    table.place(Area { x: 0, y: 10, width: 80, height: 10 });
    assert_eq!(table.area(), Some(Area { x: 0, y: 10, width: 80, height: 10 }));
    assert_eq!(table.cursor(), Some(0));
    assert!(table.contains(Position { x: 79, y: 19 }));
    assert!(!table.contains(Position { x: 79, y: 20 }));
    assert!(!table.contains(Position { x: 0, y: 9 }));
}

#[test]
fn a_copy_of_a_table_has_its_rows_and_cursor() {
    let mut table = rows(4);
    table.key(press(KeyCode::Down));
    table.key(press(KeyCode::Down));
    table.place(Area { x: 1, y: 1, width: 2, height: 2 });
    let copy = table.clone();
    assert_eq!(copy.content(), table.content());
    assert_eq!(copy.cursor(), Some(1));
    assert_eq!(copy.offset(), 0);
    assert_eq!(copy.area(), table.area());
}
