use command_browser::event::{KeyCode, KeyEvent, KeyEventKind, MouseEvent, MouseEventKind};
use command_browser::ui::search::SearchBox;
use command_browser::ui::state::{Action, Area, Position, UIComponent};

fn key(code: KeyCode, ctrl: bool, kind: KeyEventKind) -> KeyEvent {
    KeyEvent { code, ctrl, kind }
}

fn placed(x: u16, y: u16, width: u16, height: u16) -> SearchBox {
    let mut search = SearchBox::default();
    search.place(Area { x, y, width, height });
    search
}

#[test]
fn a_widget_without_an_area_holds_no_position() {
    let search = SearchBox::default();
    assert_eq!(search.area(), None);
    assert!(!search.contains(Position { x: 0, y: 0 }));
    assert!(!search.contains(Position { x: 7, y: 3 }));
}

#[test]
fn an_area_holds_its_cells_and_no_others() {
    let search = placed(1, 2, 3, 4);
    assert_eq!(search.area(), Some(Area { x: 1, y: 2, width: 3, height: 4 }));
    assert!(search.contains(Position { x: 1, y: 2 }));
    assert!(search.contains(Position { x: 3, y: 5 }));
    assert!(search.contains(Position { x: 2, y: 3 }));
    assert!(!search.contains(Position { x: 0, y: 2 }));
    assert!(!search.contains(Position { x: 1, y: 1 }));
    assert!(!search.contains(Position { x: 4, y: 2 }));
    assert!(!search.contains(Position { x: 1, y: 6 }));
    assert!(!search.contains(Position { x: 4, y: 6 }));
}

#[test]
fn an_empty_area_holds_no_position() {
    assert!(!placed(5, 5, 0, 3).contains(Position { x: 5, y: 5 }));
    assert!(!placed(5, 5, 3, 0).contains(Position { x: 5, y: 5 }));
}

#[test]
fn an_area_ends_before_the_last_cell_of_the_terminal() {
    let search = placed(65530, 65530, 100, 100);
    assert!(search.contains(Position { x: 65530, y: 65530 }));
    assert!(search.contains(Position { x: 65534, y: 65534 }));
    assert!(!search.contains(Position { x: 65535, y: 65534 }));
    assert!(!search.contains(Position { x: 65534, y: 65535 }));
    assert!(!search.contains(Position { x: 65529, y: 65530 }));
}

#[test]
fn the_search_box_is_three_rows_high() {
    assert_eq!(SearchBox::default().height(), 3);
    assert_eq!(placed(0, 0, 80, 24).height(), 3);
}

#[test]
fn the_search_box_hands_keys_to_the_editor() {
    let mut search = SearchBox::default();
    assert_eq!(search.key(key(KeyCode::Char('a'), false, KeyEventKind::Press)), Action::Edit);
    assert_eq!(search.key(key(KeyCode::Char('m'), false, KeyEventKind::Press)), Action::Edit);
    assert_eq!(search.key(key(KeyCode::Char('a'), true, KeyEventKind::Repeat)), Action::Edit);
    assert_eq!(search.key(key(KeyCode::Up, false, KeyEventKind::Press)), Action::Edit);
    assert_eq!(search.key(key(KeyCode::Other, false, KeyEventKind::Press)), Action::Edit);
}

#[test]
fn the_search_box_drops_keys_that_start_a_line() {
    let mut search = SearchBox::default();
    assert_eq!(search.key(key(KeyCode::Enter, false, KeyEventKind::Press)), Action::Done);
    assert_eq!(search.key(key(KeyCode::Enter, true, KeyEventKind::Repeat)), Action::Done);
    assert_eq!(search.key(key(KeyCode::Char('m'), true, KeyEventKind::Press)), Action::Done);
}

#[test]
fn a_key_that_comes_up_starts_no_line() {
    let mut search = SearchBox::default();
    assert_eq!(search.key(key(KeyCode::Enter, false, KeyEventKind::Release)), Action::Edit);
    assert_eq!(search.key(key(KeyCode::Char('m'), true, KeyEventKind::Release)), Action::Edit);
}

#[test]
fn a_click_leaves_the_search_box_as_it_is() {
    let mut search = placed(0, 21, 80, 3);
    search.click(MouseEvent { kind: MouseEventKind::ScrollDown, column: 1, row: 22 });
    assert_eq!(search.area(), Some(Area { x: 0, y: 21, width: 80, height: 3 }));
}
