use command_browser::app::{App, AppFocus};
use command_browser::event::{Event, KeyCode, KeyEvent, KeyEventKind, MouseEvent, MouseEventKind};
use command_browser::ui::state::{Action, Area, UIComponent};

fn press(code: KeyCode) -> Event {
    Event::Key(KeyEvent { code, ctrl: false, kind: KeyEventKind::Press })
}

fn control(c: char) -> Event {
    Event::Key(KeyEvent { code: KeyCode::Char(c), ctrl: true, kind: KeyEventKind::Press })
}

fn mouse(kind: MouseEventKind, column: u16, row: u16) -> Event {
    Event::Mouse(MouseEvent { kind, column, row })
}

/// An application on a terminal of 80 columns and 23 rows: the viewer on
/// rows 0 to 9, the table on rows 10 to 19, the search box on rows 20 to 22.
fn laid_out() -> App {
    let mut app = App::new();
    app.views(
        Area { x: 0, y: 0, width: 80, height: 10 },
        Area { x: 0, y: 10, width: 80, height: 10 },
        Area { x: 0, y: 20, width: 80, height: 3 },
    );
    app
}

#[test]
fn a_new_application_lists_ten_commands() {
    let app = App::new();
    assert!(app.running);
    assert_eq!(app.attention, AppFocus::Nowhere);
    assert_eq!(app.table_state.content().len(), 10);
    for command in app.table_state.content() {
        assert_eq!(command.command, "ls");
        assert_eq!(command.description, "List directory contents");
        assert_eq!(command.tags, vec!["list", "directory", "contents"]);
    }
    assert_eq!(app.table_state.cursor(), None);
    assert_eq!(app.table_state.area(), None);
    assert_eq!(app.search_state.area(), None);
    assert_eq!(app.template_state.area(), None);
    assert!(!app.template_state.showing_document());
    assert!(app.template_state.document().is_empty());
}

#[test]
fn the_widgets_are_put_into_their_areas() {
    let app = laid_out();
    assert_eq!(app.template_state.area(), Some(Area { x: 0, y: 0, width: 80, height: 10 }));
    assert_eq!(app.table_state.area(), Some(Area { x: 0, y: 10, width: 80, height: 10 }));
    assert_eq!(app.search_state.area(), Some(Area { x: 0, y: 20, width: 80, height: 3 }));
    assert!(app.running);
    assert_eq!(app.attention, AppFocus::Nowhere);
    assert_eq!(app.table_state.content().len(), 10);
}

#[test]
fn escape_ends_the_application() {
    let mut app = laid_out();
    assert_eq!(app.handle(press(KeyCode::Esc)), Action::Done);
    assert!(!app.running);
}

#[test]
fn control_c_ends_the_application() {
    let mut app = laid_out();
    app.handle(mouse(MouseEventKind::Other, 1, 21));
    assert_eq!(app.attention, AppFocus::Search);
    assert_eq!(app.handle(control('c')), Action::Done);
    assert!(!app.running);
    assert_eq!(app.attention, AppFocus::Search);
}

#[test]
fn a_plain_c_does_not_end_the_application() {
    let mut app = laid_out();
    assert_eq!(app.handle(press(KeyCode::Char('c'))), Action::Done);
    assert!(app.running);
    assert_eq!(app.handle(control('d')), Action::Done);
    assert!(app.running);
}

#[test]
fn quit_ends_the_application() {
    let mut app = App::new();
    app.quit();
    assert!(!app.running);
    assert_eq!(app.attention, AppFocus::Nowhere);
    assert_eq!(app.table_state.content().len(), 10);
}

#[test]
fn a_tick_changes_nothing() {
    let mut app = laid_out();
    app.tick();
    assert_eq!(app.handle(Event::Tick), Action::Done);
    assert!(app.running);
    assert_eq!(app.attention, AppFocus::Nowhere);
    assert_eq!(app.table_state.cursor(), None);
}

#[test]
fn the_mouse_gives_the_attention_to_the_widget_under_it() {
    let mut app = laid_out();
    assert_eq!(app.handle(mouse(MouseEventKind::Other, 5, 10)), Action::Done);
    assert_eq!(app.attention, AppFocus::Table);
    app.handle(mouse(MouseEventKind::Other, 79, 22));
    assert_eq!(app.attention, AppFocus::Search);
    app.handle(mouse(MouseEventKind::Other, 0, 9));
    assert_eq!(app.attention, AppFocus::Template);
    app.handle(mouse(MouseEventKind::Other, 80, 9));
    assert_eq!(app.attention, AppFocus::Nowhere);
    app.handle(mouse(MouseEventKind::ScrollUp, 0, 19));
    assert_eq!(app.attention, AppFocus::Table);
    app.handle(mouse(MouseEventKind::Other, 0, 23));
    assert_eq!(app.attention, AppFocus::Nowhere);
}

#[test]
fn the_table_comes_first_where_areas_overlap() {
    let mut app = App::new();
    let everywhere = Area { x: 0, y: 0, width: 10, height: 10 };
    app.views(everywhere, everywhere, everywhere);
    app.handle(mouse(MouseEventKind::Other, 3, 3));
    assert_eq!(app.attention, AppFocus::Table);
    let mut app = App::new();
    app.views(everywhere, Area { x: 0, y: 0, width: 0, height: 0 }, everywhere);
    app.handle(mouse(MouseEventKind::Other, 3, 3));
    assert_eq!(app.attention, AppFocus::Search);
}

#[test]
fn before_the_first_drawing_the_mouse_is_nowhere() {
    let mut app = App::new();
    app.attention = AppFocus::Table;
    app.handle(mouse(MouseEventKind::Other, 0, 0));
    assert_eq!(app.attention, AppFocus::Nowhere);
}

#[test]
fn keys_go_to_the_table_while_it_has_the_attention() {
    let mut app = laid_out();
    app.handle(mouse(MouseEventKind::Other, 5, 12));
    assert_eq!(app.handle(press(KeyCode::Down)), Action::Done);
    assert_eq!(app.table_state.cursor(), Some(0));
    app.handle(press(KeyCode::Down));
    app.handle(press(KeyCode::Down));
    assert_eq!(app.table_state.cursor(), Some(2));
    app.handle(press(KeyCode::Up));
    assert_eq!(app.table_state.cursor(), Some(1));
    for _ in 0..20 {
        app.handle(press(KeyCode::Down));
    }
    assert_eq!(app.table_state.cursor(), Some(9));
    assert!(app.running);
}

#[test]
fn keys_go_nowhere_while_nothing_has_the_attention() {
    let mut app = laid_out();
    assert_eq!(app.handle(press(KeyCode::Down)), Action::Done);
    assert_eq!(app.handle(press(KeyCode::Char('x'))), Action::Done);
    assert_eq!(app.table_state.cursor(), None);
}

#[test]
fn keys_go_to_the_editor_while_the_search_box_has_the_attention() {
    let mut app = laid_out();
    app.handle(mouse(MouseEventKind::Other, 5, 21));
    assert_eq!(app.handle(press(KeyCode::Char('l'))), Action::Edit);
    assert_eq!(app.handle(press(KeyCode::Down)), Action::Edit);
    assert_eq!(app.handle(press(KeyCode::Enter)), Action::Done);
    assert_eq!(app.handle(control('m')), Action::Done);
    assert_eq!(app.table_state.cursor(), None);
    assert!(app.running);
}

#[test]
fn a_key_on_the_viewer_asks_for_the_document() {
    let mut app = laid_out();
    app.handle(mouse(MouseEventKind::Other, 5, 5));
    assert_eq!(app.handle(press(KeyCode::Char('o'))), Action::Open(String::from("Cargo.lock")));
    assert_eq!(app.template_state.show_document("Cargo.lock", Ok(String::from("a\nb\nc"))), None);
    assert!(app.template_state.showing_document());
    assert_eq!(app.template_state.document(), &vec!["a", "b", "c"]);
}

#[test]
fn the_wheel_scrolls_the_document_under_the_mouse() {
    let mut app = laid_out();
    app.template_state.show_document("Cargo.lock", Ok(String::from("a\nb\nc")));
    app.handle(mouse(MouseEventKind::ScrollDown, 5, 5));
    assert_eq!(app.attention, AppFocus::Template);
    assert_eq!(app.template_state.cursor(), 1);
    app.handle(mouse(MouseEventKind::ScrollDown, 5, 5));
    app.handle(mouse(MouseEventKind::ScrollDown, 5, 5));
    assert_eq!(app.template_state.cursor(), 2);
    app.handle(mouse(MouseEventKind::ScrollUp, 5, 5));
    assert_eq!(app.template_state.cursor(), 1);
    app.handle(mouse(MouseEventKind::ScrollDown, 5, 15));
    assert_eq!(app.attention, AppFocus::Table);
    assert_eq!(app.template_state.cursor(), 1);
}

#[test]
fn the_application_accepts_what_it_can_handle() {
    let mut app = laid_out();
    assert!(app.accepts(&Event::Tick));
    assert!(app.accepts(&press(KeyCode::Down)));
    assert!(app.accepts(&press(KeyCode::Esc)));
    assert!(app.accepts(&mouse(MouseEventKind::ScrollDown, 5, 5)));
    assert!(app.accepts(&mouse(MouseEventKind::ScrollDown, 5, 15)));
    app.handle(mouse(MouseEventKind::Other, 5, 15));
    assert!(app.accepts(&press(KeyCode::Down)));
    app.handle(press(KeyCode::Down));
    assert!(app.accepts(&press(KeyCode::Down)));
}

#[test]
fn a_change_of_size_is_not_accepted() {
    let app = laid_out();
    assert!(!app.accepts(&Event::Resize(80, 24)));
    assert!(!app.accepts(&Event::Resize(0, 0)));
}

#[test]
fn the_wheel_down_on_a_document_without_lines_is_not_accepted() {
    let mut app = laid_out();
    app.template_state.show_document("empty", Ok(String::new()));
    assert!(!app.accepts(&mouse(MouseEventKind::ScrollDown, 5, 5)));
    assert!(app.accepts(&mouse(MouseEventKind::ScrollUp, 5, 5)));
    assert!(app.accepts(&mouse(MouseEventKind::ScrollDown, 5, 15)));
    assert!(app.accepts(&mouse(MouseEventKind::ScrollDown, 5, 30)));
}

#[test]
fn the_down_arrow_on_an_empty_table_with_a_cursor_is_not_accepted() {
    let mut app = laid_out();
    app.table_state = command_browser::ui::table::CommandsTable::new(Vec::new());
    app.attention = AppFocus::Table;
    assert!(app.accepts(&press(KeyCode::Down)));
    app.handle(press(KeyCode::Down));
    assert_eq!(app.table_state.cursor(), Some(0));
    assert!(!app.accepts(&press(KeyCode::Down)));
    assert!(app.accepts(&press(KeyCode::Up)));
    assert!(app.accepts(&press(KeyCode::Esc)));
    app.attention = AppFocus::Search;
    assert!(app.accepts(&press(KeyCode::Down)));
}
