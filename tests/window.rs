use http_client::interface::left_widget::{LeftCommand, LeftContent, LeftInputResult, LeftType};
use http_client::interface::main_window::{right_type_for, Focus, MainWindow, WindowStep};
use http_client::interface::right_widget::{
    Content, RequestWidget, RightCommand, RightInputResult, RightType,
};
use http_client::interface::Key;
use http_client::models::{Api, Request};
use http_client::types::HttpMethod;

fn window_request(id: i32) -> Request {
    Request { id, route: "/r".to_string(), method: HttpMethod::Get, body: None, resource_id: 5 }
}

#[test]
fn moving_over_apis_asks_for_detail() {
    let mut window = MainWindow::new(vec![Api { id: 3, name: "a".to_string() }]);
    assert_eq!(window.handle_input(Key::Char('j')), WindowStep::Show(RightType::Api(3)));
    assert_eq!(window.focus, Focus::Left);
    assert_eq!(window.handle_input(Key::Char('q')), WindowStep::Exit);
}

#[test]
fn navigator_commands_pass_through() {
    let mut window = MainWindow::new(vec![Api { id: 3, name: "a".to_string() }]);
    window.handle_input(Key::Char('j'));
    assert_eq!(
        window.handle_input(Key::Enter),
        WindowStep::Left(LeftCommand::Descend(LeftType::Resources(3)))
    );
    let shown = window.left.descend(LeftContent::Resources(vec![], 3));
    assert_eq!(window.on_left(shown), WindowStep::Continue);
    assert!(window.right.content.is_none());
}

#[test]
fn edit_request_moves_focus_and_back() {
    let mut window = MainWindow::new(vec![]);
    window.left.descend(LeftContent::Requests(vec![window_request(7)], 5));
    assert_eq!(window.handle_input(Key::Char('j')), WindowStep::Show(RightType::Request(7)));
    window.right.set_type(Some(Content::Request(RequestWidget::new(window_request(7), vec![]))));
    assert_eq!(window.handle_input(Key::Enter), WindowStep::Continue);
    assert_eq!(window.focus, Focus::Right);
    assert_eq!(window.handle_input(Key::Char('r')), WindowStep::Right(RightCommand::Send));
    assert_eq!(window.handle_input(Key::Backspace), WindowStep::Continue);
    assert_eq!(window.focus, Focus::Left);
}

#[test]
fn saved_request_reloads_requests_level() {
    let mut window = MainWindow::new(vec![]);
    window.left.descend(LeftContent::Requests(vec![window_request(7)], 5));
    window.focus = Focus::Right;
    assert_eq!(
        window.on_right(RightInputResult::RefreshRequests),
        WindowStep::Reload(LeftType::Requests(5))
    );
    let mut window = MainWindow::new(vec![]);
    assert_eq!(window.on_right(RightInputResult::RefreshRequests), WindowStep::Continue);
    assert_eq!(window.on_right(RightInputResult::Exit), WindowStep::Exit);
}

#[test]
fn right_type_follows_selection() {
    assert_eq!(right_type_for(LeftInputResult::ShowResource(4)), RightType::Resource(4));
    assert_eq!(right_type_for(LeftInputResult::ShowNothing), RightType::Empty);
    assert_eq!(right_type_for(LeftInputResult::Exit), RightType::Empty);
}
