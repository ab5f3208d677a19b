use http_client::http::{request_url, response_text, HOSTNAME};
use http_client::interface::right_widget::{
    header_to_add, header_update, ApiWidget, Content, RequestWidget, ResourceWidget, RightCommand,
    RightInputResult,
    RightStep, RightWidget,
};
use http_client::interface::Key;
use http_client::models::{Api, Header, Request, Resource};
use http_client::types::HttpMethod;

fn stored_request() -> Request {
    Request {
        id: 9,
        route: "/users".to_string(),
        method: HttpMethod::Get,
        body: None,
        resource_id: 2,
    }
}

fn header(id: i32, key: &str, value: &str) -> Header {
    Header { id, key: key.to_string(), value: value.to_string(), request_id: 9 }
}

fn editor_type(editor: &mut RequestWidget, text: &str) {
    for c in text.chars() {
        assert_eq!(editor.handle_input(Key::Char(c)), RightStep::Reply(RightInputResult::NoOp));
    }
}

#[test]
fn method_cycle_has_five_steps() {
    let all = [
        HttpMethod::Get,
        HttpMethod::Post,
        HttpMethod::Put,
        HttpMethod::Patch,
        HttpMethod::Delete,
    ];
    for m in all {
        let mut n = m;
        for _ in 0..5 {
            n = n.next();
        }
        assert_eq!(n, m);
    }
    assert_eq!(HttpMethod::Delete.next(), HttpMethod::Get);
    assert_eq!(HttpMethod::Get.next(), HttpMethod::Post);
}

#[test]
fn tabs_wrap_both_ways() {
    let mut editor = RequestWidget::new(stored_request(), vec![]);
    editor.handle_input(Key::Char('h'));
    assert_eq!(editor.tab_index, 3);
    editor.handle_input(Key::Char('l'));
    assert_eq!(editor.tab_index, 0);
    for expected in [1, 2, 3, 0, 1] {
        editor.handle_input(Key::Char('l'));
        assert_eq!(editor.tab_index, expected);
    }
    for _ in 0..20 {
        editor.handle_input(Key::Char('h'));
        assert!(editor.tab_index < 4);
    }
}

#[test]
fn shortcut_keys_jump_to_tabs() {
    let mut editor = RequestWidget::new(stored_request(), vec![]);
    for (c, tab) in [('B', 3), ('P', 2), ('H', 1), ('D', 0)] {
        editor.handle_input(Key::Char(c));
        assert_eq!(editor.tab_index, tab);
    }
}

#[test]
fn edit_route_and_commit() {
    let mut editor = RequestWidget::new(stored_request(), vec![]);
    editor.handle_input(Key::Char('j'));
    assert_eq!(editor.request_details_table_state, Some(0));
    editor.handle_input(Key::Char('e'));
    assert_eq!(editor.input, Some("/users".to_string()));
    for _ in 0.."/users".len() {
        editor.handle_input(Key::Backspace);
    }
    assert_eq!(editor.input, Some(String::new()));
    editor_type(&mut editor, "/v2/users");
    let step = editor.handle_input(Key::Enter);
    assert_eq!(step, RightStep::Run(RightCommand::SaveRoute("/v2/users".to_string())));
    assert_eq!(editor.input, None);
    let mut saved = stored_request();
    saved.route = "/v2/users".to_string();
    assert_eq!(editor.request_saved(saved), RightInputResult::RefreshRequests);
    assert_eq!(editor.request.route, "/v2/users");
}

#[test]
fn enter_on_route_row_starts_edit() {
    let mut editor = RequestWidget::new(stored_request(), vec![]);
    editor.handle_input(Key::Char('k'));
    assert_eq!(editor.handle_input(Key::Enter), RightStep::Reply(RightInputResult::NoOp));
    assert_eq!(editor.input, Some("/users".to_string()));
}

#[test]
fn enter_on_method_row_cycles_method() {
    let mut editor = RequestWidget::new(stored_request(), vec![]);
    editor.handle_input(Key::Char('j'));
    editor.handle_input(Key::Char('j'));
    assert_eq!(editor.request_details_table_state, Some(1));
    let step = editor.handle_input(Key::Enter);
    assert_eq!(step, RightStep::Run(RightCommand::SaveMethod(HttpMethod::Post)));
    let mut saved = stored_request();
    saved.method = HttpMethod::Post;
    assert_eq!(editor.request_saved(saved), RightInputResult::RefreshRequests);
    assert_eq!(editor.request.method, HttpMethod::Post);
}

#[test]
fn details_rows_toggle() {
    let mut editor = RequestWidget::new(stored_request(), vec![]);
    editor.move_up();
    assert_eq!(editor.request_details_table_state, Some(0));
    editor.move_up();
    assert_eq!(editor.request_details_table_state, Some(1));
    editor.move_down();
    assert_eq!(editor.request_details_table_state, Some(0));
}

#[test]
fn enter_without_row_does_nothing() {
    let mut editor = RequestWidget::new(stored_request(), vec![]);
    assert_eq!(editor.handle_input(Key::Enter), RightStep::Reply(RightInputResult::NoOp));
    assert_eq!(editor.input, None);
    editor.handle_input(Key::Char('e'));
    assert_eq!(editor.input, None);
}

#[test]
fn add_header_on_empty_headers_tab() {
    let mut editor = RequestWidget::new(stored_request(), vec![]);
    editor.handle_input(Key::Char('l'));
    assert_eq!(editor.tab_index, 1);
    editor.handle_input(Key::Char('a'));
    assert_eq!(editor.input, Some(String::new()));
    editor_type(&mut editor, "Authorization");
    let step = editor.handle_input(Key::Enter);
    assert_eq!(step, RightStep::Run(RightCommand::AddHeader("Authorization".to_string())));
    editor.headers_loaded(vec![header(1, "Authorization", "")]);
    assert_eq!(editor.headers.len(), 1);
    assert_eq!(editor.headers[0].key, "Authorization");
    assert_eq!(editor.headers[0].value, "");
}

#[test]
fn add_key_only_works_on_headers_tab() {
    let mut editor = RequestWidget::new(stored_request(), vec![]);
    editor.handle_input(Key::Char('a'));
    assert_eq!(editor.input, None);
}

#[test]
fn edit_selected_header_value() {
    let mut editor = RequestWidget::new(
        stored_request(),
        vec![header(1, "Accept", "text/plain"), header(2, "Host", "x")],
    );
    editor.handle_input(Key::Char('H'));
    editor.header_table_state = Some(0);
    editor.handle_input(Key::Char('e'));
    assert_eq!(editor.input, Some("text/plain".to_string()));
    editor.handle_input(Key::Backspace);
    let step = editor.handle_input(Key::Enter);
    assert_eq!(step, RightStep::Run(RightCommand::SaveHeaderValue(0, "text/plai".to_string())));
    editor.handle_input(Key::Char('a'));
    assert_eq!(editor.input, None);
}

#[test]
fn header_cursor_clamps_at_ends() {
    let mut editor = RequestWidget::new(
        stored_request(),
        vec![header(1, "a", "1"), header(2, "b", "2"), header(3, "c", "3")],
    );
    editor.handle_input(Key::Char('H'));
    editor.handle_input(Key::Char('j'));
    assert_eq!(editor.header_table_state, None);
    editor.header_table_state = Some(1);
    editor.handle_input(Key::Char('j'));
    assert_eq!(editor.header_table_state, Some(2));
    editor.handle_input(Key::Char('j'));
    assert_eq!(editor.header_table_state, Some(2));
    editor.handle_input(Key::Char('k'));
    editor.handle_input(Key::Char('k'));
    editor.handle_input(Key::Char('k'));
    assert_eq!(editor.header_table_state, Some(0));
}

#[test]
fn reloaded_headers_drop_cursor_past_end() {
    let mut editor = RequestWidget::new(stored_request(), vec![header(1, "a", "1"), header(2, "b", "2")]);
    editor.header_table_state = Some(1);
    editor.headers_loaded(vec![header(1, "a", "1")]);
    assert_eq!(editor.header_table_state, None);
}

#[test]
fn send_keeps_executor_text() {
    let mut editor = RequestWidget::new(stored_request(), vec![]);
    assert_eq!(editor.response, None);
    assert_eq!(editor.handle_input(Key::Char('r')), RightStep::Run(RightCommand::Send));
    let text = response_text(Err("connection refused".to_string()));
    assert_eq!(text, "Request failed: connection refused");
    editor.response_received(text.clone());
    assert_eq!(editor.response, Some(text));
    editor.response_received("{\"ok\":true}".to_string());
    assert_eq!(editor.response, Some("{\"ok\":true}".to_string()));
}

#[test]
fn response_text_passes_body_through() {
    assert_eq!(response_text(Ok("body".to_string())), "body");
}

#[test]
fn request_url_joins_host_and_route() {
    assert_eq!(request_url(HOSTNAME, "/users"), "https://dummyjson.com/users");
}

#[test]
fn backspace_and_quit_in_editor() {
    let mut editor = RequestWidget::new(stored_request(), vec![]);
    assert_eq!(editor.handle_input(Key::Backspace), RightStep::Reply(RightInputResult::LoseFocus));
    assert_eq!(editor.handle_input(Key::Char('q')), RightStep::Reply(RightInputResult::Exit));
    assert_eq!(editor.handle_input(Key::Other), RightStep::Reply(RightInputResult::NoOp));
    editor.handle_input(Key::Char('j'));
    editor.handle_input(Key::Char('e'));
    assert_eq!(editor.handle_input(Key::Char('q')), RightStep::Reply(RightInputResult::NoOp));
    assert_eq!(editor.input, Some("/usersq".to_string()));
}

#[test]
fn panel_without_editor_ignores_keys() {
    let api = Api { id: 1, name: "a".to_string() };
    let resource = Resource { id: 2, name: "r".to_string(), api_id: 1 };
    let mut panel = RightWidget::new(Some(Content::Api(ApiWidget::new(api, vec![resource]))));
    assert_eq!(panel.handle_input(Key::Char('q')), RightStep::Reply(RightInputResult::NoOp));
    assert_eq!(panel.request_saved(stored_request()), RightInputResult::NoOp);
    panel.set_type(Some(Content::Resource(ResourceWidget::new(
        Resource { id: 2, name: "r".to_string(), api_id: 1 },
        vec![stored_request()],
    ))));
    assert_eq!(panel.handle_input(Key::Backspace), RightStep::Reply(RightInputResult::NoOp));
    panel.set_type(None);
    assert!(panel.content.is_none());
}

#[test]
fn panel_hands_keys_to_editor() {
    let mut panel = RightWidget::new(None);
    panel.set_type(Some(Content::Request(RequestWidget::new(stored_request(), vec![]))));
    assert_eq!(panel.handle_input(Key::Char('r')), RightStep::Run(RightCommand::Send));
    panel.response_received("pong".to_string());
    panel.headers_loaded(vec![header(1, "k", "v")]);
    match &panel.content {
        Some(Content::Request(w)) => {
            assert_eq!(w.response, Some("pong".to_string()));
            assert_eq!(w.headers.len(), 1);
        }
        _ => panic!("editor expected"),
    }
    assert_eq!(panel.handle_input(Key::Backspace), RightStep::Reply(RightInputResult::LoseFocus));
}

#[test]
fn added_header_has_empty_value() {
    let new = header_to_add("Accept", 9);
    assert_eq!(new.key, "Accept");
    assert_eq!(new.value, "");
    assert_eq!(new.request_id, 9);
}

#[test]
fn header_update_keeps_key_and_owner() {
    let existing = header(4, "Accept", "old");
    let changes = header_update(&existing, "new");
    assert_eq!(changes.key, "Accept");
    assert_eq!(changes.value, "new");
    assert_eq!(changes.request_id, 9);
}
