use http_client::interface::left_widget::{
    request_to_create, LeftCommand, LeftContent, LeftInputResult, LeftList, LeftStep, LeftType,
    SelectedItem,
};
use http_client::interface::Key;
use http_client::models::{Api, Request, Resource};
use http_client::types::HttpMethod;

fn api(id: i32, name: &str) -> Api {
    Api { id, name: name.to_string() }
}

fn resource(id: i32, name: &str, api_id: i32) -> Resource {
    Resource { id, name: name.to_string(), api_id }
}

fn request(id: i32, route: &str, resource_id: i32) -> Request {
    Request { id, route: route.to_string(), method: HttpMethod::Get, body: None, resource_id }
}

fn nav_type(nav: &mut LeftList, text: &str) {
    for c in text.chars() {
        assert_eq!(nav.handle_input(Key::Char(c)), LeftStep::Reply(LeftInputResult::NoOp));
    }
}

fn three_apis() -> Vec<Api> {
    vec![api(10, "a"), api(20, "b"), api(30, "c")]
}

#[test]
fn select_down_wraps_back_to_start() {
    let mut nav = LeftList::new(three_apis());
    nav.select(Some(1));
    for _ in 0..3 {
        nav.select_down();
    }
    assert_eq!(nav.selected(), Some(1));
}

#[test]
fn select_down_from_last_goes_to_first() {
    let mut nav = LeftList::new(three_apis());
    nav.select(Some(2));
    nav.select_down();
    assert_eq!(nav.selected(), Some(0));
}

#[test]
fn select_up_from_first_goes_to_last() {
    let mut nav = LeftList::new(three_apis());
    nav.select(Some(0));
    nav.select_up();
    assert_eq!(nav.selected(), Some(2));
}

#[test]
fn first_move_selects_first_entry() {
    let mut nav = LeftList::new(three_apis());
    nav.select_up();
    assert_eq!(nav.selected(), Some(0));
    let mut nav = LeftList::new(three_apis());
    assert_eq!(nav.handle_input(Key::Char('j')), LeftStep::Reply(LeftInputResult::ShowApi(10)));
}

#[test]
fn moves_on_empty_list_keep_no_selection() {
    let mut nav = LeftList::new(vec![]);
    assert_eq!(nav.handle_input(Key::Char('j')), LeftStep::Reply(LeftInputResult::ShowNothing));
    assert_eq!(nav.handle_input(Key::Char('k')), LeftStep::Reply(LeftInputResult::ShowNothing));
    assert_eq!(nav.selected(), None);
}

#[test]
fn select_out_of_range_clears_selection() {
    let mut nav = LeftList::new(three_apis());
    nav.select(Some(3));
    assert_eq!(nav.selected(), None);
    assert_eq!(nav.selected_entry(), SelectedItem::Nothing);
}

#[test]
fn ascend_after_descend_restores_selection() {
    let mut nav = LeftList::new(three_apis());
    nav.select(Some(2));
    let step = nav.handle_input(Key::Enter);
    assert_eq!(step, LeftStep::Run(LeftCommand::Descend(LeftType::Resources(30))));
    let shown = nav.descend(LeftContent::Resources(vec![resource(5, "users", 30)], 30));
    assert_eq!(shown, LeftInputResult::ShowNothing);
    assert_eq!(nav.selected(), None);
    assert_eq!(nav.handle_input(Key::Backspace), LeftStep::Run(LeftCommand::AscendToApis));
    let shown = nav.ascend(LeftContent::Apis(three_apis()));
    assert_eq!(shown, LeftInputResult::ShowApi(30));
    assert_eq!(nav.selected(), Some(2));
}

#[test]
fn ascend_from_requests_reselects_resource() {
    let resources = vec![resource(4, "a", 1), resource(7, "b", 1)];
    let mut nav = LeftList::new(vec![]);
    nav.descend(LeftContent::Requests(vec![request(1, "/x", 7)], 7));
    assert_eq!(nav.handle_input(Key::Backspace), LeftStep::Run(LeftCommand::AscendToResources(7)));
    let shown = nav.ascend(LeftContent::Resources(resources, 1));
    assert_eq!(shown, LeftInputResult::ShowResource(7));
    assert_eq!(nav.selected(), Some(1));
}

#[test]
fn ascend_without_the_entry_selects_nothing() {
    let mut nav = LeftList::new(vec![]);
    nav.descend(LeftContent::Resources(vec![], 99));
    let shown = nav.ascend(LeftContent::Apis(three_apis()));
    assert_eq!(shown, LeftInputResult::ShowNothing);
    assert_eq!(nav.selected(), None);
}

#[test]
fn position_finds_first_match() {
    let content = LeftContent::Apis(vec![api(1, "a"), api(2, "b"), api(2, "c")]);
    assert_eq!(content.position(2), Some(1));
    assert_eq!(content.position(3), None);
    assert_eq!(content.length(), 3);
}

#[test]
fn create_api_then_descend_shows_empty_resources() {
    let mut nav = LeftList::new(vec![]);
    assert_eq!(nav.handle_input(Key::Char('a')), LeftStep::Reply(LeftInputResult::NoOp));
    nav_type(&mut nav, "Users");
    assert_eq!(
        nav.handle_input(Key::Enter),
        LeftStep::Run(LeftCommand::CreateApi("Users".to_string()))
    );
    assert_eq!(nav.input, None);
    nav.refresh(LeftContent::Apis(vec![api(1, "Users")]));
    assert_eq!(nav.handle_input(Key::Char('j')), LeftStep::Reply(LeftInputResult::ShowApi(1)));
    assert_eq!(
        nav.handle_input(Key::Enter),
        LeftStep::Run(LeftCommand::Descend(LeftType::Resources(1)))
    );
    nav.descend(LeftContent::Resources(vec![], 1));
    assert_eq!(nav.content, LeftContent::Resources(vec![], 1));
    assert_eq!(nav.selected(), None);
}

#[test]
fn create_resource_and_request_carry_parent_id() {
    let mut nav = LeftList::new(vec![]);
    nav.descend(LeftContent::Resources(vec![], 3));
    nav.handle_input(Key::Char('a'));
    nav_type(&mut nav, "users");
    assert_eq!(
        nav.handle_input(Key::Enter),
        LeftStep::Run(LeftCommand::CreateResource("users".to_string(), 3))
    );
    nav.descend(LeftContent::Requests(vec![], 8));
    nav.handle_input(Key::Char('a'));
    nav_type(&mut nav, "/v1");
    assert_eq!(
        nav.handle_input(Key::Enter),
        LeftStep::Run(LeftCommand::CreateRequest("/v1".to_string(), 8))
    );
}

#[test]
fn buffer_takes_command_keys_as_text() {
    let mut nav = LeftList::new(three_apis());
    nav.handle_input(Key::Char('a'));
    nav_type(&mut nav, "jkq");
    assert_eq!(nav.input, Some("jkq".to_string()));
    assert_eq!(nav.selected(), None);
    assert_eq!(nav.handle_input(Key::Backspace), LeftStep::Reply(LeftInputResult::NoOp));
    assert_eq!(nav.input, Some("jk".to_string()));
}

#[test]
fn backspace_on_empty_buffer_keeps_it() {
    let mut nav = LeftList::new(vec![]);
    nav.handle_input(Key::Char('a'));
    assert_eq!(nav.handle_input(Key::Backspace), LeftStep::Reply(LeftInputResult::NoOp));
    assert_eq!(nav.input, Some(String::new()));
}

#[test]
fn quit_and_other_keys() {
    let mut nav = LeftList::new(three_apis());
    assert_eq!(nav.handle_input(Key::Char('q')), LeftStep::Reply(LeftInputResult::Exit));
    assert_eq!(nav.handle_input(Key::Char('x')), LeftStep::Reply(LeftInputResult::NoOp));
    assert_eq!(nav.handle_input(Key::Other), LeftStep::Reply(LeftInputResult::NoOp));
    assert_eq!(nav.handle_input(Key::Backspace), LeftStep::Reply(LeftInputResult::NoOp));
    assert_eq!(nav.handle_input(Key::Enter), LeftStep::Reply(LeftInputResult::NoOp));
}

#[test]
fn enter_on_request_asks_to_edit_it() {
    let mut nav = LeftList::new(vec![]);
    nav.descend(LeftContent::Requests(vec![request(4, "/a", 2), request(6, "/b", 2)], 2));
    assert_eq!(nav.handle_input(Key::Char('k')), LeftStep::Reply(LeftInputResult::ShowRequest(4)));
    assert_eq!(nav.handle_input(Key::Char('k')), LeftStep::Reply(LeftInputResult::ShowRequest(6)));
    assert_eq!(nav.handle_input(Key::Enter), LeftStep::Reply(LeftInputResult::EditRequest(6)));
}

#[test]
fn enter_on_resource_descends_to_requests() {
    let mut nav = LeftList::new(vec![]);
    nav.descend(LeftContent::Resources(vec![resource(5, "r", 1)], 1));
    nav.select(Some(0));
    assert_eq!(
        nav.handle_input(Key::Enter),
        LeftStep::Run(LeftCommand::Descend(LeftType::Requests(5)))
    );
}

#[test]
fn refresh_drops_selection_past_the_end() {
    let mut nav = LeftList::new(three_apis());
    nav.select(Some(2));
    nav.refresh(LeftContent::Apis(vec![api(1, "a")]));
    assert_eq!(nav.selected(), None);
    let mut nav = LeftList::new(three_apis());
    nav.select(Some(0));
    nav.refresh(LeftContent::Apis(vec![api(1, "a")]));
    assert_eq!(nav.selected(), Some(0));
    assert_eq!(nav.content.kind_of(), LeftType::Apis);
}

#[test]
fn committed_route_becomes_get_request() {
    let new = request_to_create("/v1/items", 12);
    assert_eq!(new.route, "/v1/items");
    assert_eq!(new.resource_id, 12);
    assert_eq!(new.method, HttpMethod::Get);
    assert_eq!(new.body, None);
}

#[test]
fn select_first_and_last() {
    let mut nav = LeftList::new(three_apis());
    nav.select_last();
    assert_eq!(nav.selected(), Some(2));
    nav.select_first();
    assert_eq!(nav.selected(), Some(0));
    let mut empty = LeftList::new(vec![]);
    empty.select_last();
    assert_eq!(empty.selected(), None);
}
