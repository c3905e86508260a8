use todo_app::view::compose_view;
use todo_app::AppRoute;
use todo_app::ContentView;
use todo_app::Todo;

#[test]
fn home_route_projects_list_bound_to_current_todos() {
    let todos = Some(vec![Todo::new(1, 1, String::from("a"), false)]);
    let page = compose_view(AppRoute::Home, todos.clone());
    assert_eq!(page.nav_target, AppRoute::Home);
    assert_eq!(page.content, ContentView::ListView { todos });
}

#[test]
fn home_route_projects_list_even_before_data_arrives() {
    let page = compose_view(AppRoute::Home, None);
    assert_eq!(page.content, ContentView::ListView { todos: None });
}

#[test]
fn detail_route_passes_id_through_verbatim() {
    let todos = Some(vec![Todo::new(1, 1, String::from("a"), false)]);
    let page = compose_view(AppRoute::Detail(42), todos);
    assert_eq!(page.nav_target, AppRoute::Home);
    assert_eq!(page.content, ContentView::DetailView { todo_id: 42 });
}

#[test]
fn composition_is_reproducible() {
    let first = compose_view(AppRoute::Detail(-3), None);
    let second = compose_view(AppRoute::Detail(-3), None);
    assert_eq!(first, second);
}

#[test]
fn refresh_control_emits_exactly_one_refresh_event() {
    assert_eq!(todo_app::view::refresh_event(), todo_app::Msg::MakeReq);
}

#[test]
fn nav_anchor_always_leads_home() {
    assert_eq!(compose_view(AppRoute::Detail(9), None).nav_target, AppRoute::Home);
    assert_eq!(compose_view(AppRoute::Home, None).nav_target, AppRoute::Home);
}
