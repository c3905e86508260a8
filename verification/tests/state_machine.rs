use todo_app::FetchCommand;
use todo_app::FetchError;
use todo_app::Msg;
use todo_app::Todo;
use todo_app::TodoApp;

fn sample_todo() -> Todo {
    Todo::new(1, 1, String::from("a"), false)
}

fn loaded_app(todos: Vec<Todo>) -> TodoApp<u32> {
    TodoApp { todos: Some(todos), fetch_task: None }
}

#[test]
fn create_synthesizes_one_refresh() {
    let (app, first) = TodoApp::<u32>::create();
    assert_eq!(first, Msg::MakeReq);
    assert_eq!(app.todos, None);
    assert!(app.fetch_task.is_none());
}

#[test]
fn successful_fetch_replaces_absent_state() {
    let (mut app, _first) = TodoApp::<u32>::create();
    let delivered = vec![sample_todo()];
    let (render, cmd) = app.update(Msg::Resp(Ok(delivered)));
    assert!(render);
    assert_eq!(cmd, FetchCommand::NoFetch);
    assert_eq!(app.todos, Some(vec![sample_todo()]));
}

#[test]
fn successful_fetch_replaces_loaded_state_wholesale() {
    let mut app = loaded_app(vec![sample_todo()]);
    let newer = vec![Todo::new(2, 7, String::from("b"), true)];
    app.update(Msg::Resp(Ok(newer)));
    assert_eq!(app.todos, Some(vec![Todo::new(2, 7, String::from("b"), true)]));
}

#[test]
fn failed_fetch_preserves_loaded_state() {
    let mut app = loaded_app(vec![sample_todo()]);
    let (render, cmd) = app.update(Msg::Resp(Err(FetchError)));
    assert!(render);
    assert_eq!(cmd, FetchCommand::NoFetch);
    assert_eq!(app.todos, Some(vec![sample_todo()]));
}

#[test]
fn failed_fetch_preserves_absent_state() {
    let (mut app, _first) = TodoApp::<u32>::create();
    app.update(Msg::Resp(Err(FetchError)));
    assert_eq!(app.todos, None);
}

#[test]
fn every_event_reports_rerender() {
    let mut app = loaded_app(vec![sample_todo()]);
    let (render_refresh, _) = app.update(Msg::MakeReq);
    let (render_ok, _) = app.update(Msg::Resp(Ok(vec![])));
    let (render_err, _) = app.update(Msg::Resp(Err(FetchError)));
    assert!(render_refresh);
    assert!(render_ok);
    assert!(render_err);
}

#[test]
fn refresh_clears_nonempty_loaded_state_synchronously() {
    let mut app = loaded_app(vec![sample_todo(), Todo::new(3, 9, String::from("c"), true)]);
    let (render, cmd) = app.update(Msg::MakeReq);
    assert!(render);
    assert_eq!(cmd, FetchCommand::IssueFetch);
    assert_eq!(app.todos, None);
}

#[test]
fn race_last_delivery_wins() {
    let (mut app, first) = TodoApp::<u32>::create();
    app.update(first);
    app.update(Msg::MakeReq);
    let a = vec![Todo::new(1, 1, String::from("first"), false)];
    let b = vec![Todo::new(2, 2, String::from("second"), true)];
    app.update(Msg::Resp(Ok(a)));
    app.update(Msg::Resp(Ok(b)));
    assert_eq!(app.todos, Some(vec![Todo::new(2, 2, String::from("second"), true)]));
}

#[test]
fn record_task_keeps_data_and_replaces_handle() {
    let mut app = loaded_app(vec![sample_todo()]);
    app.record_task(41);
    app.record_task(42);
    assert_eq!(app.fetch_task, Some(42));
    assert_eq!(app.todos, Some(vec![sample_todo()]));
}

#[test]
fn change_never_rerenders_and_keeps_state() {
    let mut app = loaded_app(vec![sample_todo()]);
    let render = app.change();
    assert!(!render);
    assert_eq!(app.todos, Some(vec![sample_todo()]));
    assert_eq!(app.fetch_task, None);
}

#[test]
fn todos_endpoint_is_fixed() {
    assert_eq!(todo_app::state::todos_url(), "https://jsonplaceholder.typicode.com/todos");
}
