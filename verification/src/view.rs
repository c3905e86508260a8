//! The router/view composer: a pure mapping from the current route and the
//! component's data to the view that must be projected. The home view lists
//! the todos and carries the refresh control; the detail view carries the
//! path's integer parameter through verbatim.

use vstd::prelude::*;

use crate::model::Todo;
use crate::route::AppRoute;
use crate::state::Msg;

verus! {

/// The content pane selected by the route.
#[derive(Debug, PartialEq)]
pub enum ContentView {
    /// The home view: the todo list bound to the component's current data
    /// (absent while nothing is loaded), plus the refresh control.
    ListView { todos: Option<Vec<Todo>> },
    /// The detail view for one todo, identified only by the id taken from
    /// the path; resolving it to data is the detail view's own concern.
    DetailView { todo_id: i32 },
}

/// One projected page: a navigation anchor that always leads home, and the
/// content pane the route selects.
#[derive(Debug, PartialEq)]
pub struct PageView {
    pub nav_target: AppRoute,
    pub content: ContentView,
}

/// Composes the page for a route. Pure: the same route and data always yield
/// the same descriptor; the home route never carries an id, and the detail
/// route carries exactly the id the route holds.
pub fn compose_view(route: AppRoute, todos: Option<Vec<Todo>>) -> (r: PageView)
    ensures
        r.nav_target == AppRoute::Home,
        r.content == (match route {
            AppRoute::Home => ContentView::ListView { todos },
            AppRoute::Detail(id) => ContentView::DetailView { todo_id: id },
        }),
{
    let content = match route {
        AppRoute::Home => ContentView::ListView { todos },
        AppRoute::Detail(todo_id) => ContentView::DetailView { todo_id },
    };
    PageView { nav_target: AppRoute::Home, content }
}

/// The refresh control: a stateless element, rendered only within the home
/// view, that emits exactly one refresh event when activated.
pub fn refresh_event() -> (r: Msg)
    ensures
        r == Msg::MakeReq,
{
    Msg::MakeReq
}

} // verus!
