//! Core of a single-page todo browser: a reactive state machine that owns the
//! fetched list of todos, a route model mapping navigation paths to views, and
//! a pure view composer. The host shell performs the actual HTTP fetch and
//! rendering; every decision it acts on is made and verified here.

pub mod model;
pub mod route;
pub mod state;
pub mod view;

pub use model::Todo;
pub use route::AppRoute;
pub use state::FetchCommand;
pub use state::FetchError;
pub use state::Msg;
pub use state::TodoApp;
pub use view::ContentView;
pub use view::PageView;
