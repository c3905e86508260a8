//! The root component's reactive state machine. It owns the current list of
//! todos (or its absence) and an opaque handle to any in-flight fetch, and it
//! decides every transition; the host shell performs the network call it is
//! told to issue and posts the completion back as an ordinary event.

use vstd::prelude::*;

use crate::model::Todo;

verus! {

/// The one failure kind visible at this layer: a fetch that did not yield a
/// decoded list, whether the transport, the HTTP status or the decoding was
/// at fault. The machine never inspects it; it is swallowed whole.
#[derive(Clone, Debug, PartialEq)]
pub struct FetchError;

/// An event delivered to the state machine's queue.
#[derive(Debug, PartialEq)]
pub enum Msg {
    /// A refresh was requested (initial mount or the refresh control).
    MakeReq,
    /// An in-flight fetch settled, successfully or not.
    Resp(Result<Vec<Todo>, FetchError>),
}

/// What the host must do after an event was processed.
#[derive(Clone, Copy, Debug, PartialEq)]
pub enum FetchCommand {
    /// Issue the asynchronous GET to the todos endpoint and hand the
    /// resulting in-flight handle back through [`TodoApp::record_task`].
    IssueFetch,
    /// Nothing to issue.
    NoFetch,
}

/// The root component's private state. `todos` is absent until a fetch
/// resolves successfully and is replaced wholesale, never edited in place;
/// `fetch_task` retains ownership of the pending operation so it stays alive,
/// and is never inspected.
pub struct TodoApp<H> {
    pub todos: Option<Vec<Todo>>,
    pub fetch_task: Option<H>,
}

/// The fixed endpoint every issued GET targets.
pub open spec fn spec_todos_url() -> Seq<char> {
    "https://jsonplaceholder.typicode.com/todos"@
}

/// Returns the URL of the todos endpoint; every [`FetchCommand::IssueFetch`]
/// means one GET request to exactly this address, with an empty body.
pub fn todos_url() -> (r: &'static str)
    ensures
        r@ == spec_todos_url(),
{
    "https://jsonplaceholder.typicode.com/todos"
}

/// The todos field after one event: a refresh clears it, a successful
/// completion replaces it with the delivered list, and a failed completion
/// leaves it exactly as it was.
pub open spec fn spec_todos_after(todos: Option<Vec<Todo>>, msg: Msg) -> Option<Vec<Todo>> {
    match msg {
        Msg::MakeReq => None,
        Msg::Resp(result) => match result {
            Ok(v) => Some(v),
            Err(_) => todos,
        },
    }
}

impl<H> TodoApp<H> {
    /// Constructs the component in its transient empty state, together with
    /// the single synthesized refresh event that the host must enqueue before
    /// any other: the first load is eager.
    pub fn create() -> (r: (TodoApp<H>, Msg))
        ensures
            r.0.todos is None,
            r.0.fetch_task is None,
            r.1 == Msg::MakeReq,
    {
        (TodoApp { todos: None, fetch_task: None }, Msg::MakeReq)
    }

    /// Processes one event. A refresh clears `todos` and asks the host to
    /// issue the GET; a completion replaces `todos` on success and changes
    /// nothing on failure. Every event, without exception, reports that a
    /// re-render is required.
    pub fn update(&mut self, msg: Msg) -> (r: (bool, FetchCommand))
        ensures
            r.0 == true,
            final(self).todos == spec_todos_after(old(self).todos, msg),
            final(self).fetch_task == old(self).fetch_task,
            r.1 == (if msg is MakeReq {
                FetchCommand::IssueFetch
            } else {
                FetchCommand::NoFetch
            }),
    {
        let cmd = match msg {
            Msg::MakeReq => {
                self.todos = None;
                FetchCommand::IssueFetch
            },
            Msg::Resp(resp) => {
                if let Ok(data) = resp {
                    self.todos = Some(data);
                }
                FetchCommand::NoFetch
            },
        };
        (true, cmd)
    }

    /// Stores the in-flight handle of the fetch the host just issued,
    /// dropping (not cancelling) any previous one. The data is untouched.
    pub fn record_task(&mut self, task: H)
        ensures
            final(self).fetch_task == Some(task),
            final(self).todos == old(self).todos,
    {
        self.fetch_task = Some(task);
    }

    /// External property change: this component has none, so no re-render is
    /// ever needed and the state is left exactly as it was.
    pub fn change(&mut self) -> (r: bool)
        ensures
            r == false,
            *final(self) == *old(self),
    {
        false
    }
}

/// From a cleared state, a successful completion yields exactly the delivered
/// list, nothing more and nothing less.
pub proof fn lemma_success_replaces(v: Vec<Todo>)
    ensures
        spec_todos_after(None, Msg::Resp(Ok(v))) == Some(v),
{
}

/// A failed fetch is a no-op on the data: from any state, a failed completion
/// leaves the todos exactly as they were.
pub proof fn lemma_failure_preserves(todos: Option<Vec<Todo>>, e: FetchError)
    ensures
        spec_todos_after(todos, Msg::Resp(Err(e))) == todos,
{
}

/// A refresh clears the data synchronously, before any result can arrive,
/// whatever was loaded — even a non-empty list.
pub proof fn lemma_refresh_clears(todos: Option<Vec<Todo>>)
    ensures
        spec_todos_after(todos, Msg::MakeReq) is None,
{
}

/// Once cleared, the data stays absent until some fetch resolves
/// successfully: no event other than a successful completion makes it
/// present.
pub proof fn lemma_absent_until_success(msg: Msg)
    ensures
        !(msg matches Msg::Resp(Ok(_))) ==> spec_todos_after(None, msg) is None,
{
}

/// Race tolerance: two refreshes in succession followed by two successful
/// completions leave the later delivery's list — last delivered wins,
/// independent of which request was issued first.
pub proof fn lemma_last_delivery_wins(todos: Option<Vec<Todo>>, a: Vec<Todo>, b: Vec<Todo>)
    ensures
        ({
            let s1 = spec_todos_after(todos, Msg::MakeReq);
            let s2 = spec_todos_after(s1, Msg::MakeReq);
            let s3 = spec_todos_after(s2, Msg::Resp(Ok(a)));
            let s4 = spec_todos_after(s3, Msg::Resp(Ok(b)));
            s4 == Some(b)
        }),
{
}

} // verus!
