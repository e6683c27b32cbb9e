use vstd::prelude::*;

use crate::config::{resolve, BindingView, ConfigReader};
use crate::executor::{launch_for, Exec, LaunchOutcome, LaunchRequest, LaunchView};

verus! {

/// A request of the message channel, told apart once by its method name.
pub enum Request {
    /// Run the command bound to an alias; `None` when the call carried no
    /// alias.
    Exec(Option<String>),
    /// Liveness check.
    Ping,
    /// Stop serving.
    Quit,
    /// A method outside the interface, by name.
    Unknown(String),
}

/// What a request means.
pub enum RequestView {
    Exec(Option<Seq<char>>),
    Ping,
    Quit,
    Unknown(Seq<char>),
}

impl View for Request {
    type V = RequestView;

    open spec fn view(&self) -> RequestView {
        match self {
            Request::Exec(Some(a)) => RequestView::Exec(Some(a@)),
            Request::Exec(None) => RequestView::Exec(None),
            Request::Ping => RequestView::Ping,
            Request::Quit => RequestView::Quit,
            Request::Unknown(m) => RequestView::Unknown(m@),
        }
    }
}

/// The request that a call of `method` with `argument` makes.
pub open spec fn classify(method: Seq<char>, argument: Option<Seq<char>>) -> RequestView {
    if method == "exec"@ {
        RequestView::Exec(argument)
    } else if method == "ping"@ {
        RequestView::Ping
    } else if method == "quit"@ {
        RequestView::Quit
    } else {
        RequestView::Unknown(method)
    }
}

impl Request {
    /// The request that a call of `method` with the string `argument`, if it
    /// carries one, makes.
    pub fn from_call(method: &String, argument: Option<String>) -> (r: Request)
        ensures
            r@ == classify(method@, match argument {
                Some(a) => Some(a@),
                None => None,
            }),
    {
        if *method == String::from_str("exec") {
            Request::Exec(argument)
        } else if *method == String::from_str("ping") {
            Request::Ping
        } else if *method == String::from_str("quit") {
            Request::Quit
        } else {
            Request::Unknown(method.clone())
        }
    }
}

/// The answer sent back for a request: a flag for `exec`, text for `ping`
/// and `quit`.
pub enum Reply {
    Flag(bool),
    Text(String),
}

/// What a reply says.
pub enum ReplyView {
    Flag(bool),
    Text(Seq<char>),
}

impl View for Reply {
    type V = ReplyView;

    open spec fn view(&self) -> ReplyView {
        match self {
            Reply::Flag(b) => ReplyView::Flag(*b),
            Reply::Text(t) => ReplyView::Text(t@),
        }
    }
}

/// What serving a request asks of the caller next.
pub enum Step {
    /// Start this launch, then hand its outcome to `complete`, which gives the
    /// reply.
    Launch(LaunchRequest),
    /// Send this reply.
    Respond(Reply),
    /// The method is not part of the interface: the message channel's own
    /// policy for unmatched calls applies.
    Unrecognized(String),
}

/// What a step asks for.
pub enum StepView {
    Launch(LaunchView),
    Respond(ReplyView),
    Unrecognized(Seq<char>),
}

impl View for Step {
    type V = StepView;

    open spec fn view(&self) -> StepView {
        match self {
            Step::Launch(l) => StepView::Launch(l@),
            Step::Respond(r) => StepView::Respond(r@),
            Step::Unrecognized(m) => StepView::Unrecognized(m@),
        }
    }
}

/// The reply to `ping`.
pub open spec fn pong() -> Seq<char> {
    "pong"@
}

/// The reply to `quit`.
pub open spec fn quitting() -> Seq<char> {
    "quiting..."@
}

/// Serving `request` against `table` while the run flag is `running`: the
/// run flag afterwards, and what is asked of the caller.
pub open spec fn serve(running: bool, table: Seq<BindingView>, request: RequestView) -> (
    bool,
    StepView,
) {
    match request {
        RequestView::Exec(Some(alias)) => match launch_for(resolve(table, alias)) {
            Some(l) => (running, StepView::Launch(l)),
            None => (running, StepView::Respond(ReplyView::Flag(false))),
        },
        RequestView::Exec(None) => (running, StepView::Respond(ReplyView::Flag(false))),
        RequestView::Ping => (running, StepView::Respond(ReplyView::Text(pong()))),
        RequestView::Quit => (false, StepView::Respond(ReplyView::Text(quitting()))),
        RequestView::Unknown(method) => (running, StepView::Unrecognized(method)),
    }
}

/// The reply to `exec` once its launch came to `spawned` (whether the child
/// process was created).
pub open spec fn completion(spawned: bool) -> ReplyView {
    ReplyView::Flag(spawned)
}

/// Serving `exec(alias)`: an unbound alias is answered `false` at once and
/// nothing is launched; a bound one is launched with exactly its command and
/// arguments, and answered `true` when the child process was created and
/// `false` when it could not be.
pub proof fn lemma_exec_served(running: bool, table: Seq<BindingView>, alias: Seq<char>, spawned: bool)
    ensures
        resolve(table, alias) is None ==> serve(running, table, RequestView::Exec(Some(alias)))
            == (running, StepView::Respond(ReplyView::Flag(false))),
        resolve(table, alias) matches Some(b) ==> serve(
            running,
            table,
            RequestView::Exec(Some(alias)),
        ) == (running, StepView::Launch(LaunchView { program: b.command, args: b.args })),
        completion(spawned) == ReplyView::Flag(spawned),
{
}

/// `ping` always answers `pong` and leaves the run flag as it was.
pub proof fn lemma_ping_pure(running: bool, table: Seq<BindingView>)
    ensures
        serve(running, table, RequestView::Ping) == (running, StepView::Respond(
            ReplyView::Text(pong()),
        )),
{
}

/// `quit` clears the run flag, and once cleared no request sets it again: a
/// second `quit` leaves it cleared and answers as the first did.
pub proof fn lemma_quit_one_shot(running: bool, table: Seq<BindingView>, request: RequestView)
    ensures
        serve(running, table, RequestView::Quit).0 == false,
        serve(false, table, request).0 == false,
        serve(serve(running, table, RequestView::Quit).0, table, RequestView::Quit) == serve(
            running,
            table,
            RequestView::Quit,
        ),
{
}

/// Routes requests of the message channel to the operations they name, one
/// at a time, and keeps the service's run flag.
pub struct Router {
    running: bool,
}

impl Router {
    /// A router in the serving state.
    pub fn new() -> (r: Router)
        ensures
            r.running(),
    {
        Router { running: true }
    }

    /// Whether the service is still serving.
    pub closed spec fn running(&self) -> bool {
        self.running
    }

    /// Whether the service is still serving: the run loop goes on to the next
    /// request only while this holds.
    pub fn is_running(&self) -> (r: bool)
        ensures
            r == self.running(),
    {
        self.running
    }

    /// Serves one request against `config`, using `executor` to decide on
    /// launches.
    pub fn dispatch<E: Exec, C: ConfigReader>(
        &mut self,
        request: Request,
        executor: &E,
        config: &C,
    ) -> (r: Step)
        ensures
            (final(self).running(), r@) == serve(old(self).running(), config.table(), request@),
    {
        match request {
            Request::Exec(Some(alias)) => match executor.exec(&alias, config) {
                Some(launch) => Step::Launch(launch),
                None => Step::Respond(Reply::Flag(false)),
            },
            Request::Exec(None) => Step::Respond(Reply::Flag(false)),
            Request::Ping => Step::Respond(Reply::Text(String::from_str("pong"))),
            Request::Quit => {
                self.running = false;
                Step::Respond(Reply::Text(String::from_str("quiting...")))
            },
            Request::Unknown(method) => Step::Unrecognized(method),
        }
    }

    /// The reply to an `exec` request whose launch came to `outcome`.
    pub fn complete<E: Exec>(&self, executor: &E, outcome: &LaunchOutcome) -> (r: Reply)
        ensures
            r@ == completion(outcome is Spawned),
    {
        Reply::Flag(executor.succeeded(outcome))
    }
}

} // verus!
