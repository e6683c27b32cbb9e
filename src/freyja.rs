use vstd::prelude::*;

use crate::config::{load, load_failure_message, views, Binding, BindingView, Config};
use crate::executor::{Executor, LaunchOutcome};
use crate::router::{completion, serve, Reply, Request, Router, Step};

verus! {

/// The service: its configuration, the executor that launches configured
/// commands, and the router that serves requests.
pub struct Freyja {
    config: Config,
    executor: Executor,
    router: Router,
}

impl Freyja {
    /// A service with an empty binding table, in the serving state.
    pub fn new() -> (r: Freyja)
        ensures
            r.table() == Seq::<BindingView>::empty(),
            r.running(),
    {
        let config = Config::new();
        let executor = Executor::new();
        let router = Router::new();
        Freyja { config, executor, router }
    }

    /// The bindings, in lookup order.
    pub closed spec fn table(&self) -> Seq<BindingView> {
        self.config@
    }

    /// Whether the service is still serving.
    pub closed spec fn running(&self) -> bool {
        self.router.running()
    }

    /// Loads the outcome of decoding the configuration source, as
    /// `Config::setup` does. On `Err` the service must not go on to serve.
    pub fn setup(&mut self, decoded: Result<Vec<Binding>, String>) -> (r: Result<usize, String>)
        ensures
            final(self).running() == old(self).running(),
            match decoded {
                Ok(entries) => {
                    &&& final(self).table() == load(old(self).table(), views(entries@))
                    &&& r matches Ok(n) && n == final(self).table().len()
                },
                Err(description) => {
                    &&& final(self).table() == old(self).table()
                    &&& r matches Err(m) && m@ == load_failure_message(description@)
                },
            },
    {
        self.config.setup(decoded)
    }

    /// Serves one request; the binding table stays as it is.
    pub fn dispatch(&mut self, request: Request) -> (r: Step)
        ensures
            final(self).table() == old(self).table(),
            (final(self).running(), r@) == serve(old(self).running(), old(self).table(), request@),
    {
        self.router.dispatch(request, &self.executor, &self.config)
    }

    /// The reply to an `exec` request whose launch came to `outcome`.
    pub fn complete(&self, outcome: &LaunchOutcome) -> (r: Reply)
        ensures
            r@ == completion(outcome is Spawned),
    {
        self.router.complete(&self.executor, outcome)
    }

    /// Whether the service is still serving: the run loop goes on to the next
    /// request only while this holds.
    pub fn is_running(&self) -> (r: bool)
        ensures
            r == self.running(),
    {
        self.router.is_running()
    }
}

} // verus!
