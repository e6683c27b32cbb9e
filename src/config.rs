use vstd::prelude::*;

verus! {

/// What a binding means: an alias, the program it names and the program's
/// arguments.
pub struct BindingView {
    pub alias: Seq<char>,
    pub command: Seq<char>,
    pub args: Seq<Seq<char>>,
}

/// One record of the binding table: `alias` stands for running `command`
/// with `args`.
pub struct Binding {
    pub alias: String,
    pub command: String,
    pub args: Vec<String>,
}

/// The characters of each string of `v`, in order.
pub open spec fn strings_view(v: Seq<String>) -> Seq<Seq<char>> {
    v.map_values(|s: String| s@)
}

impl View for Binding {
    type V = BindingView;

    open spec fn view(&self) -> BindingView {
        BindingView { alias: self.alias@, command: self.command@, args: strings_view(self.args@) }
    }
}

impl Binding {
    /// A binding of `alias` to `command` run with `args`.
    pub fn new(alias: String, command: String, args: Vec<String>) -> (r: Binding)
        ensures
            r.alias == alias,
            r.command == command,
            r.args == args,
    {
        Binding { alias, command, args }
    }
}

impl Clone for Binding {
    fn clone(&self) -> (r: Binding)
        ensures
            r@ == self@,
    {
        let args = self.args.clone();
        assert(args@ =~= self.args@);
        Binding { alias: self.alias.clone(), command: self.command.clone(), args }
    }
}

/// The view of an optional binding.
pub open spec fn opt_view(b: Option<Binding>) -> Option<BindingView> {
    match b {
        Some(b) => Some(b@),
        None => None,
    }
}

/// The binding that `alias` resolves to in `table`: the first one, in table
/// order, whose alias equals it; `None` where no binding has that alias.
pub open spec fn resolve(table: Seq<BindingView>, alias: Seq<char>) -> Option<BindingView>
    decreases table.len(),
{
    if table.len() == 0 {
        None
    } else if table[0].alias == alias {
        Some(table[0])
    } else {
        resolve(table.drop_first(), alias)
    }
}

/// No two bindings of `table` share an alias.
pub open spec fn aliases_unique(table: Seq<BindingView>) -> bool {
    forall|i: int, j: int|
        0 <= i < table.len() && 0 <= j < table.len() && i != j ==> #[trigger] table[i].alias
            != #[trigger] table[j].alias
}

/// The table after loading `entries` into `table` one at a time, each placed
/// in front of those loaded before it: later entries come first and shadow
/// earlier ones of the same alias.
pub open spec fn load(table: Seq<BindingView>, entries: Seq<BindingView>) -> Seq<BindingView> {
    entries.reverse() + table
}

/// The views of a sequence of bindings.
pub open spec fn views(v: Seq<Binding>) -> Seq<BindingView> {
    v.map_values(|b: Binding| b@)
}

/// The message that reports a configuration source that could not be decoded,
/// given the decoder's description of the fault.
pub open spec fn load_failure_message(description: Seq<char>) -> Seq<char> {
    "Failed to parse configuration file: "@ + description
}

/// Every binding of a table whose aliases are unique is what its own alias
/// resolves to.
pub proof fn lemma_resolve_bound(table: Seq<BindingView>, i: int)
    requires
        aliases_unique(table),
        0 <= i < table.len(),
    ensures
        resolve(table, table[i].alias) == Some(table[i]),
    decreases table.len(),
{
    if i > 0 {
        assert(table[0].alias != table[i].alias);
        let rest = table.drop_first();
        assert(rest[i - 1] == table[i]);
        assert forall|a: int, b: int|
            0 <= a < rest.len() && 0 <= b < rest.len() && a != b implies #[trigger] rest[a].alias
            != #[trigger] rest[b].alias by {
            assert(rest[a] == table[a + 1] && rest[b] == table[b + 1]);
        }
        lemma_resolve_bound(rest, i - 1);
    }
}

/// An alias resolves to nothing exactly when no binding has it; when it
/// resolves, the result is a binding of the table with that very alias,
/// never one made up.
pub proof fn lemma_resolve_unbound(table: Seq<BindingView>, alias: Seq<char>)
    ensures
        resolve(table, alias) is None <==> forall|i: int|
            0 <= i < table.len() ==> #[trigger] table[i].alias != alias,
        resolve(table, alias) matches Some(b) ==> b.alias == alias && table.contains(b),
    decreases table.len(),
{
    if table.len() > 0 {
        let rest = table.drop_first();
        lemma_resolve_unbound(rest, alias);
        if table[0].alias != alias {
            assert forall|i: int| 0 < i < table.len() implies table[i] == rest[i - 1] by {}
            if resolve(rest, alias) is None {
                assert forall|i: int| 0 <= i < table.len() implies #[trigger] table[i].alias
                    != alias by {
                    if i > 0 {
                        assert(rest[i - 1].alias != alias);
                    }
                }
            } else {
                let b = resolve(rest, alias)->Some_0;
                let k = choose|k: int| 0 <= k < rest.len() && rest[k] == b;
                assert(table[k + 1] == b);
            }
        } else {
            assert(table[0].alias == alias);
            assert(table.contains(table[0]));
        }
    }
}

/// Read access to the binding table.
pub trait ConfigReader {
    /// The bindings, in lookup order.
    spec fn table(&self) -> Seq<BindingView>;

    /// A copy of the binding that `alias` resolves to, `None` if it has none.
    fn get_command_for_alias(&self, alias: &String) -> (r: Option<Binding>)
        ensures
            opt_view(r) == resolve(self.table(), alias@),
    ;
}

/// The configuration: the binding table that aliases are resolved against.
pub struct Config {
    entry_list: Vec<Binding>,
}

impl View for Config {
    type V = Seq<BindingView>;

    closed spec fn view(&self) -> Seq<BindingView> {
        views(self.entry_list@)
    }
}

impl Config {
    /// An empty configuration.
    pub fn new() -> (r: Config)
        ensures
            r@ == Seq::<BindingView>::empty(),
    {
        let r = Config { entry_list: Vec::new() };
        assert(r@ =~= Seq::<BindingView>::empty());
        r
    }

    /// Takes the outcome of decoding a configuration source. On success, loads
    /// the decoded bindings in front of the table, each ahead of those before
    /// it in `decoded`, and returns the number of bindings the table then
    /// holds. On failure, leaves the table as it was and returns the message
    /// that reports the fault.
    pub fn setup(&mut self, decoded: Result<Vec<Binding>, String>) -> (r: Result<usize, String>)
        ensures
            match decoded {
                Ok(entries) => {
                    &&& final(self)@ == load(old(self)@, views(entries@))
                    &&& r matches Ok(n) && n == final(self)@.len()
                },
                Err(description) => {
                    &&& final(self)@ == old(self)@
                    &&& r matches Err(m) && m@ == load_failure_message(description@)
                },
            },
    {
        match decoded {
            Err(description) => {
                let message = String::from_str("Failed to parse configuration file: ");
                Err(message.concat(description.as_str()))
            },
            Ok(entries) => {
                let ghost given = entries@;
                let mut rest = entries;
                let mut front: Vec<Binding> = Vec::new();
                while rest.len() > 0
                    invariant
                        rest@.len() <= given.len(),
                        rest@ == given.subrange(0, rest@.len() as int),
                        front@.len() == given.len() - rest@.len(),
                        forall|k: int|
                            0 <= k < front@.len() ==> #[trigger] front@[k] == given[given.len() - 1
                                - k],
                    decreases rest@.len(),
                {
                    match rest.pop() {
                        Some(entry) => front.push(entry),
                        None => {},
                    }
                }
                front.append(&mut self.entry_list);
                self.entry_list = front;
                assert(self@ =~= load(old(self)@, views(given)));
                Ok(self.entry_list.len())
            },
        }
    }

    /// Number of bindings in the table.
    pub fn len(&self) -> (r: usize)
        ensures
            r == self@.len(),
    {
        self.entry_list.len()
    }
}

impl ConfigReader for Config {
    open spec fn table(&self) -> Seq<BindingView> {
        self@
    }

    fn get_command_for_alias(&self, alias: &String) -> (r: Option<Binding>) {
        let mut i: usize = 0;
        assert(self@.subrange(0, self@.len() as int) =~= self@);
        while i < self.entry_list.len()
            invariant
                0 <= i <= self.entry_list@.len(),
                resolve(self@, alias@) == resolve(self@.subrange(i as int, self@.len() as int), alias@),
            decreases self.entry_list@.len() - i,
        {
            let entry = &self.entry_list[i];
            let ghost rest = self@.subrange(i as int, self@.len() as int);
            assert(rest[0] == entry@);
            if entry.alias == *alias {
                return Some(entry.clone());
            }
            assert(rest.drop_first() =~= self@.subrange(i + 1, self@.len() as int));
            i = i + 1;
        }
        None
    }
}

} // verus!
