//! A registry of tools, found again by name.
//!
//! The registry holds, for each tool, its name, whether its result goes back
//! to the model (`callback`), the definition offered to the model (when the
//! tool's description could be read as one), and the tool itself. Names are
//! unique: registering a name again replaces the earlier tool in its place.
use vstd::prelude::*;
use crate::dtos::{definitions_view, ToolCall, ToolCallView, ToolDefinition, ToolDefinitionView};
use crate::json::{is_json_document, json_value_of, parse_json};
use crate::error::{AgentError, ErrorView};

verus! {

/// One registered tool.
pub struct ToolEntry<T> {
    pub name: String,
    pub callback: bool,
    pub definition: Option<ToolDefinition>,
    pub tool: T,
}

/// What a registry knows of one tool.
pub struct ToolEntryView<T> {
    pub name: Seq<char>,
    pub callback: bool,
    pub definition: Option<ToolDefinitionView>,
    pub tool: T,
}

/// A registry for managing and finding tools by name.
pub struct ToolRegistry<T> {
    tools: Vec<ToolEntry<T>>,
}

pub open spec fn entry_view<T>(e: ToolEntry<T>) -> ToolEntryView<T> {
    ToolEntryView {
        name: e.name@,
        callback: e.callback,
        definition: match e.definition {
            Some(d) => Some(d@),
            None => None,
        },
        tool: e.tool,
    }
}

/// No two entries carry the same name.
pub open spec fn names_distinct<T>(s: Seq<ToolEntryView<T>>) -> bool {
    forall|i: int, j: int| 0 <= i < s.len() && 0 <= j < s.len() && i != j ==> s[i].name != s[j].name
}

/// Some entry carries `name`.
pub open spec fn has_name<T>(s: Seq<ToolEntryView<T>>, name: Seq<char>) -> bool {
    exists|i: int| 0 <= i < s.len() && #[trigger] s[i].name == name
}

/// The position of the entry that carries `name` (meaningful when there is one).
pub open spec fn position_of<T>(s: Seq<ToolEntryView<T>>, name: Seq<char>) -> int {
    choose|i: int| 0 <= i < s.len() && #[trigger] s[i].name == name
}

/// The entry that carries `name`, if any.
pub open spec fn lookup<T>(s: Seq<ToolEntryView<T>>, name: Seq<char>) -> Option<ToolEntryView<T>> {
    if has_name(s, name) {
        Some(s[position_of(s, name)])
    } else {
        None
    }
}

/// The entries after registering `e`: it takes the place of the entry with
/// the same name, or else comes last.
pub open spec fn registered<T>(s: Seq<ToolEntryView<T>>, e: ToolEntryView<T>) -> Seq<ToolEntryView<T>> {
    if has_name(s, e.name) {
        s.update(position_of(s, e.name), e)
    } else {
        s.push(e)
    }
}

/// The definitions of the entries that have one, in the entries' order.
pub open spec fn defined_tools<T>(s: Seq<ToolEntryView<T>>) -> Seq<ToolDefinitionView>
    decreases s.len(),
{
    if s.len() == 0 {
        Seq::empty()
    } else {
        let rest = defined_tools(s.drop_last());
        match s.last().definition {
            Some(d) => rest.push(d),
            None => rest,
        }
    }
}

/// With unique names, the entry found under a name is the one at any
/// position that carries it.
proof fn lemma_lookup_at<T>(s: Seq<ToolEntryView<T>>, i: int)
    requires
        names_distinct(s),
        0 <= i < s.len(),
    ensures
        lookup(s, s[i].name) == Some(s[i]),
{
    let p = position_of(s, s[i].name);
    assert(has_name(s, s[i].name));
    assert(s[p].name == s[i].name);
}

/// Registering keeps names unique, and afterwards the registered name finds
/// the new entry while every other name finds what it found before. The
/// registry grows by one exactly when the name was new.
pub proof fn law_register_then_lookup<T>(s: Seq<ToolEntryView<T>>, e: ToolEntryView<T>, other: Seq<char>)
    requires
        names_distinct(s),
        other != e.name,
    ensures
        names_distinct(registered(s, e)),
        lookup(registered(s, e), e.name) == Some(e),
        lookup(registered(s, e), other) == lookup(s, other),
        registered(s, e).len() == if has_name(s, e.name) { s.len() } else { s.len() + 1 },
{
    let r = registered(s, e);
    if has_name(s, e.name) {
        let p = position_of(s, e.name);
        assert(s[p].name == e.name);
        assert forall|i: int, j: int| 0 <= i < r.len() && 0 <= j < r.len() && i != j implies r[i].name != r[j].name by {
            assert(r[i].name == s[i].name);
            assert(r[j].name == s[j].name);
        }
        assert(r[p] == e);
        lemma_lookup_at(r, p);
        if has_name(s, other) {
            let q = position_of(s, other);
            assert(q != p);
            assert(r[q] == s[q]);
            lemma_lookup_at(r, q);
            lemma_lookup_at(s, q);
        } else {
            assert forall|i: int| 0 <= i < r.len() implies #[trigger] r[i].name != other by {
                if i != p {
                    assert(r[i] == s[i]);
                }
            }
        }
    } else {
        assert forall|i: int, j: int| 0 <= i < r.len() && 0 <= j < r.len() && i != j implies r[i].name != r[j].name by {
            if i < s.len() && j < s.len() {
                assert(r[i] == s[i]);
                assert(r[j] == s[j]);
            } else if i < s.len() {
                assert(r[i] == s[i]);
                assert(!(s[i].name == e.name));
            } else if j < s.len() {
                assert(r[j] == s[j]);
                assert(!(s[j].name == e.name));
            }
        }
        assert(r[s.len() as int] == e);
        lemma_lookup_at(r, s.len() as int);
        if has_name(s, other) {
            let q = position_of(s, other);
            assert(r[q] == s[q]);
            lemma_lookup_at(r, q);
            lemma_lookup_at(s, q);
        } else {
            assert forall|i: int| 0 <= i < r.len() implies #[trigger] r[i].name != other by {
                if i < s.len() {
                    assert(r[i] == s[i]);
                }
            }
        }
    }
}

/// What is to be done with one tool call of the model.
pub enum CallPlan {
    /// Run the tool with these arguments; `callback` says whether its result
    /// goes back to the model.
    Run { callback: bool, arguments: serde_json::Value },
    /// The loop stops with this error.
    Stop(ErrorView),
}

/// The plan for `call` with the registry `tools` (if any): the tool must be
/// registered under the called name and the call's argument text must be a
/// JSON document; the tool then gets the value read from that text.
pub open spec fn plan_call<T>(tools: Option<Seq<ToolEntryView<T>>>, call: ToolCallView) -> CallPlan {
    match tools {
        None => CallPlan::Stop(ErrorView::NoToolRegistry),
        Some(t) => match lookup(t, call.function.name) {
            None => CallPlan::Stop(ErrorView::ToolNotFound(call.function.name)),
            Some(e) => if is_json_document(call.function.arguments) {
                CallPlan::Run { callback: e.callback, arguments: json_value_of(call.function.arguments) }
            } else {
                CallPlan::Stop(ErrorView::InvalidArguments)
            },
        },
    }
}

pub open spec fn registry_view<T>(registry: Option<&ToolRegistry<T>>) -> Option<Seq<ToolEntryView<T>>> {
    match registry {
        Some(r) => Some(r@),
        None => None,
    }
}

/// Prepares one tool call (see `plan_call`): whether its result goes back to
/// the model and the arguments to run the tool with.
pub fn prepare_call<T>(registry: Option<&ToolRegistry<T>>, call: &ToolCall) -> (res: Result<(bool, serde_json::Value), AgentError>)
    ensures
        match plan_call(registry_view(registry), call@) {
            CallPlan::Run { callback, arguments } => res matches Ok(p) && p.0 == callback && p.1 == arguments,
            CallPlan::Stop(e) => res matches Err(err) && err@ == e,
        },
{
    let registry = match registry {
        Some(r) => r,
        None => return Err(AgentError::NoToolRegistry),
    };
    let callback = match registry.check_tool_callback(call.function.name.as_str()) {
        Ok(b) => b,
        Err(e) => return Err(e),
    };
    match parse_json(call.function.arguments.as_str()) {
        Ok(v) => Ok((callback, v)),
        Err(e) => Err(AgentError::InvalidArguments(e)),
    }
}

/// `defs` are exactly the definitions of the entries of `s` that have one:
/// as many as there are such entries, in their order, each of them there.
pub open spec fn offers_exactly<T>(s: Seq<ToolEntryView<T>>, defs: Seq<ToolDefinitionView>) -> bool {
    &&& defs.len() == defined_entries(s).len()
    &&& forall|i: int| 0 <= i < defs.len() ==> defined_entries(s)[i].definition == Some(#[trigger] defs[i])
}

/// The entries that have a definition, in order.
pub open spec fn defined_entries<T>(s: Seq<ToolEntryView<T>>) -> Seq<ToolEntryView<T>> {
    s.filter(|e: ToolEntryView<T>| e.definition is Some)
}

/// The definitions offered for a registry are those of its tools that have
/// one, all of them, in the registry's order; so a registry with a defined
/// tool offers a non-empty list.
pub proof fn law_definitions_offered<T>(s: Seq<ToolEntryView<T>>)
    ensures
        offers_exactly(s, defined_tools(s)),
        (exists|i: int| 0 <= i < s.len() && (#[trigger] s[i]).definition is Some) ==> defined_tools(s).len() > 0,
    decreases s.len(),
{
    let p = |e: ToolEntryView<T>| e.definition is Some;
    if s.len() == 0 {
        assert(s.filter(p) =~= Seq::<ToolEntryView<T>>::empty());
    } else {
        law_definitions_offered(s.drop_last());
        assert(s =~= s.drop_last().push(s.last()));
        s.drop_last().lemma_filter_push(s.last(), p);
        if exists|i: int| 0 <= i < s.len() && (#[trigger] s[i]).definition is Some {
            let i = choose|i: int| 0 <= i < s.len() && (#[trigger] s[i]).definition is Some;
            if i < s.len() - 1 {
                assert(s.drop_last()[i] == s[i]);
            }
        }
    }
}

impl<T> View for ToolRegistry<T> {
    type V = Seq<ToolEntryView<T>>;

    closed spec fn view(&self) -> Seq<ToolEntryView<T>> {
        self.tools@.map_values(|e: ToolEntry<T>| entry_view(e))
    }
}

impl<T> ToolRegistry<T> {
    #[verifier::type_invariant]
    closed spec fn unique_names(self) -> bool {
        names_distinct(self@)
    }

    /// An empty registry, with room for 64 tools.
    pub fn init() -> (res: Self)
        ensures
            res@ == Seq::<ToolEntryView<T>>::empty(),
    {
        let res = ToolRegistry { tools: Vec::with_capacity(64) };
        assert(res@ =~= Seq::<ToolEntryView<T>>::empty());
        res
    }

    /// Names of registered tools never repeat.
    pub fn names_are_unique(&self)
        ensures
            names_distinct(self@),
    {
        proof {
            use_type_invariant(self);
        }
    }

    /// The number of registered tools.
    pub fn len(&self) -> (n: usize)
        ensures
            n == self@.len(),
    {
        self.tools.len()
    }

    fn position(&self, name: &str) -> (res: Option<usize>)
        ensures
            res is Some <==> has_name(self@, name@),
            res matches Some(i) ==> (i < self@.len() && self@[i as int].name == name@
                && i == position_of(self@, name@)),
    {
        proof {
            use_type_invariant(self);
        }
        let key: String = name.to_owned();
        let mut i: usize = 0;
        while i < self.tools.len()
            invariant
                key@ == name@,
                i <= self.tools@.len(),
                self@.len() == self.tools@.len(),
                self@ == self.tools@.map_values(|e: ToolEntry<T>| entry_view(e)),
                names_distinct(self@),
                forall|j: int| 0 <= j < i ==> #[trigger] self@[j].name != name@,
            decreases self.tools@.len() - i,
        {
            if self.tools[i].name == key {
                proof {
                    assert(self@[i as int].name == name@);
                    let p = position_of(self@, name@);
                    assert(0 <= p < self@.len() && self@[p].name == name@);
                }
                return Some(i);
            }
            i = i + 1;
        }
        None
    }

    /// Registers a tool under `name`. A tool already registered under that
    /// name is replaced, in its place; otherwise the tool comes last.
    pub fn register(&mut self, name: String, callback: bool, definition: Option<ToolDefinition>, tool: T)
        ensures
            final(self)@ == registered(
                old(self)@,
                entry_view(ToolEntry { name, callback, definition, tool }),
            ),
    {
        proof {
            use_type_invariant(&*self);
        }
        let ghost e = entry_view(ToolEntry { name, callback, definition, tool });
        let found = self.position(name.as_str());
        let mut tools: Vec<ToolEntry<T>> = Vec::new();
        std::mem::swap(&mut tools, &mut self.tools);
        let entry = ToolEntry { name, callback, definition, tool };
        match found {
            Some(i) => {
                tools.set(i, entry);
            }
            None => {
                tools.push(entry);
            }
        }
        let ghost new_view = tools@.map_values(|x: ToolEntry<T>| entry_view(x));
        proof {
            assert(new_view =~= registered(old(self)@, e));
        }
        self.tools = tools;
    }

    /// The tool registered under `name`.
    pub fn get(&self, name: &str) -> (res: Option<&T>)
        ensures
            res matches Some(t) ==> (lookup(self@, name@) matches Some(e) && *t == e.tool),
            res is None <==> lookup(self@, name@) is None,
    {
        match self.position(name) {
            Some(i) => Some(&self.tools[i].tool),
            None => None,
        }
    }

    /// The tool registered under `name`, or `ToolNotFound`.
    pub fn find_tool(&self, name: &str) -> (res: Result<&T, AgentError>)
        ensures
            res matches Ok(t) ==> (lookup(self@, name@) matches Some(e) && *t == e.tool),
            res matches Err(err) ==> (err matches AgentError::ToolNotFound(n) && n@ == name@),
            res is Err <==> lookup(self@, name@) is None,
    {
        match self.get(name) {
            Some(t) => Ok(t),
            None => Err(AgentError::ToolNotFound(name.to_owned())),
        }
    }

    /// Whether the result of the tool registered under `name` goes back to
    /// the model; `ToolNotFound` when no tool has that name.
    pub fn check_tool_callback(&self, name: &str) -> (res: Result<bool, AgentError>)
        ensures
            res matches Ok(b) ==> (lookup(self@, name@) matches Some(e) && b == e.callback),
            res matches Err(err) ==> (err matches AgentError::ToolNotFound(n) && n@ == name@),
            res is Err <==> lookup(self@, name@) is None,
    {
        match self.position(name) {
            Some(i) => Ok(self.tools[i].callback),
            None => Err(AgentError::ToolNotFound(name.to_owned())),
        }
    }

    /// The definitions offered to the model: those of the tools that have
    /// one, in the order in which the tools stand.
    pub fn get_tool_definitions(&self) -> (res: Vec<ToolDefinition>)
        ensures
            definitions_view(res@) == defined_tools(self@),
    {
        let mut res: Vec<ToolDefinition> = Vec::new();
        let mut i: usize = 0;
        while i < self.tools.len()
            invariant
                i <= self.tools@.len(),
                self@ == self.tools@.map_values(|e: ToolEntry<T>| entry_view(e)),
                definitions_view(res@) == defined_tools(self@.take(i as int)),
            decreases self.tools@.len() - i,
        {
            proof {
                assert(self@.take(i + 1).drop_last() =~= self@.take(i as int));
            }
            match &self.tools[i].definition {
                Some(d) => {
                    res.push(d.clone());
                    proof {
                        assert(definitions_view(res@) =~= defined_tools(self@.take(i + 1)));
                    }
                }
                None => {}
            }
            i = i + 1;
        }
        proof {
            assert(self@.take(i as int) =~= self@);
        }
        res
    }
}

impl<T> Default for ToolRegistry<T> {
    fn default() -> (res: Self)
        ensures
            res@ == Seq::<ToolEntryView<T>>::empty(),
    {
        Self::init()
    }
}

} // verus!
