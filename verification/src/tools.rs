//! The tool registry: which functions a model may call, by name, and how to
//! run them.

use vstd::prelude::*;
use vstd::string::StringExecFns;
use crate::text::{failed, str_eq, text_result};
use crate::traits::{Tool, ToolCallFunction, ToolView};

verus! {

/// Whether `name` is the name of one of the entries.
spec fn has_name<E>(entries: Seq<(Tool, E)>, name: Seq<char>) -> bool {
    exists|i: int| 0 <= i < entries.len() && (#[trigger] entries[i]).0.name@ == name
}

/// The place of an entry named `name`.
spec fn place_of<E>(entries: Seq<(Tool, E)>, name: Seq<char>) -> int {
    choose|i: int| 0 <= i < entries.len() && (#[trigger] entries[i]).0.name@ == name
}

/// Whether no two entries share a name.
spec fn distinct_names<E>(entries: Seq<(Tool, E)>) -> bool {
    forall|i: int, j: int|
        0 <= i < entries.len() && 0 <= j < entries.len() && (#[trigger] entries[i]).0.name@ == (
        #[trigger] entries[j]).0.name@ ==> i == j
}

/// Whether `tools` lists what `registered` holds: every tool listed is
/// registered under its name, no name is listed twice, and every registered
/// name is listed.
pub open spec fn lists(tools: Seq<ToolView>, registered: Map<Seq<char>, ToolView>) -> bool {
    &&& forall|i: int|
        0 <= i < tools.len() ==> registered.contains_key((#[trigger] tools[i]).name)
            && registered[tools[i].name] == tools[i]
    &&& forall|i: int, j: int|
        0 <= i < tools.len() && 0 <= j < tools.len() && (#[trigger] tools[i]).name == (
        #[trigger] tools[j]).name ==> i == j
    &&& forall|name: Seq<char>| #[trigger]
        registered.contains_key(name) ==> exists|i: int|
            0 <= i < tools.len() && (#[trigger] tools[i]).name == name
}

/// The tools registered under the given names, in the order of the names;
/// names that are not registered are passed over.
pub open spec fn selected(registered: Map<Seq<char>, ToolView>, names: Seq<Seq<char>>) -> Seq<
    ToolView,
>
    decreases names.len(),
{
    if names.len() == 0 {
        Seq::empty()
    } else {
        let rest = selected(registered, names.drop_last());
        if registered.contains_key(names.last()) {
            rest.push(registered[names.last()])
        } else {
            rest
        }
    }
}

/// The error that names a tool which is not registered.
pub open spec fn not_found_text(name: Seq<char>) -> Seq<char> {
    "Tool '"@ + name + "' not found in registry"@
}

/// The error that reports a registry which could not be locked, given the
/// reason.
pub open spec fn lock_failed_text(reason: Seq<char>) -> Seq<char> {
    "Failed to lock registry: "@ + reason
}

/// Whether `result` is what `executor` returned when it was called on the
/// argument text `args`.
pub open spec fn returned_by<E: Fn(&str) -> Result<String, String>>(
    executor: E,
    args: Seq<char>,
    result: Result<String, String>,
) -> bool {
    exists|s: &str| s@ == args && #[trigger] call_ensures(executor, (s,), result)
}

/// The views of a list of string slices, in order.
pub open spec fn name_texts(names: Seq<&str>) -> Seq<Seq<char>> {
    Seq::new(names.len(), |i: int| names[i]@)
}

/// Tools by name, each with the function that runs it. Registering a tool
/// under a name that is taken replaces the earlier entry.
pub struct ToolRegistry<E: Fn(&str) -> Result<String, String>> {
    tools: Vec<(Tool, E)>,
}

impl<E: Fn(&str) -> Result<String, String>> View for ToolRegistry<E> {
    type V = Map<Seq<char>, ToolView>;

    /// The registered tools, by name.
    closed spec fn view(&self) -> Map<Seq<char>, ToolView> {
        Map::new(
            |name: Seq<char>| has_name(self.tools@, name),
            |name: Seq<char>| self.tools@[place_of(self.tools@, name)].0@,
        )
    }
}

impl<E: Fn(&str) -> Result<String, String>> ToolRegistry<E> {
    #[verifier::type_invariant]
    spec fn inv(&self) -> bool {
        &&& distinct_names(self.tools@)
        &&& forall|i: int, s: &str|
            0 <= i < self.tools@.len() ==> #[trigger] call_requires(self.tools@[i].1, (s,))
    }

    /// The function that runs the tool registered as `name`.
    pub closed spec fn executor(&self, name: Seq<char>) -> E {
        self.tools@[place_of(self.tools@, name)].1
    }

    /// A registry with no tool.
    pub fn new() -> (r: Self)
        ensures
            r@ =~= Map::empty(),
    {
        let r = ToolRegistry { tools: Vec::new() };
        assert(r@ =~= Map::empty());
        r
    }

    fn find(&self, name: &str) -> (r: Option<usize>)
        ensures
            match r {
                Some(i) => i < self.tools@.len() && self.tools@[i as int].0.name@ == name@
                    && self@.contains_key(name@) && self@[name@] == self.tools@[i as int].0@
                    && self.executor(name@) == self.tools@[i as int].1,
                None => !self@.contains_key(name@),
            },
    {
        proof {
            use_type_invariant(self);
        }
        let mut i: usize = 0;
        while i < self.tools.len()
            invariant
                i <= self.tools@.len(),
                distinct_names(self.tools@),
                forall|j: int| 0 <= j < i ==> (#[trigger] self.tools@[j]).0.name@ != name@,
            decreases self.tools@.len() - i,
        {
            if str_eq(self.tools[i].0.name.as_str(), name) {
                assert(has_name(self.tools@, name@));
                assert(place_of(self.tools@, name@) == i);
                return Some(i);
            }
            i = i + 1;
        }
        None
    }

    /// Registers `tool` with the function that runs it. An earlier entry of the
    /// same name is replaced; every other entry stays.
    pub fn register(&mut self, tool: Tool, executor: E)
        requires
            forall|s: &str| #[trigger] call_requires(executor, (s,)),
        ensures
            final(self)@ == old(self)@.insert(tool.name@, tool@),
            final(self).executor(tool.name@) == executor,
            forall|name: Seq<char>|
                name != tool.name@ && old(self)@.contains_key(name) ==> #[trigger] final(self)
                    .executor(name) == old(self).executor(name),
    {
        proof {
            use_type_invariant(&*self);
        }
        let found = self.find(tool.name.as_str());
        let ghost before = self.tools@;
        let ghost key = tool.name@;
        let ghost content = tool@;
        let mut tools: Vec<(Tool, E)> = Vec::new();
        std::mem::swap(&mut tools, &mut self.tools);
        match found {
            Some(i) => {
                tools.set(i, (tool, executor));
            },
            None => {
                tools.push((tool, executor));
            },
        }
        let ghost after = tools@;
        proof {
            let p: int = match found {
                Some(i) => i as int,
                None => before.len() as int,
            };
            assert(after[p].0.name@ == key);
            assert forall|i: int| 0 <= i < after.len() && i != p implies after[i] == before[i]
                && (#[trigger] after[i]).0.name@ != key by {
                if found is Some {
                    assert(before[i].0.name@ == before[p].0.name@ ==> i == p);
                } else {
                    assert(!has_name(before, key));
                }
            }
            assert forall|i: int| 0 <= i < before.len() && i != p implies before[i] == after[i] by {}
            assert(distinct_names(after)) by {
                assert forall|i: int, j: int|
                    0 <= i < after.len() && 0 <= j < after.len() && (#[trigger] after[i]).0.name@
                        == (#[trigger] after[j]).0.name@ implies i == j by {
                    if i != p && j != p {
                        assert(before[i].0.name@ == before[j].0.name@);
                    }
                }
            }
            assert forall|name: Seq<char>| name != key implies has_name(after, name) == has_name(
                before,
                name,
            ) && (has_name(before, name) ==> place_of(after, name) == place_of(before, name)) by {
                if has_name(before, name) {
                    let i = place_of(before, name);
                    assert(after[i].0.name@ == name);
                    let j = place_of(after, name);
                    assert(before[j].0.name@ == name);
                }
                if has_name(after, name) {
                    let j = place_of(after, name);
                    assert(before[j].0.name@ == name);
                }
            }
            assert(has_name(after, key));
            assert(place_of(after, key) == p);
        }
        self.tools = tools;
        assert(self@ =~= old(self)@.insert(key, content));
    }

    /// The registered tools, each once, in no particular order.
    pub fn get_tools(&self) -> (r: Vec<Tool>)
        ensures
            lists(r.deep_view(), self@),
    {
        proof {
            use_type_invariant(self);
        }
        let mut out: Vec<Tool> = Vec::new();
        let mut i: usize = 0;
        while i < self.tools.len()
            invariant
                i <= self.tools@.len(),
                out@.len() == i,
                forall|j: int| 0 <= j < i ==> (#[trigger] out@[j])@ == self.tools@[j].0@,
            decreases self.tools@.len() - i,
        {
            out.push(self.tools[i].0.clone());
            i = i + 1;
        }
        proof {
            let listed = out.deep_view();
            let entries = self.tools@;
            assert forall|k: int| 0 <= k < listed.len() implies self@.contains_key(
                (#[trigger] listed[k]).name,
            ) && self@[listed[k].name] == listed[k] by {
                assert(out@[k]@ == entries[k].0@);
                assert(entries[k].0.name@ == listed[k].name);
                assert(has_name(entries, listed[k].name));
                assert(place_of(entries, listed[k].name) == k);
            }
            assert forall|a: int, b: int|
                0 <= a < listed.len() && 0 <= b < listed.len() && (#[trigger] listed[a]).name == (
                #[trigger] listed[b]).name implies a == b by {
                assert(out@[a]@ == entries[a].0@);
                assert(out@[b]@ == entries[b].0@);
                assert(entries[a].0.name@ == entries[b].0.name@);
            }
            assert forall|name: Seq<char>| #[trigger] self@.contains_key(name) implies exists|
                k: int,
            |
                0 <= k < listed.len() && (#[trigger] listed[k]).name == name by {
                let k = place_of(entries, name);
                assert(out@[k]@ == entries[k].0@);
                assert(listed[k].name == name);
            }
        }
        out
    }

    /// The registered tools among `names`, in the order of the names. A name
    /// that is not registered is passed over.
    pub fn get_tools_by_names(&self, names: &[&str]) -> (r: Vec<Tool>)
        ensures
            r.deep_view() == selected(self@, name_texts(names@)),
    {
        let mut out: Vec<Tool> = Vec::new();
        let mut i: usize = 0;
        assert(name_texts(names@).take(0) =~= Seq::<Seq<char>>::empty());
        while i < names.len()
            invariant
                i <= names@.len(),
                out.deep_view() == selected(self@, name_texts(names@).take(i as int)),
            decreases names@.len() - i,
        {
            let ghost prefix = name_texts(names@).take(i as int + 1);
            assert(prefix.drop_last() =~= name_texts(names@).take(i as int));
            assert(prefix.last() == names@[i as int]@);
            let ghost before = out.deep_view();
            match self.find(names[i]) {
                Some(p) => {
                    out.push(self.tools[p].0.clone());
                    assert(out.deep_view() =~= before.push(self@[names@[i as int]@]));
                },
                None => {},
            }
            i = i + 1;
        }
        assert(name_texts(names@).take(i as int) =~= name_texts(names@));
        out
    }

    /// Runs the tool registered as `name` on `args` and hands back what its
    /// function returns. Where no tool of that name is registered, the error
    /// says so.
    pub fn execute_tool(&self, name: &str, args: &str) -> (r: Result<String, String>)
        ensures
            self@.contains_key(name@) ==> returned_by(self.executor(name@), args@, r),
            !self@.contains_key(name@) ==> text_result(r) == failed(not_found_text(name@)),
    {
        proof {
            use_type_invariant(self);
        }
        match self.find(name) {
            Some(i) => {
                let executor = &self.tools[i].1;
                let r = executor(args);
                assert(call_ensures(self.executor(name@), (args,), r));
                r
            },
            None => {
                let mut e = "Tool '".to_owned();
                e.append(name);
                e.append("' not found in registry");
                assert(e@ =~= not_found_text(name@));
                Err(e)
            },
        }
    }

    /// Runs the tool that `tool_call` names on the arguments it carries.
    pub fn execute_tool_call(&self, tool_call: &ToolCallFunction) -> (r: Result<String, String>)
        ensures
            self@.contains_key(tool_call.name@) ==> returned_by(
                self.executor(tool_call.name@),
                tool_call.arguments@,
                r,
            ),
            !self@.contains_key(tool_call.name@) ==> text_result(r) == failed(
                not_found_text(tool_call.name@),
            ),
    {
        self.execute_tool(tool_call.name.as_str(), tool_call.arguments.as_str())
    }
}

/// Registers `tool` in the shared registry, which the caller has locked.
pub fn register_tool<E: Fn(&str) -> Result<String, String>>(
    registry: &mut ToolRegistry<E>,
    tool: Tool,
    executor: E,
)
    requires
        forall|s: &str| #[trigger] call_requires(executor, (s,)),
    ensures
        final(registry)@ == old(registry)@.insert(tool.name@, tool@),
        final(registry).executor(tool.name@) == executor,
        forall|name: Seq<char>|
            name != tool.name@ && old(registry)@.contains_key(name) ==> #[trigger] final(registry)
                .executor(name) == old(registry).executor(name),
{
    registry.register(tool, executor);
}

/// The tools of the shared registry; none where the registry could not be
/// locked.
pub fn get_all_tools<E: Fn(&str) -> Result<String, String>>(
    registry: Option<&ToolRegistry<E>>,
) -> (r: Vec<Tool>)
    ensures
        match registry {
            Some(reg) => lists(r.deep_view(), reg@),
            None => r@.len() == 0,
        },
{
    match registry {
        Some(reg) => reg.get_tools(),
        None => Vec::new(),
    }
}

/// The tools of the shared registry among `names`; none where the registry
/// could not be locked.
pub fn get_tools_by_names<E: Fn(&str) -> Result<String, String>>(
    registry: Option<&ToolRegistry<E>>,
    names: &[&str],
) -> (r: Vec<Tool>)
    ensures
        match registry {
            Some(reg) => r.deep_view() == selected(reg@, name_texts(names@)),
            None => r@.len() == 0,
        },
{
    match registry {
        Some(reg) => reg.get_tools_by_names(names),
        None => Vec::new(),
    }
}

/// Runs a tool of the shared registry. `registry` is the registry, or the
/// reason why it could not be locked, which the error then reports.
pub fn execute_tool<E: Fn(&str) -> Result<String, String>>(
    registry: Result<&ToolRegistry<E>, String>,
    name: &str,
    args: &str,
) -> (r: Result<String, String>)
    ensures
        match registry {
            Ok(reg) => {
                &&& reg@.contains_key(name@) ==> returned_by(reg.executor(name@), args@, r)
                &&& !reg@.contains_key(name@) ==> text_result(r) == failed(not_found_text(name@))
            },
            Err(reason) => text_result(r) == failed(lock_failed_text(reason@)),
        },
{
    match registry {
        Ok(reg) => reg.execute_tool(name, args),
        Err(reason) => {
            let mut e = "Failed to lock registry: ".to_owned();
            e.append(reason.as_str());
            Err(e)
        },
    }
}

/// Registering a tool under a name that is taken leaves one entry of that
/// name, the later one: a listing of the registry after `first` and then
/// `second` were registered under one name holds `second` exactly once and
/// `first` no more, and a registry that was empty before holds nothing else.
pub proof fn lemma_later_registration_wins(
    before: Map<Seq<char>, ToolView>,
    first: ToolView,
    second: ToolView,
    listing: Seq<ToolView>,
)
    requires
        first.name == second.name,
        lists(listing, before.insert(first.name, first).insert(second.name, second)),
    ensures
        before.insert(first.name, first).insert(second.name, second) == before.insert(
            second.name,
            second,
        ),
        exists|i: int|
            0 <= i < listing.len() && listing[i] == second && forall|j: int|
                0 <= j < listing.len() && (#[trigger] listing[j]).name == second.name ==> j == i,
        before =~= Map::empty() ==> listing == seq![second],
{
    let after = before.insert(first.name, first).insert(second.name, second);
    assert(after =~= before.insert(second.name, second));
    assert(after.contains_key(second.name));
    let i = choose|i: int| 0 <= i < listing.len() && (#[trigger] listing[i]).name == second.name;
    assert(after[listing[i].name] == listing[i]);
    assert(listing[i] == second);
    if before =~= Map::empty() {
        assert forall|j: int| 0 <= j < listing.len() implies (#[trigger] listing[j]).name
            == second.name by {
            assert(after.contains_key(listing[j].name));
        }
        assert(listing.len() == 1) by {
            assert(listing[0].name == second.name);
            if listing.len() > 1 {
                assert(listing[1].name == second.name);
            }
        }
        assert(listing =~= seq![second]);
    }
}

} // verus!
