//! The tool registry: tool descriptors by name, in registration order.

use crate::json::text_eq;
use crate::protocol::{Tool, ToolModel};
use vstd::prelude::*;

verus! {

/// The models of a list of tool descriptors, in order.
pub open spec fn tools_view(tools: Seq<Tool>) -> Seq<ToolModel> {
    Seq::new(tools.len(), |i: int| tools[i]@)
}

/// No two descriptors share a name.
pub open spec fn distinct_names(tools: Seq<ToolModel>) -> bool {
    forall|i: int, j: int|
        0 <= i < j < tools.len() ==> (#[trigger] tools[i]).name != (#[trigger] tools[j]).name
}

/// The position of the first descriptor named `name`, or the length of
/// `tools` where none has this name.
pub open spec fn position(tools: Seq<ToolModel>, name: Seq<char>) -> int
    decreases tools.len(),
{
    if tools.len() == 0 {
        0
    } else if tools[0].name == name {
        0
    } else {
        1 + position(tools.drop_first(), name)
    }
}

/// Whether a descriptor named `name` is registered.
pub open spec fn has_name(tools: Seq<ToolModel>, name: Seq<char>) -> bool {
    position(tools, name) < tools.len()
}

/// The descriptor named `name`, if one is registered.
pub open spec fn find(tools: Seq<ToolModel>, name: Seq<char>) -> Option<ToolModel> {
    if has_name(tools, name) {
        Some(tools[position(tools, name)])
    } else {
        None
    }
}

/// The registry after registering `tool`: a descriptor of the same name
/// is replaced where it stands, a new name is added at the end.
pub open spec fn registered(tools: Seq<ToolModel>, tool: ToolModel) -> Seq<ToolModel> {
    if has_name(tools, tool.name) {
        tools.update(position(tools, tool.name), tool)
    } else {
        tools.push(tool)
    }
}

/// `position` is the least index at which `name` stands: it lies within
/// `0..=len`, no earlier descriptor has the name, and the descriptor at
/// it, if there is one, has the name.
pub proof fn lemma_position(tools: Seq<ToolModel>, name: Seq<char>)
    ensures
        0 <= position(tools, name) <= tools.len(),
        forall|j: int| 0 <= j < position(tools, name) ==> (#[trigger] tools[j]).name != name,
        has_name(tools, name) ==> tools[position(tools, name)].name == name,
    decreases tools.len(),
{
    if tools.len() > 0 && tools[0].name != name {
        let rest = tools.drop_first();
        lemma_position(rest, name);
        assert forall|j: int| 0 <= j < position(tools, name) implies (#[trigger] tools[j]).name
            != name by {
            if j > 0 {
                assert(rest[j - 1] == tools[j]);
            }
        }
    }
}

/// Registering keeps the names distinct.
pub proof fn lemma_registered_distinct(tools: Seq<ToolModel>, tool: ToolModel)
    requires
        distinct_names(tools),
    ensures
        distinct_names(registered(tools, tool)),
{
    let after = registered(tools, tool);
    lemma_position(tools, tool.name);
    if has_name(tools, tool.name) {
        assert forall|i: int, j: int| 0 <= i < j < after.len() implies (#[trigger] after[i]).name
            != (#[trigger] after[j]).name by {
            assert(after[i].name == tools[i].name);
            assert(after[j].name == tools[j].name);
        }
    } else {
        assert forall|i: int, j: int| 0 <= i < j < after.len() implies (#[trigger] after[i]).name
            != (#[trigger] after[j]).name by {
            if j == tools.len() {
                assert(tools[i].name != tool.name);
            } else {
                assert(after[i].name == tools[i].name);
                assert(after[j].name == tools[j].name);
            }
        }
    }
}

/// After registering a descriptor, a lookup by its name finds it.
pub proof fn lemma_find_registered(tools: Seq<ToolModel>, tool: ToolModel)
    ensures
        find(registered(tools, tool), tool.name) == Some(tool),
{
    let after = registered(tools, tool);
    lemma_position(tools, tool.name);
    lemma_position(after, tool.name);
    let p = position(tools, tool.name);
    let q = position(after, tool.name);
    assert(after[p] == tool);
    if q < p {
        assert(after[q] == tools[q]);
    }
}

/// Registering a descriptor leaves the lookups by every other name as
/// they were.
pub proof fn lemma_find_other(tools: Seq<ToolModel>, tool: ToolModel, name: Seq<char>)
    requires
        name != tool.name,
    ensures
        find(registered(tools, tool), name) == find(tools, name),
{
    let after = registered(tools, tool);
    lemma_position(tools, tool.name);
    lemma_position(tools, name);
    lemma_position(after, name);
    let p = position(tools, name);
    let q = position(after, name);
    if p < tools.len() {
        assert(after[p].name == name);
        if q < p {
            assert(tools[q].name != name);
        }
    } else if q < after.len() {
        if q < tools.len() {
            assert(tools[q].name != name);
        }
    }
}

/// Tool descriptors by name, in registration order.
pub struct ToolRegistry {
    tools: Vec<Tool>,
}

impl View for ToolRegistry {
    type V = Seq<ToolModel>;

    closed spec fn view(&self) -> Seq<ToolModel> {
        tools_view(self.tools@)
    }
}

impl ToolRegistry {
    /// An empty registry.
    pub fn new() -> (registry: Self)
        ensures
            registry@ == Seq::<ToolModel>::empty(),
    {
        let registry = ToolRegistry { tools: Vec::new() };
        assert(registry@ =~= Seq::<ToolModel>::empty());
        registry
    }

    /// The position of the first descriptor named `name`; the number of
    /// descriptors where there is none.
    fn index_of(&self, name: &str) -> (at: usize)
        ensures
            at == position(self@, name@),
    {
        let mut i: usize = 0;
        proof {
            assert(self@.skip(0) =~= self@);
        }
        while i < self.tools.len()
            invariant
                i <= self.tools@.len(),
                position(self@, name@) == i + position(self@.skip(i as int), name@),
            decreases self.tools@.len() - i,
        {
            proof {
                assert(self@.skip(i as int).drop_first() =~= self@.skip(i as int + 1));
            }
            if text_eq(self.tools[i].name.as_str(), name) {
                return i;
            }
            i += 1;
        }
        i
    }

    /// Inserts a descriptor, or overwrites the one of the same name.
    pub fn register(&mut self, tool: Tool)
        ensures
            final(self)@ == registered(old(self)@, tool@),
            distinct_names(old(self)@) ==> distinct_names(final(self)@),
    {
        proof {
            if distinct_names(self@) {
                lemma_registered_distinct(self@, tool@);
            }
        }
        let at = self.index_of(tool.name.as_str());
        if at < self.tools.len() {
            self.tools.set(at, tool);
        } else {
            self.tools.push(tool);
        }
        assert(self@ =~= registered(old(self)@, tool@));
    }

    /// The descriptor registered under `name`.
    pub fn get(&self, name: &str) -> (found: Option<&Tool>)
        ensures
            found matches Some(t) ==> find(self@, name@) == Some(t@),
            found is None ==> find(self@, name@) is None,
    {
        let at = self.index_of(name);
        if at < self.tools.len() {
            Some(&self.tools[at])
        } else {
            None
        }
    }

    /// Whether a descriptor is registered under `name`.
    pub fn contains(&self, name: &str) -> (present: bool)
        ensures
            present == has_name(self@, name@),
    {
        self.index_of(name) < self.tools.len()
    }

    /// The registered descriptors, in registration order.
    pub fn list(&self) -> (tools: &Vec<Tool>)
        ensures
            tools_view(tools@) == self@,
    {
        &self.tools
    }

    /// The number of registered descriptors.
    pub fn len(&self) -> (n: usize)
        ensures
            n == self@.len(),
    {
        self.tools.len()
    }
}

} // verus!
