//! The tool capability set: each caller-declared function-calling tool is
//! kept in two parallel representations that must stay consistent — an
//! ordered list of lightweight descriptors attached to model metadata,
//! and a mapping from tool name to invocable capability used to dispatch
//! tool calls.  Tool names are unique within the mapping; when a caller
//! supplies duplicate names, the last declaration wins there, while the
//! descriptor list retains every declaration.

use vstd::prelude::*;

use crate::types::clone_opt_string;
use crate::types::ModelTool;
use crate::types::ModelTools;
use crate::types::ModelToolView;

verus! {

/// What the caller declares for one function-calling tool.
#[derive(PartialEq, Eq, Debug)]
pub struct ToolFunction {
    pub name: String,
    pub description: Option<String>,
    pub parameters: Option<String>,
}

#[verifier::ext_equal]
pub struct ToolFunctionView {
    pub name: Seq<char>,
    pub description: Option<Seq<char>>,
    pub parameters: Option<Seq<char>>,
}

impl View for ToolFunction {
    type V = ToolFunctionView;

    open spec fn view(&self) -> ToolFunctionView {
        ToolFunctionView {
            name: self.name@,
            description: self.description.deep_view(),
            parameters: self.parameters.deep_view(),
        }
    }
}

impl DeepView for ToolFunction {
    type V = ToolFunctionView;

    open spec fn deep_view(&self) -> ToolFunctionView {
        self.view()
    }
}

impl Clone for ToolFunction {
    fn clone(&self) -> (res: Self)
        ensures
            res@ == self@,
    {
        ToolFunction {
            name: self.name.clone(),
            description: clone_opt_string(&self.description),
            parameters: clone_opt_string(&self.parameters),
        }
    }
}

/// One caller-declared tool.
#[derive(PartialEq, Eq, Debug)]
pub struct ToolDefinition {
    pub function: ToolFunction,
}

#[verifier::ext_equal]
pub struct ToolDefinitionView {
    pub function: ToolFunctionView,
}

impl View for ToolDefinition {
    type V = ToolDefinitionView;

    open spec fn view(&self) -> ToolDefinitionView {
        ToolDefinitionView { function: self.function@ }
    }
}

impl DeepView for ToolDefinition {
    type V = ToolDefinitionView;

    open spec fn deep_view(&self) -> ToolDefinitionView {
        self.view()
    }
}

impl Clone for ToolDefinition {
    fn clone(&self) -> (res: Self)
        ensures
            res@ == self@,
    {
        ToolDefinition { function: self.function.clone() }
    }
}

/// An invocable capability wrapping one declared tool; the execution
/// engine dispatches a tool call through it.
#[derive(PartialEq, Eq, Debug)]
pub struct GatewayTool {
    pub def: ToolDefinition,
}

impl View for GatewayTool {
    type V = ToolDefinitionView;

    open spec fn view(&self) -> ToolDefinitionView {
        self.def@
    }
}

impl Clone for GatewayTool {
    fn clone(&self) -> (res: Self)
        ensures
            res@ == self@,
    {
        GatewayTool { def: self.def.clone() }
    }
}

/// The tool set a request declares: its tool list, or empty when the
/// request declares none.
pub open spec fn declared_tools(tools: Option<Seq<ToolDefinitionView>>) -> Seq<
    ToolDefinitionView,
> {
    match tools {
        Some(ts) => ts,
        None => Seq::empty(),
    }
}

/// The lightweight descriptor of one declared tool: name and description,
/// no bound arguments.
pub open spec fn descriptor_of(t: ToolDefinitionView) -> ModelToolView {
    ModelToolView {
        name: t.function.name,
        description: t.function.description,
        passed_args: Seq::empty(),
    }
}

/// The ordered descriptor list of a declared tool sequence; one entry per
/// declaration, duplicates retained.
pub open spec fn descriptors_spec(tools: Seq<ToolDefinitionView>) -> Seq<ModelToolView> {
    tools.map_values(|t: ToolDefinitionView| descriptor_of(t))
}

/// Builds the ordered descriptor list attached to model metadata.
pub fn build_tool_descriptors(tools: &Option<Vec<ToolDefinition>>) -> (r: ModelTools)
    ensures
        r@ == descriptors_spec(declared_tools(tools.deep_view())),
{
    match tools {
        None => {
            let r = ModelTools(Vec::new());
            proof {
                assert(r@ =~= descriptors_spec(declared_tools(tools.deep_view())));
            }
            r
        },
        Some(ts) => {
            let mut out: Vec<ModelTool> = Vec::new();
            let mut i: usize = 0;
            while i < ts.len()
                invariant
                    i <= ts.len(),
                    out@.len() == i as int,
                    forall|k: int|
                        0 <= k < i ==> #[trigger] out@[k].deep_view() == descriptor_of(
                            ts@[k].deep_view(),
                        ),
                decreases ts.len() - i,
            {
                out.push(
                    ModelTool {
                        name: ts[i].function.name.clone(),
                        description: clone_opt_string(&ts[i].function.description),
                        passed_args: Vec::new(),
                    },
                );
                proof {
                    assert(out@[i as int].deep_view() =~= descriptor_of(ts@[i as int].deep_view()));
                }
                i = i + 1;
            }
            let r = ModelTools(out);
            proof {
                assert(r@ =~= descriptors_spec(declared_tools(tools.deep_view())));
            }
            r
        },
    }
}

/// The name-to-capability mapping of a declared tool sequence: each
/// declaration is inserted in order, so of two declarations with the same
/// name the later one wins.
pub open spec fn capability_map_spec(tools: Seq<ToolDefinitionView>) -> Map<
    Seq<char>,
    ToolDefinitionView,
>
    decreases tools.len(),
{
    if tools.len() == 0 {
        Map::empty()
    } else {
        capability_map_spec(tools.drop_last()).insert(
            tools.last().function.name,
            tools.last(),
        )
    }
}

/// One binding of the capability mapping.
pub struct CapabilityEntry {
    pub name: String,
    pub tool: GatewayTool,
}

#[verifier::ext_equal]
pub struct CapabilityEntryView {
    pub name: Seq<char>,
    pub tool: ToolDefinitionView,
}

impl View for CapabilityEntry {
    type V = CapabilityEntryView;

    open spec fn view(&self) -> CapabilityEntryView {
        CapabilityEntryView { name: self.name@, tool: self.tool@ }
    }
}

impl DeepView for CapabilityEntry {
    type V = CapabilityEntryView;

    open spec fn deep_view(&self) -> CapabilityEntryView {
        self.view()
    }
}

/// The mapping each entry sequence denotes: entries inserted left to
/// right.
pub open spec fn entries_map(entries: Seq<CapabilityEntryView>) -> Map<
    Seq<char>,
    ToolDefinitionView,
>
    decreases entries.len(),
{
    if entries.len() == 0 {
        Map::empty()
    } else {
        entries_map(entries.drop_last()).insert(
            entries.last().name,
            entries.last().tool,
        )
    }
}

/// Names pairwise distinct, and each entry keyed by the name of the tool
/// it wraps.
pub open spec fn entries_wf(entries: Seq<CapabilityEntryView>) -> bool {
    &&& forall|i: int, j: int| 0 <= i < j < entries.len() ==> entries[i].name != entries[j].name
    &&& forall|i: int|
        0 <= i < entries.len() ==> #[trigger] entries[i].name == entries[i].tool.function.name
}

/// The mapping from tool name to invocable capability used by the
/// execution engine to dispatch tool calls.  Names are unique inside it.
pub struct ToolCapabilityMap {
    entries: Vec<CapabilityEntry>,
}

impl View for ToolCapabilityMap {
    type V = Map<Seq<char>, ToolDefinitionView>;

    closed spec fn view(&self) -> Map<Seq<char>, ToolDefinitionView> {
        entries_map(self.entries.deep_view())
    }
}

impl ToolCapabilityMap {
    /// Names are pairwise distinct, and each entry is keyed by the name
    /// of the tool it wraps.
    pub closed spec fn wf(&self) -> bool {
        entries_wf(self.entries.deep_view())
    }

    pub fn new() -> (m: Self)
        ensures
            m.wf(),
            m@ == Map::<Seq<char>, ToolDefinitionView>::empty(),
    {
        let m = ToolCapabilityMap { entries: Vec::new() };
        proof {
            assert(m.entries.deep_view() =~= Seq::<CapabilityEntryView>::empty());
        }
        m
    }

    /// Binds `name` to `tool`, replacing any earlier binding of the same
    /// name: last write wins.
    pub fn insert(&mut self, name: String, tool: GatewayTool)
        requires
            old(self).wf(),
            name@ == tool@.function.name,
        ensures
            final(self).wf(),
            final(self)@ == old(self)@.insert(name@, tool@),
    {
        let ghost pre = self.entries.deep_view();
        let mut i: usize = 0;
        while i < self.entries.len()
            invariant
                entries_wf(pre),
                name@ == tool@.function.name,
                old(self)@ == entries_map(pre),
                self.entries.deep_view() == pre,
                i <= pre.len(),
                pre.len() == self.entries@.len(),
                forall|k: int| 0 <= k < i ==> pre[k].name != name@,
            decreases pre.len() - i,
        {
            proof {
                assert(pre[i as int] == self.entries@[i as int]@);
            }
            if self.entries[i].name == name {
                let entry = CapabilityEntry { name, tool };
                proof {
                    assert(entry@.name == pre[i as int].name);
                }
                self.entries.set(i, entry);
                proof {
                    let updated = pre.update(i as int, entry@);
                    assert(self.entries.deep_view() =~= updated);
                    assert(forall|k: int|
                        0 <= k < updated.len() ==> #[trigger] updated[k].name == pre[k].name);
                    lemma_entries_map_update(pre, i as int, entry@);
                }
                return ;
            }
            i = i + 1;
        }
        let entry = CapabilityEntry { name, tool };
        self.entries.push(entry);
        proof {
            let grown = pre.push(entry@);
            assert(self.entries.deep_view() =~= grown);
            assert(grown.drop_last() =~= pre);
            assert(grown.last() == entry@);
            assert(entries_map(grown) == entries_map(pre).insert(name@, tool@));
            assert(forall|k: int| 0 <= k < pre.len() ==> #[trigger] grown[k].name == pre[k].name);
        }
    }

    /// Looks a capability up by tool name.
    pub fn get(&self, name: &String) -> (r: Option<&GatewayTool>)
        requires
            self.wf(),
        ensures
            match r {
                Some(t) => self@.contains_key(name@) && self@[name@] == t@,
                None => !self@.contains_key(name@),
            },
    {
        let ghost pre = self.entries.deep_view();
        let mut i: usize = 0;
        while i < self.entries.len()
            invariant
                self.wf(),
                pre == self.entries.deep_view(),
                i <= pre.len(),
                pre.len() == self.entries@.len(),
                forall|k: int| 0 <= k < i ==> pre[k].name != name@,
            decreases pre.len() - i,
        {
            proof {
                assert(pre[i as int] == self.entries@[i as int]@);
            }
            if self.entries[i].name == *name {
                proof {
                    lemma_entries_map_index(pre);
                    assert(entries_map(pre).contains_key(pre[i as int].name));
                    assert(entries_map(pre)[pre[i as int].name] == pre[i as int].tool);
                }
                return Some(&self.entries[i].tool);
            }
            i = i + 1;
        }
        proof {
            lemma_entries_map_index(pre);
            if self@.contains_key(name@) {
                let j = choose|j: int| 0 <= j < pre.len() && pre[j].name == name@;
                assert(false);
            }
        }
        None
    }
}

/// For entry sequences with pairwise distinct names, the denoted mapping
/// holds exactly the entries' bindings.
proof fn lemma_entries_map_index(entries: Seq<CapabilityEntryView>)
    requires
        forall|i: int, j: int| 0 <= i < j < entries.len() ==> entries[i].name != entries[j].name,
    ensures
        forall|i: int|
            0 <= i < entries.len() ==> entries_map(entries).contains_key(
                #[trigger] entries[i].name,
            ) && entries_map(entries)[entries[i].name] == entries[i].tool,
        forall|k: Seq<char>|
            entries_map(entries).contains_key(k) ==> exists|i: int|
                0 <= i < entries.len() && entries[i].name == k,
    decreases entries.len(),
{
    if entries.len() > 0 {
        let prefix = entries.drop_last();
        let last = entries.last();
        lemma_entries_map_index(prefix);
        assert forall|i: int| 0 <= i < entries.len() implies entries_map(entries).contains_key(
            #[trigger] entries[i].name,
        ) && entries_map(entries)[entries[i].name] == entries[i].tool by {
            if i < entries.len() - 1 {
                assert(prefix[i] == entries[i]);
                assert(entries[i].name != last.name);
                assert(entries_map(prefix).contains_key(entries[i].name));
            } else {
                assert(entries[i] == last);
            }
        }
        assert forall|k: Seq<char>| entries_map(entries).contains_key(k) implies exists|i: int|
            0 <= i < entries.len() && entries[i].name == k by {
            if k == last.name {
                assert(entries[entries.len() - 1].name == k);
            } else {
                let i = choose|i: int| 0 <= i < prefix.len() && prefix[i].name == k;
                assert(entries[i].name == k);
            }
        }
    }
}

/// Replacing the entry that holds a name re-binds that name and nothing
/// else.
proof fn lemma_entries_map_update(
    entries: Seq<CapabilityEntryView>,
    i: int,
    entry: CapabilityEntryView,
)
    requires
        0 <= i < entries.len(),
        entries[i].name == entry.name,
        forall|p: int, q: int| 0 <= p < q < entries.len() ==> entries[p].name != entries[q].name,
    ensures
        entries_map(entries.update(i, entry)) == entries_map(entries).insert(
            entry.name,
            entry.tool,
        ),
    decreases entries.len(),
{
    let updated = entries.update(i, entry);
    if i == entries.len() - 1 {
        assert(updated.drop_last() =~= entries.drop_last());
        assert(updated.last() == entry);
        assert(entries_map(updated) =~= entries_map(entries).insert(entry.name, entry.tool));
    } else {
        assert(updated.drop_last() =~= entries.drop_last().update(i, entry));
        assert(updated.last() == entries.last());
        lemma_entries_map_update(entries.drop_last(), i, entry);
        assert(entries.last().name != entry.name);
        assert(entries_map(updated) =~= entries_map(entries).insert(entry.name, entry.tool));
    }
}

/// Builds the dispatch mapping of a request's declared tools; the
/// capability for each name is its last declaration.
pub fn build_tool_capability_map(tools: &Option<Vec<ToolDefinition>>) -> (m: ToolCapabilityMap)
    ensures
        m.wf(),
        m@ == capability_map_spec(declared_tools(tools.deep_view())),
{
    let mut m = ToolCapabilityMap::new();
    match tools {
        None => {
            proof {
                assert(declared_tools(tools.deep_view()) =~= Seq::<ToolDefinitionView>::empty());
            }
            m
        },
        Some(ts) => {
            let ghost all = ts.deep_view();
            let mut i: usize = 0;
            while i < ts.len()
                invariant
                    m.wf(),
                    i <= ts.len(),
                    all == ts.deep_view(),
                    m@ == capability_map_spec(all.take(i as int)),
                decreases ts.len() - i,
            {
                let def = ts[i].clone();
                let name = def.function.name.clone();
                m.insert(name, GatewayTool { def });
                proof {
                    assert(all.take(i as int + 1).drop_last() =~= all.take(i as int));
                    assert(all.take(i as int + 1).last() == all[i as int]);
                }
                i = i + 1;
            }
            proof {
                assert(all.take(ts@.len() as int) =~= all);
            }
            m
        },
    }
}

/// Of two tool declarations with the same name, the capability mapping
/// keeps exactly one entry for that name — the later declaration — while
/// the descriptor list retains both declarations in order.
pub proof fn lemma_tool_name_last_wins(t1: ToolDefinitionView, t2: ToolDefinitionView)
    requires
        t1.function.name == t2.function.name,
    ensures
        capability_map_spec(seq![t1, t2]).dom() == set![t2.function.name],
        capability_map_spec(seq![t1, t2])[t2.function.name] == t2,
        descriptors_spec(seq![t1, t2]) == seq![descriptor_of(t1), descriptor_of(t2)],
{
    let s = seq![t1, t2];
    let s1 = seq![t1];
    assert(s.drop_last() =~= s1);
    assert(s.last() == t2);
    assert(s1.drop_last() =~= Seq::<ToolDefinitionView>::empty());
    assert(s1.last() == t1);
    assert(capability_map_spec(Seq::<ToolDefinitionView>::empty()) == Map::<
        Seq<char>,
        ToolDefinitionView,
    >::empty());
    assert(capability_map_spec(s1) == Map::<Seq<char>, ToolDefinitionView>::empty().insert(
        t1.function.name,
        t1,
    ));
    assert(capability_map_spec(s) == capability_map_spec(s1).insert(t2.function.name, t2));
    assert(capability_map_spec(s).dom() =~= set![t2.function.name]);
    assert(descriptors_spec(s) =~= seq![descriptor_of(t1), descriptor_of(t2)]);
}

} // verus!
