//! The tool registry: one logical catalog over any number of tool servers,
//! with name-to-server routing, per-tool enable/disable state, and a
//! defined duplicate policy.
//!
//! Duplicate policy: the first registration of a tool name wins.  A tool
//! of the same name discovered later, from any server, is ignored: it
//! changes neither the routing, nor the catalog, nor the enabled state.
//!
//! Invariant: the catalog and the routing index run in parallel, one entry
//! per tool, and every tool name appears exactly once.  The transports
//! themselves (child processes, pipes) are owned by the embedding
//! application, keyed by the server names held here.

use vstd::prelude::*;

use crate::chat::{ToolDefinition, ToolDefinitionV};
use crate::text::str_eq;

verus! {

/// Why a registry operation failed.
pub enum RegistryError {
    /// No tool of this name is registered.
    ToolNotFound(String),
    /// The tool is routed to a server that is no longer registered.
    ServerNotFound(String),
}

/// The first value bound to a key in a list of pairs, if any.
pub open spec fn spec_assoc(pairs: Seq<(Seq<char>, Seq<char>)>, key: Seq<char>) -> Option<
    Seq<char>,
>
    decreases pairs.len(),
{
    if pairs.len() == 0 {
        None
    } else if pairs[0].0 == key {
        Some(pairs[0].1)
    } else {
        spec_assoc(pairs.drop_first(), key)
    }
}

/// The first flag bound to a key in a list of pairs, if any.
pub open spec fn spec_assoc_flag(pairs: Seq<(Seq<char>, bool)>, key: Seq<char>) -> Option<bool>
    decreases pairs.len(),
{
    if pairs.len() == 0 {
        None
    } else if pairs[0].0 == key {
        Some(pairs[0].1)
    } else {
        spec_assoc_flag(pairs.drop_first(), key)
    }
}

/// The views of a list of text pairs.
pub open spec fn pairs_view(s: Seq<(String, String)>) -> Seq<(Seq<char>, Seq<char>)> {
    Seq::new(s.len(), |i: int| (s[i].0@, s[i].1@))
}

/// The views of a list of text/flag pairs.
pub open spec fn flags_view(s: Seq<(String, bool)>) -> Seq<(Seq<char>, bool)> {
    Seq::new(s.len(), |i: int| (s[i].0@, s[i].1))
}

/// A list of pairs with the key bound to the given flag: the first binding
/// is replaced, or one is appended when the key is new.
pub open spec fn spec_set_flag(pairs: Seq<(Seq<char>, bool)>, key: Seq<char>, b: bool) -> Seq<
    (Seq<char>, bool),
>
    decreases pairs.len(),
{
    if pairs.len() == 0 {
        seq![(key, b)]
    } else if pairs[0].0 == key {
        seq![(key, b)] + pairs.drop_first()
    } else {
        seq![pairs[0]] + spec_set_flag(pairs.drop_first(), key, b)
    }
}

pub broadcast proof fn lemma_set_flag_lookup(pairs: Seq<(Seq<char>, bool)>, key: Seq<char>, b: bool, probe: Seq<char>)
    ensures
        #[trigger] spec_assoc_flag(spec_set_flag(pairs, key, b), probe) == if probe == key {
            Some(b)
        } else {
            spec_assoc_flag(pairs, probe)
        },
    decreases pairs.len(),
{
    if pairs.len() == 0 {
        let one = seq![(key, b)];
        assert(spec_set_flag(pairs, key, b) == one);
        assert(one[0] == (key, b));
        assert(one.drop_first() =~= Seq::<(Seq<char>, bool)>::empty());
        if probe != key {
            assert(spec_assoc_flag(one, probe) == spec_assoc_flag(one.drop_first(), probe));
        }
    } else if pairs[0].0 == key {
        let s = seq![(key, b)] + pairs.drop_first();
        assert(spec_set_flag(pairs, key, b) == s);
        assert(s[0] == (key, b));
        assert(s.drop_first() =~= pairs.drop_first());
        if probe != key {
            assert(spec_assoc_flag(s, probe) == spec_assoc_flag(pairs.drop_first(), probe));
            assert(spec_assoc_flag(pairs, probe) == spec_assoc_flag(pairs.drop_first(), probe));
        }
    } else {
        lemma_set_flag_lookup(pairs.drop_first(), key, b, probe);
        let s = seq![pairs[0]] + spec_set_flag(pairs.drop_first(), key, b);
        assert(spec_set_flag(pairs, key, b) == s);
        assert(s[0] == pairs[0]);
        assert(s.drop_first() =~= spec_set_flag(pairs.drop_first(), key, b));
        if probe == pairs[0].0 {
            assert(spec_assoc_flag(s, probe) == Some(pairs[0].1));
            assert(spec_assoc_flag(pairs, probe) == Some(pairs[0].1));
        } else {
            assert(spec_assoc_flag(s, probe) == spec_assoc_flag(
                spec_set_flag(pairs.drop_first(), key, b),
                probe,
            ));
            assert(spec_assoc_flag(pairs, probe) == spec_assoc_flag(pairs.drop_first(), probe));
        }
    }
}

/// Whether a tool name is enabled under the given state: an unknown name
/// counts as enabled.
pub open spec fn spec_enabled(enabled: Seq<(Seq<char>, bool)>, name: Seq<char>) -> bool {
    match spec_assoc_flag(enabled, name) {
        Some(b) => b,
        None => true,
    }
}

/// The tools of a catalog that are enabled under the given state, in order.
pub open spec fn spec_enabled_tools(
    tools: Seq<ToolDefinitionV>,
    enabled: Seq<(Seq<char>, bool)>,
) -> Seq<ToolDefinitionV>
    decreases tools.len(),
{
    if tools.len() == 0 {
        Seq::empty()
    } else {
        spec_enabled_tools(tools.drop_last(), enabled) + if spec_enabled(
            enabled,
            tools.last().name,
        ) {
            seq![tools.last()]
        } else {
            Seq::empty()
        }
    }
}

/// What registering a batch of tools for one server does to the routing
/// index, the catalog, and the enabled state, tool by tool: a name already
/// routed is skipped; a new name is routed to this server, its definition
/// appended, and the tool enabled.
pub open spec fn spec_register(
    index: Seq<(Seq<char>, Seq<char>)>,
    all: Seq<ToolDefinitionV>,
    enabled: Seq<(Seq<char>, bool)>,
    tools: Seq<ToolDefinitionV>,
    server: Seq<char>,
) -> (Seq<(Seq<char>, Seq<char>)>, Seq<ToolDefinitionV>, Seq<(Seq<char>, bool)>)
    decreases tools.len(),
{
    if tools.len() == 0 {
        (index, all, enabled)
    } else {
        let (ix, al, en) = spec_register(index, all, enabled, tools.drop_last(), server);
        let t = tools.last();
        if spec_assoc(ix, t.name) is Some {
            (ix, al, en)
        } else {
            (ix.push((t.name, server)), al.push(t), spec_set_flag(en, t.name, true))
        }
    }
}

/// The registry: connected server names, the tool catalog, the routing
/// index, and the enabled state.
pub struct MCPServerRegistry {
    pub servers: Vec<String>,
    pub tool_index: Vec<(String, String)>,
    pub all_tools: Vec<ToolDefinition>,
    pub enabled_tools: Vec<(String, bool)>,
}

impl MCPServerRegistry {
    /// Catalog and routing index run in parallel, and every tool name is
    /// routed exactly once.
    pub open spec fn wf(&self) -> bool {
        &&& self.all_tools@.len() == self.tool_index@.len()
        &&& forall|i: int|
            0 <= i < self.all_tools@.len() ==> self.all_tools@[i].name@ == self.tool_index@[i].0@
        &&& forall|i: int, j: int|
            0 <= i < j < self.tool_index@.len() ==> self.tool_index@[i].0@
                != self.tool_index@[j].0@
    }

    /// An empty registry.
    pub fn new() -> (r: MCPServerRegistry)
        ensures
            r.servers@.len() == 0,
            r.tool_index@.len() == 0,
            r.all_tools@.len() == 0,
            r.enabled_tools@.len() == 0,
            r.wf(),
    {
        MCPServerRegistry {
            servers: Vec::new(),
            tool_index: Vec::new(),
            all_tools: Vec::new(),
            enabled_tools: Vec::new(),
        }
    }

    /// A copy of the whole catalog.
    pub fn get_available_tools(&self) -> (r: Vec<ToolDefinition>)
        ensures
            r.deep_view() == self.all_tools.deep_view(),
    {
        let mut out: Vec<ToolDefinition> = Vec::new();
        let mut i: usize = 0;
        while i < self.all_tools.len()
            invariant
                0 <= i <= self.all_tools@.len(),
                out@.len() == i,
                forall|k: int|
                    0 <= k < out@.len() ==> out@[k].deep_view()
                        == self.all_tools@[k].deep_view(),
            decreases self.all_tools@.len() - i,
        {
            out.push(self.all_tools[i].clone());
            i = i + 1;
        }
        proof {
            assert(out.deep_view() =~= self.all_tools.deep_view());
        }
        out
    }

    /// Whether a tool is enabled; a name never toggled counts as enabled.
    pub fn is_tool_enabled(&self, tool_name: &str) -> (r: bool)
        ensures
            r == spec_enabled(flags_view(self.enabled_tools@), tool_name@),
    {
        let ghost pairs = flags_view(self.enabled_tools@);
        proof {
            assert(pairs.subrange(0, pairs.len() as int) =~= pairs);
        }
        let mut i: usize = 0;
        while i < self.enabled_tools.len()
            invariant
                0 <= i <= self.enabled_tools@.len(),
                pairs == flags_view(self.enabled_tools@),
                pairs.len() == self.enabled_tools@.len(),
                forall|k: int|
                    0 <= k < pairs.len() ==> pairs[k] == (
                    self.enabled_tools@[k].0@,
                    self.enabled_tools@[k].1,
                    ),
                spec_assoc_flag(pairs.subrange(i as int, pairs.len() as int), tool_name@)
                    == spec_assoc_flag(pairs, tool_name@),
                forall|k: int| 0 <= k < i ==> self.enabled_tools@[k].0@ != tool_name@,
            decreases self.enabled_tools@.len() - i,
        {
            let ghost tail = pairs.subrange(i as int, pairs.len() as int);
            proof {
                assert(tail[0] == pairs[i as int]);
                assert(tail.drop_first() =~= pairs.subrange(i + 1, pairs.len() as int));
            }
            if str_eq(self.enabled_tools[i].0.as_str(), tool_name) {
                return self.enabled_tools[i].1;
            }
            i = i + 1;
        }
        proof {
            assert(pairs.subrange(pairs.len() as int, pairs.len() as int) =~= Seq::<
                (Seq<char>, bool),
            >::empty());
        }
        true
    }

    /// Copies of the enabled tools of the catalog, in catalog order.
    pub fn get_enabled_tools(&self) -> (r: Vec<ToolDefinition>)
        ensures
            r.deep_view() == spec_enabled_tools(
                self.all_tools.deep_view(),
                flags_view(self.enabled_tools@),
            ),
    {
        let ghost tools = self.all_tools.deep_view();
        let mut out: Vec<ToolDefinition> = Vec::new();
        let mut i: usize = 0;
        while i < self.all_tools.len()
            invariant
                0 <= i <= self.all_tools@.len(),
                tools == self.all_tools.deep_view(),
                tools.len() == self.all_tools@.len(),
                forall|k: int|
                    0 <= k < tools.len() ==> tools[k] == self.all_tools@[k].deep_view(),
                out.deep_view() =~= spec_enabled_tools(
                    tools.subrange(0, i as int),
                    flags_view(self.enabled_tools@),
                ),
            decreases self.all_tools@.len() - i,
        {
            let ghost out0 = out.deep_view();
            if self.is_tool_enabled(self.all_tools[i].name.as_str()) {
                out.push(self.all_tools[i].clone());
                proof {
                    assert(out.deep_view() =~= out0 + seq![out.deep_view().last()]);
                }
            }
            i = i + 1;
            proof {
                let p = tools.subrange(0, i as int);
                assert(p.drop_last() =~= tools.subrange(0, i - 1));
                assert(p.last() == tools[i - 1]);
                assert(out.deep_view() =~= spec_enabled_tools(
                    p,
                    flags_view(self.enabled_tools@),
                ));
            }
        }
        proof {
            assert(tools.subrange(0, tools.len() as int) =~= tools);
        }
        out
    }

    /// Sets one tool's enabled state; every other name keeps its state.
    pub fn set_tool_enabled(&mut self, tool_name: &str, enabled: bool)
        ensures
            flags_view(final(self).enabled_tools@) == spec_set_flag(
                flags_view(old(self).enabled_tools@),
                tool_name@,
                enabled,
            ),
            final(self).servers == old(self).servers,
            final(self).tool_index == old(self).tool_index,
            final(self).all_tools == old(self).all_tools,
    {
        let ghost pairs = flags_view(self.enabled_tools@);
        let mut i: usize = 0;
        while i < self.enabled_tools.len()
            invariant
                0 <= i <= self.enabled_tools@.len(),
                pairs == flags_view(self.enabled_tools@),
                pairs.len() == self.enabled_tools@.len(),
                self.servers == old(self).servers,
                self.tool_index == old(self).tool_index,
                self.all_tools == old(self).all_tools,
                self.enabled_tools == old(self).enabled_tools,
                forall|k: int|
                    0 <= k < pairs.len() ==> pairs[k] == (
                    self.enabled_tools@[k].0@,
                    self.enabled_tools@[k].1,
                    ),
                forall|k: int| 0 <= k < i ==> self.enabled_tools@[k].0@ != tool_name@,
            decreases self.enabled_tools@.len() - i,
        {
            if str_eq(self.enabled_tools[i].0.as_str(), tool_name) {
                let name = String::from_str(tool_name);
                let _ = self.enabled_tools.remove(i);
                self.enabled_tools.insert(i, (name, enabled));
                proof {
                    lemma_set_flag_prefix(pairs, tool_name@, enabled, i as int);
                    assert(flags_view(self.enabled_tools@) =~= spec_set_flag(
                        pairs,
                        tool_name@,
                        enabled,
                    ));
                }
                return ;
            }
            i = i + 1;
        }
        let name = String::from_str(tool_name);
        self.enabled_tools.push((name, enabled));
        proof {
            lemma_set_flag_prefix(pairs, tool_name@, enabled, pairs.len() as int);
            assert(flags_view(self.enabled_tools@) =~= spec_set_flag(pairs, tool_name@, enabled));
        }
    }

    /// Turns every tool of the catalog on.
    pub fn enable_all_tools(&mut self)
        ensures
            forall|name: Seq<char>|
                (exists|i: int|
                    0 <= i < old(self).all_tools@.len() && old(self).all_tools@[i].name@ == name)
                    ==> spec_enabled(flags_view(final(self).enabled_tools@), name),
            forall|name: Seq<char>|
                (forall|i: int|
                    0 <= i < old(self).all_tools@.len() ==> old(self).all_tools@[i].name@ != name)
                    ==> spec_enabled(flags_view(final(self).enabled_tools@), name)
                    == spec_enabled(flags_view(old(self).enabled_tools@), name),
            final(self).servers == old(self).servers,
            final(self).tool_index == old(self).tool_index,
            final(self).all_tools == old(self).all_tools,
    {
        self.set_all_tools(true);
    }

    /// Turns every tool of the catalog off.
    pub fn disable_all_tools(&mut self)
        ensures
            forall|name: Seq<char>|
                (exists|i: int|
                    0 <= i < old(self).all_tools@.len() && old(self).all_tools@[i].name@ == name)
                    ==> !spec_enabled(flags_view(final(self).enabled_tools@), name),
            forall|name: Seq<char>|
                (forall|i: int|
                    0 <= i < old(self).all_tools@.len() ==> old(self).all_tools@[i].name@ != name)
                    ==> spec_enabled(flags_view(final(self).enabled_tools@), name)
                    == spec_enabled(flags_view(old(self).enabled_tools@), name),
            final(self).servers == old(self).servers,
            final(self).tool_index == old(self).tool_index,
            final(self).all_tools == old(self).all_tools,
    {
        self.set_all_tools(false);
    }

    fn set_all_tools(&mut self, b: bool)
        ensures
            forall|name: Seq<char>|
                (exists|i: int|
                    0 <= i < old(self).all_tools@.len() && old(self).all_tools@[i].name@ == name)
                    ==> spec_enabled(flags_view(final(self).enabled_tools@), name) == b,
            forall|name: Seq<char>|
                (forall|i: int|
                    0 <= i < old(self).all_tools@.len() ==> old(self).all_tools@[i].name@ != name)
                    ==> spec_enabled(flags_view(final(self).enabled_tools@), name)
                    == spec_enabled(flags_view(old(self).enabled_tools@), name),
            final(self).servers == old(self).servers,
            final(self).tool_index == old(self).tool_index,
            final(self).all_tools == old(self).all_tools,
    {
        let mut i: usize = 0;
        while i < self.all_tools.len()
            invariant
                0 <= i <= self.all_tools@.len(),
                self.all_tools == old(self).all_tools,
                self.servers == old(self).servers,
                self.tool_index == old(self).tool_index,
                forall|name: Seq<char>|
                    (exists|k: int| 0 <= k < i && self.all_tools@[k].name@ == name)
                        ==> spec_enabled(flags_view(self.enabled_tools@), name) == b,
                forall|name: Seq<char>|
                    (forall|k: int| 0 <= k < i ==> self.all_tools@[k].name@ != name)
                        ==> spec_enabled(flags_view(self.enabled_tools@), name) == spec_enabled(
                        flags_view(old(self).enabled_tools@),
                        name,
                    ),
            decreases self.all_tools@.len() - i,
        {
            let ghost pre_en = flags_view(self.enabled_tools@);
            let name = self.all_tools[i].name.clone();
            self.set_tool_enabled(name.as_str(), b);
            proof {
                assert forall|nm: Seq<char>|
                    spec_enabled(flags_view(self.enabled_tools@), nm) == if nm == name@ {
                        b
                    } else {
                        spec_enabled(pre_en, nm)
                    } by {
                    lemma_set_flag_lookup(pre_en, name@, b, nm);
                }
            }
            i = i + 1;
        }
    }

    /// A copy of the enabled state, name by name.
    pub fn get_tool_states(&self) -> (r: Vec<(String, bool)>)
        ensures
            flags_view(r@) == flags_view(self.enabled_tools@),
    {
        let mut out: Vec<(String, bool)> = Vec::new();
        let mut i: usize = 0;
        while i < self.enabled_tools.len()
            invariant
                0 <= i <= self.enabled_tools@.len(),
                out@.len() == i,
                forall|k: int|
                    0 <= k < out@.len() ==> out@[k].0@ == self.enabled_tools@[k].0@ && out@[k].1
                        == self.enabled_tools@[k].1,
            decreases self.enabled_tools@.len() - i,
        {
            let name = self.enabled_tools[i].0.clone();
            out.push((name, self.enabled_tools[i].1));
            i = i + 1;
        }
        proof {
            assert(flags_view(out@) =~= flags_view(self.enabled_tools@));
        }
        out
    }

    /// The server a tool is routed to; a name never registered is the
    /// `ToolNotFound` error carrying that name.
    pub fn get_server_for_tool(&self, tool_name: &str) -> (r: Result<&String, RegistryError>)
        ensures
            match r {
                Ok(server) => spec_assoc(pairs_view(self.tool_index@), tool_name@) == Some(
                    server@,
                ),
                Err(e) => spec_assoc(pairs_view(self.tool_index@), tool_name@) is None && match e {
                    RegistryError::ToolNotFound(n) => n@ == tool_name@,
                    _ => false,
                },
            },
    {
        let ghost pairs = pairs_view(self.tool_index@);
        proof {
            assert(pairs.subrange(0, pairs.len() as int) =~= pairs);
        }
        let mut i: usize = 0;
        while i < self.tool_index.len()
            invariant
                0 <= i <= self.tool_index@.len(),
                pairs == pairs_view(self.tool_index@),
                pairs.len() == self.tool_index@.len(),
                forall|k: int|
                    0 <= k < pairs.len() ==> pairs[k] == (
                    self.tool_index@[k].0@,
                    self.tool_index@[k].1@,
                    ),
                spec_assoc(pairs.subrange(i as int, pairs.len() as int), tool_name@) == spec_assoc(
                    pairs,
                    tool_name@,
                ),
                forall|k: int| 0 <= k < i ==> self.tool_index@[k].0@ != tool_name@,
            decreases self.tool_index@.len() - i,
        {
            let ghost tail = pairs.subrange(i as int, pairs.len() as int);
            proof {
                assert(tail[0] == pairs[i as int]);
                assert(tail.drop_first() =~= pairs.subrange(i + 1, pairs.len() as int));
            }
            if str_eq(self.tool_index[i].0.as_str(), tool_name) {
                return Ok(&self.tool_index[i].1);
            }
            i = i + 1;
        }
        proof {
            assert(pairs.subrange(pairs.len() as int, pairs.len() as int) =~= Seq::<
                (Seq<char>, Seq<char>),
            >::empty());
        }
        Err(RegistryError::ToolNotFound(String::from_str(tool_name)))
    }

    /// Registers the tools one server announced, first registration of a
    /// name winning, and remembers the server.
    pub fn register_server_tools(&mut self, server_name: &str, tools: Vec<ToolDefinition>)
        requires
            old(self).wf(),
        ensures
            final(self).wf(),
            ({
                let (ix, al, en) = spec_register(
                    pairs_view(old(self).tool_index@),
                    old(self).all_tools.deep_view(),
                    flags_view(old(self).enabled_tools@),
                    tools.deep_view(),
                    server_name@,
                );
                &&& pairs_view(final(self).tool_index@) == ix
                &&& final(self).all_tools.deep_view() == al
                &&& flags_view(final(self).enabled_tools@) == en
            }),
            final(self).servers@.len() == old(self).servers@.len() + 1,
            forall|i: int|
                0 <= i < old(self).servers@.len() ==> final(self).servers@[i] == old(
                    self,
                ).servers@[i],
            final(self).servers@.last()@ == server_name@,
    {
        let ghost tvs = tools.deep_view();
        proof {
            assert(tvs.len() == tools@.len());
        }
        let mut i: usize = 0;
        while i < tools.len()
            invariant
                0 <= i <= tools@.len(),
                tvs == tools.deep_view(),
                tvs.len() == tools@.len(),
                forall|k: int| 0 <= k < tvs.len() ==> tvs[k] == tools@[k].deep_view(),
                self.wf(),
                self.servers == old(self).servers,
                ({
                    let (ix, al, en) = spec_register(
                        pairs_view(old(self).tool_index@),
                        old(self).all_tools.deep_view(),
                        flags_view(old(self).enabled_tools@),
                        tvs.subrange(0, i as int),
                        server_name@,
                    );
                    &&& pairs_view(self.tool_index@) == ix
                    &&& self.all_tools.deep_view() == al
                    &&& flags_view(self.enabled_tools@) == en
                }),
            decreases tools@.len() - i,
        {
            let ghost pre_index = pairs_view(self.tool_index@);
            let ghost pre_all = self.all_tools.deep_view();
            let ghost pre_en = flags_view(self.enabled_tools@);
            let name = tools[i].name.clone();
            match self.get_server_for_tool(name.as_str()) {
                Ok(_) => {
                    // first registration wins: skip this duplicate
                },
                Err(_) => {
                    let def = tools[i].clone();
                    self.tool_index.push((name.clone(), String::from_str(server_name)));
                    self.all_tools.push(def);
                    self.set_tool_enabled(name.as_str(), true);
                    proof {
                        assert(pairs_view(self.tool_index@) =~= pre_index.push(
                            (tvs[i as int].name, server_name@),
                        ));
                        assert(self.all_tools.deep_view() =~= pre_all.push(tvs[i as int]));
                        lemma_assoc_push_none(pre_index, tvs[i as int].name, server_name@);
                        lemma_assoc_none_no_key(pre_index, tvs[i as int].name);
                        assert forall|a: int, bq: int|
                            0 <= a < bq < self.tool_index@.len() implies self.tool_index@[a].0@
                            != self.tool_index@[bq].0@ by {
                            if bq < self.tool_index@.len() - 1 {
                                assert(pre_index[a] == (
                                    self.tool_index@[a].0@,
                                    self.tool_index@[a].1@,
                                ));
                            } else {
                                assert(pre_index[a] == (
                                    self.tool_index@[a].0@,
                                    self.tool_index@[a].1@,
                                ));
                                assert(pre_index[a].0 != tvs[i as int].name);
                            }
                        }
                    }
                },
            }
            i = i + 1;
            proof {
                let p = tvs.subrange(0, i as int);
                assert(p.drop_last() =~= tvs.subrange(0, i - 1));
                assert(p.last() == tvs[i - 1]);
            }
        }
        self.servers.push(String::from_str(server_name));
        proof {
            assert(tvs.subrange(0, tvs.len() as int) =~= tvs);
        }
    }
}

proof fn lemma_set_flag_prefix(pairs: Seq<(Seq<char>, bool)>, key: Seq<char>, b: bool, i: int)
    requires
        0 <= i <= pairs.len(),
        forall|k: int| 0 <= k < i ==> pairs[k].0 != key,
        i < pairs.len() ==> pairs[i].0 == key,
    ensures
        spec_set_flag(pairs, key, b) == if i < pairs.len() {
            pairs.subrange(0, i) + seq![(key, b)] + pairs.subrange(i + 1, pairs.len() as int)
        } else {
            pairs + seq![(key, b)]
        },
    decreases pairs.len(),
{
    if pairs.len() == 0 {
        assert(spec_set_flag(pairs, key, b) =~= pairs + seq![(key, b)]);
    } else if pairs[0].0 == key {
        assert(i == 0);
        assert(spec_set_flag(pairs, key, b) =~= pairs.subrange(0, 0) + seq![(key, b)]
            + pairs.subrange(1, pairs.len() as int));
    } else {
        lemma_set_flag_prefix(pairs.drop_first(), key, b, if i < pairs.len() {
            i - 1
        } else {
            i - 1
        });
        let t = pairs.drop_first();
        if i < pairs.len() {
            assert(t.subrange(0, i - 1) =~= pairs.subrange(1, i));
            assert(t.subrange(i, t.len() as int) =~= pairs.subrange(i + 1, pairs.len() as int));
            assert(seq![pairs[0]] + spec_set_flag(t, key, b) =~= pairs.subrange(0, i) + seq![
                (key, b),
            ] + pairs.subrange(i + 1, pairs.len() as int));
        } else {
            assert(seq![pairs[0]] + spec_set_flag(t, key, b) =~= pairs + seq![(key, b)]);
        }
    }
}

proof fn lemma_assoc_push_none(
    pairs: Seq<(Seq<char>, Seq<char>)>,
    key: Seq<char>,
    value: Seq<char>,
)
    requires
        spec_assoc(pairs, key) is None,
    ensures
        spec_assoc(pairs.push((key, value)), key) == Some(value),
        forall|probe: Seq<char>|
            probe != key ==> spec_assoc(pairs.push((key, value)), probe) == spec_assoc(
                pairs,
                probe,
            ),
    decreases pairs.len(),
{
    let s = pairs.push((key, value));
    if pairs.len() == 0 {
        assert(s[0] == (key, value));
        assert(s.drop_first() =~= Seq::<(Seq<char>, Seq<char>)>::empty());
        assert forall|probe: Seq<char>| probe != key implies spec_assoc(s, probe) == spec_assoc(
            pairs,
            probe,
        ) by {
            assert(spec_assoc(s.drop_first(), probe) is None);
        }
    } else {
        lemma_assoc_push_none(pairs.drop_first(), key, value);
        assert(s[0] == pairs[0]);
        assert(s.drop_first() =~= pairs.drop_first().push((key, value)));
        assert forall|probe: Seq<char>| probe != key implies spec_assoc(s, probe) == spec_assoc(
            pairs,
            probe,
        ) by {
            lemma_assoc_push_none(pairs.drop_first(), key, value);
            if pairs[0].0 != probe {
                assert(s.drop_first() =~= pairs.drop_first().push((key, value)));
                assert(spec_assoc(s, probe) == spec_assoc(s.drop_first(), probe));
                assert(spec_assoc(pairs, probe) == spec_assoc(pairs.drop_first(), probe));
            }
        }
    }
}

/// A key that `spec_assoc` does not find matches no entry.
proof fn lemma_assoc_none_no_key(pairs: Seq<(Seq<char>, Seq<char>)>, key: Seq<char>)
    requires
        spec_assoc(pairs, key) is None,
    ensures
        forall|k: int| 0 <= k < pairs.len() ==> pairs[k].0 != key,
    decreases pairs.len(),
{
    if pairs.len() > 0 {
        lemma_assoc_none_no_key(pairs.drop_first(), key);
        assert forall|k: int| 0 <= k < pairs.len() implies pairs[k].0 != key by {
            if k > 0 {
                assert(pairs.drop_first()[k - 1] == pairs[k]);
            }
        }
    }
}

} // verus!
