//! The registry that holds the tools the agent may call, in registration order.
use vstd::prelude::*;
use crate::text::{str_eq};
use crate::tools::{lemma_tool_names_distinct, tool_name, Tool, ToolKind};
use crate::tools::code_helper::CodeHelperTool;
use crate::tools::file_reader::FileReaderTool;
use crate::tools::homelab_api::HomelabApiTool;
use crate::tools::memory_recall::MemoryRecallTool;
use crate::tools::pdf_book_loader::PdfBookLoaderTool;
use crate::tools::shell_executor::ShellExecutorTool;
use crate::tools::web_search::WebSearchTool;

verus! {

/// The first tool in `tools` registered under `name`.
pub open spec fn lookup(tools: Seq<ToolKind>, name: Seq<char>) -> Option<ToolKind>
    decreases tools.len(),
{
    if tools.len() == 0 {
        None
    } else if tool_name(tools[0]) == name {
        Some(tools[0])
    } else {
        lookup(tools.drop_first(), name)
    }
}

/// The tools of the default registry, in order.
pub open spec fn default_tools() -> Seq<ToolKind> {
    seq![
        ToolKind::FileReader,
        ToolKind::PdfBookLoader,
        ToolKind::ShellExecutor,
        ToolKind::WebSearch,
        ToolKind::CodeHelper,
        ToolKind::MemoryRecall,
        ToolKind::HomelabApi,
    ]
}

/// The tools the agent may call.
pub struct ToolRegistry {
    tools: Vec<ToolKind>,
}

/// Collects tools before the registry is built.
pub struct ToolRegistryBuilder {
    tools: Vec<ToolKind>,
}

impl View for ToolRegistry {
    type V = Seq<ToolKind>;

    closed spec fn view(&self) -> Seq<ToolKind> {
        self.tools@
    }
}

impl View for ToolRegistryBuilder {
    type V = Seq<ToolKind>;

    closed spec fn view(&self) -> Seq<ToolKind> {
        self.tools@
    }
}

impl ToolRegistryBuilder {
    /// A builder with no tools.
    pub fn new() -> (b: Self)
        ensures
            b@ == Seq::<ToolKind>::empty(),
    {
        ToolRegistryBuilder { tools: Vec::new() }
    }

    /// The builder with `tool` registered after the tools it already holds.
    pub fn add<T: Tool>(self, tool: T) -> (b: Self)
        ensures
            b@ == self@.push(tool.kind_spec()),
    {
        let mut tools = self.tools;
        tools.push(tool.kind());
        ToolRegistryBuilder { tools }
    }

    /// The registry of the tools added so far, in the order they were added.
    pub fn build(self) -> (r: ToolRegistry)
        ensures
            r@ == self@,
    {
        ToolRegistry { tools: self.tools }
    }
}

impl ToolRegistry {
    /// A builder with no tools.
    pub fn builder() -> (b: ToolRegistryBuilder)
        ensures
            b@ == Seq::<ToolKind>::empty(),
    {
        ToolRegistryBuilder::new()
    }

    /// The registry of all seven tools: file reader, PDF book loader, shell
    /// executor, web search, code helper, memory recall and homelab API.
    pub fn default() -> (r: Self)
        ensures
            r@ == default_tools(),
    {
        let r = Self::builder().add(FileReaderTool).add(PdfBookLoaderTool).add(
            ShellExecutorTool,
        ).add(WebSearchTool).add(CodeHelperTool).add(MemoryRecallTool).add(
            HomelabApiTool,
        ).build();
        assert(r@ =~= default_tools());
        r
    }

    /// The first registered tool named `tool_name`, if any.
    pub fn get(&self, tool_name: &str) -> (r: Option<ToolKind>)
        ensures
            r == lookup(self@, tool_name@),
    {
        let n = self.tools.len();
        let mut i: usize = 0;
        assert(self.tools@.subrange(0, n as int) =~= self.tools@);
        while i < n
            invariant
                n == self.tools@.len(),
                i <= n,
                lookup(self@, tool_name@) == lookup(self.tools@.subrange(i as int, n as int), tool_name@),
            decreases n - i,
        {
            let k = self.tools[i];
            proof {
                assert(self.tools@.subrange(i as int, n as int).drop_first() =~= self.tools@.subrange(
                    i + 1,
                    n as int,
                ));
            }
            if str_eq(k.name(), tool_name) {
                return Some(k);
            }
            i = i + 1;
        }
        None
    }

    /// The names of the registered tools, in registration order.
    pub fn names(&self) -> (r: Vec<&'static str>)
        ensures
            r@.len() == self@.len(),
            forall|i: int| 0 <= i < r@.len() ==> (#[trigger] r@[i])@ == tool_name(self@[i]),
    {
        let mut r: Vec<&'static str> = Vec::new();
        let mut i: usize = 0;
        while i < self.tools.len()
            invariant
                i <= self.tools@.len(),
                r@.len() == i,
                forall|k: int| 0 <= k < i ==> (#[trigger] r@[k])@ == tool_name(self.tools@[k]),
            decreases self.tools@.len() - i,
        {
            r.push(self.tools[i].name());
            i = i + 1;
        }
        r
    }
}

/// A registered name is found, and what is found under a name carries that name
/// and is registered.
pub proof fn lemma_lookup_finds_registered(tools: Seq<ToolKind>, name: Seq<char>)
    ensures
        lookup(tools, name) is Some <==> exists|i: int| 0 <= i < tools.len() && tool_name(
            #[trigger] tools[i],
        ) == name,
        lookup(tools, name) matches Some(k) ==> tool_name(k) == name && tools.contains(k),
    decreases tools.len(),
{
    if tools.len() > 0 {
        lemma_lookup_finds_registered(tools.drop_first(), name);
        if tool_name(tools[0]) != name {
            if exists|i: int| 0 <= i < tools.len() && tool_name(#[trigger] tools[i]) == name {
                let i = choose|i: int| 0 <= i < tools.len() && tool_name(#[trigger] tools[i]) == name;
                assert(tools.drop_first()[i - 1] == tools[i]);
            }
            if lookup(tools, name) is Some {
                let j = choose|j: int| 0 <= j < tools.drop_first().len() && tool_name(#[trigger] tools.drop_first()[j]) == name;
                assert(tools[j + 1] == tools.drop_first()[j]);
            }
            if let Some(k) = lookup(tools, name) {
                let j = choose|j: int| 0 <= j < tools.drop_first().len() && tools.drop_first()[j] == k;
                assert(tools[j + 1] == k);
            }
        } else {
            assert(tools[0] == tools[0]);
            assert(tools.contains(tools[0]));
        }
    }
}

/// In a registry where every tool is registered once, each registered tool is
/// found under its own name.
pub proof fn lemma_lookup_own_name(tools: Seq<ToolKind>, i: int)
    requires
        0 <= i < tools.len(),
    ensures
        lookup(tools, tool_name(tools[i])) == Some(tools[i]),
    decreases tools.len(),
{
    lemma_tool_names_distinct(tools[0], tools[i]);
    if i > 0 && tools[0] != tools[i] {
        lemma_lookup_own_name(tools.drop_first(), i - 1);
    }
}

} // verus!
