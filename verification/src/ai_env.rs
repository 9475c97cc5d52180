//! AI environment page: the four independent detection groups and the package
//! actions (install / upgrade / uninstall of tools and MCP servers).

use vstd::prelude::*;
use crate::text::concat2;

verus! {

/// A detection group; each loads on its own.
#[derive(Debug, Clone, Copy, PartialEq, Eq, Structural)]
pub enum DetectKind {
    Npm,
    Tools,
    Mcp,
    Ext,
}

/// Loading flags of the four detection groups.
pub struct DetectLoading {
    pub npm: bool,
    pub tools: bool,
    pub mcp: bool,
    pub ext: bool,
}

impl DetectLoading {
    pub open spec fn of(self, kind: DetectKind) -> bool {
        match kind {
            DetectKind::Npm => self.npm,
            DetectKind::Tools => self.tools,
            DetectKind::Mcp => self.mcp,
            DetectKind::Ext => self.ext,
        }
    }

    /// Whether group `kind` is loading.
    pub fn loading_of(&self, kind: DetectKind) -> (b: bool)
        ensures
            b == self.of(kind),
    {
        match kind {
            DetectKind::Npm => self.npm,
            DetectKind::Tools => self.tools,
            DetectKind::Mcp => self.mcp,
            DetectKind::Ext => self.ext,
        }
    }

    /// Sets the loading flag of group `kind` only.
    pub fn mark_loading(&mut self, kind: DetectKind, loading: bool)
        ensures
            final(self).of(kind) == loading,
            forall|k: DetectKind| k != kind ==> final(self).of(k) == old(self).of(k),
    {
        match kind {
            DetectKind::Npm => self.npm = loading,
            DetectKind::Tools => self.tools = loading,
            DetectKind::Mcp => self.mcp = loading,
            DetectKind::Ext => self.ext = loading,
        }
    }

    /// Starts a detection of `kind` unless one of that group already runs; the other
    /// groups are unaffected. Returns whether it started.
    pub fn start(&mut self, kind: DetectKind) -> (started: bool)
        ensures
            started == !old(self).of(kind),
            final(self).of(kind),
            forall|k: DetectKind| k != kind ==> final(self).of(k) == old(self).of(k),
    {
        if self.loading_of(kind) {
            return false;
        }
        self.mark_loading(kind, true);
        true
    }
}

/// A package action on an AI tool.
#[derive(Debug, Clone)]
pub enum ToolAction {
    Install(String),
    Upgrade(String),
    Uninstall(String),
}

impl ToolAction {
    pub open spec fn label_spec(&self) -> Seq<char> {
        match self {
            ToolAction::Install(_) => "安装"@,
            ToolAction::Upgrade(_) => "升级"@,
            ToolAction::Uninstall(_) => "卸载"@,
        }
    }

    pub open spec fn package_spec(&self) -> Seq<char> {
        match self {
            ToolAction::Install(p) => p@,
            ToolAction::Upgrade(p) => p@,
            ToolAction::Uninstall(p) => p@,
        }
    }

    /// Verb of the action.
    pub fn label(&self) -> (r: &'static str)
        ensures
            r@ == self.label_spec(),
    {
        match self {
            ToolAction::Install(_) => "安装",
            ToolAction::Upgrade(_) => "升级",
            ToolAction::Uninstall(_) => "卸载",
        }
    }

    /// Package the action concerns.
    pub fn package(&self) -> (r: &str)
        ensures
            r@ == self.package_spec(),
    {
        match self {
            ToolAction::Install(p) => p.as_str(),
            ToolAction::Upgrade(p) => p.as_str(),
            ToolAction::Uninstall(p) => p.as_str(),
        }
    }

    /// Status while running: `<verb> <package>…`.
    pub fn status_text(&self) -> (r: String)
        ensures
            r@ == self.label_spec() + " "@ + self.package_spec() + "…"@,
    {
        let r = concat2(self.label(), " ");
        let r = r.concat(self.package());
        r.concat("…")
    }
}

/// A package action on an MCP server.
#[derive(Debug, Clone)]
pub enum McpAction {
    Install(String),
    Uninstall(String),
}

impl McpAction {
    pub open spec fn label_spec(&self) -> Seq<char> {
        match self {
            McpAction::Install(_) => "安装 MCP"@,
            McpAction::Uninstall(_) => "卸载 MCP"@,
        }
    }

    pub open spec fn package_spec(&self) -> Seq<char> {
        match self {
            McpAction::Install(p) => p@,
            McpAction::Uninstall(p) => p@,
        }
    }

    /// Verb of the action.
    pub fn label(&self) -> (r: &'static str)
        ensures
            r@ == self.label_spec(),
    {
        match self {
            McpAction::Install(_) => "安装 MCP",
            McpAction::Uninstall(_) => "卸载 MCP",
        }
    }

    /// Package the action concerns.
    pub fn package(&self) -> (r: &str)
        ensures
            r@ == self.package_spec(),
    {
        match self {
            McpAction::Install(p) => p.as_str(),
            McpAction::Uninstall(p) => p.as_str(),
        }
    }

    /// Status while running: `<verb> <package>…`.
    pub fn status_text(&self) -> (r: String)
        ensures
            r@ == self.label_spec() + " "@ + self.package_spec() + "…"@,
    {
        let r = concat2(self.label(), " ");
        let r = r.concat(self.package());
        r.concat("…")
    }
}

/// Status after an action: the tool's message, or `<verb>：<error>`.
pub fn action_result_status(label: &str, result: &Result<String, String>) -> (r: String)
    ensures
        match result {
            Ok(m) => r@ == m@,
            Err(e) => r@ == label@ + "："@ + e@,
        },
{
    match result {
        Ok(m) => m.clone(),
        Err(e) => {
            let r = concat2(label, "：");
            r.concat(e.as_str())
        },
    }
}

} // verus!
