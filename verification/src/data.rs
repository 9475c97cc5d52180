//! Mock data of the right-hand file workbench: the file tree and open tabs.

use vstd::prelude::*;

verus! {

/// A file-tree entry; directories carry their children.
#[derive(Debug)]
pub struct FileEntry {
    pub name: &'static str,
    pub is_dir: bool,
    pub children: Vec<FileEntry>,
}

/// An open file tab (the id is the file path).
#[derive(Debug)]
pub struct FileTab {
    pub id: String,
    pub label: String,
    pub file_path: String,
}

/// `e` is named `name`, is a directory iff `is_dir`, and has `n` children.
pub open spec fn node_is(e: FileEntry, name: Seq<char>, is_dir: bool, n: nat) -> bool {
    &&& e.name@ == name
    &&& e.is_dir == is_dir
    &&& e.children@.len() == n
}

fn leaf(name: &'static str) -> (e: FileEntry)
    ensures
        node_is(e, name@, false, 0),
{
    FileEntry { name, is_dir: false, children: Vec::new() }
}

/// The workbench file tree:
/// `crates/{secm-app/{src/{app.rs, main.rs, theme.rs, pi_clone}, Cargo.toml},
/// secm-core/src/{lib.rs, settings.rs}}`, `docs/adr/ADR-0003.md`, `Cargo.toml`, `README.md`.
pub fn file_tree() -> (v: Vec<FileEntry>)
    ensures
        v@.len() == 4,
        node_is(v@[0], "crates"@, true, 2),
        node_is(v@[0].children@[0], "secm-app"@, true, 2),
        node_is(v@[0].children@[0].children@[0], "src"@, true, 4),
        node_is(v@[0].children@[0].children@[0].children@[0], "app.rs"@, false, 0),
        node_is(v@[0].children@[0].children@[0].children@[1], "main.rs"@, false, 0),
        node_is(v@[0].children@[0].children@[0].children@[2], "theme.rs"@, false, 0),
        node_is(v@[0].children@[0].children@[0].children@[3], "pi_clone"@, false, 0),
        node_is(v@[0].children@[0].children@[1], "Cargo.toml"@, false, 0),
        node_is(v@[0].children@[1], "secm-core"@, true, 1),
        node_is(v@[0].children@[1].children@[0], "src"@, true, 2),
        node_is(v@[0].children@[1].children@[0].children@[0], "lib.rs"@, false, 0),
        node_is(v@[0].children@[1].children@[0].children@[1], "settings.rs"@, false, 0),
        node_is(v@[1], "docs"@, true, 1),
        node_is(v@[1].children@[0], "adr"@, true, 1),
        node_is(v@[1].children@[0].children@[0], "ADR-0003.md"@, false, 0),
        node_is(v@[2], "Cargo.toml"@, false, 0),
        node_is(v@[3], "README.md"@, false, 0),
{
    let app_src = FileEntry {
        name: "src",
        is_dir: true,
        children: vec![leaf("app.rs"), leaf("main.rs"), leaf("theme.rs"), leaf("pi_clone")],
    };
    let secm_app = FileEntry {
        name: "secm-app",
        is_dir: true,
        children: vec![app_src, leaf("Cargo.toml")],
    };
    let core_src = FileEntry {
        name: "src",
        is_dir: true,
        children: vec![leaf("lib.rs"), leaf("settings.rs")],
    };
    let secm_core = FileEntry { name: "secm-core", is_dir: true, children: vec![core_src] };
    let crates = FileEntry { name: "crates", is_dir: true, children: vec![secm_app, secm_core] };
    let adr = FileEntry { name: "adr", is_dir: true, children: vec![leaf("ADR-0003.md")] };
    let docs = FileEntry { name: "docs", is_dir: true, children: vec![adr] };
    vec![crates, docs, leaf("Cargo.toml"), leaf("README.md")]
}

} // verus!
