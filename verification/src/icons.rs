//! Line icons of the shell and the asset root they are loaded from.

use vstd::prelude::*;

verus! {

/// Icon resources (monochrome SVG files under the asset root).
#[derive(Debug, Clone, Copy, PartialEq, Eq, Structural)]
pub enum Icon {
    Search,
    Close,
    Plus,
    Dots,
    ChevronDown,
    FolderOpen,
    Folder,
    Panel,
    Sidebar,
    Sun,
    Moon,
    File,
    More,
    Trash,
    Cpu,
    Wand,
    Puzzle,
    Settings,
    Gauge,
    Wifi,
    Sliders,
    Server,
    Box,
    HardDrive,
    Terminal,
    Info,
    WinMin,
    WinMax,
    WinRestore,
    WinClose,
    ToastSuccess,
    ToastWarning,
    ToastError,
}

impl Icon {
    pub open spec fn path_spec(self) -> Seq<char> {
        match self {
            Icon::Search => "pi-icons/search.svg"@,
            Icon::Close => "pi-icons/x.svg"@,
            Icon::Plus => "pi-icons/plus.svg"@,
            Icon::Dots => "pi-icons/dots.svg"@,
            Icon::ChevronDown => "pi-icons/chevron-down.svg"@,
            Icon::FolderOpen => "pi-icons/folder-open.svg"@,
            Icon::Folder => "pi-icons/folder.svg"@,
            Icon::Panel => "pi-icons/panel.svg"@,
            Icon::Sidebar => "pi-icons/sidebar.svg"@,
            Icon::Sun => "pi-icons/sun.svg"@,
            Icon::Moon => "pi-icons/moon.svg"@,
            Icon::File => "pi-icons/file.svg"@,
            Icon::More => "pi-icons/more.svg"@,
            Icon::Trash => "pi-icons/trash.svg"@,
            Icon::Cpu => "pi-icons/cpu.svg"@,
            Icon::Wand => "pi-icons/wand.svg"@,
            Icon::Puzzle => "pi-icons/puzzle.svg"@,
            Icon::Settings => "pi-icons/settings.svg"@,
            Icon::Gauge => "pi-icons/activity.svg"@,
            Icon::Wifi => "pi-icons/wifi.svg"@,
            Icon::Sliders => "pi-icons/sliders.svg"@,
            Icon::Server => "pi-icons/server.svg"@,
            Icon::Box => "pi-icons/box.svg"@,
            Icon::HardDrive => "pi-icons/hard-drive.svg"@,
            Icon::Terminal => "pi-icons/terminal.svg"@,
            Icon::Info => "pi-icons/info.svg"@,
            Icon::WinMin => "pi-icons/win-min.svg"@,
            Icon::WinMax => "pi-icons/win-max.svg"@,
            Icon::WinRestore => "pi-icons/win-restore.svg"@,
            Icon::WinClose => "pi-icons/win-close.svg"@,
            Icon::ToastSuccess => "pi-icons/toast-success.svg"@,
            Icon::ToastWarning => "pi-icons/toast-warning.svg"@,
            Icon::ToastError => "pi-icons/toast-error.svg"@,
        }
    }

    /// Asset path of the icon, relative to the asset root.
    pub fn path(self) -> (r: &'static str)
        ensures
            r@ == self.path_spec(),
    {
        match self {
            Icon::Search => "pi-icons/search.svg",
            Icon::Close => "pi-icons/x.svg",
            Icon::Plus => "pi-icons/plus.svg",
            Icon::Dots => "pi-icons/dots.svg",
            Icon::ChevronDown => "pi-icons/chevron-down.svg",
            Icon::FolderOpen => "pi-icons/folder-open.svg",
            Icon::Folder => "pi-icons/folder.svg",
            Icon::Panel => "pi-icons/panel.svg",
            Icon::Sidebar => "pi-icons/sidebar.svg",
            Icon::Sun => "pi-icons/sun.svg",
            Icon::Moon => "pi-icons/moon.svg",
            Icon::File => "pi-icons/file.svg",
            Icon::More => "pi-icons/more.svg",
            Icon::Trash => "pi-icons/trash.svg",
            Icon::Cpu => "pi-icons/cpu.svg",
            Icon::Wand => "pi-icons/wand.svg",
            Icon::Puzzle => "pi-icons/puzzle.svg",
            Icon::Settings => "pi-icons/settings.svg",
            Icon::Gauge => "pi-icons/activity.svg",
            Icon::Wifi => "pi-icons/wifi.svg",
            Icon::Sliders => "pi-icons/sliders.svg",
            Icon::Server => "pi-icons/server.svg",
            Icon::Box => "pi-icons/box.svg",
            Icon::HardDrive => "pi-icons/hard-drive.svg",
            Icon::Terminal => "pi-icons/terminal.svg",
            Icon::Info => "pi-icons/info.svg",
            Icon::WinMin => "pi-icons/win-min.svg",
            Icon::WinMax => "pi-icons/win-max.svg",
            Icon::WinRestore => "pi-icons/win-restore.svg",
            Icon::WinClose => "pi-icons/win-close.svg",
            Icon::ToastSuccess => "pi-icons/toast-success.svg",
            Icon::ToastWarning => "pi-icons/toast-warning.svg",
            Icon::ToastError => "pi-icons/toast-error.svg",
        }
    }
}

/// What `Path::join` followed by `to_string_lossy` gives for a directory and a segment.
pub uninterp spec fn joined_path(dir: Seq<char>, seg: Seq<char>) -> Seq<char>;

/// `std::path::Path::join` of `dir` and `seg`, rendered as a string.
#[verifier::external_body]
fn join_path(dir: &str, seg: &str) -> (r: String)
    ensures
        r@ == joined_path(dir@, seg@),
{
    std::path::Path::new(dir).join(seg).to_string_lossy().into_owned()
}

/// File-system asset source: icon paths are resolved under `base`.
#[derive(Clone)]
pub struct PiAssets {
    pub base: String,
}

impl PiAssets {
    /// The asset root `<crate dir>/assets`; the caller passes the crate directory
    /// (the application passes the `CARGO_MANIFEST_DIR` of its build).
    pub fn new(manifest_dir: &str) -> (r: PiAssets)
        ensures
            r.base@ == joined_path(manifest_dir@, "assets"@),
    {
        PiAssets { base: join_path(manifest_dir, "assets") }
    }
}

/// Icons are rendered from distinct asset files.
pub proof fn lemma_icon_paths_distinct(a: Icon, b: Icon)
    requires
        a != b,
    ensures
        a.path_spec() != b.path_spec(),
{
    reveal_strlit("pi-icons/search.svg");
    reveal_strlit("pi-icons/x.svg");
    reveal_strlit("pi-icons/plus.svg");
    reveal_strlit("pi-icons/dots.svg");
    reveal_strlit("pi-icons/chevron-down.svg");
    reveal_strlit("pi-icons/folder-open.svg");
    reveal_strlit("pi-icons/folder.svg");
    reveal_strlit("pi-icons/panel.svg");
    reveal_strlit("pi-icons/sidebar.svg");
    reveal_strlit("pi-icons/sun.svg");
    reveal_strlit("pi-icons/moon.svg");
    reveal_strlit("pi-icons/file.svg");
    reveal_strlit("pi-icons/more.svg");
    reveal_strlit("pi-icons/trash.svg");
    reveal_strlit("pi-icons/cpu.svg");
    reveal_strlit("pi-icons/wand.svg");
    reveal_strlit("pi-icons/puzzle.svg");
    reveal_strlit("pi-icons/settings.svg");
    reveal_strlit("pi-icons/activity.svg");
    reveal_strlit("pi-icons/wifi.svg");
    reveal_strlit("pi-icons/sliders.svg");
    reveal_strlit("pi-icons/server.svg");
    reveal_strlit("pi-icons/box.svg");
    reveal_strlit("pi-icons/hard-drive.svg");
    reveal_strlit("pi-icons/terminal.svg");
    reveal_strlit("pi-icons/info.svg");
    reveal_strlit("pi-icons/win-min.svg");
    reveal_strlit("pi-icons/win-max.svg");
    reveal_strlit("pi-icons/win-restore.svg");
    reveal_strlit("pi-icons/win-close.svg");
    reveal_strlit("pi-icons/toast-success.svg");
    reveal_strlit("pi-icons/toast-warning.svg");
    reveal_strlit("pi-icons/toast-error.svg");
    let x = a.path_spec();
    let y = b.path_spec();
    if x == y {
        assert(x.len() == y.len());
        assert(x[9] == y[9]);
        assert(x[10] == y[10]);
        assert(x[11] == y[11]);
        assert(x[12] == y[12]);
        assert(x[13] == y[13]);
        assert(x[14] == y[14]);
        assert(x[15] == y[15]);
    }
}

} // verus!
