//! Navigation metadata of the three-column shell: the tool pages, their labels
//! and icons, and the sidebar groups that partition them.

use vstd::prelude::*;
use crate::icons::Icon;

verus! {

/// The tool pages, in sidebar order.
#[derive(Debug, Clone, Copy, PartialEq, Eq, Structural)]
pub enum SecmPage {
    Dashboard,
    Cleanup,
    Network,
    NetConfig,
    Settings,
    Services,
    Environment,
    AiEnvironment,
    Hardware,
    About,
}

/// Number of tool pages.
pub const PAGE_COUNT: usize = 10;

/// All pages in declaration (and sidebar) order.
pub open spec fn all_pages_spec() -> Seq<SecmPage> {
    seq![
        SecmPage::Dashboard,
        SecmPage::Cleanup,
        SecmPage::Network,
        SecmPage::NetConfig,
        SecmPage::Settings,
        SecmPage::Services,
        SecmPage::Environment,
        SecmPage::AiEnvironment,
        SecmPage::Hardware,
        SecmPage::About,
    ]
}

/// Position of a page in `all_pages_spec()`.
pub open spec fn page_index_spec(p: SecmPage) -> nat {
    match p {
        SecmPage::Dashboard => 0,
        SecmPage::Cleanup => 1,
        SecmPage::Network => 2,
        SecmPage::NetConfig => 3,
        SecmPage::Settings => 4,
        SecmPage::Services => 5,
        SecmPage::Environment => 6,
        SecmPage::AiEnvironment => 7,
        SecmPage::Hardware => 8,
        SecmPage::About => 9,
    }
}

impl SecmPage {
    /// All pages in declaration order.
    pub fn all() -> (v: Vec<SecmPage>)
        ensures
            v@ == all_pages_spec(),
    {
        let v = vec![
            SecmPage::Dashboard,
            SecmPage::Cleanup,
            SecmPage::Network,
            SecmPage::NetConfig,
            SecmPage::Settings,
            SecmPage::Services,
            SecmPage::Environment,
            SecmPage::AiEnvironment,
            SecmPage::Hardware,
            SecmPage::About,
        ];
        assert(v@ == all_pages_spec());
        v
    }

    pub open spec fn label_spec(self) -> Seq<char> {
        match self {
            SecmPage::Dashboard => "硬件信息"@,
            SecmPage::Cleanup => "清理优化"@,
            SecmPage::Network => "网络诊断"@,
            SecmPage::NetConfig => "网络配置"@,
            SecmPage::Settings => "系统设置"@,
            SecmPage::Services => "服务管理"@,
            SecmPage::Environment => "环境检测"@,
            SecmPage::AiEnvironment => "AI 环境"@,
            SecmPage::Hardware => "硬件检测"@,
            SecmPage::About => "关于"@,
        }
    }

    /// Sidebar label of the page.
    pub fn label(self) -> (r: &'static str)
        ensures
            r@ == self.label_spec(),
    {
        match self {
            SecmPage::Dashboard => "硬件信息",
            SecmPage::Cleanup => "清理优化",
            SecmPage::Network => "网络诊断",
            SecmPage::NetConfig => "网络配置",
            SecmPage::Settings => "系统设置",
            SecmPage::Services => "服务管理",
            SecmPage::Environment => "环境检测",
            SecmPage::AiEnvironment => "AI 环境",
            SecmPage::Hardware => "硬件检测",
            SecmPage::About => "关于",
        }
    }

    pub open spec fn icon_spec(self) -> Icon {
        match self {
            SecmPage::Dashboard => Icon::Gauge,
            SecmPage::Cleanup => Icon::Trash,
            SecmPage::Network => Icon::Wifi,
            SecmPage::NetConfig => Icon::Sliders,
            SecmPage::Settings => Icon::Settings,
            SecmPage::Services => Icon::Server,
            SecmPage::Environment => Icon::Box,
            SecmPage::AiEnvironment => Icon::Cpu,
            SecmPage::Hardware => Icon::HardDrive,
            SecmPage::About => Icon::Info,
        }
    }

    /// Icon shown in the page's navigation row.
    pub fn icon(self) -> (r: Icon)
        ensures
            r == self.icon_spec(),
    {
        match self {
            SecmPage::Dashboard => Icon::Gauge,
            SecmPage::Cleanup => Icon::Trash,
            SecmPage::Network => Icon::Wifi,
            SecmPage::NetConfig => Icon::Sliders,
            SecmPage::Settings => Icon::Settings,
            SecmPage::Services => Icon::Server,
            SecmPage::Environment => Icon::Box,
            SecmPage::AiEnvironment => Icon::Cpu,
            SecmPage::Hardware => Icon::HardDrive,
            SecmPage::About => Icon::Info,
        }
    }

    /// Position of the page in `SecmPage::all()` (the index of its visibility flag).
    pub fn index(self) -> (i: usize)
        ensures
            i == page_index_spec(self),
            i < PAGE_COUNT,
            all_pages_spec()[i as int] == self,
    {
        match self {
            SecmPage::Dashboard => 0,
            SecmPage::Cleanup => 1,
            SecmPage::Network => 2,
            SecmPage::NetConfig => 3,
            SecmPage::Settings => 4,
            SecmPage::Services => 5,
            SecmPage::Environment => 6,
            SecmPage::AiEnvironment => 7,
            SecmPage::Hardware => 8,
            SecmPage::About => 9,
        }
    }
}

/// Sidebar group headings.
#[derive(Debug, Clone, Copy, PartialEq, Eq, Structural)]
pub enum NavGroup {
    Overview,
    Tools,
    System,
}

/// The groups in sidebar order.
pub open spec fn nav_groups_spec() -> Seq<NavGroup> {
    seq![NavGroup::Overview, NavGroup::Tools, NavGroup::System]
}

/// The group a page is shown under.
pub open spec fn group_of(p: SecmPage) -> NavGroup {
    match p {
        SecmPage::Dashboard => NavGroup::Overview,
        SecmPage::About => NavGroup::System,
        _ => NavGroup::Tools,
    }
}

/// Pages of `all_pages_spec()` that lie in group `g`, in declaration order.
pub open spec fn group_pages_spec(g: NavGroup) -> Seq<SecmPage> {
    all_pages_spec().filter(|p: SecmPage| group_of(p) == g)
}

/// The groups in sidebar order.
pub fn nav_groups() -> (v: Vec<NavGroup>)
    ensures
        v@ == nav_groups_spec(),
{
    let v = vec![NavGroup::Overview, NavGroup::Tools, NavGroup::System];
    assert(v@ == nav_groups_spec());
    v
}

impl NavGroup {
    pub open spec fn title_spec(self) -> Seq<char> {
        match self {
            NavGroup::Overview => "概览"@,
            NavGroup::Tools => "工具"@,
            NavGroup::System => "系统"@,
        }
    }

    /// Group heading text.
    pub fn title(self) -> (r: &'static str)
        ensures
            r@ == self.title_spec(),
    {
        match self {
            NavGroup::Overview => "概览",
            NavGroup::Tools => "工具",
            NavGroup::System => "系统",
        }
    }

    /// Whether `page` is listed under this group.
    pub fn contains(self, page: SecmPage) -> (b: bool)
        ensures
            b == (group_of(page) == self),
    {
        match self {
            NavGroup::Overview => page == SecmPage::Dashboard,
            NavGroup::Tools => match page {
                SecmPage::Cleanup | SecmPage::Network | SecmPage::NetConfig | SecmPage::Settings
                | SecmPage::Services | SecmPage::Environment | SecmPage::AiEnvironment
                | SecmPage::Hardware => true,
                _ => false,
            },
            NavGroup::System => page == SecmPage::About,
        }
    }

    /// The pages shown under this group, in sidebar order.
    pub fn pages(self) -> (v: Vec<SecmPage>)
        ensures
            v@ == group_pages_spec(self),
    {
        let all = SecmPage::all();
        let mut v: Vec<SecmPage> = Vec::new();
        let mut i: usize = 0;
        while i < all.len()
            invariant
                i <= all.len(),
                all@ == all_pages_spec(),
                v@ == all_pages_spec().subrange(0, i as int).filter(
                    |p: SecmPage| group_of(p) == self,
                ),
            decreases all.len() - i,
        {
            let p = all[i];
            proof {
                let pred = |p: SecmPage| group_of(p) == self;
                assert(all_pages_spec().subrange(0, i as int + 1).drop_last()
                    == all_pages_spec().subrange(0, i as int));
                reveal_with_fuel(Seq::<_>::filter, 1);
            }
            if self.contains(p) {
                v.push(p);
            }
            i = i + 1;
        }
        assert(all_pages_spec().subrange(0, all.len() as int) == all_pages_spec());
        v
    }
}

/// Every page is listed under exactly one sidebar group: the groups partition the pages.
pub proof fn lemma_groups_partition_pages(p: SecmPage)
    ensures
        nav_groups_spec().contains(group_of(p)),
        forall|g: NavGroup| #[trigger] nav_groups_spec().contains(g) && g != group_of(p)
            ==> !group_pages_spec(g).contains(p),
        group_pages_spec(group_of(p)).contains(p),
{
    assert(nav_groups_spec()[0] == NavGroup::Overview);
    assert(nav_groups_spec()[1] == NavGroup::Tools);
    assert(nav_groups_spec()[2] == NavGroup::System);
    let all = all_pages_spec();
    let i = page_index_spec(p) as int;
    assert(all[i] == p);
    all.lemma_filter_contains(|q: SecmPage| group_of(q) == group_of(p), i);
    assert forall|g: NavGroup| #[trigger] nav_groups_spec().contains(g) && g != group_of(p)
        implies !group_pages_spec(g).contains(p) by {
        let pred = |q: SecmPage| group_of(q) == g;
        if group_pages_spec(g).contains(p) {
            let j = choose|j: int| 0 <= j < all.filter(pred).len() && all.filter(pred)[j] == p;
            all.lemma_filter_pred(pred, j);
        }
    }
}

/// Reading the groups in sidebar order lists every page exactly in declaration order.
pub proof fn lemma_groups_preserve_page_order()
    ensures
        group_pages_spec(NavGroup::Overview) + group_pages_spec(NavGroup::Tools)
            + group_pages_spec(NavGroup::System) == all_pages_spec(),
{
    reveal_with_fuel(Seq::<_>::filter, 11);
    assert(group_pages_spec(NavGroup::Overview) =~= seq![SecmPage::Dashboard]);
    assert(group_pages_spec(NavGroup::System) =~= seq![SecmPage::About]);
    assert(group_pages_spec(NavGroup::Tools) =~= seq![
        SecmPage::Cleanup,
        SecmPage::Network,
        SecmPage::NetConfig,
        SecmPage::Settings,
        SecmPage::Services,
        SecmPage::Environment,
        SecmPage::AiEnvironment,
        SecmPage::Hardware,
    ]);
    assert(group_pages_spec(NavGroup::Overview) + group_pages_spec(NavGroup::Tools)
        + group_pages_spec(NavGroup::System) =~= all_pages_spec());
}

/// The page list names every page exactly once, and `index` inverts it.
pub proof fn lemma_all_pages_index(p: SecmPage, i: int)
    requires
        0 <= i < all_pages_spec().len(),
    ensures
        all_pages_spec().len() == PAGE_COUNT,
        all_pages_spec()[page_index_spec(p) as int] == p,
        all_pages_spec()[i] == p <==> i == page_index_spec(p),
{
}

/// No two pages share a sidebar label.
pub proof fn lemma_labels_distinct(a: SecmPage, b: SecmPage)
    requires
        a != b,
    ensures
        a.label_spec() != b.label_spec(),
{
    reveal_strlit("硬件信息");
    reveal_strlit("清理优化");
    reveal_strlit("网络诊断");
    reveal_strlit("网络配置");
    reveal_strlit("系统设置");
    reveal_strlit("服务管理");
    reveal_strlit("环境检测");
    reveal_strlit("AI 环境");
    reveal_strlit("硬件检测");
    reveal_strlit("关于");
    if a.label_spec() == b.label_spec() {
        let x = a.label_spec();
        let y = b.label_spec();
        assert(x.len() == y.len());
        assert(x[0] == y[0]);
        assert(x[1] == y[1]);
        assert(x[2] == y[2]);
        assert(x[3] == y[3]);
    }
}

/// Routes of the single-column application root (including the debug log page).
#[derive(Debug, Clone, Copy, PartialEq, Eq, Structural)]
pub enum Page {
    Dashboard,
    Cleanup,
    Network,
    NetConfig,
    Settings,
    Services,
    Environment,
    AiEnvironment,
    Hardware,
    Logs,
    About,
}

impl Page {
    pub open spec fn label_spec(self) -> Seq<char> {
        match self {
            Page::Dashboard => "硬件信息"@,
            Page::Cleanup => "清理优化"@,
            Page::Network => "网络诊断"@,
            Page::NetConfig => "网络配置"@,
            Page::Settings => "系统设置"@,
            Page::Services => "服务管理"@,
            Page::Environment => "环境检测"@,
            Page::AiEnvironment => "AI 环境"@,
            Page::Hardware => "硬件检测"@,
            Page::Logs => "调试日志"@,
            Page::About => "关于"@,
        }
    }

    /// Navigation label of the page.
    pub fn label(self) -> (r: &'static str)
        ensures
            r@ == self.label_spec(),
    {
        match self {
            Page::Dashboard => "硬件信息",
            Page::Cleanup => "清理优化",
            Page::Network => "网络诊断",
            Page::NetConfig => "网络配置",
            Page::Settings => "系统设置",
            Page::Services => "服务管理",
            Page::Environment => "环境检测",
            Page::AiEnvironment => "AI 环境",
            Page::Hardware => "硬件检测",
            Page::Logs => "调试日志",
            Page::About => "关于",
        }
    }

    /// All pages in navigation order.
    pub fn all() -> (v: Vec<Page>)
        ensures
            v@ == seq![
                Page::Dashboard,
                Page::Cleanup,
                Page::Network,
                Page::NetConfig,
                Page::Settings,
                Page::Services,
                Page::Environment,
                Page::AiEnvironment,
                Page::Hardware,
                Page::Logs,
                Page::About,
            ],
    {
        vec![
            Page::Dashboard,
            Page::Cleanup,
            Page::Network,
            Page::NetConfig,
            Page::Settings,
            Page::Services,
            Page::Environment,
            Page::AiEnvironment,
            Page::Hardware,
            Page::Logs,
            Page::About,
        ]
    }
}

} // verus!
