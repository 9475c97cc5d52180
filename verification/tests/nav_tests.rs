use secm_app::icons::Icon;
use secm_app::nav::{nav_groups, NavGroup, Page, SecmPage};

#[test]
fn page_labels_and_icons() {
    assert_eq!(SecmPage::Dashboard.label(), "硬件信息");
    assert_eq!(SecmPage::AiEnvironment.label(), "AI 环境");
    assert_eq!(SecmPage::About.label(), "关于");
    assert_eq!(SecmPage::Dashboard.icon(), Icon::Gauge);
    assert_eq!(SecmPage::Environment.icon(), Icon::Box);
    assert_eq!(SecmPage::Hardware.icon(), Icon::HardDrive);
}

#[test]
fn all_pages_in_order_and_indexed() {
    let all = SecmPage::all();
    assert_eq!(all.len(), 10);
    assert_eq!(all[0], SecmPage::Dashboard);
    assert_eq!(all[9], SecmPage::About);
    for (i, p) in all.iter().enumerate() {
        assert_eq!(p.index(), i);
    }
}

#[test]
fn labels_are_distinct() {
    let all = SecmPage::all();
    for a in &all {
        for b in &all {
            if a != b {
                assert_ne!(a.label(), b.label());
            }
        }
    }
}

#[test]
fn groups_partition_pages_in_order() {
    let groups = nav_groups();
    assert_eq!(groups, vec![NavGroup::Overview, NavGroup::Tools, NavGroup::System]);
    let mut flat = Vec::new();
    for g in &groups {
        flat.extend(g.pages());
    }
    assert_eq!(flat, SecmPage::all());
    for p in SecmPage::all() {
        let n = groups.iter().filter(|g| g.contains(p)).count();
        assert_eq!(n, 1);
    }
    assert_eq!(NavGroup::Overview.pages(), vec![SecmPage::Dashboard]);
    assert_eq!(NavGroup::System.pages(), vec![SecmPage::About]);
    assert_eq!(NavGroup::Tools.pages().len(), 8);
}

#[test]
fn group_titles() {
    assert_eq!(NavGroup::Overview.title(), "概览");
    assert_eq!(NavGroup::Tools.title(), "工具");
    assert_eq!(NavGroup::System.title(), "系统");
    assert!(NavGroup::Tools.contains(SecmPage::Network));
    assert!(!NavGroup::Tools.contains(SecmPage::Dashboard));
    assert!(NavGroup::System.contains(SecmPage::About));
}

#[test]
fn page_route_labels() {
    let all = Page::all();
    assert_eq!(all.len(), 11);
    assert_eq!(Page::Logs.label(), "调试日志");
    assert_eq!(all[9], Page::Logs);
    assert_eq!(Page::Dashboard.label(), SecmPage::Dashboard.label());
}
