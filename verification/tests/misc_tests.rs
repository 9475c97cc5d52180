use secm_app::dashboard::source_label;
use secm_app::ai_env::{action_result_status, DetectKind, DetectLoading, McpAction, ToolAction};
use secm_app::cleanup::{detail_lines, line_is_degraded, result_toast, verdict, CleanOp};
use secm_app::dashboard::{disk_temp, smart_state, DiskSmart, NvmeHealth, SmartAttribute, WmiHealth};
use secm_app::data::file_tree;
use secm_app::icons::{Icon, PiAssets};
use secm_app::panel::{key, GrowDirection};
use secm_app::shell::{detail_action, fail_of, label_ip, DetailAction, PublicIpEntry, ShellChrome, ShellNav};
use secm_app::nav::SecmPage;
use secm_app::theme::Appearance;
use secm_app::tray::{fallback_icon_rgba, menu_action, tray_icon_image, tray_rgba, TrayAction};

#[test]
fn file_tree_shape() {
    let t = file_tree();
    assert_eq!(t.len(), 4);
    assert_eq!(t[0].name, "crates");
    assert!(t[0].is_dir);
    assert_eq!(t[0].children[0].children[0].children.len(), 4);
    assert_eq!(t[0].children[0].children[0].children[3].name, "pi_clone");
    assert!(!t[0].children[0].children[0].children[3].is_dir);
    assert_eq!(t[1].children[0].children[0].name, "ADR-0003.md");
    assert_eq!(t[3].name, "README.md");
    assert!(t[3].children.is_empty());
}

#[test]
fn appearance_toggle() {
    assert_eq!(Appearance::Light.toggled(), Appearance::Dark);
    assert_eq!(Appearance::Dark.toggled().toggled(), Appearance::Dark);
    assert!(Appearance::Dark.is_dark());
    let mut c = ShellChrome::new();
    assert_eq!(c.appearance, Appearance::Dark);
    c.toggle_theme();
    assert_eq!(c.appearance, Appearance::Light);
    c.toggle_sidebar();
    assert!(!c.sidebar_open);
    c.toggle_right();
    assert!(!c.right_open);
}

#[test]
fn storage_key_and_direction() {
    assert_eq!(key("sidebar-width"), "pi-clone::sidebar-width");
    assert_ne!(GrowDirection::Left, GrowDirection::Right);
}

#[test]
fn icon_paths_and_assets() {
    assert_eq!(Icon::Gauge.path(), "pi-icons/activity.svg");
    assert_eq!(Icon::Close.path(), "pi-icons/x.svg");
    assert_eq!(Icon::WinRestore.path(), "pi-icons/win-restore.svg");
    let a = PiAssets::new("/opt/secm");
    assert!(a.base.ends_with("assets"));
    assert!(a.base.starts_with("/opt/secm"));
    assert_ne!(a.base, "/opt/secm");
}

#[test]
fn cleanup_reports() {
    assert_eq!(CleanOp::Steam.label(), "清 Steam 缓存");
    assert_eq!(CleanOp::Temp.running_text(), "清理临时文件执行中…");
    assert!(line_is_degraded("删除 a.tmp 失败"));
    assert!(line_is_degraded("已标记重启后删除 3 个文件"));
    assert!(!line_is_degraded("已删除 12 个文件"));
    let lines = detail_lines("已删除 12 个文件\r\n\n  无法访问 C:\\x  \n");
    assert_eq!(lines, vec![("已删除 12 个文件".to_string(), false), ("无法访问 C:\\x".to_string(), true)]);
    assert_eq!(verdict(true), "成功");
    assert_eq!(verdict(false), "部分完成");
    assert_eq!(result_toast("清理临时文件", true, "1.5 MB"), "清理临时文件完成 · 释放 1.5 MB");
    assert_eq!(result_toast("清 DirectX", false, "0 B"), "清 DirectX部分完成 · 释放 0 B");
}

#[test]
fn ai_env_actions() {
    let mut l = DetectLoading { npm: false, tools: false, mcp: false, ext: false };
    assert!(l.start(DetectKind::Tools));
    assert!(!l.start(DetectKind::Tools));
    assert!(l.loading_of(DetectKind::Tools));
    assert!(!l.loading_of(DetectKind::Npm));
    l.mark_loading(DetectKind::Tools, false);
    assert!(!l.loading_of(DetectKind::Tools));
    let a = ToolAction::Upgrade("@acme/dev-cli".to_string());
    assert_eq!(a.label(), "升级");
    assert_eq!(a.package(), "@acme/dev-cli");
    assert_eq!(a.status_text(), "升级 @acme/dev-cli…");
    let m = McpAction::Uninstall("mcp-x".to_string());
    assert_eq!(m.status_text(), "卸载 MCP mcp-x…");
    assert_eq!(action_result_status("安装", &Ok("done".to_string())), "done");
    assert_eq!(action_result_status("安装", &Err("npm 不可用".to_string())), "安装：npm 不可用");
}

fn nvme(used: u32, errs: u64, spare: u32, thr: u32, temp: i64) -> NvmeHealth {
    NvmeHealth {
        percentage_used: used,
        media_errors: errs,
        available_spare: spare,
        available_spare_threshold: thr,
        temperature_c: temp,
    }
}

#[test]
fn disk_verdicts() {
    let mk = |nv: Option<NvmeHealth>, healthy: bool| DiskSmart {
        nvme_health: nv,
        wmi_health: None,
        attributes: vec![],
        healthy,
        detail: "d".to_string(),
    };
    assert_eq!(smart_state(&mk(Some(nvme(10, 0, 100, 10, 40)), true)), (true, false, "d".to_string()));
    assert_eq!(smart_state(&mk(Some(nvme(80, 0, 100, 10, 40)), true)).1, true);
    assert_eq!(smart_state(&mk(Some(nvme(10, 1, 100, 10, 40)), true)).1, true);
    assert_eq!(smart_state(&mk(Some(nvme(10, 0, 20, 10, 40)), true)).1, true);
    assert_eq!(smart_state(&mk(Some(nvme(10, 0, 21, 10, 40)), true)).1, false);
    assert_eq!(smart_state(&mk(Some(nvme(10, 0, 0, 0, 40)), true)).1, false);
    assert_eq!(smart_state(&mk(Some(nvme(90, 0, 100, 10, 40)), false)), (false, false, "d".to_string()));
    assert_eq!(smart_state(&mk(Some(nvme(10, 0, 4000000000, 3000000000, 40)), true)).1, true);
}

#[test]
fn disk_temperature_sources() {
    let d = DiskSmart {
        nvme_health: Some(nvme(1, 0, 100, 10, 0)),
        wmi_health: Some(WmiHealth { temperature_c: Some(38) }),
        attributes: vec![SmartAttribute { id: 194, value: 40 }],
        healthy: true,
        detail: String::new(),
    };
    assert_eq!(disk_temp(&d), Some(38));
    let d = DiskSmart {
        nvme_health: None,
        wmi_health: Some(WmiHealth { temperature_c: None }),
        attributes: vec![SmartAttribute { id: 5, value: 0 }, SmartAttribute { id: 190, value: 33 }, SmartAttribute { id: 194, value: 35 }],
        healthy: true,
        detail: String::new(),
    };
    assert_eq!(disk_temp(&d), Some(33));
    let d = DiskSmart {
        nvme_health: Some(nvme(1, 0, 100, 10, 45)),
        wmi_health: None,
        attributes: vec![],
        healthy: true,
        detail: String::new(),
    };
    assert_eq!(disk_temp(&d), Some(45));
    let d = DiskSmart { nvme_health: None, wmi_health: None, attributes: vec![], healthy: true, detail: String::new() };
    assert_eq!(disk_temp(&d), None);
}

fn png_bytes(w: u32, h: u32) -> Vec<u8> {
    let img = image::RgbaImage::from_pixel(w, h, image::Rgba([1, 2, 3, 4]));
    let mut out = std::io::Cursor::new(Vec::new());
    img.write_to(&mut out, image::ImageFormat::Png).unwrap();
    out.into_inner()
}

#[test]
fn tray_icon_from_png_or_fallback() {
    let png = png_bytes(3, 2);
    let (raw, w, h) = tray_rgba(&png).expect("decodes");
    assert_eq!((w, h), (3, 2));
    assert_eq!(raw.len(), 24);
    assert_eq!(&raw[0..4], &[1, 2, 3, 4]);
    let (raw, w, h, degraded) = tray_icon_image(&png);
    assert!(!degraded);
    assert_eq!((w, h, raw.len()), (3, 2, 24));
    assert!(tray_rgba(b"not a png").is_none());
    let (raw, w, h, degraded) = tray_icon_image(b"not a png");
    assert!(degraded);
    assert_eq!((w, h), (16, 16));
    assert_eq!(raw, fallback_icon_rgba());
}

#[test]
fn fallback_icon_is_a_dot() {
    let v = fallback_icon_rgba();
    assert_eq!(v.len(), 1024);
    let px = |x: usize, y: usize| &v[(y * 16 + x) * 4..(y * 16 + x) * 4 + 4];
    assert_eq!(px(7, 7), &[0x4f, 0x7c, 0xff, 0xff]);
    assert_eq!(px(1, 7), &[0x4f, 0x7c, 0xff, 0xff]);
    assert_eq!(px(0, 7), &[0, 0, 0, 0]);
    assert_eq!(px(0, 0), &[0, 0, 0, 0]);
    assert_eq!(px(12, 12), &[0, 0, 0, 0]);
    assert_eq!(px(11, 11), &[0x4f, 0x7c, 0xff, 0xff]);
    assert_eq!(px(11, 10), &[0x4f, 0x7c, 0xff, 0xff]);
}

#[test]
fn tray_menu() {
    assert_eq!(menu_action("1", "1", "2"), Some(TrayAction::ShowWindow));
    assert_eq!(menu_action("2", "1", "2"), Some(TrayAction::Quit));
    assert_eq!(menu_action("3", "1", "2"), None);
}

#[test]
fn navigation_flags() {
    let mut nav = ShellNav::new();
    assert_eq!(nav.current(), SecmPage::Dashboard);
    assert!(nav.is_active(SecmPage::Dashboard));
    assert!(!nav.is_built(SecmPage::Network));
    assert!(!nav.navigate_to(SecmPage::Dashboard));
    assert!(nav.navigate_to(SecmPage::Network));
    assert!(nav.is_active(SecmPage::Network));
    assert!(!nav.is_active(SecmPage::Dashboard));
    assert!(nav.is_built(SecmPage::Network));
    assert!(nav.is_built(SecmPage::Dashboard));
    let active = SecmPage::all().into_iter().filter(|p| nav.is_active(*p)).count();
    assert_eq!(active, 1);
}

#[test]
fn ip_slot_captions() {
    let ok = PublicIpEntry { ip: "1.2.3.4".to_string(), diag: String::new() };
    let bad = PublicIpEntry { ip: String::new(), diag: "timeout".to_string() };
    assert_eq!(label_ip(&ok), "1.2.3.4");
    assert_eq!(label_ip(&bad), "—");
    assert_eq!(fail_of(&ok), "");
    assert_eq!(fail_of(&bad), "失败");
    assert_eq!(detail_action(true, true), DetailAction::Collapse);
    assert_eq!(detail_action(false, true), DetailAction::Ignore);
    assert_eq!(detail_action(false, false), DetailAction::Load);
}

#[test]
fn smart_source_captions() {
    assert_eq!(source_label("ioctl"), "IOCTL 全量采集");
    assert_eq!(source_label("wmi"), "WMI 降级采集");
    assert_eq!(source_label("smartctl"), "smartctl");
}
