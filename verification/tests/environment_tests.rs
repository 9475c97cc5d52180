use secm_app::environment::preset_header;
use secm_app::environment::{
    check_icon, choose_power_plan, join_strings, no_plan_error, plan_preset, preset_message,
    recommended_on, CheckStatus, GamePreset, PlanInfo, PresetAction, PresetOutcome, PresetSetting,
};

fn setting(key: &str, label: &str, rec: &str, ok: bool) -> PresetSetting {
    PresetSetting { key: key.to_string(), label: label.to_string(), recommended: rec.to_string(), ok }
}

#[test]
fn check_icons() {
    assert_eq!(check_icon(CheckStatus::Pass), "✓");
    assert_eq!(check_icon(CheckStatus::Warn), "⚠");
    assert_eq!(check_icon(CheckStatus::Fail), "✗");
    assert_eq!(check_icon(CheckStatus::Info), "ℹ");
}

#[test]
fn recommendation_direction() {
    assert!(recommended_on("开启"));
    assert!(recommended_on("高性能"));
    assert!(recommended_on("卓越性能"));
    assert!(!recommended_on("关闭"));
}

#[test]
fn preset_plan_skips_met_and_check_only() {
    let preset = GamePreset {
        name: "FPS".to_string(),
        settings: vec![
            setting("hags", "HAGS", "开启", false),
            setting("", "CPU", "≥ 6 核", false),
            setting("vrr", "VRR", "开启", true),
            setting("mouse_precision", "鼠标", "关闭", false),
            setting("power_plan", "电源", "卓越性能", false),
            setting("unknown", "其他", "开启", false),
        ],
    };
    let plan = plan_preset(&preset);
    let labels: Vec<&str> = plan.iter().map(|s| s.label.as_str()).collect();
    assert_eq!(labels, vec!["HAGS", "鼠标", "电源", "其他"]);
    assert!(matches!(plan[0].action, PresetAction::Hags(true)));
    assert!(matches!(plan[1].action, PresetAction::MousePrecision(false)));
    match &plan[2].action {
        PresetAction::PowerPlan(r) => assert_eq!(r, "卓越性能"),
        other => panic!("{other:?}"),
    }
    assert!(matches!(plan[3].action, PresetAction::Nothing));
}

#[test]
fn power_plan_choice() {
    let plans = vec![
        PlanInfo { guid: "1".to_string(), name: "平衡".to_string() },
        PlanInfo { guid: "2".to_string(), name: "卓越性能".to_string() },
        PlanInfo { guid: "3".to_string(), name: "高性能".to_string() },
    ];
    assert_eq!(choose_power_plan("高性能", &plans), Some(2));
    assert_eq!(choose_power_plan("卓越性能", &plans), Some(1));
    assert_eq!(choose_power_plan("平衡", &plans), None);
    assert_eq!(no_plan_error("卓越性能"), "未找到推荐电源计划（推荐: 卓越性能）");
}

#[test]
fn preset_summary() {
    let mut o = PresetOutcome::new();
    o.record("HAGS", &Ok(()));
    o.record("VRR", &Err("拒绝".to_string()));
    o.record("鼠标", &Err("失败".to_string()));
    assert_eq!(o.applied, 1);
    assert_eq!(
        preset_message("FPS", &o),
        "已应用「FPS」预设（1 项联动）；失败 2 项: VRR: 拒绝；鼠标: 失败"
    );
    let none = PresetOutcome::new();
    assert_eq!(preset_message("FPS", &none), "「FPS」全部达标，无需调整");
    let mut failed = PresetOutcome::new();
    failed.record("A", &Err("e".to_string()));
    assert_eq!(preset_message("X", &failed), "「X」预设未应用任何变更；失败 1 项: A: e");
    assert_eq!(join_strings(&vec!["a".to_string(), "b".to_string()], "；"), "a；b");
    assert_eq!(join_strings(&vec![], "；"), "");
}

#[test]
fn preset_header_states() {
    let met = GamePreset { name: "A".to_string(), settings: vec![setting("hags", "HAGS", "开启", true), setting("", "检测", "x", false)] };
    let h = preset_header(&met, false);
    assert!(h.met && !h.clickable);
    assert_eq!((h.status, h.button), ("全部达标", "已达标"));
    let todo = GamePreset { name: "B".to_string(), settings: vec![setting("vrr", "VRR", "开启", false)] };
    let h = preset_header(&todo, false);
    assert!(!h.met && h.clickable);
    assert_eq!((h.status, h.button), ("有未达标项", "一键套用"));
    let h = preset_header(&todo, true);
    assert!(!h.clickable);
    assert_eq!(h.button, "应用中…");
}
