use secm_app::settings::{begin_toggle, begin_write, hetero_absent_notice};
use secm_app::settings::{
    flip_optimistic, hetero_done_text, hetero_kind_label, hetero_label, nvidia_choices,
    nvidia_label, nvidia_switch_needed, plan_display_name, toggle_done_text, ultimate_action,
    BusyOp, NvidiaPowerMode, PowerPlan, SettingState, ToggleKind, UltimateAction,
};

fn plan(guid: &str, name: &str, active: bool) -> PowerPlan {
    PowerPlan { guid: guid.to_string(), name: name.to_string(), is_active: active }
}

#[test]
fn toggle_metadata() {
    let all = ToggleKind::all();
    assert_eq!(all.len(), 6);
    assert_eq!(all[0], ToggleKind::Hags);
    assert_eq!(all[5], ToggleKind::Hpt);
    assert_eq!(ToggleKind::Vrr.label(), "可变刷新率 (VRR)");
    assert_eq!(ToggleKind::GameMode.dom_id(), "toggle-gamemode");
    assert_eq!(ToggleKind::Hpt.description(), "降低计时器中断频率，减少 CPU 占用（需重启生效）");
    let mut ids: Vec<&str> = all.iter().map(|k| k.dom_id()).collect();
    ids.sort();
    ids.dedup();
    assert_eq!(ids.len(), 6);
}

#[test]
fn optimistic_flip_only_first_match() {
    let mut t = vec![
        (ToggleKind::Hags, SettingState { enabled: false, message: "m1".to_string() }),
        (ToggleKind::Vrr, SettingState { enabled: true, message: "m2".to_string() }),
    ];
    assert_eq!(flip_optimistic(&mut t, ToggleKind::Vrr), Some(1));
    assert!(!t[1].1.enabled);
    assert_eq!(t[1].1.message, "m2");
    assert!(!t[0].1.enabled);
    assert_eq!(flip_optimistic(&mut t, ToggleKind::Hpt), None);
}

#[test]
fn hetero_labels() {
    assert_eq!(hetero_label(0), "所有处理器");
    assert_eq!(hetero_label(4), "首选高效处理器");
    assert_eq!(hetero_label(5), "自动");
    assert_eq!(hetero_label(42), "自动");
    assert_eq!(hetero_kind_label("short", "ac"), "短运行线程调度策略（AC）");
    assert_eq!(hetero_kind_label("short", "dc"), "短运行线程调度策略（DC）");
    assert_eq!(hetero_kind_label("policy", "ac"), "线程调度策略（AC）");
    assert_eq!(hetero_kind_label("policy", "x"), "线程调度策略（DC）");
    assert_eq!(hetero_done_text("policy", "ac", 1), "线程调度策略（AC）已设为「高性能处理器」");
}

#[test]
fn nvidia_modes() {
    assert_eq!(nvidia_label(NvidiaPowerMode::Optimal), "最佳功率");
    assert_eq!(nvidia_label(NvidiaPowerMode::Adaptive), "自适应");
    assert_eq!(nvidia_choices()[1], NvidiaPowerMode::MaxPerformance);
    assert!(nvidia_switch_needed(BusyOp::Idle, None, NvidiaPowerMode::Adaptive));
    assert!(!nvidia_switch_needed(BusyOp::Idle, Some(NvidiaPowerMode::Adaptive), NvidiaPowerMode::Adaptive));
    assert!(!nvidia_switch_needed(BusyOp::Hetero, Some(NvidiaPowerMode::Optimal), NvidiaPowerMode::Adaptive));
    assert!(nvidia_switch_needed(BusyOp::Idle, Some(NvidiaPowerMode::Optimal), NvidiaPowerMode::Adaptive));
}

#[test]
fn ultimate_runs_once() {
    let plans = vec![plan("g-bal", "平衡", true)];
    let mut done = false;
    assert!(matches!(ultimate_action(&mut done, &plans), UltimateAction::Import));
    assert!(done);
    assert!(matches!(ultimate_action(&mut done, &plans), UltimateAction::Skip));
    let mut fresh = false;
    assert!(matches!(ultimate_action(&mut fresh, &vec![]), UltimateAction::Skip));
    assert!(!fresh);
    let plans = vec![plan("g-bal", "平衡", true), plan("g-ult", "卓越性能", false)];
    let mut done = false;
    match ultimate_action(&mut done, &plans) {
        UltimateAction::Activate(g) => assert_eq!(g, "g-ult"),
        other => panic!("{other:?}"),
    }
    let plans = vec![plan("g-ult", "卓越性能", true)];
    let mut done = false;
    assert!(matches!(ultimate_action(&mut done, &plans), UltimateAction::Nothing));
}

#[test]
fn plan_names() {
    let plans = vec![plan("381b4222-f694", "平衡", true)];
    assert_eq!(plan_display_name(&plans, "381b4222-f694"), "平衡");
    assert_eq!(plan_display_name(&plans, "8c5e7fda-e8bf-4a96"), "计划 8c5e7fda");
    assert_eq!(plan_display_name(&plans, "abc"), "计划 abc");
}

#[test]
fn toggle_toast_text() {
    assert_eq!(toggle_done_text(ToggleKind::GameMode, true), "已开启「游戏模式」");
    assert_eq!(toggle_done_text(ToggleKind::Hpt, false), "已关闭「关闭高精度计时器」");
}

#[test]
fn settings_write_gate_and_toggle() {
    let mut busy = BusyOp::Idle;
    assert!(begin_write(&mut busy, BusyOp::PlanActivate));
    assert_eq!(busy, BusyOp::PlanActivate);
    assert!(!begin_write(&mut busy, BusyOp::Hetero));
    assert_eq!(busy, BusyOp::PlanActivate);
    let mut toggles = vec![
        (ToggleKind::Hags, SettingState { enabled: false, message: "a".to_string() }),
        (ToggleKind::Vrr, SettingState { enabled: true, message: "b".to_string() }),
    ];
    assert!(!begin_toggle(&mut busy, &mut toggles, ToggleKind::Vrr));
    assert!(toggles[1].1.enabled);
    busy = BusyOp::Idle;
    assert!(begin_toggle(&mut busy, &mut toggles, ToggleKind::Vrr));
    assert_eq!(busy, BusyOp::Toggle(ToggleKind::Vrr));
    assert!(!toggles[1].1.enabled);
    assert_eq!(toggles[1].1.message, "b");
    assert!(!toggles[0].1.enabled);
}

#[test]
fn hetero_missing_notice() {
    assert_eq!(hetero_absent_notice(true, true), None);
    assert_eq!(
        hetero_absent_notice(false, true).unwrap(),
        "当前电源计划未包含异类线程调度策略设置项，首次配置时将自动注入当前电源计划（需管理员权限）"
    );
    assert!(hetero_absent_notice(true, false).unwrap().contains("异类短运行线程调度策略"));
    assert!(hetero_absent_notice(false, false).unwrap().contains("异类线程/短运行线程调度策略"));
}
