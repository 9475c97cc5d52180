use secm_app::services::{
    filter_services, op_for_choice, op_result_toast, row_controls, start_type_choices,
    start_type_value, ServiceBusy, ServiceInfo, ServiceOp,
};

fn svc(name: &str, display: &str, status: &str, st: &str) -> ServiceInfo {
    ServiceInfo {
        name: name.to_string(),
        display_name: display.to_string(),
        status: status.to_string(),
        start_type: st.to_string(),
    }
}

#[test]
fn start_types() {
    assert_eq!(start_type_value("自动"), Some("auto"));
    assert_eq!(start_type_value("手动"), Some("manual"));
    assert_eq!(start_type_value("已禁用"), Some("disabled"));
    assert_eq!(start_type_value("禁用"), Some("disabled"));
    assert_eq!(start_type_value("自动(延迟启动)"), None);
    let c = start_type_choices();
    assert_eq!(c, vec![("auto", "自动"), ("manual", "手动"), ("disabled", "禁用")]);
    assert_eq!(op_for_choice("auto"), ServiceOp::ToggleAuto);
    assert_eq!(op_for_choice("manual"), ServiceOp::ToggleManual);
    assert_eq!(op_for_choice("disabled"), ServiceOp::ToggleDisable);
    assert_eq!(ServiceOp::ToggleManual.start_type_arg(), Some("manual"));
    assert_eq!(ServiceOp::Stop.start_type_arg(), None);
    assert_eq!(ServiceOp::ToggleAuto.label(), "设为自动");
}

#[test]
fn search_is_case_insensitive_on_name_and_display() {
    let list = vec![
        svc("Spooler", "Print Spooler", "Running", "自动"),
        svc("wuauserv", "Windows Update", "Stopped", "手动"),
    ];
    let names = |v: Vec<ServiceInfo>| v.into_iter().map(|s| s.name).collect::<Vec<_>>();
    assert_eq!(names(filter_services(&list, "")), vec!["Spooler", "wuauserv"]);
    assert_eq!(names(filter_services(&list, "SPOOL")), vec!["Spooler"]);
    assert_eq!(names(filter_services(&list, "update")), vec!["wuauserv"]);
    assert!(filter_services(&list, "zzz").is_empty());
}

#[test]
fn one_write_at_a_time() {
    let mut busy = ServiceBusy { current: None };
    assert!(!busy.any_busy());
    assert_eq!(busy.begin("Spooler", ServiceOp::Stop), Some("正在停止 Spooler…".to_string()));
    assert!(busy.any_busy());
    assert!(busy.row_busy("Spooler"));
    assert!(!busy.row_busy("wuauserv"));
    assert!(!busy.type_busy("Spooler"));
    assert_eq!(busy.begin("wuauserv", ServiceOp::Start), None);
    busy.finish();
    assert!(!busy.any_busy());
    busy.begin("wuauserv", ServiceOp::ToggleDisable);
    assert!(busy.type_busy("wuauserv"));
}

#[test]
fn row_controls_follow_busy() {
    let s = svc("Spooler", "Print Spooler", "Running", "自动");
    let idle = ServiceBusy { current: None };
    let r = row_controls(&s, &idle);
    assert!(r.running);
    assert!(!r.action_disabled);
    assert!(!r.type_disabled);
    assert_eq!(r.current_type, Some("auto"));
    let other = ServiceBusy { current: Some((ServiceOp::Start, "x".to_string())) };
    let r = row_controls(&s, &other);
    assert!(r.action_disabled);
    assert!(r.type_disabled);
}

#[test]
fn result_toasts() {
    assert_eq!(op_result_toast("Spooler", ServiceOp::Start, &Ok("ok".to_string())), "服务 Spooler启动");
    assert_eq!(
        op_result_toast("Spooler", ServiceOp::Stop, &Err("拒绝访问".to_string())),
        "停止服务 Spooler 失败：拒绝访问"
    );
}
