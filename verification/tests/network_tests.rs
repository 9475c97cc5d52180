use secm_app::network::{decode_done, done_outcome, probe_started, should_probe, site_caption, SiteStatus, SiteTone};
use secm_app::network::{
    all_sites, build_request, count_running, delete_site, header_status, ip_version_str,
    parse_num, proto_str, record_type_str, submit_add, submit_edit, trace_dns_from_input,
    AutoTest, EditOutcome, SiteItem, ToolEvent, ToolId, ToolInputs, ToolRequest, ToolRun,
    OUT_LINES_CAP,
};

fn inputs() -> ToolInputs {
    ToolInputs {
        target: " bilibili.com ".to_string(),
        port: "443".to_string(),
        ping_count: "4".to_string(),
        ping_interval: "1000".to_string(),
        ping_size: "56".to_string(),
        ping_ttl: "64".to_string(),
        ping_deadline: "0".to_string(),
        ping_continuous: false,
        ip_version: 0,
        proto: 0,
        trace_hops: "30".to_string(),
        trace_dns: "system".to_string(),
        nsl_type: 0,
        stun_server: "stun.l.google.com:19302".to_string(),
        stun_custom: "".to_string(),
        iperf_port: "5201".to_string(),
        iperf_duration: "10".to_string(),
    }
}

fn site(n: &str, u: &str) -> SiteItem {
    SiteItem { name: n.to_string(), url: u.to_string() }
}

#[test]
fn tool_labels_indices() {
    let all = ToolId::all();
    assert_eq!(all.len(), 6);
    for (i, t) in all.iter().enumerate() {
        assert_eq!(t.idx(), i);
    }
    assert_eq!(ToolId::Trace.label(), "Traceroute");
    assert_eq!(ToolId::Iperf.label(), "iperf3");
    assert_eq!(ToolId::Nsl.start_label(), "查询");
    assert_eq!(ToolId::Nat.start_label(), "检测");
    assert_eq!(ToolId::Iperf.start_label(), "测试");
    assert_eq!(ToolId::Ping.start_label(), "开始");
    assert_eq!(ToolId::Trace.cmd_id(1700000000123), "net-traceroute-1700000000123");
    assert_eq!(ToolId::Nat.cmd_id(7), "net-nat-7");
}

#[test]
fn choice_strings() {
    assert_eq!(ip_version_str(0), "auto");
    assert_eq!(ip_version_str(1), "v4");
    assert_eq!(ip_version_str(2), "v6");
    assert_eq!(ip_version_str(9), "auto");
    assert_eq!(proto_str(1), "tcp");
    assert_eq!(proto_str(2), "udp");
    assert_eq!(proto_str(0), "icmp");
    assert_eq!(record_type_str(1), "AAAA");
    assert_eq!(record_type_str(0), "A");
}

#[test]
fn parse_num_accepts_trimmed_in_range() {
    assert_eq!(parse_num(" 42 ", "次数", 1, 9999), Ok(42));
    assert_eq!(parse_num("+7", "次数", 1, 9999), Ok(7));
    assert_eq!(parse_num("1", "次数", 1, 1), Ok(1));
}

#[test]
fn parse_num_reports_bad_input() {
    assert_eq!(parse_num("abc", "端口", 1, 65535), Err("端口 不是有效数字（输入：\"abc\"）".to_string()));
    assert_eq!(parse_num("", "TTL", 1, 255), Err("TTL 不是有效数字（输入：\"\"）".to_string()));
    assert_eq!(parse_num("-3", "TTL", 1, 255), Err("TTL 不是有效数字（输入：\"-3\"）".to_string()));
    assert_eq!(parse_num("70000", "端口", 1, 65535), Err("端口 超出范围 1-65535（输入：70000）".to_string()));
    assert_eq!(parse_num("0", "次数", 1, 9999), Err("次数 超出范围 1-9999（输入：0）".to_string()));
}

#[test]
fn build_ping_request() {
    let r = build_request(ToolId::Ping, &inputs()).expect("valid");
    match r {
        ToolRequest::Ping(p) => {
            assert_eq!(p.target, "bilibili.com");
            assert_eq!(p.count, 4);
            assert_eq!(p.interval_ms, 1000);
            assert_eq!(p.size, 56);
            assert_eq!(p.ttl, 64);
            assert_eq!(p.deadline_secs, 0);
            assert_eq!(p.port, 443);
            assert_eq!(p.ip_version, "auto");
            assert_eq!(p.proto, "icmp");
            assert!(!p.continuous);
        }
        _ => panic!("wrong request"),
    }
}

#[test]
fn build_request_errors_in_field_order() {
    let mut i = inputs();
    i.target = "   ".to_string();
    assert_eq!(build_request(ToolId::Ping, &i).err(), Some("目标地址不能为空".to_string()));
    assert_eq!(build_request(ToolId::Nsl, &i).err(), Some("域名不能为空".to_string()));
    let mut i = inputs();
    i.ping_size = "10".to_string();
    i.ping_ttl = "0".to_string();
    assert_eq!(build_request(ToolId::Ping, &i).err(), Some("字节 超出范围 32-65507（输入：10）".to_string()));
    let mut i = inputs();
    i.trace_hops = "65".to_string();
    assert_eq!(build_request(ToolId::Trace, &i).err(), Some("最大跳数 超出范围 1-64（输入：65）".to_string()));
}

#[test]
fn build_other_requests() {
    let mut i = inputs();
    i.trace_dns = "8.8.8.8".to_string();
    i.ip_version = 1;
    match build_request(ToolId::Trace, &i).unwrap() {
        ToolRequest::Trace { target, hops, ip_version, dns } => {
            assert_eq!(target, "bilibili.com");
            assert_eq!(hops, 30);
            assert_eq!(ip_version, "v4");
            assert_eq!(dns, Some("8.8.8.8".to_string()));
        }
        _ => panic!(),
    }
    match build_request(ToolId::Trace, &inputs()).unwrap() {
        ToolRequest::Trace { dns, .. } => assert_eq!(dns, None),
        _ => panic!(),
    }
    let mut i = inputs();
    i.nsl_type = 1;
    match build_request(ToolId::Nsl, &i).unwrap() {
        ToolRequest::Nsl { record_type, .. } => assert_eq!(record_type, "AAAA"),
        _ => panic!(),
    }
    match build_request(ToolId::Nat, &inputs()).unwrap() {
        ToolRequest::Nat { server } => assert_eq!(server, "stun.l.google.com:19302"),
        _ => panic!(),
    }
    let mut i = inputs();
    i.stun_custom = " 1.2.3.4:3478 ".to_string();
    match build_request(ToolId::Nat, &i).unwrap() {
        ToolRequest::Nat { server } => assert_eq!(server, "1.2.3.4:3478"),
        _ => panic!(),
    }
    match build_request(ToolId::Port, &inputs()).unwrap() {
        ToolRequest::Port { target, port } => {
            assert_eq!(target, "bilibili.com");
            assert_eq!(port, 443);
        }
        _ => panic!(),
    }
    let mut i = inputs();
    i.target = String::new();
    match build_request(ToolId::Iperf, &i).unwrap() {
        ToolRequest::Iperf { host, port, duration_secs } => {
            assert_eq!(host, "127.0.0.1");
            assert_eq!(port, 5201);
            assert_eq!(duration_secs, 10);
        }
        _ => panic!(),
    }
}

#[test]
fn trace_dns_input() {
    assert_eq!(trace_dns_from_input("  "), "system");
    assert_eq!(trace_dns_from_input(" 1.1.1.1 "), "1.1.1.1");
}

#[test]
fn tool_run_lifecycle() {
    let mut run = ToolRun::new();
    assert!(run.begin("net-ping-1".to_string()));
    assert_eq!(run.status, "运行中…");
    assert!(!run.begin("net-ping-2".to_string()));
    assert_eq!(run.cmd_id, "net-ping-1");
    assert!(!run.clear());
    assert_eq!(run.stop_target(), Some("net-ping-1".to_string()));
    assert!(!run.handle(ToolEvent::Line("line 1".to_string()), "10:00:00"));
    assert!(!run.handle(ToolEvent::Summary("汇总：发送 4".to_string()), "10:00:00"));
    assert!(!run.handle(ToolEvent::Other, "10:00:00"));
    assert_eq!(run.lines, vec!["line 1".to_string()]);
    assert_eq!(run.status, "汇总：发送 4");
    assert!(run.handle(ToolEvent::Done { ok: false, msg: "超时".to_string() }, "10:00:05"));
    assert!(!run.running);
    assert_eq!(run.status, "失败：超时");
    assert_eq!(run.error, Some("[10:00:05]  超时".to_string()));
    assert_eq!(run.stop_target(), None);
    assert!(run.clear());
    assert!(run.lines.is_empty());
    assert_eq!(run.error, None);
    assert_eq!(run.status, "");
}

#[test]
fn tool_run_error_kept_on_failure() {
    let mut run = ToolRun::new();
    run.begin("id".to_string());
    run.handle(ToolEvent::Error("bad host".to_string()), "09:00:00");
    run.handle(ToolEvent::Done { ok: false, msg: "x".to_string() }, "09:00:01");
    assert_eq!(run.error, Some("[09:00:00]  bad host".to_string()));
    let mut ok_run = ToolRun::new();
    ok_run.begin("id".to_string());
    ok_run.handle(ToolEvent::Done { ok: true, msg: "4 条记录".to_string() }, "09:00:01");
    assert_eq!(ok_run.status, "4 条记录");
    assert_eq!(ok_run.error, None);
    let mut failed = ToolRun::new();
    failed.fail_start("端口 超出范围");
    assert_eq!(failed.status, "启动失败：端口 超出范围");
}

#[test]
fn tool_output_is_capped() {
    let mut run = ToolRun::new();
    run.begin("id".to_string());
    for i in 0..(OUT_LINES_CAP + 3) {
        run.push_line(format!("l{i}"));
    }
    assert_eq!(run.lines.len(), OUT_LINES_CAP);
    assert_eq!(run.lines[0], "l3");
}

#[test]
fn running_header() {
    let mut a = ToolRun::new();
    let b = ToolRun::new();
    a.begin("x".to_string());
    assert_eq!(count_running(&vec![a, b]), 1);
    assert_eq!(header_status(2), "2 个任务运行中");
    assert_eq!(header_status(0), "就绪");
}

#[test]
fn site_list_editing() {
    let defaults = vec![site("百度", "https://www.baidu.com")];
    let mut custom = vec![site("A", "https://a")];
    assert_eq!(all_sites(&defaults, &custom).iter().map(|s| s.name.clone()).collect::<Vec<_>>(), vec!["百度", "A"]);
    assert!(!submit_add(&mut custom, " ", "https://b"));
    assert_eq!(custom.len(), 1);
    assert!(submit_add(&mut custom, " B ", " https://b "));
    assert_eq!(custom[1].name, "B");
    assert_eq!(custom[1].url, "https://b");
    match submit_edit(&mut custom, Some(0), "A2", "https://a2") {
        EditOutcome::Updated { old_url } => assert_eq!(old_url, "https://a"),
        other => panic!("{other:?}"),
    }
    assert_eq!(custom[0].url, "https://a2");
    assert!(matches!(submit_edit(&mut custom, None, "x", "y"), EditOutcome::NoEdit));
    assert!(matches!(submit_edit(&mut custom, Some(0), "", "y"), EditOutcome::Invalid));
    assert!(matches!(submit_edit(&mut custom, Some(5), "x", "y"), EditOutcome::Missing));
    let removed = delete_site(&mut custom, 0).expect("exists");
    assert_eq!(removed.name, "A2");
    assert_eq!(custom.len(), 1);
    assert!(delete_site(&mut custom, 3).is_none());
}

#[test]
fn auto_test_generations() {
    let mut a = AutoTest::new();
    assert_eq!(a.interval_ms, 5000);
    let g1 = a.set(true).expect("starts a loop");
    assert!(a.should_continue(g1));
    assert_eq!(a.set(true), None);
    assert!(a.should_continue(g1));
    assert_eq!(a.set(false), None);
    assert!(!a.should_continue(g1));
    let g2 = a.set(true).expect("starts a loop");
    assert!(g2 > g1);
    assert!(!a.should_continue(g1));
    assert!(a.should_continue(g2));
}

#[test]
fn site_tile_captions() {
    assert_eq!(site_caption(&None), (SiteTone::Untested, "点击检测".to_string()));
    let t = Some(probe_started());
    assert!(!should_probe(&t));
    assert!(should_probe(&None));
    assert_eq!(site_caption(&t).1, "检测中");
    let ok = Some(SiteStatus { testing: false, ok: Some(true), ms: 87, status_code: Some(200) });
    assert!(should_probe(&ok));
    assert_eq!(site_caption(&ok), (SiteTone::Reachable, "87ms · HTTP 200".to_string()));
    let ok2 = Some(SiteStatus { testing: false, ok: Some(true), ms: 5, status_code: None });
    assert_eq!(site_caption(&ok2).1, "5ms");
    let bad = Some(SiteStatus { testing: false, ok: Some(false), ms: 8000, status_code: None });
    assert_eq!(site_caption(&bad), (SiteTone::Unreachable, "不可达".to_string()));
}

#[test]
fn done_payload_decoding() {
    match decode_done(r#"{"ok":false,"msg":"超时"}"#) {
        ToolEvent::Done { ok, msg } => {
            assert!(!ok);
            assert_eq!(msg, "超时");
        }
        _ => panic!("not done"),
    }
    match decode_done("plain text") {
        ToolEvent::Done { ok, msg } => {
            assert!(ok);
            assert_eq!(msg, "plain text");
        }
        _ => panic!("not done"),
    }
    match decode_done(r#"{"ok":"yes","msg":"x"}"#) {
        ToolEvent::Done { ok, msg } => {
            assert!(ok);
            assert_eq!(msg, r#"{"ok":"yes","msg":"x"}"#);
        }
        _ => panic!("not done"),
    }
    match done_outcome("raw", Some((false, "m".to_string()))) {
        ToolEvent::Done { ok, msg } => assert!(!ok && msg == "m"),
        _ => panic!("not done"),
    }
}

#[test]
fn parse_num_sign_and_overflow() {
    assert_eq!(parse_num(" +12 ", "次数", 1, 99), Ok(12));
    assert_eq!(
        parse_num("18446744073709551616", "次数", 1, 99),
        Err("次数 不是有效数字（输入：\"18446744073709551616\"）".to_string())
    );
    assert_eq!(
        parse_num("18446744073709551615", "次数", 1, 99),
        Err("次数 超出范围 1-99（输入：18446744073709551615）".to_string())
    );
    assert_eq!(parse_num("+", "次数", 1, 99), Err("次数 不是有效数字（输入：\"+\"）".to_string()));
    assert_eq!(parse_num("1a", "次数", 1, 99), Err("次数 不是有效数字（输入：\"1a\"）".to_string()));
}
