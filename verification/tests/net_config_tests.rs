use secm_app::net_config::{
    apply_status, check_ready, dhcp_request, failed_steps, local_ipv4, mac_change, mac_prefill,
    reselect, split_dns, static_v4_request, static_v6_request, AdapterConfig, ApplyStep,
    ConfigAction,
};

fn adapter(name: &str, status: &str, mac: Option<&str>, ips: &[&str]) -> AdapterConfig {
    AdapterConfig {
        name: name.to_string(),
        status: status.to_string(),
        mac: mac.map(|m| m.to_string()),
        guid: Some(format!("{{{name}}}")),
        ipv4: ips.iter().map(|s| s.to_string()).collect(),
    }
}

#[test]
fn dns_list_splitting() {
    assert_eq!(split_dns("8.8.8.8, 114.114.114.114"), vec!["8.8.8.8", "114.114.114.114"]);
    assert_eq!(split_dns("1.1.1.1，8.8.4.4  9.9.9.9"), vec!["1.1.1.1", "8.8.4.4", "9.9.9.9"]);
    assert!(split_dns("  , ，").is_empty());
    assert!(split_dns("").is_empty());
}

#[test]
fn static_v4() {
    let r = static_v4_request("以太网".to_string(), " 192.168.1.100 ", "255.255.255.0", "", "8.8.8.8").unwrap();
    assert_eq!(r.mode_v4, "static");
    assert_eq!(r.ipv4s[0].ip, "192.168.1.100");
    assert_eq!(r.ipv4s[0].gateway, None);
    assert_eq!(r.mode_dns4, "static");
    assert_eq!(r.dns4, vec!["8.8.8.8"]);
    assert_eq!(r.mode_v6, "dhcp");
    let r = static_v4_request("e".to_string(), "10.0.0.2", "255.0.0.0", " 10.0.0.1 ", " ").unwrap();
    assert_eq!(r.ipv4s[0].gateway, Some("10.0.0.1".to_string()));
    assert_eq!(r.mode_dns4, "dhcp");
    assert!(r.dns4.is_empty());
    assert_eq!(
        static_v4_request("e".to_string(), "10.0.0.2", "  ", "", "").err(),
        Some("请填写 IPv4 地址与子网掩码".to_string())
    );
}

#[test]
fn dhcp_and_v6() {
    let r = dhcp_request("WLAN".to_string());
    assert_eq!(r.ifname, "WLAN");
    assert_eq!(r.mode_v4, "dhcp");
    assert_eq!(r.mode_dns6, "dhcp");
    let r = static_v6_request("WLAN".to_string(), " 2001:db8::2 ", "");
    assert_eq!(r.mode_v6, "static");
    assert_eq!(r.ipv6, Some("2001:db8::2".to_string()));
    assert_eq!(r.ipv6_gateway, None);
}

#[test]
fn readiness_checks() {
    let adapters = vec![adapter("以太网", "Up", Some("AA:BB:CC:DD:EE:FF"), &["192.168.1.5"])];
    assert_eq!(check_ready(&None, &adapters, true, ConfigAction::Dhcp), Err("请先选择一个网络适配器".to_string()));
    let sel = Some("以太网".to_string());
    assert_eq!(check_ready(&sel, &adapters, false, ConfigAction::StaticV4), Err("需要管理员权限执行网络配置修改".to_string()));
    assert_eq!(check_ready(&sel, &adapters, false, ConfigAction::Mac), Err("需要管理员权限执行 MAC 修改".to_string()));
    assert_eq!(check_ready(&sel, &adapters, true, ConfigAction::Mac), Ok("以太网".to_string()));
    let gone = Some("WLAN".to_string());
    assert_eq!(check_ready(&gone, &adapters, true, ConfigAction::Mac), Err("请先选择一个网络适配器".to_string()));
    assert_eq!(check_ready(&gone, &adapters, true, ConfigAction::Dhcp), Ok("WLAN".to_string()));
}

#[test]
fn selection_and_local_ip() {
    let adapters = vec![
        adapter("vEthernet", "Down", None, &[]),
        adapter("以太网", "Up", Some("AA"), &["192.168.1.5", "10.0.0.2"]),
    ];
    assert_eq!(reselect(Some("vEthernet".to_string()), &adapters), Some("vEthernet".to_string()));
    assert_eq!(reselect(Some("gone".to_string()), &adapters), Some("以太网".to_string()));
    assert_eq!(reselect(None, &adapters), Some("以太网".to_string()));
    let down = vec![adapter("a", "Down", None, &[]), adapter("b", "Down", None, &[])];
    assert_eq!(reselect(None, &down), Some("a".to_string()));
    assert_eq!(reselect(None, &vec![]), None);
    assert_eq!(local_ipv4(&adapters), Some("192.168.1.5".to_string()));
    assert_eq!(local_ipv4(&down), None);
    assert_eq!(mac_prefill(&adapters, "以太网"), Some("AA".to_string()));
    assert_eq!(mac_prefill(&adapters, "vEthernet"), None);
}

#[test]
fn mac_and_steps() {
    let a = adapter("以太网", "Up", None, &[]);
    let c = mac_change(&a, " 02:11:22:33:44:55 ").unwrap();
    assert_eq!(c.mac, "02:11:22:33:44:55");
    assert_eq!(c.ifname, "以太网");
    assert_eq!(c.guid, Some("{以太网}".to_string()));
    assert_eq!(mac_change(&a, "   ").err(), Some("请填写新的 MAC 地址".to_string()));
    assert_eq!(apply_status(true), "全部步骤执行成功");
    assert_eq!(apply_status(false), "部分步骤失败（见下方明细）");
    let steps = vec![
        ApplyStep { name: "设置 IPv4".to_string(), ok: true, detail: String::new() },
        ApplyStep { name: "设置 DNS".to_string(), ok: false, detail: "x".to_string() },
    ];
    assert_eq!(failed_steps(&steps), vec!["设置 DNS"]);
}
