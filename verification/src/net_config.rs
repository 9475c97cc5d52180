//! Network configuration page: adapter selection, the readiness checks of a change,
//! and the configuration requests (DHCP, static IPv4 with DNS list, static IPv6,
//! MAC) built from the input fields. Applying a request is the caller's work.

use vstd::prelude::*;
use crate::text::{owned, clean_pieces, split_clean, split_on, trim_str, trimmed, views};

verus! {

/// One network adapter as listed.
#[derive(Debug)]
pub struct AdapterConfig {
    pub name: String,
    pub status: String,
    pub mac: Option<String>,
    pub guid: Option<String>,
    pub ipv4: Vec<String>,
}

/// Index of the first adapter named `name`.
pub open spec fn adapter_named(adapters: Seq<AdapterConfig>, name: Seq<char>, i: int) -> bool {
    &&& 0 <= i < adapters.len()
    &&& adapters[i].name@ == name
    &&& forall|j: int| 0 <= j < i ==> adapters[j].name@ != name
}

/// Finds the first adapter named `name`.
pub fn find_adapter(adapters: &Vec<AdapterConfig>, name: &str) -> (r: Option<usize>)
    ensures
        match r {
            Some(i) => adapter_named(adapters@, name@, i as int),
            None => forall|j: int| 0 <= j < adapters@.len() ==> adapters@[j].name@ != name@,
        },
{
    let target = String::from_str(name);
    let mut i: usize = 0;
    while i < adapters.len()
        invariant
            i <= adapters@.len(),
            target@ == name@,
            forall|j: int| 0 <= j < i ==> adapters@[j].name@ != name@,
        decreases adapters@.len() - i,
    {
        if adapters[i].name == target {
            return Some(i);
        }
        i = i + 1;
    }
    None
}

fn find_up(adapters: &Vec<AdapterConfig>) -> (r: Option<usize>)
    ensures
        match r {
            Some(i) => i < adapters@.len() && adapters@[i as int].status@ == "Up"@ && forall|j: int|
                0 <= j < i ==> adapters@[j].status@ != "Up"@,
            None => forall|j: int| 0 <= j < adapters@.len() ==> adapters@[j].status@ != "Up"@,
        },
{
    let up = String::from_str("Up");
    let mut i: usize = 0;
    while i < adapters.len()
        invariant
            i <= adapters@.len(),
            up@ == "Up"@,
            forall|j: int| 0 <= j < i ==> adapters@[j].status@ != "Up"@,
        decreases adapters@.len() - i,
    {
        if adapters[i].status == up {
            return Some(i);
        }
        i = i + 1;
    }
    None
}

/// Selection after the adapter list is refreshed: the current one if still listed,
/// otherwise the first adapter that is up, otherwise the first adapter.
pub fn reselect(selected: Option<String>, adapters: &Vec<AdapterConfig>) -> (r: Option<String>)
    ensures
        (selected matches Some(cur) && exists|j: int|
            0 <= j < adapters@.len() && adapters@[j].name@ == cur@) ==> r == selected,
        !(selected matches Some(cur) && exists|j: int|
            0 <= j < adapters@.len() && adapters@[j].name@ == cur@) ==> {
            match r {
                Some(n) => exists|i: int|
                    0 <= i < adapters@.len() && n@ == adapters@[i].name@ && ((
                    adapters@[i].status@ == "Up"@ && forall|j: int|
                        0 <= j < i ==> adapters@[j].status@ != "Up"@) || (i == 0 && forall|j: int|
                        0 <= j < adapters@.len() ==> adapters@[j].status@ != "Up"@)),
                None => adapters@.len() == 0,
            }
        },
{
    if let Some(cur) = &selected {
        if let Some(_) = find_adapter(adapters, cur.as_str()) {
            return selected;
        }
    }
    match find_up(adapters) {
        Some(i) => Some(adapters[i].name.clone()),
        None => {
            if adapters.len() > 0 {
                Some(adapters[0].name.clone())
            } else {
                None
            }
        },
    }
}

/// IPv4 address shown in the sidebar card: the first address of the first adapter
/// that is up.
pub fn local_ipv4(adapters: &Vec<AdapterConfig>) -> (r: Option<String>)
    ensures
        match r {
            Some(ip) => exists|i: int|
                0 <= i < adapters@.len() && adapters@[i].status@ == "Up"@ && (forall|j: int|
                    0 <= j < i ==> adapters@[j].status@ != "Up"@) && adapters@[i].ipv4@.len() > 0
                    && ip == adapters@[i].ipv4@[0],
            None => (forall|j: int| 0 <= j < adapters@.len() ==> adapters@[j].status@ != "Up"@)
                || exists|i: int|
                0 <= i < adapters@.len() && adapters@[i].status@ == "Up"@ && (forall|j: int|
                    0 <= j < i ==> adapters@[j].status@ != "Up"@) && adapters@[i].ipv4@.len() == 0,
        },
{
    match find_up(adapters) {
        Some(i) => {
            if adapters[i].ipv4.len() > 0 {
                Some(adapters[i].ipv4[0].clone())
            } else {
                None
            }
        },
        None => None,
    }
}

/// A static IPv4 entry.
#[derive(Debug)]
pub struct Ipv4Entry {
    pub ip: String,
    pub mask: String,
    pub gateway: Option<String>,
}

/// A configuration change for one interface.
#[derive(Debug)]
pub struct NetworkConfigRequest {
    pub ifname: String,
    pub mode_v4: String,
    pub ipv4s: Vec<Ipv4Entry>,
    pub mode_dns4: String,
    pub dns4: Vec<String>,
    pub mode_v6: String,
    pub ipv6: Option<String>,
    pub ipv6_gateway: Option<String>,
    pub mode_dns6: String,
    pub dns6: Vec<String>,
}

/// Switches every address family of the interface to DHCP.
pub fn dhcp_request(ifname: String) -> (r: NetworkConfigRequest)
    ensures
        r.ifname == ifname,
        r.mode_v4@ == "dhcp"@,
        r.ipv4s@.len() == 0,
        r.mode_dns4@ == "dhcp"@,
        r.dns4@.len() == 0,
        r.mode_v6@ == "dhcp"@,
        r.ipv6 is None,
        r.ipv6_gateway is None,
        r.mode_dns6@ == "dhcp"@,
        r.dns6@.len() == 0,
{
    NetworkConfigRequest {
        ifname,
        mode_v4: owned("dhcp"),
        ipv4s: Vec::new(),
        mode_dns4: owned("dhcp"),
        dns4: Vec::new(),
        mode_v6: owned("dhcp"),
        ipv6: None,
        ipv6_gateway: None,
        mode_dns6: owned("dhcp"),
        dns6: Vec::new(),
    }
}

/// DNS list separators: ASCII comma, full-width comma, space.
pub open spec fn dns_seps() -> Seq<char> {
    seq![',', '，', ' ']
}

/// The DNS servers of a typed list: pieces between separators, trimmed, blank ones
/// dropped.
pub open spec fn dns_list_spec(s: Seq<char>) -> Seq<Seq<char>> {
    clean_pieces(split_on(s, dns_seps()))
}

/// Splits a typed DNS list on commas (ASCII or full-width) and spaces, trimming each
/// server and dropping blanks.
pub fn split_dns(text: &str) -> (v: Vec<String>)
    ensures
        views(v@) == dns_list_spec(text@),
{
    let seps = vec![',', '，', ' '];
    assert(seps@ == dns_seps());
    split_clean(text, &seps)
}

/// Message when no adapter is selected.
pub open spec fn no_adapter_msg() -> Seq<char> {
    "请先选择一个网络适配器"@
}

/// Which change the user asked for.
#[derive(Debug, Clone, Copy, PartialEq, Eq, Structural)]
pub enum ConfigAction {
    Dhcp,
    StaticV4,
    StaticV6,
    Mac,
}

pub open spec fn admin_msg(action: ConfigAction) -> Seq<char> {
    if action == ConfigAction::Mac {
        "需要管理员权限执行 MAC 修改"@
    } else {
        "需要管理员权限执行网络配置修改"@
    }
}

/// The adapter a change applies to: an adapter must be selected (for a MAC change it
/// must also still be listed) and the process must be elevated.
pub fn check_ready(
    selected: &Option<String>,
    adapters: &Vec<AdapterConfig>,
    admin: bool,
    action: ConfigAction,
) -> (r: Result<String, String>)
    ensures
        match r {
            Ok(name) => selected matches Some(s) && name@ == s@ && admin && (action
                == ConfigAction::Mac ==> exists|j: int|
                0 <= j < adapters@.len() && adapters@[j].name@ == s@),
            Err(e) => {
                ||| (selected is None && e@ == no_adapter_msg())
                ||| (selected matches Some(s) && action == ConfigAction::Mac && (forall|j: int|
                    0 <= j < adapters@.len() ==> adapters@[j].name@ != s@) && e@
                    == no_adapter_msg())
                ||| (selected is Some && !admin && e@ == admin_msg(action) && (action
                    == ConfigAction::Mac ==> (selected matches Some(s) && exists|j: int|
                    0 <= j < adapters@.len() && adapters@[j].name@ == s@)))
            },
        },
        (selected is Some && admin && action != ConfigAction::Mac) ==> r is Ok,
{
    let name = match selected {
        None => return Err(owned("请先选择一个网络适配器")),
        Some(n) => n,
    };
    if action == ConfigAction::Mac {
        if find_adapter(adapters, name.as_str()).is_none() {
            return Err(owned("请先选择一个网络适配器"));
        }
    }
    if !admin {
        if action == ConfigAction::Mac {
            return Err(owned("需要管理员权限执行 MAC 修改"));
        }
        return Err(owned("需要管理员权限执行网络配置修改"));
    }
    Ok(name.clone())
}

fn opt_trimmed(raw: &str) -> (r: Option<String>)
    ensures
        match r {
            Some(t) => trimmed(raw@).len() > 0 && t@ == trimmed(raw@),
            None => trimmed(raw@).len() == 0,
        },
{
    let t = trim_str(raw);
    if t.is_empty() {
        None
    } else {
        Some(owned(t))
    }
}

/// Static IPv4 (address, mask, optional gateway) with a static DNS list when one is
/// typed (DHCP DNS otherwise); IPv6 stays on DHCP. Address and mask are required.
pub fn static_v4_request(ifname: String, ip: &str, mask: &str, gateway: &str, dns_text: &str) -> (r:
    Result<NetworkConfigRequest, String>)
    ensures
        match r {
            Ok(req) => {
                &&& trimmed(ip@).len() > 0 && trimmed(mask@).len() > 0
                &&& req.ifname == ifname
                &&& req.mode_v4@ == "static"@
                &&& req.ipv4s@.len() == 1
                &&& req.ipv4s@[0].ip@ == trimmed(ip@)
                &&& req.ipv4s@[0].mask@ == trimmed(mask@)
                &&& match req.ipv4s@[0].gateway {
                    Some(g) => trimmed(gateway@).len() > 0 && g@ == trimmed(gateway@),
                    None => trimmed(gateway@).len() == 0,
                }
                &&& views(req.dns4@) == dns_list_spec(dns_text@)
                &&& req.mode_dns4@ == (if dns_list_spec(dns_text@).len() == 0 {
                    "dhcp"@
                } else {
                    "static"@
                })
                &&& req.mode_v6@ == "dhcp"@ && req.ipv6 is None && req.ipv6_gateway is None
                &&& req.mode_dns6@ == "dhcp"@ && req.dns6@.len() == 0
            },
            Err(e) => (trimmed(ip@).len() == 0 || trimmed(mask@).len() == 0) && e@
                == "请填写 IPv4 地址与子网掩码"@,
        },
{
    let ip_t = trim_str(ip);
    let mask_t = trim_str(mask);
    if ip_t.is_empty() || mask_t.is_empty() {
        return Err(owned("请填写 IPv4 地址与子网掩码"));
    }
    let dns_list = split_dns(dns_text);
    let mode_dns4 = if dns_list.len() == 0 {
        owned("dhcp")
    } else {
        owned("static")
    };
    let entry = Ipv4Entry { ip: owned(ip_t), mask: owned(mask_t), gateway: opt_trimmed(gateway) };
    let mut ipv4s: Vec<Ipv4Entry> = Vec::new();
    ipv4s.push(entry);
    Ok(
        NetworkConfigRequest {
            ifname,
            mode_v4: owned("static"),
            ipv4s,
            mode_dns4,
            dns4: dns_list,
            mode_v6: owned("dhcp"),
            ipv6: None,
            ipv6_gateway: None,
            mode_dns6: owned("dhcp"),
            dns6: Vec::new(),
        },
    )
}

/// Static IPv6 address and gateway (each optional when blank); IPv4 stays on DHCP.
pub fn static_v6_request(ifname: String, ipv6: &str, gateway: &str) -> (r: NetworkConfigRequest)
    ensures
        r.ifname == ifname,
        r.mode_v4@ == "dhcp"@ && r.ipv4s@.len() == 0,
        r.mode_dns4@ == "dhcp"@ && r.dns4@.len() == 0,
        r.mode_v6@ == "static"@,
        match r.ipv6 {
            Some(a) => trimmed(ipv6@).len() > 0 && a@ == trimmed(ipv6@),
            None => trimmed(ipv6@).len() == 0,
        },
        match r.ipv6_gateway {
            Some(g) => trimmed(gateway@).len() > 0 && g@ == trimmed(gateway@),
            None => trimmed(gateway@).len() == 0,
        },
        r.mode_dns6@ == "dhcp"@ && r.dns6@.len() == 0,
{
    NetworkConfigRequest {
        ifname,
        mode_v4: owned("dhcp"),
        ipv4s: Vec::new(),
        mode_dns4: owned("dhcp"),
        dns4: Vec::new(),
        mode_v6: owned("static"),
        ipv6: opt_trimmed(ipv6),
        ipv6_gateway: opt_trimmed(gateway),
        mode_dns6: owned("dhcp"),
        dns6: Vec::new(),
    }
}

/// A MAC address change for one adapter.
#[derive(Debug)]
pub struct MacChange {
    pub ifname: String,
    pub mac: String,
    pub guid: Option<String>,
}

/// The MAC change for `adapter` from the typed address (trimmed, required).
pub fn mac_change(adapter: &AdapterConfig, mac: &str) -> (r: Result<MacChange, String>)
    ensures
        match r {
            Ok(c) => trimmed(mac@).len() > 0 && c.mac@ == trimmed(mac@) && c.ifname@
                == adapter.name@ && c.guid == adapter.guid,
            Err(e) => trimmed(mac@).len() == 0 && e@ == "请填写新的 MAC 地址"@,
        },
{
    let t = trim_str(mac);
    if t.is_empty() {
        return Err(owned("请填写新的 MAC 地址"));
    }
    let guid = match &adapter.guid {
        Some(g) => Some(g.clone()),
        None => None,
    };
    Ok(MacChange { ifname: adapter.name.clone(), mac: owned(t), guid })
}

/// One executed step of a configuration change.
#[derive(Debug)]
pub struct ApplyStep {
    pub name: String,
    pub ok: bool,
    pub detail: String,
}

/// Status line after a change: all steps succeeded, or some failed.
pub fn apply_status(all_ok: bool) -> (r: &'static str)
    ensures
        r@ == (if all_ok { "全部步骤执行成功"@ } else { "部分步骤失败（见下方明细）"@ }),
{
    if all_ok {
        "全部步骤执行成功"
    } else {
        "部分步骤失败（见下方明细）"
    }
}

/// Names of the failed steps, in order.
pub fn failed_steps(steps: &Vec<ApplyStep>) -> (v: Vec<String>)
    ensures
        views(v@) == steps@.filter(|s: ApplyStep| !s.ok).map_values(|s: ApplyStep| s.name@),
{
    let mut v: Vec<String> = Vec::new();
    let mut i: usize = 0;
    while i < steps.len()
        invariant
            i <= steps@.len(),
            views(v@) == steps@.subrange(0, i as int).filter(|s: ApplyStep| !s.ok).map_values(
                |s: ApplyStep| s.name@,
            ),
        decreases steps@.len() - i,
    {
        let ghost before = v@;
        proof {
            assert(steps@.subrange(0, i as int + 1).drop_last() =~= steps@.subrange(0, i as int));
            reveal_with_fuel(Seq::<_>::filter, 1);
        }
        if !steps[i].ok {
            v.push(steps[i].name.clone());
            assert(views(v@) =~= views(before).push(steps@[i as int].name@));
        }
        i = i + 1;
    }
    assert(steps@.subrange(0, steps@.len() as int) =~= steps@);
    v
}

/// The MAC field is prefilled with the selected adapter's address, when it has one.
pub fn mac_prefill(adapters: &Vec<AdapterConfig>, name: &str) -> (r: Option<String>)
    ensures
        match r {
            Some(m) => exists|i: int|
                adapter_named(adapters@, name@, i) && adapters@[i].mac == Some(m),
            None => forall|i: int| adapter_named(adapters@, name@, i) ==> adapters@[i].mac is None,
        },
{
    match find_adapter(adapters, name) {
        Some(i) => match &adapters[i].mac {
            Some(m) => {
                let r = m.clone();
                assert(adapter_named(adapters@, name@, i as int));
                Some(r)
            },
            None => None,
        },
        None => None,
    }
}

} // verus!
