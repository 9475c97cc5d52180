//! Network diagnostics page: the six tools, validation of their parameters into a
//! run request, the per-tool run state fed by streamed events, the custom site list
//! and the auto-test generation counter. Running the probes is the caller's work.

use vstd::prelude::*;
use crate::text::{
    concat2, keep_last, owned,
    debug_quoted, debug_str, decimal, lowercase_of, parse_u64, parse_u64_spec, to_lowercase, trim_str,
    trimmed, u128_to_string, u64_to_string,
};

verus! {

/// Output lines kept per tool; older ones are dropped.
pub const OUT_LINES_CAP: usize = 2000;

/// The diagnostics tools.
#[derive(Debug, Clone, Copy, PartialEq, Eq, Structural)]
pub enum ToolId {
    Ping,
    Trace,
    Nsl,
    Nat,
    Port,
    Iperf,
}

pub open spec fn tool_index(t: ToolId) -> nat {
    match t {
        ToolId::Ping => 0,
        ToolId::Trace => 1,
        ToolId::Nsl => 2,
        ToolId::Nat => 3,
        ToolId::Port => 4,
        ToolId::Iperf => 5,
    }
}

pub open spec fn all_tools_spec() -> Seq<ToolId> {
    seq![ToolId::Ping, ToolId::Trace, ToolId::Nsl, ToolId::Nat, ToolId::Port, ToolId::Iperf]
}

impl ToolId {
    /// The tools in tab order.
    pub fn all() -> (v: Vec<ToolId>)
        ensures
            v@ == all_tools_spec(),
    {
        let v = vec![ToolId::Ping, ToolId::Trace, ToolId::Nsl, ToolId::Nat, ToolId::Port, ToolId::Iperf];
        assert(v@ == all_tools_spec());
        v
    }

    pub open spec fn label_spec(self) -> Seq<char> {
        match self {
            ToolId::Ping => "Ping"@,
            ToolId::Trace => "Traceroute"@,
            ToolId::Nsl => "Nslookup"@,
            ToolId::Nat => "NAT"@,
            ToolId::Port => "Port"@,
            ToolId::Iperf => "iperf3"@,
        }
    }

    /// Tab label of the tool.
    pub fn label(self) -> (r: &'static str)
        ensures
            r@ == self.label_spec(),
    {
        match self {
            ToolId::Ping => "Ping",
            ToolId::Trace => "Traceroute",
            ToolId::Nsl => "Nslookup",
            ToolId::Nat => "NAT",
            ToolId::Port => "Port",
            ToolId::Iperf => "iperf3",
        }
    }

    /// Slot of the tool's run state.
    pub fn idx(self) -> (i: usize)
        ensures
            i == tool_index(self),
            i < 6,
            all_tools_spec()[i as int] == self,
    {
        match self {
            ToolId::Ping => 0,
            ToolId::Trace => 1,
            ToolId::Nsl => 2,
            ToolId::Nat => 3,
            ToolId::Port => 4,
            ToolId::Iperf => 5,
        }
    }

    pub open spec fn start_label_spec(self) -> Seq<char> {
        match self {
            ToolId::Nsl => "查询"@,
            ToolId::Nat => "检测"@,
            ToolId::Iperf => "测试"@,
            _ => "开始"@,
        }
    }

    /// Caption of the start button.
    pub fn start_label(self) -> (r: &'static str)
        ensures
            r@ == self.start_label_spec(),
    {
        match self {
            ToolId::Nsl => "查询",
            ToolId::Nat => "检测",
            ToolId::Iperf => "测试",
            _ => "开始",
        }
    }

    /// Task id of a run started at `now_ms`: `net-<lowercase label>-<now_ms>`.
    pub fn cmd_id(self, now_ms: u128) -> (r: String)
        ensures
            r@ == "net-"@ + lowercase_of(self.label_spec()) + "-"@ + decimal(now_ms as nat),
    {
        let lower = to_lowercase(self.label());
        let r = String::from_str("net-");
        let r = r.concat(lower.as_str());
        let r = r.concat("-");
        let n = u128_to_string(now_ms);
        r.concat(n.as_str())
    }
}

/// Each tool has its own slot, and the slots are 0..6.
pub proof fn lemma_tool_index_bijective(a: ToolId, b: ToolId)
    ensures
        tool_index(a) < 6,
        all_tools_spec()[tool_index(a) as int] == a,
        tool_index(a) == tool_index(b) ==> a == b,
{
}

pub open spec fn ip_version_spec(v: usize) -> Seq<char> {
    if v == 1 { "v4"@ } else if v == 2 { "v6"@ } else { "auto"@ }
}

/// Network stack choice: 1 = `v4`, 2 = `v6`, otherwise `auto`.
pub fn ip_version_str(v: usize) -> (r: &'static str)
    ensures
        r@ == ip_version_spec(v),
{
    match v {
        1 => "v4",
        2 => "v6",
        _ => "auto",
    }
}

pub open spec fn proto_spec(p: usize) -> Seq<char> {
    if p == 1 { "tcp"@ } else if p == 2 { "udp"@ } else { "icmp"@ }
}

/// Probe protocol choice: 1 = `tcp`, 2 = `udp`, otherwise `icmp`.
pub fn proto_str(p: usize) -> (r: &'static str)
    ensures
        r@ == proto_spec(p),
{
    match p {
        1 => "tcp",
        2 => "udp",
        _ => "icmp",
    }
}

pub open spec fn record_type_spec(t: usize) -> Seq<char> {
    if t == 1 { "AAAA"@ } else { "A"@ }
}

/// DNS record type choice: 1 = `AAAA`, otherwise `A`.
pub fn record_type_str(t: usize) -> (r: &'static str)
    ensures
        r@ == record_type_spec(t),
{
    match t {
        1 => "AAAA",
        _ => "A",
    }
}

/// Parsing a numeric field: its trimmed text must be a `u64` within `[min, max]`;
/// otherwise the error names the field and the input.
pub open spec fn num_spec(raw: Seq<char>, label: Seq<char>, min: u64, max: u64) -> Result<
    u64,
    Seq<char>,
> {
    let t = trimmed(raw);
    match parse_u64_spec(t) {
        None => Err(label + " 不是有效数字（输入："@ + debug_quoted(t) + "）"@),
        Some(v) => if v < min || v > max {
            Err(
                label + " 超出范围 "@ + decimal(min as nat) + "-"@ + decimal(max as nat)
                    + "（输入："@ + decimal(v as nat) + "）"@,
            )
        } else {
            Ok(v)
        },
    }
}

/// Parses a numeric input field (see `num_spec`); out-of-range input is reported,
/// never silently corrected.
pub fn parse_num(raw: &str, label: &str, min: u64, max: u64) -> (r: Result<u64, String>)
    ensures
        match r {
            Ok(v) => num_spec(raw@, label@, min, max) == Ok::<u64, Seq<char>>(v),
            Err(e) => num_spec(raw@, label@, min, max) == Err::<u64, Seq<char>>(e@),
        },
{
    let t = trim_str(raw);
    match parse_u64(t) {
        None => {
            let q = debug_str(t);
            let e = String::from_str(label);
            let e = e.concat(" 不是有效数字（输入：");
            let e = e.concat(q.as_str());
            Err(e.concat("）"))
        },
        Some(v) => {
            if v < min || v > max {
                let e = String::from_str(label);
                let e = e.concat(" 超出范围 ");
                let e = e.concat(u64_to_string(min).as_str());
                let e = e.concat("-");
                let e = e.concat(u64_to_string(max).as_str());
                let e = e.concat("（输入：");
                let e = e.concat(u64_to_string(v).as_str());
                Err(e.concat("）"))
            } else {
                Ok(v)
            }
        },
    }
}

/// Raw inputs of the tools card (text fields as typed, choices as indices).
pub struct ToolInputs {
    pub target: String,
    pub port: String,
    pub ping_count: String,
    pub ping_interval: String,
    pub ping_size: String,
    pub ping_ttl: String,
    pub ping_deadline: String,
    pub ping_continuous: bool,
    pub ip_version: usize,
    pub proto: usize,
    pub trace_hops: String,
    pub trace_dns: String,
    pub nsl_type: usize,
    pub stun_server: String,
    pub stun_custom: String,
    pub iperf_port: String,
    pub iperf_duration: String,
}

/// Validated parameters of a ping run.
pub struct PingRequest {
    pub target: String,
    pub count: u32,
    pub interval_ms: u64,
    pub continuous: bool,
    pub ip_version: String,
    pub proto: String,
    pub size: u32,
    pub ttl: u32,
    pub deadline_secs: u32,
    pub port: u16,
}

/// A validated run of one tool.
pub enum ToolRequest {
    Ping(PingRequest),
    Trace { target: String, hops: u8, ip_version: String, dns: Option<String> },
    Nsl { target: String, record_type: String },
    Nat { server: String },
    Port { target: String, port: u16 },
    Iperf { host: String, port: u16, duration_secs: u32 },
}

/// Mathematical form of a run request.
pub enum RequestView {
    Ping {
        target: Seq<char>,
        count: u32,
        interval_ms: u64,
        continuous: bool,
        ip_version: Seq<char>,
        proto: Seq<char>,
        size: u32,
        ttl: u32,
        deadline_secs: u32,
        port: u16,
    },
    Trace { target: Seq<char>, hops: u8, ip_version: Seq<char>, dns: Option<Seq<char>> },
    Nsl { target: Seq<char>, record_type: Seq<char> },
    Nat { server: Seq<char> },
    Port { target: Seq<char>, port: u16 },
    Iperf { host: Seq<char>, port: u16, duration_secs: u32 },
}

impl View for ToolRequest {
    type V = RequestView;

    open spec fn view(&self) -> RequestView {
        match self {
            ToolRequest::Ping(p) => RequestView::Ping {
                target: p.target@,
                count: p.count,
                interval_ms: p.interval_ms,
                continuous: p.continuous,
                ip_version: p.ip_version@,
                proto: p.proto@,
                size: p.size,
                ttl: p.ttl,
                deadline_secs: p.deadline_secs,
                port: p.port,
            },
            ToolRequest::Trace { target, hops, ip_version, dns } => RequestView::Trace {
                target: target@,
                hops: *hops,
                ip_version: ip_version@,
                dns: match dns {
                    Some(d) => Some(d@),
                    None => None,
                },
            },
            ToolRequest::Nsl { target, record_type } => RequestView::Nsl {
                target: target@,
                record_type: record_type@,
            },
            ToolRequest::Nat { server } => RequestView::Nat { server: server@ },
            ToolRequest::Port { target, port } => RequestView::Port { target: target@, port: *port },
            ToolRequest::Iperf { host, port, duration_secs } => RequestView::Iperf {
                host: host@,
                port: *port,
                duration_secs: *duration_secs,
            },
        }
    }
}

/// The traceroute DNS server argument: none for the system resolver (empty or `system`).
pub open spec fn dns_arg_spec(trace_dns: Seq<char>) -> Option<Seq<char>> {
    if trace_dns.len() == 0 || trace_dns == "system"@ { None } else { Some(trace_dns) }
}

/// Ping parameters from the inputs, checked in field order.
pub open spec fn ping_spec(i: ToolInputs) -> Result<RequestView, Seq<char>> {
    let target = trimmed(i.target@);
    if target.len() == 0 {
        Err("目标地址不能为空"@)
    } else {
        match num_spec(i.ping_count@, "次数"@, 1, 9999) {
            Err(e) => Err(e),
            Ok(count) => match num_spec(i.ping_interval@, "间隔ms"@, 10, 60000) {
                Err(e) => Err(e),
                Ok(interval) => match num_spec(i.ping_size@, "字节"@, 32, 65507) {
                    Err(e) => Err(e),
                    Ok(size) => match num_spec(i.ping_ttl@, "TTL"@, 1, 255) {
                        Err(e) => Err(e),
                        Ok(ttl) => match num_spec(i.ping_deadline@, "截止s"@, 0, 3600) {
                            Err(e) => Err(e),
                            Ok(deadline) => match num_spec(i.port@, "端口"@, 1, 65535) {
                                Err(e) => Err(e),
                                Ok(port) => Ok(
                                    RequestView::Ping {
                                        target,
                                        count: count as u32,
                                        interval_ms: interval,
                                        continuous: i.ping_continuous,
                                        ip_version: ip_version_spec(i.ip_version),
                                        proto: proto_spec(i.proto),
                                        size: size as u32,
                                        ttl: ttl as u32,
                                        deadline_secs: deadline as u32,
                                        port: port as u16,
                                    },
                                ),
                            },
                        },
                    },
                },
            },
        }
    }
}

/// The run request of `tool` for the inputs, or the first validation error.
pub open spec fn request_spec(tool: ToolId, i: ToolInputs) -> Result<RequestView, Seq<char>> {
    let target = trimmed(i.target@);
    match tool {
        ToolId::Ping => ping_spec(i),
        ToolId::Trace => if target.len() == 0 {
            Err("目标地址不能为空"@)
        } else {
            match num_spec(i.trace_hops@, "最大跳数"@, 1, 64) {
                Err(e) => Err(e),
                Ok(hops) => Ok(
                    RequestView::Trace {
                        target,
                        hops: hops as u8,
                        ip_version: ip_version_spec(i.ip_version),
                        dns: dns_arg_spec(i.trace_dns@),
                    },
                ),
            }
        },
        ToolId::Nsl => if target.len() == 0 {
            Err("域名不能为空"@)
        } else {
            Ok(RequestView::Nsl { target, record_type: record_type_spec(i.nsl_type) })
        },
        ToolId::Nat => {
            let custom = trimmed(i.stun_custom@);
            Ok(
                RequestView::Nat {
                    server: if custom.len() == 0 { i.stun_server@ } else { custom },
                },
            )
        },
        ToolId::Port => if target.len() == 0 {
            Err("目标地址不能为空"@)
        } else {
            match num_spec(i.port@, "端口"@, 1, 65535) {
                Err(e) => Err(e),
                Ok(port) => Ok(RequestView::Port { target, port: port as u16 }),
            }
        },
        ToolId::Iperf => match num_spec(i.iperf_port@, "端口"@, 1, 65535) {
            Err(e) => Err(e),
            Ok(port) => match num_spec(i.iperf_duration@, "秒数"@, 1, 120) {
                Err(e) => Err(e),
                Ok(dur) => Ok(
                    RequestView::Iperf {
                        host: if target.len() == 0 { "127.0.0.1"@ } else { target },
                        port: port as u16,
                        duration_secs: dur as u32,
                    },
                ),
            },
        },
    }
}

fn dns_arg(trace_dns: &String) -> (r: Option<String>)
    ensures
        match r {
            Some(d) => dns_arg_spec(trace_dns@) == Some(d@),
            None => dns_arg_spec(trace_dns@) is None,
        },
{
    let system = String::from_str("system");
    if trace_dns.as_str().is_empty() || *trace_dns == system {
        None
    } else {
        Some(trace_dns.clone())
    }
}

fn build_ping(i: &ToolInputs, target: &str) -> (r: Result<ToolRequest, String>)
    requires
        target@ == trimmed(i.target@),
        target@.len() > 0,
    ensures
        match r {
            Ok(req) => ping_spec(*i) == Ok::<RequestView, Seq<char>>(req@),
            Err(e) => ping_spec(*i) == Err::<RequestView, Seq<char>>(e@),
        },
{
    let count = match parse_num(i.ping_count.as_str(), "次数", 1, 9999) {
        Ok(v) => v,
        Err(e) => return Err(e),
    };
    let interval = match parse_num(i.ping_interval.as_str(), "间隔ms", 10, 60000) {
        Ok(v) => v,
        Err(e) => return Err(e),
    };
    let size = match parse_num(i.ping_size.as_str(), "字节", 32, 65507) {
        Ok(v) => v,
        Err(e) => return Err(e),
    };
    let ttl = match parse_num(i.ping_ttl.as_str(), "TTL", 1, 255) {
        Ok(v) => v,
        Err(e) => return Err(e),
    };
    let deadline = match parse_num(i.ping_deadline.as_str(), "截止s", 0, 3600) {
        Ok(v) => v,
        Err(e) => return Err(e),
    };
    let port = match parse_num(i.port.as_str(), "端口", 1, 65535) {
        Ok(v) => v,
        Err(e) => return Err(e),
    };
    Ok(
        ToolRequest::Ping(
            PingRequest {
                target: owned(target),
                count: count as u32,
                interval_ms: interval,
                continuous: i.ping_continuous,
                ip_version: owned(ip_version_str(i.ip_version)),
                proto: owned(proto_str(i.proto)),
                size: size as u32,
                ttl: ttl as u32,
                deadline_secs: deadline as u32,
                port: port as u16,
            },
        ),
    )
}

/// Validates the inputs of `tool` into a run request (see `request_spec`): empty
/// targets and out-of-range numbers are reported with the first failing field.
pub fn build_request(tool: ToolId, i: &ToolInputs) -> (r: Result<ToolRequest, String>)
    ensures
        match r {
            Ok(req) => request_spec(tool, *i) == Ok::<RequestView, Seq<char>>(req@),
            Err(e) => request_spec(tool, *i) == Err::<RequestView, Seq<char>>(e@),
        },
{
    let target = trim_str(i.target.as_str());
    match tool {
        ToolId::Ping => {
            if target.is_empty() {
                return Err(owned("目标地址不能为空"));
            }
            build_ping(i, target)
        },
        ToolId::Trace => {
            if target.is_empty() {
                return Err(owned("目标地址不能为空"));
            }
            let hops = match parse_num(i.trace_hops.as_str(), "最大跳数", 1, 64) {
                Ok(v) => v,
                Err(e) => return Err(e),
            };
            Ok(
                ToolRequest::Trace {
                    target: owned(target),
                    hops: hops as u8,
                    ip_version: owned(ip_version_str(i.ip_version)),
                    dns: dns_arg(&i.trace_dns),
                },
            )
        },
        ToolId::Nsl => {
            if target.is_empty() {
                return Err(owned("域名不能为空"));
            }
            Ok(
                ToolRequest::Nsl {
                    target: owned(target),
                    record_type: owned(record_type_str(i.nsl_type)),
                },
            )
        },
        ToolId::Nat => {
            let custom = trim_str(i.stun_custom.as_str());
            let server = if custom.is_empty() {
                i.stun_server.clone()
            } else {
                owned(custom)
            };
            Ok(ToolRequest::Nat { server })
        },
        ToolId::Port => {
            if target.is_empty() {
                return Err(owned("目标地址不能为空"));
            }
            let port = match parse_num(i.port.as_str(), "端口", 1, 65535) {
                Ok(v) => v,
                Err(e) => return Err(e),
            };
            Ok(ToolRequest::Port { target: owned(target), port: port as u16 })
        },
        ToolId::Iperf => {
            let port = match parse_num(i.iperf_port.as_str(), "端口", 1, 65535) {
                Ok(v) => v,
                Err(e) => return Err(e),
            };
            let dur = match parse_num(i.iperf_duration.as_str(), "秒数", 1, 120) {
                Ok(v) => v,
                Err(e) => return Err(e),
            };
            let host = if target.is_empty() {
                owned("127.0.0.1")
            } else {
                owned(target)
            };
            Ok(ToolRequest::Iperf { host, port: port as u16, duration_secs: dur as u32 })
        },
    }
}

/// The DNS setting after editing the custom DNS field: its trimmed text, or
/// `system` when it is blank.
pub fn trace_dns_from_input(raw: &str) -> (r: String)
    ensures
        r@ == (if trimmed(raw@).len() == 0 { "system"@ } else { trimmed(raw@) }),
{
    let t = trim_str(raw);
    if t.is_empty() {
        owned("system")
    } else {
        owned(t)
    }
}

/// A numeric field is accepted exactly when its trimmed text is a `u64` inside the
/// allowed range, and then its value is that number; an out-of-range number is
/// reported, never clamped.
pub proof fn lemma_num_field(raw: Seq<char>, label: Seq<char>, min: u64, max: u64)
    ensures
        num_spec(raw, label, min, max) matches Ok(v) ==> parse_u64_spec(trimmed(raw)) == Some(v)
            && min <= v <= max,
        forall|v: u64|
            parse_u64_spec(trimmed(raw)) == Some(v) && min <= v <= max ==> num_spec(
                raw,
                label,
                min,
                max,
            ) == Ok::<u64, Seq<char>>(v),
        forall|v: u64|
            parse_u64_spec(trimmed(raw)) == Some(v) && (v < min || v > max) ==> num_spec(
                raw,
                label,
                min,
                max,
            ) is Err,
        parse_u64_spec(trimmed(raw)) is None ==> num_spec(raw, label, min, max) is Err,
{
}

/// An accepted ping request carries the typed numbers, each inside its range: count
/// 1-9999, interval 10-60000 ms, size 32-65507 bytes, TTL 1-255, deadline 0-3600 s,
/// port 1-65535; the continuous flag is passed along.
pub proof fn lemma_ping_fields(i: ToolInputs)
    ensures
        request_spec(ToolId::Ping, i) matches Ok(RequestView::Ping {
            target,
            count,
            interval_ms,
            continuous,
            ip_version,
            proto,
            size,
            ttl,
            deadline_secs,
            port,
        }) ==> {
            &&& target == trimmed(i.target@) && target.len() > 0
            &&& parse_u64_spec(trimmed(i.ping_count@)) == Some(count as u64) && 1 <= count <= 9999
            &&& parse_u64_spec(trimmed(i.ping_interval@)) == Some(interval_ms) && 10 <= interval_ms
                <= 60000
            &&& parse_u64_spec(trimmed(i.ping_size@)) == Some(size as u64) && 32 <= size <= 65507
            &&& parse_u64_spec(trimmed(i.ping_ttl@)) == Some(ttl as u64) && 1 <= ttl <= 255
            &&& parse_u64_spec(trimmed(i.ping_deadline@)) == Some(deadline_secs as u64)
                && deadline_secs <= 3600
            &&& parse_u64_spec(trimmed(i.port@)) == Some(port as u64) && 1 <= port
            &&& continuous == i.ping_continuous
        },
{
}

/// iperf3 targets the typed host: with a valid port (1-65535) and duration (1-120 s),
/// the request runs against the trimmed target text, and against `127.0.0.1` only
/// when that text is blank; port and duration are the typed numbers.
pub proof fn lemma_iperf_targets_typed_host(i: ToolInputs, port: u64, secs: u64)
    requires
        parse_u64_spec(trimmed(i.iperf_port@)) == Some(port),
        1 <= port <= 65535,
        parse_u64_spec(trimmed(i.iperf_duration@)) == Some(secs),
        1 <= secs <= 120,
    ensures
        request_spec(ToolId::Iperf, i) matches Ok(RequestView::Iperf { host, port: p, duration_secs: d })
            && p as u64 == port && d as u64 == secs
            && (trimmed(i.target@).len() > 0 ==> host == trimmed(i.target@))
            && (trimmed(i.target@).len() == 0 ==> host == "127.0.0.1"@),
{
}

/// Ping, traceroute, nslookup and port checks need a target: a blank (or all
/// whitespace) target is refused, and an accepted request carries the target with
/// surrounding whitespace removed.
pub proof fn lemma_target_tools_use_trimmed_target(tool: ToolId, i: ToolInputs)
    requires
        tool == ToolId::Ping || tool == ToolId::Trace || tool == ToolId::Nsl || tool == ToolId::Port,
    ensures
        trimmed(i.target@).len() == 0 ==> request_spec(tool, i) is Err,
        match request_spec(tool, i) {
            Ok(RequestView::Ping { target, .. }) => target == trimmed(i.target@),
            Ok(RequestView::Trace { target, .. }) => target == trimmed(i.target@),
            Ok(RequestView::Nsl { target, .. }) => target == trimmed(i.target@),
            Ok(RequestView::Port { target, .. }) => target == trimmed(i.target@),
            Ok(_) => false,
            Err(_) => true,
        },
{
}

/// The NAT check uses the custom STUN server when one is typed (trimmed), else the
/// chosen preset; it never fails.
pub proof fn lemma_nat_server_choice(i: ToolInputs)
    ensures
        request_spec(ToolId::Nat, i) matches Ok(RequestView::Nat { server }) && server == (if trimmed(
            i.stun_custom@,
        ).len() > 0 {
            trimmed(i.stun_custom@)
        } else {
            i.stun_server@
        }),
{
}

/// `[hms]  text`, the form of a timestamped error line.
pub open spec fn stamped(hms: Seq<char>, text: Seq<char>) -> Seq<char> {
    "["@ + hms + "]  "@ + text
}

fn stamp(hms: &str, text: &str) -> (r: String)
    ensures
        r@ == stamped(hms@, text@),
{
    let r = String::from_str("[");
    let r = r.concat(hms);
    let r = r.concat("]  ");
    r.concat(text)
}

/// An event of a running tool, already decoded by the caller.
pub enum ToolEvent {
    /// An error report.
    Error(String),
    /// A summary, rendered as the status line.
    Summary(String),
    /// An output line.
    Line(String),
    /// The final result of the run.
    Done { ok: bool, msg: String },
    /// Anything that produces no output.
    Other,
}

/// Run state of one tool: whether it runs, its task id, its output, its last error
/// and its status line.
pub struct ToolRun {
    pub running: bool,
    pub cmd_id: String,
    pub lines: Vec<String>,
    pub error: Option<String>,
    pub status: String,
}

impl ToolRun {
    /// An idle tool with no output.
    pub fn new() -> (r: ToolRun)
        ensures
            !r.running,
            r.cmd_id@.len() == 0,
            r.lines@.len() == 0,
            r.error is None,
            r.status@.len() == 0,
    {
        ToolRun {
            running: false,
            cmd_id: String::new(),
            lines: Vec::new(),
            error: None,
            status: String::new(),
        }
    }

    /// Starts a run under `cmd_id`: output and error are cleared and the status reads
    /// `运行中…`. A tool that is already running is left alone (returns false).
    pub fn begin(&mut self, cmd_id: String) -> (started: bool)
        ensures
            started == !old(self).running,
            !started ==> *final(self) == *old(self),
            started ==> {
                &&& final(self).running
                &&& final(self).cmd_id@ == cmd_id@
                &&& final(self).lines@.len() == 0
                &&& final(self).error is None
                &&& final(self).status@ == "运行中…"@
            },
    {
        if self.running {
            return false;
        }
        self.running = true;
        self.cmd_id = cmd_id;
        self.lines = Vec::new();
        self.error = None;
        self.status = owned("运行中…");
        true
    }

    /// Records a failed start: the status reads `启动失败：<reason>`.
    pub fn fail_start(&mut self, reason: &str)
        ensures
            final(self).status@ == "启动失败："@ + reason@,
            final(self).running == old(self).running,
            final(self).lines == old(self).lines,
            final(self).error == old(self).error,
            final(self).cmd_id == old(self).cmd_id,
    {
        self.status = concat2("启动失败：", reason);
    }

    /// Appends an output line, dropping the oldest beyond `OUT_LINES_CAP`.
    pub fn push_line(&mut self, line: String)
        ensures
            final(self).lines@ == keep_last(old(self).lines@.push(line), OUT_LINES_CAP as nat),
            final(self).running == old(self).running,
            final(self).error == old(self).error,
            final(self).status == old(self).status,
            final(self).cmd_id == old(self).cmd_id,
    {
        self.lines.push(line);
        if self.lines.len() > OUT_LINES_CAP {
            let drop = self.lines.len() - OUT_LINES_CAP;
            let ghost all = self.lines@;
            let tail = self.lines.split_off(drop);
            assert(tail@ =~= keep_last(all, OUT_LINES_CAP as nat));
            self.lines = tail;
        }
    }

    /// Applies one event (at wall-clock time `hms`). Returns true when the run ended.
    /// Errors are stamped into the error line; the final result stops the run, and a
    /// failure also fills the error line when none was reported.
    pub fn handle(&mut self, ev: ToolEvent, hms: &str) -> (finished: bool)
        ensures
            finished == (ev is Done),
            match ev {
                ToolEvent::Error(data) => {
                    &&& final(self).error matches Some(e) && e@ == stamped(hms@, data@)
                    &&& final(self).lines == old(self).lines
                    &&& final(self).status == old(self).status
                    &&& final(self).running == old(self).running
                },
                ToolEvent::Summary(label) => {
                    &&& final(self).status@ == label@
                    &&& final(self).lines == old(self).lines
                    &&& final(self).error == old(self).error
                    &&& final(self).running == old(self).running
                },
                ToolEvent::Line(line) => {
                    &&& final(self).lines@ == keep_last(old(self).lines@.push(line), OUT_LINES_CAP as nat)
                    &&& final(self).status == old(self).status
                    &&& final(self).error == old(self).error
                    &&& final(self).running == old(self).running
                },
                ToolEvent::Done { ok, msg } => {
                    &&& !final(self).running
                    &&& final(self).lines == old(self).lines
                    &&& final(self).status@ == (if ok { msg@ } else { "失败："@ + msg@ })
                    &&& (ok ==> final(self).error == old(self).error)
                    &&& (!ok && old(self).error is Some ==> final(self).error == old(self).error)
                    &&& ((!ok && old(self).error is None) ==> (final(self).error matches Some(e)
                        && e@ == stamped(hms@, msg@)))
                },
                ToolEvent::Other => *final(self) == *old(self),
            },
            final(self).cmd_id == old(self).cmd_id,
    {
        match ev {
            ToolEvent::Error(data) => {
                self.error = Some(stamp(hms, data.as_str()));
                false
            },
            ToolEvent::Summary(label) => {
                self.status = label;
                false
            },
            ToolEvent::Line(line) => {
                self.push_line(line);
                false
            },
            ToolEvent::Done { ok, msg } => {
                self.running = false;
                if ok {
                    self.status = msg;
                } else {
                    self.status = concat2("失败：", msg.as_str());
                    if self.error.is_none() {
                        self.error = Some(stamp(hms, msg.as_str()));
                    }
                }
                true
            },
            ToolEvent::Other => false,
        }
    }

    /// Clears output, error and status; refused (false, unchanged) while running.
    pub fn clear(&mut self) -> (cleared: bool)
        ensures
            cleared == !old(self).running,
            !cleared ==> *final(self) == *old(self),
            cleared ==> {
                &&& final(self).lines@.len() == 0
                &&& final(self).error is None
                &&& final(self).status@.len() == 0
                &&& !final(self).running
                &&& final(self).cmd_id == old(self).cmd_id
            },
    {
        if self.running {
            return false;
        }
        self.lines = Vec::new();
        self.error = None;
        self.status = String::new();
        true
    }

    /// The task id to cancel, when the tool is running.
    pub fn stop_target(&self) -> (r: Option<String>)
        ensures
            match r {
                Some(id) => self.running && id@ == self.cmd_id@,
                None => !self.running,
            },
    {
        if self.running {
            Some(self.cmd_id.clone())
        } else {
            None
        }
    }
}

/// Number of tools that are running.
pub open spec fn running_count(tools: Seq<ToolRun>) -> nat
    decreases tools.len(),
{
    if tools.len() == 0 {
        0
    } else {
        running_count(tools.drop_last()) + if tools.last().running { 1nat } else { 0nat }
    }
}

/// How many tools are running.
pub fn count_running(tools: &Vec<ToolRun>) -> (n: usize)
    ensures
        n == running_count(tools@),
{
    let mut n: usize = 0;
    let mut i: usize = 0;
    while i < tools.len()
        invariant
            i <= tools@.len(),
            n == running_count(tools@.subrange(0, i as int)),
            n <= i,
        decreases tools@.len() - i,
    {
        assert(tools@.subrange(0, i as int + 1).drop_last() =~= tools@.subrange(0, i as int));
        if tools[i].running {
            n = n + 1;
        }
        i = i + 1;
    }
    assert(tools@.subrange(0, tools@.len() as int) =~= tools@);
    n
}

/// Header status of the page: `<n> 个任务运行中`, or `就绪` when nothing runs.
pub fn header_status(running: usize) -> (r: String)
    ensures
        r@ == (if running > 0 { decimal(running as nat) + " 个任务运行中"@ } else { "就绪"@ }),
{
    if running > 0 {
        let n = u64_to_string(running as u64);
        n.concat(" 个任务运行中")
    } else {
        owned("就绪")
    }
}

/// A website probed by the site test card.
#[derive(Debug)]
pub struct SiteItem {
    pub name: String,
    pub url: String,
}

fn clone_site(s: &SiteItem) -> (r: SiteItem)
    ensures
        r == *s,
{
    SiteItem { name: s.name.clone(), url: s.url.clone() }
}

/// All sites in display order: the built-in ones, then the custom ones.
pub fn all_sites(defaults: &Vec<SiteItem>, custom: &Vec<SiteItem>) -> (v: Vec<SiteItem>)
    ensures
        v@ == defaults@ + custom@,
{
    let mut v: Vec<SiteItem> = Vec::new();
    let mut i: usize = 0;
    while i < defaults.len()
        invariant
            i <= defaults@.len(),
            v@ == defaults@.subrange(0, i as int),
        decreases defaults@.len() - i,
    {
        v.push(clone_site(&defaults[i]));
        i = i + 1;
    }
    let mut j: usize = 0;
    while j < custom.len()
        invariant
            i == defaults@.len(),
            j <= custom@.len(),
            v@ == defaults@ + custom@.subrange(0, j as int),
        decreases custom@.len() - j,
    {
        v.push(clone_site(&custom[j]));
        j = j + 1;
    }
    assert(custom@.subrange(0, custom@.len() as int) =~= custom@);
    v
}

/// Adds a custom site from the two input fields (trimmed). Both must be non-blank;
/// otherwise nothing is added and false is returned.
pub fn submit_add(custom: &mut Vec<SiteItem>, name: &str, url: &str) -> (added: bool)
    ensures
        added == (trimmed(name@).len() > 0 && trimmed(url@).len() > 0),
        added ==> final(custom)@.len() == old(custom)@.len() + 1
            && final(custom)@.drop_last() == old(custom)@
            && final(custom)@.last().name@ == trimmed(name@)
            && final(custom)@.last().url@ == trimmed(url@),
        !added ==> final(custom)@ == old(custom)@,
{
    let n = trim_str(name);
    let u = trim_str(url);
    if n.is_empty() || u.is_empty() {
        return false;
    }
    custom.push(SiteItem { name: owned(n), url: owned(u) });
    true
}

/// Outcome of submitting a site edit.
#[derive(Debug)]
pub enum EditOutcome {
    /// No site was being edited.
    NoEdit,
    /// A field was blank; nothing changed.
    Invalid,
    /// The index no longer names a custom site; nothing changed.
    Missing,
    /// The site was updated; its former URL is returned (its cached status goes).
    Updated { old_url: String },
}

/// Applies the edit of custom site `idx` (none = not editing) with the trimmed fields.
pub fn submit_edit(custom: &mut Vec<SiteItem>, idx: Option<usize>, name: &str, url: &str) -> (r:
    EditOutcome)
    ensures
        match r {
            EditOutcome::NoEdit => idx is None && final(custom)@ == old(custom)@,
            EditOutcome::Invalid => idx is Some && (trimmed(name@).len() == 0 || trimmed(
                url@,
            ).len() == 0) && final(custom)@ == old(custom)@,
            EditOutcome::Missing => idx matches Some(i) && trimmed(name@).len() > 0 && trimmed(
                url@,
            ).len() > 0 && i >= old(custom)@.len() && final(custom)@ == old(custom)@,
            EditOutcome::Updated { old_url } => idx matches Some(i) && i < old(custom)@.len()
                && trimmed(name@).len() > 0 && trimmed(url@).len() > 0
                && old_url@ == old(custom)@[i as int].url@
                && final(custom)@.len() == old(custom)@.len()
                && final(custom)@[i as int].name@ == trimmed(name@)
                && final(custom)@[i as int].url@ == trimmed(url@)
                && forall|j: int| 0 <= j < old(custom)@.len() && j != i ==> final(custom)@[j]
                    == old(custom)@[j],
        },
{
    let i = match idx {
        None => return EditOutcome::NoEdit,
        Some(i) => i,
    };
    let n = trim_str(name);
    let u = trim_str(url);
    if n.is_empty() || u.is_empty() {
        return EditOutcome::Invalid;
    }
    if i >= custom.len() {
        return EditOutcome::Missing;
    }
    let old_url = custom[i].url.clone();
    custom.set(i, SiteItem { name: owned(n), url: owned(u) });
    EditOutcome::Updated { old_url }
}

/// Removes custom site `idx`, returning it; none (and no change) when out of range.
pub fn delete_site(custom: &mut Vec<SiteItem>, idx: usize) -> (r: Option<SiteItem>)
    ensures
        match r {
            Some(s) => idx < old(custom)@.len() && s == old(custom)@[idx as int]
                && final(custom)@ == old(custom)@.remove(idx as int),
            None => idx >= old(custom)@.len() && final(custom)@ == old(custom)@,
        },
{
    if idx < custom.len() {
        Some(custom.remove(idx))
    } else {
        None
    }
}

/// Probe state of one site.
#[derive(Debug, Clone, Copy)]
pub struct SiteStatus {
    pub testing: bool,
    pub ok: Option<bool>,
    pub ms: u64,
    pub status_code: Option<u16>,
}

/// Whether a click on a site starts a probe: not while one is in flight.
pub fn should_probe(st: &Option<SiteStatus>) -> (b: bool)
    ensures
        b == !(st matches Some(s) && s.testing),
{
    match st {
        Some(s) => !s.testing,
        None => true,
    }
}

/// The state recorded when a probe starts.
pub fn probe_started() -> (r: SiteStatus)
    ensures
        r.testing && r.ok is None && r.ms == 0 && r.status_code is None,
{
    SiteStatus { testing: true, ok: None, ms: 0, status_code: None }
}

/// Tone of a site tile.
#[derive(Debug, Clone, Copy, PartialEq, Eq, Structural)]
pub enum SiteTone {
    Testing,
    Reachable,
    Unreachable,
    Untested,
}

/// Status caption of a site tile: `检测中` while probing; `<ms>ms` (and
/// ` · HTTP <code>` when a status code came back) when reachable; `不可达`
/// when not; `点击检测` before any probe.
pub open spec fn site_caption_spec(st: Option<SiteStatus>) -> (SiteTone, Seq<char>) {
    match st {
        Some(s) => if s.testing {
            (SiteTone::Testing, "检测中"@)
        } else {
            match s.ok {
                Some(true) => (
                    SiteTone::Reachable,
                    decimal(s.ms as nat) + "ms"@ + match s.status_code {
                        Some(c) => " · HTTP "@ + decimal(c as nat),
                        None => Seq::<char>::empty(),
                    },
                ),
                Some(false) => (SiteTone::Unreachable, "不可达"@),
                None => (SiteTone::Untested, "点击检测"@),
            }
        },
        None => (SiteTone::Untested, "点击检测"@),
    }
}

/// The tone and caption of a site tile (see `site_caption_spec`).
pub fn site_caption(st: &Option<SiteStatus>) -> (r: (SiteTone, String))
    ensures
        r.0 == site_caption_spec(*st).0,
        r.1@ == site_caption_spec(*st).1,
{
    match st {
        Some(s) => {
            if s.testing {
                (SiteTone::Testing, owned("检测中"))
            } else {
                match s.ok {
                    Some(true) => {
                        let t = u64_to_string(s.ms);
                        let t = t.concat("ms");
                        match s.status_code {
                            Some(c) => {
                                let t = t.concat(" · HTTP ");
                                let code = u64_to_string(c as u64);
                                (SiteTone::Reachable, t.concat(code.as_str()))
                            },
                            None => {
                                proof {
                                    assert(t@ + Seq::<char>::empty() =~= t@);
                                }
                                (SiteTone::Reachable, t)
                            },
                        }
                    },
                    Some(false) => (SiteTone::Unreachable, owned("不可达")),
                    None => (SiteTone::Untested, owned("点击检测")),
                }
            }
        },
        None => (SiteTone::Untested, owned("点击检测")),
    }
}

/// What `serde_json` reads from a run's final payload: the boolean `ok` and the
/// string `msg` of a JSON object, none when the text is not such an object.
pub uninterp spec fn done_fields(raw: Seq<char>) -> Option<(bool, Seq<char>)>;

/// Parses the final payload with `serde_json::from_str` into a `serde_json::Value`
/// and reads its `ok` (a JSON boolean) and `msg` (a JSON string) members.
#[verifier::external_body]
fn json_done_fields(raw: &str) -> (r: Option<(bool, String)>)
    ensures
        match r {
            Some(f) => done_fields(raw@) == Some((f.0, f.1@)),
            None => done_fields(raw@) is None,
        },
{
    let v: serde_json::Value = serde_json::from_str(raw).ok()?;
    match (v.get("ok"), v.get("msg")) {
        (Some(serde_json::Value::Bool(ok)), Some(serde_json::Value::String(msg))) => Some((*ok, msg.clone())),
        _ => None,
    }
}

/// The final result of a run from its payload `raw` and the fields read from it: the
/// payload's `ok` and `msg` when it holds both, otherwise a success whose message is
/// the payload text itself.
pub fn done_outcome(raw: &str, fields: Option<(bool, String)>) -> (r: ToolEvent)
    ensures
        match fields {
            Some(f) => r matches ToolEvent::Done { ok, msg } && ok == f.0 && msg@ == f.1@,
            None => r matches ToolEvent::Done { ok, msg } && ok && msg@ == raw@,
        },
{
    match fields {
        Some((ok, msg)) => ToolEvent::Done { ok, msg },
        None => ToolEvent::Done { ok: true, msg: owned(raw) },
    }
}

/// Decodes a run's final payload into the final event (see `done_outcome`).
pub fn decode_done(raw: &str) -> (r: ToolEvent)
    ensures
        match done_fields(raw@) {
            Some(f) => r matches ToolEvent::Done { ok, msg } && ok == f.0 && msg@ == f.1,
            None => r matches ToolEvent::Done { ok, msg } && ok && msg@ == raw@,
        },
{
    let fields = json_done_fields(raw);
    done_outcome(raw, fields)
}

/// Automatic site testing: on/off, the generation of the active polling loop, and
/// the polling interval.
pub struct AutoTest {
    pub on: bool,
    pub gen: u64,
    pub interval_ms: u64,
}

impl AutoTest {
    /// Off, generation 0, 5 s interval.
    pub fn new() -> (r: AutoTest)
        ensures
            !r.on,
            r.gen == 0,
            r.interval_ms == 5000,
    {
        AutoTest { on: false, gen: 0, interval_ms: 5000 }
    }

    /// Switches auto testing. A change bumps the generation, which stops any loop
    /// started before; switching on returns the generation of the loop to start.
    pub fn set(&mut self, on: bool) -> (start: Option<u64>)
        requires
            old(self).gen < u64::MAX,
        ensures
            old(self).on == on ==> *final(self) == *old(self) && start is None,
            old(self).on != on ==> {
                &&& final(self).on == on
                &&& final(self).gen == old(self).gen + 1
                &&& final(self).interval_ms == old(self).interval_ms
                &&& start == (if on { Some(final(self).gen) } else { None })
            },
    {
        if self.on == on {
            return None;
        }
        self.on = on;
        self.gen = self.gen + 1;
        if on {
            Some(self.gen)
        } else {
            None
        }
    }

    /// Whether the loop of generation `gen` keeps polling.
    pub fn should_continue(&self, gen: u64) -> (b: bool)
        ensures
            b == (self.on && self.gen == gen),
    {
        self.on && self.gen == gen
    }
}

/// Every switch of auto testing stops all loops started before it: after a change,
/// no earlier generation continues, and a loop started by switching on continues
/// until the next change.
pub proof fn lemma_auto_test_generations(before: AutoTest, after: AutoTest, on: bool, g: u64)
    requires
        before.on != on,
        after.on == on,
        after.gen == before.gen + 1,
        g <= before.gen,
    ensures
        !(after.on && after.gen == g),
        on ==> (after.on && after.gen == before.gen + 1),
{
}

} // verus!
