//! Services page: keyword search over the service list, the start-type choices,
//! and the one-write-at-a-time rule that decides which row controls are enabled.

use vstd::prelude::*;
use crate::text::{concat2, has_sub, lowercase_of, to_lowercase, contains_str};

verus! {

/// A Windows service as listed.
#[derive(Debug)]
pub struct ServiceInfo {
    pub name: String,
    pub display_name: String,
    pub status: String,
    pub start_type: String,
}

fn clone_service(s: &ServiceInfo) -> (r: ServiceInfo)
    ensures
        r == *s,
{
    ServiceInfo {
        name: s.name.clone(),
        display_name: s.display_name.clone(),
        status: s.status.clone(),
        start_type: s.start_type.clone(),
    }
}

/// A write on a service.
#[derive(Debug, Clone, Copy, PartialEq, Eq, Structural)]
pub enum ServiceOp {
    Start,
    Stop,
    ToggleAuto,
    ToggleManual,
    ToggleDisable,
}

impl ServiceOp {
    pub open spec fn label_spec(self) -> Seq<char> {
        match self {
            ServiceOp::Start => "启动"@,
            ServiceOp::Stop => "停止"@,
            ServiceOp::ToggleAuto => "设为自动"@,
            ServiceOp::ToggleManual => "设为手动"@,
            ServiceOp::ToggleDisable => "禁用"@,
        }
    }

    /// Verb shown for the write.
    pub fn label(self) -> (r: &'static str)
        ensures
            r@ == self.label_spec(),
    {
        match self {
            ServiceOp::Start => "启动",
            ServiceOp::Stop => "停止",
            ServiceOp::ToggleAuto => "设为自动",
            ServiceOp::ToggleManual => "设为手动",
            ServiceOp::ToggleDisable => "禁用",
        }
    }

    pub open spec fn is_start_type_spec(self) -> bool {
        self == ServiceOp::ToggleAuto || self == ServiceOp::ToggleManual || self
            == ServiceOp::ToggleDisable
    }

    pub open spec fn start_type_arg_spec(self) -> Option<Seq<char>> {
        match self {
            ServiceOp::ToggleAuto => Some("auto"@),
            ServiceOp::ToggleManual => Some("manual"@),
            ServiceOp::ToggleDisable => Some("disabled"@),
            _ => None,
        }
    }

    /// The start-type value a start-type write sends; none for start and stop.
    pub fn start_type_arg(self) -> (r: Option<&'static str>)
        ensures
            match r {
                Some(v) => self.start_type_arg_spec() == Some(v@),
                None => self.start_type_arg_spec() is None,
            },
    {
        match self {
            ServiceOp::ToggleAuto => Some("auto"),
            ServiceOp::ToggleManual => Some("manual"),
            ServiceOp::ToggleDisable => Some("disabled"),
            _ => None,
        }
    }
}

pub open spec fn start_type_value_spec(text: Seq<char>) -> Option<Seq<char>> {
    if text == "自动"@ {
        Some("auto"@)
    } else if text == "手动"@ {
        Some("manual"@)
    } else if text == "已禁用"@ || text == "禁用"@ {
        Some("disabled"@)
    } else {
        None
    }
}

/// The start-type value of a displayed start type (none when not recognised).
pub fn start_type_value(start_type: &str) -> (r: Option<&'static str>)
    ensures
        match r {
            Some(v) => start_type_value_spec(start_type@) == Some(v@),
            None => start_type_value_spec(start_type@) is None,
        },
{
    let t = String::from_str(start_type);
    if t == String::from_str("自动") {
        Some("auto")
    } else if t == String::from_str("手动") {
        Some("manual")
    } else if t == String::from_str("已禁用") || t == String::from_str("禁用") {
        Some("disabled")
    } else {
        None
    }
}

/// The start-type choices in button order, as (value, caption).
pub fn start_type_choices() -> (v: Vec<(&'static str, &'static str)>)
    ensures
        v@.len() == 3,
        v@[0].0@ == "auto"@ && v@[0].1@ == "自动"@,
        v@[1].0@ == "manual"@ && v@[1].1@ == "手动"@,
        v@[2].0@ == "disabled"@ && v@[2].1@ == "禁用"@,
{
    vec![("auto", "自动"), ("manual", "手动"), ("disabled", "禁用")]
}

/// The write a start-type button issues: `auto`, `manual`, anything else disables.
pub fn op_for_choice(value: &str) -> (op: ServiceOp)
    ensures
        op == (if value@ == "auto"@ {
            ServiceOp::ToggleAuto
        } else if value@ == "manual"@ {
            ServiceOp::ToggleManual
        } else {
            ServiceOp::ToggleDisable
        }),
{
    let v = String::from_str(value);
    if v == String::from_str("auto") {
        ServiceOp::ToggleAuto
    } else if v == String::from_str("manual") {
        ServiceOp::ToggleManual
    } else {
        ServiceOp::ToggleDisable
    }
}

/// A service matches a keyword when the keyword is empty or, lowercased, occurs in
/// the lowercased name or display name.
pub open spec fn service_matches(s: ServiceInfo, keyword: Seq<char>) -> bool {
    keyword.len() == 0 || has_sub(lowercase_of(s.name@), lowercase_of(keyword)) || has_sub(
        lowercase_of(s.display_name@),
        lowercase_of(keyword),
    )
}

/// The services shown for a search keyword, in list order.
pub fn filter_services(services: &Vec<ServiceInfo>, keyword: &str) -> (v: Vec<ServiceInfo>)
    ensures
        v@ == services@.filter(|s: ServiceInfo| service_matches(s, keyword@)),
{
    let kw = to_lowercase(keyword);
    let empty = keyword.is_empty();
    let mut v: Vec<ServiceInfo> = Vec::new();
    let mut i: usize = 0;
    while i < services.len()
        invariant
            i <= services@.len(),
            kw@ == lowercase_of(keyword@),
            empty == (keyword@.len() == 0),
            v@ == services@.subrange(0, i as int).filter(
                |s: ServiceInfo| service_matches(s, keyword@),
            ),
        decreases services@.len() - i,
    {
        let s = &services[i];
        proof {
            assert(services@.subrange(0, i as int + 1).drop_last() =~= services@.subrange(
                0,
                i as int,
            ));
            reveal_with_fuel(Seq::<_>::filter, 1);
        }
        let keep = empty || contains_str(to_lowercase(s.name.as_str()).as_str(), kw.as_str())
            || contains_str(to_lowercase(s.display_name.as_str()).as_str(), kw.as_str());
        if keep {
            v.push(clone_service(s));
        }
        i = i + 1;
    }
    assert(services@.subrange(0, services@.len() as int) =~= services@);
    v
}

/// The service search finds a service by its name and by its display name, case
/// folded: a service whose folded name or folded display name contains the folded
/// keyword is listed, any service is listed for an empty keyword, and nothing else is
/// listed. The order of the list is kept.
pub proof fn lemma_service_search(services: Seq<ServiceInfo>, keyword: Seq<char>, i: int)
    requires
        0 <= i < services.len(),
    ensures
        ({
            let found = services.filter(|s: ServiceInfo| service_matches(s, keyword));
            &&& has_sub(lowercase_of(services[i].name@), lowercase_of(keyword)) ==> found.contains(
                services[i],
            )
            &&& has_sub(lowercase_of(services[i].display_name@), lowercase_of(keyword))
                ==> found.contains(services[i])
            &&& keyword.len() == 0 ==> found.contains(services[i])
            &&& forall|s: ServiceInfo| #[trigger] found.contains(s) ==> services.contains(s) && (
                keyword.len() == 0 || has_sub(lowercase_of(s.name@), lowercase_of(keyword))
                    || has_sub(lowercase_of(s.display_name@), lowercase_of(keyword)))
            &&& found.len() <= services.len()
        }),
{
    let pred = |s: ServiceInfo| service_matches(s, keyword);
    let found = services.filter(pred);
    services.lemma_filter_len(pred);
    if pred(services[i]) {
        services.lemma_filter_contains(pred, i);
    }
    assert forall|s: ServiceInfo| #[trigger] found.contains(s) implies services.contains(s) && (
    keyword.len() == 0 || has_sub(lowercase_of(s.name@), lowercase_of(keyword)) || has_sub(
        lowercase_of(s.display_name@),
        lowercase_of(keyword),
    )) by {
        services.lemma_filter_contains_rev(pred, s);
    }
}

/// The write in progress, if any: which operation on which service.
pub struct ServiceBusy {
    pub current: Option<(ServiceOp, String)>,
}

impl ServiceBusy {
    /// Whether any write is in progress (only one at a time).
    pub fn any_busy(&self) -> (b: bool)
        ensures
            b == self.current is Some,
    {
        self.current.is_some()
    }

    /// Whether the write in progress concerns service `name`.
    pub fn row_busy(&self, name: &str) -> (b: bool)
        ensures
            b == (self.current matches Some(c) && c.1@ == name@),
    {
        match &self.current {
            Some(c) => c.1 == String::from_str(name),
            None => false,
        }
    }

    /// Whether a start-type write on service `name` is in progress.
    pub fn type_busy(&self, name: &str) -> (b: bool)
        ensures
            b == (self.current matches Some(c) && c.1@ == name@ && c.0.is_start_type_spec()),
    {
        match &self.current {
            Some(c) => c.1 == String::from_str(name) && (c.0 == ServiceOp::ToggleAuto || c.0
                == ServiceOp::ToggleManual || c.0 == ServiceOp::ToggleDisable),
            None => false,
        }
    }

    /// Starts `op` on `name` when nothing is in progress, returning the status line
    /// `正在<op> <name>…`; refused (none, unchanged) otherwise.
    pub fn begin(&mut self, name: &str, op: ServiceOp) -> (status: Option<String>)
        ensures
            old(self).current is Some ==> status is None && final(self).current == old(
                self,
            ).current,
            old(self).current is None ==> (final(self).current matches Some(c) && c.0 == op
                && c.1@ == name@) && (status matches Some(s) && s@ == "正在"@ + op.label_spec()
                + " "@ + name@ + "…"@),
    {
        if self.current.is_some() {
            return None;
        }
        self.current = Some((op, String::from_str(name)));
        let s = concat2("正在", op.label());
        let s = s.concat(" ");
        let s = s.concat(name);
        Some(s.concat("…"))
    }

    /// The write finished: the busy slot is released.
    pub fn finish(&mut self)
        ensures
            final(self).current is None,
    {
        self.current = None;
    }
}

/// Enabled state of one service row's controls.
pub struct RowControls {
    /// The service runs (the row offers stop, otherwise start).
    pub running: bool,
    /// Start/stop is disabled.
    pub action_disabled: bool,
    /// The start-type value currently set, if recognised.
    pub current_type: Option<&'static str>,
    /// The start-type buttons are disabled.
    pub type_disabled: bool,
}

/// Controls of a row: start/stop is disabled while any write runs; the start-type
/// buttons too, and the current start type is highlighted.
pub fn row_controls(s: &ServiceInfo, busy: &ServiceBusy) -> (r: RowControls)
    ensures
        r.running == (s.status@ == "Running"@),
        r.action_disabled == (busy.current is Some),
        r.type_disabled == (busy.current is Some),
        match r.current_type {
            Some(v) => start_type_value_spec(s.start_type@) == Some(v@),
            None => start_type_value_spec(s.start_type@) is None,
        },
{
    let running = s.status == String::from_str("Running");
    let row_busy = busy.row_busy(s.name.as_str());
    let any_busy = busy.any_busy();
    let type_busy = busy.type_busy(s.name.as_str());
    RowControls {
        running,
        action_disabled: row_busy || any_busy,
        current_type: start_type_value(s.start_type.as_str()),
        type_disabled: type_busy || any_busy,
    }
}

/// Toast after a write: success `服务 <name><op>`, failure `<op>服务 <name> 失败：<error>`.
pub fn op_result_toast(name: &str, op: ServiceOp, result: &Result<String, String>) -> (r: String)
    ensures
        match result {
            Ok(_) => r@ == "服务 "@ + name@ + op.label_spec(),
            Err(e) => r@ == op.label_spec() + "服务 "@ + name@ + " 失败："@ + e@,
        },
{
    match result {
        Ok(_) => {
            let r = concat2("服务 ", name);
            r.concat(op.label())
        },
        Err(e) => {
            let r = concat2(op.label(), "服务 ");
            let r = r.concat(name);
            let r = r.concat(" 失败：");
            r.concat(e.as_str())
        },
    }
}

} // verus!
