//! System settings page: the optimisation switches, thread-scheduling policy and
//! NVIDIA power-mode labels, the power-plan decisions of the first load, and the
//! optimistic switch update. Reading and writing the system is the caller's work.

use vstd::prelude::*;
use vstd::utf8::{decode_utf8, is_char_boundary};
use vstd::string::StringSliceAdditionalSpecFns;
use crate::text::{concat2, decimal, u64_to_string};

verus! {

/// Name of the "Ultimate Performance" power plan.
pub open spec fn ultimate_name() -> Seq<char> {
    "卓越性能"@
}

/// A switchable system setting.
#[derive(Debug, Clone, Copy, PartialEq, Eq, Structural)]
pub enum ToggleKind {
    Hags,
    GameMode,
    GameOptimization,
    Vrr,
    MousePrecision,
    Hpt,
}

pub open spec fn all_toggles_spec() -> Seq<ToggleKind> {
    seq![
        ToggleKind::Hags,
        ToggleKind::GameMode,
        ToggleKind::GameOptimization,
        ToggleKind::Vrr,
        ToggleKind::MousePrecision,
        ToggleKind::Hpt,
    ]
}

impl ToggleKind {
    /// The switches in display order (gaming ones first, the timer switch last).
    pub fn all() -> (v: Vec<ToggleKind>)
        ensures
            v@ == all_toggles_spec(),
    {
        let v = vec![
            ToggleKind::Hags,
            ToggleKind::GameMode,
            ToggleKind::GameOptimization,
            ToggleKind::Vrr,
            ToggleKind::MousePrecision,
            ToggleKind::Hpt,
        ];
        assert(v@ == all_toggles_spec());
        v
    }

    pub open spec fn label_spec(self) -> Seq<char> {
        match self {
            ToggleKind::Hags => "GPU 硬件加速调度 (HAGS)"@,
            ToggleKind::GameMode => "游戏模式"@,
            ToggleKind::GameOptimization => "窗口化游戏优化"@,
            ToggleKind::Vrr => "可变刷新率 (VRR)"@,
            ToggleKind::MousePrecision => "鼠标精准度（增强指针精确度）"@,
            ToggleKind::Hpt => "关闭高精度计时器"@,
        }
    }

    /// Switch title.
    pub fn label(self) -> (r: &'static str)
        ensures
            r@ == self.label_spec(),
    {
        match self {
            ToggleKind::Hags => "GPU 硬件加速调度 (HAGS)",
            ToggleKind::GameMode => "游戏模式",
            ToggleKind::GameOptimization => "窗口化游戏优化",
            ToggleKind::Vrr => "可变刷新率 (VRR)",
            ToggleKind::MousePrecision => "鼠标精准度（增强指针精确度）",
            ToggleKind::Hpt => "关闭高精度计时器",
        }
    }

    pub open spec fn description_spec(self) -> Seq<char> {
        match self {
            ToggleKind::Hags => "使用 GPU 调度器管理显存，降低渲染延迟"@,
            ToggleKind::GameMode => "通过在后台关闭内容来优化电脑玩游戏"@,
            ToggleKind::GameOptimization => "提升窗口化 / 无边框游戏流畅度"@,
            ToggleKind::Vrr => "显示器动态刷新率，消除画面撕裂"@,
            ToggleKind::MousePrecision => "提高指针精确度（鼠标加速），FPS 玩家通常关闭"@,
            ToggleKind::Hpt => "降低计时器中断频率，减少 CPU 占用（需重启生效）"@,
        }
    }

    /// What the switch does.
    pub fn description(self) -> (r: &'static str)
        ensures
            r@ == self.description_spec(),
    {
        match self {
            ToggleKind::Hags => "使用 GPU 调度器管理显存，降低渲染延迟",
            ToggleKind::GameMode => "通过在后台关闭内容来优化电脑玩游戏",
            ToggleKind::GameOptimization => "提升窗口化 / 无边框游戏流畅度",
            ToggleKind::Vrr => "显示器动态刷新率，消除画面撕裂",
            ToggleKind::MousePrecision => "提高指针精确度（鼠标加速），FPS 玩家通常关闭",
            ToggleKind::Hpt => "降低计时器中断频率，减少 CPU 占用（需重启生效）",
        }
    }

    pub open spec fn dom_id_spec(self) -> Seq<char> {
        match self {
            ToggleKind::Hags => "toggle-hags"@,
            ToggleKind::GameMode => "toggle-gamemode"@,
            ToggleKind::GameOptimization => "toggle-gameopt"@,
            ToggleKind::Vrr => "toggle-vrr"@,
            ToggleKind::MousePrecision => "toggle-mouseprec"@,
            ToggleKind::Hpt => "toggle-hpt"@,
        }
    }

    /// Element id of the switch control.
    pub fn dom_id(self) -> (r: &'static str)
        ensures
            r@ == self.dom_id_spec(),
    {
        match self {
            ToggleKind::Hags => "toggle-hags",
            ToggleKind::GameMode => "toggle-gamemode",
            ToggleKind::GameOptimization => "toggle-gameopt",
            ToggleKind::Vrr => "toggle-vrr",
            ToggleKind::MousePrecision => "toggle-mouseprec",
            ToggleKind::Hpt => "toggle-hpt",
        }
    }
}

/// Switch element ids are unique, so each switch can be addressed on its own.
pub proof fn lemma_dom_ids_distinct(a: ToggleKind, b: ToggleKind)
    requires
        a != b,
    ensures
        a.dom_id_spec() != b.dom_id_spec(),
{
    reveal_strlit("toggle-hags");
    reveal_strlit("toggle-gamemode");
    reveal_strlit("toggle-gameopt");
    reveal_strlit("toggle-vrr");
    reveal_strlit("toggle-mouseprec");
    reveal_strlit("toggle-hpt");
    let x = a.dom_id_spec();
    let y = b.dom_id_spec();
    if x == y {
        assert(x.len() == y.len());
        assert(x[7] == y[7]);
        assert(x[11] == y[11]);
    }
}

/// State of a switch as read from the system.
#[derive(Debug)]
pub struct SettingState {
    pub enabled: bool,
    pub message: String,
}

/// Optimistic update of a clicked switch: the first entry of `kind` is shown inverted
/// until the system's answer arrives; other entries are untouched.
pub fn flip_optimistic(
    toggles: &mut Vec<(ToggleKind, SettingState)>,
    kind: ToggleKind,
) -> (flipped: Option<usize>)
    ensures
        final(toggles)@.len() == old(toggles)@.len(),
        match flipped {
            Some(i) => {
                &&& i < old(toggles)@.len()
                &&& old(toggles)@[i as int].0 == kind
                &&& forall|j: int| 0 <= j < i ==> old(toggles)@[j].0 != kind
                &&& final(toggles)@[i as int].0 == kind
                &&& final(toggles)@[i as int].1.enabled == !old(toggles)@[i as int].1.enabled
                &&& final(toggles)@[i as int].1.message == old(toggles)@[i as int].1.message
                &&& forall|j: int| 0 <= j < old(toggles)@.len() && j != i ==> final(toggles)@[j]
                    == old(toggles)@[j]
            },
            None => {
                &&& forall|j: int| 0 <= j < old(toggles)@.len() ==> old(toggles)@[j].0 != kind
                &&& final(toggles)@ == old(toggles)@
            },
        },
{
    let mut i: usize = 0;
    while i < toggles.len()
        invariant
            i <= toggles@.len(),
            toggles@ == old(toggles)@,
            forall|j: int| 0 <= j < i ==> toggles@[j].0 != kind,
        decreases toggles@.len() - i,
    {
        if toggles[i].0 == kind {
            let enabled = toggles[i].1.enabled;
            let message = toggles[i].1.message.clone();
            toggles.set(i, (kind, SettingState { enabled: !enabled, message }));
            return Some(i);
        }
        i = i + 1;
    }
    None
}

/// Thread-scheduling policy values and their names.
pub open spec fn hetero_label_spec(value: u32) -> Seq<char> {
    if value == 0 {
        "所有处理器"@
    } else if value == 1 {
        "高性能处理器"@
    } else if value == 2 {
        "首选高性能处理器"@
    } else if value == 3 {
        "高效处理器"@
    } else if value == 4 {
        "首选高效处理器"@
    } else {
        "自动"@
    }
}

/// Name of a scheduling policy value (0-5; anything else reads `自动`).
pub fn hetero_label(value: u32) -> (r: &'static str)
    ensures
        r@ == hetero_label_spec(value),
{
    match value {
        0 => "所有处理器",
        1 => "高性能处理器",
        2 => "首选高性能处理器",
        3 => "高效处理器",
        4 => "首选高效处理器",
        _ => "自动",
    }
}

pub open spec fn hetero_kind_label_spec(kind: Seq<char>, scope: Seq<char>) -> Seq<char> {
    if kind == "short"@ {
        if scope == "ac"@ { "短运行线程调度策略（AC）"@ } else { "短运行线程调度策略（DC）"@ }
    } else {
        if scope == "ac"@ { "线程调度策略（AC）"@ } else { "线程调度策略（DC）"@ }
    }
}

/// Title of a scheduling setting: policy kind (`short` or the thread policy) and
/// power scope (`ac`, anything else is DC).
pub fn hetero_kind_label(kind: &str, scope: &str) -> (r: &'static str)
    ensures
        r@ == hetero_kind_label_spec(kind@, scope@),
{
    let short = String::from_str("short");
    let ac = String::from_str("ac");
    let k = String::from_str(kind);
    let s = String::from_str(scope);
    if k == short {
        if s == ac {
            "短运行线程调度策略（AC）"
        } else {
            "短运行线程调度策略（DC）"
        }
    } else {
        if s == ac {
            "线程调度策略（AC）"
        } else {
            "线程调度策略（DC）"
        }
    }
}

/// Status after a scheduling policy was written: `<title>已设为「<value name>」`.
pub fn hetero_done_text(kind: &str, scope: &str, value: u32) -> (r: String)
    ensures
        r@ == hetero_kind_label_spec(kind@, scope@) + "已设为「"@ + hetero_label_spec(value)
            + "」"@,
{
    let r = concat2(hetero_kind_label(kind, scope), "已设为「");
    let r = r.concat(hetero_label(value));
    r.concat("」")
}

pub open spec fn absent_policies_spec(thread_present: bool, short_present: bool) -> Seq<char> {
    if !thread_present && short_present {
        "异类线程调度策略"@
    } else if thread_present && !short_present {
        "异类短运行线程调度策略"@
    } else {
        "异类线程/短运行线程调度策略"@
    }
}

/// Notice shown when the active power plan lacks a scheduling setting: none when
/// both are present, otherwise it names the missing one(s) and says the first write
/// injects it.
pub fn hetero_absent_notice(thread_present: bool, short_present: bool) -> (r: Option<String>)
    ensures
        (thread_present && short_present) ==> r is None,
        !(thread_present && short_present) ==> (r matches Some(t) && t@ == "当前电源计划未包含"@
            + absent_policies_spec(thread_present, short_present)
            + "设置项，首次配置时将自动注入当前电源计划（需管理员权限）"@),
{
    if thread_present && short_present {
        return None;
    }
    let absent = if !thread_present && short_present {
        "异类线程调度策略"
    } else if thread_present && !short_present {
        "异类短运行线程调度策略"
    } else {
        "异类线程/短运行线程调度策略"
    };
    let t = concat2("当前电源计划未包含", absent);
    Some(t.concat("设置项，首次配置时将自动注入当前电源计划（需管理员权限）"))
}

/// NVIDIA power management modes.
#[derive(Debug, Clone, Copy, PartialEq, Eq, Structural)]
pub enum NvidiaPowerMode {
    Adaptive,
    MaxPerformance,
    Optimal,
}

pub open spec fn nvidia_label_spec(mode: NvidiaPowerMode) -> Seq<char> {
    match mode {
        NvidiaPowerMode::Optimal => "最佳功率"@,
        NvidiaPowerMode::MaxPerformance => "最高性能优先"@,
        NvidiaPowerMode::Adaptive => "自适应"@,
    }
}

/// Name of an NVIDIA power mode.
pub fn nvidia_label(mode: NvidiaPowerMode) -> (r: &'static str)
    ensures
        r@ == nvidia_label_spec(mode),
{
    match mode {
        NvidiaPowerMode::Optimal => "最佳功率",
        NvidiaPowerMode::MaxPerformance => "最高性能优先",
        NvidiaPowerMode::Adaptive => "自适应",
    }
}

/// The modes in display order.
pub fn nvidia_choices() -> (v: Vec<NvidiaPowerMode>)
    ensures
        v@ == seq![NvidiaPowerMode::Optimal, NvidiaPowerMode::MaxPerformance, NvidiaPowerMode::Adaptive],
{
    let v = vec![NvidiaPowerMode::Optimal, NvidiaPowerMode::MaxPerformance, NvidiaPowerMode::Adaptive];
    assert(v@ == seq![NvidiaPowerMode::Optimal, NvidiaPowerMode::MaxPerformance, NvidiaPowerMode::Adaptive]);
    v
}

/// The system write in progress (one at a time).
#[derive(Debug, Clone, Copy, PartialEq, Eq, Structural)]
pub enum BusyOp {
    Idle,
    Toggle(ToggleKind),
    PlanActivate,
    PlanDelete,
    ImportUltimate,
    AutoUltimate,
    Hetero,
    Nvidia,
}

/// Starts the system write `op`: refused (false, nothing changes) while another
/// write is in progress; otherwise `op` becomes the write in progress.
pub fn begin_write(busy: &mut BusyOp, op: BusyOp) -> (started: bool)
    ensures
        started == (*old(busy) == BusyOp::Idle),
        started ==> *final(busy) == op,
        !started ==> *final(busy) == *old(busy),
{
    if *busy != BusyOp::Idle {
        return false;
    }
    *busy = op;
    true
}

/// Index of the first entry of switch `kind`, if any.
pub open spec fn first_of(toggles: Seq<(ToggleKind, SettingState)>, kind: ToggleKind) -> Option<int> {
    if exists|i: int| 0 <= i < toggles.len() && toggles[i].0 == kind {
        Some(
            choose|i: int|
                0 <= i < toggles.len() && toggles[i].0 == kind && forall|j: int|
                    0 <= j < i ==> toggles[j].0 != kind,
        )
    } else {
        None
    }
}

/// The switch list with the first entry of `kind` shown inverted (message kept);
/// unchanged when the list has no such entry.
pub open spec fn flipped_spec(toggles: Seq<(ToggleKind, SettingState)>, kind: ToggleKind) -> Seq<
    (ToggleKind, SettingState),
> {
    match first_of(toggles, kind) {
        Some(i) => toggles.update(
            i,
            (kind, SettingState { enabled: !toggles[i].1.enabled, message: toggles[i].1.message }),
        ),
        None => toggles,
    }
}

/// A click on switch `kind`: refused while any system write is in progress (nothing
/// changes); otherwise the switch write starts and the switch is shown inverted
/// until the system's answer arrives.
pub fn begin_toggle(
    busy: &mut BusyOp,
    toggles: &mut Vec<(ToggleKind, SettingState)>,
    kind: ToggleKind,
) -> (started: bool)
    ensures
        started == (*old(busy) == BusyOp::Idle),
        !started ==> *final(busy) == *old(busy) && final(toggles)@ == old(toggles)@,
        started ==> *final(busy) == BusyOp::Toggle(kind) && final(toggles)@ == flipped_spec(
            old(toggles)@,
            kind,
        ),
{
    if !begin_write(busy, BusyOp::Toggle(kind)) {
        return false;
    }
    let ghost t0 = toggles@;
    let flipped = flip_optimistic(toggles, kind);
    proof {
        match flipped {
            Some(i) => {
                let k = choose|k: int|
                    0 <= k < t0.len() && t0[k].0 == kind && forall|j: int|
                        0 <= j < k ==> t0[j].0 != kind;
                assert(t0[i as int].0 == kind);
                assert(k == i as int) by {
                    if k < i {
                    } else if k > i {
                        assert(t0[i as int].0 == kind);
                    }
                }
                assert(toggles@ =~= flipped_spec(t0, kind));
            },
            None => {},
        }
    }
    true
}

/// Whether switching the NVIDIA mode to `mode` starts a write: nothing else may be
/// in progress and the mode must differ from the current one.
pub fn nvidia_switch_needed(busy: BusyOp, current: Option<NvidiaPowerMode>, mode: NvidiaPowerMode) -> (b: bool)
    ensures
        b == (busy == BusyOp::Idle && current != Some(mode)),
{
    if busy != BusyOp::Idle {
        return false;
    }
    match current {
        Some(m) => m != mode,
        None => true,
    }
}

/// A power plan as listed by the system.
#[derive(Debug)]
pub struct PowerPlan {
    pub guid: String,
    pub name: String,
    pub is_active: bool,
}

/// What the first load does about the Ultimate Performance plan.
#[derive(Debug)]
pub enum UltimateAction {
    /// Already handled, or the plan list is empty: nothing to do.
    Skip,
    /// Handled now; the plan exists and is active.
    Nothing,
    /// The plan is missing: import (and activate) it.
    Import,
    /// The plan exists but is inactive: activate this guid.
    Activate(String),
}

/// Index of the first plan named `name`, if any.
pub open spec fn first_named(plans: Seq<PowerPlan>, name: Seq<char>) -> Option<int> {
    if exists|i: int| 0 <= i < plans.len() && plans[i].name@ == name {
        Some(
            choose|i: int|
                0 <= i < plans.len() && plans[i].name@ == name && forall|j: int|
                    0 <= j < i ==> plans[j].name@ != name,
        )
    } else {
        None
    }
}

fn find_named(plans: &Vec<PowerPlan>, name: &str) -> (r: Option<usize>)
    ensures
        match r {
            Some(i) => i < plans@.len() && plans@[i as int].name@ == name@ && forall|j: int|
                0 <= j < i ==> plans@[j].name@ != name@,
            None => forall|j: int| 0 <= j < plans@.len() ==> plans@[j].name@ != name@,
        },
{
    let target = String::from_str(name);
    let mut i: usize = 0;
    while i < plans.len()
        invariant
            i <= plans@.len(),
            target@ == name@,
            forall|j: int| 0 <= j < i ==> plans@[j].name@ != name@,
        decreases plans@.len() - i,
    {
        if plans[i].name == target {
            return Some(i);
        }
        i = i + 1;
    }
    None
}

/// First-load decision about the Ultimate Performance plan. It runs once: when it
/// acts, `done` becomes true so a later manual switch is not undone.
pub fn ultimate_action(done: &mut bool, plans: &Vec<PowerPlan>) -> (r: UltimateAction)
    ensures
        (*old(done) || plans@.len() == 0) ==> (r is Skip && *final(done) == *old(done)),
        !(*old(done) || plans@.len() == 0) ==> {
            &&& *final(done)
            &&& match r {
                UltimateAction::Import => forall|j: int| 0 <= j < plans@.len() ==> plans@[j].name@
                    != ultimate_name(),
                UltimateAction::Activate(guid) => exists|i: int|
                    0 <= i < plans@.len() && plans@[i].name@ == ultimate_name() && !plans@[i].is_active
                        && guid@ == plans@[i].guid@ && forall|j: int| 0 <= j < i ==> plans@[j].name@
                        != ultimate_name(),
                UltimateAction::Nothing => exists|i: int|
                    0 <= i < plans@.len() && plans@[i].name@ == ultimate_name() && plans@[i].is_active
                        && forall|j: int| 0 <= j < i ==> plans@[j].name@ != ultimate_name(),
                UltimateAction::Skip => false,
            }
        },
{
    if *done || plans.len() == 0 {
        return UltimateAction::Skip;
    }
    *done = true;
    match find_named(plans, "卓越性能") {
        None => UltimateAction::Import,
        Some(i) => {
            if !plans[i].is_active {
                UltimateAction::Activate(plans[i].guid.clone())
            } else {
                UltimateAction::Nothing
            }
        },
    }
}

/// The byte length `guid` is cut to when a plan is named by its id: at most 8.
pub open spec fn guid_cut(guid: &str) -> int {
    let n = guid.len();
    if n < 8 { n as int } else { 8 }
}

/// Display name of plan `guid`: the listed plan's name, or `计划 ` and the first
/// eight bytes of the id. The id must not split a character at byte eight.
pub fn plan_display_name(plans: &Vec<PowerPlan>, guid: &str) -> (r: String)
    requires
        is_char_boundary(guid.spec_bytes(), guid_cut(guid)),
    ensures
        (exists|i: int| 0 <= i < plans@.len() && plans@[i].guid@ == guid@) ==> exists|i: int|
            0 <= i < plans@.len() && plans@[i].guid@ == guid@ && r@ == plans@[i].name@ && forall|
                j: int,
            | 0 <= j < i ==> plans@[j].guid@ != guid@,
        (forall|i: int| 0 <= i < plans@.len() ==> plans@[i].guid@ != guid@) ==> r@ == "计划 "@
            + decode_utf8(guid.spec_bytes().subrange(0, guid_cut(guid))),
{
    let target = String::from_str(guid);
    let mut i: usize = 0;
    while i < plans.len()
        invariant
            i <= plans@.len(),
            target@ == guid@,
            forall|j: int| 0 <= j < i ==> plans@[j].guid@ != guid@,
        decreases plans@.len() - i,
    {
        if plans[i].guid == target {
            return plans[i].name.clone();
        }
        i = i + 1;
    }
    let n = guid.len();
    let cut = if n < 8 { n } else { 8 };
    let (head, _) = guid.split_at(cut);
    proof {
        vstd::utf8::encode_utf8_decode_utf8(head@);
    }
    concat2("计划 ", head)
}

/// Toast after a switch write: `已开启「<title>」` or `已关闭「<title>」`.
pub fn toggle_done_text(kind: ToggleKind, enabled: bool) -> (r: String)
    ensures
        r@ == "已"@ + (if enabled { "开启"@ } else { "关闭"@ }) + "「"@ + kind.label_spec() + "」"@,
{
    let r = String::from_str("已");
    let r = r.concat(if enabled { "开启" } else { "关闭" });
    let r = r.concat("「");
    let r = r.concat(kind.label());
    r.concat("」")
}

} // verus!
