//! Environment page: check-status symbols and the one-click game presets — which
//! settings a preset changes and in which direction, which power plan it picks, and
//! the summary shown afterwards. Writing the settings is the caller's work.

use vstd::prelude::*;
use crate::text::{concat2, contains_str, decimal, has_sub, u64_to_string, views};

verus! {

/// Result of one environment check.
#[derive(Debug, Clone, Copy, PartialEq, Eq, Structural)]
pub enum CheckStatus {
    Pass,
    Warn,
    Fail,
    Info,
}

pub open spec fn check_icon_spec(s: CheckStatus) -> Seq<char> {
    match s {
        CheckStatus::Pass => "✓"@,
        CheckStatus::Warn => "⚠"@,
        CheckStatus::Fail => "✗"@,
        CheckStatus::Info => "ℹ"@,
    }
}

/// Symbol shown before a check.
pub fn check_icon(status: CheckStatus) -> (r: &'static str)
    ensures
        r@ == check_icon_spec(status),
{
    match status {
        CheckStatus::Pass => "✓",
        CheckStatus::Warn => "⚠",
        CheckStatus::Fail => "✗",
        CheckStatus::Info => "ℹ",
    }
}

/// One setting of a game preset: its switch key (empty for check-only rows), caption,
/// recommended value and whether it already meets the recommendation.
#[derive(Debug)]
pub struct PresetSetting {
    pub key: String,
    pub label: String,
    pub recommended: String,
    pub ok: bool,
}

/// A game preset.
#[derive(Debug)]
pub struct GamePreset {
    pub name: String,
    pub settings: Vec<PresetSetting>,
}

/// The recommendation asks for the feature on (or a high-performance plan).
pub open spec fn recommended_on_spec(rec: Seq<char>) -> bool {
    has_sub(rec, "开启"@) || has_sub(rec, "高性能"@) || has_sub(rec, "卓越性能"@)
}

/// Whether the recommendation asks for the feature on.
pub fn recommended_on(rec: &str) -> (b: bool)
    ensures
        b == recommended_on_spec(rec@),
{
    contains_str(rec, "开启") || contains_str(rec, "高性能") || contains_str(rec, "卓越性能")
}

/// A write a preset performs.
#[derive(Debug)]
pub enum PresetAction {
    Hags(bool),
    GameMode(bool),
    Vrr(bool),
    MousePrecision(bool),
    /// Activate the plan matching this recommendation.
    PowerPlan(String),
    /// A key with no writer: counted as applied.
    Nothing,
}

/// Mathematical form of a preset write.
pub enum ActionView {
    Hags(bool),
    GameMode(bool),
    Vrr(bool),
    MousePrecision(bool),
    PowerPlan(Seq<char>),
    Nothing,
}

impl View for PresetAction {
    type V = ActionView;

    open spec fn view(&self) -> ActionView {
        match self {
            PresetAction::Hags(b) => ActionView::Hags(*b),
            PresetAction::GameMode(b) => ActionView::GameMode(*b),
            PresetAction::Vrr(b) => ActionView::Vrr(*b),
            PresetAction::MousePrecision(b) => ActionView::MousePrecision(*b),
            PresetAction::PowerPlan(r) => ActionView::PowerPlan(r@),
            PresetAction::Nothing => ActionView::Nothing,
        }
    }
}

/// The write for a setting that needs one.
pub open spec fn action_spec(s: PresetSetting) -> ActionView {
    let on = recommended_on_spec(s.recommended@);
    if s.key@ == "hags"@ {
        ActionView::Hags(on)
    } else if s.key@ == "game_mode"@ {
        ActionView::GameMode(on)
    } else if s.key@ == "vrr"@ {
        ActionView::Vrr(on)
    } else if s.key@ == "mouse_precision"@ {
        ActionView::MousePrecision(on)
    } else if s.key@ == "power_plan"@ {
        ActionView::PowerPlan(s.recommended@)
    } else {
        ActionView::Nothing
    }
}

/// A setting needs a write: it has a switch key and does not meet the recommendation.
pub open spec fn needs_write(s: PresetSetting) -> bool {
    s.key@.len() > 0 && !s.ok
}

/// One planned write: the setting's caption and the write.
#[derive(Debug)]
pub struct PresetStep {
    pub label: String,
    pub action: PresetAction,
}

/// The planned writes: for each setting in order that needs one, its caption and write.
pub open spec fn plan_spec(settings: Seq<PresetSetting>) -> Seq<(Seq<char>, ActionView)> {
    settings.filter(|s: PresetSetting| needs_write(s)).map_values(
        |s: PresetSetting| (s.label@, action_spec(s)),
    )
}

/// Views of planned steps.
pub open spec fn step_views(v: Seq<PresetStep>) -> Seq<(Seq<char>, ActionView)> {
    v.map_values(|p: PresetStep| (p.label@, p.action@))
}

fn action_for(s: &PresetSetting) -> (a: PresetAction)
    ensures
        a@ == action_spec(*s),
{
    let on = recommended_on(s.recommended.as_str());
    let k = &s.key;
    if *k == String::from_str("hags") {
        PresetAction::Hags(on)
    } else if *k == String::from_str("game_mode") {
        PresetAction::GameMode(on)
    } else if *k == String::from_str("vrr") {
        PresetAction::Vrr(on)
    } else if *k == String::from_str("mouse_precision") {
        PresetAction::MousePrecision(on)
    } else if *k == String::from_str("power_plan") {
        PresetAction::PowerPlan(s.recommended.clone())
    } else {
        PresetAction::Nothing
    }
}

/// Plans the writes of a preset (see `plan_spec`): check-only rows and rows already
/// meeting the recommendation are skipped; mouse precision is written in the
/// recommended direction like every other switch.
pub fn plan_preset(preset: &GamePreset) -> (v: Vec<PresetStep>)
    ensures
        step_views(v@) == plan_spec(preset.settings@),
{
    let settings = &preset.settings;
    let mut v: Vec<PresetStep> = Vec::new();
    let mut i: usize = 0;
    while i < settings.len()
        invariant
            i <= settings@.len(),
            settings@ == preset.settings@,
            step_views(v@) == plan_spec(settings@.subrange(0, i as int)),
        decreases settings@.len() - i,
    {
        let s = &settings[i];
        let ghost before = v@;
        proof {
            let pre = settings@.subrange(0, i as int);
            let nxt = settings@.subrange(0, i as int + 1);
            assert(nxt.drop_last() =~= pre);
            reveal_with_fuel(Seq::<_>::filter, 1);
            let fp = pre.filter(|s: PresetSetting| needs_write(s));
            let fmap = |s: PresetSetting| (s.label@, action_spec(s));
            assert(fp.push(settings@[i as int]).map_values(fmap) =~= fp.map_values(fmap).push(
                fmap(settings@[i as int]),
            ));
        }
        if !s.key.as_str().is_empty() && !s.ok {
            let step = PresetStep { label: s.label.clone(), action: action_for(s) };
            v.push(step);
            assert(step_views(v@) =~= step_views(before).push(
                (settings@[i as int].label@, action_spec(settings@[i as int])),
            ));
        }
        i = i + 1;
    }
    assert(settings@.subrange(0, settings@.len() as int) =~= settings@);
    v
}

/// Every setting of a preset meets its recommendation (check-only rows count as met),
/// so the preset has nothing to write.
pub open spec fn preset_met(settings: Seq<PresetSetting>) -> bool {
    forall|i: int| 0 <= i < settings.len() ==> !needs_write(#[trigger] settings[i])
}

/// Header state of a preset: whether all its settings are met, the status caption,
/// the apply button caption, and whether the button starts a run.
#[derive(Debug)]
pub struct PresetHeader {
    pub met: bool,
    pub status: &'static str,
    pub button: &'static str,
    pub clickable: bool,
}

/// The header of a preset while `applying` tells whether a preset run is in progress:
/// a met preset reads `全部达标` and `已达标` and cannot be applied; otherwise it reads
/// `有未达标项` and `应用中…` (not clickable) during a run, or `一键套用`.
pub fn preset_header(preset: &GamePreset, applying: bool) -> (r: PresetHeader)
    ensures
        r.met == preset_met(preset.settings@),
        r.met == (plan_spec(preset.settings@).len() == 0),
        r.status@ == (if r.met { "全部达标"@ } else { "有未达标项"@ }),
        r.button@ == (if r.met {
            "已达标"@
        } else if applying {
            "应用中…"@
        } else {
            "一键套用"@
        }),
        r.clickable == (!r.met && !applying),
{
    let steps = plan_preset(preset);
    let met = steps.len() == 0;
    proof {
        let st = preset.settings@;
        let pred = |s: PresetSetting| needs_write(s);
        let f = st.filter(pred);
        assert(step_views(steps@).len() == steps@.len());
        assert(plan_spec(st).len() == f.len());
        if met {
            assert forall|i: int| 0 <= i < st.len() implies !needs_write(#[trigger] st[i]) by {
                if needs_write(st[i]) {
                    st.lemma_filter_contains(pred, i);
                    assert(f.len() > 0);
                }
            }
        } else {
            let e = f[0];
            assert(f.contains(e));
            st.lemma_filter_contains_rev(pred, e);
            let i = choose|i: int| 0 <= i < st.len() && st[i] == e;
            assert(needs_write(st[i]));
        }
    }
    PresetHeader {
        met,
        status: if met { "全部达标" } else { "有未达标项" },
        button: if met {
            "已达标"
        } else if applying {
            "应用中…"
        } else {
            "一键套用"
        },
        clickable: !met && !applying,
    }
}

/// The recommendation text asks for the feature on: it says 开启, 高性能 or 卓越性能.
pub open spec fn asks_on(rec: Seq<char>) -> bool {
    has_sub(rec, "开启"@) || has_sub(rec, "高性能"@) || has_sub(rec, "卓越性能"@)
}

/// A planned write `a` is the right one for setting `s`: each switch is written
/// towards its recommendation (on exactly when the recommendation asks for on), the
/// power plan is chosen from the recommendation text, and other keys write nothing.
pub open spec fn write_follows_recommendation(s: PresetSetting, a: ActionView) -> bool {
    let on = asks_on(s.recommended@);
    match a {
        ActionView::Hags(b) => s.key@ == "hags"@ && b == on,
        ActionView::GameMode(b) => s.key@ == "game_mode"@ && b == on,
        ActionView::Vrr(b) => s.key@ == "vrr"@ && b == on,
        ActionView::MousePrecision(b) => s.key@ == "mouse_precision"@ && b == on,
        ActionView::PowerPlan(r) => s.key@ == "power_plan"@ && r == s.recommended@,
        ActionView::Nothing => s.key@ != "hags"@ && s.key@ != "game_mode"@ && s.key@ != "vrr"@
            && s.key@ != "mouse_precision"@ && s.key@ != "power_plan"@,
    }
}

/// Every write a preset plans belongs to one of its settings that has a key and does
/// not meet its recommendation, carries that setting's caption, and goes in the
/// recommended direction.
pub proof fn lemma_preset_writes_follow_recommendation(st: Seq<PresetSetting>, j: int)
    requires
        0 <= j < plan_spec(st).len(),
    ensures
        exists|i: int|
            0 <= i < st.len() && st[i].key@.len() > 0 && !st[i].ok && plan_spec(st)[j].0
                == st[i].label@ && write_follows_recommendation(st[i], #[trigger] plan_spec(st)[j].1),
{
    let pred = |s: PresetSetting| needs_write(s);
    let f = st.filter(pred);
    let e = f[j];
    assert(f.contains(e));
    st.lemma_filter_contains_rev(pred, e);
    let i = choose|i: int| 0 <= i < st.len() && st[i] == e;
    assert(plan_spec(st)[j] == (e.label@, action_spec(e)));
    assert(write_follows_recommendation(st[i], plan_spec(st)[j].1));
}

/// Every setting with a key that does not meet its recommendation gets its write,
/// in the recommended direction, under its caption.
pub proof fn lemma_preset_plans_every_needed_write(st: Seq<PresetSetting>, i: int)
    requires
        0 <= i < st.len(),
        st[i].key@.len() > 0,
        !st[i].ok,
    ensures
        exists|j: int|
            0 <= j < plan_spec(st).len() && plan_spec(st)[j].0 == st[i].label@
                && write_follows_recommendation(st[i], #[trigger] plan_spec(st)[j].1),
{
    let pred = |s: PresetSetting| needs_write(s);
    let f = st.filter(pred);
    st.lemma_filter_contains(pred, i);
    assert(f.contains(st[i]));
    let j = choose|j: int| 0 <= j < f.len() && f[j] == st[i];
    assert(0 <= j < f.len() && f[j] == st[i]);
    assert(plan_spec(st).len() == f.len());
    assert(plan_spec(st)[j] == (st[i].label@, action_spec(st[i])));
    assert(write_follows_recommendation(st[i], action_spec(st[i])));
    assert(plan_spec(st)[j].0 == st[i].label@ && write_follows_recommendation(st[i], plan_spec(st)[j].1));
}

/// Settings that already meet their recommendation, and check-only rows (no key),
/// are never written.
pub proof fn lemma_preset_skips_met_settings(st: Seq<PresetSetting>)
    ensures
        plan_spec(st).len() <= st.len(),
        (forall|i: int| 0 <= i < st.len() ==> st[i].ok || st[i].key@.len() == 0) ==> plan_spec(
            st,
        ).len() == 0,
{
    let pred = |s: PresetSetting| needs_write(s);
    st.lemma_filter_len(pred);
    let f = st.filter(pred);
    if (forall|i: int| 0 <= i < st.len() ==> st[i].ok || st[i].key@.len() == 0) && f.len() > 0 {
        let e = f[0];
        assert(f.contains(e));
        st.lemma_filter_contains_rev(pred, e);
    }
}

/// A power plan as listed.
#[derive(Debug)]
pub struct PlanInfo {
    pub guid: String,
    pub name: String,
}

/// Plan `p` matches the recommendation through the keyword `kw`.
pub open spec fn plan_hit(rec: Seq<char>, p: PlanInfo, kw: Seq<char>) -> bool {
    has_sub(rec, kw) && has_sub(p.name@, kw)
}

/// First index whose plan satisfies the keyword match.
pub open spec fn first_hit(rec: Seq<char>, plans: Seq<PlanInfo>, kw: Seq<char>, i: int) -> bool {
    &&& 0 <= i < plans.len()
    &&& plan_hit(rec, plans[i], kw)
    &&& forall|j: int| 0 <= j < i ==> !plan_hit(rec, plans[j], kw)
}

fn find_hit(rec: &str, plans: &Vec<PlanInfo>, kw: &str) -> (r: Option<usize>)
    ensures
        match r {
            Some(i) => first_hit(rec@, plans@, kw@, i as int),
            None => forall|j: int| 0 <= j < plans@.len() ==> !plan_hit(rec@, plans@[j], kw@),
        },
{
    let rec_has = contains_str(rec, kw);
    let mut i: usize = 0;
    while i < plans.len()
        invariant
            i <= plans@.len(),
            rec_has == has_sub(rec@, kw@),
            forall|j: int| 0 <= j < i ==> !plan_hit(rec@, plans@[j], kw@),
        decreases plans@.len() - i,
    {
        if rec_has && contains_str(plans[i].name.as_str(), kw) {
            return Some(i);
        }
        i = i + 1;
    }
    None
}

/// The plan a power-plan recommendation activates: the first plan named like a
/// high-performance plan when that is recommended, else the first Ultimate plan when
/// that is recommended; none when no plan fits.
pub fn choose_power_plan(recommended: &str, plans: &Vec<PlanInfo>) -> (r: Option<usize>)
    ensures
        match r {
            Some(i) => first_hit(recommended@, plans@, "高性能"@, i as int) || ((forall|j: int|
                0 <= j < plans@.len() ==> !plan_hit(recommended@, plans@[j], "高性能"@))
                && first_hit(recommended@, plans@, "卓越"@, i as int)),
            None => forall|j: int|
                0 <= j < plans@.len() ==> !plan_hit(recommended@, plans@[j], "高性能"@)
                    && !plan_hit(recommended@, plans@[j], "卓越"@),
        },
{
    match find_hit(recommended, plans, "高性能") {
        Some(i) => Some(i),
        None => find_hit(recommended, plans, "卓越"),
    }
}

/// Error when no plan fits: `未找到推荐电源计划（推荐: <recommendation>）`.
pub fn no_plan_error(recommended: &str) -> (r: String)
    ensures
        r@ == "未找到推荐电源计划（推荐: "@ + recommended@ + "）"@,
{
    let r = concat2("未找到推荐电源计划（推荐: ", recommended);
    r.concat("）")
}

/// Tally of a preset run: how many writes succeeded and the failures as
/// `<caption>: <error>`.
pub struct PresetOutcome {
    pub applied: u64,
    pub failures: Vec<String>,
}

impl PresetOutcome {
    pub fn new() -> (r: PresetOutcome)
        ensures
            r.applied == 0,
            r.failures@.len() == 0,
    {
        PresetOutcome { applied: 0, failures: Vec::new() }
    }

    /// Counts the result of the write of setting `label`.
    pub fn record(&mut self, label: &str, result: &Result<(), String>)
        requires
            old(self).applied < u64::MAX,
        ensures
            match result {
                Ok(()) => final(self).applied == old(self).applied + 1 && final(self).failures
                    == old(self).failures,
                Err(e) => final(self).applied == old(self).applied && final(self).failures@
                    .len() == old(self).failures@.len() + 1 && final(self).failures@.drop_last()
                    == old(self).failures@ && final(self).failures@.last()@ == label@ + ": "@
                    + e@,
            },
    {
        match result {
            Ok(()) => {
                self.applied = self.applied + 1;
            },
            Err(e) => {
                let msg = concat2(label, ": ");
                self.failures.push(msg.concat(e.as_str()));
            },
        }
    }
}

/// Items joined with a separator.
pub open spec fn joined(items: Seq<Seq<char>>, sep: Seq<char>) -> Seq<char>
    decreases items.len(),
{
    if items.len() == 0 {
        Seq::<char>::empty()
    } else if items.len() == 1 {
        items[0]
    } else {
        joined(items.drop_last(), sep) + sep + items.last()
    }
}

/// `<items joined by sep>` (`[String]::join`).
pub fn join_strings(items: &Vec<String>, sep: &str) -> (r: String)
    ensures
        r@ == joined(views(items@), sep@),
{
    let mut r = String::new();
    let mut i: usize = 0;
    while i < items.len()
        invariant
            i <= items@.len(),
            r@ == joined(views(items@.subrange(0, i as int)), sep@),
        decreases items@.len() - i,
    {
        let ghost pre = views(items@.subrange(0, i as int));
        let ghost nxt = views(items@.subrange(0, i as int + 1));
        assert(nxt.drop_last() =~= pre);
        assert(nxt.last() == items@[i as int]@);
        if i > 0 {
            r.append(sep);
        }
        r.append(items[i].as_str());
        i = i + 1;
    }
    assert(items@.subrange(0, items@.len() as int) =~= items@);
    r
}

/// Summary after applying preset `name`: applied writes, or all met, or nothing
/// applied; failures appended as `；失败 <n> 项: <failures joined by ；>`.
pub open spec fn preset_message_spec(name: Seq<char>, applied: u64, failures: Seq<Seq<char>>) -> Seq<char> {
    let head = if applied > 0 {
        "已应用「"@ + name + "」预设（"@ + decimal(applied as nat) + " 项联动）"@
    } else if failures.len() == 0 {
        "「"@ + name + "」全部达标，无需调整"@
    } else {
        "「"@ + name + "」预设未应用任何变更"@
    };
    if failures.len() == 0 {
        head
    } else {
        head + "；失败 "@ + decimal(failures.len()) + " 项: "@ + joined(failures, "；"@)
    }
}

/// The summary line of a preset run (see `preset_message_spec`).
pub fn preset_message(name: &str, outcome: &PresetOutcome) -> (r: String)
    ensures
        r@ == preset_message_spec(name@, outcome.applied, views(outcome.failures@)),
{
    let mut msg = if outcome.applied > 0 {
        let m = concat2("已应用「", name);
        let m = m.concat("」预设（");
        let m = m.concat(u64_to_string(outcome.applied).as_str());
        m.concat(" 项联动）")
    } else if outcome.failures.len() == 0 {
        let m = concat2("「", name);
        m.concat("」全部达标，无需调整")
    } else {
        let m = concat2("「", name);
        m.concat("」预设未应用任何变更")
    };
    if outcome.failures.len() > 0 {
        msg.append("；失败 ");
        msg.append(u64_to_string(outcome.failures.len() as u64).as_str());
        msg.append(" 项: ");
        msg.append(join_strings(&outcome.failures, "；").as_str());
    }
    msg
}

/// A recommendation of `关闭` (off) never switches the feature on: in particular the
/// mouse-precision write follows the recommendation, it is not inverted.
pub proof fn lemma_off_recommendation_writes_off(s: PresetSetting)
    requires
        s.key@ == "mouse_precision"@,
        s.recommended@ == "关闭"@,
    ensures
        action_spec(s) == ActionView::MousePrecision(false),
{
    reveal_strlit("关闭");
    reveal_strlit("开启");
    reveal_strlit("高性能");
    reveal_strlit("卓越性能");
    reveal_strlit("mouse_precision");
    reveal_strlit("hags");
    reveal_strlit("game_mode");
    reveal_strlit("vrr");
    let r = s.recommended@;
    assert(!has_sub(r, "开启"@)) by {
        if has_sub(r, "开启"@) {
            let i = choose|i: int| 0 <= i && i + "开启"@.len() <= r.len() && #[trigger] r.subrange(
                i,
                i + "开启"@.len(),
            ) == "开启"@;
            assert(i == 0);
            assert(r.subrange(0, 2)[0] == r[0]);
        }
    }
    assert(!has_sub(r, "高性能"@));
    assert(!has_sub(r, "卓越性能"@));
    assert(s.key@ != "hags"@) by {
        if s.key@ == "hags"@ {
            assert(s.key@.len() == 4);
        }
    }
    assert(s.key@ != "game_mode"@) by {
        if s.key@ == "game_mode"@ {
            assert(s.key@.len() == 9);
        }
    }
    assert(s.key@ != "vrr"@) by {
        if s.key@ == "vrr"@ {
            assert(s.key@.len() == 3);
        }
    }
}

} // verus!
