//! Cleanup page: the cleaning operations, and how a cleaning report is turned into
//! the toast line and the per-line log records (degraded lines flagged).

use vstd::prelude::*;
use crate::text::{clean_pieces, concat2, has_sub, contains_str, split_clean, split_on, views};

verus! {

/// A cleaning operation behind a button.
#[derive(Debug, Clone, Copy, PartialEq, Eq, Structural)]
pub enum CleanOp {
    Temp,
    Nvidia,
    Amd,
    DirectX,
    Steam,
    AllShaders,
    TrimWorkingSet,
}

impl CleanOp {
    pub open spec fn label_spec(self) -> Seq<char> {
        match self {
            CleanOp::Temp => "清理临时文件"@,
            CleanOp::Nvidia => "清 NVIDIA 缓存"@,
            CleanOp::Amd => "清 AMD 缓存"@,
            CleanOp::DirectX => "清 DirectX"@,
            CleanOp::Steam => "清 Steam 缓存"@,
            CleanOp::AllShaders => "全清着色器"@,
            CleanOp::TrimWorkingSet => "修剪工作集"@,
        }
    }

    /// Button caption of the operation.
    pub fn label(self) -> (r: &'static str)
        ensures
            r@ == self.label_spec(),
    {
        match self {
            CleanOp::Temp => "清理临时文件",
            CleanOp::Nvidia => "清 NVIDIA 缓存",
            CleanOp::Amd => "清 AMD 缓存",
            CleanOp::DirectX => "清 DirectX",
            CleanOp::Steam => "清 Steam 缓存",
            CleanOp::AllShaders => "全清着色器",
            CleanOp::TrimWorkingSet => "修剪工作集",
        }
    }

    /// Status line while the operation runs: `<caption>执行中…`.
    pub fn running_text(self) -> (r: String)
        ensures
            r@ == self.label_spec() + "执行中…"@,
    {
        concat2(self.label(), "执行中…")
    }
}

/// A report line signals a degraded result (failure, error, impossibility, or a file
/// left for deletion at reboot).
pub open spec fn degraded_spec(line: Seq<char>) -> bool {
    has_sub(line, "失败"@) || has_sub(line, "错误"@) || has_sub(line, "无法"@) || has_sub(
        line,
        "标记重启后删除"@,
    )
}

/// Whether a report line signals a degraded result.
pub fn line_is_degraded(line: &str) -> (b: bool)
    ensures
        b == degraded_spec(line@),
{
    contains_str(line, "失败") || contains_str(line, "错误") || contains_str(line, "无法")
        || contains_str(line, "标记重启后删除")
}

/// A report line is flagged degraded exactly when it reports a failure (失败), an
/// error (错误), an impossibility (无法) or a file left for deletion at reboot
/// (标记重启后删除); each of these words alone is enough.
pub proof fn lemma_degraded_words(line: Seq<char>)
    ensures
        has_sub(line, "失败"@) ==> degraded_spec(line),
        has_sub(line, "错误"@) ==> degraded_spec(line),
        has_sub(line, "无法"@) ==> degraded_spec(line),
        has_sub(line, "标记重启后删除"@) ==> degraded_spec(line),
        degraded_spec(line) ==> (has_sub(line, "失败"@) || has_sub(line, "错误"@) || has_sub(
            line,
            "无法"@,
        ) || has_sub(line, "标记重启后删除"@)),
{
}

/// The detail lines of a report: its lines trimmed, blank ones dropped.
pub open spec fn detail_lines_spec(message: Seq<char>) -> Seq<Seq<char>> {
    clean_pieces(split_on(message, seq!['\n']))
}

/// The detail lines of a report, each with its degraded flag, in order.
pub fn detail_lines(message: &str) -> (v: Vec<(String, bool)>)
    ensures
        v@.len() == detail_lines_spec(message@).len(),
        forall|i: int| 0 <= i < v@.len() ==> #[trigger] v@[i].0@ == detail_lines_spec(message@)[i]
            && v@[i].1 == degraded_spec(v@[i].0@),
{
    let seps = vec!['\n'];
    assert(seps@ == seq!['\n']);
    let lines = split_clean(message, &seps);
    let mut v: Vec<(String, bool)> = Vec::new();
    let mut i: usize = 0;
    while i < lines.len()
        invariant
            i <= lines@.len(),
            views(lines@) == detail_lines_spec(message@),
            v@.len() == i,
            forall|k: int| 0 <= k < i ==> #[trigger] v@[k].0@ == lines@[k]@ && v@[k].1
                == degraded_spec(v@[k].0@),
        decreases lines@.len() - i,
    {
        let d = line_is_degraded(lines[i].as_str());
        v.push((lines[i].clone(), d));
        i = i + 1;
    }
    proof {
        assert forall|k: int| 0 <= k < v@.len() implies #[trigger] v@[k].0@
            == detail_lines_spec(message@)[k] by {
            assert(views(lines@)[k] == lines@[k]@);
        }
    }
    v
}

/// Verdict word of a report: `成功` or `部分完成`.
pub fn verdict(success: bool) -> (r: &'static str)
    ensures
        r@ == (if success { "成功"@ } else { "部分完成"@ }),
{
    if success {
        "成功"
    } else {
        "部分完成"
    }
}

/// Toast of a report: `<operation><完成|部分完成> · 释放 <freed>` (freed already
/// formatted).
pub fn result_toast(operation: &str, success: bool, freed: &str) -> (r: String)
    ensures
        r@ == operation@ + (if success { "完成"@ } else { "部分完成"@ }) + " · 释放 "@ + freed@,
{
    let r = concat2(operation, if success { "完成" } else { "部分完成" });
    let r = r.concat(" · 释放 ");
    r.concat(freed)
}

} // verus!
