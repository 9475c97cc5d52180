//! The log stream panel: merging the global log buffer into the rows shown,
//! and filtering rows by level and keyword.

use vstd::prelude::*;
use crate::text::{contains_str, has_sub, keep_last};

verus! {

/// Rows kept in the log stream panel; older ones are dropped.
pub const KEEP_LINES: usize = 500;

/// One log record.
#[derive(Debug)]
pub struct LogEntry {
    pub timestamp: String,
    pub level: String,
    pub module: String,
    pub message: String,
}

/// A copy of a log record.
pub fn clone_entry(e: &LogEntry) -> (r: LogEntry)
    ensures
        r == *e,
{
    LogEntry {
        timestamp: e.timestamp.clone(),
        level: e.level.clone(),
        module: e.module.clone(),
        message: e.message.clone(),
    }
}

/// Two records agree on time, level and message (the head comparison of the merge).
pub open spec fn same_head(a: LogEntry, b: LogEntry) -> bool {
    &&& a.timestamp@ == b.timestamp@
    &&& a.level@ == b.level@
    &&& a.message@ == b.message@
}

/// Both lists are non-empty and start with the same record.
pub open spec fn same_start(local: Seq<LogEntry>, all: Seq<LogEntry>) -> bool {
    local.len() > 0 && all.len() > 0 && same_head(local[0], all[0])
}

/// What the panel shows after pulling the global buffer `all` while showing `local`
/// (none: the panel stays as it is). When both start with the same record, the
/// records beyond the panel's length are appended, and nothing changes when there
/// are none. Any other difference (first pull, a cleared panel or buffer, or a
/// buffer whose oldest records were pushed out) realigns the panel on the whole
/// buffer. Only the newest `KEEP_LINES` rows are kept.
pub open spec fn merged_rows(local: Seq<LogEntry>, all: Seq<LogEntry>) -> Option<Seq<LogEntry>> {
    if local.len() == 0 && all.len() == 0 {
        None
    } else if same_start(local, all) {
        if all.len() > local.len() {
            Some(keep_last(local + all.skip(local.len() as int), KEEP_LINES as nat))
        } else {
            None
        }
    } else {
        Some(keep_last(all, KEEP_LINES as nat))
    }
}

fn keep_last_exec(rows: Vec<LogEntry>) -> (r: Vec<LogEntry>)
    ensures
        r@ == keep_last(rows@, KEEP_LINES as nat),
{
    let mut rows = rows;
    if rows.len() > KEEP_LINES {
        let drop = rows.len() - KEEP_LINES;
        let tail = rows.split_off(drop);
        assert(tail@ =~= keep_last(rows@ + tail@, KEEP_LINES as nat));
        tail
    } else {
        rows
    }
}

/// Merges a pull of the global log buffer into the panel rows (see `merged_rows`).
pub fn merge_log_rows(local: Vec<LogEntry>, all: Vec<LogEntry>) -> (r: Option<Vec<LogEntry>>)
    ensures
        match r {
            Some(v) => merged_rows(local@, all@) == Some(v@),
            None => merged_rows(local@, all@) is None,
        },
{
    if local.len() == 0 && all.len() == 0 {
        return None;
    }
    let prefix_match = local.len() > 0 && all.len() > 0 && {
        let a = &local[0];
        let b = &all[0];
        a.timestamp == b.timestamp && a.level == b.level && a.message == b.message
    };
    if prefix_match {
        let local_len = local.len();
        if all.len() > local_len {
            let ghost a0 = all@;
            let mut merged = local;
            let mut all = all;
            let mut tail = all.split_off(local_len);
            assert(tail@ =~= a0.skip(local_len as int));
            merged.append(&mut tail);
            Some(keep_last_exec(merged))
        } else {
            None
        }
    } else {
        Some(keep_last_exec(all))
    }
}

/// Rows shown under a level filter (empty = all levels), in order.
pub open spec fn level_filtered(rows: Seq<LogEntry>, level: Seq<char>) -> Seq<LogEntry> {
    rows.filter(|e: LogEntry| level_match(e, level))
}

/// A record passes the panel's level filter (empty = any level).
pub open spec fn level_match(e: LogEntry, level: Seq<char>) -> bool {
    level.len() == 0 || e.level@ == level
}

/// The rows that pass the level filter of the log stream panel.
pub fn filter_by_level(rows: &Vec<LogEntry>, level: &str) -> (v: Vec<LogEntry>)
    ensures
        v@ == level_filtered(rows@, level@),
{
    let mut v: Vec<LogEntry> = Vec::new();
    let lv = String::from_str(level);
    let mut i: usize = 0;
    while i < rows.len()
        invariant
            i <= rows@.len(),
            lv@ == level@,
            v@ == level_filtered(rows@.subrange(0, i as int), level@),
        decreases rows@.len() - i,
    {
        let e = &rows[i];
        proof {
            assert(rows@.subrange(0, i as int + 1).drop_last() =~= rows@.subrange(0, i as int));
            reveal_with_fuel(Seq::<_>::filter, 1);
        }
        if level.is_empty() || e.level == lv {
            v.push(clone_entry(e));
        }
        i = i + 1;
    }
    assert(rows@.subrange(0, rows@.len() as int) =~= rows@);
    v
}

/// A record passes the debug-log page filter: level matches (empty = any) and the
/// keyword (empty = any) occurs in the message or the module.
pub open spec fn page_match(e: LogEntry, level: Seq<char>, keyword: Seq<char>) -> bool {
    &&& (level.len() == 0 || e.level@ == level)
    &&& (keyword.len() == 0 || has_sub(e.message@, keyword) || has_sub(e.module@, keyword))
}

/// The records shown by the debug-log page for a level and a keyword, in order.
pub fn filter_entries(entries: &Vec<LogEntry>, level: &str, keyword: &str) -> (v: Vec<LogEntry>)
    ensures
        v@ == entries@.filter(|e: LogEntry| page_match(e, level@, keyword@)),
{
    let mut v: Vec<LogEntry> = Vec::new();
    let lv = String::from_str(level);
    let mut i: usize = 0;
    while i < entries.len()
        invariant
            i <= entries@.len(),
            lv@ == level@,
            v@ == entries@.subrange(0, i as int).filter(
                |e: LogEntry| page_match(e, level@, keyword@),
            ),
        decreases entries@.len() - i,
    {
        let e = &entries[i];
        proof {
            assert(entries@.subrange(0, i as int + 1).drop_last() =~= entries@.subrange(
                0,
                i as int,
            ));
            reveal_with_fuel(Seq::<_>::filter, 1);
        }
        let level_ok = level.is_empty() || e.level == lv;
        let kw_ok = keyword.is_empty() || contains_str(e.message.as_str(), keyword)
            || contains_str(e.module.as_str(), keyword);
        if level_ok && kw_ok {
            v.push(clone_entry(e));
        }
        i = i + 1;
    }
    assert(entries@.subrange(0, entries@.len() as int) =~= entries@);
    v
}

/// The debug-log page filters by level and by keyword independently: with a level
/// chosen, every record shown has exactly that level (whatever the keyword); with a
/// keyword typed, every record shown contains it in its message or module; a record
/// that passes both is shown; and no record is shown that is not in the buffer.
pub proof fn lemma_page_filter(entries: Seq<LogEntry>, level: Seq<char>, keyword: Seq<char>, i: int)
    requires
        0 <= i < entries.len(),
    ensures
        ({
            let shown = entries.filter(|e: LogEntry| page_match(e, level, keyword));
            &&& forall|e: LogEntry| #[trigger] shown.contains(e) ==> entries.contains(e)
            &&& level.len() > 0 ==> forall|e: LogEntry| #[trigger] shown.contains(e) ==> e.level@
                == level
            &&& keyword.len() > 0 ==> forall|e: LogEntry| #[trigger] shown.contains(e) ==> (has_sub(
                e.message@,
                keyword,
            ) || has_sub(e.module@, keyword))
            &&& ((level.len() == 0 || entries[i].level@ == level) && (keyword.len() == 0 || has_sub(
                entries[i].message@,
                keyword,
            ) || has_sub(entries[i].module@, keyword))) ==> shown.contains(entries[i])
        }),
{
    let pred = |e: LogEntry| page_match(e, level, keyword);
    let shown = entries.filter(pred);
    assert forall|e: LogEntry| #[trigger] shown.contains(e) implies entries.contains(e) && pred(e) by {
        entries.lemma_filter_contains_rev(pred, e);
    }
    if pred(entries[i]) {
        entries.lemma_filter_contains(pred, i);
    }
}

/// The level filter of the log panel keeps exactly the records of the chosen level
/// (all records when none is chosen).
pub proof fn lemma_panel_level_filter(rows: Seq<LogEntry>, level: Seq<char>, i: int)
    requires
        0 <= i < rows.len(),
    ensures
        level.len() > 0 ==> forall|e: LogEntry| #[trigger] level_filtered(rows, level).contains(e)
            ==> e.level@ == level && rows.contains(e),
        (level.len() == 0 || rows[i].level@ == level) ==> level_filtered(rows, level).contains(
            rows[i],
        ),
{
    let pred = |e: LogEntry| level_match(e, level);
    assert forall|e: LogEntry| #[trigger] level_filtered(rows, level).contains(e) implies rows.contains(e)
        && pred(e) by {
        rows.lemma_filter_contains_rev(pred, e);
    }
    if pred(rows[i]) {
        rows.lemma_filter_contains(pred, i);
    }
}

/// Text copied to the clipboard for a row: `[level] timestamp message`.
pub fn copy_text(e: &LogEntry) -> (r: String)
    ensures
        r@ == "["@ + e.level@ + "] "@ + e.timestamp@ + " "@ + e.message@,
{
    let r = String::from_str("[");
    let r = r.concat(e.level.as_str());
    let r = r.concat("] ");
    let r = r.concat(e.timestamp.as_str());
    let r = r.concat(" ");
    r.concat(e.message.as_str())
}

/// A pull that finds nothing new leaves the panel as it is, and a merge never
/// shows more than `KEEP_LINES` rows.
pub proof fn lemma_merge_bounded(local: Seq<LogEntry>, all: Seq<LogEntry>)
    ensures
        merged_rows(local, all) matches Some(r) ==> r.len() <= KEEP_LINES,
        merged_rows(local, local) is None,
{
}

/// When the buffer only grew behind the rows shown (same head, longer), the merge
/// keeps the shown rows and appends exactly the new records (before trimming).
pub proof fn lemma_merge_appends_new_records(local: Seq<LogEntry>, extra: Seq<LogEntry>)
    requires
        local.len() > 0,
        extra.len() > 0,
        local.len() + extra.len() <= KEEP_LINES,
    ensures
        merged_rows(local, local + extra) == Some(local + extra),
{
    let all = local + extra;
    assert(all[0] == local[0]);
    assert(all.skip(local.len() as int) =~= extra);
}

/// Whenever the panel and the buffer do not start with the same record (and are
/// not both empty), the panel is realigned on the buffer: it then shows the newest
/// `KEEP_LINES` buffer records, whatever the two lengths are.
pub proof fn lemma_merge_realigns_on_mismatch(local: Seq<LogEntry>, all: Seq<LogEntry>)
    requires
        local.len() > 0 || all.len() > 0,
        !same_start(local, all),
    ensures
        merged_rows(local, all) == Some(keep_last(all, KEEP_LINES as nat)),
        all.len() <= KEEP_LINES ==> merged_rows(local, all) == Some(all),
{
}

} // verus!
