//! What the studio shows: prompts of cards, briefs, revision instructions, and
//! how streamed output and final output become one text.

use vstd::prelude::*;

use crate::audit_decisions;
use crate::intent;
use crate::issues;
use crate::issues::{AuditIssue, IssueV};
use crate::json;
use crate::json::{Json, JsonV};
use crate::order;
use crate::text;

verus! {

// ---------------------------------------------------------------------------
// Reading requests
// ---------------------------------------------------------------------------

/// The volume that a `第` at position `i` begins to name: `第1卷`, `第12幕`.
pub open spec fn volume_at(s: Seq<char>, i: int) -> Option<u32> {
    let e = text::digits_end(s, i + 1);
    if 0 <= i < s.len() && s[i] == '第' && e > i + 1 && e < s.len() && (s[e] == '卷' || s[e]
        == '幕') {
        Some(
            if text::number_at(s, i + 1) < 1 {
                1
            } else {
                text::number_at(s, i + 1) as u32
            },
        )
    } else {
        None
    }
}

/// The first volume that is named at or after position `i`.
pub open spec fn volume_from(s: Seq<char>, i: int) -> Option<u32>
    decreases s.len() - i,
{
    if i < 0 || i >= s.len() {
        None
    } else {
        match volume_at(s, i) {
            Some(n) => Some(n),
            None => volume_from(s, i + 1),
        }
    }
}

/// The volume that the text names in digits; zero counts as one.
pub fn extract_volume_number(s: &str) -> (r: Option<u32>)
    ensures
        r == volume_from(s@, 0),
        r matches Some(n) ==> n >= 1,
{
    let v = text::to_chars(s);
    let mut i: usize = 0;
    while i < v.len()
        invariant
            i <= v.len(),
            v@ == s@,
            volume_from(s@, 0) == volume_from(s@, i as int),
        decreases v.len() - i,
    {
        if v[i] == '第' {
            let (n, e) = text::read_number(&v, i + 1);
            if e > i + 1 && e < v.len() && (v[e] == '卷' || v[e] == '幕') {
                return Some(
                    if n < 1 {
                        1
                    } else {
                        n
                    },
                );
            }
        }
        i = i + 1;
    }
    None
}

/// How far a task of a list is.
#[derive(Clone, Copy, Debug, PartialEq, Eq, Structural)]
pub enum TodoStatus {
    Pending,
    InProgress,
    Completed,
}

/// A task of a list.
pub struct TodoItem {
    pub content: String,
    pub status: TodoStatus,
}

/// A task by contents.
pub struct TodoV {
    pub content: Seq<char>,
    pub status: TodoStatus,
}

impl View for TodoItem {
    type V = TodoV;

    open spec fn view(&self) -> TodoV {
        TodoV { content: self.content@, status: self.status }
    }
}

/// The contents of a list of tasks.
pub open spec fn todo_list(v: Seq<TodoItem>) -> Seq<TodoV> {
    Seq::new(v.len(), |i: int| v[i]@)
}

/// The status that a word stands for.
pub open spec fn todo_status(word: Option<Seq<char>>) -> TodoStatus {
    if word == Some("in_progress"@) || word == Some("inProgress"@) {
        TodoStatus::InProgress
    } else if word == Some("completed"@) || word == Some("Completed"@) {
        TodoStatus::Completed
    } else {
        TodoStatus::Pending
    }
}

/// The tasks from position `i` on; none at all where one has no content.
pub open spec fn todos_from(v: Seq<JsonV>, i: int) -> Option<Seq<TodoV>>
    decreases v.len() - i,
{
    if i < 0 || i >= v.len() {
        Some(Seq::empty())
    } else {
        match v[i].text("content"@) {
            None => None,
            Some(c) => match todos_from(v, i + 1) {
                None => None,
                Some(rest) => Some(
                    seq![TodoV { content: c, status: todo_status(v[i].text("status"@)) }] + rest,
                ),
            },
        }
    }
}

/// The tasks that a value lists, where it is a list.
pub open spec fn todos_in(v: Option<JsonV>) -> Option<Seq<TodoV>> {
    match v {
        Some(JsonV::List(l)) => todos_from(l, 0),
        _ => None,
    }
}

/// The tasks that a value lists.
pub fn parse_todo_items(v: Option<&Json>) -> (r: Option<Vec<TodoItem>>)
    ensures
        match r {
            Some(l) => todos_in(json::opt_json(v)) == Some(todo_list(l@)),
            None => todos_in(json::opt_json(v)) is None,
        },
{
    match v {
        Some(Json::List(l)) => {
            proof {
                json::list_view(*l);
            }
            let ghost all = json::items(l@);
            let mut out: Vec<TodoItem> = Vec::new();
            let mut i: usize = 0;
            proof {
                match todos_from(all, 0) {
                    Some(t) => {
                        assert(todo_list(out@) + t =~= t);
                    },
                    None => {},
                }
            }
            while i < l.len()
                invariant
                    i <= l.len(),
                    all == json::items(l@),
                    todos_in(json::opt_json(v)) == todos_from(all, 0),
                    todos_from(all, 0) == match todos_from(all, i as int) {
                        Some(rest) => Some(todo_list(out@) + rest),
                        None => None,
                    },
                decreases l.len() - i,
            {
                let ghost before = todo_list(out@);
                assert(all[i as int] == l@[i as int]@);
                let content = match l[i].get_str("content") {
                    Some(c) => c.to_owned(),
                    None => {
                        return None;
                    },
                };
                let status = match l[i].get_str("status") {
                    Some(w) => if text::same(w, "in_progress") || text::same(w, "inProgress") {
                        TodoStatus::InProgress
                    } else if text::same(w, "completed") || text::same(w, "Completed") {
                        TodoStatus::Completed
                    } else {
                        TodoStatus::Pending
                    },
                    None => TodoStatus::Pending,
                };
                let item = TodoItem { content, status };
                let ghost x = item@;
                out.push(item);
                proof {
                    assert(todo_list(out@) =~= before.push(x));
                    match todos_from(all, i + 1) {
                        Some(rest) => {
                            assert(before + (seq![x] + rest) =~= before.push(x) + rest);
                        },
                        None => {},
                    }
                }
                i = i + 1;
            }
            assert(todo_list(out@) + Seq::<TodoV>::empty() =~= todo_list(out@));
            Some(out)
        },
        _ => None,
    }
}

/// The first chapter that a hint, from position `i` on, names.
pub open spec fn hinted_from(hints: Seq<&str>, i: int) -> Option<u32>
    decreases hints.len() - i,
{
    if i < 0 || i >= hints.len() {
        None
    } else if text::trimmed(hints[i]@).len() == 0 {
        hinted_from(hints, i + 1)
    } else {
        match intent::named_number(hints[i]@, "章"@, "chapter "@) {
            Some(n) => Some(n),
            None => hinted_from(hints, i + 1),
        }
    }
}

/// The arguments name a chapter.
pub open spec fn names_chapter(args: JsonV) -> bool {
    args.uint("chapter"@) matches Some(n) && n > 0
}

/// The arguments with the chapter that the hints name, where they name none.
pub open spec fn chapter_filled(args: JsonV, hints: Seq<&str>) -> JsonV {
    if names_chapter(args) {
        args
    } else {
        match hinted_from(hints, 0) {
            Some(n) => if args is Null {
                JsonV::empty_object().put("chapter"@, JsonV::Uint(n as u64))
            } else {
                args.put("chapter"@, JsonV::Uint(n as u64))
            },
            None => args,
        }
    }
}

/// Fills in the chapter that a hint names, where the arguments name none. Tells
/// whether it did.
pub fn fill_continue_chapter_arg(args: &mut Json, hints: &[&str]) -> (r: bool)
    requires
        old(args)@ is Object || old(args)@ is Null || hinted_from(hints@, 0) is None,
    ensures
        final(args)@ == chapter_filled(old(args)@, hints@),
        r == (!names_chapter(old(args)@) && hinted_from(hints@, 0) is Some),
{
    match args.get_u64("chapter") {
        Some(n) => {
            if n > 0 {
                return false;
            }
        },
        None => {},
    }
    let ghost before = args@;
    let mut i: usize = 0;
    while i < hints.len()
        invariant
            i <= hints.len(),
            args@ == before,
            before == old(args)@,
            !names_chapter(before),
            hinted_from(hints@, 0) == hinted_from(hints@, i as int),
        decreases hints.len() - i,
    {
        let hint = hints[i];
        if !text::trim(hint).is_empty() {
            match intent::parse_chapter_number(hint) {
                Some(n) => {
                    let mut own = Json::Null;
                    std::mem::swap(args, &mut own);
                    let base = match own {
                        Json::Null => Json::object(),
                        other => other,
                    };
                    *args = base.with_u32("chapter", n);
                    return true;
                },
                None => {},
            }
        }
        i = i + 1;
    }
    false
}

// ---------------------------------------------------------------------------
// Tool output
// ---------------------------------------------------------------------------

/// The text is an audit checklist.
pub open spec fn checklist_text(s: Seq<char>) -> bool {
    text::occurs(text::trimmed(s), "### 问题清单"@) || (text::occurs(
        text::trimmed(s),
        "问题清单"@,
    ) && text::occurs(text::trimmed(s), "审校未通过"@))
}

/// Whether the text is an audit checklist.
pub fn is_audit_checklist_text(s: &str) -> (r: bool)
    ensures
        r == checklist_text(s@),
{
    let t = text::trim(s);
    text::contains(t, "### 问题清单") || (text::contains(t, "问题清单") && text::contains(
        t,
        "审校未通过",
    ))
}

/// The text bears a mark of an audit report.
pub open spec fn report_marked(s: Seq<char>) -> bool {
    text::occurs(s, "一致性审计"@) || text::occurs(s, "审校报告"@) || text::occurs(
        s,
        "结果：未通过"@,
    ) || text::occurs(s, "结果：通过"@) || text::occurs(s, "### 问题清单"@) || text::occurs(
        s,
        "（审校未通过"@,
    )
}

fn has_report_mark(s: &str) -> (r: bool)
    ensures
        r == report_marked(s@),
{
    text::contains(s, "一致性审计") || text::contains(s, "审校报告") || text::contains(
        s,
        "结果：未通过",
    ) || text::contains(s, "结果：通过") || text::contains(s, "### 问题清单")
        || text::contains(s, "（审校未通过")
}

/// The final output says again what was streamed: a long report after a report,
/// or a text that the stream holds as it stands.
pub open spec fn restated(streamed: Seq<char>, final_out: Seq<char>) -> bool {
    (report_marked(streamed) && report_marked(final_out) && final_out.len() > 120) || (
    final_out.len() >= 40 && text::occurs(streamed, final_out))
}

/// Whether the final output says again what was streamed.
pub fn tool_ui_looks_like_restated_report(streamed: &str, final_out: &str) -> (r: bool)
    ensures
        r == restated(streamed@, final_out@),
{
    let n: usize = final_out.unicode_len();
    (has_report_mark(streamed) && has_report_mark(final_out) && n > 120) || (n >= 40
        && text::contains(streamed, final_out))
}

/// A line of a coda that speaks of the hard rules or the next step.
pub open spec fn coda_line(l: Seq<char>) -> bool {
    text::occurs(l, "硬规则"@) || text::occurs(l, "修正本章"@) || text::begins(l, "——"@)
}

/// The lines of a coda that speak of the hard rules or the next step.
pub open spec fn hard_coda(s: Seq<char>) -> Seq<char> {
    text::joined(text::filtered(text::lines_of(s), |l: Seq<char>| coda_line(l)), "\n"@)
}

fn hard_coda_lines(s: &str) -> (r: String)
    ensures
        r@ == hard_coda(s@),
{
    let all = text::lines(s);
    let ghost av = text::texts(all@);
    let ghost p = |l: Seq<char>| coda_line(l);
    let mut out: Vec<String> = Vec::new();
    let mut i: usize = 0;
    assert(text::texts(out@) =~= text::filtered(av.take(0), p));
    while i < all.len()
        invariant
            i <= all.len(),
            av == text::texts(all@),
            p == (|l: Seq<char>| coda_line(l)),
            text::texts(out@) == text::filtered(av.take(i as int), p),
        decreases all.len() - i,
    {
        let ghost before = text::texts(out@);
        proof {
            assert(av.take(i + 1).drop_last() =~= av.take(i as int));
            assert(av.take(i + 1).last() == all@[i as int]@);
        }
        let l = all[i].as_str();
        if text::contains(l, "硬规则") || text::contains(l, "修正本章") || text::starts_with(
            l,
            "——",
        ) {
            out.push(all[i].clone());
            assert(text::texts(out@) =~= before.push(all@[i as int]@));
        }
        i = i + 1;
    }
    assert(av.take(i as int) =~= av);
    text::join(&out, "\n")
}

/// Two texts, the second on a new line.
pub open spec fn on_new_line(a: Seq<char>, b: Seq<char>) -> Seq<char> {
    a + "\n"@ + b
}

fn with_new_line(a: &str, b: &str) -> (r: String)
    ensures
        r@ == on_new_line(a@, b@),
{
    let mut s = a.to_owned();
    s.push_str("\n");
    s.push_str(b);
    s
}

/// The stream passed the consistency audit, and the final output says it failed.
pub open spec fn contradicts(s: Seq<char>, f: Seq<char>) -> bool {
    (text::occurs(s, "一致性通过"@) || text::occurs(s, "结果：通过"@)) && text::occurs(
        f,
        "一致性未通过"@,
    )
}

/// A short coda that points back to the stream.
pub open spec fn short_coda(f: Seq<char>) -> bool {
    text::lines_of(f).len() <= 4 && (text::occurs(f, "详见上方"@) || text::occurs(
        f,
        "一致性未通过"@,
    ) || text::occurs(f, "一致性通过"@) || text::occurs(f, "硬规则未通过"@))
}

/// What a tool's card shows: the stream, and the final output where it adds
/// something and does not contradict the stream.
pub open spec fn merged_output(streamed: Seq<char>, final_out: Seq<char>) -> Seq<char> {
    let s = text::trim_back(streamed);
    let f = text::trimmed(final_out);
    let hard = hard_coda(f);
    if s.len() == 0 {
        f
    } else if f.len() == 0 || text::occurs(s, f) {
        s
    } else if contradicts(s, f) {
        if (text::occurs(f, "硬规则"@) || text::occurs(f, "修正本章"@)) && text::trimmed(
            hard,
        ).len() > 0 && !text::occurs(s, text::trimmed(hard)) {
            on_new_line(s, hard)
        } else {
            s
        }
    } else if restated(s, f) && !short_coda(f) {
        s
    } else {
        on_new_line(s, f)
    }
}

/// Joins what a tool streamed with its final output.
pub fn merge_tool_ui_output(streamed: &str, final_out: &str) -> (r: String)
    ensures
        r@ == merged_output(streamed@, final_out@),
{
    let s = text::trim_end(streamed);
    let f = text::trim(final_out);
    if s.is_empty() {
        return f.to_owned();
    }
    if f.is_empty() {
        return s.to_owned();
    }
    if text::contains(s, f) {
        return s.to_owned();
    }
    let stream_pass = text::contains(s, "一致性通过") || text::contains(s, "结果：通过");
    if stream_pass && text::contains(f, "一致性未通过") {
        if text::contains(f, "硬规则") || text::contains(f, "修正本章") {
            let hard = hard_coda_lines(f);
            let h = text::trim(hard.as_str());
            if !h.is_empty() && !text::contains(s, h) {
                return with_new_line(s, hard.as_str());
            }
        }
        return s.to_owned();
    }
    if tool_ui_looks_like_restated_report(s, f) {
        if text::lines(f).len() <= 4 && (text::contains(f, "详见上方") || text::contains(
            f,
            "一致性未通过",
        ) || text::contains(f, "一致性通过") || text::contains(f, "硬规则未通过")) {
            return with_new_line(s, f);
        }
        return s.to_owned();
    }
    with_new_line(s, f)
}

/// The tool failed or was held back.
pub open spec fn tool_failed(data: JsonV) -> bool {
    data.denied("ok"@) || data.flag("blocked"@) || data.get("error"@) is Some
}

/// What the studio says after a confirmed change: a change that took effect is
/// only acknowledged; anything else shows the tool's output.
pub open spec fn apply_summary(intro: Seq<char>, output: Seq<char>, data: JsonV) -> Seq<char> {
    if text::trimmed(output).len() > 0 && (data.flag("needs_confirm"@) || tool_failed(data)) {
        intro + "\n\n"@ + output
    } else {
        intro
    }
}

/// What the studio says after a confirmed change.
pub fn mutation_apply_agent_summary(intro: &str, output: &str, data: &Json) -> (r: String)
    ensures
        r@ == apply_summary(intro@, output@, data@),
{
    let failed = data.is_false("ok") || data.is_true("blocked") || data.get("error").is_some();
    if !text::trim(output).is_empty() && (data.is_true("needs_confirm") || failed) {
        let mut s = intro.to_owned();
        s.push_str("\n\n");
        s.push_str(output);
        s
    } else {
        intro.to_owned()
    }
}

/// A status line that the chat repeats: a step's mark or a wait for the model,
/// but no rule, heading or progress of the draft.
pub open spec fn status_line(t: Seq<char>) -> bool {
    &&& t.len() > 0
    &&& !text::begins(t, "——"@)
    &&& !text::begins(t, "## "@)
    &&& !text::occurs(t, "正文已写入"@)
    &&& !text::occurs(t, "正文生成中"@)
    &&& !text::occurs(t, "↻ draft"@)
    &&& !(text::begins(t, "…"@) && text::occurs(t, "生成中"@))
    &&& (text::begins(t, "▶"@) || text::begins(t, "✓"@) || text::begins(t, "⏸"@)
        || text::begins(t, "⚙"@) || text::begins(t, "✕"@) || text::occurs(t, "调用模型"@)
        || text::occurs(t, "等待首包"@) || text::occurs(t, "模型返回空"@))
}

/// The status lines of a piece of progress.
pub open spec fn status_lines(delta: Seq<char>) -> Seq<Seq<char>> {
    text::filtered(text::trimmed_all(text::lines_of(delta)), |l: Seq<char>| status_line(l))
}

fn is_status_line(t: &str) -> (r: bool)
    ensures
        r == status_line(t@),
{
    if t.is_empty() || text::starts_with(t, "——") || text::starts_with(t, "## ") {
        return false;
    }
    if text::contains(t, "正文已写入") || text::contains(t, "正文生成中") || text::contains(
        t,
        "↻ draft",
    ) || (text::starts_with(t, "…") && text::contains(t, "生成中")) {
        return false;
    }
    text::starts_with(t, "▶") || text::starts_with(t, "✓") || text::starts_with(t, "⏸")
        || text::starts_with(t, "⚙") || text::starts_with(t, "✕") || text::contains(
        t,
        "调用模型",
    ) || text::contains(t, "等待首包") || text::contains(t, "模型返回空")
}

/// What the chat repeats of a piece of progress.
pub fn mirror_status_for_agent_bubble(delta: &str) -> (r: Option<String>)
    ensures
        text::opt_text(r) == if status_lines(delta@).len() == 0 {
            None
        } else {
            Some("\n"@ + text::joined(status_lines(delta@), "\n"@))
        },
{
    let all = text::trimmed_lines(delta);
    let ghost av = text::texts(all@);
    let ghost p = |l: Seq<char>| status_line(l);
    let mut out: Vec<String> = Vec::new();
    let mut i: usize = 0;
    assert(text::texts(out@) =~= text::filtered(av.take(0), p));
    while i < all.len()
        invariant
            i <= all.len(),
            av == text::texts(all@),
            p == (|l: Seq<char>| status_line(l)),
            text::texts(out@) == text::filtered(av.take(i as int), p),
        decreases all.len() - i,
    {
        let ghost before = text::texts(out@);
        proof {
            assert(av.take(i + 1).drop_last() =~= av.take(i as int));
            assert(av.take(i + 1).last() == all@[i as int]@);
        }
        if is_status_line(all[i].as_str()) {
            out.push(all[i].clone());
            assert(text::texts(out@) =~= before.push(all@[i as int]@));
        }
        i = i + 1;
    }
    assert(av.take(i as int) =~= av);
    assert(text::texts(out@) == status_lines(delta@));
    if out.len() == 0 {
        None
    } else {
        let mut s = "\n".to_owned();
        let body = text::join(&out, "\n");
        s.push_str(body.as_str());
        Some(s)
    }
}

// ---------------------------------------------------------------------------
// Audits
// ---------------------------------------------------------------------------

/// Whether a failed audit after writing waits for the studio's own offer before
/// it stops for the author.
pub fn defer_pause_for_studio_audit_offer(audit_fail: bool, awaiting_studio_audit_offer: bool) -> (r:
    bool)
    ensures
        r == (audit_fail && awaiting_studio_audit_offer),
{
    audit_fail && awaiting_studio_audit_offer
}

/// Whether the fixed card opens because the studio offered none.
pub fn should_open_audit_offer_fallback(
    awaiting_studio_audit_offer: bool,
    pending_awaiting_offer: bool,
) -> (r: bool)
    ensures
        r == (awaiting_studio_audit_offer && pending_awaiting_offer),
{
    awaiting_studio_audit_offer && pending_awaiting_offer
}

/// The issue tells of the audit itself failing.
pub open spec fn meta_issue(i: JsonV) -> bool {
    let msg = i.text_or_empty("message"@);
    text::ascii_lowered(i.text_or_empty("type"@)) == "meta"@ && (text::occurs(msg, "返回为空"@)
        || text::occurs(msg, "无法解析"@) || text::occurs(msg, "请重试"@))
}

/// The report tells of the audit itself failing.
pub open spec fn meta_report(r: Seq<char>) -> bool {
    text::occurs(r, "模型返回为空"@) || text::occurs(r, "无法解析"@) || text::occurs(
        r,
        "一致性审计失败：无输出"@,
    )
}

/// The audit failed for reasons of its own, not for what the chapter says.
pub open spec fn meta_only(data: JsonV) -> bool {
    match data.list("issues"@) {
        Some(v) => v.len() > 0 && forall|i: int| 0 <= i < v.len() ==> meta_issue(#[trigger] v[i]),
        None => meta_report(
            match data.text("report"@) {
                Some(r) => r,
                None => data.text_or_empty("message"@),
            },
        ),
    }
}

fn is_meta_issue(i: &Json) -> (r: bool)
    ensures
        r == meta_issue(i@),
{
    let kind = text::to_ascii_lower(i.str_or_empty("type").as_str());
    let msg = i.str_or_empty("message");
    text::same(kind.as_str(), "meta") && (text::contains(msg.as_str(), "返回为空")
        || text::contains(msg.as_str(), "无法解析") || text::contains(
        msg.as_str(),
        "请重试",
    ))
}

/// Whether the audit failed for reasons of its own.
pub fn audit_failure_is_meta_only(data: &Json) -> (r: bool)
    ensures
        r == meta_only(data@),
{
    match data.get_list("issues") {
        Some(v) => {
            let ghost all = json::items(v@);
            if v.len() == 0 {
                return false;
            }
            let mut i: usize = 0;
            while i < v.len()
                invariant
                    i <= v.len(),
                    all == json::items(v@),
                    data@.list("issues"@) == Some(all),
                    forall|j: int| 0 <= j < i ==> meta_issue(#[trigger] all[j]),
                decreases v.len() - i,
            {
                assert(all[i as int] == v@[i as int]@);
                if !is_meta_issue(&v[i]) {
                    assert(!meta_issue(all[i as int]));
                    return false;
                }
                i = i + 1;
            }
            true
        },
        None => {
            let report = match data.get_str("report") {
                Some(r) => r.to_owned(),
                None => data.str_or_empty("message"),
            };
            let r = report.as_str();
            text::contains(r, "模型返回为空") || text::contains(r, "无法解析")
                || text::contains(r, "一致性审计失败：无输出")
        },
    }
}

/// The brief of an audit: its checklist, or else its message or a pointer to
/// the report.
pub open spec fn audit_brief(data: JsonV, s: Seq<IssueV>, chapter: u32) -> Seq<char> {
    let message = text::trimmed(data.text_or_empty("message"@));
    if s.len() > 0 {
        audit_decisions::checklist(s, chapter)
    } else if message.len() > 0 {
        "## 第"@ + text::dec(chapter as nat) + "章审校\n\n"@ + text::first_chars(message, 280)
    } else {
        "## 第"@ + text::dec(chapter as nat)
            + "章审校未通过\n\n（无结构化问题；请展开审校工具卡）"@
    }
}

/// The brief of an audit with the given issues.
pub fn format_audit_choice_brief(data: &Json, list: &Vec<AuditIssue>, chapter: u32) -> (r: String)
    ensures
        r@ == audit_brief(data@, issues::issue_list(list@), chapter),
{
    if list.len() > 0 {
        return audit_decisions::format_audit_issue_checklist(list, chapter);
    }
    let raw = data.str_or_empty("message");
    let message = text::trim(raw.as_str());
    let mut s = "## 第".to_owned();
    s.push_str(text::number(chapter as u64).as_str());
    if !message.is_empty() {
        s.push_str("章审校\n\n");
        let short = text::take_chars(message, 280);
        s.push_str(short.as_str());
    } else {
        s.push_str("章审校未通过\n\n（无结构化问题；请展开审校工具卡）");
    }
    s
}

// ---------------------------------------------------------------------------
// Revising after a passed audit
// ---------------------------------------------------------------------------

/// The first of the keys that has a value, as text.
pub open spec fn first_text2(v: JsonV, a: Seq<char>, b: Seq<char>) -> Seq<char> {
    match v.get(a) {
        Some(_) => v.text_or_empty(a),
        None => v.text_or_empty(b),
    }
}

/// The advice of one issue.
pub open spec fn tip_of(it: JsonV) -> Option<Seq<char>> {
    let pri = first_text2(it, "priority"@, "severity"@);
    let msg = text::trimmed(
        match it.get("message"@) {
            Some(_) => it.text_or_empty("message"@),
            None => first_text2(it, "detail"@, "title"@),
        },
    );
    if msg.len() == 0 {
        None
    } else if pri.len() == 0 {
        Some("- "@ + msg)
    } else {
        Some("- ["@ + pri + "] "@ + msg)
    }
}

/// The advice of the first `n` issues.
pub open spec fn tips_of(v: Seq<JsonV>, n: nat) -> Seq<Seq<char>>
    decreases n,
{
    if n == 0 || n > v.len() {
        Seq::empty()
    } else {
        match tip_of(v[n - 1]) {
            Some(t) => tips_of(v, (n - 1) as nat).push(t),
            None => tips_of(v, (n - 1) as nat),
        }
    }
}

/// The advice of a report's first six issues.
pub open spec fn report_tips(report: JsonV) -> Seq<Seq<char>> {
    match report.list("issues"@) {
        Some(v) => tips_of(
            v,
            if v.len() <= 6 {
                v.len()
            } else {
                6
            },
        ),
        None => Seq::empty(),
    }
}

/// What to revise after an audit, by its report where there is one.
pub open spec fn soft_revise_text(chapter: u32, report: Option<JsonV>) -> Seq<char> {
    let n = text::dec(chapter as nat);
    let plain = "按第"@ + n
        + "章上一轮审校的可改进项做局部修订，保持情节与设定一致，不要无故全文重写。"@;
    match report {
        None => plain,
        Some(v) => {
            let tips = report_tips(v);
            let snippet = text::first_chars(v.text_or_empty("report"@), 400);
            if tips.len() > 0 {
                "按第"@ + n + "章审校可改进项做局部修订：\n"@ + text::joined(tips, "\n"@)
                    + "\n保持情节与设定一致，优先补丁、避免无故全文重写。"@
            } else if text::trimmed(snippet).len() > 0 {
                "按第"@ + n + "章审校报告中的可改进项做局部修订：\n"@ + snippet
            } else {
                plain
            }
        },
    }
}

fn first_of2(v: &Json, a: &str, b: &str) -> (r: String)
    ensures
        r@ == first_text2(v@, a@, b@),
{
    match v.get(a) {
        Some(_) => v.str_or_empty(a),
        None => v.str_or_empty(b),
    }
}

fn tip(it: &Json) -> (r: Option<String>)
    ensures
        text::opt_text(r) == tip_of(it@),
{
    let pri = first_of2(it, "priority", "severity");
    let raw = match it.get("message") {
        Some(_) => it.str_or_empty("message"),
        None => first_of2(it, "detail", "title"),
    };
    let msg = text::trim(raw.as_str());
    if msg.is_empty() {
        return None;
    }
    if pri.as_str().is_empty() {
        let mut s = "- ".to_owned();
        s.push_str(msg);
        Some(s)
    } else {
        let mut s = "- [".to_owned();
        s.push_str(pri.as_str());
        s.push_str("] ");
        s.push_str(msg);
        Some(s)
    }
}

/// What to revise after an audit, by its report where there is one.
pub fn soft_revise_instructions(chapter: u32, report: Option<&Json>) -> (r: String)
    ensures
        r@ == soft_revise_text(chapter, json::opt_json(report)),
{
    let n = text::number(chapter as u64);
    let mut plain = "按第".to_owned();
    plain.push_str(n.as_str());
    plain.push_str(
        "章上一轮审校的可改进项做局部修订，保持情节与设定一致，不要无故全文重写。",
    );
    let v = match report {
        Some(v) => v,
        None => {
            return plain;
        },
    };
    let mut tips: Vec<String> = Vec::new();
    assert(text::texts(tips@) =~= Seq::<Seq<char>>::empty());
    match v.get_list("issues") {
        Some(list) => {
            let ghost all = json::items(list@);
            let most: usize = if list.len() <= 6 {
                list.len()
            } else {
                6
            };
            let mut i: usize = 0;
            while i < most
                invariant
                    i <= most,
                    most <= list.len(),
                    all == json::items(list@),
                    text::texts(tips@) == tips_of(all, i as nat),
                decreases most - i,
            {
                let ghost before = text::texts(tips@);
                assert(all[i as int] == list@[i as int]@);
                match tip(&list[i]) {
                    Some(t) => {
                        tips.push(t);
                        assert(text::texts(tips@) =~= before.push(t@));
                    },
                    None => {},
                }
                i = i + 1;
            }
        },
        None => {},
    }
    if tips.len() > 0 {
        let mut s = "按第".to_owned();
        s.push_str(n.as_str());
        s.push_str("章审校可改进项做局部修订：\n");
        let body = text::join(&tips, "\n");
        s.push_str(body.as_str());
        s.push_str("\n保持情节与设定一致，优先补丁、避免无故全文重写。");
        return s;
    }
    let whole = v.str_or_empty("report");
    let snippet = text::take_chars(whole.as_str(), 400);
    if !text::trim(snippet.as_str()).is_empty() {
        let mut s = "按第".to_owned();
        s.push_str(n.as_str());
        s.push_str("章审校报告中的可改进项做局部修订：\n");
        s.push_str(snippet.as_str());
        return s;
    }
    plain
}

// ---------------------------------------------------------------------------
// Hard rules and length
// ---------------------------------------------------------------------------

/// A line without its number.
pub open spec fn unnumbered(t: Seq<char>) -> Seq<char> {
    match text::cut_once(t, ". "@) {
        Some(p) => if p.0.len() > 0 && text::all_digits(p.0) {
            text::trimmed(p.1)
        } else {
            t
        },
        None => t,
    }
}

/// The message tells of a broken rule.
pub open spec fn rule_message(m: Seq<char>) -> bool {
    text::begins(m, "正文出现"@) || text::occurs(m, "禁名「"@) || text::occurs(m, "元叙述"@)
        || text::occurs(m, "[CONTRADICTION]"@) || text::occurs(m, "[NEW_FACT]"@)
}

/// The messages of broken rules among the first `n` lines, as list points.
pub open spec fn rule_points(v: Seq<Seq<char>>, n: nat) -> Seq<Seq<char>>
    decreases n,
{
    if n == 0 || n > v.len() {
        Seq::empty()
    } else {
        let m = unnumbered(text::trimmed(v[n - 1]));
        if rule_message(m) {
            rule_points(v, (n - 1) as nat).push("· "@ + m)
        } else {
            rule_points(v, (n - 1) as nat)
        }
    }
}

/// The messages of broken rules in a text, as list points.
pub open spec fn rule_points_in(s: Seq<char>) -> Seq<Seq<char>> {
    rule_points(text::lines_of(s), text::lines_of(s).len())
}

fn strip_number(t: &str) -> (r: String)
    ensures
        r@ == unnumbered(t@),
{
    match text::split_once(t, ". ") {
        Some((idx, rest)) => if !idx.as_str().is_empty() && text::only_digits(idx.as_str()) {
            text::trim(rest.as_str()).to_owned()
        } else {
            t.to_owned()
        },
        None => t.to_owned(),
    }
}

fn collect_rule_points(s: &str) -> (r: Vec<String>)
    ensures
        text::texts(r@) == rule_points_in(s@),
{
    let all = text::lines(s);
    let ghost av = text::texts(all@);
    let mut out: Vec<String> = Vec::new();
    assert(text::texts(out@) =~= Seq::<Seq<char>>::empty());
    let mut i: usize = 0;
    while i < all.len()
        invariant
            i <= all.len(),
            av == text::texts(all@),
            text::texts(out@) == rule_points(av, i as nat),
        decreases all.len() - i,
    {
        let ghost before = text::texts(out@);
        assert(av[i as int] == all@[i as int]@);
        let m = strip_number(text::trim(all[i].as_str()));
        let t = m.as_str();
        if text::starts_with(t, "正文出现") || text::contains(t, "禁名「") || text::contains(
            t,
            "元叙述",
        ) || text::contains(t, "[CONTRADICTION]") || text::contains(t, "[NEW_FACT]") {
            let mut p = "· ".to_owned();
            p.push_str(t);
            out.push(p);
            assert(text::texts(out@) =~= before.push(p@));
        }
        i = i + 1;
    }
    out
}

/// The line is part of the story, not a heading, and breaks a rule on names or
/// chapter numbers.
pub open spec fn flagged(line: Seq<char>, rules: Seq<Seq<char>>) -> bool {
    !text::begins(text::trim_front(line), "#"@) && (rules.contains("meta_chapter_ref"@)
        || rules.contains("banned_name"@))
}

/// The list point of a draft's line.
pub open spec fn line_point(n: nat, line: Seq<char>) -> Seq<char> {
    "· 约第"@ + text::dec(n) + "行原文：「"@ + text::first_chars(text::trimmed(line), 100)
        + "」"@
}

/// The list points of the first `n` lines of a draft, given the rules that each
/// line breaks.
pub open spec fn draft_points(
    lines: Seq<Seq<char>>,
    rules: Seq<Seq<Seq<char>>>,
    n: nat,
) -> Seq<Seq<char>>
    decreases n,
{
    if n == 0 || n > lines.len() || n > rules.len() {
        Seq::empty()
    } else if flagged(lines[n - 1], rules[n - 1]) {
        draft_points(lines, rules, (n - 1) as nat).push(line_point(n, lines[n - 1]))
    } else {
        draft_points(lines, rules, (n - 1) as nat)
    }
}

/// How many lines have their rules told.
pub open spec fn told(lines: Seq<Seq<char>>, rules: Seq<Seq<Seq<char>>>) -> nat {
    if lines.len() <= rules.len() {
        lines.len()
    } else {
        rules.len()
    }
}

/// What to revise after the hard rules stopped a chapter: the points of the
/// message, or of the report where there is none, and those of the draft, in
/// order and each once.
pub open spec fn hard_rule_text(
    chapter: u32,
    message: Seq<char>,
    report: Seq<char>,
    lines: Seq<Seq<char>>,
    rules: Seq<Seq<Seq<char>>>,
) -> Seq<char> {
    let detail = if text::trimmed(message).len() > 0 {
        message
    } else {
        report
    };
    let points = order::sorted_set(
        rule_points_in(detail) + draft_points(lines, rules, told(lines, rules)),
    );
    let head = "硬规则阻断第"@ + text::dec(chapter as nat)
        + "章发布。只改违规句，勿整章重写。除标题行「# 第N章 …」外，正文禁止出现任何「第…章」字样；改用故事内时间/事件指称（如「上次会面时」「那次接口被打开时」）。"@;
    if points.len() == 0 {
        head
    } else {
        head + "\n必须处理：\n"@ + text::joined(points, "\n"@)
    }
}

/// What to revise after the hard rules stopped a chapter. `line_rules` tells
/// which rules each line of the draft breaks.
pub fn hard_rule_revise_instructions(
    chapter: u32,
    message: &str,
    report: &str,
    draft: &str,
    line_rules: &Vec<Vec<String>>,
) -> (r: String)
    ensures
        r@ == hard_rule_text(
            chapter,
            message@,
            report@,
            text::lines_of(draft@),
            intent::group_texts(line_rules@),
        ),
{
    let detail = if !text::trim(message).is_empty() {
        message
    } else {
        report
    };
    let mut points = collect_rule_points(detail);
    let ghost told_points = text::texts(points@);
    let lines = text::lines(draft);
    let ghost lv = text::texts(lines@);
    let ghost rv = intent::group_texts(line_rules@);
    let most: usize = if lines.len() <= line_rules.len() {
        lines.len()
    } else {
        line_rules.len()
    };
    let mut i: usize = 0;
    assert(told_points + draft_points(lv, rv, 0) =~= told_points);
    while i < most
        invariant
            i <= most,
            most <= lines.len(),
            most <= line_rules.len(),
            lv == text::texts(lines@),
            rv == intent::group_texts(line_rules@),
            text::texts(points@) == told_points + draft_points(lv, rv, i as nat),
        decreases most - i,
    {
        let ghost before = text::texts(points@);
        let line = lines[i].as_str();
        let rules = &line_rules[i];
        proof {
            assert(lv[i as int] == line@);
            assert(rv[i as int] == text::texts(rules@));
        }
        if !text::starts_with(text::trim_start(line), "#") && (audit_decisions::holds_text(
            rules,
            "meta_chapter_ref",
        ) || audit_decisions::holds_text(rules, "banned_name")) {
            let mut p = "· 约第".to_owned();
            p.push_str(text::number((i + 1) as u64).as_str());
            p.push_str("行原文：「");
            let snippet = text::take_chars(text::trim(line), 100);
            p.push_str(snippet.as_str());
            p.push_str("」");
            points.push(p);
            proof {
                assert(text::texts(points@) =~= before.push(p@));
                assert(told_points + draft_points(lv, rv, i as nat).push(p@) =~= (told_points
                    + draft_points(lv, rv, i as nat)).push(p@));
            }
        }
        i = i + 1;
    }
    let sorted = order::sorted_unique(&points);
    let mut out = "硬规则阻断第".to_owned();
    out.push_str(text::number(chapter as u64).as_str());
    out.push_str(
        "章发布。只改违规句，勿整章重写。除标题行「# 第N章 …」外，正文禁止出现任何「第…章」字样；改用故事内时间/事件指称（如「上次会面时」「那次接口被打开时」）。",
    );
    if sorted.len() > 0 {
        out.push_str("\n必须处理：\n");
        let body = text::join(&sorted, "\n");
        out.push_str(body.as_str());
    }
    out
}

/// Whether a repair that only clears chapter numbers out of the story may be
/// written: there is something to clear and nothing else is broken, and the
/// repaired draft breaks that rule no more.
pub open spec fn autofix_allowed(
    violations: Seq<Seq<char>>,
    has_fixed: bool,
    fixed_violations: Seq<Seq<char>>,
) -> bool {
    violations.len() > 0 && (forall|i: int|
        0 <= i < violations.len() ==> #[trigger] violations[i] == "meta_chapter_ref"@) && has_fixed
        && !fixed_violations.contains("meta_chapter_ref"@)
}

/// What the studio says of a repair that clears chapter numbers, where it may be
/// written: `violations` are the rules that the draft breaks, `fixed_violations`
/// those that the repaired draft breaks.
pub fn autofix_meta_chapter_refs(
    project: &str,
    chapter: u32,
    violations: &Vec<String>,
    has_fixed: bool,
    fixed_violations: &Vec<String>,
) -> (r: Option<String>)
    ensures
        text::opt_text(r) == if project@.len() > 0 && chapter != 0 && autofix_allowed(
            text::texts(violations@),
            has_fixed,
            text::texts(fixed_violations@),
        ) {
            Some(
                "已自动清除正文中的章号元叙述（"@ + text::dec(violations@.len())
                    + " 处），标题行未改。"@,
            )
        } else {
            None
        },
{
    if project.is_empty() || chapter == 0 || violations.len() == 0 {
        return None;
    }
    let ghost vv = text::texts(violations@);
    let mut i: usize = 0;
    while i < violations.len()
        invariant
            i <= violations.len(),
            vv == text::texts(violations@),
            forall|j: int| 0 <= j < i ==> #[trigger] vv[j] == "meta_chapter_ref"@,
        decreases violations.len() - i,
    {
        assert(vv[i as int] == violations@[i as int]@);
        if !text::same(violations[i].as_str(), "meta_chapter_ref") {
            return None;
        }
        i = i + 1;
    }
    if !has_fixed || audit_decisions::holds_text(fixed_violations, "meta_chapter_ref") {
        return None;
    }
    let mut s = "已自动清除正文中的章号元叙述（".to_owned();
    s.push_str(text::number(violations.len() as u64).as_str());
    s.push_str(" 处），标题行未改。");
    Some(s)
}

/// The prompt after a published chapter.
pub open spec fn published_prompt(chapter: u32, plot_accept_open: bool) -> Seq<char> {
    "第"@ + text::dec(chapter as nat) + if plot_accept_open {
        "章已发布，但剧情收束条件尚未兑现。可继续推进本卡，或修正本章补写收束；也可点「其他」说明要求。"@
    } else {
        "章已发布。请选择：继续创作；也可点「其他」说明要求。"@
    }
}

/// The prompt after a published chapter.
pub fn chapter_next_published_prompt(chapter: u32, plot_accept_open: bool) -> (r: String)
    ensures
        r@ == published_prompt(chapter, plot_accept_open),
{
    let mut s = "第".to_owned();
    s.push_str(text::number(chapter as u64).as_str());
    if plot_accept_open {
        s.push_str(
            "章已发布，但剧情收束条件尚未兑现。可继续推进本卡，或修正本章补写收束；也可点「其他」说明要求。",
        );
    } else {
        s.push_str("章已发布。请选择：继续创作；也可点「其他」说明要求。");
    }
    s
}

/// The chapter's length kept it from being published.
pub open spec fn length_blocked(data: JsonV) -> bool {
    data.text("length_status"@) == Some("hard_short"@) || data.text("length_status"@) == Some(
        "soft_short_escalated"@,
    )
}

/// Whether the chapter's length kept it from being published.
pub fn is_length_publish_blocked(data: &Json) -> (r: bool)
    ensures
        r == length_blocked(data@),
{
    match data.get_str("length_status") {
        Some(w) => text::same(w, "hard_short") || text::same(w, "soft_short_escalated"),
        None => false,
    }
}

/// The line speaks of the chapter's length.
pub open spec fn length_line(l: Seq<char>) -> bool {
    text::occurs(l, "字数"@) || text::occurs(l, "偏短"@) || text::occurs(l, "硬门控"@)
}

fn is_length_line(l: &str) -> (r: bool)
    ensures
        r == length_line(l@),
{
    text::contains(l, "字数") || text::contains(l, "偏短") || text::contains(l, "硬门控")
}

/// The lines of a text that speak of the length, trimmed.
pub open spec fn length_lines(s: Seq<char>) -> Seq<Seq<char>> {
    text::filtered(text::trimmed_all(text::lines_of(s)), |l: Seq<char>| length_line(l))
}

fn collect_length_lines(s: &str) -> (r: Vec<String>)
    ensures
        text::texts(r@) == length_lines(s@),
{
    let all = text::trimmed_lines(s);
    let ghost av = text::texts(all@);
    let ghost p = |l: Seq<char>| length_line(l);
    let mut out: Vec<String> = Vec::new();
    let mut i: usize = 0;
    assert(text::texts(out@) =~= text::filtered(av.take(0), p));
    while i < all.len()
        invariant
            i <= all.len(),
            av == text::texts(all@),
            p == (|l: Seq<char>| length_line(l)),
            text::texts(out@) == text::filtered(av.take(i as int), p),
        decreases all.len() - i,
    {
        let ghost before = text::texts(out@);
        proof {
            assert(av.take(i + 1).drop_last() =~= av.take(i as int));
            assert(av.take(i + 1).last() == all@[i as int]@);
        }
        if is_length_line(all[i].as_str()) {
            out.push(all[i].clone());
            assert(text::texts(out@) =~= before.push(all@[i as int]@));
        }
        i = i + 1;
    }
    assert(av.take(i as int) =~= av);
    assert(text::texts(out@) == length_lines(s@));
    out
}

/// The first texts of a list, at most three.
pub open spec fn first_three(v: Seq<Seq<char>>) -> Seq<Seq<char>> {
    if v.len() <= 3 {
        v
    } else {
        v.take(3)
    }
}

/// How to lengthen a chapter, with up to three lines that speak of its length.
pub open spec fn length_text(range_label: Seq<char>, detail: Seq<char>) -> Seq<char> {
    let head = "扩写到"@ + range_label
        + "字完整一章；保持情节与人物一致，补足场景与对话，勿注水、勿另起主线。"@;
    let hint = text::joined(first_three(length_lines(detail)), "；"@);
    if hint.len() == 0 {
        head
    } else {
        head + " 参考："@ + hint
    }
}

/// How to lengthen a chapter to the range that the label names.
pub fn length_revise_instructions(range_label: &str, detail: &str) -> (r: String)
    ensures
        r@ == length_text(range_label@, detail@),
{
    let mut s = "扩写到".to_owned();
    s.push_str(range_label);
    s.push_str("字完整一章；保持情节与人物一致，补足场景与对话，勿注水、勿另起主线。");
    let mut found = collect_length_lines(detail);
    let ghost fv = text::texts(found@);
    found.truncate(3);
    assert(text::texts(found@) =~= first_three(fv));
    let hint = text::join(&found, "；");
    if !hint.as_str().is_empty() {
        s.push_str(" 参考：");
        s.push_str(hint.as_str());
    }
    s
}

/// The prompt after a chapter that is too short.
pub open spec fn length_prompt(chapter: u32, message: Seq<char>) -> Seq<char> {
    "第"@ + text::dec(chapter as nat) + "章因字数未发布（"@ + if length_lines(message).len()
        > 0 {
        length_lines(message)[0]
    } else {
        "正文字数未达发布门槛"@
    } + "）。请选择：修正本章（扩写）；也可点「其他」说明要求。"@
}

/// The prompt after a chapter that is too short.
pub fn chapter_next_length_prompt(chapter: u32, tool_message: &str) -> (r: String)
    ensures
        r@ == length_prompt(chapter, tool_message@),
{
    let found = collect_length_lines(tool_message);
    let mut s = "第".to_owned();
    s.push_str(text::number(chapter as u64).as_str());
    s.push_str("章因字数未发布（");
    if found.len() > 0 {
        assert(text::texts(found@)[0] == found@[0]@);
        s.push_str(found[0].as_str());
    } else {
        s.push_str("正文字数未达发布门槛");
    }
    s.push_str("）。请选择：修正本章（扩写）；也可点「其他」说明要求。");
    s
}

/// The prompt after the hard rules stopped a chapter.
pub open spec fn hard_rule_prompt(chapter: u32, message: Seq<char>) -> Seq<char> {
    let points = rule_points_in(message);
    if points.len() == 0 {
        "第"@ + text::dec(chapter as nat)
            + "章因硬规则未发布（如正文出现「第N章」元叙述或禁名）。请选择：修正本章；也可点「其他」说明要求。"@
    } else {
        "第"@ + text::dec(chapter as nat) + "章因硬规则未发布：\n"@ + text::joined(points, "\n"@)
            + "\n\n请选择：修正本章；也可点「其他」说明要求。"@
    }
}

/// The prompt after the hard rules stopped a chapter.
pub fn chapter_next_hard_rule_prompt(chapter: u32, tool_message: &str) -> (r: String)
    ensures
        r@ == hard_rule_prompt(chapter, tool_message@),
{
    let points = collect_rule_points(tool_message);
    let mut s = "第".to_owned();
    s.push_str(text::number(chapter as u64).as_str());
    if points.len() == 0 {
        s.push_str(
            "章因硬规则未发布（如正文出现「第N章」元叙述或禁名）。请选择：修正本章；也可点「其他」说明要求。",
        );
    } else {
        s.push_str("章因硬规则未发布：\n");
        let body = text::join(&points, "\n");
        s.push_str(body.as_str());
        s.push_str("\n\n请选择：修正本章；也可点「其他」说明要求。");
    }
    s
}

/// How to write a plot's closing that is still missing.
pub open spec fn closing_text(rationale: Seq<char>) -> Seq<char> {
    let r = text::trimmed(rationale);
    if r.len() == 0 {
        "对照剧情卡收束条件补写本章缺口；只改收束相关段落，勿整章重写。"@
    } else {
        "对照剧情卡收束条件补写本章缺口："@ + r
            + "；只改收束相关段落，勿整章重写。"@
    }
}

/// How to write a plot's closing that is still missing.
pub fn closing_instructions(rationale: &str) -> (r: String)
    ensures
        r@ == closing_text(rationale@),
{
    let t = text::trim(rationale);
    if t.is_empty() {
        return "对照剧情卡收束条件补写本章缺口；只改收束相关段落，勿整章重写。".to_owned();
    }
    let mut s = "对照剧情卡收束条件补写本章缺口：".to_owned();
    s.push_str(t);
    s.push_str("；只改收束相关段落，勿整章重写。");
    s
}

} // verus!
