//! Decisions after a failed audit: the checklist, the card with one option per
//! blocking issue, and what a pick from that card runs.

use vstd::prelude::*;

use crate::gates;
use crate::gates::{UserInputOption, UserInputOptionV};
use crate::issues;
use crate::issues::{AuditIssue, IssueV};
use crate::json;
use crate::json::{Json, JsonV};
use crate::text;

verus! {

/// One decision, bound to the tool call that it stands for.
pub struct AuditDecisionOption {
    pub id: String,
    pub label: String,
    pub tool: String,
    pub args: Json,
}

/// A decision by contents.
pub struct DecisionV {
    pub id: Seq<char>,
    pub label: Seq<char>,
    pub tool: Seq<char>,
    pub args: JsonV,
}

impl View for AuditDecisionOption {
    type V = DecisionV;

    open spec fn view(&self) -> DecisionV {
        DecisionV { id: self.id@, label: self.label@, tool: self.tool@, args: self.args@ }
    }
}

/// The contents of a list of decisions.
pub open spec fn decision_list(v: Seq<AuditDecisionOption>) -> Seq<DecisionV> {
    Seq::new(v.len(), |i: int| v[i]@)
}

impl AuditDecisionOption {
    /// A copy of the decision.
    pub fn copy(&self) -> (r: AuditDecisionOption)
        ensures
            r@ == self@,
    {
        AuditDecisionOption {
            id: self.id.clone(),
            label: self.label.clone(),
            tool: self.tool.clone(),
            args: self.args.copy(),
        }
    }
}

// ---------------------------------------------------------------------------
// The checklist
// ---------------------------------------------------------------------------

/// An optional text, or another where there is none.
pub open spec fn or_text(o: Option<Seq<char>>, other: Seq<char>) -> Seq<char> {
    match o {
        Some(s) => s,
        None => other,
    }
}

/// `s` with one more piece, where the condition holds.
pub open spec fn plus_if(s: Seq<char>, cond: bool, piece: Seq<char>) -> Seq<char> {
    if cond {
        s + piece
    } else {
        s
    }
}

/// The line of one issue, numbered `n`.
pub open spec fn checklist_line(n: nat, i: IssueV) -> Seq<char> {
    let head = text::dec(n) + ". `"@ + or_text(i.id, "?"@) + "` ["@ + i.priority;
    let kinded = plus_if(head, i.kind.len() > 0, "/"@ + i.kind);
    let told = kinded + "] "@ + text::first_chars(or_text(i.message, "一致性问题"@), 72);
    let located = plus_if(told, i.location.len() > 0, "（"@ + i.location + "）"@);
    plus_if(
        located,
        i.quote.len() > 0,
        "\n   「"@ + text::first_chars(i.quote, 40) + "」"@,
    )
}

/// The lines of the issues, numbered from one.
pub open spec fn checklist_lines(s: Seq<IssueV>) -> Seq<Seq<char>> {
    Seq::new(s.len(), |i: int| checklist_line((i + 1) as nat, s[i]))
}

/// The heading of the checklist.
pub open spec fn checklist_head(s: Seq<IssueV>, chapter: u32) -> Seq<char> {
    "## 第"@ + text::dec(chapter as nat) + "章审校未通过\n\n阻断 **"@ + text::dec(
        issues::count_priority(s, "P0"@),
    ) + "** · 建议 **"@ + text::dec(issues::count_priority(s, "P1"@)) + "** · 共 "@ + text::dec(
        s.len(),
    ) + " 条（全文见审校工具卡）\n\n### 问题清单"@
}

/// The checklist: its heading, then the blocking issues before the others.
pub open spec fn checklist(s: Seq<IssueV>, chapter: u32) -> Seq<char> {
    let head = seq![checklist_head(s, chapter)];
    let ordered = issues::p0_only(s) + issues::others_only(s);
    text::joined(
        if ordered.len() == 0 {
            head + seq!["（无结构化问题条目；请展开审校工具卡查看原文）"@]
        } else {
            head + checklist_lines(ordered)
        },
        "\n"@,
    )
}

fn line_of(n: usize, i: &AuditIssue) -> (r: String)
    ensures
        r@ == checklist_line(n as nat, i@),
{
    let mut line = text::number(n as u64);
    line.push_str(". `");
    match &i.id {
        Some(id) => line.push_str(id.as_str()),
        None => line.push_str("?"),
    }
    line.push_str("` [");
    line.push_str(i.priority.as_str());
    if !i.kind.as_str().is_empty() {
        let mut piece = "/".to_owned();
        piece.push_str(i.kind.as_str());
        line.push_str(piece.as_str());
    }
    line.push_str("] ");
    let short = match &i.message {
        Some(m) => text::take_chars(m.as_str(), 72),
        None => text::take_chars("一致性问题", 72),
    };
    line.push_str(short.as_str());
    if !i.location.as_str().is_empty() {
        let mut piece = "（".to_owned();
        piece.push_str(i.location.as_str());
        piece.push_str("）");
        line.push_str(piece.as_str());
    }
    if !i.quote.as_str().is_empty() {
        let mut piece = "\n   「".to_owned();
        let q = text::take_chars(i.quote.as_str(), 40);
        piece.push_str(q.as_str());
        piece.push_str("」");
        line.push_str(piece.as_str());
    }
    line
}

/// A compact checklist for the chat; the full report stays on the tool card.
pub fn format_audit_issue_checklist(list: &Vec<AuditIssue>, chapter: u32) -> (r: String)
    ensures
        r@ == checklist(issues::issue_list(list@), chapter),
{
    let ghost all = issues::issue_list(list@);
    let p0 = issues::count_with_priority(list, "P0");
    let p1 = issues::count_with_priority(list, "P1");
    let mut head = "## 第".to_owned();
    head.push_str(text::number(chapter as u64).as_str());
    head.push_str("章审校未通过\n\n阻断 **");
    head.push_str(text::number(p0 as u64).as_str());
    head.push_str("** · 建议 **");
    head.push_str(text::number(p1 as u64).as_str());
    head.push_str("** · 共 ");
    head.push_str(text::number(list.len() as u64).as_str());
    head.push_str(" 条（全文见审校工具卡）\n\n### 问题清单");
    let mut ordered = issues::p0_issues(list);
    let mut rest = issues::other_issues(list);
    let ghost front = issues::issue_list(ordered@);
    let ghost back = issues::issue_list(rest@);
    ordered.append(&mut rest);
    assert(issues::issue_list(ordered@) =~= front + back);
    let ghost both = issues::issue_list(ordered@);
    let mut lines: Vec<String> = Vec::new();
    lines.push(head);
    let ghost first = seq![head@];
    assert(text::texts(lines@) =~= first + checklist_lines(both.take(0)));
    let mut i: usize = 0;
    while i < ordered.len()
        invariant
            i <= ordered.len(),
            both == issues::issue_list(ordered@),
            first.len() == 1,
            text::texts(lines@) == first + checklist_lines(both.take(i as int)),
        decreases ordered.len() - i,
    {
        let ghost before = text::texts(lines@);
        let line = line_of(i + 1, &ordered[i]);
        lines.push(line);
        proof {
            assert(text::texts(lines@) =~= before.push(line@));
            assert(both[i as int] == ordered@[i as int]@);
            assert(first + checklist_lines(both.take(i + 1)) =~= before.push(line@));
        }
        i = i + 1;
    }
    assert(both.take(i as int) =~= both);
    if lines.len() == 1 {
        lines.push("（无结构化问题条目；请展开审校工具卡查看原文）".to_owned());
        assert(text::texts(lines@) =~= first + seq![
            "（无结构化问题条目；请展开审校工具卡查看原文）"@,
        ]);
    }
    text::join(&lines, "\n")
}

/// The prompt of the card after a failed audit.
pub open spec fn fail_prompt(chapter: u32, s: Seq<IssueV>, queue_active: bool) -> Seq<char> {
    "第"@ + text::dec(chapter as nat) + "章未通过（"@ + text::dec(
        issues::count_priority(s, "P0"@),
    ) + if queue_active {
        " 条阻断 · 审阅队列），请选择处理项："@
    } else {
        " 条阻断），请选择处理项："@
    }
}

/// The prompt of the card after a failed audit.
pub fn audit_fail_prompt(chapter: u32, list: &Vec<AuditIssue>, queue_active: bool) -> (r: String)
    ensures
        r@ == fail_prompt(chapter, issues::issue_list(list@), queue_active),
{
    let p0 = issues::count_with_priority(list, "P0");
    let mut s = "第".to_owned();
    s.push_str(text::number(chapter as u64).as_str());
    s.push_str("章未通过（");
    s.push_str(text::number(p0 as u64).as_str());
    if queue_active {
        s.push_str(" 条阻断 · 审阅队列），请选择处理项：");
    } else {
        s.push_str(" 条阻断），请选择处理项：");
    }
    s
}

// ---------------------------------------------------------------------------
// The card
// ---------------------------------------------------------------------------

/// The arguments of a steered revision or acceptance.
pub open spec fn steer_args(project: Seq<char>, chapter: u32, choice: Seq<char>) -> JsonV {
    JsonV::empty_object().put("project"@, JsonV::Text(project)).put(
        "chapter"@,
        JsonV::Uint(chapter as u64),
    ).put("choice"@, JsonV::Text(choice))
}

/// The arguments of a revision that takes up the named issues.
pub open spec fn revise_args(project: Seq<char>, chapter: u32, ids: Seq<Seq<char>>) -> JsonV {
    steer_args(project, chapter, "revise"@).put("issue_ids"@, issues::text_list(ids))
}

/// The arguments of a step of the audit queue.
pub open spec fn queue_args(project: Seq<char>, action: Seq<char>) -> JsonV {
    JsonV::empty_object().put("project"@, JsonV::Text(project)).put(
        "action"@,
        JsonV::Text(action),
    )
}

/// The option that takes up one blocking issue.
pub open spec fn fix_option(project: Seq<char>, chapter: u32, i: IssueV) -> DecisionV {
    let id = or_text(i.id, "issue"@);
    let short = text::first_chars(or_text(i.message, "问题"@), 28);
    DecisionV {
        id: "fix_"@ + id,
        label: if i.kind.len() == 0 {
            "修："@ + short
        } else {
            "修："@ + i.kind + " "@ + short
        },
        tool: "steer_run"@,
        args: revise_args(project, chapter, seq![id]),
    }
}

/// One option for each of the first six blocking issues.
pub open spec fn fix_options(project: Seq<char>, chapter: u32, p0: Seq<IssueV>) -> Seq<DecisionV> {
    Seq::new(
        if p0.len() <= 6 {
            p0.len()
        } else {
            6
        },
        |i: int| fix_option(project, chapter, p0[i]),
    )
}

/// The option that takes up all issues at once, where there is something to
/// gather: several blocking issues, or none but advice.
pub open spec fn gather_options(project: Seq<char>, chapter: u32, s: Seq<IssueV>) -> Seq<
    DecisionV,
> {
    let p0 = issues::p0_only(s);
    if p0.len() > 1 {
        seq![
            DecisionV {
                id: "fix_all_p0"@,
                label: "修全部阻断项"@,
                tool: "steer_run"@,
                args: revise_args(project, chapter, issues::ids_of(p0)),
            },
        ]
    } else if p0.len() == 0 && s.len() > 0 {
        seq![
            DecisionV {
                id: "fix_all"@,
                label: "按清单局部修订"@,
                tool: "steer_run"@,
                args: revise_args(project, chapter, issues::ids_of(s)),
            },
        ]
    } else {
        Seq::empty()
    }
}

/// The option that accepts the issues.
pub open spec fn accept_option(project: Seq<char>, chapter: u32) -> DecisionV {
    DecisionV {
        id: "accept"@,
        label: "接受并结束本轮"@,
        tool: "steer_run"@,
        args: steer_args(project, chapter, "accept"@),
    }
}

/// The options that move or end the audit queue.
pub open spec fn queue_options(project: Seq<char>, queue_active: bool) -> Seq<DecisionV> {
    if queue_active {
        seq![
            DecisionV {
                id: "aq_skip"@,
                label: "跳过，审下一章"@,
                tool: "audit_chapters"@,
                args: queue_args(project, "next"@),
            },
            DecisionV {
                id: "aq_cancel"@,
                label: "结束审阅队列"@,
                tool: "audit_chapters"@,
                args: queue_args(project, "cancel"@),
            },
        ]
    } else {
        Seq::empty()
    }
}

/// The options of the card after a failed audit.
pub open spec fn fallback_decisions(
    project: Seq<char>,
    chapter: u32,
    s: Seq<IssueV>,
    queue_active: bool,
) -> Seq<DecisionV> {
    fix_options(project, chapter, issues::p0_only(s)) + gather_options(project, chapter, s) + seq![
        accept_option(project, chapter),
    ] + queue_options(project, queue_active)
}

fn steer_value(project: &str, chapter: u32, choice: &str) -> (r: Json)
    ensures
        r@ == steer_args(project@, chapter, choice@),
{
    Json::object().with_str("project", project).with_u32("chapter", chapter).with_str(
        "choice",
        choice,
    )
}

fn revise_value(project: &str, chapter: u32, ids: &Vec<String>) -> (r: Json)
    ensures
        r@ == revise_args(project@, chapter, text::texts(ids@)),
{
    steer_value(project, chapter, "revise").with("issue_ids", issues::texts_value(ids))
}

fn queue_value(project: &str, action: &str) -> (r: Json)
    ensures
        r@ == queue_args(project@, action@),
{
    Json::object().with_str("project", project).with_str("action", action)
}

fn fix_one(project: &str, chapter: u32, i: &AuditIssue) -> (r: AuditDecisionOption)
    ensures
        r@ == fix_option(project@, chapter, i@),
{
    let id = match &i.id {
        Some(s) => s.clone(),
        None => "issue".to_owned(),
    };
    let short = match &i.message {
        Some(m) => text::take_chars(m.as_str(), 28),
        None => text::take_chars("问题", 28),
    };
    let mut label = "修：".to_owned();
    if !i.kind.as_str().is_empty() {
        label.push_str(i.kind.as_str());
        label.push_str(" ");
    }
    label.push_str(short.as_str());
    let mut name = "fix_".to_owned();
    name.push_str(id.as_str());
    let mut ids: Vec<String> = Vec::new();
    ids.push(id);
    assert(text::texts(ids@) =~= seq![id@]);
    AuditDecisionOption {
        id: name,
        label,
        tool: "steer_run".to_owned(),
        args: revise_value(project, chapter, &ids),
    }
}

/// The options of the card after a failed audit: one per blocking issue, all at
/// once, accepting, and the steps of a running queue.
pub fn build_fallback_audit_decisions(
    project: &str,
    chapter: u32,
    list: &Vec<AuditIssue>,
    queue_active: bool,
) -> (r: Vec<AuditDecisionOption>)
    ensures
        decision_list(r@) == fallback_decisions(
            project@,
            chapter,
            issues::issue_list(list@),
            queue_active,
        ),
{
    let ghost all = issues::issue_list(list@);
    let p0 = issues::p0_issues(list);
    let ghost p0v = issues::issue_list(p0@);
    let most: usize = if p0.len() <= 6 {
        p0.len()
    } else {
        6
    };
    let mut out: Vec<AuditDecisionOption> = Vec::new();
    let mut i: usize = 0;
    while i < most
        invariant
            i <= most,
            most <= p0.len(),
            p0v == issues::issue_list(p0@),
            out.len() == i,
            forall|j: int|
                0 <= j < i ==> (#[trigger] out@[j])@ == fix_option(project@, chapter, p0v[j]),
        decreases most - i,
    {
        out.push(fix_one(project, chapter, &p0[i]));
        i = i + 1;
    }
    let ghost fixes = fix_options(project@, chapter, p0v);
    assert(decision_list(out@) =~= fixes);
    let ghost gather = gather_options(project@, chapter, all);
    if p0.len() > 1 {
        let ids = issues::issue_ids(&p0);
        out.push(
            AuditDecisionOption {
                id: "fix_all_p0".to_owned(),
                label: "修全部阻断项".to_owned(),
                tool: "steer_run".to_owned(),
                args: revise_value(project, chapter, &ids),
            },
        );
    } else if p0.len() == 0 && list.len() > 0 {
        let ids = issues::issue_ids(list);
        out.push(
            AuditDecisionOption {
                id: "fix_all".to_owned(),
                label: "按清单局部修订".to_owned(),
                tool: "steer_run".to_owned(),
                args: revise_value(project, chapter, &ids),
            },
        );
    }
    assert(decision_list(out@) =~= fixes + gather);
    out.push(
        AuditDecisionOption {
            id: "accept".to_owned(),
            label: "接受并结束本轮".to_owned(),
            tool: "steer_run".to_owned(),
            args: steer_value(project, chapter, "accept"),
        },
    );
    let ghost done = fixes + gather + seq![accept_option(project@, chapter)];
    assert(decision_list(out@) =~= done);
    if queue_active {
        out.push(
            AuditDecisionOption {
                id: "aq_skip".to_owned(),
                label: "跳过，审下一章".to_owned(),
                tool: "audit_chapters".to_owned(),
                args: queue_value(project, "next"),
            },
        );
        out.push(
            AuditDecisionOption {
                id: "aq_cancel".to_owned(),
                label: "结束审阅队列".to_owned(),
                tool: "audit_chapters".to_owned(),
                args: queue_value(project, "cancel"),
            },
        );
    }
    assert(decision_list(out@) =~= done + queue_options(project@, queue_active));
    out
}

/// The buttons of a card of decisions.
pub open spec fn decision_buttons(s: Seq<DecisionV>) -> Seq<UserInputOptionV> {
    Seq::new(s.len(), |i: int| UserInputOptionV { id: s[i].id, label: s[i].label })
}

/// The buttons of a card of decisions.
pub fn decisions_to_ui_options(v: &Vec<AuditDecisionOption>) -> (r: Vec<UserInputOption>)
    ensures
        gates::buttons(r@) == decision_buttons(decision_list(v@)),
{
    let mut out: Vec<UserInputOption> = Vec::new();
    let mut i: usize = 0;
    while i < v.len()
        invariant
            i <= v.len(),
            out.len() == i,
            forall|j: int|
                0 <= j < i ==> (#[trigger] out@[j]).id@ == v@[j].id@ && out@[j].label@
                    == v@[j].label@,
        decreases v.len() - i,
    {
        out.push(UserInputOption { id: v[i].id.clone(), label: v[i].label.clone() });
        i = i + 1;
    }
    assert(gates::buttons(out@) =~= decision_buttons(decision_list(v@)));
    out
}

// ---------------------------------------------------------------------------
// Picks
// ---------------------------------------------------------------------------

/// The word picks the decision: by id, by label, or, from four bytes on, by a
/// part of the label or by holding the whole label.
pub open spec fn picks(d: DecisionV, t: Seq<char>) -> bool {
    d.id == t || d.label == t || (text::encoded_len(t) >= 4 && (text::occurs(d.label, t)
        || text::occurs(t, d.label)))
}

/// The first decision at or after `i` that the word picks.
pub open spec fn picked_from(ds: Seq<DecisionV>, t: Seq<char>, i: int) -> Option<int>
    decreases ds.len() - i,
{
    if i < 0 || i >= ds.len() {
        None
    } else if picks(ds[i], t) {
        Some(i)
    } else {
        picked_from(ds, t, i + 1)
    }
}

/// The decision revises.
pub open spec fn is_revision(d: DecisionV) -> bool {
    d.id == "fix_all_p0"@ || d.id == "fix_all"@ || d.args.text("choice"@) == Some("revise"@)
}

/// The first decision at or after `i` that revises.
pub open spec fn revision_from(ds: Seq<DecisionV>, i: int) -> Option<int>
    decreases ds.len() - i,
{
    if i < 0 || i >= ds.len() {
        None
    } else if is_revision(ds[i]) {
        Some(i)
    } else {
        revision_from(ds, i + 1)
    }
}

/// The first decision at or after `i` with the id.
pub open spec fn with_id_from(ds: Seq<DecisionV>, id: Seq<char>, i: int) -> Option<int>
    decreases ds.len() - i,
{
    if i < 0 || i >= ds.len() {
        None
    } else if ds[i].id == id {
        Some(i)
    } else {
        with_id_from(ds, id, i + 1)
    }
}

/// A word that asks to revise without naming an option.
pub open spec fn revise_word(t: Seq<char>) -> bool {
    t == "按审校局部修订"@ || t == "局部修订"@
}

/// A word that accepts without naming an option.
pub open spec fn accept_word(t: Seq<char>) -> bool {
    t == "接受问题"@ || t == "接受"@ || t == "接受并结束本轮"@
}

/// The decision that an answer picks: by its number, by a word, or by one of
/// the general words.
pub open spec fn decision_picked(answer: Seq<char>, ds: Seq<DecisionV>) -> Option<int> {
    let t = text::trimmed(answer);
    if t.len() == 0 || ds.len() == 0 {
        None
    } else {
        match text::written_number(t) {
            Some(n) if 1 <= n <= ds.len() => Some(n - 1),
            _ => match picked_from(ds, t, 0) {
                Some(k) => Some(k),
                None => if revise_word(t) {
                    revision_from(ds, 0)
                } else if accept_word(t) {
                    with_id_from(ds, "accept"@, 0)
                } else {
                    None
                },
            },
        }
    }
}

/// The tool call that an answer picks from the decisions.
pub fn resolve_decision_pick(answer: &str, decisions: &Vec<AuditDecisionOption>) -> (r: Option<
    (String, Json),
>)
    ensures
        match r {
            Some(p) => {
                let ds = decision_list(decisions@);
                decision_picked(answer@, ds) matches Some(k) && 0 <= k < ds.len() && p.0@
                    == ds[k].tool && p.1@ == ds[k].args
            },
            None => decision_picked(answer@, decision_list(decisions@)) is None,
        },
{
    let ghost ds = decision_list(decisions@);
    let t = text::trim(answer);
    if t.is_empty() || decisions.len() == 0 {
        return None;
    }
    match text::parse_usize(t) {
        Some(n) => {
            if n >= 1 && n <= decisions.len() {
                let d = &decisions[n - 1];
                assert(ds[n - 1] == d@);
                return Some((d.tool.clone(), d.args.copy()));
            }
        },
        None => {},
    }
    let long = text::encoded_at_least(t, 4);
    let mut i: usize = 0;
    while i < decisions.len()
        invariant
            i <= decisions.len(),
            ds == decision_list(decisions@),
            t@ == text::trimmed(answer@),
            long == (text::encoded_len(t@) >= 4),
            decision_picked(answer@, ds) == match picked_from(ds, t@, i as int) {
                Some(k) => Some(k),
                None => if revise_word(t@) {
                    revision_from(ds, 0)
                } else if accept_word(t@) {
                    with_id_from(ds, "accept"@, 0)
                } else {
                    None
                },
            },
        decreases decisions.len() - i,
    {
        let d = &decisions[i];
        assert(ds[i as int] == d@);
        if text::same(d.id.as_str(), t) || text::same(d.label.as_str(), t) || (long && (
        text::contains(d.label.as_str(), t) || text::contains(t, d.label.as_str()))) {
            return Some((d.tool.clone(), d.args.copy()));
        }
        i = i + 1;
    }
    if text::same(t, "按审校局部修订") || text::same(t, "局部修订") {
        let mut j: usize = 0;
        while j < decisions.len()
            invariant
                j <= decisions.len(),
                ds == decision_list(decisions@),
                decision_picked(answer@, ds) == revision_from(ds, j as int),
            decreases decisions.len() - j,
        {
            let d = &decisions[j];
            assert(ds[j as int] == d@);
            let revises = match d.args.get_str("choice") {
                Some(c) => text::same(c, "revise"),
                None => false,
            };
            if text::same(d.id.as_str(), "fix_all_p0") || text::same(d.id.as_str(), "fix_all")
                || revises {
                return Some((d.tool.clone(), d.args.copy()));
            }
            j = j + 1;
        }
        return None;
    }
    if text::same(t, "接受问题") || text::same(t, "接受") || text::same(
        t,
        "接受并结束本轮",
    ) {
        let mut j: usize = 0;
        while j < decisions.len()
            invariant
                j <= decisions.len(),
                ds == decision_list(decisions@),
                decision_picked(answer@, ds) == with_id_from(ds, "accept"@, j as int),
            decreases decisions.len() - j,
        {
            let d = &decisions[j];
            assert(ds[j as int] == d@);
            if text::same(d.id.as_str(), "accept") {
                return Some((d.tool.clone(), d.args.copy()));
            }
            j = j + 1;
        }
        return None;
    }
    None
}

// ---------------------------------------------------------------------------
// Decisions that the studio proposes
// ---------------------------------------------------------------------------

/// A text that is there and not blank, trimmed.
pub open spec fn filled(o: Option<Seq<char>>) -> Option<Seq<char>> {
    match o {
        Some(s) => if text::trimmed(s).len() > 0 {
            Some(text::trimmed(s))
        } else {
            None
        },
        None => None,
    }
}

/// The id of the option at position `i`.
pub open spec fn offered_id(opt: JsonV, i: int) -> Seq<char> {
    or_text(filled(opt.text("id"@)), "opt_"@ + text::dec((i + 1) as nat))
}

/// The action word of an option.
pub open spec fn offered_action(opt: JsonV) -> Seq<char> {
    let word = match opt.get("action"@) {
        Some(_) => opt.text("action"@),
        None => opt.text("choice"@),
    };
    text::ascii_lowered(text::trimmed(or_text(word, "revise"@)))
}

/// The texts of a list, in order; what is no text is passed over.
pub open spec fn texts_in(v: Seq<JsonV>) -> Seq<Seq<char>>
    decreases v.len(),
{
    if v.len() == 0 {
        Seq::empty()
    } else {
        match v.last() {
            JsonV::Text(s) => texts_in(v.drop_last()).push(s),
            _ => texts_in(v.drop_last()),
        }
    }
}

/// The issues that an option names.
pub open spec fn offered_issues(opt: JsonV) -> Seq<Seq<char>> {
    match opt.list("issue_ids"@) {
        Some(v) => texts_in(v),
        None => Seq::empty(),
    }
}

/// The first of the named issues, at or after `i`, that is not known.
pub open spec fn unknown_from(ids: Seq<Seq<char>>, known: Seq<Seq<char>>, i: int) -> Option<int>
    decreases ids.len() - i,
{
    if i < 0 || i >= ids.len() {
        None
    } else if !known.contains(ids[i]) {
        Some(i)
    } else {
        unknown_from(ids, known, i + 1)
    }
}

/// The tool call of an option with the action, or why there is none.
pub open spec fn offered_call(
    project: Seq<char>,
    chapter: u32,
    opt: JsonV,
    queue_active: bool,
) -> Result<(Seq<char>, JsonV), Seq<char>> {
    let a = offered_action(opt);
    let note = opt.text_or_empty("instructions"@);
    if a == "accept"@ || a == "接受"@ {
        Ok(("steer_run"@, steer_args(project, chapter, "accept"@)))
    } else if (a == "skip_queue"@ || a == "next"@) && queue_active {
        Ok(("audit_chapters"@, queue_args(project, "next"@)))
    } else if (a == "cancel_queue"@ || a == "cancel"@) && queue_active {
        Ok(("audit_chapters"@, queue_args(project, "cancel"@)))
    } else if a == "revise"@ || a == "fix"@ || a == "局部修订"@ || a == "按审校局部修订"@ {
        let args = revise_args(project, chapter, offered_issues(opt));
        Ok(
            (
                "steer_run"@,
                if note.len() > 0 {
                    args.put("instructions"@, JsonV::Text(note))
                } else {
                    args
                },
            ),
        )
    } else {
        Err(
            "不支持的 action："@ + a
                + "（允许 revise/accept/skip_queue/cancel_queue）"@,
        )
    }
}

/// The decision that the option at position `i` stands for, or why it is refused:
/// it has no label, it names an issue that is not known, or its action is none.
pub open spec fn offered_decision(
    project: Seq<char>,
    chapter: u32,
    known: Seq<Seq<char>>,
    opt: JsonV,
    i: int,
    queue_active: bool,
) -> Result<DecisionV, Seq<char>> {
    let id = offered_id(opt, i);
    match filled(opt.text("label"@)) {
        None => Err("选项 "@ + id + " 缺少 label"@),
        Some(label) => match unknown_from(offered_issues(opt), known, 0) {
            Some(k) => Err("未知 issue_id："@ + offered_issues(opt)[k]),
            None => match offered_call(project, chapter, opt, queue_active) {
                Err(e) => Err(e),
                Ok(p) => Ok(DecisionV { id, label, tool: p.0, args: p.1 }),
            },
        },
    }
}

/// The decisions of the options from position `i` on, or the first refusal.
pub open spec fn offered_from(
    project: Seq<char>,
    chapter: u32,
    known: Seq<Seq<char>>,
    opts: Seq<JsonV>,
    queue_active: bool,
    i: int,
) -> Result<Seq<DecisionV>, Seq<char>>
    decreases opts.len() - i,
{
    if i < 0 || i >= opts.len() {
        Ok(Seq::empty())
    } else {
        match offered_decision(project, chapter, known, opts[i], i, queue_active) {
            Err(e) => Err(e),
            Ok(d) => match offered_from(project, chapter, known, opts, queue_active, i + 1) {
                Err(e) => Err(e),
                Ok(rest) => Ok(seq![d] + rest),
            },
        }
    }
}

/// The decisions of one to twelve options, or the first refusal.
pub open spec fn offered(
    project: Seq<char>,
    chapter: u32,
    s: Seq<IssueV>,
    opts: Seq<JsonV>,
    queue_active: bool,
) -> Result<Seq<DecisionV>, Seq<char>> {
    if opts.len() == 0 {
        Err("options 不能为空"@)
    } else if opts.len() > 12 {
        Err("options 最多 12 项"@)
    } else {
        offered_from(project, chapter, issues::ids_of(s), opts, queue_active, 0)
    }
}

fn filled_text(o: Option<&str>) -> (r: Option<String>)
    ensures
        text::opt_text(r) == filled(text::opt_str(o)),
{
    match o {
        Some(s) => {
            let t = text::trim(s);
            if t.is_empty() {
                None
            } else {
                Some(t.to_owned())
            }
        },
        None => None,
    }
}

fn action_word(opt: &Json) -> (r: String)
    ensures
        r@ == offered_action(opt@),
{
    let word = match opt.get("action") {
        Some(_) => opt.get_str("action"),
        None => opt.get_str("choice"),
    };
    let w = match word {
        Some(s) => s,
        None => "revise",
    };
    text::to_ascii_lower(text::trim(w))
}

/// The texts of a list, in order; what is no text is passed over.
pub fn list_texts(v: &Vec<Json>) -> (r: Vec<String>)
    ensures
        text::texts(r@) == texts_in(json::items(v@)),
{
    let ghost all = json::items(v@);
    let mut out: Vec<String> = Vec::new();
    let mut i: usize = 0;
    assert(text::texts(out@) =~= texts_in(all.take(0)));
    while i < v.len()
        invariant
            i <= v.len(),
            all == json::items(v@),
            text::texts(out@) == texts_in(all.take(i as int)),
        decreases v.len() - i,
    {
        let ghost before = text::texts(out@);
        proof {
            assert(all.take(i + 1).drop_last() =~= all.take(i as int));
            assert(all.take(i + 1).last() == v@[i as int]@);
        }
        match &v[i] {
            Json::Text(s) => {
                out.push(s.clone());
                assert(text::texts(out@) =~= before.push(s@));
            },
            _ => {},
        }
        i = i + 1;
    }
    assert(all.take(i as int) =~= all);
    out
}

fn named_issues(opt: &Json) -> (r: Vec<String>)
    ensures
        text::texts(r@) == offered_issues(opt@),
{
    match opt.get_list("issue_ids") {
        Some(v) => list_texts(v),
        None => {
            let none: Vec<String> = Vec::new();
            assert(text::texts(none@) =~= Seq::<Seq<char>>::empty());
            none
        },
    }
}

/// Whether the list holds the text.
pub fn holds_text(v: &Vec<String>, x: &str) -> (r: bool)
    ensures
        r == text::texts(v@).contains(x@),
{
    let mut i: usize = 0;
    while i < v.len()
        invariant
            i <= v.len(),
            forall|j: int| 0 <= j < i ==> (#[trigger] v@[j])@ != x@,
        decreases v.len() - i,
    {
        if text::same(v[i].as_str(), x) {
            assert(text::texts(v@)[i as int] == x@);
            return true;
        }
        i = i + 1;
    }
    assert(!text::texts(v@).contains(x@)) by {
        if text::texts(v@).contains(x@) {
            let j = choose|j: int| 0 <= j < text::texts(v@).len() && text::texts(v@)[j] == x@;
            assert(v@[j]@ == x@);
        }
    }
    false
}

fn first_unknown(ids: &Vec<String>, known: &Vec<String>) -> (r: Option<usize>)
    ensures
        match r {
            Some(k) => unknown_from(text::texts(ids@), text::texts(known@), 0) == Some(k as int)
                && k < ids@.len(),
            None => unknown_from(text::texts(ids@), text::texts(known@), 0) is None,
        },
{
    let ghost a = text::texts(ids@);
    let ghost b = text::texts(known@);
    let mut i: usize = 0;
    while i < ids.len()
        invariant
            i <= ids.len(),
            a == text::texts(ids@),
            b == text::texts(known@),
            unknown_from(a, b, 0) == unknown_from(a, b, i as int),
        decreases ids.len() - i,
    {
        if !holds_text(known, ids[i].as_str()) {
            return Some(i);
        }
        i = i + 1;
    }
    None
}

fn call_of(project: &str, chapter: u32, opt: &Json, queue_active: bool) -> (r: Result<
    (String, Json),
    String,
>)
    ensures
        match r {
            Ok(p) => offered_call(project@, chapter, opt@, queue_active) == Ok::<
                (Seq<char>, JsonV),
                Seq<char>,
            >((p.0@, p.1@)),
            Err(e) => offered_call(project@, chapter, opt@, queue_active) == Err::<
                (Seq<char>, JsonV),
                Seq<char>,
            >(e@),
        },
{
    let action = action_word(opt);
    let a = action.as_str();
    if text::same(a, "accept") || text::same(a, "接受") {
        Ok(("steer_run".to_owned(), steer_value(project, chapter, "accept")))
    } else if (text::same(a, "skip_queue") || text::same(a, "next")) && queue_active {
        Ok(("audit_chapters".to_owned(), queue_value(project, "next")))
    } else if (text::same(a, "cancel_queue") || text::same(a, "cancel")) && queue_active {
        Ok(("audit_chapters".to_owned(), queue_value(project, "cancel")))
    } else if text::same(a, "revise") || text::same(a, "fix") || text::same(a, "局部修订")
        || text::same(a, "按审校局部修订") {
        let ids = named_issues(opt);
        let note = opt.str_or_empty("instructions");
        let args = revise_value(project, chapter, &ids);
        if note.as_str().is_empty() {
            Ok(("steer_run".to_owned(), args))
        } else {
            Ok(("steer_run".to_owned(), args.with_str("instructions", note.as_str())))
        }
    } else {
        let mut e = "不支持的 action：".to_owned();
        e.push_str(a);
        e.push_str("（允许 revise/accept/skip_queue/cancel_queue）");
        Err(e)
    }
}

fn decision_of(
    project: &str,
    chapter: u32,
    known: &Vec<String>,
    opt: &Json,
    i: usize,
    queue_active: bool,
) -> (r: Result<AuditDecisionOption, String>)
    requires
        i < usize::MAX,
    ensures
        match r {
            Ok(d) => offered_decision(
                project@,
                chapter,
                text::texts(known@),
                opt@,
                i as int,
                queue_active,
            ) == Ok::<DecisionV, Seq<char>>(d@),
            Err(e) => offered_decision(
                project@,
                chapter,
                text::texts(known@),
                opt@,
                i as int,
                queue_active,
            ) == Err::<DecisionV, Seq<char>>(e@),
        },
{
    let id = match filled_text(opt.get_str("id")) {
        Some(s) => s,
        None => {
            let mut s = "opt_".to_owned();
            s.push_str(text::number((i + 1) as u64).as_str());
            s
        },
    };
    let label = match filled_text(opt.get_str("label")) {
        Some(s) => s,
        None => {
            let mut e = "选项 ".to_owned();
            e.push_str(id.as_str());
            e.push_str(" 缺少 label");
            return Err(e);
        },
    };
    let ids = named_issues(opt);
    match first_unknown(&ids, known) {
        Some(k) => {
            let mut e = "未知 issue_id：".to_owned();
            assert(offered_issues(opt@)[k as int] == ids@[k as int]@);
            e.push_str(ids[k].as_str());
            return Err(e);
        },
        None => {},
    }
    match call_of(project, chapter, opt, queue_active) {
        Ok(p) => Ok(AuditDecisionOption { id, label, tool: p.0, args: p.1 }),
        Err(e) => Err(e),
    }
}

/// Turns the options that the studio proposes into decisions. Each needs a
/// label, may only name known issues, and only revises, accepts, or moves a
/// queue that is running.
pub fn validate_offered_decisions(
    project: &str,
    chapter: u32,
    list: &Vec<AuditIssue>,
    raw_options: &Vec<Json>,
    queue_active: bool,
) -> (r: Result<Vec<AuditDecisionOption>, String>)
    ensures
        match r {
            Ok(v) => offered(
                project@,
                chapter,
                issues::issue_list(list@),
                json::items(raw_options@),
                queue_active,
            ) == Ok::<Seq<DecisionV>, Seq<char>>(decision_list(v@)),
            Err(e) => offered(
                project@,
                chapter,
                issues::issue_list(list@),
                json::items(raw_options@),
                queue_active,
            ) == Err::<Seq<DecisionV>, Seq<char>>(e@),
        },
{
    if raw_options.len() == 0 {
        return Err("options 不能为空".to_owned());
    }
    if raw_options.len() > 12 {
        return Err("options 最多 12 项".to_owned());
    }
    let known = issues::issue_ids(list);
    let ghost kv = text::texts(known@);
    let ghost opts = json::items(raw_options@);
    let mut out: Vec<AuditDecisionOption> = Vec::new();
    let mut i: usize = 0;
    let ghost whole = offered_from(project@, chapter, kv, opts, queue_active, 0);
    proof {
        match whole {
            Ok(v) => {
                assert(decision_list(out@) + v =~= v);
            },
            Err(_) => {},
        }
    }
    while i < raw_options.len()
        invariant
            i <= raw_options.len(),
            0 < raw_options.len() <= 12,
            kv == text::texts(known@),
            kv == issues::ids_of(issues::issue_list(list@)),
            opts == json::items(raw_options@),
            whole == offered_from(project@, chapter, kv, opts, queue_active, 0),
            whole == match offered_from(project@, chapter, kv, opts, queue_active, i as int) {
                Ok(rest) => Ok::<Seq<DecisionV>, Seq<char>>(decision_list(out@) + rest),
                Err(e) => Err(e),
            },
        decreases raw_options.len() - i,
    {
        let ghost before = decision_list(out@);
        assert(opts[i as int] == raw_options@[i as int]@);
        match decision_of(project, chapter, &known, &raw_options[i], i, queue_active) {
            Ok(d) => {
                let ghost dv = d@;
                out.push(d);
                proof {
                    assert(decision_list(out@) =~= before.push(dv));
                    match offered_from(project@, chapter, kv, opts, queue_active, i + 1) {
                        Ok(rest) => {
                            assert(before + (seq![dv] + rest) =~= before.push(dv) + rest);
                        },
                        Err(_) => {},
                    }
                }
            },
            Err(e) => {
                return Err(e);
            },
        }
        i = i + 1;
    }
    assert(decision_list(out@) + Seq::<DecisionV>::empty() =~= decision_list(out@));
    Ok(out)
}

// ---------------------------------------------------------------------------
// Laws
// ---------------------------------------------------------------------------

/// The card after a failed audit always lets the author accept and go on.
pub proof fn fallback_can_accept(
    project: Seq<char>,
    chapter: u32,
    s: Seq<IssueV>,
    queue_active: bool,
)
    ensures
        fallback_decisions(project, chapter, s, queue_active).contains(
            accept_option(project, chapter),
        ),
{
    let ds = fallback_decisions(project, chapter, s, queue_active);
    let k = fix_options(project, chapter, issues::p0_only(s)).len() + gather_options(
        project,
        chapter,
        s,
    ).len();
    assert(ds[k as int] == accept_option(project, chapter));
}

/// The number of a button picks that button's decision.
pub proof fn number_picks_shown_decision(answer: Seq<char>, ds: Seq<DecisionV>, n: nat)
    requires
        text::written_number(text::trimmed(answer)) == Some(n),
        1 <= n <= ds.len(),
    ensures
        decision_picked(answer, ds) == Some(n - 1),
{
    let t = text::trimmed(answer);
    assert(t.len() > 0);
}

/// A pick is one of the decisions that are shown.
pub proof fn pick_is_shown(answer: Seq<char>, ds: Seq<DecisionV>)
    ensures
        decision_picked(answer, ds) matches Some(k) ==> 0 <= k < ds.len(),
{
    let t = text::trimmed(answer);
    picked_bounds(ds, t, 0);
    revision_bounds(ds, 0);
    with_id_bounds(ds, "accept"@, 0);
}

proof fn picked_bounds(ds: Seq<DecisionV>, t: Seq<char>, i: int)
    requires
        0 <= i,
    ensures
        picked_from(ds, t, i) matches Some(k) ==> 0 <= k < ds.len(),
    decreases ds.len() - i,
{
    if i < ds.len() && !picks(ds[i], t) {
        picked_bounds(ds, t, i + 1);
    }
}

proof fn revision_bounds(ds: Seq<DecisionV>, i: int)
    requires
        0 <= i,
    ensures
        revision_from(ds, i) matches Some(k) ==> 0 <= k < ds.len(),
    decreases ds.len() - i,
{
    if i < ds.len() && !is_revision(ds[i]) {
        revision_bounds(ds, i + 1);
    }
}

proof fn with_id_bounds(ds: Seq<DecisionV>, id: Seq<char>, i: int)
    requires
        0 <= i,
    ensures
        with_id_from(ds, id, i) matches Some(k) ==> 0 <= k < ds.len(),
    decreases ds.len() - i,
{
    if i < ds.len() && ds[i].id != id {
        with_id_bounds(ds, id, i + 1);
    }
}

/// Proposed options that pass keep their number and order, run nothing but a
/// steered revision or acceptance, and move the queue only while it is running.
pub proof fn offered_runs_only_allowed_tools(
    project: Seq<char>,
    chapter: u32,
    known: Seq<Seq<char>>,
    opts: Seq<JsonV>,
    queue_active: bool,
    i: int,
)
    requires
        0 <= i <= opts.len(),
    ensures
        match offered_from(project, chapter, known, opts, queue_active, i) {
            Ok(v) => v.len() == opts.len() - i && forall|k: int|
                0 <= k < v.len() ==> (#[trigger] v[k]).tool == "steer_run"@ || (v[k].tool
                    == "audit_chapters"@ && queue_active),
            Err(_) => true,
        },
    decreases opts.len() - i,
{
    if i < opts.len() {
        offered_runs_only_allowed_tools(project, chapter, known, opts, queue_active, i + 1);
        match offered_decision(project, chapter, known, opts[i], i, queue_active) {
            Ok(d) => match offered_from(project, chapter, known, opts, queue_active, i + 1) {
                Ok(rest) => {
                    let v = seq![d] + rest;
                    assert forall|k: int| 0 <= k < v.len() implies (#[trigger] v[k]).tool
                        == "steer_run"@ || (v[k].tool == "audit_chapters"@ && queue_active) by {
                        if k > 0 {
                            assert(v[k] == rest[k - 1]);
                        }
                    }
                },
                Err(_) => {},
            },
            Err(_) => {},
        }
    }
}

/// An option that passes names no issue that the audit did not report.
pub proof fn offered_names_known_issues(
    project: Seq<char>,
    chapter: u32,
    known: Seq<Seq<char>>,
    opt: JsonV,
    i: int,
    queue_active: bool,
    k: int,
)
    requires
        offered_decision(project, chapter, known, opt, i, queue_active) is Ok,
        0 <= k < offered_issues(opt).len(),
    ensures
        known.contains(offered_issues(opt)[k]),
{
    all_known(offered_issues(opt), known, 0, k);
}

proof fn all_known(ids: Seq<Seq<char>>, known: Seq<Seq<char>>, i: int, k: int)
    requires
        0 <= i <= k < ids.len(),
        unknown_from(ids, known, i) is None,
    ensures
        known.contains(ids[k]),
    decreases k - i,
{
    if i < k {
        all_known(ids, known, i + 1, k);
    }
}

} // verus!
