//! The standing instructions that the model gets with every request.

use vstd::prelude::*;

use crate::text;

verus! {

/// A skill's text that goes along with a request.
pub struct SkillText {
    pub name: String,
    pub body: String,
}

/// What the model is told of the project that the dialogue is about.
pub open spec fn project_words(project: Option<Seq<char>>, hints: Option<Seq<char>>) -> Seq<char> {
    match project {
        Some(p) => {
            let s = "当前会话已绑定项目《"@ + p
                + "》。用户指令默认针对此书。\n- 禁止无谓调用 list_projects（除非用户明确要「列出所有项目」）。\n- 「修正/扩写/重写/加长第N章」→ 立即 revise_chapter(project=\""@
                + p
                + "\", chapter=N, instructions=用户原话或「扩写到5000-6000字」)。\n- 用户只说「继续」：若下一章尚无正文 → 必须 continue_writing；若下一章已有草稿 → 先问清写下一章/修订/审校（勿只查状态就结束）。\n- 问剧情卡/主线/写到哪了/对照进度 → list_plots + get_project_status 后中文汇报；禁止 continue_writing。\n- 不要只列项目或只口头答应就结束；同一轮必须把可执行工具跑完。\n"@;
            match hints {
                Some(h) => s + ("\n【当前项目长程 QA】\n"@ + h
                    + "\n若用户未否定，应在合适时机主动调用上述工具；汇报进度时须转述此建议。\n"@),
                None => s,
            }
        },
        None =>
            "尚未绑定项目：若用户已点名书名则直接用该 project；仅当完全不清楚时才 list_projects，然后必须继续执行原请求。\n"@,
    }
}

/// A skill under its heading.
pub open spec fn skill_block(name: Seq<char>, body: Seq<char>) -> Seq<char> {
    "\n\n# Skill: "@ + name + "\n\n"@ + body
}

/// A skill that always goes along, unless its text is blank.
pub open spec fn standing_skill(name: Seq<char>, body: Seq<char>) -> Seq<char> {
    if text::trimmed(body).len() == 0 {
        Seq::empty()
    } else {
        skill_block(name, body)
    }
}

/// The skills that a request brings, each under its heading; those that always
/// go along are not said twice.
pub open spec fn called_skills(v: Seq<SkillText>) -> Seq<char>
    decreases v.len(),
{
    if v.len() == 0 {
        Seq::empty()
    } else {
        let before = called_skills(v.drop_last());
        let k = v.last();
        if k.name@ == "studio"@ || k.name@ == "novel-draft"@ {
            before
        } else {
            before + skill_block(k.name@, k.body@)
        }
    }
}

/// The standing instructions.
pub open spec fn instructions(
    project: Option<Seq<char>>,
    hints: Option<Seq<char>>,
    catalog: Seq<char>,
    studio: Seq<char>,
    draft: Seq<char>,
    called: Seq<SkillText>,
) -> Seq<char> {
    "你是 NovelX，小说创作编排 Agent。\n"@ + project_words(project, hints)
        + "优先局部修订正文，避免无必要时全文重写。\n需要操作项目时，必须通过 API function calling 调用工具，不要输出 XML、<function_calls>、<invoke> 或伪代码。\n工具参数使用：project（项目名）、chapter（章节号整数）、instructions（修订说明）。\n字数太少/扩写/重写/修正章节必须调用 revise_chapter，禁止用 audit_chapter 代替写章。\n整卷复盘（审这一卷/卷末复盘）必须调用 audit_volume（摘要层），不要默认 audit_chapters 扫整卷。\n审校多章（如1-8章）或「按建议深审」必须调用 audit_chapters（可用 chapters 列表），禁止同轮多次 audit_chapter。\n单章审校用 audit_chapter。通过（含仅有 P1/P2）→ 勿称未通过、勿伪造审批卡；用户要改则 revise_chapter。未通过 → 立即 offer_decisions（按 issue_id 给出修某条/修全部阻断/接受等），不要只给「按审校局部修订」。禁止在正文里自拟编号审批卡；决策卡只经 offer_decisions / 服务端 open_gate。\n\n"@
        + catalog + standing_skill("studio"@, studio) + standing_skill("novel-draft"@, draft)
        + called_skills(called)
}

fn say_project(project: Option<&str>, hints: Option<&str>) -> (r: String)
    ensures
        r@ == project_words(text::opt_str(project), text::opt_str(hints)),
{
    match project {
        Some(p) => {
            let mut s = "当前会话已绑定项目《".to_owned();
            s.push_str(p);
            s.push_str("》。用户指令默认针对此书。\n- 禁止无谓调用 list_projects（除非用户明确要「列出所有项目」）。\n- 「修正/扩写/重写/加长第N章」→ 立即 revise_chapter(project=\"");
            s.push_str(p);
            s.push_str("\", chapter=N, instructions=用户原话或「扩写到5000-6000字」)。\n- 用户只说「继续」：若下一章尚无正文 → 必须 continue_writing；若下一章已有草稿 → 先问清写下一章/修订/审校（勿只查状态就结束）。\n- 问剧情卡/主线/写到哪了/对照进度 → list_plots + get_project_status 后中文汇报；禁止 continue_writing。\n- 不要只列项目或只口头答应就结束；同一轮必须把可执行工具跑完。\n");
            match hints {
                Some(h) => {
                    let mut q = "\n【当前项目长程 QA】\n".to_owned();
                    q.push_str(h);
                    q.push_str("\n若用户未否定，应在合适时机主动调用上述工具；汇报进度时须转述此建议。\n");
                    s.push_str(q.as_str());
                },
                None => {},
            }
            s
        },
        None =>
            "尚未绑定项目：若用户已点名书名则直接用该 project；仅当完全不清楚时才 list_projects，然后必须继续执行原请求。\n".to_owned(),
    }
}

fn say_skill(name: &str, body: &str) -> (r: String)
    ensures
        r@ == skill_block(name@, body@),
{
    let mut s = "\n\n# Skill: ".to_owned();
    s.push_str(name);
    s.push_str("\n\n");
    s.push_str(body);
    s
}

fn say_standing(name: &str, body: &str) -> (r: String)
    ensures
        r@ == standing_skill(name@, body@),
{
    let n: usize = text::trim(body).unicode_len();
    if n == 0 {
        let s = String::new();
        assert(s@ =~= Seq::empty());
        s
    } else {
        say_skill(name, body)
    }
}

fn say_called(v: &Vec<SkillText>) -> (r: String)
    ensures
        r@ == called_skills(v@),
{
    let mut out = String::new();
    let mut i: usize = 0;
    assert(v@.take(0) =~= Seq::empty());
    assert(out@ =~= called_skills(v@.take(0)));
    while i < v.len()
        invariant
            i <= v.len(),
            out@ == called_skills(v@.take(i as int)),
        decreases v.len() - i,
    {
        assert(v@.take(i + 1).drop_last() =~= v@.take(i as int));
        let k = &v[i];
        if !text::same(k.name.as_str(), "studio") && !text::same(k.name.as_str(), "novel-draft") {
            out.push_str(say_skill(k.name.as_str(), k.body.as_str()).as_str());
        }
        i = i + 1;
    }
    assert(v@.take(i as int) =~= v@);
    out
}

/// The standing instructions: the project that the dialogue is about, with the
/// checks that are due on it; the rules for calling tools; the skills there
/// are; and the skills that go along with the request.
pub fn system_prompt(
    project: Option<&str>,
    hints: Option<&str>,
    catalog: &str,
    studio: &str,
    draft: &str,
    called: &Vec<SkillText>,
) -> (r: String)
    ensures
        r@ == instructions(
            text::opt_str(project),
            text::opt_str(hints),
            catalog@,
            studio@,
            draft@,
            called@,
        ),
{
    let mut s = "你是 NovelX，小说创作编排 Agent。\n".to_owned();
    s.push_str(say_project(project, hints).as_str());
    s.push_str("优先局部修订正文，避免无必要时全文重写。\n需要操作项目时，必须通过 API function calling 调用工具，不要输出 XML、<function_calls>、<invoke> 或伪代码。\n工具参数使用：project（项目名）、chapter（章节号整数）、instructions（修订说明）。\n字数太少/扩写/重写/修正章节必须调用 revise_chapter，禁止用 audit_chapter 代替写章。\n整卷复盘（审这一卷/卷末复盘）必须调用 audit_volume（摘要层），不要默认 audit_chapters 扫整卷。\n审校多章（如1-8章）或「按建议深审」必须调用 audit_chapters（可用 chapters 列表），禁止同轮多次 audit_chapter。\n单章审校用 audit_chapter。通过（含仅有 P1/P2）→ 勿称未通过、勿伪造审批卡；用户要改则 revise_chapter。未通过 → 立即 offer_decisions（按 issue_id 给出修某条/修全部阻断/接受等），不要只给「按审校局部修订」。禁止在正文里自拟编号审批卡；决策卡只经 offer_decisions / 服务端 open_gate。\n\n");
    s.push_str(catalog);
    s.push_str(say_standing("studio", studio).as_str());
    s.push_str(say_standing("novel-draft", draft).as_str());
    s.push_str(say_called(called).as_str());
    s
}

// ---------------------------------------------------------------------------
// Answers that need no model
// ---------------------------------------------------------------------------

/// The answer to an accepting word with no card open.
pub fn text_is_kept() -> (r: String)
    ensures
        r@ == "好的，保留原文。若要写下一章可以说「继续创作」；若要再审请发送「审阅第N章」。"@,
{
    "好的，保留原文。若要写下一章可以说「继续创作」；若要再审请发送「审阅第N章」。".to_owned()
}

/// The answer to a choice of an audit queue that has ended.
pub fn queue_has_ended() -> (r: String)
    ensures
        r@
            == "审阅队列已结束，没有待处理的审校选项。如需再审，请重新发送「审阅1-8章」或「审这一卷」。"@,
{
    "审阅队列已结束，没有待处理的审校选项。如需再审，请重新发送「审阅1-8章」或「审这一卷」。".to_owned()
}

/// The answer to a bare "go on" while the outline is rebuilt.
pub fn outline_comes_first() -> (r: String)
    ensures
        r@ == "当前正在重建大纲（总纲/卷纲），「继续」不会写下一章。请选择下一步："@,
{
    "当前正在重建大纲（总纲/卷纲），「继续」不会写下一章。请选择下一步：".to_owned()
}

} // verus!
