//! Which roles may run as sub-agents, and how far they may nest.

use vstd::prelude::*;

use crate::text;

verus! {

/// A role's skill: its name with hyphens for underscores.
pub open spec fn skill_of(role: Seq<char>) -> Seq<char> {
    Seq::new(
        role.len(),
        |i: int|
            if role[i] == '_' {
                '-'
            } else {
                role[i]
            },
    )
}

/// The skill of a role.
pub fn skill_name_for_role(role: &str) -> (r: String)
    ensures
        r@ == skill_of(role@),
{
    let v = text::to_chars(role);
    let mut out = String::new();
    let mut i: usize = 0;
    while i < v.len()
        invariant
            i <= v.len(),
            v@ == role@,
            out@ == skill_of(role@).take(i as int),
        decreases v.len() - i,
    {
        let c: char = if v[i] == '_' {
            '-'
        } else {
            v[i]
        };
        out.push(c);
        i = i + 1;
        assert(out@ =~= skill_of(role@).take(i as int));
    }
    assert(out@ =~= skill_of(role@));
    out
}

/// A mode that runs a whole chapter.
pub open spec fn is_chapter_mode(mode: Option<Seq<char>>) -> bool {
    mode == Some("continue"@) || mode == Some("revise"@) || mode == Some("audit_only"@)
}

/// Why a whole chapter is not run by a sub-agent.
pub open spec fn chapter_mode_denial() -> Seq<char> {
    "整章续写/修订/审校请用 continue_writing / revise_chapter / audit_chapter（或 audit_chapters），勿 spawn_agent(mode=continue|revise|audit_only)；SubAgent 仅用于单步专精或只读旁路"@
}

fn has_chapter_mode(mode: Option<&str>) -> (r: bool)
    ensures
        r == is_chapter_mode(text::opt_str(mode)),
{
    match mode {
        Some(m) => text::same(m, "continue") || text::same(m, "revise") || text::same(
            m,
            "audit_only",
        ),
        None => false,
    }
}

/// Why the sub-agent may not be started, if it may not: a whole chapter is
/// continued, revised or audited by its own tool. Sub-agents take single steps
/// and side paths.
pub fn pipeline_mode_spawn_forbidden(chapter: Option<u32>, mode: Option<&str>) -> (r: Option<
    &'static str,
>)
    ensures
        text::opt_str(r) == if chapter is Some && is_chapter_mode(text::opt_str(mode)) {
            Some(chapter_mode_denial())
        } else {
            None
        },
{
    if chapter.is_none() {
        return None;
    }
    if has_chapter_mode(mode) {
        Some(
            "整章续写/修订/审校请用 continue_writing / revise_chapter / audit_chapter（或 audit_chapters），勿 spawn_agent(mode=continue|revise|audit_only)；SubAgent 仅用于单步专精或只读旁路",
        )
    } else {
        None
    }
}

/// A role that is never started as a sub-agent.
pub open spec fn is_host_role(role: Seq<char>) -> bool {
    role == "studio_agent"@ || role == "orchestrator"@ || role.len() == 0
}

/// Why a role may not be started, given how the catalog says it is invoked.
pub open spec fn denial(role: Seq<char>, invocation: Option<Seq<char>>) -> Seq<char> {
    if is_host_role(role) {
        "role '"@ + role + "' is not spawnable"@
    } else {
        match invocation {
            Some(how) => "role '"@ + role + "' (invocation="@ + how
                + ") 不允许 spawn_agent。整章续写/修订/审校请用 continue_writing / revise_chapter / audit_chapter（或 audit_chapters）；领域操作请用对应 design_* / audit_* / research_materials 等工具。可 spawn 旁路目录见 list_agents(filter=spawnable)。"@,
            None => "role '"@ + role
                + "' 未在 agents.yaml 注册或不允许 spawn。可 spawn 旁路目录见 list_agents(filter=spawnable)。"@,
        }
    }
}

/// Why a role may not be started. `invocation` is how the catalog says the role
/// is invoked, where it lists the role.
pub fn spawn_denied_message(role: &str, invocation: Option<&str>) -> (r: String)
    ensures
        r@ == denial(role@, text::opt_str(invocation)),
{
    let mut s = "role '".to_owned();
    s.push_str(role);
    if role.is_empty() || text::same(role, "studio_agent") || text::same(role, "orchestrator") {
        s.push_str("' is not spawnable");
        return s;
    }
    match invocation {
        Some(how) => {
            s.push_str("' (invocation=");
            s.push_str(how);
            s.push_str(
                ") 不允许 spawn_agent。整章续写/修订/审校请用 continue_writing / revise_chapter / audit_chapter（或 audit_chapters）；领域操作请用对应 design_* / audit_* / research_materials 等工具。可 spawn 旁路目录见 list_agents(filter=spawnable)。",
            );
        },
        None => {
            s.push_str(
                "' 未在 agents.yaml 注册或不允许 spawn。可 spawn 旁路目录见 list_agents(filter=spawnable)。",
            );
        },
    }
    s
}

/// How deep sub-agents may nest.
pub fn max_spawn_depth() -> (r: u32)
    ensures
        r == 4,
{
    4
}

/// How many sub-agents one thread may start.
pub fn max_children() -> (r: usize)
    ensures
        r == 32,
{
    32
}

/// Whether the mode runs a whole chapter of one.
pub fn runs_chapter(chapter: Option<u32>, mode: Option<&str>) -> (r: bool)
    ensures
        r == (chapter is Some && is_chapter_mode(text::opt_str(mode))),
{
    chapter.is_some() && has_chapter_mode(mode)
}

} // verus!
