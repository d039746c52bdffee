//! The steps of revising what depends on an applied change.

use vstd::prelude::*;

use crate::impact;
use crate::impact::{HitV, ImpactHit, ImpactSource, ImpactTargetKind, SourceV};
use crate::json::{Json, JsonV};
use crate::text;

verus! {

// ---------------------------------------------------------------------------
// Names of entities
// ---------------------------------------------------------------------------

/// The kind of the entity whose card the path names.
pub open spec fn entity_kind(path: Seq<char>) -> Seq<char> {
    if text::occurs(path, "/items/"@) {
        "item"@
    } else if text::occurs(path, "/locations/"@) {
        "location"@
    } else {
        "character"@
    }
}

/// What follows the last slash.
pub open spec fn last_part(s: Seq<char>) -> Seq<char>
    decreases s.len(),
{
    if s.len() == 0 || s.last() == '/' {
        Seq::empty()
    } else {
        last_part(s.drop_last()).push(s.last())
    }
}

/// The text without endings `.md`.
pub open spec fn without_md(s: Seq<char>) -> Seq<char>
    decreases s.len(),
{
    if s.len() >= 3 && s[s.len() - 3] == '.' && s[s.len() - 2] == 'm' && s[s.len() - 1] == 'd' {
        without_md(s.take(s.len() - 3))
    } else {
        s
    }
}

/// The name of the file that the path names, without its ending.
pub open spec fn entity_slug(path: Seq<char>) -> Seq<char> {
    without_md(last_part(path))
}

/// A card of an entity. `alike` says that its name or its file stands for the
/// one that is looked for.
pub struct EntityCard {
    pub slug: String,
    pub name: String,
    pub alike: bool,
}

/// A card of an entity, by contents.
pub struct EntityCardV {
    pub slug: Seq<char>,
    pub name: Seq<char>,
    pub alike: bool,
}

impl View for EntityCard {
    type V = EntityCardV;

    open spec fn view(&self) -> EntityCardV {
        EntityCardV { slug: self.slug@, name: self.name@, alike: self.alike }
    }
}

/// The cards by contents.
pub open spec fn card_list(v: Seq<EntityCard>) -> Seq<EntityCardV> {
    Seq::new(v.len(), |i: int| v[i]@)
}

/// The name on the first card at or after a place that stands for the file, or
/// else the file's own name.
pub open spec fn card_name(cards: Seq<EntityCardV>, slug: Seq<char>, i: int) -> Seq<char>
    decreases cards.len() - i,
{
    if i < 0 || i >= cards.len() {
        slug
    } else if cards[i].slug == slug || cards[i].alike {
        cards[i].name
    } else {
        card_name(cards, slug, i + 1)
    }
}

/// The kind and the name of the entity that a path names; no name where the path
/// names no file.
pub open spec fn entity_named(path: Seq<char>, cards: Seq<EntityCardV>) -> (Seq<char>, Seq<char>) {
    let slug = entity_slug(path);
    (
        entity_kind(path),
        if slug.len() == 0 {
            Seq::empty()
        } else {
            card_name(cards, slug, 0)
        },
    )
}

/// The kind of the entity whose card the path names.
pub fn entity_kind_of(path: &str) -> (r: String)
    ensures
        r@ == entity_kind(path@),
{
    if text::contains(path, "/items/") {
        "item".to_owned()
    } else if text::contains(path, "/locations/") {
        "location".to_owned()
    } else {
        "character".to_owned()
    }
}

proof fn last_part_from(s: Seq<char>, n: int)
    requires
        0 <= n <= s.len(),
        n > 0 ==> s[n - 1] == '/',
        forall|j: int| n <= j < s.len() ==> #[trigger] s[j] != '/',
    ensures
        last_part(s) == s.skip(n),
    decreases s.len(),
{
    if n == s.len() {
        assert(s.skip(n) =~= Seq::<char>::empty());
    } else {
        let rest = s.drop_last();
        assert forall|j: int| n <= j < rest.len() implies #[trigger] rest[j] != '/' by {
            assert(rest[j] == s[j]);
        }
        last_part_from(rest, n);
        assert(s.last() == s[s.len() - 1]);
        assert(rest.skip(n).push(s.last()) =~= s.skip(n));
    }
}

/// The name of the file that the path names, without its ending.
pub fn entity_slug_of(path: &str) -> (r: String)
    ensures
        r@ == entity_slug(path@),
{
    let v = text::to_chars(path);
    let mut n: usize = v.len();
    while n > 0 && v[n - 1] != '/'
        invariant
            n <= v.len(),
            forall|j: int| n <= j < v.len() ==> #[trigger] v@[j] != '/',
        decreases n,
    {
        n = n - 1;
    }
    proof {
        assert(v@ == path@);
        last_part_from(path@, n as int);
    }
    let ghost part = path@.skip(n as int);
    let mut e: usize = v.len();
    assert(part.take(e - n) =~= part);
    while e - n >= 3 && v[e - 3] == '.' && v[e - 2] == 'm' && v[e - 1] == 'd'
        invariant
            n <= e <= v.len(),
            v@ == path@,
            part == path@.skip(n as int),
            without_md(part) == without_md(part.take(e - n)),
        decreases e,
    {
        proof {
            let now = part.take(e - n);
            assert(now[now.len() - 3] == v@[e - 3]);
            assert(now[now.len() - 2] == v@[e - 2]);
            assert(now[now.len() - 1] == v@[e - 1]);
            assert(now.take(now.len() - 3) =~= part.take(e - 3 - n));
        }
        e = e - 3;
    }
    proof {
        let now = part.take(e - n);
        if now.len() >= 3 {
            assert(now[now.len() - 3] == v@[e - 3]);
            assert(now[now.len() - 2] == v@[e - 2]);
            assert(now[now.len() - 1] == v@[e - 1]);
        }
        assert(v@.subrange(n as int, e as int) =~= now);
    }
    text::from_chars(&v, n, e)
}

/// The kind and the name of the entity that a path names.
pub fn resolve_entity_hit_name(target_ref: &str, cards: &Vec<EntityCard>) -> (r: (String, String))
    ensures
        (r.0@, r.1@) == entity_named(target_ref@, card_list(cards@)),
{
    let kind = entity_kind_of(target_ref);
    let slug = entity_slug_of(target_ref);
    if slug.as_str().is_empty() {
        return (kind, String::new());
    }
    let ghost cv = card_list(cards@);
    let mut i: usize = 0;
    while i < cards.len()
        invariant
            i <= cards.len(),
            cv == card_list(cards@),
            card_name(cv, slug@, 0) == card_name(cv, slug@, i as int),
            slug@ == entity_slug(target_ref@),
            slug@.len() > 0,
            kind@ == entity_kind(target_ref@),
        decreases cards.len() - i,
    {
        assert(cv[i as int] == cards@[i as int]@);
        if text::same(cards[i].slug.as_str(), slug.as_str()) || cards[i].alike {
            return (kind, cards[i].name.clone());
        }
        i = i + 1;
    }
    (kind, slug)
}

// ---------------------------------------------------------------------------
// One step
// ---------------------------------------------------------------------------

/// How to revise a place.
pub open spec fn revision_text(s: SourceV, h: HitV) -> Seq<char> {
    "因「"@ + s.id + "」（"@ + s.kind_word
        + "）已更新，请同步修正本处与「"@ + h.matched_key
        + "」相关的过时表述。\n命中原因："@ + h.reason + "\n命中原文：「"@
        + text::first_chars(h.quote, 120) + "」\n旧要点节选："@ + text::first_chars(
        s.before_snippet,
        400,
    ) + "\n新要点节选："@ + text::first_chars(s.after_snippet, 400)
        + "\n只改与上述变更冲突或过时的句子；勿改无关情节，勿新增无关设定。"@
}

/// How to revise a place.
pub fn cascade_revise_instructions(source: &ImpactSource, hit: &ImpactHit) -> (r: String)
    ensures
        r@ == revision_text(source@, hit@),
{
    let mut s = "因「".to_owned();
    s.push_str(source.id.as_str());
    s.push_str("」（");
    s.push_str(source.kind_word.as_str());
    s.push_str("）已更新，请同步修正本处与「");
    s.push_str(hit.matched_key.as_str());
    s.push_str("」相关的过时表述。\n命中原因：");
    s.push_str(hit.reason.as_str());
    s.push_str("\n命中原文：「");
    s.push_str(text::take_chars(hit.quote.as_str(), 120).as_str());
    s.push_str("」\n旧要点节选：");
    s.push_str(text::take_chars(source.before_snippet.as_str(), 400).as_str());
    s.push_str("\n新要点节选：");
    s.push_str(text::take_chars(source.after_snippet.as_str(), 400).as_str());
    s.push_str("\n只改与上述变更冲突或过时的句子；勿改无关情节，勿新增无关设定。");
    s
}

/// What is done about a place.
pub enum CascadeStep {
    /// Nothing, for the reason told.
    Skip(String),
    /// The tool runs, without asking for confirmation again.
    Run { tool: String, args: Json },
}

/// What is done about a place, by contents.
pub enum StepV {
    Skip(Seq<char>),
    Run { tool: Seq<char>, args: JsonV },
}

impl View for CascadeStep {
    type V = StepV;

    open spec fn view(&self) -> StepV {
        match self {
            CascadeStep::Skip(l) => StepV::Skip(l@),
            CascadeStep::Run { tool, args } => StepV::Run { tool: tool@, args: args@ },
        }
    }
}

/// Arguments that name the project.
pub open spec fn of_project(project: Seq<char>) -> JsonV {
    JsonV::empty_object().put("project"@, JsonV::Text(project))
}

/// The number, or zero.
pub open spec fn or_zero(n: Option<u32>) -> u32 {
    match n {
        Some(x) => x,
        None => 0,
    }
}

/// What is done about a place: the tool for its kind revises it, but plot cards
/// and places without a number or a name are left to the author.
pub open spec fn step_for(project: Seq<char>, s: SourceV, h: HitV) -> StepV {
    let how = JsonV::Text(revision_text(s, h));
    let base = of_project(project);
    let chapter = or_zero(h.chapter);
    let volume = or_zero(h.volume);
    match h.target_kind {
        ImpactTargetKind::Plot => StepV::Skip(
            "- 跳过剧情卡 "@ + h.target_ref + "（请手动核对）"@,
        ),
        ImpactTargetKind::Draft => if chapter == 0 {
            StepV::Skip("- 跳过正文 "@ + h.target_ref + "（缺章号）"@)
        } else {
            StepV::Run {
                tool: "revise_chapter"@,
                args: base.put("chapter"@, JsonV::Uint(chapter as u64)).put(
                    "instructions"@,
                    how,
                ),
            }
        },
        ImpactTargetKind::Outline => if chapter == 0 {
            StepV::Skip("- 跳过章纲 "@ + h.target_ref + "（缺章号）"@)
        } else {
            StepV::Run {
                tool: "revise_outline"@,
                args: base.put("chapter"@, JsonV::Uint(chapter as u64)).put(
                    "instructions"@,
                    how,
                ).put("force"@, JsonV::Bool(true)),
            }
        },
        ImpactTargetKind::ArcOutline => if volume == 0 {
            StepV::Skip("- 跳过卷纲 "@ + h.target_ref + "（缺卷号）"@)
        } else {
            StepV::Run {
                tool: "design_arc_outline"@,
                args: base.put("arc"@, JsonV::Uint(volume as u64)).put("brief"@, how).put(
                    "force"@,
                    JsonV::Bool(true),
                ),
            }
        },
        ImpactTargetKind::MasterOutline => StepV::Run {
            tool: "design_master_outline"@,
            args: base.put("brief"@, how).put("force"@, JsonV::Bool(true)),
        },
        ImpactTargetKind::Entity => if h.entity_name.len() == 0 {
            StepV::Skip("- 跳过实体 "@ + h.target_ref)
        } else {
            StepV::Run {
                tool: "design_entity"@,
                args: base.put("kind"@, JsonV::Text(h.entity_kind)).put(
                    "name"@,
                    JsonV::Text(h.entity_name),
                ).put("brief"@, how).put("force"@, JsonV::Bool(true)),
            }
        },
        ImpactTargetKind::Bible => StepV::Run {
            tool: "upsert_setting"@,
            args: base.put("topic"@, JsonV::Text(s.id)).put("content"@, how).put(
                "force"@,
                JsonV::Bool(true),
            ),
        },
    }
}

fn skip_line(head: &str, place: &str, tail: &str) -> (r: CascadeStep)
    ensures
        r@ == StepV::Skip(head@ + place@ + tail@),
{
    let mut s = head.to_owned();
    s.push_str(place);
    s.push_str(tail);
    CascadeStep::Skip(s)
}

/// What is done about a place.
pub fn cascade_step(project: &str, source: &ImpactSource, hit: &ImpactHit) -> (r: CascadeStep)
    ensures
        r@ == step_for(project@, source@, hit@),
{
    let how = cascade_revise_instructions(source, hit);
    let base = Json::object().with_str("project", project);
    let chapter: u32 = match hit.chapter {
        Some(n) => n,
        None => 0,
    };
    let volume: u32 = match hit.volume {
        Some(n) => n,
        None => 0,
    };
    let place = hit.target_ref.as_str();
    match hit.target_kind {
        ImpactTargetKind::Plot => skip_line("- 跳过剧情卡 ", place, "（请手动核对）"),
        ImpactTargetKind::Draft => if chapter == 0 {
            skip_line("- 跳过正文 ", place, "（缺章号）")
        } else {
            CascadeStep::Run {
                tool: "revise_chapter".to_owned(),
                args: base.with_u32("chapter", chapter).with_str("instructions", how.as_str()),
            }
        },
        ImpactTargetKind::Outline => if chapter == 0 {
            skip_line("- 跳过章纲 ", place, "（缺章号）")
        } else {
            CascadeStep::Run {
                tool: "revise_outline".to_owned(),
                args: base.with_u32("chapter", chapter).with_str(
                    "instructions",
                    how.as_str(),
                ).with_bool("force", true),
            }
        },
        ImpactTargetKind::ArcOutline => if volume == 0 {
            skip_line("- 跳过卷纲 ", place, "（缺卷号）")
        } else {
            CascadeStep::Run {
                tool: "design_arc_outline".to_owned(),
                args: base.with_u32("arc", volume).with_str("brief", how.as_str()).with_bool(
                    "force",
                    true,
                ),
            }
        },
        ImpactTargetKind::MasterOutline => CascadeStep::Run {
            tool: "design_master_outline".to_owned(),
            args: base.with_str("brief", how.as_str()).with_bool("force", true),
        },
        ImpactTargetKind::Entity => if hit.entity_name.as_str().is_empty() {
            let mut s = "- 跳过实体 ".to_owned();
            s.push_str(place);
            CascadeStep::Skip(s)
        } else {
            CascadeStep::Run {
                tool: "design_entity".to_owned(),
                args: base.with_str("kind", hit.entity_kind.as_str()).with_str(
                    "name",
                    hit.entity_name.as_str(),
                ).with_str("brief", how.as_str()).with_bool("force", true),
            }
        },
        ImpactTargetKind::Bible => CascadeStep::Run {
            tool: "upsert_setting".to_owned(),
            args: base.with_str("topic", source.id.as_str()).with_str(
                "content",
                how.as_str(),
            ).with_bool("force", true),
        },
    }
}

// ---------------------------------------------------------------------------
// The run
// ---------------------------------------------------------------------------

/// How a tool ended.
pub enum ToolOutcome {
    Ran { output: String, data: Json },
    Failed(String),
}

/// How a tool ended, by contents.
pub enum OutcomeV {
    Ran { output: Seq<char>, data: JsonV },
    Failed(Seq<char>),
}

impl View for ToolOutcome {
    type V = OutcomeV;

    open spec fn view(&self) -> OutcomeV {
        match self {
            ToolOutcome::Ran { output, data } => OutcomeV::Ran { output: output@, data: data@ },
            ToolOutcome::Failed(e) => OutcomeV::Failed(e@),
        }
    }
}

/// The tool ran and was not blocked.
pub open spec fn took_effect(o: OutcomeV) -> bool {
    o matches OutcomeV::Ran { output, data } && !data.flag("blocked"@)
}

/// The line that tells how a place was revised.
pub open spec fn result_line(tool: Seq<char>, place: Seq<char>, o: OutcomeV) -> Seq<char> {
    match o {
        OutcomeV::Ran { output, data } => if data.flag("blocked"@) {
            "- "@ + tool + " "@ + place + " 被拦截："@ + match data.text("reason"@) {
                Some(r) => r,
                None => "blocked"@,
            }
        } else {
            "- 已同步 "@ + place + "："@ + text::first_chars(output, 120)
        },
        OutcomeV::Failed(e) => "- 同步 "@ + place + " 失败："@ + e,
    }
}

/// A run over the places that depend on a change.
pub struct CascadeRun {
    project: String,
    source: ImpactSource,
    hits: Vec<ImpactHit>,
    at: usize,
    lines: Vec<String>,
    revised: Vec<u32>,
}

/// A run, by contents.
pub struct RunV {
    pub project: Seq<char>,
    pub source: SourceV,
    pub hits: Seq<HitV>,
    /// How many places are dealt with.
    pub at: nat,
    pub lines: Seq<Seq<char>>,
    /// The chapters whose text was revised.
    pub revised: Seq<u32>,
}

impl View for CascadeRun {
    type V = RunV;

    closed spec fn view(&self) -> RunV {
        RunV {
            project: self.project@,
            source: self.source@,
            hits: impact::hit_list(self.hits@),
            at: self.at as nat,
            lines: text::texts(self.lines@),
            revised: self.revised@,
        }
    }
}

impl RunV {
    /// A run that has not begun.
    pub open spec fn fresh(project: Seq<char>, source: SourceV, hits: Seq<HitV>) -> RunV {
        RunV {
            project,
            source,
            hits: impact::consolidated(hits),
            at: 0,
            lines: Seq::empty(),
            revised: Seq::empty(),
        }
    }

    /// What is done about the place at hand.
    pub open spec fn step(self) -> Option<StepV> {
        if self.at < self.hits.len() {
            Some(step_for(self.project, self.source, self.hits[self.at as int]))
        } else {
            None
        }
    }

    /// The run at the next place that a tool revises; the places before it are
    /// told as skipped.
    pub open spec fn advanced(self) -> RunV
        decreases self.hits.len() - self.at,
    {
        match self.step() {
            Some(StepV::Skip(line)) => RunV {
                at: self.at + 1,
                lines: self.lines.push(line),
                ..self
            }.advanced(),
            _ => self,
        }
    }

    /// The run after the tool for the place at hand ended.
    pub open spec fn after(self, o: OutcomeV) -> RunV {
        match self.step() {
            Some(StepV::Run { tool, args }) => {
                let h = self.hits[self.at as int];
                RunV {
                    at: self.at + 1,
                    lines: self.lines.push(result_line(tool, h.target_ref, o)),
                    revised: if took_effect(o) && h.target_kind == ImpactTargetKind::Draft
                        && h.chapter is Some {
                        self.revised.push(h.chapter->0)
                    } else {
                        self.revised
                    },
                    ..self
                }
            },
            _ => self,
        }
    }
}

/// The numbers ascend, so that none occurs twice.
pub open spec fn ascend(v: Seq<u32>) -> bool {
    forall|i: int, j: int| 0 <= i < j < v.len() ==> #[trigger] v[i] < #[trigger] v[j]
}

/// The first three of the chapters in order, each once.
pub open spec fn is_first_three(r: Seq<u32>, v: Seq<u32>) -> bool {
    exists|all: Seq<u32>|
        ascend(all) && (forall|x: u32| #[trigger] all.contains(x) <==> v.contains(x)) && r
            == if all.len() <= 3 {
            all
        } else {
            #[trigger] all.take(3)
        }
}

/// The summary of a run.
pub open spec fn run_summary(lines: Seq<Seq<char>>) -> Seq<char> {
    if lines.len() == 0 {
        "无自动同步目标（或仅剧情卡提示）。"@
    } else {
        text::joined(lines, "\n"@)
    }
}

fn put_number(v: &mut Vec<u32>, n: u32)
    requires
        ascend(old(v)@),
    ensures
        ascend(final(v)@),
        forall|x: u32| #[trigger] final(v)@.contains(x) <==> (x == n || old(v)@.contains(x)),
{
    let ghost s = v@;
    let mut i: usize = 0;
    while i < v.len() && v[i] < n
        invariant
            i <= v.len(),
            s == v@,
            forall|j: int| 0 <= j < i ==> #[trigger] s[j] < n,
        decreases v.len() - i,
    {
        i = i + 1;
    }
    if i < v.len() && v[i] == n {
        assert(s[i as int] == n);
        return;
    }
    v.insert(i, n);
    proof {
        let t = v@;
        assert forall|x: u32| #[trigger] t.contains(x) <==> (x == n || s.contains(x)) by {
            if t.contains(x) {
                let k = choose|k: int| 0 <= k < t.len() && t[k] == x;
                if k < i {
                    assert(s[k] == x);
                } else if k > i {
                    assert(s[k - 1] == x);
                }
            }
            if x == n {
                assert(t[i as int] == x);
            }
            if s.contains(x) {
                let k = choose|k: int| 0 <= k < s.len() && s[k] == x;
                if k < i {
                    assert(t[k] == x);
                } else {
                    assert(t[k + 1] == x);
                }
            }
        }
    }
}

impl CascadeRun {
    /// A run over the places, one entry for each.
    pub fn start(project: &str, source: ImpactSource, hits: &Vec<ImpactHit>) -> (r: CascadeRun)
        ensures
            r@ == RunV::fresh(project@, source@, impact::hit_list(hits@)),
    {
        let r = CascadeRun {
            project: project.to_owned(),
            source,
            hits: impact::consolidate_impact_hits(hits),
            at: 0,
            lines: Vec::new(),
            revised: Vec::new(),
        };
        assert(r@.lines =~= Seq::<Seq<char>>::empty());
        r
    }

    /// Goes on to the next place that a tool revises, and gives its call.
    pub fn next(&mut self) -> (r: Option<(String, Json)>)
        ensures
            final(self)@ == old(self)@.advanced(),
            match r {
                Some(p) => final(self)@.step() == Some(StepV::Run { tool: p.0@, args: p.1@ }),
                None => final(self)@.step() is None,
            },
    {
        while self.at < self.hits.len()
            invariant
                self@.advanced() == old(self)@.advanced(),
            decreases self.hits.len() - self.at,
        {
            let ghost was = self@;
            assert(was.hits[was.at as int] == self.hits@[self.at as int]@);
            match cascade_step(self.project.as_str(), &self.source, &self.hits[self.at]) {
                CascadeStep::Skip(line) => {
                    let ghost lv = line@;
                    self.lines.push(line);
                    self.at = self.at + 1;
                    assert(self@.lines =~= was.lines.push(lv));
                    assert(self@ == RunV { at: was.at + 1, lines: was.lines.push(lv), ..was });
                },
                CascadeStep::Run { tool, args } => {
                    return Some((tool, args));
                },
            }
        }
        None
    }

    /// Takes down how the tool for the place at hand ended.
    pub fn ran(&mut self, outcome: &ToolOutcome)
        ensures
            final(self)@ == old(self)@.after(outcome@),
    {
        if self.at >= self.hits.len() {
            return;
        }
        let ghost was = self@;
        assert(was.hits[was.at as int] == self.hits@[self.at as int]@);
        match cascade_step(self.project.as_str(), &self.source, &self.hits[self.at]) {
            CascadeStep::Skip(_) => {},
            CascadeStep::Run { tool, args } => {
                let place = self.hits[self.at].target_ref.as_str();
                let mut line: String;
                let mut effect = false;
                match outcome {
                    ToolOutcome::Ran { output, data } => {
                        if data.is_true("blocked") {
                            line = "- ".to_owned();
                            line.push_str(tool.as_str());
                            line.push_str(" ");
                            line.push_str(place);
                            line.push_str(" 被拦截：");
                            match data.get_str("reason") {
                                Some(w) => {
                                    line.push_str(w);
                                },
                                None => {
                                    line.push_str("blocked");
                                },
                            }
                        } else {
                            line = "- 已同步 ".to_owned();
                            line.push_str(place);
                            line.push_str("：");
                            line.push_str(text::take_chars(output.as_str(), 120).as_str());
                            effect = true;
                        }
                    },
                    ToolOutcome::Failed(e) => {
                        line = "- 同步 ".to_owned();
                        line.push_str(place);
                        line.push_str(" 失败：");
                        line.push_str(e.as_str());
                    },
                }
                if effect && self.hits[self.at].target_kind == ImpactTargetKind::Draft {
                    match self.hits[self.at].chapter {
                        Some(ch) => {
                            self.revised.push(ch);
                        },
                        None => {},
                    }
                }
                let ghost lv = line@;
                self.lines.push(line);
                self.at = self.at + 1;
                assert(self@.lines =~= was.lines.push(lv));
            },
        }
    }

    /// The chapters to audit again: the first three of those revised.
    pub fn chapters_to_reaudit(&self) -> (r: Vec<u32>)
        ensures
            is_first_three(r@, self@.revised),
    {
        let mut all: Vec<u32> = Vec::new();
        let ghost v = self.revised@;
        let mut i: usize = 0;
        while i < self.revised.len()
            invariant
                i <= self.revised.len(),
                v == self.revised@,
                ascend(all@),
                forall|x: u32| #[trigger] all@.contains(x) <==> v.take(i as int).contains(x),
            decreases self.revised.len() - i,
        {
            let ghost before = all@;
            put_number(&mut all, self.revised[i]);
            proof {
                let next = v.take(i + 1);
                assert forall|x: u32| #[trigger] all@.contains(x) <==> next.contains(x) by {
                    if next.contains(x) {
                        let k = choose|k: int| 0 <= k < next.len() && next[k] == x;
                        if k < i {
                            assert(v.take(i as int)[k] == x);
                            assert(before.contains(x));
                        }
                    }
                    if all@.contains(x) {
                        if x == v[i as int] {
                            assert(next[i as int] == x);
                        } else {
                            assert(before.contains(x));
                            let k = choose|k: int| 0 <= k < i && v.take(i as int)[k] == x;
                            assert(next[k] == x);
                        }
                    }
                }
            }
            i = i + 1;
        }
        assert(v.take(i as int) =~= v);
        let ghost whole = all@;
        all.truncate(3);
        assert(whole.take(3) =~= whole.take(3));
        assert(all@ =~= if whole.len() <= 3 {
            whole
        } else {
            whole.take(3)
        });
        all
    }

    /// Takes down that a chapter was audited again.
    pub fn reaudited(&mut self, chapter: u32)
        ensures
            final(self)@ == (RunV {
                lines: old(self)@.lines.push(
                    "- 已复审第"@ + text::dec(chapter as nat) + "章"@,
                ),
                ..old(self)@
            }),
    {
        let ghost was = self@;
        let mut line = "- 已复审第".to_owned();
        line.push_str(text::number(chapter as u64).as_str());
        line.push_str("章");
        let ghost lv = line@;
        self.lines.push(line);
        assert(self@.lines =~= was.lines.push(lv));
    }

    /// The summary of the run.
    pub fn summary(&self) -> (r: String)
        ensures
            r@ == run_summary(self@.lines),
    {
        if self.lines.len() == 0 {
            "无自动同步目标（或仅剧情卡提示）。".to_owned()
        } else {
            text::join(&self.lines, "\n")
        }
    }
}

/// A plot card is never rewritten, and each place leaves exactly one line.
pub proof fn each_place_leaves_a_line(s: RunV, o: OutcomeV)
    requires
        s.at < s.hits.len(),
    ensures
        s.hits[s.at as int].target_kind == ImpactTargetKind::Plot ==> s.step() matches Some(
            StepV::Skip(_),
        ),
        s.advanced().lines.len() - s.lines.len() == s.advanced().at - s.at,
        s.advanced().step() is Some ==> s.advanced().after(o).lines.len() - s.lines.len()
            == s.advanced().at + 1 - s.at,
    decreases s.hits.len() - s.at,
{
    match s.step() {
        Some(StepV::Skip(line)) => {
            let n = RunV { at: s.at + 1, lines: s.lines.push(line), ..s };
            if n.at < n.hits.len() {
                each_place_leaves_a_line(n, o);
            } else {
                assert(n.step() is None);
                assert(n.advanced() == n);
            }
        },
        _ => {},
    }
}

/// The answer where what was changed cannot be told: nothing is synchronised.
pub fn source_is_unknown() -> (r: String)
    ensures
        r@ == "无法解析影响源，已跳过级联。"@,
{
    "无法解析影响源，已跳过级联。".to_owned()
}

} // verus!
