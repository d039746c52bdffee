//! The decision council: ballots read off an audit, and how they are counted
//! into a verdict.

use vstd::prelude::*;

use crate::audit_decisions;
use crate::issues;
use crate::issues::{AuditIssue, IssueV};
use crate::json;
use crate::json::{Json, JsonV};
use crate::order;
use crate::text;

verus! {

/// How a member votes.
#[derive(Clone, Copy, Debug, PartialEq, Eq, Structural)]
pub enum CouncilVote {
    Revise,
    Approve,
    Escalate,
    Abstain,
}

/// How grave a member finds the matter.
#[derive(Clone, Copy, Debug, PartialEq, Eq, Structural)]
pub enum CouncilSeverity {
    Block,
    Warn,
    Info,
}

/// What the council decides.
#[derive(Clone, Copy, Debug, PartialEq, Eq, Structural)]
pub enum CouncilAction {
    AutoRevise,
    AutoContinue,
    EscalateHuman,
    FetchMaterial,
}

/// One member's ballot.
pub struct JuryBallot {
    pub agent: String,
    pub vote: CouncilVote,
    pub severity: CouncilSeverity,
    /// From 0 to 100.
    pub score: u32,
    pub preferred_action: String,
    pub reasons: Vec<String>,
    pub issue_refs: Vec<String>,
}

/// A ballot by contents.
pub struct BallotV {
    pub agent: Seq<char>,
    pub vote: CouncilVote,
    pub severity: CouncilSeverity,
    pub score: u32,
    pub preferred_action: Seq<char>,
    pub reasons: Seq<Seq<char>>,
    pub issue_refs: Seq<Seq<char>>,
}

impl View for JuryBallot {
    type V = BallotV;

    open spec fn view(&self) -> BallotV {
        BallotV {
            agent: self.agent@,
            vote: self.vote,
            severity: self.severity,
            score: self.score,
            preferred_action: self.preferred_action@,
            reasons: text::texts(self.reasons@),
            issue_refs: text::texts(self.issue_refs@),
        }
    }
}

/// The contents of a list of ballots.
pub open spec fn ballot_list(v: Seq<JuryBallot>) -> Seq<BallotV> {
    Seq::new(v.len(), |i: int| v[i]@)
}

/// The council's decision.
pub struct CouncilVerdict {
    pub action: CouncilAction,
    pub tool: String,
    pub args: Json,
    pub ballots: Vec<JuryBallot>,
    pub rationale: String,
    pub retry_count: u32,
}

/// A decision by contents.
pub struct VerdictV {
    pub action: CouncilAction,
    pub tool: Seq<char>,
    pub args: JsonV,
    pub ballots: Seq<BallotV>,
    pub rationale: Seq<char>,
    pub retry_count: u32,
}

impl View for CouncilVerdict {
    type V = VerdictV;

    open spec fn view(&self) -> VerdictV {
        VerdictV {
            action: self.action,
            tool: self.tool@,
            args: self.args@,
            ballots: ballot_list(self.ballots@),
            rationale: self.rationale@,
            retry_count: self.retry_count,
        }
    }
}

// ---------------------------------------------------------------------------
// Configuration
// ---------------------------------------------------------------------------

/// A member of the council.
pub struct MemberConfig {
    pub role: String,
    pub weight: u32,
    /// Whether the member's block forces a revision.
    pub veto: bool,
}

/// A member by contents.
pub struct MemberV {
    pub role: Seq<char>,
    pub weight: u32,
    pub veto: bool,
}

impl View for MemberConfig {
    type V = MemberV;

    open spec fn view(&self) -> MemberV {
        MemberV { role: self.role@, weight: self.weight, veto: self.veto }
    }
}

/// The contents of a list of members.
pub open spec fn member_list(v: Seq<MemberConfig>) -> Seq<MemberV> {
    Seq::new(v.len(), |i: int| v[i]@)
}

/// How one kind of matter is decided.
pub struct KindConfig {
    pub enabled: bool,
    pub max_auto_retries: u32,
    /// After so many looks with the same blocking kinds the author decides.
    pub same_type_streak_limit: u32,
    pub min_score: u32,
    pub deadlock_epsilon: u32,
    pub allow_auto_accept_p0: bool,
    pub members: Vec<MemberConfig>,
    pub batch_per_chapter: bool,
}

/// How one kind of matter is decided, by contents.
pub struct KindV {
    pub enabled: bool,
    pub max_auto_retries: u32,
    pub same_type_streak_limit: u32,
    pub min_score: u32,
    pub deadlock_epsilon: u32,
    pub allow_auto_accept_p0: bool,
    pub members: Seq<MemberV>,
    pub batch_per_chapter: bool,
}

impl View for KindConfig {
    type V = KindV;

    open spec fn view(&self) -> KindV {
        KindV {
            enabled: self.enabled,
            max_auto_retries: self.max_auto_retries,
            same_type_streak_limit: self.same_type_streak_limit,
            min_score: self.min_score,
            deadlock_epsilon: self.deadlock_epsilon,
            allow_auto_accept_p0: self.allow_auto_accept_p0,
            members: member_list(self.members@),
            batch_per_chapter: self.batch_per_chapter,
        }
    }
}

/// How reference material is fetched.
pub struct MaterialConfig {
    pub enabled: bool,
    pub cooldown_chapters: u32,
    pub max_cards_per_call: u32,
    pub inject_into: Vec<String>,
    pub motif_from: Vec<String>,
    pub inject_chars: usize,
}

/// The council's configuration.
pub struct DecisionCouncilConfig {
    kinds: Vec<(String, KindConfig)>,
    pub material: MaterialConfig,
}

/// The value of an unset switch.
pub fn default_true() -> (r: bool)
    ensures
        r,
{
    true
}

/// The number of automatic retries where none is set.
pub fn default_max_retries() -> (r: u32)
    ensures
        r == 1,
{
    1
}

/// The streak limit where none is set.
pub fn default_same_type_streak() -> (r: u32)
    ensures
        r == 2,
{
    2
}

/// The least score where none is set.
pub fn default_min_score() -> (r: u32)
    ensures
        r == 70,
{
    70
}

/// The deadlock margin where none is set.
pub fn default_epsilon() -> (r: u32)
    ensures
        r == 8,
{
    8
}

/// A member's weight where none is set.
pub fn default_weight() -> (r: u32)
    ensures
        r == 1,
{
    1
}

/// The pause between fetches of material where none is set.
pub fn default_cooldown() -> (r: u32)
    ensures
        r == 5,
{
    5
}

/// The number of material cards per call where none is set.
pub fn default_max_cards() -> (r: u32)
    ensures
        r == 3,
{
    3
}

/// The length of injected material where none is set.
pub fn default_inject_chars() -> (r: usize)
    ensures
        r == 900,
{
    900
}

/// The members where none are set: the consistency auditor with a veto, and two
/// advisors.
pub open spec fn default_members() -> Seq<MemberV> {
    seq![
        MemberV { role: "consistency_auditor"@, weight: 2, veto: true },
        MemberV { role: "pacing_reviewer"@, weight: 1, veto: false },
        MemberV { role: "plot_acceptor"@, weight: 1, veto: false },
    ]
}

/// How a matter is decided where nothing is set.
pub open spec fn default_kind() -> KindV {
    KindV {
        enabled: true,
        max_auto_retries: 1,
        same_type_streak_limit: 2,
        min_score: 70,
        deadlock_epsilon: 8,
        allow_auto_accept_p0: false,
        members: default_members(),
        batch_per_chapter: true,
    }
}

impl Default for KindConfig {
    fn default() -> (r: KindConfig)
        ensures
            r@ == default_kind(),
    {
        let mut members: Vec<MemberConfig> = Vec::new();
        members.push(
            MemberConfig { role: "consistency_auditor".to_owned(), weight: 2, veto: true },
        );
        members.push(MemberConfig { role: "pacing_reviewer".to_owned(), weight: 1, veto: false });
        members.push(MemberConfig { role: "plot_acceptor".to_owned(), weight: 1, veto: false });
        assert(member_list(members@) =~= default_members());
        KindConfig {
            enabled: true,
            max_auto_retries: default_max_retries(),
            same_type_streak_limit: default_same_type_streak(),
            min_score: default_min_score(),
            deadlock_epsilon: default_epsilon(),
            allow_auto_accept_p0: false,
            members,
            batch_per_chapter: true,
        }
    }
}

impl Default for MaterialConfig {
    fn default() -> (r: MaterialConfig)
        ensures
            !r.enabled,
            r.cooldown_chapters == 0,
            r.max_cards_per_call == 0,
            r.inject_into@.len() == 0,
            r.motif_from@.len() == 0,
            r.inject_chars == 0,
    {
        MaterialConfig {
            enabled: false,
            cooldown_chapters: 0,
            max_cards_per_call: 0,
            inject_into: Vec::new(),
            motif_from: Vec::new(),
            inject_chars: 0,
        }
    }
}

/// The configured kinds by name.
pub open spec fn kind_list(v: Seq<(String, KindConfig)>) -> Seq<(Seq<char>, KindV)> {
    Seq::new(v.len(), |i: int| (v[i].0@, v[i].1@))
}

/// The first kind with the name, at or after position `i`.
pub open spec fn kind_from(m: Seq<(Seq<char>, KindV)>, name: Seq<char>, i: int) -> Option<KindV>
    decreases m.len() - i,
{
    if i < 0 || i >= m.len() {
        None
    } else if m[i].0 == name {
        Some(m[i].1)
    } else {
        kind_from(m, name, i + 1)
    }
}

/// The kinds of a council that configures none. A clean chapter does not run on
/// by itself.
pub open spec fn default_kinds() -> Seq<(Seq<char>, KindV)> {
    seq![
        ("audit_content"@, default_kind()),
        (
            "chapter_next_clean"@,
            KindV { enabled: false, members: Seq::empty(), ..default_kind() },
        ),
        ("chapter_boundary_seal"@, KindV { members: Seq::empty(), ..default_kind() }),
    ]
}

impl KindConfig {
    /// A copy of the configuration.
    pub fn copy(&self) -> (r: KindConfig)
        ensures
            r@ == self@,
    {
        let mut members: Vec<MemberConfig> = Vec::new();
        let mut i: usize = 0;
        while i < self.members.len()
            invariant
                i <= self.members.len(),
                members.len() == i,
                forall|j: int| 0 <= j < i ==> (#[trigger] members@[j])@ == self.members@[j]@,
            decreases self.members.len() - i,
        {
            let m = &self.members[i];
            members.push(MemberConfig { role: m.role.clone(), weight: m.weight, veto: m.veto });
            i = i + 1;
        }
        assert(member_list(members@) =~= member_list(self.members@));
        KindConfig {
            enabled: self.enabled,
            max_auto_retries: self.max_auto_retries,
            same_type_streak_limit: self.same_type_streak_limit,
            min_score: self.min_score,
            deadlock_epsilon: self.deadlock_epsilon,
            allow_auto_accept_p0: self.allow_auto_accept_p0,
            members,
            batch_per_chapter: self.batch_per_chapter,
        }
    }
}

impl DecisionCouncilConfig {
    /// The kinds that are configured, by name.
    pub closed spec fn configured(&self) -> Seq<(Seq<char>, KindV)> {
        kind_list(self.kinds@)
    }

    /// The researcher's settings: the field `material`.
    pub closed spec fn researcher(&self) -> MaterialConfig {
        self.material
    }

    /// The council that configures these kinds; of two with one name the first
    /// counts.
    pub fn new(kinds: Vec<(String, KindConfig)>, material: MaterialConfig) -> (r:
        DecisionCouncilConfig)
        ensures
            r.configured() == kind_list(kinds@),
            r.researcher() == material,
    {
        DecisionCouncilConfig { kinds, material }
    }

    /// The council that configures nothing.
    pub fn defaults() -> (r: DecisionCouncilConfig)
        ensures
            r.configured() == default_kinds(),
            !r.researcher().enabled,
            r.researcher().cooldown_chapters == 0,
            r.researcher().max_cards_per_call == 0,
            r.researcher().inject_into@.len() == 0,
            r.researcher().motif_from@.len() == 0,
            r.researcher().inject_chars == 0,
    {
        let mut clean = KindConfig::default();
        clean.enabled = false;
        clean.members = Vec::new();
        let mut seal = KindConfig::default();
        seal.members = Vec::new();
        assert(member_list(clean.members@) =~= Seq::<MemberV>::empty());
        assert(member_list(seal.members@) =~= Seq::<MemberV>::empty());
        let mut kinds: Vec<(String, KindConfig)> = Vec::new();
        kinds.push(("audit_content".to_owned(), KindConfig::default()));
        kinds.push(("chapter_next_clean".to_owned(), clean));
        kinds.push(("chapter_boundary_seal".to_owned(), seal));
        assert(kind_list(kinds@) =~= default_kinds());
        DecisionCouncilConfig { kinds, material: MaterialConfig::default() }
    }

    fn get(&self, name: &str) -> (r: Option<&KindConfig>)
        ensures
            match r {
                Some(k) => kind_from(self.configured(), name@, 0) == Some(k@),
                None => kind_from(self.configured(), name@, 0) is None,
            },
    {
        let ghost m = kind_list(self.kinds@);
        let mut i: usize = 0;
        while i < self.kinds.len()
            invariant
                i <= self.kinds.len(),
                m == kind_list(self.kinds@),
                kind_from(m, name@, 0) == kind_from(m, name@, i as int),
            decreases self.kinds.len() - i,
        {
            assert(m[i as int] == (self.kinds@[i as int].0@, self.kinds@[i as int].1@));
            if text::same(self.kinds[i].0.as_str(), name) {
                return Some(&self.kinds[i].1);
            }
            i = i + 1;
        }
        None
    }

    /// Whether the kind is configured and on.
    pub fn kind_enabled(&self, kind: &str) -> (r: bool)
        ensures
            r == match kind_from(self.configured(), kind@, 0) {
                Some(k) => k.enabled,
                None => false,
            },
    {
        match self.get(kind) {
            Some(k) => k.enabled,
            None => false,
        }
    }

    /// How the content of an audit is decided.
    pub fn audit_kind(&self) -> (r: KindConfig)
        ensures
            r@ == match kind_from(self.configured(), "audit_content"@, 0) {
                Some(k) => k,
                None => default_kind(),
            },
    {
        match self.get("audit_content") {
            Some(k) => k.copy(),
            None => KindConfig::default(),
        }
    }

    /// Whether chapters are sealed in one batch.
    pub fn seal_batch_per_chapter(&self) -> (r: bool)
        ensures
            r == match kind_from(self.configured(), "chapter_boundary_seal"@, 0) {
                Some(k) => k.enabled && k.batch_per_chapter,
                None => true,
            },
    {
        match self.get("chapter_boundary_seal") {
            Some(k) => k.enabled && k.batch_per_chapter,
            None => true,
        }
    }
}

// ---------------------------------------------------------------------------
// Blocking issues
// ---------------------------------------------------------------------------

/// Whether some issue blocks.
pub fn has_true_p0(list: &Vec<AuditIssue>) -> (r: bool)
    ensures
        r == issues::some_p0(issues::issue_list(list@)),
{
    proof {
        issues::p0_only_empty(issues::issue_list(list@));
    }
    issues::p0_issues(list).len() > 0
}

/// Some blocking issue has the kind.
pub open spec fn blocking_kind(s: Seq<IssueV>, kind: Seq<char>) -> bool {
    exists|i: int| 0 <= i < s.len() && is_kind(#[trigger] s[i], kind)
}

/// The issue blocks and has the kind, which is not empty.
pub open spec fn is_kind(i: IssueV, kind: Seq<char>) -> bool {
    issues::is_p0(i) && i.kind == kind && kind.len() > 0
}

/// The kinds of the blocking issues, in order, each once.
pub fn p0_issue_types(list: &Vec<AuditIssue>) -> (r: Vec<String>)
    ensures
        order::ascending(text::texts(r@)),
        forall|k: Seq<char>| #[trigger]
            text::texts(r@).contains(k) <==> blocking_kind(issues::issue_list(list@), k),
{
    let ghost all = issues::issue_list(list@);
    let mut found: Vec<String> = Vec::new();
    let mut i: usize = 0;
    while i < list.len()
        invariant
            i <= list.len(),
            all == issues::issue_list(list@),
            forall|k: Seq<char>| #[trigger]
                text::texts(found@).contains(k) <==> blocking_kind(all.take(i as int), k),
        decreases list.len() - i,
    {
        let ghost before = text::texts(found@);
        let ghost seen = all.take(i as int);
        let ghost next = all.take(i + 1);
        let ghost x = list@[i as int]@;
        assert(next[i as int] == x);
        if list[i].blocks() && !list[i].kind.as_str().is_empty() {
            found.push(list[i].kind.clone());
            proof {
                let now = text::texts(found@);
                assert(now =~= before.push(x.kind));
                assert forall|k: Seq<char>| #[trigger] now.contains(k) <==> blocking_kind(
                    next,
                    k,
                ) by {
                    if now.contains(k) {
                        if k == x.kind {
                            assert(is_kind(next[i as int], k));
                        } else {
                            let j = choose|j: int| 0 <= j < now.len() && now[j] == k;
                            assert(before[j] == k);
                            assert(before.contains(k));
                            let m = choose|m: int| 0 <= m < seen.len() && is_kind(
                                #[trigger] seen[m],
                                k,
                            );
                            assert(is_kind(next[m], k));
                        }
                    }
                    if blocking_kind(next, k) {
                        let m = choose|m: int| 0 <= m < next.len() && is_kind(
                            #[trigger] next[m],
                            k,
                        );
                        if m < i {
                            assert(is_kind(seen[m], k));
                            assert(before.contains(k));
                            let j = choose|j: int| 0 <= j < before.len() && before[j] == k;
                            assert(now[j] == k);
                        } else {
                            assert(now[before.len() as int] == k);
                        }
                    }
                }
            }
        } else {
            proof {
                assert forall|k: Seq<char>| #[trigger] before.contains(k) <==> blocking_kind(
                    next,
                    k,
                ) by {
                    if blocking_kind(seen, k) {
                        let m = choose|m: int| 0 <= m < seen.len() && is_kind(
                            #[trigger] seen[m],
                            k,
                        );
                        assert(is_kind(next[m], k));
                    }
                    if blocking_kind(next, k) {
                        let m = choose|m: int| 0 <= m < next.len() && is_kind(
                            #[trigger] next[m],
                            k,
                        );
                        assert(is_kind(seen[m], k));
                    }
                }
            }
        }
        i = i + 1;
    }
    assert(all.take(i as int) =~= all);
    order::sorted_unique(&found)
}

/// The two lists share a text.
pub open spec fn overlap(a: Seq<Seq<char>>, b: Seq<Seq<char>>) -> bool {
    exists|i: int| 0 <= i < a.len() && b.contains(#[trigger] a[i])
}

/// The streak after another look.
pub open spec fn next_streak(
    prev_types: Seq<Seq<char>>,
    current_types: Seq<Seq<char>>,
    prev_streak: u32,
) -> u32 {
    if current_types.len() == 0 {
        0
    } else if prev_types.len() == 0 || !overlap(current_types, prev_types) {
        1
    } else if prev_streak < 1 {
        2
    } else if prev_streak == u32::MAX {
        u32::MAX
    } else {
        (prev_streak + 1) as u32
    }
}

/// Counts looks in a row whose blocking kinds overlap: none without blocking
/// kinds, one at the first look or where nothing overlaps, one more otherwise.
pub fn next_same_type_streak(
    prev_types: &Vec<String>,
    current_types: &Vec<String>,
    prev_streak: u32,
) -> (r: u32)
    ensures
        r == next_streak(text::texts(prev_types@), text::texts(current_types@), prev_streak),
{
    if current_types.len() == 0 {
        return 0;
    }
    if prev_types.len() == 0 {
        return 1;
    }
    let ghost a = text::texts(current_types@);
    let ghost b = text::texts(prev_types@);
    let mut i: usize = 0;
    while i < current_types.len()
        invariant
            i <= current_types.len(),
            current_types.len() > 0,
            prev_types.len() > 0,
            a == text::texts(current_types@),
            b == text::texts(prev_types@),
            forall|j: int| 0 <= j < i ==> !b.contains(#[trigger] a[j]),
        decreases current_types.len() - i,
    {
        if audit_decisions::holds_text(prev_types, current_types[i].as_str()) {
            assert(b.contains(a[i as int]));
            let more: u32 = prev_streak.saturating_add(1);
            return if more < 2 {
                2
            } else {
                more
            };
        }
        i = i + 1;
    }
    1
}

// ---------------------------------------------------------------------------
// Ballots
// ---------------------------------------------------------------------------

/// The consistency auditor's ballot: blocking issues call for a revision;
/// without them the audit's own word decides.
pub open spec fn consistency_ballot(data: JsonV, s: Seq<IssueV>) -> BallotV {
    let p0 = issues::p0_only(s);
    let passed = data.bool("consistency_passed"@) != Some(false);
    if p0.len() > 0 {
        BallotV {
            agent: "consistency_auditor"@,
            vote: CouncilVote::Revise,
            severity: CouncilSeverity::Block,
            score: 92,
            preferred_action: "fix_all_p0"@,
            reasons: seq![text::dec(p0.len()) + " 条真 P0 阻断"@],
            issue_refs: issues::ids_of(p0),
        }
    } else {
        BallotV {
            agent: "consistency_auditor"@,
            vote: if passed {
                CouncilVote::Approve
            } else {
                CouncilVote::Revise
            },
            severity: CouncilSeverity::Info,
            score: if passed {
                88
            } else {
                60
            },
            preferred_action: if passed {
                "approve"@
            } else {
                "fix_all"@
            },
            reasons: seq!["无真 P0"@],
            issue_refs: Seq::empty(),
        }
    }
}

fn one_text(s: String) -> (r: Vec<String>)
    ensures
        text::texts(r@) == seq![s@],
{
    let mut v: Vec<String> = Vec::new();
    v.push(s);
    assert(text::texts(v@) =~= seq![s@]);
    v
}

fn no_texts() -> (r: Vec<String>)
    ensures
        text::texts(r@) == Seq::<Seq<char>>::empty(),
{
    let v: Vec<String> = Vec::new();
    assert(text::texts(v@) =~= Seq::<Seq<char>>::empty());
    v
}

/// The consistency auditor's ballot.
pub fn ballot_from_consistency(data: &Json, list: &Vec<AuditIssue>) -> (r: JuryBallot)
    ensures
        r@ == consistency_ballot(data@, issues::issue_list(list@)),
{
    let p0 = issues::p0_issues(list);
    if p0.len() > 0 {
        let refs = issues::issue_ids(&p0);
        let mut reason = text::number(p0.len() as u64);
        reason.push_str(" 条真 P0 阻断");
        JuryBallot {
            agent: "consistency_auditor".to_owned(),
            vote: CouncilVote::Revise,
            severity: CouncilSeverity::Block,
            score: 92,
            preferred_action: "fix_all_p0".to_owned(),
            reasons: one_text(reason),
            issue_refs: refs,
        }
    } else {
        let passed = !data.is_false("consistency_passed");
        JuryBallot {
            agent: "consistency_auditor".to_owned(),
            vote: if passed {
                CouncilVote::Approve
            } else {
                CouncilVote::Revise
            },
            severity: CouncilSeverity::Info,
            score: if passed {
                88
            } else {
                60
            },
            preferred_action: if passed {
                "approve".to_owned()
            } else {
                "fix_all".to_owned()
            },
            reasons: one_text("无真 P0".to_owned()),
            issue_refs: no_texts(),
        }
    }
}

/// The ballot on pacing, which only advises.
pub open spec fn pacing_ballot(data: JsonV) -> BallotV {
    let passed = data.bool("pacing_passed"@) != Some(false);
    BallotV {
        agent: "pacing_reviewer"@,
        vote: if passed {
            CouncilVote::Abstain
        } else {
            CouncilVote::Revise
        },
        severity: if passed {
            CouncilSeverity::Info
        } else {
            CouncilSeverity::Warn
        },
        score: if passed {
            70
        } else {
            55
        },
        preferred_action: if passed {
            "approve"@
        } else {
            "fix_all_p0"@
        },
        reasons: seq![
            if passed {
                "节奏可接受（顾问票）"@
            } else {
                "节奏有建议（不否决发布）"@
            },
        ],
        issue_refs: Seq::empty(),
    }
}

/// The ballot on pacing, which never blocks.
pub fn ballot_from_pacing(data: &Json) -> (r: JuryBallot)
    ensures
        r@ == pacing_ballot(data@),
        r.severity != CouncilSeverity::Block,
{
    let passed = !data.is_false("pacing_passed");
    JuryBallot {
        agent: "pacing_reviewer".to_owned(),
        vote: if passed {
            CouncilVote::Abstain
        } else {
            CouncilVote::Revise
        },
        severity: if passed {
            CouncilSeverity::Info
        } else {
            CouncilSeverity::Warn
        },
        score: if passed {
            70
        } else {
            55
        },
        preferred_action: if passed {
            "approve".to_owned()
        } else {
            "fix_all_p0".to_owned()
        },
        reasons: one_text(
            if passed {
                "节奏可接受（顾问票）".to_owned()
            } else {
                "节奏有建议（不否决发布）".to_owned()
            },
        ),
        issue_refs: no_texts(),
    }
}

/// Whether the plot's closing was accepted, where that is known.
pub open spec fn plot_pass(data: JsonV) -> Option<bool> {
    match data.bool("plot_accept_passed"@) {
        Some(b) => Some(b),
        None => data.bool("pass"@),
    }
}

/// The plot acceptor's ballot, which only advises.
pub open spec fn plot_ballot(data: JsonV) -> BallotV {
    match plot_pass(data) {
        Some(true) => BallotV {
            agent: "plot_acceptor"@,
            vote: CouncilVote::Approve,
            severity: CouncilSeverity::Info,
            score: 80,
            preferred_action: "approve"@,
            reasons: seq!["剧情收束验收通过"@],
            issue_refs: Seq::empty(),
        },
        Some(false) => BallotV {
            agent: "plot_acceptor"@,
            vote: CouncilVote::Revise,
            severity: CouncilSeverity::Warn,
            score: 58,
            preferred_action: "fix_all_p0"@,
            reasons: seq!["剧情收束未通过（顾问）"@],
            issue_refs: Seq::empty(),
        },
        None => BallotV {
            agent: "plot_acceptor"@,
            vote: CouncilVote::Abstain,
            severity: CouncilSeverity::Info,
            score: 50,
            preferred_action: Seq::empty(),
            reasons: seq!["无剧情验收结果"@],
            issue_refs: Seq::empty(),
        },
    }
}

/// The plot acceptor's ballot, which never blocks.
pub fn ballot_from_plot_acceptor(data: &Json) -> (r: JuryBallot)
    ensures
        r@ == plot_ballot(data@),
        r.severity != CouncilSeverity::Block,
{
    let pass = match data.get_bool("plot_accept_passed") {
        Some(b) => Some(b),
        None => data.get_bool("pass"),
    };
    match pass {
        Some(true) => JuryBallot {
            agent: "plot_acceptor".to_owned(),
            vote: CouncilVote::Approve,
            severity: CouncilSeverity::Info,
            score: 80,
            preferred_action: "approve".to_owned(),
            reasons: one_text("剧情收束验收通过".to_owned()),
            issue_refs: no_texts(),
        },
        Some(false) => JuryBallot {
            agent: "plot_acceptor".to_owned(),
            vote: CouncilVote::Revise,
            severity: CouncilSeverity::Warn,
            score: 58,
            preferred_action: "fix_all_p0".to_owned(),
            reasons: one_text("剧情收束未通过（顾问）".to_owned()),
            issue_refs: no_texts(),
        },
        None => JuryBallot {
            agent: "plot_acceptor".to_owned(),
            vote: CouncilVote::Abstain,
            severity: CouncilSeverity::Info,
            score: 50,
            preferred_action: String::new(),
            reasons: one_text("无剧情验收结果".to_owned()),
            issue_refs: no_texts(),
        },
    }
}

// ---------------------------------------------------------------------------
// Counting
// ---------------------------------------------------------------------------

/// What a ballot may be counted for.
#[derive(Clone, Copy, Debug, PartialEq, Eq, Structural)]
pub enum Side {
    Revise,
    Escalate,
    Approve,
}

/// The ballot counts for the side.
pub open spec fn counts_for(b: BallotV, side: Side) -> bool {
    match side {
        Side::Revise => b.vote == CouncilVote::Revise || text::begins(
            b.preferred_action,
            "fix"@,
        ),
        Side::Escalate => b.vote == CouncilVote::Escalate,
        Side::Approve => b.vote == CouncilVote::Approve || b.preferred_action == "approve"@,
    }
}

/// The first ballot of the role, at or after position `i`.
pub open spec fn ballot_from(bs: Seq<BallotV>, role: Seq<char>, i: int) -> Option<BallotV>
    decreases bs.len() - i,
{
    if i < 0 || i >= bs.len() {
        None
    } else if bs[i].agent == role {
        Some(bs[i])
    } else {
        ballot_from(bs, role, i + 1)
    }
}

/// A member's weight, at least one.
pub open spec fn weight_of(m: MemberV) -> nat {
    if m.weight < 1 {
        1
    } else {
        m.weight as nat
    }
}

/// The weight of all members.
pub open spec fn total_weight(ms: Seq<MemberV>) -> nat
    decreases ms.len(),
{
    if ms.len() == 0 {
        0
    } else {
        total_weight(ms.drop_last()) + weight_of(ms.last())
    }
}

/// The weighted scores of the members whose ballot counts for the side.
pub open spec fn weighted_sum(ms: Seq<MemberV>, bs: Seq<BallotV>, side: Side) -> nat
    decreases ms.len(),
{
    if ms.len() == 0 {
        0
    } else {
        weighted_sum(ms.drop_last(), bs, side) + match ballot_from(bs, ms.last().role, 0) {
            Some(b) => if counts_for(b, side) {
                weight_of(ms.last()) * (b.score as nat)
            } else {
                0
            },
            None => 0,
        }
    }
}

/// A score as an exact fraction: the weighted sum over the total weight.
#[derive(Clone, Copy, Debug)]
pub struct Score {
    pub sum: u128,
    pub weight: u128,
}

/// The score is the side's average over the members; without members it is zero.
pub open spec fn is_score(s: Score, ms: Seq<MemberV>, bs: Seq<BallotV>, side: Side) -> bool {
    &&& s.sum == weighted_sum(ms, bs, side)
    &&& s.weight == if ms.len() == 0 {
        1
    } else {
        total_weight(ms)
    }
    &&& s.weight >= 1
    &&& s.weight <= 0xffff_ffff_ffff_ffff * 0xffff_ffff
    &&& s.sum <= 0xffff_ffff * s.weight
}

/// The average reaches the mark.
pub open spec fn reaches(ms: Seq<MemberV>, bs: Seq<BallotV>, side: Side, mark: u32) -> bool {
    if ms.len() == 0 {
        mark == 0
    } else {
        weighted_sum(ms, bs, side) >= mark * total_weight(ms)
    }
}

/// The averages of two sides differ by at most `eps`.
pub open spec fn close(ms: Seq<MemberV>, bs: Seq<BallotV>, a: Side, b: Side, eps: u32) -> bool {
    let d = weighted_sum(ms, bs, a) - weighted_sum(ms, bs, b);
    ms.len() == 0 || (-(eps * total_weight(ms)) <= d <= eps * total_weight(ms))
}

/// The average rounded to a whole number, halves to the even neighbour.
pub open spec fn rounded(sum: nat, weight: nat) -> nat {
    let q = sum / weight;
    let r = sum % weight;
    if 2 * r > weight || (2 * r == weight && q % 2 == 1) {
        q + 1
    } else {
        q
    }
}

/// The side's average, rounded.
pub open spec fn rounded_score(ms: Seq<MemberV>, bs: Seq<BallotV>, side: Side) -> nat {
    if ms.len() == 0 {
        0
    } else {
        rounded(weighted_sum(ms, bs, side), total_weight(ms))
    }
}

impl JuryBallot {
    fn is_for(&self, side: Side) -> (r: bool)
        ensures
            r == counts_for(self@, side),
    {
        match side {
            Side::Revise => self.vote == CouncilVote::Revise || text::starts_with(
                self.preferred_action.as_str(),
                "fix",
            ),
            Side::Escalate => self.vote == CouncilVote::Escalate,
            Side::Approve => self.vote == CouncilVote::Approve || text::same(
                self.preferred_action.as_str(),
                "approve",
            ),
        }
    }
}

fn find_ballot<'a>(bs: &'a Vec<JuryBallot>, role: &str) -> (r: Option<&'a JuryBallot>)
    ensures
        match r {
            Some(b) => ballot_from(ballot_list(bs@), role@, 0) == Some(b@),
            None => ballot_from(ballot_list(bs@), role@, 0) is None,
        },
{
    let ghost all = ballot_list(bs@);
    let mut i: usize = 0;
    while i < bs.len()
        invariant
            i <= bs.len(),
            all == ballot_list(bs@),
            ballot_from(all, role@, 0) == ballot_from(all, role@, i as int),
        decreases bs.len() - i,
    {
        assert(all[i as int] == bs@[i as int]@);
        if text::same(bs[i].agent.as_str(), role) {
            return Some(&bs[i]);
        }
        i = i + 1;
    }
    None
}

/// The side's average over the members.
fn weighted_score(members: &Vec<MemberConfig>, ballots: &Vec<JuryBallot>, side: Side) -> (r: Score)
    ensures
        is_score(r, member_list(members@), ballot_list(ballots@), side),
{
    let ghost ms = member_list(members@);
    let ghost bs = ballot_list(ballots@);
    let mut sum: u128 = 0;
    let mut weight: u128 = 0;
    let mut i: usize = 0;
    assert(ms.take(0) =~= Seq::<MemberV>::empty());
    while i < members.len()
        invariant
            i <= members.len(),
            ms == member_list(members@),
            bs == ballot_list(ballots@),
            sum == weighted_sum(ms.take(i as int), bs, side),
            weight == total_weight(ms.take(i as int)),
            weight >= i,
            weight <= i * 0xffff_ffff,
            sum <= 0xffff_ffff * weight,
        decreases members.len() - i,
    {
        let m = &members[i];
        proof {
            assert(ms.take(i + 1).drop_last() =~= ms.take(i as int));
            assert(ms.take(i + 1).last() == m@);
        }
        let w: u128 = if m.weight < 1 {
            1
        } else {
            m.weight as u128
        };
        assert(w == weight_of(m@));
        match find_ballot(ballots, m.role.as_str()) {
            Some(b) => if b.is_for(side) {
                let x: u128 = b.score as u128;
                assert(w * x <= 0xffff_ffff * w) by (nonlinear_arith)
                    requires
                        x <= 0xffff_ffff,
                        w <= 0xffff_ffff,
                ;
                sum = sum + w * x;
            },
            None => {},
        }
        weight = weight + w;
        i = i + 1;
    }
    assert(ms.take(i as int) =~= ms);
    if members.len() == 0 {
        Score { sum: 0, weight: 1 }
    } else {
        Score { sum, weight }
    }
}

impl Score {
    fn at_least(
        &self,
        mark: u32,
        Ghost(ms): Ghost<Seq<MemberV>>,
        Ghost(bs): Ghost<Seq<BallotV>>,
        Ghost(side): Ghost<Side>,
    ) -> (r: bool)
        requires
            is_score(*self, ms, bs, side),
        ensures
            r == reaches(ms, bs, side, mark),
    {
        let w: u128 = self.weight;
        let m: u128 = mark as u128;
        assert(m * w <= 0xffff_ffff * w) by (nonlinear_arith)
            requires
                m <= 0xffff_ffff,
        ;
        assert(w == 1 ==> m * w == m) by (nonlinear_arith);
        self.sum >= m * w
    }

    fn is_close(
        &self,
        other: &Score,
        eps: u32,
        Ghost(ms): Ghost<Seq<MemberV>>,
        Ghost(bs): Ghost<Seq<BallotV>>,
        Ghost(a): Ghost<Side>,
        Ghost(b): Ghost<Side>,
    ) -> (r: bool)
        requires
            is_score(*self, ms, bs, a),
            is_score(*other, ms, bs, b),
        ensures
            r == close(ms, bs, a, b, eps),
    {
        let w: u128 = self.weight;
        let e: u128 = eps as u128;
        assert(e * w <= 0xffff_ffff * w) by (nonlinear_arith)
            requires
                e <= 0xffff_ffff,
        ;
        if self.sum >= other.sum {
            self.sum - other.sum <= e * w
        } else {
            other.sum - self.sum <= e * w
        }
    }

    fn to_whole(
        &self,
        Ghost(ms): Ghost<Seq<MemberV>>,
        Ghost(bs): Ghost<Seq<BallotV>>,
        Ghost(side): Ghost<Side>,
    ) -> (r: u64)
        requires
            is_score(*self, ms, bs, side),
        ensures
            r == rounded_score(ms, bs, side),
    {
        let w: u128 = self.weight;
        let s: u128 = self.sum;
        let q: u128 = s / w;
        let rest: u128 = s % w;
        assert(q <= 0xffff_ffff) by (nonlinear_arith)
            requires
                q == s / w,
                s <= 0xffff_ffff * w,
                w >= 1,
        ;
        assert(ms.len() == 0 ==> q == 0 && rest == 0);
        if 2 * rest > w || (2 * rest == w && q % 2 == 1) {
            (q + 1) as u64
        } else {
            q as u64
        }
    }
}

// ---------------------------------------------------------------------------
// The verdict
// ---------------------------------------------------------------------------

/// A revision plan: whether it hands the matter to the author, and what it adds
/// to the arguments of a revision.
pub struct RevisePlan {
    pub escalate: bool,
    pub rationale: String,
    pub summary_line: String,
    pub arg_updates: Vec<(String, Json)>,
}

/// A revision plan by contents.
pub struct PlanV {
    pub escalate: bool,
    pub rationale: Seq<char>,
    pub summary_line: Seq<char>,
    pub arg_updates: Seq<(Seq<char>, JsonV)>,
}

impl View for RevisePlan {
    type V = PlanV;

    open spec fn view(&self) -> PlanV {
        PlanV {
            escalate: self.escalate,
            rationale: self.rationale@,
            summary_line: self.summary_line@,
            arg_updates: json::entries(self.arg_updates@),
        }
    }
}

/// An optional plan by contents.
pub open spec fn opt_plan(o: Option<&RevisePlan>) -> Option<PlanV> {
    match o {
        Some(p) => Some(p@),
        None => None,
    }
}

/// The arguments with every update of the plan, in order.
pub open spec fn updated(args: JsonV, ups: Seq<(Seq<char>, JsonV)>) -> JsonV
    decreases ups.len(),
{
    if ups.len() == 0 {
        args
    } else {
        updated(args, ups.drop_last()).put(ups.last().0, ups.last().1)
    }
}

/// The matter goes to the author.
pub open spec fn escalated(bs: Seq<BallotV>, retry_count: u32, rationale: Seq<char>) -> VerdictV {
    VerdictV {
        action: CouncilAction::EscalateHuman,
        tool: Seq::empty(),
        args: JsonV::empty_object(),
        ballots: bs,
        rationale,
        retry_count,
    }
}

/// The issues that an automatic revision takes up: the blocking ones, or all
/// where none of those has an id.
pub open spec fn taken_up(s: Seq<IssueV>) -> Seq<Seq<char>> {
    let p0 = issues::ids_of(issues::p0_only(s));
    if p0.len() == 0 {
        issues::ids_of(s)
    } else {
        p0
    }
}

/// What the council says of an automatic revision.
pub open spec fn revise_note(score: nat) -> Seq<char> {
    "评审团共识自动修订（加权分 "@ + text::dec(score) + "）"@
}

/// The council revises, unless the plan hands the matter to the author.
pub open spec fn revised(
    bs: Seq<BallotV>,
    s: Seq<IssueV>,
    project: Seq<char>,
    chapter: u32,
    retry_count: u32,
    score: nat,
    plan: Option<PlanV>,
) -> VerdictV {
    let args = audit_decisions::revise_args(project, chapter, taken_up(s));
    match plan {
        None => VerdictV {
            action: CouncilAction::AutoRevise,
            tool: "steer_run"@,
            args,
            ballots: bs,
            rationale: revise_note(score),
            retry_count,
        },
        Some(p) => if p.escalate {
            escalated(bs, retry_count, "RevisePlan 升人机："@ + p.rationale)
        } else {
            VerdictV {
                action: CouncilAction::AutoRevise,
                tool: "steer_run"@,
                args: updated(args, p.arg_updates),
                ballots: bs,
                rationale: revise_note(score) + "· "@ + p.summary_line,
                retry_count,
            }
        },
    }
}

/// A ballot of the role blocks and calls for a revision or for the author.
pub open spec fn blocks_as(bs: Seq<BallotV>, role: Seq<char>) -> bool {
    exists|j: int| 0 <= j < bs.len() && is_block(#[trigger] bs[j], role)
}

/// The ballot is the role's, blocks, and calls for a revision or for the author.
pub open spec fn is_block(b: BallotV, role: Seq<char>) -> bool {
    b.agent == role && (b.vote == CouncilVote::Revise || b.vote == CouncilVote::Escalate)
        && b.severity == CouncilSeverity::Block
}

/// A member with a veto uses it.
pub open spec fn vetoed(ms: Seq<MemberV>, bs: Seq<BallotV>) -> bool {
    exists|i: int| 0 <= i < ms.len() && (#[trigger] ms[i]).veto && blocks_as(bs, ms[i].role)
}

/// The streak limit, at least one.
pub open spec fn streak_limit(k: KindV) -> u32 {
    if k.same_type_streak_limit < 1 {
        1
    } else {
        k.same_type_streak_limit
    }
}

/// The council's verdict on a failed audit.
pub open spec fn verdict(
    k: KindV,
    bs: Seq<BallotV>,
    s: Seq<IssueV>,
    project: Seq<char>,
    chapter: u32,
    retry_count: u32,
    streak: u32,
    plan: Option<PlanV>,
) -> VerdictV {
    let p0 = issues::some_p0(s);
    let ms = k.members;
    let revise = revised(
        bs,
        s,
        project,
        chapter,
        retry_count,
        rounded_score(ms, bs, Side::Revise),
        plan,
    );
    if retry_count >= k.max_auto_retries {
        escalated(
            bs,
            retry_count,
            "自动修订已达上限 "@ + text::dec(k.max_auto_retries as nat),
        )
    } else if p0 && streak >= streak_limit(k) {
        escalated(
            bs,
            retry_count,
            "同类 P0 连续未消除（streak="@ + text::dec(streak as nat) + "≥"@ + text::dec(
                streak_limit(k) as nat,
            ) + "），停止自动修订"@,
        )
    } else if p0 && !k.allow_auto_accept_p0 {
        if !vetoed(ms, bs) && !reaches(ms, bs, Side::Revise, k.min_score) {
            escalated(bs, retry_count, "存在真 P0 且修订共识不足"@)
        } else if close(ms, bs, Side::Revise, Side::Escalate, k.deadlock_epsilon) && reaches(
            ms,
            bs,
            Side::Escalate,
            k.min_score,
        ) {
            escalated(
                bs,
                retry_count,
                "修订与升级分差过近（ε="@ + text::dec(k.deadlock_epsilon as nat) + "）"@,
            )
        } else {
            revise
        }
    } else if close(ms, bs, Side::Approve, Side::Revise, k.deadlock_epsilon) && reaches(
        ms,
        bs,
        Side::Approve,
        k.min_score,
    ) && reaches(ms, bs, Side::Revise, k.min_score) {
        escalated(bs, retry_count, "通过与修订近分死锁"@)
    } else if reaches(ms, bs, Side::Revise, k.min_score) && weighted_sum(ms, bs, Side::Revise)
        > weighted_sum(ms, bs, Side::Approve) {
        revise
    } else {
        escalated(bs, retry_count, "未形成可自动执行的共识"@)
    }
}

fn escalate(ballots: Vec<JuryBallot>, retry_count: u32, rationale: String) -> (r: CouncilVerdict)
    ensures
        r@ == escalated(ballot_list(ballots@), retry_count, rationale@),
{
    CouncilVerdict {
        action: CouncilAction::EscalateHuman,
        tool: String::new(),
        args: Json::object(),
        ballots,
        rationale,
        retry_count,
    }
}

fn apply_updates(args: Json, ups: &Vec<(String, Json)>) -> (r: Json)
    ensures
        r@ == updated(args@, json::entries(ups@)),
{
    let ghost all = json::entries(ups@);
    let ghost start = args@;
    let mut out = args;
    let mut i: usize = 0;
    assert(all.take(0) =~= Seq::<(Seq<char>, JsonV)>::empty());
    while i < ups.len()
        invariant
            i <= ups.len(),
            all == json::entries(ups@),
            out@ == updated(start, all.take(i as int)),
        decreases ups.len() - i,
    {
        proof {
            assert(all.take(i + 1).drop_last() =~= all.take(i as int));
            assert(all.take(i + 1).last() == (ups@[i as int].0@, ups@[i as int].1@));
        }
        out = out.with(ups[i].0.as_str(), ups[i].1.copy());
        i = i + 1;
    }
    assert(all.take(i as int) =~= all);
    out
}

fn auto_revise(
    ballots: Vec<JuryBallot>,
    list: &Vec<AuditIssue>,
    project: &str,
    chapter: u32,
    retry_count: u32,
    score: u64,
    plan: Option<&RevisePlan>,
) -> (r: CouncilVerdict)
    ensures
        r@ == revised(
            ballot_list(ballots@),
            issues::issue_list(list@),
            project@,
            chapter,
            retry_count,
            score as nat,
            opt_plan(plan),
        ),
{
    let p0_ids = issues::issue_ids(&issues::p0_issues(list));
    let ids = if p0_ids.len() == 0 {
        issues::issue_ids(list)
    } else {
        p0_ids
    };
    let args = Json::object().with_str("project", project).with_u32("chapter", chapter).with_str(
        "choice",
        "revise",
    ).with("issue_ids", issues::texts_value(&ids));
    let mut rationale = "评审团共识自动修订（加权分 ".to_owned();
    rationale.push_str(text::number(score).as_str());
    rationale.push_str("）");
    match plan {
        None => CouncilVerdict {
            action: CouncilAction::AutoRevise,
            tool: "steer_run".to_owned(),
            args,
            ballots,
            rationale,
            retry_count,
        },
        Some(p) => {
            if p.escalate {
                let mut why = "RevisePlan 升人机：".to_owned();
                why.push_str(p.rationale.as_str());
                return escalate(ballots, retry_count, why);
            }
            rationale.push_str("· ");
            rationale.push_str(p.summary_line.as_str());
            CouncilVerdict {
                action: CouncilAction::AutoRevise,
                tool: "steer_run".to_owned(),
                args: apply_updates(args, &p.arg_updates),
                ballots,
                rationale,
                retry_count,
            }
        },
    }
}

fn role_blocks(bs: &Vec<JuryBallot>, role: &str) -> (r: bool)
    ensures
        r == blocks_as(ballot_list(bs@), role@),
{
    let ghost all = ballot_list(bs@);
    let mut i: usize = 0;
    while i < bs.len()
        invariant
            i <= bs.len(),
            all == ballot_list(bs@),
            forall|j: int| 0 <= j < i ==> !is_block(#[trigger] all[j], role@),
        decreases bs.len() - i,
    {
        let b = &bs[i];
        assert(all[i as int] == b@);
        if text::same(b.agent.as_str(), role) && (b.vote == CouncilVote::Revise || b.vote
            == CouncilVote::Escalate) && b.severity == CouncilSeverity::Block {
            assert(is_block(all[i as int], role@));
            return true;
        }
        i = i + 1;
    }
    false
}

fn veto_used(members: &Vec<MemberConfig>, bs: &Vec<JuryBallot>) -> (r: bool)
    ensures
        r == vetoed(member_list(members@), ballot_list(bs@)),
{
    let ghost ms = member_list(members@);
    let mut i: usize = 0;
    while i < members.len()
        invariant
            i <= members.len(),
            ms == member_list(members@),
            forall|j: int|
                0 <= j < i ==> !((#[trigger] ms[j]).veto && blocks_as(
                    ballot_list(bs@),
                    ms[j].role,
                )),
        decreases members.len() - i,
    {
        let m = &members[i];
        assert(ms[i as int] == m@);
        if m.veto && role_blocks(bs, m.role.as_str()) {
            assert(ms[i as int].veto);
            return true;
        }
        i = i + 1;
    }
    false
}

/// Counts the ballots on a failed audit. Blocking issues are never accepted
/// unless the configuration allows it; without agreement the author decides.
pub fn aggregate_audit(
    cfg: &KindConfig,
    ballots: Vec<JuryBallot>,
    list: &Vec<AuditIssue>,
    project: &str,
    chapter: u32,
    retry_count: u32,
    same_type_streak: u32,
    plan: Option<&RevisePlan>,
) -> (r: CouncilVerdict)
    ensures
        r@ == verdict(
            cfg@,
            ballot_list(ballots@),
            issues::issue_list(list@),
            project@,
            chapter,
            retry_count,
            same_type_streak,
            opt_plan(plan),
        ),
{
    let ghost ms = member_list(cfg.members@);
    let ghost bs = ballot_list(ballots@);
    let p0 = has_true_p0(list);
    if retry_count >= cfg.max_auto_retries {
        let mut why = "自动修订已达上限 ".to_owned();
        why.push_str(text::number(cfg.max_auto_retries as u64).as_str());
        return escalate(ballots, retry_count, why);
    }
    let limit: u32 = if cfg.same_type_streak_limit < 1 {
        1
    } else {
        cfg.same_type_streak_limit
    };
    if p0 && same_type_streak >= limit {
        let mut why = "同类 P0 连续未消除（streak=".to_owned();
        why.push_str(text::number(same_type_streak as u64).as_str());
        why.push_str("≥");
        why.push_str(text::number(limit as u64).as_str());
        why.push_str("），停止自动修订");
        return escalate(ballots, retry_count, why);
    }
    let revise = weighted_score(&cfg.members, &ballots, Side::Revise);
    let whole = revise.to_whole(Ghost(ms), Ghost(bs), Ghost(Side::Revise));
    if p0 && !cfg.allow_auto_accept_p0 {
        let veto = veto_used(&cfg.members, &ballots);
        let up = weighted_score(&cfg.members, &ballots, Side::Escalate);
        if veto || revise.at_least(cfg.min_score, Ghost(ms), Ghost(bs), Ghost(Side::Revise)) {
            if revise.is_close(
                &up,
                cfg.deadlock_epsilon,
                Ghost(ms),
                Ghost(bs),
                Ghost(Side::Revise),
                Ghost(Side::Escalate),
            ) && up.at_least(cfg.min_score, Ghost(ms), Ghost(bs), Ghost(Side::Escalate)) {
                let mut why = "修订与升级分差过近（ε=".to_owned();
                why.push_str(text::number(cfg.deadlock_epsilon as u64).as_str());
                why.push_str("）");
                return escalate(ballots, retry_count, why);
            }
            return auto_revise(ballots, list, project, chapter, retry_count, whole, plan);
        }
        return escalate(ballots, retry_count, "存在真 P0 且修订共识不足".to_owned());
    }
    let approve = weighted_score(&cfg.members, &ballots, Side::Approve);
    let revise_ok = revise.at_least(cfg.min_score, Ghost(ms), Ghost(bs), Ghost(Side::Revise));
    if approve.is_close(
        &revise,
        cfg.deadlock_epsilon,
        Ghost(ms),
        Ghost(bs),
        Ghost(Side::Approve),
        Ghost(Side::Revise),
    ) && approve.at_least(cfg.min_score, Ghost(ms), Ghost(bs), Ghost(Side::Approve)) && revise_ok {
        return escalate(ballots, retry_count, "通过与修订近分死锁".to_owned());
    }
    if revise_ok && revise.sum > approve.sum {
        return auto_revise(ballots, list, project, chapter, retry_count, whole, plan);
    }
    escalate(ballots, retry_count, "未形成可自动执行的共识".to_owned())
}

/// The ballots that are cast on an audit: the consistency auditor's, and where
/// nothing blocks those of the advisors who are members.
pub open spec fn cast_ballots(k: KindV, data: JsonV, s: Seq<IssueV>) -> Seq<BallotV> {
    let chair = seq![consistency_ballot(data, s)];
    if issues::some_p0(s) {
        chair
    } else {
        let paced = if has_role(k.members, "pacing_reviewer"@) {
            chair.push(pacing_ballot(data))
        } else {
            chair
        };
        if has_role(k.members, "plot_acceptor"@) {
            paced.push(plot_ballot(data))
        } else {
            paced
        }
    }
}

/// Some member has the role.
pub open spec fn has_role(ms: Seq<MemberV>, role: Seq<char>) -> bool {
    exists|i: int| 0 <= i < ms.len() && (#[trigger] ms[i]).role == role
}

fn member_with_role(members: &Vec<MemberConfig>, role: &str) -> (r: bool)
    ensures
        r == has_role(member_list(members@), role@),
{
    let ghost ms = member_list(members@);
    let mut i: usize = 0;
    while i < members.len()
        invariant
            i <= members.len(),
            ms == member_list(members@),
            forall|j: int| 0 <= j < i ==> (#[trigger] ms[j]).role != role@,
        decreases members.len() - i,
    {
        assert(ms[i as int] == members@[i as int]@);
        if text::same(members[i].role.as_str(), role) {
            return true;
        }
        i = i + 1;
    }
    false
}

/// Casts and counts the ballots on an audit.
pub fn evaluate_audit_content(
    cfg: &DecisionCouncilConfig,
    project: &str,
    chapter: u32,
    data: &Json,
    list: &Vec<AuditIssue>,
    retry_count: u32,
    same_type_streak: u32,
    plan: Option<&RevisePlan>,
) -> (r: CouncilVerdict)
    ensures
        r@ == ({
            let k = match kind_from(cfg.configured(), "audit_content"@, 0) {
                Some(k) => k,
                None => default_kind(),
            };
            let s = issues::issue_list(list@);
            if !k.enabled {
                escalated(Seq::empty(), retry_count, "audit_content 未启用"@)
            } else {
                verdict(
                    k,
                    cast_ballots(k, data@, s),
                    s,
                    project@,
                    chapter,
                    retry_count,
                    same_type_streak,
                    opt_plan(plan),
                )
            }
        }),
{
    let kind = cfg.audit_kind();
    let mut ballots: Vec<JuryBallot> = Vec::new();
    assert(ballot_list(ballots@) =~= Seq::<BallotV>::empty());
    if !kind.enabled {
        return escalate(ballots, retry_count, "audit_content 未启用".to_owned());
    }
    let chair = ballot_from_consistency(data, list);
    let ghost one = seq![chair@];
    ballots.push(chair);
    assert(ballot_list(ballots@) =~= one);
    if !has_true_p0(list) {
        if member_with_role(&kind.members, "pacing_reviewer") {
            let ghost before = ballot_list(ballots@);
            let b = ballot_from_pacing(data);
            ballots.push(b);
            assert(ballot_list(ballots@) =~= before.push(b@));
        }
        if member_with_role(&kind.members, "plot_acceptor") {
            let ghost before = ballot_list(ballots@);
            let b = ballot_from_plot_acceptor(data);
            ballots.push(b);
            assert(ballot_list(ballots@) =~= before.push(b@));
        }
    }
    aggregate_audit(
        &kind,
        ballots,
        list,
        project,
        chapter,
        retry_count,
        same_type_streak,
        plan,
    )
}

// ---------------------------------------------------------------------------
// The journal
// ---------------------------------------------------------------------------

/// The journal's word for a vote.
pub open spec fn vote_word(v: CouncilVote) -> Seq<char> {
    match v {
        CouncilVote::Revise => "revise"@,
        CouncilVote::Approve => "approve"@,
        CouncilVote::Escalate => "escalate"@,
        CouncilVote::Abstain => "abstain"@,
    }
}

/// The journal's word for a severity.
pub open spec fn severity_word(v: CouncilSeverity) -> Seq<char> {
    match v {
        CouncilSeverity::Block => "block"@,
        CouncilSeverity::Warn => "warn"@,
        CouncilSeverity::Info => "info"@,
    }
}

/// The journal's word for an action.
pub open spec fn action_word(v: CouncilAction) -> Seq<char> {
    match v {
        CouncilAction::AutoRevise => "auto_revise"@,
        CouncilAction::AutoContinue => "auto_continue"@,
        CouncilAction::EscalateHuman => "escalate_human"@,
        CouncilAction::FetchMaterial => "fetch_material"@,
    }
}

/// A ballot as the journal keeps it.
pub open spec fn ballot_record(b: BallotV) -> JsonV {
    JsonV::empty_object().put("agent"@, JsonV::Text(b.agent)).put(
        "vote"@,
        JsonV::Text(vote_word(b.vote)),
    ).put("severity"@, JsonV::Text(severity_word(b.severity))).put(
        "score"@,
        JsonV::Uint(b.score as u64),
    ).put("preferred_action"@, JsonV::Text(b.preferred_action)).put(
        "reasons"@,
        issues::text_list(b.reasons),
    ).put("issue_refs"@, issues::text_list(b.issue_refs))
}

/// The ballots as the journal keeps them.
pub open spec fn ballot_records(bs: Seq<BallotV>) -> JsonV {
    JsonV::List(Seq::new(bs.len(), |i: int| ballot_record(bs[i])))
}

/// A value, or null where there is none.
pub open spec fn or_null(o: Option<JsonV>) -> JsonV {
    match o {
        Some(v) => v,
        None => JsonV::Null,
    }
}

/// A verdict as the journal keeps it.
pub open spec fn verdict_record(v: VerdictV) -> JsonV {
    JsonV::empty_object().put("council_kind"@, JsonV::Text("decision_council"@)).put(
        "action"@,
        JsonV::Text(action_word(v.action)),
    ).put("rationale"@, JsonV::Text(v.rationale)).put(
        "retry_count"@,
        JsonV::Uint(v.retry_count as u64),
    ).put("tool"@, JsonV::Text(v.tool)).put("ballots"@, ballot_records(v.ballots)).put(
        "revise_plan"@,
        or_null(v.args.get("revise_plan"@)),
    ).put("revise_scope"@, or_null(v.args.get("revise_scope"@)))
}

impl JuryBallot {
    fn record(&self) -> (r: Json)
        ensures
            r@ == ballot_record(self@),
    {
        let vote = match self.vote {
            CouncilVote::Revise => "revise",
            CouncilVote::Approve => "approve",
            CouncilVote::Escalate => "escalate",
            CouncilVote::Abstain => "abstain",
        };
        let severity = match self.severity {
            CouncilSeverity::Block => "block",
            CouncilSeverity::Warn => "warn",
            CouncilSeverity::Info => "info",
        };
        Json::object().with_str("agent", self.agent.as_str()).with_str("vote", vote).with_str(
            "severity",
            severity,
        ).with_u32("score", self.score).with_str(
            "preferred_action",
            self.preferred_action.as_str(),
        ).with("reasons", issues::texts_value(&self.reasons)).with(
            "issue_refs",
            issues::texts_value(&self.issue_refs),
        )
    }
}

fn copy_or_null(o: Option<&Json>) -> (r: Json)
    ensures
        r@ == or_null(json::opt_json(o)),
{
    match o {
        Some(j) => j.copy(),
        None => Json::Null,
    }
}

/// A verdict as the journal keeps it.
pub fn verdict_journal_data(v: &CouncilVerdict) -> (r: Json)
    ensures
        r@ == verdict_record(v@),
{
    let action = match v.action {
        CouncilAction::AutoRevise => "auto_revise",
        CouncilAction::AutoContinue => "auto_continue",
        CouncilAction::EscalateHuman => "escalate_human",
        CouncilAction::FetchMaterial => "fetch_material",
    };
    let mut list: Vec<Json> = Vec::new();
    let mut i: usize = 0;
    while i < v.ballots.len()
        invariant
            i <= v.ballots.len(),
            list.len() == i,
            forall|j: int|
                0 <= j < i ==> (#[trigger] list@[j])@ == ballot_record(v.ballots@[j]@),
        decreases v.ballots.len() - i,
    {
        list.push(v.ballots[i].record());
        i = i + 1;
    }
    proof {
        json::list_view(list);
        assert(json::items(list@) =~= ballot_records(ballot_list(v.ballots@))->List_0);
    }
    Json::object().with_str("council_kind", "decision_council").with_str("action", action).with_str(
        "rationale",
        v.rationale.as_str(),
    ).with_u32("retry_count", v.retry_count).with_str("tool", v.tool.as_str()).with(
        "ballots",
        Json::List(list),
    ).with("revise_plan", copy_or_null(v.args.get("revise_plan"))).with(
        "revise_scope",
        copy_or_null(v.args.get("revise_scope")),
    )
}

// ---------------------------------------------------------------------------
// Laws
// ---------------------------------------------------------------------------

/// The council revises or hands over; it never lets the chapter pass by itself.
/// It keeps the ballots and the retry count, and runs a tool only to revise.
pub proof fn verdict_never_continues(
    k: KindV,
    bs: Seq<BallotV>,
    s: Seq<IssueV>,
    project: Seq<char>,
    chapter: u32,
    retry_count: u32,
    streak: u32,
    plan: Option<PlanV>,
)
    ensures
        ({
            let v = verdict(k, bs, s, project, chapter, retry_count, streak, plan);
            &&& v.action == CouncilAction::AutoRevise || v.action == CouncilAction::EscalateHuman
            &&& v.action == CouncilAction::AutoRevise ==> v.tool == "steer_run"@
            &&& v.action == CouncilAction::EscalateHuman ==> v.tool.len() == 0
            &&& v.ballots == bs
            &&& v.retry_count == retry_count
        }),
{
}

/// After the last automatic retry the author decides, whatever the ballots say.
pub proof fn retries_run_out(
    k: KindV,
    bs: Seq<BallotV>,
    s: Seq<IssueV>,
    project: Seq<char>,
    chapter: u32,
    retry_count: u32,
    streak: u32,
    plan: Option<PlanV>,
)
    requires
        retry_count >= k.max_auto_retries,
    ensures
        verdict(k, bs, s, project, chapter, retry_count, streak, plan).action
            == CouncilAction::EscalateHuman,
{
}

/// Blocking issues of the same kinds, look after look, go to the author.
pub proof fn streak_goes_to_author(
    k: KindV,
    bs: Seq<BallotV>,
    s: Seq<IssueV>,
    project: Seq<char>,
    chapter: u32,
    retry_count: u32,
    streak: u32,
    plan: Option<PlanV>,
)
    requires
        issues::some_p0(s),
        streak >= streak_limit(k),
    ensures
        verdict(k, bs, s, project, chapter, retry_count, streak, plan).action
            == CouncilAction::EscalateHuman,
{
}

/// An automatic revision revises: whatever else a plan sets, where it leaves the
/// choice alone the choice is to revise, never to accept.
pub proof fn automatic_choice_is_revise(
    k: KindV,
    bs: Seq<BallotV>,
    s: Seq<IssueV>,
    project: Seq<char>,
    chapter: u32,
    retry_count: u32,
    streak: u32,
    plan: Option<PlanV>,
)
    requires
        plan matches Some(p) ==> forall|i: int|
            0 <= i < p.arg_updates.len() ==> (#[trigger] p.arg_updates[i]).0 != "choice"@,
    ensures
        ({
            let v = verdict(k, bs, s, project, chapter, retry_count, streak, plan);
            v.action == CouncilAction::AutoRevise ==> v.args.text("choice"@) == Some("revise"@)
        }),
{
    let base = audit_decisions::steer_args(project, chapter, "revise"@);
    let args = audit_decisions::revise_args(project, chapter, taken_up(s));
    let inner = JsonV::empty_object().put("project"@, JsonV::Text(project)).put(
        "chapter"@,
        JsonV::Uint(chapter as u64),
    );
    assert(inner is Object);
    json::get_after_put(inner, "choice"@, JsonV::Text("revise"@));
    reveal_strlit("choice");
    reveal_strlit("issue_ids");
    assert("choice"@.len() != "issue_ids"@.len());
    json::get_other_after_put(base, "issue_ids"@, issues::text_list(taken_up(s)), "choice"@);
    match plan {
        Some(p) => {
            updates_keep(args, p.arg_updates, "choice"@);
        },
        None => {},
    }
}

proof fn updates_keep(args: JsonV, ups: Seq<(Seq<char>, JsonV)>, key: Seq<char>)
    requires
        forall|i: int| 0 <= i < ups.len() ==> (#[trigger] ups[i]).0 != key,
    ensures
        updated(args, ups).get(key) == args.get(key),
    decreases ups.len(),
{
    if ups.len() > 0 {
        assert forall|i: int| 0 <= i < ups.drop_last().len() implies (
        #[trigger] ups.drop_last()[i]).0 != key by {
            assert(ups.drop_last()[i] == ups[i]);
        }
        updates_keep(args, ups.drop_last(), key);
        assert(ups.last() == ups[ups.len() - 1]);
        json::get_other_after_put(
            updated(args, ups.drop_last()),
            ups.last().0,
            ups.last().1,
            key,
        );
    }
}

/// Where something blocks, the consistency auditor alone is heard.
pub proof fn blocking_hears_chair_only(k: KindV, data: JsonV, s: Seq<IssueV>)
    requires
        issues::some_p0(s),
    ensures
        cast_ballots(k, data, s) == seq![consistency_ballot(data, s)],
{
}

/// Two looks that share a blocking kind make a streak of at least two.
pub proof fn overlap_makes_streak(
    prev_types: Seq<Seq<char>>,
    current_types: Seq<Seq<char>>,
    prev_streak: u32,
)
    requires
        overlap(current_types, prev_types),
    ensures
        next_streak(prev_types, current_types, prev_streak) >= 2,
        next_streak(prev_types, current_types, prev_streak) >= prev_streak,
{
    let i = choose|i: int|
        0 <= i < current_types.len() && prev_types.contains(#[trigger] current_types[i]);
    assert(prev_types.len() > 0);
}

} // verus!
