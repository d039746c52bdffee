//! Requests that are recognised without asking the model: which words call for
//! which tool, and which chapter or volume a request names.

use vstd::prelude::*;

use crate::json::{Json, JsonV};
use crate::text;

verus! {

/// When a recognised request wipes the chat.
#[derive(Clone, Copy, Debug, PartialEq, Eq, Structural)]
pub enum ClearHistory {
    Never,
    OnStart,
    OnSuccess,
}

impl Default for ClearHistory {
    fn default() -> (r: ClearHistory)
        ensures
            r == ClearHistory::Never,
    {
        ClearHistory::Never
    }
}

/// What a recognised request takes from its text.
#[derive(Clone, Copy, Debug, PartialEq, Eq, Structural)]
pub enum ExtractMode {
    Nothing,
    Chapter,
    ChapterOptional,
    ChapterRange,
    /// A volume, where one is named.
    VolumeOptional,
}

impl Default for ExtractMode {
    fn default() -> (r: ExtractMode)
        ensures
            r == ExtractMode::Nothing,
    {
        ExtractMode::Nothing
    }
}

/// A kind of request.
pub struct IntentSpec {
    pub id: String,
    pub tool: String,
    pub priority: i32,
    pub require_project: bool,
    pub extract: ExtractMode,
    pub clear_history: ClearHistory,
    pub any_keywords: Vec<String>,
    pub none_keywords: Vec<String>,
    /// One of the groups must be present with all its words.
    pub all_keyword_groups: Vec<Vec<String>>,
    pub default_instructions: Option<String>,
    pub instructions_min_chars: Option<usize>,
}

/// A kind of request, by contents.
pub struct IntentV {
    pub id: Seq<char>,
    pub tool: Seq<char>,
    pub priority: i32,
    pub require_project: bool,
    pub extract: ExtractMode,
    pub clear_history: ClearHistory,
    pub any_keywords: Seq<Seq<char>>,
    pub none_keywords: Seq<Seq<char>>,
    pub all_keyword_groups: Seq<Seq<Seq<char>>>,
    pub default_instructions: Option<Seq<char>>,
    pub instructions_min_chars: Option<usize>,
}

/// The words of each group.
pub open spec fn group_texts(v: Seq<Vec<String>>) -> Seq<Seq<Seq<char>>> {
    Seq::new(v.len(), |i: int| text::texts(v[i]@))
}

impl View for IntentSpec {
    type V = IntentV;

    open spec fn view(&self) -> IntentV {
        IntentV {
            id: self.id@,
            tool: self.tool@,
            priority: self.priority,
            require_project: self.require_project,
            extract: self.extract,
            clear_history: self.clear_history,
            any_keywords: text::texts(self.any_keywords@),
            none_keywords: text::texts(self.none_keywords@),
            all_keyword_groups: group_texts(self.all_keyword_groups@),
            default_instructions: text::opt_text(self.default_instructions),
            instructions_min_chars: self.instructions_min_chars,
        }
    }
}

/// A recognised request: the tool to run and its arguments.
pub struct IntentMatch {
    pub id: String,
    pub tool: String,
    pub args: Json,
    pub clear_history: ClearHistory,
}

/// A recognised request, by contents.
pub struct IntentMatchV {
    pub id: Seq<char>,
    pub tool: Seq<char>,
    pub args: JsonV,
    pub clear_history: ClearHistory,
}

impl View for IntentMatch {
    type V = IntentMatchV;

    open spec fn view(&self) -> IntentMatchV {
        IntentMatchV {
            id: self.id@,
            tool: self.tool@,
            args: self.args@,
            clear_history: self.clear_history,
        }
    }
}

/// An optional recognised request, by contents.
pub open spec fn opt_match(o: Option<IntentMatch>) -> Option<IntentMatchV> {
    match o {
        Some(m) => Some(m@),
        None => None,
    }
}

// ---------------------------------------------------------------------------
// Chapter and volume numbers
// ---------------------------------------------------------------------------

/// The numerals from one to twenty.
pub open spec fn cn_numerals() -> Seq<Seq<char>> {
    seq![
        "一"@,
        "二"@,
        "三"@,
        "四"@,
        "五"@,
        "六"@,
        "七"@,
        "八"@,
        "九"@,
        "十"@,
        "十一"@,
        "十二"@,
        "十三"@,
        "十四"@,
        "十五"@,
        "十六"@,
        "十七"@,
        "十八"@,
        "十九"@,
        "二十"@,
    ]
}

/// The text names number `n`, in digits, as `第n` with the unit behind it or
/// behind the word.
pub open spec fn names_number(s: Seq<char>, unit: Seq<char>, word: Seq<char>, n: nat) -> bool {
    text::occurs(s, "第"@ + text::dec(n) + unit) || text::occurs(s, word + text::dec(n))
}

/// The largest number up to `n` that the text names in digits.
pub open spec fn largest_named(s: Seq<char>, unit: Seq<char>, word: Seq<char>, n: nat) -> Option<u32>
    decreases n,
{
    if n == 0 {
        None
    } else if names_number(s, unit, word, n) {
        Some(n as u32)
    } else {
        largest_named(s, unit, word, (n - 1) as nat)
    }
}

/// The smallest number from `n` up to twenty that the text names in numerals.
pub open spec fn numeral_named(s: Seq<char>, unit: Seq<char>, n: nat) -> Option<u32>
    decreases 21 - n,
{
    if n < 1 || n > 20 {
        None
    } else if text::occurs(s, "第"@ + cn_numerals()[n - 1] + unit) {
        Some(n as u32)
    } else {
        numeral_named(s, unit, n + 1)
    }
}

/// The number that the text names: the largest in digits up to 99, or else the
/// smallest in numerals up to twenty.
pub open spec fn named_number(s: Seq<char>, unit: Seq<char>, word: Seq<char>) -> Option<u32> {
    match largest_named(s, unit, word, 99) {
        Some(n) => Some(n),
        None => numeral_named(s, unit, 1),
    }
}

fn find_number(s: &str, unit: &str, word: &str) -> (r: Option<u32>)
    ensures
        r == named_number(s@, unit@, word@),
{
    let mut n: u32 = 99;
    while n > 0
        invariant
            n <= 99,
            largest_named(s@, unit@, word@, 99) == largest_named(s@, unit@, word@, n as nat),
        decreases n,
    {
        let digits = text::number(n as u64);
        let mut a = "第".to_owned();
        a.push_str(digits.as_str());
        a.push_str(unit);
        let mut b = word.to_owned();
        b.push_str(digits.as_str());
        if text::contains(s, a.as_str()) || text::contains(s, b.as_str()) {
            return Some(n);
        }
        n = n - 1;
    }
    let numerals: [&str; 20] = [
        "一",
        "二",
        "三",
        "四",
        "五",
        "六",
        "七",
        "八",
        "九",
        "十",
        "十一",
        "十二",
        "十三",
        "十四",
        "十五",
        "十六",
        "十七",
        "十八",
        "十九",
        "二十",
    ];
    assert(forall|j: int| 0 <= j < 20 ==> (#[trigger] numerals@[j])@ == cn_numerals()[j]);
    let mut k: usize = 1;
    while k <= 20
        invariant
            1 <= k <= 21,
            forall|j: int| 0 <= j < 20 ==> (#[trigger] numerals@[j])@ == cn_numerals()[j],
            largest_named(s@, unit@, word@, 99) is None,
            numeral_named(s@, unit@, 1) == numeral_named(s@, unit@, k as nat),
        decreases 21 - k,
    {
        let mut a = "第".to_owned();
        a.push_str(numerals[k - 1]);
        a.push_str(unit);
        if text::contains(s, a.as_str()) {
            return Some(k as u32);
        }
        k = k + 1;
    }
    None
}

/// The chapter that the text names.
pub fn parse_chapter_number(s: &str) -> (r: Option<u32>)
    ensures
        r == named_number(s@, "章"@, "chapter "@),
{
    find_number(s, "章", "chapter ")
}

/// The volume that the text names.
pub fn parse_volume_number(s: &str) -> (r: Option<u32>)
    ensures
        r == named_number(s@, "卷"@, "volume "@),
{
    find_number(s, "卷", "volume ")
}

// ---------------------------------------------------------------------------
// Chapter ranges
// ---------------------------------------------------------------------------

/// A character between the two ends of a range.
pub open spec fn is_range_dash(c: char) -> bool {
    c == '-' || c == '–' || c == '—' || c == '~' || c == '到' || c == '至'
}

/// A character that may stand between `章` and the second end of a range.
pub open spec fn is_range_joiner(c: char) -> bool {
    c == '到' || c == '至' || text::is_space(c)
}

/// The position after the joiners that begin at `i`.
pub open spec fn after_joiners(s: Seq<char>, i: int) -> int
    decreases s.len() - i,
{
    if 0 <= i < s.len() && is_range_joiner(s[i]) {
        after_joiners(s, i + 1)
    } else {
        i
    }
}

/// The position after an optional `第` at `i`.
pub open spec fn after_ordinal(s: Seq<char>, i: int) -> int {
    if 0 <= i < s.len() && s[i] == '第' {
        i + 1
    } else {
        i
    }
}

/// The range from `a` to the number at `k`, where one stands there that is not
/// smaller.
pub open spec fn closed_range(s: Seq<char>, a: nat, k: int) -> Option<(u32, u32)> {
    if 0 <= k < s.len() && text::is_digit(s[k]) && text::number_at(s, k) >= a {
        Some((a as u32, text::number_at(s, k) as u32))
    } else {
        None
    }
}

/// The range whose first number begins at `i`: `1-8`, `1到第8`, `1章到第8`.
pub open spec fn range_at(s: Seq<char>, i: int) -> Option<(u32, u32)> {
    let j = text::digits_end(s, i);
    let a = text::number_at(s, i);
    if !(0 <= i < s.len()) || !text::is_digit(s[i]) || a == 0 {
        None
    } else if j < s.len() && is_range_dash(s[j]) {
        closed_range(s, a, after_ordinal(s, j + 1))
    } else if j + 1 < s.len() && s[j] == '章' {
        closed_range(s, a, after_ordinal(s, after_joiners(s, j + 1)))
    } else {
        None
    }
}

/// The first range that begins at or after `i`.
pub open spec fn range_from(s: Seq<char>, i: int) -> Option<(u32, u32)>
    decreases s.len() - i,
{
    if i < 0 || i >= s.len() {
        None
    } else {
        match range_at(s, i) {
            Some(r) => Some(r),
            None => range_from(s, i + 1),
        }
    }
}

fn read_end(v: &Vec<char>, a: u32, at: usize) -> (r: Option<(u32, u32)>)
    requires
        at <= v.len(),
    ensures
        r == closed_range(v@, a as nat, after_ordinal(v@, at as int)),
{
    let mut k: usize = at;
    if k < v.len() && v[k] == '第' {
        k = k + 1;
    }
    if k < v.len() && text::char_is_digit(v[k]) {
        let (b, _) = text::read_number(v, k);
        if b >= a {
            return Some((a, b));
        }
    }
    None
}

/// The range of chapters that the text names: `1-8章`, `第1-8章`, `第1章到第8章`.
/// Its first chapter is at least one and not after its last.
pub fn parse_chapter_range(s: &str) -> (r: Option<(u32, u32)>)
    ensures
        r == range_from(s@, 0),
        r matches Some(p) ==> 1 <= p.0 <= p.1,
{
    let v = text::to_chars(s);
    let mut i: usize = 0;
    while i < v.len()
        invariant
            i <= v.len(),
            v@ == s@,
            range_from(s@, 0) == range_from(s@, i as int),
        decreases v.len() - i,
    {
        if text::char_is_digit(v[i]) {
            let (a, j) = text::read_number(&v, i);
            if a != 0 && j < v.len() {
                let sep: char = v[j];
                let dash = sep == '-' || sep == '–' || sep == '—' || sep == '~' || sep == '到'
                    || sep == '至';
                let mut found: Option<(u32, u32)> = None;
                if dash {
                    found = read_end(&v, a, j + 1);
                } else if sep == '章' && j + 1 < v.len() {
                    let mut k: usize = j + 1;
                    while k < v.len() && (v[k] == '到' || v[k] == '至' || text::char_is_space(v[k]))
                        invariant
                            j + 1 <= k <= v.len(),
                            v@ == s@,
                            after_joiners(s@, j + 1) == after_joiners(s@, k as int),
                        decreases v.len() - k,
                    {
                        k = k + 1;
                    }
                    found = read_end(&v, a, k);
                }
                if found.is_some() {
                    return found;
                }
            }
        }
        i = i + 1;
    }
    None
}

// ---------------------------------------------------------------------------
// Keywords
// ---------------------------------------------------------------------------

/// `str::to_lowercase`: the text in lower case by the Unicode rules.
pub uninterp spec fn lowercase_of(s: Seq<char>) -> Seq<char>;

/// `str::to_lowercase`. Its result depends on the text alone; of a text that is
/// all ASCII it is the text with its letters in lower case.
#[verifier::external_body]
pub(crate) fn lowercase(s: &str) -> (r: String)
    ensures
        r@ == lowercase_of(s@),
        vstd::utf8::is_ascii_chars(s@) ==> r@ == text::ascii_lowered(s@),
{
    s.to_lowercase()
}

/// The text `t`, with the lower-case form `low`, contains the keyword. A
/// keyword that is all ASCII is found in either case.
pub open spec fn has_keyword(t: Seq<char>, low: Seq<char>, key: Seq<char>) -> bool {
    if vstd::utf8::is_ascii_chars(key) {
        text::occurs(low, text::ascii_lowered(key))
    } else {
        text::occurs(t, key)
    }
}

/// The text contains one of the keywords.
pub open spec fn has_some(t: Seq<char>, low: Seq<char>, keys: Seq<Seq<char>>) -> bool {
    exists|i: int| 0 <= i < keys.len() && has_keyword(t, low, #[trigger] keys[i])
}

/// The text contains all of the keywords, and there are some.
pub open spec fn has_group(t: Seq<char>, low: Seq<char>, keys: Seq<Seq<char>>) -> bool {
    keys.len() > 0 && forall|i: int|
        0 <= i < keys.len() ==> has_keyword(t, low, #[trigger] keys[i])
}

/// The text contains one of the groups.
pub open spec fn has_some_group(t: Seq<char>, low: Seq<char>, groups: Seq<Seq<Seq<char>>>) -> bool {
    exists|i: int| 0 <= i < groups.len() && has_group(t, low, #[trigger] groups[i])
}

/// The text calls for the request by its keywords: none of the excluded ones,
/// and one of the wanted ones or a whole group, as far as there are any.
pub open spec fn keywords_hit(spec: IntentV, t: Seq<char>, low: Seq<char>) -> bool {
    let any = has_some(t, low, spec.any_keywords);
    let group = has_some_group(t, low, spec.all_keyword_groups);
    !has_some(t, low, spec.none_keywords) && if spec.any_keywords.len() > 0
        && spec.all_keyword_groups.len() > 0 {
        any || group
    } else {
        (spec.any_keywords.len() == 0 || any) && (spec.all_keyword_groups.len() == 0 || group)
    }
}

/// Whether the text contains the keyword.
pub fn contains_ci(t: &str, t_lower: &str, key: &str) -> (r: bool)
    ensures
        r == has_keyword(t@, t_lower@, key@),
{
    if key.is_ascii() {
        let k = lowercase(key);
        text::contains(t_lower, k.as_str())
    } else {
        text::contains(t, key)
    }
}

fn contains_some(t: &str, t_lower: &str, keys: &Vec<String>) -> (r: bool)
    ensures
        r == has_some(t@, t_lower@, text::texts(keys@)),
{
    let mut i: usize = 0;
    while i < keys.len()
        invariant
            i <= keys.len(),
            forall|j: int|
                0 <= j < i ==> !has_keyword(t@, t_lower@, #[trigger] text::texts(keys@)[j]),
        decreases keys.len() - i,
    {
        if contains_ci(t, t_lower, keys[i].as_str()) {
            assert(has_keyword(t@, t_lower@, text::texts(keys@)[i as int]));
            return true;
        }
        i = i + 1;
    }
    false
}

fn contains_group(t: &str, t_lower: &str, keys: &Vec<String>) -> (r: bool)
    ensures
        r == has_group(t@, t_lower@, text::texts(keys@)),
{
    let mut i: usize = 0;
    while i < keys.len()
        invariant
            i <= keys.len(),
            forall|j: int|
                0 <= j < i ==> has_keyword(t@, t_lower@, #[trigger] text::texts(keys@)[j]),
        decreases keys.len() - i,
    {
        if !contains_ci(t, t_lower, keys[i].as_str()) {
            assert(!has_keyword(t@, t_lower@, text::texts(keys@)[i as int]));
            return false;
        }
        i = i + 1;
    }
    keys.len() > 0
}

fn contains_some_group(t: &str, t_lower: &str, groups: &Vec<Vec<String>>) -> (r: bool)
    ensures
        r == has_some_group(t@, t_lower@, group_texts(groups@)),
{
    let mut i: usize = 0;
    while i < groups.len()
        invariant
            i <= groups.len(),
            forall|j: int|
                0 <= j < i ==> !has_group(t@, t_lower@, #[trigger] group_texts(groups@)[j]),
        decreases groups.len() - i,
    {
        if contains_group(t, t_lower, &groups[i]) {
            assert(has_group(t@, t_lower@, group_texts(groups@)[i as int]));
            return true;
        }
        i = i + 1;
    }
    false
}

/// Whether the text, with its lower-case form, calls for the request.
pub fn keyword_hit(spec: &IntentSpec, t: &str, t_lower: &str) -> (r: bool)
    ensures
        r == keywords_hit(spec@, t@, t_lower@),
{
    if contains_some(t, t_lower, &spec.none_keywords) {
        return false;
    }
    let any = contains_some(t, t_lower, &spec.any_keywords);
    let group = contains_some_group(t, t_lower, &spec.all_keyword_groups);
    if spec.any_keywords.len() > 0 && spec.all_keyword_groups.len() > 0 {
        any || group
    } else {
        (spec.any_keywords.len() == 0 || any) && (spec.all_keyword_groups.len() == 0 || group)
    }
}

// ---------------------------------------------------------------------------
// Recognising a request
// ---------------------------------------------------------------------------

/// The bound project, unless it is empty or a placeholder.
pub open spec fn usable_project(project: Option<Seq<char>>) -> Option<Seq<char>> {
    match project {
        Some(p) => if p.len() > 0 && p != "_"@ {
            Some(p)
        } else {
            None
        },
        None => None,
    }
}

/// The arguments that a request takes from its text, where it finds what it needs.
pub open spec fn extracted(mode: ExtractMode, t: Seq<char>, project: Seq<char>) -> Option<JsonV> {
    let base = JsonV::empty_object().put("project"@, JsonV::Text(project));
    let chapter = named_number(t, "章"@, "chapter "@);
    match mode {
        ExtractMode::Nothing => Some(base),
        ExtractMode::Chapter => match chapter {
            Some(n) => Some(base.put("chapter"@, JsonV::Uint(n as u64))),
            None => None,
        },
        ExtractMode::ChapterOptional => match chapter {
            Some(n) => Some(base.put("chapter"@, JsonV::Uint(n as u64))),
            None => Some(base),
        },
        ExtractMode::ChapterRange => match range_from(t, 0) {
            Some(p) => if p.0 == p.1 {
                None
            } else {
                Some(
                    base.put("from"@, JsonV::Uint(p.0 as u64)).put(
                        "to"@,
                        JsonV::Uint(p.1 as u64),
                    ).put("action"@, JsonV::Text("start"@)),
                )
            },
            None => None,
        },
        ExtractMode::VolumeOptional => match named_number(t, "卷"@, "volume "@) {
            Some(n) => Some(base.put("volume"@, JsonV::Uint(n as u64))),
            None => Some(base),
        },
    }
}

/// The instructions of a revision: the text itself where it is long enough.
pub open spec fn revision_text(spec: IntentV, t: Seq<char>) -> Seq<char> {
    let least: nat = match spec.instructions_min_chars {
        Some(n) => n as nat,
        None => 24,
    };
    if t.len() >= least {
        t
    } else {
        match spec.default_instructions {
            Some(d) => d,
            None => if spec.tool == "revise_outline"@ {
                "按用户要求修订本章章纲。"@
            } else {
                "按用户要求修订本章。"@
            },
        }
    }
}

/// The recognised request that the text makes of this kind.
pub open spec fn built(spec: IntentV, t: Seq<char>, project: Option<Seq<char>>) -> Option<
    IntentMatchV,
> {
    match usable_project(project) {
        Some(p) => match extracted(spec.extract, t, p) {
            Some(a) => {
                let b = if spec.id == "audit_queue_continue"@ {
                    a.put("action"@, JsonV::Text("continue"@))
                } else {
                    a
                };
                let c = if spec.tool == "revise_chapter"@ || spec.tool == "revise_outline"@ {
                    b.put("instructions"@, JsonV::Text(revision_text(spec, t)))
                } else {
                    b
                };
                Some(
                    IntentMatchV {
                        id: spec.id,
                        tool: spec.tool,
                        args: c,
                        clear_history: spec.clear_history,
                    },
                )
            },
            None => None,
        },
        None => None,
    }
}

/// What one kind of request makes of the text.
pub open spec fn matched_by(
    spec: IntentV,
    t: Seq<char>,
    low: Seq<char>,
    project: Option<Seq<char>>,
) -> Option<IntentMatchV> {
    if spec.require_project && usable_project(project) is None {
        None
    } else if !keywords_hit(spec, t, low) {
        None
    } else {
        built(spec, t, project)
    }
}

/// What the first kind from position `i` on that recognises the text makes of it.
pub open spec fn first_match(
    kinds: Seq<IntentV>,
    t: Seq<char>,
    low: Seq<char>,
    project: Option<Seq<char>>,
    i: int,
) -> Option<IntentMatchV>
    decreases kinds.len() - i,
{
    if i < 0 || i >= kinds.len() {
        None
    } else {
        match matched_by(kinds[i], t, low, project) {
            Some(m) => Some(m),
            None => first_match(kinds, t, low, project, i + 1),
        }
    }
}

/// The bound project, unless it is empty or a placeholder.
pub fn filter_project(project: Option<&str>) -> (r: Option<&str>)
    ensures
        text::opt_str(r) == usable_project(text::opt_str(project)),
{
    match project {
        Some(p) => if !p.is_empty() && !text::same(p, "_") {
            Some(p)
        } else {
            None
        },
        None => None,
    }
}

fn extract_args(mode: ExtractMode, t: &str, project: &str) -> (r: Option<Json>)
    ensures
        match r {
            Some(j) => extracted(mode, t@, project@) == Some(j@),
            None => extracted(mode, t@, project@) is None,
        },
{
    let base = Json::object().with_str("project", project);
    match mode {
        ExtractMode::Nothing => Some(base),
        ExtractMode::Chapter => match parse_chapter_number(t) {
            Some(n) => Some(base.with_u32("chapter", n)),
            None => None,
        },
        ExtractMode::ChapterOptional => match parse_chapter_number(t) {
            Some(n) => Some(base.with_u32("chapter", n)),
            None => Some(base),
        },
        ExtractMode::ChapterRange => match parse_chapter_range(t) {
            Some(p) => if p.0 == p.1 {
                None
            } else {
                Some(base.with_u32("from", p.0).with_u32("to", p.1).with_str("action", "start"))
            },
            None => None,
        },
        ExtractMode::VolumeOptional => match parse_volume_number(t) {
            Some(n) => Some(base.with_u32("volume", n)),
            None => Some(base),
        },
    }
}

fn revision_instructions(spec: &IntentSpec, t: &str) -> (r: String)
    ensures
        r@ == revision_text(spec@, t@),
{
    let least: usize = match spec.instructions_min_chars {
        Some(n) => n,
        None => 24,
    };
    if t.unicode_len() >= least {
        t.to_owned()
    } else {
        match &spec.default_instructions {
            Some(d) => d.clone(),
            None => if text::same(spec.tool.as_str(), "revise_outline") {
                "按用户要求修订本章章纲。".to_owned()
            } else {
                "按用户要求修订本章。".to_owned()
            },
        }
    }
}

/// The recognised request that the text makes of this kind.
pub fn build_match(spec: &IntentSpec, t: &str, project: Option<&str>) -> (r: Option<IntentMatch>)
    ensures
        opt_match(r) == built(spec@, t@, text::opt_str(project)),
{
    let p = match filter_project(project) {
        Some(p) => p,
        None => {
            return None;
        },
    };
    let mut args = match extract_args(spec.extract, t, p) {
        Some(a) => a,
        None => {
            return None;
        },
    };
    if text::same(spec.id.as_str(), "audit_queue_continue") {
        args = args.with_str("action", "continue");
    }
    if text::same(spec.tool.as_str(), "revise_chapter") || text::same(
        spec.tool.as_str(),
        "revise_outline",
    ) {
        let instructions = revision_instructions(spec, t);
        args = args.with_str("instructions", instructions.as_str());
    }
    Some(
        IntentMatch {
            id: spec.id.clone(),
            tool: spec.tool.clone(),
            args,
            clear_history: spec.clear_history,
        },
    )
}

// ---------------------------------------------------------------------------
// The router
// ---------------------------------------------------------------------------

/// The kinds of request, the most urgent first.
pub struct IntentRouter {
    intents: Vec<IntentSpec>,
}

impl View for IntentRouter {
    type V = Seq<IntentV>;

    closed spec fn view(&self) -> Seq<IntentV> {
        kinds(self.intents@)
    }
}

impl IntentRouter {
    /// The most urgent kind comes first.
    #[verifier::type_invariant]
    spec fn by_urgency(&self) -> bool {
        descending(kinds(self.intents@))
    }
}

/// The contents of a list of kinds.
pub open spec fn kinds(v: Seq<IntentSpec>) -> Seq<IntentV> {
    Seq::new(v.len(), |i: int| v[i]@)
}

/// The first place at or after `i` whose kind is less urgent.
pub open spec fn slot_from(s: Seq<IntentV>, priority: i32, i: int) -> int
    decreases s.len() - i,
{
    if i < 0 || i >= s.len() || s[i].priority < priority {
        i
    } else {
        slot_from(s, priority, i + 1)
    }
}

/// The kinds with one more, behind all that are at least as urgent.
pub open spec fn inserted(s: Seq<IntentV>, x: IntentV) -> Seq<IntentV> {
    s.insert(slot_from(s, x.priority, 0), x)
}

/// The kinds by urgency; equally urgent ones keep their order.
pub open spec fn by_priority(s: Seq<IntentV>) -> Seq<IntentV>
    decreases s.len(),
{
    if s.len() == 0 {
        s
    } else {
        inserted(by_priority(s.drop_last()), s.last())
    }
}

/// No kind is more urgent than one before it.
pub open spec fn descending(s: Seq<IntentV>) -> bool {
    forall|i: int, j: int|
        0 <= i < j < s.len() ==> #[trigger] s[i].priority >= #[trigger] s[j].priority
}

proof fn slot_bounds(s: Seq<IntentV>, priority: i32, i: int)
    requires
        0 <= i <= s.len(),
    ensures
        i <= slot_from(s, priority, i) <= s.len(),
        forall|k: int| i <= k < slot_from(s, priority, i) ==> (#[trigger] s[k]).priority >= priority,
        slot_from(s, priority, i) < s.len() ==> s[slot_from(s, priority, i)].priority < priority,
    decreases s.len() - i,
{
    if i < s.len() && s[i].priority >= priority {
        slot_bounds(s, priority, i + 1);
    }
}

/// Sorting puts the more urgent kinds first.
pub proof fn sorted_is_descending(s: Seq<IntentV>)
    ensures
        descending(by_priority(s)),
    decreases s.len(),
{
    if s.len() > 0 {
        let rest = by_priority(s.drop_last());
        let x = s.last();
        sorted_is_descending(s.drop_last());
        slot_bounds(rest, x.priority, 0);
        let at = slot_from(rest, x.priority, 0);
        let out = rest.insert(at, x);
        assert forall|i: int, j: int| 0 <= i < j < out.len() implies #[trigger] out[i].priority
            >= #[trigger] out[j].priority by {
            if i < at {
                assert(out[i] == rest[i]);
            } else if i > at {
                assert(out[i] == rest[i - 1]);
            }
            if j < at {
                assert(out[j] == rest[j]);
            } else if j > at {
                assert(out[j] == rest[j - 1]);
                if i <= at {
                    assert(rest[at].priority < x.priority);
                }
            }
        }
    }
}

/// The kinds of one urgency, in order.
pub open spec fn of_priority(s: Seq<IntentV>, p: i32) -> Seq<IntentV>
    decreases s.len(),
{
    if s.len() == 0 {
        s
    } else if s.last().priority == p {
        of_priority(s.drop_last(), p).push(s.last())
    } else {
        of_priority(s.drop_last(), p)
    }
}

proof fn of_priority_none(s: Seq<IntentV>, p: i32)
    requires
        forall|i: int| 0 <= i < s.len() ==> (#[trigger] s[i]).priority != p,
    ensures
        of_priority(s, p) == Seq::<IntentV>::empty(),
    decreases s.len(),
{
    if s.len() > 0 {
        of_priority_none(s.drop_last(), p);
    }
}

proof fn of_priority_concat(a: Seq<IntentV>, b: Seq<IntentV>, p: i32)
    ensures
        of_priority(a + b, p) == of_priority(a, p) + of_priority(b, p),
    decreases b.len(),
{
    if b.len() == 0 {
        assert(a + b =~= a);
        assert(of_priority(a, p) + of_priority(b, p) =~= of_priority(a, p));
    } else {
        assert((a + b).drop_last() =~= a + b.drop_last());
        of_priority_concat(a, b.drop_last(), p);
        if b.last().priority == p {
            assert(of_priority(a, p) + of_priority(b.drop_last(), p).push(b.last()) =~= (
            of_priority(a, p) + of_priority(b.drop_last(), p)).push(b.last()));
        }
    }
}

/// Sorting keeps the order of equally urgent kinds, and neither drops nor adds one.
pub proof fn sorted_is_stable(s: Seq<IntentV>, p: i32)
    ensures
        of_priority(by_priority(s), p) == of_priority(s, p),
        by_priority(s).len() == s.len(),
    decreases s.len(),
{
    if s.len() > 0 {
        let rest = by_priority(s.drop_last());
        let x = s.last();
        sorted_is_stable(s.drop_last(), p);
        sorted_is_descending(s.drop_last());
        slot_bounds(rest, x.priority, 0);
        let at = slot_from(rest, x.priority, 0);
        let front = rest.take(at);
        let back = rest.skip(at);
        assert(rest =~= front + back);
        assert(rest.insert(at, x) =~= front.push(x) + back);
        of_priority_concat(front, back, p);
        of_priority_concat(front.push(x), back, p);
        assert(front.push(x).drop_last() =~= front);
        if x.priority == p {
            assert forall|i: int| 0 <= i < back.len() implies (#[trigger] back[i]).priority != p by {
                assert(back[i] == rest[at + i]);
                assert(rest[at].priority < p);
            }
            of_priority_none(back, p);
            assert(of_priority(front, p) + Seq::<IntentV>::empty() =~= of_priority(front, p));
            assert(of_priority(front, p).push(x) + Seq::<IntentV>::empty() =~= of_priority(
                front,
                p,
            ).push(x));
        }
    }
}

impl IntentRouter {
    /// The router that recognises nothing.
    pub fn empty() -> (r: IntentRouter)
        ensures
            r@ == Seq::<IntentV>::empty(),
            descending(r@),
    {
        let r = IntentRouter { intents: Vec::new() };
        assert(r@ =~= Seq::<IntentV>::empty());
        r
    }

    /// The router of the listed kinds, put in order of urgency.
    pub fn from_intents(list: Vec<IntentSpec>) -> (r: IntentRouter)
        ensures
            r@ == by_priority(kinds(list@)),
            descending(r@),
    {
        let ghost all = kinds(list@);
        let mut rest = list;
        let mut out: Vec<IntentSpec> = Vec::new();
        let ghost mut done: int = 0;
        assert(kinds(out@) =~= by_priority(all.take(0)));
        assert(kinds(rest@) =~= all.skip(0));
        while rest.len() > 0
            invariant
                0 <= done <= all.len(),
                kinds(rest@) == all.skip(done),
                kinds(out@) == by_priority(all.take(done)),
            decreases rest.len(),
        {
            let ghost before = kinds(out@);
            let ghost left = kinds(rest@);
            proof {
                assert(left.len() == all.len() - done);
                assert(left[0] == all[done]);
            }
            let x = rest.remove(0);
            let ghost xv = x@;
            proof {
                assert(left[0] == xv);
                slot_bounds(before, xv.priority, 0);
            }
            let mut at: usize = 0;
            while at < out.len() && out[at].priority >= x.priority
                invariant
                    at <= out.len(),
                    before == kinds(out@),
                    xv == x@,
                    slot_from(before, xv.priority, 0) == slot_from(before, xv.priority, at as int),
                decreases out.len() - at,
            {
                assert(before[at as int] == out@[at as int]@);
                at = at + 1;
            }
            proof {
                if at < out.len() {
                    assert(before[at as int] == out@[at as int]@);
                }
            }
            out.insert(at, x);
            proof {
                assert(kinds(out@) =~= before.insert(at as int, xv));
                assert(all.take(done + 1).drop_last() =~= all.take(done));
                assert(all.take(done + 1).last() == xv);
                assert(kinds(rest@) =~= left.drop_first());
                assert(left.drop_first() =~= all.skip(done + 1));
                done = done + 1;
            }
        }
        proof {
            assert(all.take(done) =~= all);
            sorted_is_descending(all);
        }
        IntentRouter { intents: out }
    }

    /// What the text, trimmed, with its lower-case form, asks for.
    pub fn match_lowered(&self, t: &str, t_lower: &str, project: Option<&str>) -> (r: Option<
        IntentMatch,
    >)
        ensures
            opt_match(r) == first_match(self@, t@, t_lower@, text::opt_str(project), 0),
            descending(self@),
    {
        proof {
            use_type_invariant(self);
        }
        let ghost p = text::opt_str(project);
        let has_project = filter_project(project).is_some();
        let mut i: usize = 0;
        while i < self.intents.len()
            invariant
                i <= self.intents.len(),
                descending(self@),
                p == text::opt_str(project),
                has_project == (usable_project(p) is Some),
                first_match(self@, t@, t_lower@, p, 0) == first_match(
                    self@,
                    t@,
                    t_lower@,
                    p,
                    i as int,
                ),
            decreases self.intents.len() - i,
        {
            let spec = &self.intents[i];
            assert(self@[i as int] == spec@);
            if (!spec.require_project || has_project) && keyword_hit(spec, t, t_lower) {
                match build_match(spec, t, project) {
                    Some(m) => {
                        return Some(m);
                    },
                    None => {},
                }
            }
            i = i + 1;
        }
        None
    }

    /// What the text asks for.
    pub fn match_text(&self, request: &str, project: Option<&str>) -> (r: Option<IntentMatch>)
        ensures
            opt_match(r) == if text::trimmed(request@).len() == 0 {
                None
            } else {
                first_match(
                    self@,
                    text::trimmed(request@),
                    lowercase_of(text::trimmed(request@)),
                    text::opt_str(project),
                    0,
                )
            },
    {
        let t = text::trim(request);
        if t.is_empty() {
            return None;
        }
        let low = lowercase(t);
        self.match_lowered(t, low.as_str(), project)
    }
}

/// Where one kind that recognises the text is more urgent than every other that
/// does, it decides.
pub proof fn most_urgent_decides(
    kinds: Seq<IntentV>,
    t: Seq<char>,
    low: Seq<char>,
    project: Option<Seq<char>>,
    k: int,
)
    requires
        descending(kinds),
        0 <= k < kinds.len(),
        matched_by(kinds[k], t, low, project) is Some,
        forall|j: int|
            0 <= j < kinds.len() && j != k && matched_by(#[trigger] kinds[j], t, low, project)
                is Some ==> kinds[j].priority < kinds[k].priority,
    ensures
        first_match(kinds, t, low, project, 0) == matched_by(kinds[k], t, low, project),
{
    skipped_until(kinds, t, low, project, 0, k);
}

proof fn skipped_until(
    kinds: Seq<IntentV>,
    t: Seq<char>,
    low: Seq<char>,
    project: Option<Seq<char>>,
    i: int,
    k: int,
)
    requires
        0 <= i <= k < kinds.len(),
        descending(kinds),
        matched_by(kinds[k], t, low, project) is Some,
        forall|j: int|
            0 <= j < kinds.len() && j != k && matched_by(#[trigger] kinds[j], t, low, project)
                is Some ==> kinds[j].priority < kinds[k].priority,
    ensures
        first_match(kinds, t, low, project, i) == matched_by(kinds[k], t, low, project),
    decreases k - i,
{
    if i < k {
        assert(kinds[i].priority >= kinds[k].priority);
        skipped_until(kinds, t, low, project, i + 1, k);
    }
}

/// Nothing is recognised without a usable project.
pub proof fn no_project_no_match(
    kinds: Seq<IntentV>,
    t: Seq<char>,
    low: Seq<char>,
    project: Option<Seq<char>>,
    i: int,
)
    requires
        usable_project(project) is None,
        0 <= i,
    ensures
        first_match(kinds, t, low, project, i) is None,
    decreases kinds.len() - i,
{
    if i < kinds.len() {
        no_project_no_match(kinds, t, low, project, i + 1);
    }
}

/// A text with an excluded keyword is not taken for the request.
pub proof fn excluded_keyword_blocks(
    spec: IntentV,
    t: Seq<char>,
    low: Seq<char>,
    project: Option<Seq<char>>,
)
    requires
        has_some(t, low, spec.none_keywords),
    ensures
        matched_by(spec, t, low, project) is None,
{
}

} // verus!
