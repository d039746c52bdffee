//! The overview of a project that the reading pane shows, and the entries of
//! the library.

use vstd::prelude::*;

use crate::content;
use crate::json;
use crate::json::{Json, JsonV};
use crate::text;

verus! {

// ---------------------------------------------------------------------------
// Chapter folders
// ---------------------------------------------------------------------------

/// The numbers that folder names write, in the order of the names. A name that
/// writes none, or one past 32 bits, is left out.
pub open spec fn numbered(names: Seq<Seq<char>>) -> Seq<u32>
    decreases names.len(),
{
    if names.len() == 0 {
        Seq::empty()
    } else {
        let before = numbered(names.drop_last());
        match text::written_number(names.last()) {
            Some(n) => if n <= u32::MAX {
                before.push(n as u32)
            } else {
                before
            },
            None => before,
        }
    }
}

/// The numbers never fall.
pub open spec fn ascending(v: Seq<u32>) -> bool {
    forall|i: int, j: int| 0 <= i <= j < v.len() ==> v[i] <= v[j]
}

/// Puts a number into an ascending row, at its place.
fn insert_sorted(v: &mut Vec<u32>, n: u32)
    requires
        ascending(old(v)@),
    ensures
        ascending(final(v)@),
        final(v)@.to_multiset() == old(v)@.to_multiset().insert(n),
{
    let mut i: usize = v.len();
    while i > 0 && v[i - 1] > n
        invariant
            i <= v.len(),
            ascending(v@),
            forall|j: int| i <= j < v.len() ==> v@[j] > n,
        decreases i,
    {
        i = i - 1;
    }
    let ghost before = v@;
    v.insert(i, n);
    proof {
        broadcast use vstd::seq_lib::group_to_multiset_ensures;

        assert(v@.remove(i as int) =~= before);
        assert(before.to_multiset() == v@.to_multiset().remove(n));
        assert(v@[i as int] == n);
        assert(v@.contains(n));
        assert(v@.to_multiset().count(n) > 0);
        assert(v@.to_multiset() =~= before.to_multiset().insert(n));
        assert forall|a: int, b: int| 0 <= a <= b < v@.len() implies v@[a] <= v@[b] by {
            let x = if a < i {
                before[a]
            } else {
                before[a - 1]
            };
            let y = if b < i {
                before[b]
            } else {
                before[b - 1]
            };
        }
    }
}

/// The chapters that the folders hold, in ascending order.
pub fn chapter_numbers(names: &Vec<String>) -> (r: Vec<u32>)
    ensures
        ascending(r@),
        r@.to_multiset() == numbered(text::texts(names@)).to_multiset(),
{
    let mut out: Vec<u32> = Vec::new();
    let mut i: usize = 0;
    let ghost all = text::texts(names@);
    assert(all.take(0) =~= Seq::empty());
    assert(out@ =~= numbered(all.take(0)));
    while i < names.len()
        invariant
            i <= names.len(),
            all == text::texts(names@),
            ascending(out@),
            out@.to_multiset() == numbered(all.take(i as int)).to_multiset(),
        decreases names.len() - i,
    {
        proof {
            broadcast use vstd::seq_lib::group_to_multiset_ensures;

            assert(all.take(i + 1).drop_last() =~= all.take(i as int));
            assert(all.take(i + 1).last() == names@[i as int]@);
        }
        match text::parse_usize(names[i].as_str()) {
            Some(n) => {
                if n <= 0xffff_ffff {
                    insert_sorted(&mut out, n as u32);
                }
            },
            None => {},
        }
        i = i + 1;
    }
    assert(all.take(i as int) =~= all);
    out
}

// ---------------------------------------------------------------------------
// The parts of the overview
// ---------------------------------------------------------------------------

/// A chapter's texts: the draft as stored and as shown, and the outline as
/// shown.
pub struct ChapterText {
    pub number: u32,
    pub draft: String,
    pub draft_shown: String,
    pub outline_shown: String,
}

/// An artifact's file: its name, its ending, and its text as shown.
pub struct ArtifactText {
    pub stem: String,
    pub ending: String,
    pub shown: String,
}

/// A project's stored state: the whole value and the fields that count.
pub struct ProjectState {
    pub value: Json,
    pub name: String,
    pub genre: String,
    pub published_count: u32,
    pub next_chapter: u32,
}

/// All that an overview is put together from.
pub struct PreviewParts {
    pub name: String,
    pub state: Option<ProjectState>,
    pub chapters: Vec<ChapterText>,
    pub characters: Vec<Json>,
    pub items: Vec<Json>,
    pub locations: Vec<Json>,
    pub plots: Vec<Json>,
    pub artifacts: Vec<ArtifactText>,
    pub story_outline: Option<Json>,
    pub entity_gaps: Json,
    pub entity_gaps_display: String,
    pub setup_phase: String,
    pub volume_phase: String,
}

/// A chapter's entry; a blank draft is shown as empty.
pub open spec fn chapter_entry(c: ChapterText) -> JsonV {
    JsonV::empty_object().put("number"@, JsonV::Uint(c.number as u64)).put(
        "title"@,
        JsonV::Text("第"@ + text::dec(c.number as nat) + "章"@),
    ).put(
        "draft"@,
        JsonV::Text(
            if text::trimmed(c.draft@).len() == 0 {
                Seq::empty()
            } else {
                c.draft_shown@
            },
        ),
    ).put("outline"@, JsonV::Text(c.outline_shown@))
}

/// The chapters' entries.
pub open spec fn chapter_entries(v: Seq<ChapterText>) -> Seq<JsonV> {
    v.map_values(|c: ChapterText| chapter_entry(c))
}

/// The artifacts by name: only files that end in `md` or `txt` count, and of
/// two with one name the later.
pub open spec fn artifacts_by_name(v: Seq<ArtifactText>) -> JsonV
    decreases v.len(),
{
    if v.len() == 0 {
        JsonV::empty_object()
    } else {
        let before = artifacts_by_name(v.drop_last());
        let a = v.last();
        if a.ending@ == "md"@ || a.ending@ == "txt"@ {
            before.put(a.stem@, JsonV::Text(a.shown@))
        } else {
            before
        }
    }
}

/// The story outline: the stored one, or else one made of the planner's text.
pub open spec fn outline_shown(stored: Option<JsonV>, artifacts: JsonV) -> JsonV {
    match stored {
        Some(v) => v,
        None => JsonV::empty_object().put(
            "markdown"@,
            JsonV::Text(artifacts.text_or_empty("master_planner"@)),
        ).put("acts"@, JsonV::List(Seq::empty())),
    }
}

/// A text that says something: over twenty bytes without the white space round
/// it.
pub open spec fn substantial(s: Seq<char>) -> bool {
    text::encoded_len(text::trimmed(s)) > 20
}

/// There is a substantial text under `key`.
pub open spec fn substantial_under(v: JsonV, key: Seq<char>) -> bool {
    match v.text(key) {
        Some(s) => substantial(s),
        None => false,
    }
}

/// Of two artifacts the first that is there is substantial.
pub open spec fn either_substantial(artifacts: JsonV, first: Seq<char>, second: Seq<char>) -> bool {
    if artifacts.get(first) is Some {
        substantial_under(artifacts, first)
    } else {
        substantial_under(artifacts, second)
    }
}

/// The number of chapters published; none without a state.
pub open spec fn published_of(s: Option<ProjectState>) -> u32 {
    match s {
        Some(s) => s.published_count,
        None => 0,
    }
}

/// The chapter to write next; the first without a state.
pub open spec fn next_of(s: Option<ProjectState>) -> u32 {
    match s {
        Some(s) => s.next_chapter,
        None => 1,
    }
}

/// The state as shown: without the chapters that it lists, since the folders
/// tell them, and with the counts that hold.
pub open spec fn state_shown(s: Option<ProjectState>) -> JsonV {
    let v = match s {
        Some(s) => s.value@,
        None => JsonV::empty_object(),
    };
    if v is Object {
        v.dropped("chapters"@).put("published_count"@, JsonV::Uint(published_of(s) as u64)).put(
            "next_chapter"@,
            JsonV::Uint(next_of(s) as u64),
        )
    } else {
        v
    }
}

/// The cards by group.
pub open spec fn entities_shown(p: PreviewParts) -> JsonV {
    JsonV::empty_object().put("characters"@, JsonV::List(json::items(p.characters@))).put(
        "items"@,
        JsonV::List(json::items(p.items@)),
    ).put("locations"@, JsonV::List(json::items(p.locations@)))
}

/// The stored story outline, where there is one.
pub open spec fn stored_outline(p: PreviewParts) -> Option<JsonV> {
    match p.story_outline {
        Some(v) => Some(v@),
        None => None,
    }
}

/// The overview of a project.
pub open spec fn overview(p: PreviewParts) -> JsonV {
    let artifacts = artifacts_by_name(p.artifacts@);
    let outline = outline_shown(stored_outline(p), artifacts);
    JsonV::empty_object().put("project"@, JsonV::Text(p.name@)).put(
        "name"@,
        JsonV::Text(p.name@),
    ).put("chapters"@, JsonV::List(chapter_entries(p.chapters@))).put(
        "story_outline"@,
        outline,
    ).put("plots"@, JsonV::List(json::items(p.plots@))).put("entities"@, entities_shown(p)).put(
        "artifacts"@,
        artifacts,
    ).put("entity_gaps"@, p.entity_gaps@).put(
        "entity_gaps_display"@,
        JsonV::Text(p.entity_gaps_display@),
    ).put("published_count"@, JsonV::Uint(published_of(p.state) as u64)).put(
        "next_chapter"@,
        JsonV::Uint(next_of(p.state) as u64),
    ).put("state"@, state_shown(p.state)).put("setup_phase"@, JsonV::Text(p.setup_phase@)).put(
        "volume_phase"@,
        JsonV::Text(p.volume_phase@),
    ).put(
        "has_master_outline"@,
        JsonV::Bool(
            either_substantial(artifacts, "master_outline"@, "master_planner"@)
                || substantial_under(outline, "markdown"@),
        ),
    ).put(
        "has_arc_outline"@,
        JsonV::Bool(either_substantial(artifacts, "arc_outline"@, "arc_planner"@)),
    )
}

// ---------------------------------------------------------------------------
// Putting it together
// ---------------------------------------------------------------------------

fn show_chapter(c: &ChapterText) -> (r: Json)
    ensures
        r@ == chapter_entry(*c),
{
    let mut title = "第".to_owned();
    title.push_str(text::number(c.number as u64).as_str());
    title.push_str("章");
    let n: usize = text::trim(c.draft.as_str()).unicode_len();
    let draft = if n == 0 {
        let s = String::new();
        assert(s@ =~= Seq::empty());
        s
    } else {
        c.draft_shown.as_str().to_owned()
    };
    Json::object().with_u32("number", c.number).with_str("title", title.as_str()).with_str(
        "draft",
        draft.as_str(),
    ).with_str("outline", c.outline_shown.as_str())
}

fn show_chapters(v: &Vec<ChapterText>) -> (r: Json)
    ensures
        r@ == JsonV::List(chapter_entries(v@)),
{
    let mut out: Vec<Json> = Vec::new();
    let mut i: usize = 0;
    while i < v.len()
        invariant
            i <= v.len(),
            out.len() == i,
            forall|j: int| 0 <= j < i ==> (#[trigger] out@[j])@ == chapter_entry(v@[j]),
        decreases v.len() - i,
    {
        out.push(show_chapter(&v[i]));
        i = i + 1;
    }
    proof {
        json::list_view(out);
        assert(json::items(out@) =~= chapter_entries(v@));
    }
    Json::List(out)
}

fn show_artifacts(v: &Vec<ArtifactText>) -> (r: Json)
    ensures
        r@ == artifacts_by_name(v@),
{
    let mut out = Json::object();
    let mut i: usize = 0;
    assert(v@.take(0) =~= Seq::empty());
    while i < v.len()
        invariant
            i <= v.len(),
            out@ == artifacts_by_name(v@.take(i as int)),
        decreases v.len() - i,
    {
        assert(v@.take(i + 1).drop_last() =~= v@.take(i as int));
        let a = &v[i];
        if text::same(a.ending.as_str(), "md") || text::same(a.ending.as_str(), "txt") {
            out = out.with_str(a.stem.as_str(), a.shown.as_str());
        }
        i = i + 1;
    }
    assert(v@.take(i as int) =~= v@);
    out
}

fn list_of(v: &Vec<Json>) -> (r: Json)
    ensures
        r@ == JsonV::List(json::items(v@)),
{
    let w = json::copy_list(v);
    proof {
        json::list_view(w);
    }
    Json::List(w)
}

fn is_substantial_under(v: &Json, key: &str) -> (r: bool)
    ensures
        r == substantial_under(v@, key@),
{
    match v.get_str(key) {
        Some(s) => text::encoded_at_least(text::trim(s), 21),
        None => false,
    }
}

fn is_either_substantial(artifacts: &Json, first: &str, second: &str) -> (r: bool)
    ensures
        r == either_substantial(artifacts@, first@, second@),
{
    match artifacts.get(first) {
        Some(_) => is_substantial_under(artifacts, first),
        None => is_substantial_under(artifacts, second),
    }
}

fn show_state(s: &Option<ProjectState>) -> (r: Json)
    ensures
        r@ == state_shown(*s),
{
    let (v, published, next) = match s {
        Some(s) => (s.value.copy(), s.published_count, s.next_chapter),
        None => (Json::object(), 0, 1),
    };
    let is_object = matches!(v, Json::Object(_));
    if is_object {
        v.without("chapters").with_u32("published_count", published).with_u32("next_chapter", next)
    } else {
        v
    }
}

fn show_outline(stored: &Option<Json>, artifacts: &Json) -> (r: Json)
    ensures
        r@ == outline_shown(
            match *stored {
                Some(v) => Some(v@),
                None => None,
            },
            artifacts@,
        ),
{
    match stored {
        Some(v) => v.copy(),
        None => Json::object().with_str(
            "markdown",
            artifacts.str_or_empty("master_planner").as_str(),
        ).with("acts", content::empty_list()),
    }
}

/// Puts the overview of a project together.
pub fn build_preview(p: &PreviewParts) -> (r: Json)
    ensures
        r@ == overview(*p),
{
    let (published, next): (u32, u32) = match &p.state {
        Some(s) => (s.published_count, s.next_chapter),
        None => (0, 1),
    };
    let artifacts = show_artifacts(&p.artifacts);
    let outline = show_outline(&p.story_outline, &artifacts);
    let has_arc = is_either_substantial(&artifacts, "arc_outline", "arc_planner");
    let has_master = is_either_substantial(&artifacts, "master_outline", "master_planner")
        || is_substantial_under(&outline, "markdown");
    let entities = Json::object().with("characters", list_of(&p.characters)).with(
        "items",
        list_of(&p.items),
    ).with("locations", list_of(&p.locations));
    let v = Json::object().with_str("project", p.name.as_str()).with_str(
        "name",
        p.name.as_str(),
    ).with("chapters", show_chapters(&p.chapters)).with("story_outline", outline).with(
        "plots",
        list_of(&p.plots),
    ).with("entities", entities).with("artifacts", artifacts);
    let w = v.with("entity_gaps", p.entity_gaps.copy()).with_str(
        "entity_gaps_display",
        p.entity_gaps_display.as_str(),
    ).with_u32("published_count", published).with_u32("next_chapter", next);
    w.with("state", show_state(&p.state)).with_str("setup_phase", p.setup_phase.as_str()).with_str(
        "volume_phase",
        p.volume_phase.as_str(),
    ).with_bool("has_master_outline", has_master).with_bool("has_arc_outline", has_arc)
}

/// The chapters that a stored state lists are never shown; the folders are
/// what counts.
pub proof fn stale_chapters_are_not_shown(s: Option<ProjectState>)
    ensures
        state_shown(s) is Object ==> state_shown(s).get("chapters"@) is None,
{
    reveal_strlit("chapters");
    reveal_strlit("published_count");
    reveal_strlit("next_chapter");
    assert("chapters"@.len() != "published_count"@.len());
    assert("chapters"@.len() != "next_chapter"@.len());
    let v = match s {
        Some(s) => s.value@,
        None => JsonV::empty_object(),
    };
    let d = v.dropped("chapters"@);
    json::nothing_after_drop(v, "chapters"@);
    let p = d.put("published_count"@, JsonV::Uint(published_of(s) as u64));
    json::get_other_after_put(
        d,
        "published_count"@,
        JsonV::Uint(published_of(s) as u64),
        "chapters"@,
    );
    json::get_other_after_put(p, "next_chapter"@, JsonV::Uint(next_of(s) as u64), "chapters"@);
}

// ---------------------------------------------------------------------------
// The library
// ---------------------------------------------------------------------------

/// A project's entry in the library.
pub open spec fn library_entry(id: Seq<char>, s: Option<ProjectState>) -> JsonV {
    let (title, genre) = match s {
        Some(s) => (s.name@, s.genre@),
        None => (id, Seq::<char>::empty()),
    };
    JsonV::empty_object().put("id"@, JsonV::Text(id)).put("name"@, JsonV::Text(id)).put(
        "display_title"@,
        JsonV::Text(title),
    ).put("title"@, JsonV::Text(title)).put("genre"@, JsonV::Text(genre)).put(
        "next_chapter"@,
        JsonV::Uint(next_of(s) as u64),
    ).put("published_count"@, JsonV::Uint(published_of(s) as u64)).put(
        "status"@,
        JsonV::Text("active"@),
    )
}

/// A project's entry in the library.
pub fn library_item(id: &str, s: &Option<ProjectState>) -> (r: Json)
    ensures
        r@ == library_entry(id@, *s),
{
    let (title, genre, next, published): (String, String, u32, u32) = match s {
        Some(s) => (
            s.name.as_str().to_owned(),
            s.genre.as_str().to_owned(),
            s.next_chapter,
            s.published_count,
        ),
        None => {
            let none = String::new();
            assert(none@ =~= Seq::empty());
            (id.to_owned(), none, 1, 0)
        },
    };
    Json::object().with_str("id", id).with_str("name", id).with_str(
        "display_title",
        title.as_str(),
    ).with_str("title", title.as_str()).with_str("genre", genre.as_str()).with_u32(
        "next_chapter",
        next,
    ).with_u32("published_count", published).with_str("status", "active")
}

/// One project's page: its entry, read off the overview, and the overview.
pub open spec fn library_page(id: Seq<char>, preview: JsonV) -> JsonV {
    let st = match preview.get("state"@) {
        Some(v) => v,
        None => JsonV::Null,
    };
    let or_null = |o: Option<JsonV>|
        match o {
            Some(v) => v,
            None => JsonV::Null,
        };
    JsonV::empty_object().put(
        "novel"@,
        JsonV::empty_object().put("id"@, JsonV::Text(id)).put(
            "display_title"@,
            JsonV::Text(
                match st.text("name"@) {
                    Some(t) => t,
                    None => id,
                },
            ),
        ).put("genre"@, JsonV::Text(st.text_or_empty("genre"@))).put(
            "published_count"@,
            or_null(preview.get("published_count"@)),
        ).put("next_chapter"@, or_null(preview.get("next_chapter"@))).put(
            "status"@,
            JsonV::Text("active"@),
        ),
    ).put("preview"@, preview)
}

fn copy_or_null(o: Option<&Json>) -> (r: Json)
    ensures
        r@ == match json::opt_json(o) {
            Some(v) => v,
            None => JsonV::Null,
        },
{
    match o {
        Some(v) => v.copy(),
        None => Json::Null,
    }
}

/// One project's page: its entry, read off the overview, and the overview.
pub fn library_one(id: &str, preview: Json) -> (r: Json)
    ensures
        r@ == library_page(id@, preview@),
{
    let st = copy_or_null(preview.get("state"));
    let title = match st.get_str("name") {
        Some(t) => t.to_owned(),
        None => id.to_owned(),
    };
    let novel = Json::object().with_str("id", id).with_str(
        "display_title",
        title.as_str(),
    ).with_str("genre", st.str_or_empty("genre").as_str()).with(
        "published_count",
        copy_or_null(preview.get("published_count")),
    ).with("next_chapter", copy_or_null(preview.get("next_chapter"))).with_str("status", "active");
    Json::object().with("novel", novel).with("preview", preview)
}

} // verus!
