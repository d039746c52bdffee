//! Edits that a writer makes to a project's files by hand: which file a tab
//! stands for, and how an edited body goes back under its front matter.

use vstd::prelude::*;

use crate::json::{Json, JsonV};
use crate::text;

verus! {

// ---------------------------------------------------------------------------
// Cards with front matter
// ---------------------------------------------------------------------------

/// The front matter of a card and the place of its closing rule in `s`, where
/// a card has one: it opens with `---` and ends before the next line that
/// begins with `---`. Byte-order marks before it do not count.
pub open spec fn front_matter(s: Seq<char>) -> Option<Seq<char>> {
    let t = text::front_off(s, '\u{feff}');
    if text::begins(t, "---"@) {
        let rest = t.skip("---"@.len() as int);
        let inner = if text::begins(rest, "\n"@) {
            rest.skip(1)
        } else {
            rest
        };
        match text::find_from(inner, "\n---"@, 0) {
            Some(end) => Some(inner.take(end)),
            None => None,
        }
    } else {
        None
    }
}

/// The card with `body` in place of its body: the front matter stays, and one
/// empty line parts the two.
pub open spec fn rebodied(existing: Seq<char>, body: Seq<char>) -> Seq<char> {
    match front_matter(existing) {
        Some(yaml) => "---\n"@ + yaml + "\n---\n\n"@ + text::front_off(body, '\n'),
        None => body,
    }
}

/// The front matter of a card, where it has one.
fn read_front_matter(s: &str) -> (r: Option<String>)
    ensures
        text::opt_text(r) == front_matter(s@),
{
    let t = text::trim_start_char(s, '\u{feff}');
    proof {
        reveal_strlit("---");
        reveal_strlit("\n");
        reveal_strlit("\n---");
    }
    if !text::starts_with(t, "---") {
        return None;
    }
    let n: usize = t.unicode_len();
    let rest = t.substring_char(3, n);
    assert(rest@ =~= t@.skip(3));
    let inner = if text::starts_with(rest, "\n") {
        let m: usize = rest.unicode_len();
        let inner = rest.substring_char(1, m);
        assert(inner@ =~= rest@.skip(1));
        inner
    } else {
        rest
    };
    match text::find(inner, "\n---") {
        Some(end) => {
            proof {
                text::find_from_is_first(inner@, "\n---"@, 0);
            }
            let yaml = inner.substring_char(0, end);
            assert(yaml@ =~= inner@.take(end as int));
            Some(yaml.to_owned())
        },
        None => None,
    }
}

/// Puts a new body under a card's front matter; a text without front matter is
/// replaced whole.
pub fn replace_markdown_body(existing: &str, new_body: &str) -> (r: String)
    ensures
        r@ == rebodied(existing@, new_body@),
{
    match read_front_matter(existing) {
        Some(yaml) => {
            let mut out = "---\n".to_owned();
            out.push_str(yaml.as_str());
            out.push_str("\n---\n\n");
            out.push_str(text::trim_start_char(new_body, '\n'));
            out
        },
        None => new_body.to_owned(),
    }
}

/// An edit of the body leaves the front matter as it was.
pub proof fn front_matter_is_kept(existing: Seq<char>, body: Seq<char>)
    requires
        front_matter(existing) is Some,
    ensures
        front_matter(rebodied(existing, body)) == front_matter(existing),
{
    reveal_strlit("---");
    reveal_strlit("\n");
    reveal_strlit("\n---");
    reveal_strlit("---\n");
    reveal_strlit("\n---\n\n");
    let t = text::front_off(existing, '\u{feff}');
    let rest = t.skip(3);
    let inner = if text::begins(rest, "\n"@) {
        rest.skip(1)
    } else {
        rest
    };
    text::find_from_is_first(inner, "\n---"@, 0);
    let end = text::find_from(inner, "\n---"@, 0)->0;
    let yaml = inner.take(end);
    let tail = text::front_off(body, '\n');
    let out = rebodied(existing, body);
    assert(out == "---\n"@ + yaml + "\n---\n\n"@ + tail);
    assert(out[0] == '-');
    assert(text::front_off(out, '\u{feff}') == out);
    assert(out.subrange(0, 3) =~= "---"@);
    assert(text::begins(out, "---"@));
    let rest2 = out.skip(3);
    assert(rest2.subrange(0, 1) =~= "\n"@);
    let inner2 = rest2.skip(1);
    assert(inner2 =~= yaml + "\n---\n\n"@ + tail);
    assert(inner2.subrange(end, end + 4) =~= "\n---"@);
    assert(text::occurs_at(inner2, "\n---"@, end));
    assert forall|j: int| 0 <= j < end implies !text::occurs_at(inner2, "\n---"@, j) by {
        if text::occurs_at(inner2, "\n---"@, j) {
            assert(inner2.subrange(j, j + 4) =~= inner.subrange(j, j + 4)) by {
                assert(inner.subrange(end, end + 4) == "\n---"@);
                assert forall|k: int| j <= k < j + 4 implies inner2[k] == inner[k] by {
                    if k >= end {
                        assert(inner[k] == inner.subrange(end, end + 4)[k - end]);
                    }
                }
            }
            assert(text::occurs_at(inner, "\n---"@, j));
        }
    }
    text::find_from_is_first(inner2, "\n---"@, 0);
    assert(inner2.take(end) =~= yaml);
}

/// Of two edits of a card's body only the second one counts.
pub proof fn last_body_wins(existing: Seq<char>, first: Seq<char>, second: Seq<char>)
    requires
        front_matter(existing) is Some,
    ensures
        rebodied(rebodied(existing, first), second) == rebodied(existing, second),
{
    front_matter_is_kept(existing, first);
}

// ---------------------------------------------------------------------------
// What a tab stands for
// ---------------------------------------------------------------------------

/// A text that a writer saves, with the tab it was edited in.
pub struct ContentPutReq {
    pub tab: String,
    pub content: String,
    pub chapter: u32,
    pub card_key: String,
}

/// The form that an artifact's text has.
#[derive(Clone, Copy, PartialEq, Eq, Structural)]
pub enum ArtifactShape {
    MasterOutline,
    ArcOutline,
    Bible,
    Plain,
}

/// The form of the artifact with this name.
pub open spec fn shape_of(stem: Seq<char>) -> ArtifactShape {
    if stem == "master_outline"@ || stem == "master_planner"@ {
        ArtifactShape::MasterOutline
    } else if stem == "arc_outline"@ || stem == "arc_planner"@ {
        ArtifactShape::ArcOutline
    } else if stem == "bible"@ {
        ArtifactShape::Bible
    } else {
        ArtifactShape::Plain
    }
}

/// The form of the artifact with this name.
pub fn artifact_shape(stem: &str) -> (r: ArtifactShape)
    ensures
        r == shape_of(stem@),
{
    if text::same(stem, "master_outline") || text::same(stem, "master_planner") {
        ArtifactShape::MasterOutline
    } else if text::same(stem, "arc_outline") || text::same(stem, "arc_planner") {
        ArtifactShape::ArcOutline
    } else if text::same(stem, "bible") {
        ArtifactShape::Bible
    } else {
        ArtifactShape::Plain
    }
}

/// What a saved text goes into.
pub enum SaveTarget {
    Draft { chapter: u32 },
    Outline { chapter: u32 },
    Master,
    Plot { key: String },
    Entity { group: String, key: String },
    Artifact { stem: String, shape: ArtifactShape },
}

/// What a `SaveTarget` means.
pub enum TargetV {
    Draft { chapter: u32 },
    Outline { chapter: u32 },
    Master,
    Plot { key: Seq<char> },
    Entity { group: Seq<char>, key: Seq<char> },
    Artifact { stem: Seq<char>, shape: ArtifactShape },
}

impl View for SaveTarget {
    type V = TargetV;

    open spec fn view(&self) -> TargetV {
        match self {
            SaveTarget::Draft { chapter } => TargetV::Draft { chapter: *chapter },
            SaveTarget::Outline { chapter } => TargetV::Outline { chapter: *chapter },
            SaveTarget::Master => TargetV::Master,
            SaveTarget::Plot { key } => TargetV::Plot { key: key@ },
            SaveTarget::Entity { group, key } => TargetV::Entity { group: group@, key: key@ },
            SaveTarget::Artifact { stem, shape } => TargetV::Artifact { stem: stem@, shape: *shape },
        }
    }
}

/// A name that stays inside the artifact folder.
pub open spec fn plain_name(stem: Seq<char>) -> bool {
    stem.len() > 0 && !text::occurs(stem, "/"@) && !text::occurs(stem, ".."@)
}

/// What a text saved in `tab` goes into, or why it cannot be saved.
/// `group_known` tells whether the group that an `ent:` tab names exists.
pub open spec fn target_of(
    tab: Seq<char>,
    chapter: u32,
    card_key: Seq<char>,
    group_known: bool,
) -> Result<TargetV, Seq<char>> {
    let t = text::trimmed(tab);
    let key = text::trimmed(card_key);
    if t == "draft"@ {
        if chapter == 0 {
            Err("保存正文需要有效章号"@)
        } else {
            Ok(TargetV::Draft { chapter })
        }
    } else if t == "outline"@ {
        if chapter == 0 {
            Err("保存章纲需要有效章号"@)
        } else {
            Ok(TargetV::Outline { chapter })
        }
    } else if t == "master"@ {
        Ok(TargetV::Master)
    } else if t == "plots"@ {
        if key.len() == 0 {
            Err("保存剧情卡需要 card_key"@)
        } else {
            Ok(TargetV::Plot { key })
        }
    } else if text::begins(t, "ent:"@) {
        let group = t.skip(4);
        if !group_known {
            Err("未知设定卡分组："@ + group)
        } else if key.len() == 0 {
            Err("保存设定卡需要 card_key"@)
        } else {
            Ok(TargetV::Entity { group, key })
        }
    } else if text::begins(t, "art:"@) {
        let stem = t.skip(4);
        if plain_name(stem) {
            Ok(TargetV::Artifact { stem, shape: shape_of(stem) })
        } else {
            Err("非法 artifact 名"@)
        }
    } else {
        Err("不支持保存的标签页："@ + t)
    }
}

/// The meaning of a plan.
pub open spec fn plan_view(r: Result<SaveTarget, String>) -> Result<TargetV, Seq<char>> {
    match r {
        Ok(t) => Ok(t@),
        Err(e) => Err(e@),
    }
}

/// The group that an `ent:` tab names.
pub fn tab_group(tab: &str) -> (r: Option<String>)
    ensures
        text::opt_text(r) == if text::begins(text::trimmed(tab@), "ent:"@) {
            Some(text::trimmed(tab@).skip(4))
        } else {
            None
        },
{
    let t = text::trim(tab);
    if text::starts_with(t, "ent:") {
        Some(after_four(t))
    } else {
        None
    }
}

/// What follows the first four characters.
fn after_four(t: &str) -> (r: String)
    requires
        text::begins(t@, "ent:"@) || text::begins(t@, "art:"@),
    ensures
        r@ == t@.skip(4),
{
    proof {
        reveal_strlit("ent:");
        reveal_strlit("art:");
    }
    let n: usize = t.unicode_len();
    let rest = t.substring_char(4, n);
    assert(rest@ =~= t@.skip(4));
    rest.to_owned()
}

/// Whether a text has no characters.
fn is_blank(s: &str) -> (r: bool)
    ensures
        r == (s@.len() == 0),
{
    let n: usize = s.unicode_len();
    n == 0
}

/// Decides what a saved text goes into, or why it cannot be saved.
pub fn plan_save(req: &ContentPutReq, group_known: bool) -> (r: Result<SaveTarget, String>)
    ensures
        plan_view(r) == target_of(req.tab@, req.chapter, req.card_key@, group_known),
{
    let t = text::trim(req.tab.as_str());
    let key = text::trim(req.card_key.as_str());
    if text::same(t, "draft") {
        if req.chapter == 0 {
            return Err("保存正文需要有效章号".to_owned());
        }
        Ok(SaveTarget::Draft { chapter: req.chapter })
    } else if text::same(t, "outline") {
        if req.chapter == 0 {
            return Err("保存章纲需要有效章号".to_owned());
        }
        Ok(SaveTarget::Outline { chapter: req.chapter })
    } else if text::same(t, "master") {
        Ok(SaveTarget::Master)
    } else if text::same(t, "plots") {
        if is_blank(key) {
            return Err("保存剧情卡需要 card_key".to_owned());
        }
        Ok(SaveTarget::Plot { key: key.to_owned() })
    } else if text::starts_with(t, "ent:") {
        let group = after_four(t);
        if !group_known {
            let mut e = "未知设定卡分组：".to_owned();
            e.push_str(group.as_str());
            return Err(e);
        }
        if is_blank(key) {
            return Err("保存设定卡需要 card_key".to_owned());
        }
        Ok(SaveTarget::Entity { group, key: key.to_owned() })
    } else if text::starts_with(t, "art:") {
        let stem = after_four(t);
        if is_blank(stem.as_str()) || text::contains(stem.as_str(), "/") || text::contains(
            stem.as_str(),
            "..",
        ) {
            return Err("非法 artifact 名".to_owned());
        }
        let shape = artifact_shape(stem.as_str());
        Ok(SaveTarget::Artifact { stem, shape })
    } else {
        let mut e = "不支持保存的标签页：".to_owned();
        e.push_str(t);
        Err(e)
    }
}

/// An artifact is only ever saved under a name that stays in its folder, and a
/// chapter text only under a chapter.
pub proof fn targets_are_sound(
    tab: Seq<char>,
    chapter: u32,
    card_key: Seq<char>,
    group_known: bool,
)
    ensures
        match target_of(tab, chapter, card_key, group_known) {
            Ok(TargetV::Draft { chapter: n }) => n == chapter && n > 0,
            Ok(TargetV::Outline { chapter: n }) => n == chapter && n > 0,
            Ok(TargetV::Plot { key }) => key.len() > 0,
            Ok(TargetV::Entity { group: _, key }) => group_known && key.len() > 0,
            Ok(TargetV::Artifact { stem, shape: _ }) => plain_name(stem),
            _ => true,
        },
{
}

/// What is said when a card to save does not exist; nothing for the targets
/// that are no cards.
pub open spec fn missing_text(t: TargetV) -> Seq<char> {
    match t {
        TargetV::Plot { key } => "未找到剧情卡「"@ + key + "」"@,
        TargetV::Entity { group: _, key } => "未找到设定卡「"@ + key + "」"@,
        _ => Seq::empty(),
    }
}

/// What is said when a card to save does not exist.
pub fn missing_card(t: &SaveTarget) -> (r: String)
    ensures
        r@ == missing_text(t@),
{
    match t {
        SaveTarget::Plot { key } => {
            let mut s = "未找到剧情卡「".to_owned();
            s.push_str(key.as_str());
            s.push_str("」");
            s
        },
        SaveTarget::Entity { group: _, key } => {
            let mut s = "未找到设定卡「".to_owned();
            s.push_str(key.as_str());
            s.push_str("」");
            s
        },
        _ => String::new(),
    }
}

// ---------------------------------------------------------------------------
// Files
// ---------------------------------------------------------------------------

/// A card of a folder: its file's name without the ending, the names it goes
/// by, and whether the file is there.
pub struct CardFile {
    pub slug: String,
    pub id: String,
    pub name: String,
    pub title: String,
    pub on_disk: bool,
}

/// What a `CardFile` means.
pub struct CardFileV {
    pub slug: Seq<char>,
    pub id: Seq<char>,
    pub name: Seq<char>,
    pub title: Seq<char>,
    pub on_disk: bool,
}

impl View for CardFile {
    type V = CardFileV;

    open spec fn view(&self) -> CardFileV {
        CardFileV {
            slug: self.slug@,
            id: self.id@,
            name: self.name@,
            title: self.title@,
            on_disk: self.on_disk,
        }
    }
}

/// The card goes by `key` and its file is there.
pub open spec fn answers_to(c: CardFileV, key: Seq<char>) -> bool {
    (c.slug == key || c.id == key || c.name == key || c.title == key) && c.on_disk
}

/// The first card from `i` on that goes by `key`.
pub open spec fn card_from(cards: Seq<CardFile>, key: Seq<char>, i: int) -> Option<Seq<char>>
    decreases cards.len() - i,
{
    if i < 0 || i >= cards.len() {
        None
    } else if answers_to(cards[i]@, key) {
        Some(cards[i].slug@)
    } else {
        card_from(cards, key, i + 1)
    }
}

/// The file, without its ending, that holds the card with this key: the file
/// of that name, or else that of the first card that goes by it.
pub open spec fn card_file(
    folder: bool,
    direct: bool,
    cards: Seq<CardFile>,
    key: Seq<char>,
) -> Option<Seq<char>> {
    if key.len() == 0 || !folder {
        None
    } else if direct {
        Some(key)
    } else {
        card_from(cards, key, 0)
    }
}

/// The file, without its ending, that holds the card with this key. `folder`
/// tells whether the folder is there, `direct` whether it has a file of that
/// name.
pub fn find_card_path(folder: bool, direct: bool, cards: &Vec<CardFile>, key: &str) -> (r: Option<
    String,
>)
    ensures
        text::opt_text(r) == card_file(folder, direct, cards@, key@),
{
    if is_blank(key) || !folder {
        return None;
    }
    if direct {
        return Some(key.to_owned());
    }
    let mut i: usize = 0;
    while i < cards.len()
        invariant
            i <= cards.len(),
            card_from(cards@, key@, 0) == card_from(cards@, key@, i as int),
            key@.len() > 0,
            folder,
            !direct,
        decreases cards.len() - i,
    {
        let c = &cards[i];
        if (text::same(c.slug.as_str(), key) || text::same(c.id.as_str(), key) || text::same(
            c.name.as_str(),
            key,
        ) || text::same(c.title.as_str(), key)) && c.on_disk {
            return Some(c.slug.as_str().to_owned());
        }
        i = i + 1;
    }
    None
}

/// The file that an artifact is written to: the ending that is there already
/// is kept, `md` before `txt`, and a new file gets `md`.
pub open spec fn artifact_name(stem: Seq<char>, md: bool, txt: bool) -> Seq<char> {
    if !md && txt {
        stem + ".txt"@
    } else {
        stem + ".md"@
    }
}

/// The file that an artifact is written to.
pub fn artifact_file(stem: &str, md: bool, txt: bool) -> (r: String)
    ensures
        r@ == artifact_name(stem@, md, txt),
{
    let mut s = stem.to_owned();
    if !md && txt {
        s.push_str(".txt");
    } else {
        s.push_str(".md");
    }
    s
}

/// The story outline with a new text; acts that it has are kept. A stored
/// value that is no object stays as it is.
pub open spec fn outline_saved(stored: Option<JsonV>, markdown: Seq<char>) -> JsonV {
    let v = match stored {
        Some(v) => v,
        None => JsonV::empty_object().put("acts"@, JsonV::List(Seq::empty())),
    };
    if v is Object {
        let w = v.put("markdown"@, JsonV::Text(markdown));
        if w.get("acts"@) is None {
            w.put("acts"@, JsonV::List(Seq::empty()))
        } else {
            w
        }
    } else {
        v
    }
}

/// The list without items.
pub fn empty_list() -> (r: Json)
    ensures
        r@ == JsonV::List(Seq::empty()),
{
    let v: Vec<Json> = Vec::new();
    let r = Json::List(v);
    assert(r@->List_0 =~= Seq::empty());
    r
}

/// The story outline with a new text.
pub fn save_outline(stored: Option<Json>, markdown: &str) -> (r: Json)
    ensures
        r@ == outline_saved(
            match stored {
                Some(v) => Some(v@),
                None => None,
            },
            markdown@,
        ),
{
    let v = match stored {
        Some(v) => v,
        None => Json::object().with("acts", empty_list()),
    };
    let is_object = matches!(v, Json::Object(_));
    if !is_object {
        return v;
    }
    let w = v.with_str("markdown", markdown);
    match w.get("acts") {
        Some(_) => w,
        None => w.with("acts", empty_list()),
    }
}

/// A saved outline holds the text that was saved.
pub proof fn saved_outline_is_read_back(stored: Option<JsonV>, markdown: Seq<char>)
    requires
        stored matches Some(v) ==> v is Object,
    ensures
        outline_saved(stored, markdown).text("markdown"@) == Some(markdown),
{
    reveal_strlit("acts");
    reveal_strlit("markdown");
    assert("acts"@.len() != "markdown"@.len());
    let v = match stored {
        Some(v) => v,
        None => JsonV::empty_object().put("acts"@, JsonV::List(Seq::empty())),
    };
    let w = v.put("markdown"@, JsonV::Text(markdown));
    crate::json::get_after_put(v, "markdown"@, JsonV::Text(markdown));
    crate::json::get_other_after_put(w, "acts"@, JsonV::List(Seq::empty()), "markdown"@);
}

} // verus!
