//! Human gates: the cards of options that stop a turn until someone answers.
//!
//! An option is named by its id, its label or one of its aliases; what it does
//! comes from its `resolve` word or from its tool and argument template.

use vstd::prelude::*;

use crate::json;
use crate::json::{Json, JsonV};
use crate::text;

verus! {

/// One button of an open card.
pub struct UserInputOption {
    pub id: String,
    pub label: String,
}

/// What a button shows.
pub struct UserInputOptionV {
    pub id: Seq<char>,
    pub label: Seq<char>,
}

impl View for UserInputOption {
    type V = UserInputOptionV;

    open spec fn view(&self) -> UserInputOptionV {
        UserInputOptionV { id: self.id@, label: self.label@ }
    }
}

/// What a list of buttons shows.
pub open spec fn buttons(v: Seq<UserInputOption>) -> Seq<UserInputOptionV> {
    Seq::new(v.len(), |i: int| v[i]@)
}

/// One option of a gate as configured.
pub struct GateOptionSpec {
    pub id: String,
    pub label: String,
    pub tool: Option<String>,
    pub args: Option<Json>,
    /// A step that is no tool call, such as `skip_volume`.
    pub resolve: Option<String>,
    pub aliases: Vec<String>,
}

/// An option's contents.
pub struct GateOptionV {
    pub id: Seq<char>,
    pub label: Seq<char>,
    pub tool: Option<Seq<char>>,
    pub args: Option<JsonV>,
    pub resolve: Option<Seq<char>>,
    pub aliases: Seq<Seq<char>>,
}

impl View for GateOptionSpec {
    type V = GateOptionV;

    open spec fn view(&self) -> GateOptionV {
        GateOptionV {
            id: self.id@,
            label: self.label@,
            tool: text::opt_text(self.tool),
            args: match self.args {
                Some(j) => Some(j@),
                None => None,
            },
            resolve: text::opt_text(self.resolve),
            aliases: text::texts(self.aliases@),
        }
    }
}

/// The contents of a list of options.
pub open spec fn option_list(v: Seq<GateOptionSpec>) -> Seq<GateOptionV> {
    Seq::new(v.len(), |i: int| v[i]@)
}

/// A gate: its name and its options in display order.
pub struct GateSpec {
    pub name: String,
    pub options: Vec<GateOptionSpec>,
}

/// A gate's contents.
pub struct GateV {
    pub name: Seq<char>,
    pub options: Seq<GateOptionV>,
}

impl View for GateSpec {
    type V = GateV;

    open spec fn view(&self) -> GateV {
        GateV { name: self.name@, options: option_list(self.options@) }
    }
}

/// What an answer to a gate asks for.
pub enum GateResolve {
    Tool { name: String, args: Json },
    SkipVolume,
    ApplyMutation,
    DiscardMutation,
    /// Revise what depends on an applied change.
    SyncImpact,
    /// Keep the applied change and leave what depends on it alone.
    SkipImpact,
    /// Activate the planned plot card, then write on.
    ActivatePlotWrite,
    /// Close the card without a tool call.
    DismissGate,
    /// Free text while an audit gate is open.
    SteerInstructions { instructions: String },
}

/// An answer's contents.
pub enum GateResolveV {
    Tool { name: Seq<char>, args: JsonV },
    SkipVolume,
    ApplyMutation,
    DiscardMutation,
    SyncImpact,
    SkipImpact,
    ActivatePlotWrite,
    DismissGate,
    SteerInstructions { instructions: Seq<char> },
}

impl View for GateResolve {
    type V = GateResolveV;

    open spec fn view(&self) -> GateResolveV {
        match self {
            GateResolve::Tool { name, args } => GateResolveV::Tool { name: name@, args: args@ },
            GateResolve::SkipVolume => GateResolveV::SkipVolume,
            GateResolve::ApplyMutation => GateResolveV::ApplyMutation,
            GateResolve::DiscardMutation => GateResolveV::DiscardMutation,
            GateResolve::SyncImpact => GateResolveV::SyncImpact,
            GateResolve::SkipImpact => GateResolveV::SkipImpact,
            GateResolve::ActivatePlotWrite => GateResolveV::ActivatePlotWrite,
            GateResolve::DismissGate => GateResolveV::DismissGate,
            GateResolve::SteerInstructions { instructions } => GateResolveV::SteerInstructions {
                instructions: instructions@,
            },
        }
    }
}

/// The contents of an optional answer.
pub open spec fn opt_resolve(o: Option<GateResolve>) -> Option<GateResolveV> {
    match o {
        Some(r) => Some(r@),
        None => None,
    }
}

/// Values that an argument template may name.
pub struct TemplateVars {
    pub project: String,
    pub chapter: Option<u32>,
    pub suggest_chapter: Option<u32>,
    pub next_chapter: Option<u32>,
    pub volume: Option<u32>,
    pub chapters: Option<Vec<u32>>,
    pub instructions: Option<String>,
    pub title: Option<String>,
}

/// The template values.
pub struct VarsV {
    pub project: Seq<char>,
    pub chapter: Option<u32>,
    pub suggest_chapter: Option<u32>,
    pub next_chapter: Option<u32>,
    pub volume: Option<u32>,
    pub chapters: Option<Seq<u32>>,
    pub instructions: Option<Seq<char>>,
    pub title: Option<Seq<char>>,
}

impl View for TemplateVars {
    type V = VarsV;

    open spec fn view(&self) -> VarsV {
        VarsV {
            project: self.project@,
            chapter: self.chapter,
            suggest_chapter: self.suggest_chapter,
            next_chapter: self.next_chapter,
            volume: self.volume,
            chapters: match self.chapters {
                Some(v) => Some(v@),
                None => None,
            },
            instructions: text::opt_text(self.instructions),
            title: text::opt_text(self.title),
        }
    }
}

impl VarsV {
    /// Template values that name nothing but the project.
    pub open spec fn of_project(project: Seq<char>) -> VarsV {
        VarsV {
            project,
            chapter: None,
            suggest_chapter: None,
            next_chapter: None,
            volume: None,
            chapters: None,
            instructions: None,
            title: None,
        }
    }
}

impl TemplateVars {
    /// Template values that name nothing but the project.
    pub fn of_project(project: &str) -> (r: TemplateVars)
        ensures
            r@ == VarsV::of_project(project@),
    {
        TemplateVars {
            project: project.to_owned(),
            chapter: None,
            suggest_chapter: None,
            next_chapter: None,
            volume: None,
            chapters: None,
            instructions: None,
            title: None,
        }
    }
}

// ---------------------------------------------------------------------------
// Argument templates
// ---------------------------------------------------------------------------

/// An optional number, zero where there is none.
pub open spec fn or_zero(n: Option<u32>) -> u32 {
    match n {
        Some(x) => x,
        None => 0,
    }
}

/// An optional text, empty where there is none.
pub open spec fn or_empty(s: Option<Seq<char>>) -> Seq<char> {
    match s {
        Some(x) => x,
        None => Seq::empty(),
    }
}

/// `s` with `mark` replaced by the number, where there is one.
pub open spec fn fill_number(s: Seq<char>, mark: Seq<char>, n: Option<u32>) -> Seq<char> {
    match n {
        Some(x) => text::replaced(s, mark, text::dec(x as nat)),
        None => s,
    }
}

/// `s` with `mark` replaced by the text, where there is one.
pub open spec fn fill_text(s: Seq<char>, mark: Seq<char>, w: Option<Seq<char>>) -> Seq<char> {
    match w {
        Some(x) => text::replaced(s, mark, x),
        None => s,
    }
}

/// A list of numbers as a structured value.
pub open spec fn number_list(v: Seq<u32>) -> JsonV {
    JsonV::List(Seq::new(v.len(), |i: int| JsonV::Uint(v[i] as u64)))
}

/// The value of a template text. A text that is one mark alone takes the
/// value's own type; marks inside a longer text are written out.
pub open spec fn rendered_text(s: Seq<char>, vars: VarsV) -> JsonV {
    if s == "{{project}}"@ {
        JsonV::Text(vars.project)
    } else if s == "{{chapter}}"@ {
        JsonV::Uint(or_zero(vars.chapter) as u64)
    } else if s == "{{suggest_chapter}}"@ {
        JsonV::Uint(or_zero(vars.suggest_chapter) as u64)
    } else if s == "{{next_chapter}}"@ {
        JsonV::Uint(or_zero(vars.next_chapter) as u64)
    } else if s == "{{volume}}"@ {
        JsonV::Uint(or_zero(vars.volume) as u64)
    } else if s == "{{chapters}}"@ {
        number_list(
            match vars.chapters {
                Some(v) => v,
                None => Seq::empty(),
            },
        )
    } else if s == "{{instructions}}"@ {
        JsonV::Text(or_empty(vars.instructions))
    } else if s == "{{title}}"@ {
        JsonV::Text(or_empty(vars.title))
    } else {
        let a = text::replaced(s, "{{project}}"@, vars.project);
        let b = fill_number(a, "{{chapter}}"@, vars.chapter);
        let c = fill_number(b, "{{suggest_chapter}}"@, vars.suggest_chapter);
        let d = fill_number(c, "{{next_chapter}}"@, vars.next_chapter);
        let e = fill_number(d, "{{volume}}"@, vars.volume);
        let f = fill_text(e, "{{instructions}}"@, vars.instructions);
        JsonV::Text(fill_text(f, "{{title}}"@, vars.title))
    }
}

/// The value of an argument template.
pub open spec fn rendered(t: JsonV, vars: VarsV) -> JsonV
    decreases t,
{
    match t {
        JsonV::Text(s) => rendered_text(s, vars),
        JsonV::List(v) => JsonV::List(
            Seq::new(
                v.len(),
                |i: int|
                    if 0 <= i < v.len() {
                        rendered(v[i], vars)
                    } else {
                        JsonV::Null
                    },
            ),
        ),
        JsonV::Object(m) => JsonV::Object(
            Seq::new(
                m.len(),
                |i: int|
                    if 0 <= i < m.len() {
                        (m[i].0, rendered(m[i].1, vars))
                    } else {
                        (Seq::<char>::empty(), JsonV::Null)
                    },
            ),
        ),
        other => other,
    }
}

fn put_number(s: String, mark: &str, n: Option<u32>) -> (r: String)
    requires
        mark@.len() > 0,
    ensures
        r@ == fill_number(s@, mark@, n),
{
    match n {
        Some(x) => {
            let w = text::number(x as u64);
            text::replace(s.as_str(), mark, w.as_str())
        },
        None => s,
    }
}

fn put_text(s: String, mark: &str, w: &Option<String>) -> (r: String)
    requires
        mark@.len() > 0,
    ensures
        r@ == fill_text(s@, mark@, text::opt_text(*w)),
{
    match w {
        Some(x) => text::replace(s.as_str(), mark, x.as_str()),
        None => s,
    }
}

fn numbers_value(v: &Vec<u32>) -> (r: Json)
    ensures
        r@ == number_list(v@),
{
    let mut out: Vec<Json> = Vec::new();
    let mut i: usize = 0;
    while i < v.len()
        invariant
            i <= v.len(),
            out.len() == i,
            forall|j: int| 0 <= j < i ==> (#[trigger] out@[j])@ == JsonV::Uint(v@[j] as u64),
        decreases v.len() - i,
    {
        out.push(Json::Uint(v[i] as u64));
        i = i + 1;
    }
    proof {
        json::list_view(out);
        assert(json::items(out@) =~= number_list(v@)->List_0);
    }
    Json::List(out)
}

fn text_or_empty(o: &Option<String>) -> (r: String)
    ensures
        r@ == or_empty(text::opt_text(*o)),
{
    match o {
        Some(s) => s.clone(),
        None => String::new(),
    }
}

fn number_or_zero(n: Option<u32>) -> (r: u64)
    ensures
        r == or_zero(n) as u64,
{
    match n {
        Some(x) => x as u64,
        None => 0,
    }
}

/// The value of a template text.
pub fn render_string_value(s: &str, vars: &TemplateVars) -> (r: Json)
    ensures
        r@ == rendered_text(s@, vars@),
{
    if text::same(s, "{{project}}") {
        Json::Text(vars.project.clone())
    } else if text::same(s, "{{chapter}}") {
        Json::Uint(number_or_zero(vars.chapter))
    } else if text::same(s, "{{suggest_chapter}}") {
        Json::Uint(number_or_zero(vars.suggest_chapter))
    } else if text::same(s, "{{next_chapter}}") {
        Json::Uint(number_or_zero(vars.next_chapter))
    } else if text::same(s, "{{volume}}") {
        Json::Uint(number_or_zero(vars.volume))
    } else if text::same(s, "{{chapters}}") {
        match &vars.chapters {
            Some(v) => numbers_value(v),
            None => {
                let none: Vec<u32> = Vec::new();
                numbers_value(&none)
            },
        }
    } else if text::same(s, "{{instructions}}") {
        Json::Text(text_or_empty(&vars.instructions))
    } else if text::same(s, "{{title}}") {
        Json::Text(text_or_empty(&vars.title))
    } else {
        proof {
            reveal_strlit("{{project}}");
            reveal_strlit("{{chapter}}");
            reveal_strlit("{{suggest_chapter}}");
            reveal_strlit("{{next_chapter}}");
            reveal_strlit("{{volume}}");
            reveal_strlit("{{instructions}}");
            reveal_strlit("{{title}}");
        }
        let a = text::replace(s, "{{project}}", vars.project.as_str());
        let b = put_number(a, "{{chapter}}", vars.chapter);
        let c = put_number(b, "{{suggest_chapter}}", vars.suggest_chapter);
        let d = put_number(c, "{{next_chapter}}", vars.next_chapter);
        let e = put_number(d, "{{volume}}", vars.volume);
        let f = put_text(e, "{{instructions}}", &vars.instructions);
        Json::Text(put_text(f, "{{title}}", &vars.title))
    }
}

/// The value of an argument template.
pub fn render_args(template: &Json, vars: &TemplateVars) -> (r: Json)
    ensures
        r@ == rendered(template@, vars@),
    decreases template,
{
    match template {
        Json::Text(s) => render_string_value(s.as_str(), vars),
        Json::List(v) => {
            let mut out: Vec<Json> = Vec::new();
            let mut i: usize = 0;
            while i < v.len()
                invariant
                    i <= v.len(),
                    out.len() == i,
                    *template == Json::List(*v),
                    forall|j: int|
                        0 <= j < i ==> (#[trigger] out@[j])@ == rendered(v@[j]@, vars@),
                decreases v.len() - i,
            {
                assert(decreases_to!(template => template->List_0@[i as int]));
                let x = render_args(&v[i], vars);
                out.push(x);
                i = i + 1;
            }
            proof {
                json::list_view(out);
                json::list_view(*v);
                assert(json::items(out@) =~= rendered(template@, vars@)->List_0);
            }
            Json::List(out)
        },
        Json::Object(v) => {
            let mut out: Vec<(String, Json)> = Vec::new();
            let mut i: usize = 0;
            while i < v.len()
                invariant
                    i <= v.len(),
                    out.len() == i,
                    *template == Json::Object(*v),
                    forall|j: int|
                        0 <= j < i ==> (#[trigger] out@[j]).0@ == v@[j].0@ && out@[j].1@
                            == rendered(v@[j].1@, vars@),
                decreases v.len() - i,
            {
                assert(decreases_to!(template => template->Object_0@[i as int].1));
                let x = render_args(&v[i].1, vars);
                let k = v[i].0.clone();
                out.push((k, x));
                i = i + 1;
            }
            proof {
                json::object_view(out);
                json::object_view(*v);
                assert(json::entries(out@) =~= rendered(template@, vars@)->Object_0);
            }
            Json::Object(out)
        },
        other => other.copy(),
    }
}

// ---------------------------------------------------------------------------
// The catalog
// ---------------------------------------------------------------------------

/// All gates by name.
pub struct GateCatalog {
    pub gates: Vec<GateSpec>,
}

impl View for GateCatalog {
    type V = Seq<GateV>;

    open spec fn view(&self) -> Seq<GateV> {
        Seq::new(self.gates@.len(), |i: int| self.gates@[i]@)
    }
}

/// No two gates share a name.
pub open spec fn names_differ(c: Seq<GateV>) -> bool {
    forall|i: int, j: int| 0 <= i < j < c.len() ==> #[trigger] c[i].name != #[trigger] c[j].name
}

/// The first gate with the name, at or after position `i`.
pub open spec fn gate_from(c: Seq<GateV>, name: Seq<char>, i: int) -> Option<int>
    decreases c.len() - i,
{
    if i < 0 || i >= c.len() {
        None
    } else if c[i].name == name {
        Some(i)
    } else {
        gate_from(c, name, i + 1)
    }
}

/// The position that a name is found at holds that name, and no earlier one does.
pub proof fn gate_from_is_first(c: Seq<GateV>, name: Seq<char>, i: int)
    requires
        0 <= i,
    ensures
        match gate_from(c, name, i) {
            Some(k) => i <= k < c.len() && c[k].name == name,
            None => forall|j: int| i <= j < c.len() ==> (#[trigger] c[j]).name != name,
        },
    decreases c.len() - i,
{
    if i < c.len() && c[i].name != name {
        gate_from_is_first(c, name, i + 1);
    }
}

/// The options of the card with the name; none where there is no such card.
pub open spec fn options_of(c: Seq<GateV>, name: Seq<char>) -> Seq<GateOptionV> {
    match gate_from(c, name, 0) {
        Some(k) => c[k].options,
        None => Seq::empty(),
    }
}

/// The buttons of the card with the name.
pub open spec fn shown(c: Seq<GateV>, name: Seq<char>) -> Seq<UserInputOptionV> {
    let o = options_of(c, name);
    Seq::new(o.len(), |i: int| UserInputOptionV { id: o[i].id, label: o[i].label })
}

/// The word names the option: by id, by label, or by one of its aliases.
pub open spec fn named(o: GateOptionV, t: Seq<char>) -> bool {
    o.id == t || o.label == t || o.aliases.contains(t)
}

/// The first option that the word names, at or after position `i`.
pub open spec fn pick_from(opts: Seq<GateOptionV>, t: Seq<char>, i: int) -> Option<int>
    decreases opts.len() - i,
{
    if i < 0 || i >= opts.len() {
        None
    } else if named(opts[i], t) {
        Some(i)
    } else {
        pick_from(opts, t, i + 1)
    }
}

/// The option that a picked position holds is named by the word.
pub proof fn pick_from_is_first(opts: Seq<GateOptionV>, t: Seq<char>, i: int)
    requires
        0 <= i,
    ensures
        match pick_from(opts, t, i) {
            Some(k) => i <= k < opts.len() && named(opts[k], t),
            None => forall|j: int| i <= j < opts.len() ==> !named(#[trigger] opts[j], t),
        },
    decreases opts.len() - i,
{
    if i < opts.len() && !named(opts[i], t) {
        pick_from_is_first(opts, t, i + 1);
    }
}

/// The option of the card that an answer names.
pub open spec fn found(c: Seq<GateV>, gate: Seq<char>, answer: Seq<char>) -> Option<GateOptionV> {
    let o = options_of(c, gate);
    match pick_from(o, text::trimmed(answer), 0) {
        Some(k) => Some(o[k]),
        None => None,
    }
}

/// What choosing the option asks for. A `resolve` word that is not known asks
/// for nothing, and neither does an option without a tool.
pub open spec fn materialized(o: GateOptionV, vars: VarsV) -> Option<GateResolveV> {
    match o.resolve {
        Some(w) => if w == "skip_volume"@ {
            Some(GateResolveV::SkipVolume)
        } else if w == "apply_mutation"@ {
            Some(GateResolveV::ApplyMutation)
        } else if w == "discard_mutation"@ {
            Some(GateResolveV::DiscardMutation)
        } else if w == "sync_impact"@ {
            Some(GateResolveV::SyncImpact)
        } else if w == "skip_impact"@ {
            Some(GateResolveV::SkipImpact)
        } else if w == "activate_plot_write"@ {
            Some(GateResolveV::ActivatePlotWrite)
        } else if w == "dismiss_gate"@ {
            Some(GateResolveV::DismissGate)
        } else {
            None
        },
        None => match o.tool {
            Some(name) => Some(
                GateResolveV::Tool {
                    name,
                    args: rendered(
                        match o.args {
                            Some(a) => a,
                            None => JsonV::empty_object(),
                        },
                        vars,
                    ),
                },
            ),
            None => None,
        },
    }
}

/// What an answer to the card asks for.
pub open spec fn resolved(
    c: Seq<GateV>,
    gate: Seq<char>,
    answer: Seq<char>,
    vars: VarsV,
) -> Option<GateResolveV> {
    match found(c, gate, answer) {
        Some(o) => materialized(o, vars),
        None => None,
    }
}

/// The number that an answer of one or two digits writes, if it is not zero.
pub open spec fn one_based(answer: Seq<char>) -> Option<nat> {
    let t = text::trimmed(answer);
    if 1 <= t.len() <= 2 && text::all_digits(t) && text::digits_value(t) >= 1 {
        Some(text::digits_value(t))
    } else {
        None
    }
}

/// The id of the button that an answer numbers, counting from one.
pub open spec fn numbered_id(buttons: Seq<UserInputOptionV>, answer: Seq<char>) -> Option<Seq<char>> {
    match one_based(answer) {
        Some(n) => if n <= buttons.len() {
            Some(buttons[n - 1].id)
        } else {
            None
        },
        None => None,
    }
}

/// What an answer asks for on a card that shows `buttons`: first as a word,
/// then as the number of a button.
pub open spec fn resolved_visible(
    c: Seq<GateV>,
    gate: Seq<char>,
    buttons: Seq<UserInputOptionV>,
    answer: Seq<char>,
    vars: VarsV,
) -> Option<GateResolveV> {
    match resolved(c, gate, answer, vars) {
        Some(r) => Some(r),
        None => match numbered_id(buttons, answer) {
            Some(id) => resolved(c, gate, id, vars),
            None => None,
        },
    }
}

/// The buttons with one of two ids, in order.
pub open spec fn only_ids(
    v: Seq<UserInputOptionV>,
    a: Seq<char>,
    b: Seq<char>,
) -> Seq<UserInputOptionV>
    decreases v.len(),
{
    if v.len() == 0 {
        Seq::empty()
    } else {
        let rest = only_ids(v.drop_last(), a, b);
        if v.last().id == a || v.last().id == b {
            rest.push(v.last())
        } else {
            rest
        }
    }
}

/// The buttons after a chapter: a published chapter continues, a blocked one is
/// revised, and both are offered where the plot's closing is still open.
pub open spec fn chapter_next_buttons(
    c: Seq<GateV>,
    published: bool,
    plot_accept_open: bool,
) -> Seq<UserInputOptionV> {
    let all = shown(c, "chapter_next"@);
    if published && plot_accept_open {
        only_ids(all, "cn_continue"@, "cn_revise"@)
    } else if published {
        only_ids(all, "cn_continue"@, "cn_continue"@)
    } else {
        only_ids(all, "cn_revise"@, "cn_revise"@)
    }
}

/// The buttons with `mark` in their labels replaced.
pub open spec fn relabelled(
    v: Seq<UserInputOptionV>,
    mark: Seq<char>,
    w: Seq<char>,
) -> Seq<UserInputOptionV> {
    Seq::new(
        v.len(),
        |i: int| UserInputOptionV { id: v[i].id, label: text::replaced(v[i].label, mark, w) },
    )
}

/// Some option of some gate is named by the word.
pub open spec fn known(c: Seq<GateV>, t: Seq<char>) -> bool {
    exists|g: int, o: int|
        0 <= g < c.len() && 0 <= o < c[g].options.len() && named(
            #[trigger] c[g].options[o],
            t,
        )
}

/// The `choice` argument of an option.
pub open spec fn choice_of(o: GateOptionV) -> Option<Seq<char>> {
    match o.args {
        Some(a) => a.text("choice"@),
        None => None,
    }
}

/// The option steers a run with the choice.
pub open spec fn steers(o: GateOptionV, choice: Seq<char>) -> bool {
    o.tool == Some("steer_run"@) && choice_of(o) == Some(choice)
}

/// Some option of the card steers with the choice and is named by the word.
pub open spec fn gate_steers(
    c: Seq<GateV>,
    gate: Seq<char>,
    choice: Seq<char>,
    t: Seq<char>,
) -> bool {
    exists|i: int|
        0 <= i < options_of(c, gate).len() && steers(#[trigger] options_of(c, gate)[i], choice)
            && named(options_of(c, gate)[i], t)
}

/// The word is a steering choice of the audit gates.
pub open spec fn steer_word(c: Seq<GateV>, answer: Seq<char>, choice: Seq<char>) -> bool {
    let t = text::trimmed(answer);
    t.len() > 0 && (gate_steers(c, "audit"@, choice, t) || gate_steers(
        c,
        "audit_queue"@,
        choice,
        t,
    ))
}

/// Some option of the card that neither revises nor, outside `audit_infra`,
/// accepts is named by the word.
pub open spec fn gate_stale(c: Seq<GateV>, gate: Seq<char>, t: Seq<char>) -> bool {
    exists|i: int|
        0 <= i < options_of(c, gate).len() && named(#[trigger] options_of(c, gate)[i], t)
            && !steers(options_of(c, gate)[i], "revise"@) && !(gate != "audit_infra"@ && steers(
            options_of(c, gate)[i],
            "accept"@,
        ))
}

/// A bare number of one or two digits.
pub open spec fn short_number(t: Seq<char>) -> bool {
    t.len() <= 2 && text::all_digits(t)
}

/// The word only makes sense while a queue, volume-audit or infra gate is open.
pub open spec fn stale_word(c: Seq<GateV>, answer: Seq<char>) -> bool {
    let t = text::trimmed(answer);
    t.len() > 0 && !short_number(t) && (gate_stale(c, "audit_queue"@, t) || gate_stale(
        c,
        "volume_audit"@,
        t,
    ) || gate_stale(c, "audit_infra"@, t))
}

/// Free text that asks for work on a chapter rather than for a change in it.
pub open spec fn chapter_request(t: Seq<char>) -> bool {
    text::occurs(t, "章"@) && (text::occurs(t, "审校"@) || text::occurs(t, "修正"@)
        || text::occurs(t, "扩写"@) || text::occurs(t, "重写"@) || text::occurs(t, "续写"@)
        || text::occurs(t, "写第"@))
}

/// The card that an audit opens.
pub open spec fn audit_gate_name(queue_active: bool, infra: bool) -> Seq<char> {
    if infra {
        "audit_infra"@
    } else if queue_active {
        "audit_queue"@
    } else {
        "audit"@
    }
}

/// What an answer to an audit gate asks for: an option, or else free-text
/// instructions, which an infra gate never takes.
pub open spec fn resolved_audit(
    c: Seq<GateV>,
    answer: Seq<char>,
    project: Seq<char>,
    chapter: u32,
    queue_active: bool,
    infra: bool,
) -> Option<GateResolveV> {
    let vars = VarsV { chapter: Some(chapter), ..VarsV::of_project(project) };
    let t = text::trimmed(answer);
    match found(c, audit_gate_name(queue_active, infra), answer) {
        Some(o) => materialized(o, vars),
        None => if infra || t.len() < 4 || known(c, t) || chapter_request(t) {
            None
        } else {
            Some(GateResolveV::SteerInstructions { instructions: t })
        },
    }
}

/// The card of a handoff phase.
pub open spec fn handoff_gate(phase: Seq<char>) -> Option<Seq<char>> {
    if phase == "awaiting_next_arc"@ {
        Some("volume_handoff_arc"@)
    } else if phase == "awaiting_next_plot"@ {
        Some("volume_handoff_plot"@)
    } else {
        None
    }
}

impl UserInputOption {
    /// A copy of the button.
    pub fn copy(&self) -> (r: UserInputOption)
        ensures
            r@ == self@,
    {
        UserInputOption { id: self.id.clone(), label: self.label.clone() }
    }
}

impl GateOptionSpec {
    /// Whether the word names the option.
    pub fn is_named(&self, t: &str) -> (r: bool)
        ensures
            r == named(self@, t@),
    {
        if text::same(self.id.as_str(), t) || text::same(self.label.as_str(), t) {
            return true;
        }
        let mut i: usize = 0;
        while i < self.aliases.len()
            invariant
                i <= self.aliases.len(),
                forall|j: int| 0 <= j < i ==> (#[trigger] self.aliases@[j])@ != t@,
            decreases self.aliases.len() - i,
        {
            if text::same(self.aliases[i].as_str(), t) {
                assert(self@.aliases[i as int] == t@);
                return true;
            }
            i = i + 1;
        }
        assert(!self@.aliases.contains(t@)) by {
            if self@.aliases.contains(t@) {
                let j = choose|j: int| 0 <= j < self@.aliases.len() && self@.aliases[j] == t@;
                assert(self.aliases@[j]@ == t@);
            }
        }
        false
    }

    /// Whether the option steers a run with the choice.
    pub fn is_steering(&self, choice: &str) -> (r: bool)
        ensures
            r == steers(self@, choice@),
    {
        let tool_ok = match &self.tool {
            Some(w) => text::same(w.as_str(), "steer_run"),
            None => false,
        };
        let choice_ok = match &self.args {
            Some(a) => match a.get_str("choice") {
                Some(c) => text::same(c, choice),
                None => false,
            },
            None => false,
        };
        tool_ok && choice_ok
    }
}

/// The number that an answer of one or two digits writes, if it is not zero.
pub fn parse_one_based_index(answer: &str) -> (r: Option<usize>)
    ensures
        match r {
            Some(n) => one_based(answer@) == Some(n as nat),
            None => one_based(answer@) is None,
        },
{
    let t = text::trim(answer);
    let v = text::to_chars(t);
    if v.len() == 0 || v.len() > 2 || !text::only_digits(t) {
        return None;
    }
    let (n, e) = text::read_number(&v, 0);
    proof {
        reveal_with_fuel(text::digits_end, 3);
        reveal_with_fuel(text::digits_value, 3);
        assert(t@.subrange(0, t@.len() as int) =~= t@);
        if v.len() == 1 {
            assert(is_digit_row(t@, 1));
            assert(t@.drop_last() =~= Seq::<char>::empty());
        } else {
            assert(is_digit_row(t@, 2));
            assert(t@.drop_last().drop_last() =~= Seq::<char>::empty());
        }
    }
    if n >= 1 {
        Some(n as usize)
    } else {
        None
    }
}

/// The first `n` characters are digits.
spec fn is_digit_row(t: Seq<char>, n: int) -> bool {
    forall|i: int| 0 <= i < n ==> text::is_digit(#[trigger] t[i])
}

/// The id of the button that an answer numbers.
fn visible_id(buttons_shown: &Vec<UserInputOption>, answer: &str) -> (r: Option<String>)
    ensures
        text::opt_text(r) == numbered_id(buttons(buttons_shown@), answer@),
{
    match parse_one_based_index(answer) {
        Some(n) => if n <= buttons_shown.len() {
            Some(buttons_shown[n - 1].id.clone())
        } else {
            None
        },
        None => None,
    }
}

impl GateCatalog {
    /// The catalog without gates.
    pub fn empty() -> (r: GateCatalog)
        ensures
            r@ == Seq::<GateV>::empty(),
            names_differ(r@),
    {
        let r = GateCatalog { gates: Vec::new() };
        assert(r@ =~= Seq::<GateV>::empty());
        r
    }

    /// Puts a gate into the catalog, in place of one with the same name.
    pub fn insert(&mut self, gate: GateSpec)
        requires
            names_differ(old(self)@),
        ensures
            names_differ(final(self)@),
            final(self)@ == match gate_from(old(self)@, gate@.name, 0) {
                Some(k) => old(self)@.update(k, gate@),
                None => old(self)@.push(gate@),
            },
    {
        let ghost c = self@;
        let ghost g = gate@;
        proof {
            gate_from_is_first(c, g.name, 0);
        }
        match self.position(gate.name.as_str()) {
            Some(k) => {
                self.gates.set(k, gate);
                assert(self@ =~= c.update(k as int, g));
            },
            None => {
                self.gates.push(gate);
                assert(self@ =~= c.push(g));
            },
        }
    }

    /// The position of the card with the name.
    fn position(&self, name: &str) -> (r: Option<usize>)
        ensures
            match r {
                Some(k) => gate_from(self@, name@, 0) == Some(k as int) && k < self.gates@.len(),
                None => gate_from(self@, name@, 0) is None,
            },
    {
        let mut i: usize = 0;
        while i < self.gates.len()
            invariant
                i <= self.gates.len(),
                gate_from(self@, name@, 0) == gate_from(self@, name@, i as int),
            decreases self.gates.len() - i,
        {
            if text::same(self.gates[i].name.as_str(), name) {
                return Some(i);
            }
            i = i + 1;
        }
        None
    }

    /// The buttons of the card with the name; none where there is no such card.
    pub fn options(&self, gate: &str) -> (r: Vec<UserInputOption>)
        ensures
            buttons(r@) == shown(self@, gate@),
    {
        let mut out: Vec<UserInputOption> = Vec::new();
        match self.position(gate) {
            Some(k) => {
                let opts = &self.gates[k].options;
                let mut i: usize = 0;
                while i < opts.len()
                    invariant
                        i <= opts.len(),
                        out.len() == i,
                        forall|j: int|
                            0 <= j < i ==> (#[trigger] out@[j]).id@ == opts@[j].id@
                                && out@[j].label@ == opts@[j].label@,
                    decreases opts.len() - i,
                {
                    out.push(
                        UserInputOption { id: opts[i].id.clone(), label: opts[i].label.clone() },
                    );
                    i = i + 1;
                }
            },
            None => {},
        }
        assert(buttons(out@) =~= shown(self@, gate@));
        out
    }

    /// The buttons after a chapter was written or audited.
    pub fn chapter_next_options(&self, published: bool, plot_accept_open: bool) -> (r: Vec<
        UserInputOption,
    >)
        ensures
            buttons(r@) == chapter_next_buttons(self@, published, plot_accept_open),
    {
        let all = self.options("chapter_next");
        let first = if published {
            "cn_continue"
        } else {
            "cn_revise"
        };
        let second = if published && !plot_accept_open {
            "cn_continue"
        } else {
            "cn_revise"
        };
        let mut out: Vec<UserInputOption> = Vec::new();
        let ghost every = buttons(all@);
        let mut i: usize = 0;
        assert(buttons(out@) =~= only_ids(every.take(0), first@, second@));
        while i < all.len()
            invariant
                i <= all.len(),
                every == buttons(all@),
                buttons(out@) == only_ids(every.take(i as int), first@, second@),
            decreases all.len() - i,
        {
            let ghost done = buttons(out@);
            proof {
                assert(every.take(i + 1).drop_last() =~= every.take(i as int));
                assert(every.take(i + 1).last() == every[i as int]);
            }
            if text::same(all[i].id.as_str(), first) || text::same(all[i].id.as_str(), second) {
                out.push(all[i].copy());
                assert(buttons(out@) =~= done.push(all@[i as int]@));
            }
            i = i + 1;
        }
        assert(every.take(i as int) =~= every);
        out
    }

    /// Whether the word names some option of some gate.
    pub fn is_known_token(&self, answer: &str) -> (r: bool)
        ensures
            r == (text::trimmed(answer@).len() > 0 && known(self@, text::trimmed(answer@))),
    {
        let t = text::trim(answer);
        if t.is_empty() {
            return false;
        }
        let mut g: usize = 0;
        while g < self.gates.len()
            invariant
                g <= self.gates.len(),
                t@ == text::trimmed(answer@),
                t@.len() > 0,
                forall|i: int, o: int|
                    0 <= i < g && 0 <= o < self@[i].options.len() ==> !named(
                        #[trigger] self@[i].options[o],
                        t@,
                    ),
            decreases self.gates.len() - g,
        {
            let opts = &self.gates[g].options;
            let mut o: usize = 0;
            while o < opts.len()
                invariant
                    o <= opts.len(),
                    g < self.gates.len(),
                    *opts == self.gates@[g as int].options,
                    t@ == text::trimmed(answer@),
                    t@.len() > 0,
                    forall|j: int| 0 <= j < o ==> !named(#[trigger] opts@[j]@, t@),
                decreases opts.len() - o,
            {
                if opts[o].is_named(t) {
                    assert(named(self@[g as int].options[o as int], t@));
                    return true;
                }
                o = o + 1;
            }
            assert forall|i: int, o: int|
                0 <= i < g + 1 && 0 <= o < self@[i].options.len() implies !named(
                #[trigger] self@[i].options[o],
                t@,
            ) by {
                if i == g {
                    assert(self@[i].options[o] == opts@[o]@);
                }
            }
            g = g + 1;
        }
        false
    }

    /// Whether some option of the card is a stale choice named by the word.
    fn is_gate_stale(&self, gate: &str, t: &str) -> (r: bool)
        ensures
            r == gate_stale(self@, gate@, t@),
    {
        match self.position(gate) {
            Some(k) => {
                let opts = &self.gates[k].options;
                let infra = text::same(gate, "audit_infra");
                let mut i: usize = 0;
                while i < opts.len()
                    invariant
                        i <= opts.len(),
                        option_list(opts@) == options_of(self@, gate@),
                        infra == (gate@ == "audit_infra"@),
                        forall|j: int|
                            0 <= j < i ==> !(named(#[trigger] opts@[j]@, t@) && !steers(
                                opts@[j]@,
                                "revise"@,
                            ) && !(gate@ != "audit_infra"@ && steers(opts@[j]@, "accept"@))),
                    decreases opts.len() - i,
                {
                    let skip = opts[i].is_steering("revise") || (!infra && opts[i].is_steering(
                        "accept",
                    ));
                    if !skip && opts[i].is_named(t) {
                        assert(options_of(self@, gate@)[i as int] == opts@[i as int]@);
                        return true;
                    }
                    i = i + 1;
                }
                assert(!gate_stale(self@, gate@, t@)) by {
                    assert forall|j: int| 0 <= j < options_of(self@, gate@).len() implies !(named(
                        #[trigger] options_of(self@, gate@)[j],
                        t@,
                    ) && !steers(options_of(self@, gate@)[j], "revise"@) && !(gate@
                        != "audit_infra"@ && steers(options_of(self@, gate@)[j], "accept"@))) by {
                        assert(options_of(self@, gate@)[j] == opts@[j]@);
                    }
                }
                false
            },
            None => false,
        }
    }

    /// Whether the word only makes sense while a queue, volume-audit or infra
    /// gate is open. A bare number never does: other menus number their options
    /// too. Neither does revising or, outside the infra gate, accepting.
    pub fn is_stale_audit_choice_token(&self, answer: &str) -> (r: bool)
        ensures
            r == stale_word(self@, answer@),
    {
        let t = text::trim(answer);
        if t.is_empty() {
            return false;
        }
        if t.unicode_len() <= 2 && text::only_digits(t) {
            return false;
        }
        self.is_gate_stale("audit_queue", t) || self.is_gate_stale("volume_audit", t)
            || self.is_gate_stale("audit_infra", t)
    }

    /// Whether the word asks to revise by the audit; valid with no gate open.
    pub fn is_audit_revise_choice(&self, answer: &str) -> (r: bool)
        ensures
            r == steer_word(self@, answer@, "revise"@),
    {
        self.option_matches_steer_choice(answer, "revise")
    }

    /// Whether the word accepts the audit's issues.
    pub fn is_audit_accept_choice(&self, answer: &str) -> (r: bool)
        ensures
            r == steer_word(self@, answer@, "accept"@),
    {
        self.option_matches_steer_choice(answer, "accept")
    }

    fn gate_has_steering(&self, gate: &str, choice: &str, t: &str) -> (r: bool)
        ensures
            r == gate_steers(self@, gate@, choice@, t@),
    {
        match self.position(gate) {
            Some(k) => {
                let opts = &self.gates[k].options;
                let mut i: usize = 0;
                while i < opts.len()
                    invariant
                        i <= opts.len(),
                        option_list(opts@) == options_of(self@, gate@),
                        forall|j: int|
                            0 <= j < i ==> !(steers(#[trigger] opts@[j]@, choice@) && named(
                                opts@[j]@,
                                t@,
                            )),
                    decreases opts.len() - i,
                {
                    if opts[i].is_steering(choice) && opts[i].is_named(t) {
                        assert(options_of(self@, gate@)[i as int] == opts@[i as int]@);
                        return true;
                    }
                    i = i + 1;
                }
                assert(!gate_steers(self@, gate@, choice@, t@)) by {
                    assert forall|j: int| 0 <= j < options_of(self@, gate@).len() implies !(steers(
                        #[trigger] options_of(self@, gate@)[j],
                        choice@,
                    ) && named(options_of(self@, gate@)[j], t@)) by {
                        assert(options_of(self@, gate@)[j] == opts@[j]@);
                    }
                }
                false
            },
            None => false,
        }
    }

    fn option_matches_steer_choice(&self, answer: &str, choice: &str) -> (r: bool)
        ensures
            r == steer_word(self@, answer@, choice@),
    {
        let t = text::trim(answer);
        if t.is_empty() {
            return false;
        }
        self.gate_has_steering("audit", choice, t) || self.gate_has_steering(
            "audit_queue",
            choice,
            t,
        )
    }

    /// The option of the card that an answer names.
    fn find_option(&self, gate: &str, answer: &str) -> (r: Option<&GateOptionSpec>)
        ensures
            match r {
                Some(o) => found(self@, gate@, answer@) == Some(o@),
                None => found(self@, gate@, answer@) is None,
            },
    {
        let t = text::trim(answer);
        match self.position(gate) {
            Some(k) => {
                let opts = &self.gates[k].options;
                let ghost all = options_of(self@, gate@);
                let mut i: usize = 0;
                while i < opts.len()
                    invariant
                        i <= opts.len(),
                        all == options_of(self@, gate@),
                        option_list(opts@) == all,
                        t@ == text::trimmed(answer@),
                        pick_from(all, t@, 0) == pick_from(all, t@, i as int),
                    decreases opts.len() - i,
                {
                    assert(all[i as int] == opts@[i as int]@);
                    if opts[i].is_named(t) {
                        return Some(&opts[i]);
                    }
                    i = i + 1;
                }
                None
            },
            None => None,
        }
    }

    /// What choosing the option asks for.
    fn materialize(opt: &GateOptionSpec, vars: &TemplateVars) -> (r: Option<GateResolve>)
        ensures
            opt_resolve(r) == materialized(opt@, vars@),
    {
        match &opt.resolve {
            Some(w) => {
                let w = w.as_str();
                if text::same(w, "skip_volume") {
                    Some(GateResolve::SkipVolume)
                } else if text::same(w, "apply_mutation") {
                    Some(GateResolve::ApplyMutation)
                } else if text::same(w, "discard_mutation") {
                    Some(GateResolve::DiscardMutation)
                } else if text::same(w, "sync_impact") {
                    Some(GateResolve::SyncImpact)
                } else if text::same(w, "skip_impact") {
                    Some(GateResolve::SkipImpact)
                } else if text::same(w, "activate_plot_write") {
                    Some(GateResolve::ActivatePlotWrite)
                } else if text::same(w, "dismiss_gate") {
                    Some(GateResolve::DismissGate)
                } else {
                    None
                }
            },
            None => match &opt.tool {
                Some(name) => {
                    let args = match &opt.args {
                        Some(a) => render_args(a, vars),
                        None => render_args(&Json::object(), vars),
                    };
                    Some(GateResolve::Tool { name: name.clone(), args })
                },
                None => None,
            },
        }
    }

    /// What an answer to the card asks for.
    fn resolve_in(&self, gate: &str, answer: &str, vars: &TemplateVars) -> (r: Option<GateResolve>)
        ensures
            opt_resolve(r) == resolved(self@, gate@, answer@, vars@),
    {
        match self.find_option(gate, answer) {
            Some(o) => Self::materialize(o, vars),
            None => None,
        }
    }

    /// What an answer asks for on a card that shows the given buttons.
    fn resolve_shown(
        &self,
        gate: &str,
        card: &Vec<UserInputOption>,
        answer: &str,
        vars: &TemplateVars,
    ) -> (r: Option<GateResolve>)
        ensures
            opt_resolve(r) == resolved_visible(self@, gate@, buttons(card@), answer@, vars@),
    {
        match self.resolve_in(gate, answer, vars) {
            Some(r) => Some(r),
            None => match visible_id(card, answer) {
                Some(id) => self.resolve_in(gate, id.as_str(), vars),
                None => None,
            },
        }
    }

    /// An answer to the chapter-order gate.
    pub fn resolve_chapter_order(&self, answer: &str, project: &str, next_chapter: u32) -> (r:
        Option<GateResolve>)
        ensures
            opt_resolve(r) == resolved(
                self@,
                "chapter_order"@,
                answer@,
                (VarsV {
                    next_chapter: Some(next_chapter),
                    chapter: Some(next_chapter),
                    ..VarsV::of_project(project@)
                }),
            ),
    {
        let mut vars = TemplateVars::of_project(project);
        vars.next_chapter = Some(next_chapter);
        vars.chapter = Some(next_chapter);
        self.resolve_in("chapter_order", answer, &vars)
    }

    /// An answer to the card of a change that awaits confirmation.
    pub fn resolve_mutation_confirm(&self, answer: &str) -> (r: Option<GateResolve>)
        ensures
            opt_resolve(r) == resolved(
                self@,
                "confirm_mutation"@,
                answer@,
                VarsV::of_project(Seq::empty()),
            ),
    {
        let none = String::new();
        self.resolve_in("confirm_mutation", answer, &TemplateVars::of_project(none.as_str()))
    }

    /// The buttons of the card of a change that awaits confirmation.
    pub fn mutation_confirm_options(&self) -> (r: Vec<UserInputOption>)
        ensures
            buttons(r@) == shown(self@, "confirm_mutation"@),
    {
        self.options("confirm_mutation")
    }

    /// An answer to the card of what an applied change affects.
    pub fn resolve_impact_confirm(&self, answer: &str) -> (r: Option<GateResolve>)
        ensures
            opt_resolve(r) == resolved(
                self@,
                "confirm_impact"@,
                answer@,
                VarsV::of_project(Seq::empty()),
            ),
    {
        let none = String::new();
        self.resolve_in("confirm_impact", answer, &TemplateVars::of_project(none.as_str()))
    }

    /// The buttons of the card of what an applied change affects.
    pub fn impact_confirm_options(&self) -> (r: Vec<UserInputOption>)
        ensures
            buttons(r@) == shown(self@, "confirm_impact"@),
    {
        self.options("confirm_impact")
    }

    /// The card's buttons with `mark` in their labels replaced by `w`.
    fn relabel(&self, gate: &str, mark: &str, w: &str) -> (r: Vec<UserInputOption>)
        requires
            mark@.len() > 0,
        ensures
            buttons(r@) == relabelled(shown(self@, gate@), mark@, w@),
    {
        let all = self.options(gate);
        let mut out: Vec<UserInputOption> = Vec::new();
        let mut i: usize = 0;
        while i < all.len()
            invariant
                i <= all.len(),
                out.len() == i,
                mark@.len() > 0,
                forall|j: int|
                    0 <= j < i ==> (#[trigger] out@[j]).id@ == all@[j].id@ && out@[j].label@
                        == text::replaced(all@[j].label@, mark@, w@),
            decreases all.len() - i,
        {
            let label = text::replace(all[i].label.as_str(), mark, w);
            out.push(UserInputOption { id: all[i].id.clone(), label });
            i = i + 1;
        }
        proof {
            let target = relabelled(shown(self@, gate@), mark@, w@);
            assert forall|j: int| 0 <= j < target.len() implies buttons(out@)[j] == target[j] by {
                assert(buttons(all@)[j] == all@[j]@);
            }
            assert(buttons(out@) =~= target);
        }
        out
    }

    /// The buttons of the chapter-order gate, naming the chapter that is next.
    pub fn chapter_order_options(&self, next_chapter: u32) -> (r: Vec<UserInputOption>)
        ensures
            buttons(r@) == relabelled(
                shown(self@, "chapter_order"@),
                "{{next_chapter}}"@,
                text::dec(next_chapter as nat),
            ),
    {
        proof {
            reveal_strlit("{{next_chapter}}");
        }
        let n = text::number(next_chapter as u64);
        self.relabel("chapter_order", "{{next_chapter}}", n.as_str())
    }

    /// An answer to an audit gate.
    pub fn resolve_audit(
        &self,
        answer: &str,
        project: &str,
        chapter: u32,
        queue_active: bool,
        infra: bool,
    ) -> (r: Option<GateResolve>)
        ensures
            opt_resolve(r) == resolved_audit(
                self@,
                answer@,
                project@,
                chapter,
                queue_active,
                infra,
            ),
    {
        let gate = if infra {
            "audit_infra"
        } else if queue_active {
            "audit_queue"
        } else {
            "audit"
        };
        let mut vars = TemplateVars::of_project(project);
        vars.chapter = Some(chapter);
        match self.find_option(gate, answer) {
            Some(o) => {
                return Self::materialize(o, &vars);
            },
            None => {},
        }
        if infra {
            return None;
        }
        let t = text::trim(answer);
        if t.unicode_len() < 4 {
            return None;
        }
        proof {
            text::trimmed_is_trimmed(answer@);
        }
        if self.is_known_token(t) {
            return None;
        }
        if text::contains(t, "章") && (text::contains(t, "审校") || text::contains(t, "修正")
            || text::contains(t, "扩写") || text::contains(t, "重写") || text::contains(
            t,
            "续写",
        ) || text::contains(t, "写第")) {
            return None;
        }
        Some(GateResolve::SteerInstructions { instructions: t.to_owned() })
    }

    /// An answer to the volume-sync gate.
    pub fn resolve_volume(&self, answer: &str, project: &str, volume: u32) -> (r: Option<
        GateResolve,
    >)
        ensures
            opt_resolve(r) == resolved(
                self@,
                "volume_sync"@,
                answer@,
                (VarsV { volume: Some(volume), ..VarsV::of_project(project@) }),
            ),
    {
        let mut vars = TemplateVars::of_project(project);
        vars.volume = Some(volume);
        self.resolve_in("volume_sync", answer, &vars)
    }

    /// An answer to the volume-sync gate, by word or by number.
    pub fn resolve_volume_visible(&self, answer: &str, project: &str, volume: u32) -> (r: Option<
        GateResolve,
    >)
        ensures
            opt_resolve(r) == resolved_visible(
                self@,
                "volume_sync"@,
                shown(self@, "volume_sync"@),
                answer@,
                (VarsV { volume: Some(volume), ..VarsV::of_project(project@) }),
            ),
    {
        let mut vars = TemplateVars::of_project(project);
        vars.volume = Some(volume);
        self.resolve_shown("volume_sync", &self.options("volume_sync"), answer, &vars)
    }

    /// An answer to the volume-audit gate.
    pub fn resolve_volume_audit(&self, answer: &str, project: &str, chapters: &Vec<u32>) -> (r:
        Option<GateResolve>)
        ensures
            opt_resolve(r) == resolved(
                self@,
                "volume_audit"@,
                answer@,
                (VarsV { chapters: Some(chapters@), ..VarsV::of_project(project@) }),
            ),
    {
        let vars = Self::chapters_vars(project, chapters);
        self.resolve_in("volume_audit", answer, &vars)
    }

    fn chapters_vars(project: &str, chapters: &Vec<u32>) -> (r: TemplateVars)
        ensures
            r@ == (VarsV { chapters: Some(chapters@), ..VarsV::of_project(project@) }),
    {
        let mut vars = TemplateVars::of_project(project);
        let list = chapters.clone();
        assert(list@ =~= chapters@);
        vars.chapters = Some(list);
        vars
    }

    /// An answer to the volume-audit gate, by word or by number.
    pub fn resolve_volume_audit_visible(
        &self,
        answer: &str,
        project: &str,
        chapters: &Vec<u32>,
    ) -> (r: Option<GateResolve>)
        ensures
            opt_resolve(r) == resolved_visible(
                self@,
                "volume_audit"@,
                shown(self@, "volume_audit"@),
                answer@,
                (VarsV { chapters: Some(chapters@), ..VarsV::of_project(project@) }),
            ),
    {
        let vars = Self::chapters_vars(project, chapters);
        self.resolve_shown("volume_audit", &self.options("volume_audit"), answer, &vars)
    }

    /// An answer to the setup-confirmation gate.
    pub fn resolve_setup(&self, answer: &str, project: &str) -> (r: Option<GateResolve>)
        ensures
            opt_resolve(r) == resolved(
                self@,
                "setup_confirm"@,
                answer@,
                VarsV::of_project(project@),
            ),
    {
        self.resolve_setup_progress(answer, project, "setup_confirm")
    }

    /// An answer to one of the setup gates.
    pub fn resolve_setup_progress(&self, answer: &str, project: &str, gate: &str) -> (r: Option<
        GateResolve,
    >)
        ensures
            opt_resolve(r) == resolved(self@, gate@, answer@, VarsV::of_project(project@)),
    {
        self.resolve_in(gate, answer, &TemplateVars::of_project(project))
    }

    /// An answer to one of the setup gates, by word or by number.
    pub fn resolve_setup_progress_visible(&self, answer: &str, project: &str, gate: &str) -> (r:
        Option<GateResolve>)
        ensures
            opt_resolve(r) == resolved_visible(
                self@,
                gate@,
                shown(self@, gate@),
                answer@,
                VarsV::of_project(project@),
            ),
    {
        self.resolve_shown(gate, &self.options(gate), answer, &TemplateVars::of_project(project))
    }

    /// An answer to the setup-confirmation gate, by word or by number.
    pub fn resolve_setup_visible(&self, answer: &str, project: &str) -> (r: Option<GateResolve>)
        ensures
            opt_resolve(r) == resolved_visible(
                self@,
                "setup_confirm"@,
                shown(self@, "setup_confirm"@),
                answer@,
                VarsV::of_project(project@),
            ),
    {
        self.resolve_setup_progress_visible(answer, project, "setup_confirm")
    }

    fn titled_vars(project: &str, volume: Option<u32>, title: &str) -> (r: TemplateVars)
        ensures
            r@ == (VarsV { volume, title: Some(title@), ..VarsV::of_project(project@) }),
    {
        let mut vars = TemplateVars::of_project(project);
        vars.volume = volume;
        vars.title = Some(title.to_owned());
        vars
    }

    /// An answer to the card between two volumes: design the next volume's
    /// outline, or design and activate its first plot card.
    pub fn resolve_volume_handoff(
        &self,
        answer: &str,
        project: &str,
        phase: &str,
        volume: u32,
        title: &str,
    ) -> (r: Option<GateResolve>)
        ensures
            opt_resolve(r) == match handoff_gate(phase@) {
                Some(g) => resolved(
                    self@,
                    g,
                    answer@,
                    (VarsV {
                        volume: Some(volume),
                        title: Some(title@),
                        ..VarsV::of_project(project@)
                    }),
                ),
                None => None,
            },
    {
        let vars = Self::titled_vars(project, Some(volume), title);
        if text::same(phase, "awaiting_next_arc") {
            self.resolve_in("volume_handoff_arc", answer, &vars)
        } else if text::same(phase, "awaiting_next_plot") {
            self.resolve_in("volume_handoff_plot", answer, &vars)
        } else {
            None
        }
    }

    /// An answer to the card between two volumes, by word or by number.
    pub fn resolve_volume_handoff_visible(
        &self,
        answer: &str,
        project: &str,
        phase: &str,
        volume: u32,
        title: &str,
    ) -> (r: Option<GateResolve>)
        ensures
            opt_resolve(r) == match handoff_gate(phase@) {
                Some(g) => resolved_visible(
                    self@,
                    g,
                    shown(self@, g),
                    answer@,
                    (VarsV {
                        volume: Some(volume),
                        title: Some(title@),
                        ..VarsV::of_project(project@)
                    }),
                ),
                None => None,
            },
    {
        let vars = Self::titled_vars(project, Some(volume), title);
        if text::same(phase, "awaiting_next_arc") {
            self.resolve_shown(
                "volume_handoff_arc",
                &self.options("volume_handoff_arc"),
                answer,
                &vars,
            )
        } else if text::same(phase, "awaiting_next_plot") {
            self.resolve_shown(
                "volume_handoff_plot",
                &self.options("volume_handoff_plot"),
                answer,
                &vars,
            )
        } else {
            None
        }
    }

    fn chapter_vars(project: &str, chapter: u32, suggest_chapter: Option<u32>) -> (r: TemplateVars)
        ensures
            r@ == (VarsV {
                chapter: Some(chapter),
                suggest_chapter,
                ..VarsV::of_project(project@)
            }),
    {
        let mut vars = TemplateVars::of_project(project);
        vars.chapter = Some(chapter);
        vars.suggest_chapter = suggest_chapter;
        vars
    }

    /// An answer to the card after a chapter.
    pub fn resolve_chapter_next(&self, answer: &str, project: &str, chapter: u32) -> (r: Option<
        GateResolve,
    >)
        ensures
            opt_resolve(r) == resolved(
                self@,
                "chapter_next"@,
                answer@,
                (VarsV { chapter: Some(chapter), ..VarsV::of_project(project@) }),
            ),
    {
        let vars = Self::chapter_vars(project, chapter, None);
        self.resolve_in("chapter_next", answer, &vars)
    }

    /// An answer to the card after a chapter, by word or by the number of a
    /// button that is shown.
    pub fn resolve_chapter_next_visible(
        &self,
        answer: &str,
        project: &str,
        chapter: u32,
        published: bool,
        plot_accept_open: bool,
    ) -> (r: Option<GateResolve>)
        ensures
            opt_resolve(r) == resolved_visible(
                self@,
                "chapter_next"@,
                chapter_next_buttons(self@, published, plot_accept_open),
                answer@,
                (VarsV { chapter: Some(chapter), ..VarsV::of_project(project@) }),
            ),
    {
        let vars = Self::chapter_vars(project, chapter, None);
        let card = self.chapter_next_options(published, plot_accept_open);
        self.resolve_shown("chapter_next", &card, answer, &vars)
    }

    /// An answer to the card of a chapter that already has a draft.
    pub fn resolve_draft_exists(
        &self,
        answer: &str,
        project: &str,
        chapter: u32,
        suggest_chapter: u32,
    ) -> (r: Option<GateResolve>)
        ensures
            opt_resolve(r) == resolved(
                self@,
                "draft_exists"@,
                answer@,
                (VarsV {
                    chapter: Some(chapter),
                    suggest_chapter: Some(suggest_chapter),
                    ..VarsV::of_project(project@)
                }),
            ),
    {
        let vars = Self::chapter_vars(project, chapter, Some(suggest_chapter));
        self.resolve_in("draft_exists", answer, &vars)
    }

    /// An answer to the card of a chapter that already has a draft, by word or
    /// by number.
    pub fn resolve_draft_exists_visible(
        &self,
        answer: &str,
        project: &str,
        chapter: u32,
        suggest_chapter: u32,
    ) -> (r: Option<GateResolve>)
        ensures
            opt_resolve(r) == resolved_visible(
                self@,
                "draft_exists"@,
                shown(self@, "draft_exists"@),
                answer@,
                (VarsV {
                    chapter: Some(chapter),
                    suggest_chapter: Some(suggest_chapter),
                    ..VarsV::of_project(project@)
                }),
            ),
    {
        let vars = Self::chapter_vars(project, chapter, Some(suggest_chapter));
        self.resolve_shown("draft_exists", &self.options("draft_exists"), answer, &vars)
    }

    /// The buttons of a planned plot card, naming the card.
    pub fn planned_plot_options(&self, title: &str) -> (r: Vec<UserInputOption>)
        ensures
            buttons(r@) == relabelled(shown(self@, "planned_plot"@), "{{title}}"@, title@),
    {
        proof {
            reveal_strlit("{{title}}");
        }
        self.relabel("planned_plot", "{{title}}", title)
    }

    /// An answer to a planned plot card.
    pub fn resolve_planned_plot(&self, answer: &str, project: &str, title: &str) -> (r: Option<
        GateResolve,
    >)
        ensures
            opt_resolve(r) == resolved(
                self@,
                "planned_plot"@,
                answer@,
                (VarsV { title: Some(title@), ..VarsV::of_project(project@) }),
            ),
    {
        let vars = Self::titled_vars(project, None, title);
        self.resolve_in("planned_plot", answer, &vars)
    }

    /// An answer to a planned plot card, by word or by number.
    pub fn resolve_planned_plot_visible(&self, answer: &str, project: &str, title: &str) -> (r:
        Option<GateResolve>)
        ensures
            opt_resolve(r) == resolved_visible(
                self@,
                "planned_plot"@,
                relabelled(shown(self@, "planned_plot"@), "{{title}}"@, title@),
                answer@,
                (VarsV { title: Some(title@), ..VarsV::of_project(project@) }),
            ),
    {
        let vars = Self::titled_vars(project, None, title);
        let card = self.planned_plot_options(title);
        self.resolve_shown("planned_plot", &card, answer, &vars)
    }

    /// The buttons of the card that asks for a plot card.
    pub fn need_plot_options(&self) -> (r: Vec<UserInputOption>)
        ensures
            buttons(r@) == shown(self@, "need_plot"@),
    {
        self.options("need_plot")
    }

    /// An answer to the card that asks for a plot card.
    pub fn resolve_need_plot(&self, answer: &str, project: &str, volume: u32, title: &str) -> (r:
        Option<GateResolve>)
        ensures
            opt_resolve(r) == resolved(
                self@,
                "need_plot"@,
                answer@,
                (VarsV {
                    volume: Some(volume),
                    title: Some(title@),
                    ..VarsV::of_project(project@)
                }),
            ),
    {
        let vars = Self::titled_vars(project, Some(volume), title);
        self.resolve_in("need_plot", answer, &vars)
    }

    /// An answer to the card that asks for a plot card, by word or by number.
    pub fn resolve_need_plot_visible(
        &self,
        answer: &str,
        project: &str,
        volume: u32,
        title: &str,
    ) -> (r: Option<GateResolve>)
        ensures
            opt_resolve(r) == resolved_visible(
                self@,
                "need_plot"@,
                shown(self@, "need_plot"@),
                answer@,
                (VarsV {
                    volume: Some(volume),
                    title: Some(title@),
                    ..VarsV::of_project(project@)
                }),
            ),
    {
        let vars = Self::titled_vars(project, Some(volume), title);
        self.resolve_shown("need_plot", &self.need_plot_options(), answer, &vars)
    }
}

// ---------------------------------------------------------------------------
// Laws
// ---------------------------------------------------------------------------

/// A typed number chooses the button with that number, wherever the number is
/// not itself a word of the card: the answer means what the button's id means.
pub proof fn number_chooses_shown_button(
    c: Seq<GateV>,
    gate: Seq<char>,
    card: Seq<UserInputOptionV>,
    answer: Seq<char>,
    vars: VarsV,
)
    requires
        resolved(c, gate, answer, vars) is None,
        one_based(answer) is Some,
        one_based(answer)->0 <= card.len(),
    ensures
        resolved_visible(c, gate, card, answer, vars) == resolved(
            c,
            gate,
            card[one_based(answer)->0 - 1].id,
            vars,
        ),
{
}

/// An answer that means something as a word never falls back to its number.
pub proof fn word_wins_over_number(
    c: Seq<GateV>,
    gate: Seq<char>,
    card: Seq<UserInputOptionV>,
    answer: Seq<char>,
    vars: VarsV,
)
    requires
        resolved(c, gate, answer, vars) is Some,
    ensures
        resolved_visible(c, gate, card, answer, vars) == resolved(c, gate, answer, vars),
{
}

/// A bare number is never a stale choice.
pub proof fn short_number_is_not_stale(c: Seq<GateV>, answer: Seq<char>)
    requires
        short_number(text::trimmed(answer)),
    ensures
        !stale_word(c, answer),
{
}

/// A stale choice is a word of the catalog.
pub proof fn stale_word_is_known(c: Seq<GateV>, answer: Seq<char>)
    requires
        stale_word(c, answer),
    ensures
        known(c, text::trimmed(answer)),
{
    let t = text::trimmed(answer);
    let gate = if gate_stale(c, "audit_queue"@, t) {
        "audit_queue"@
    } else if gate_stale(c, "volume_audit"@, t) {
        "volume_audit"@
    } else {
        "audit_infra"@
    };
    gate_from_is_first(c, gate, 0);
    let g = gate_from(c, gate, 0)->0;
    let i = choose|i: int|
        0 <= i < options_of(c, gate).len() && named(#[trigger] options_of(c, gate)[i], t)
            && !steers(options_of(c, gate)[i], "revise"@) && !(gate != "audit_infra"@ && steers(
            options_of(c, gate)[i],
            "accept"@,
        ));
    assert(named(c[g].options[i], t));
}

/// An infra gate never turns free text into a revision.
pub proof fn infra_gate_takes_no_free_text(
    c: Seq<GateV>,
    answer: Seq<char>,
    project: Seq<char>,
    chapter: u32,
    queue_active: bool,
)
    ensures
        !(resolved_audit(c, answer, project, chapter, queue_active, true) matches Some(
            GateResolveV::SteerInstructions { .. },
        )),
{
}

/// A word that some gate knows is never taken as free text of an audit.
pub proof fn known_word_is_not_free_text(
    c: Seq<GateV>,
    answer: Seq<char>,
    project: Seq<char>,
    chapter: u32,
    queue_active: bool,
    infra: bool,
)
    requires
        known(c, text::trimmed(answer)),
    ensures
        !(resolved_audit(c, answer, project, chapter, queue_active, infra) matches Some(
            GateResolveV::SteerInstructions { .. },
        )),
{
}

} // verus!
