//! Feature flags of the studio.

use vstd::prelude::*;

use crate::text;

verus! {

/// Named switches.
pub struct FeatureFlags {
    entries: Vec<(String, bool)>,
}

impl View for FeatureFlags {
    type V = Seq<(Seq<char>, bool)>;

    closed spec fn view(&self) -> Seq<(Seq<char>, bool)> {
        switches(self.entries@)
    }
}

/// The contents of a list of switches.
pub open spec fn switches(v: Seq<(String, bool)>) -> Seq<(Seq<char>, bool)> {
    Seq::new(v.len(), |i: int| (v[i].0@, v[i].1))
}

/// The first entry with the key, at or after position `i`.
pub open spec fn switch_from(m: Seq<(Seq<char>, bool)>, key: Seq<char>, i: int) -> Option<bool>
    decreases m.len() - i,
{
    if i < 0 || i >= m.len() {
        None
    } else if m[i].0 == key {
        Some(m[i].1)
    } else {
        switch_from(m, key, i + 1)
    }
}

/// The switch with the key, where it is set.
pub open spec fn switch(m: Seq<(Seq<char>, bool)>, key: Seq<char>) -> Option<bool> {
    switch_from(m, key, 0)
}

/// The switch with the key, or what holds where it is not set.
pub open spec fn switch_or(m: Seq<(Seq<char>, bool)>, key: Seq<char>, unset: bool) -> bool {
    match switch(m, key) {
        Some(b) => b,
        None => unset,
    }
}

/// The switches of a studio that configures none.
pub open spec fn default_switches() -> Seq<(Seq<char>, bool)> {
    seq![
        ("studio.deterministic_intents"@, true),
        ("studio.pause_after_clean_write"@, false),
        ("studio.stream_reasoning"@, true),
        ("studio.clear_history_on_new_chapter"@, true),
        ("studio.auto_reaudit_after_steer"@, true),
        ("studio.reject_weak_ui_turns"@, true),
        ("studio.enforce_setup_gate"@, true),
        ("studio.enforce_volume_phase"@, true),
        ("studio.enforce_chapter_order"@, true),
        ("studio.require_mutation_confirm"@, true),
        ("studio.impact_cascade"@, true),
        ("studio.impact_scan_all_drafts"@, false),
        ("studio.impact_scan_all_on_setting"@, false),
        ("pipeline.longform_lean"@, true),
        ("studio.require_volume_audit_mid"@, true),
        ("studio.require_volume_audit_handoff"@, true),
        ("studio.cold_archive_drafts"@, true),
        ("studio.ops_journal"@, true),
    ]
}

impl FeatureFlags {
    /// The switches that a studio configures; of two with one key the first
    /// counts.
    pub fn from_entries(entries: Vec<(String, bool)>) -> (r: FeatureFlags)
        ensures
            r@ == switches(entries@),
    {
        FeatureFlags { entries }
    }

    /// The switches of a studio that configures none.
    pub fn defaults() -> (r: FeatureFlags)
        ensures
            r@ == default_switches(),
    {
        let names: [(&str, bool); 18] = [
            ("studio.deterministic_intents", true),
            ("studio.pause_after_clean_write", false),
            ("studio.stream_reasoning", true),
            ("studio.clear_history_on_new_chapter", true),
            ("studio.auto_reaudit_after_steer", true),
            ("studio.reject_weak_ui_turns", true),
            ("studio.enforce_setup_gate", true),
            ("studio.enforce_volume_phase", true),
            ("studio.enforce_chapter_order", true),
            ("studio.require_mutation_confirm", true),
            ("studio.impact_cascade", true),
            ("studio.impact_scan_all_drafts", false),
            ("studio.impact_scan_all_on_setting", false),
            ("pipeline.longform_lean", true),
            ("studio.require_volume_audit_mid", true),
            ("studio.require_volume_audit_handoff", true),
            ("studio.cold_archive_drafts", true),
            ("studio.ops_journal", true),
        ];
        let mut entries: Vec<(String, bool)> = Vec::new();
        let mut i: usize = 0;
        while i < 18
            invariant
                i <= 18,
                entries.len() == i,
                forall|j: int|
                    0 <= j < i ==> (#[trigger] entries@[j]).0@ == names@[j].0@ && entries@[j].1
                        == names@[j].1,
            decreases 18 - i,
        {
            entries.push((names[i].0.to_owned(), names[i].1));
            i = i + 1;
        }
        let r = FeatureFlags { entries };
        assert(r@ =~= default_switches());
        r
    }

    /// The switch with the key, where it is set.
    fn get(&self, key: &str) -> (r: Option<bool>)
        ensures
            r == switch(self@, key@),
    {
        let mut i: usize = 0;
        while i < self.entries.len()
            invariant
                i <= self.entries.len(),
                switch(self@, key@) == switch_from(self@, key@, i as int),
            decreases self.entries.len() - i,
        {
            if text::same(self.entries[i].0.as_str(), key) {
                return Some(self.entries[i].1);
            }
            i = i + 1;
        }
        None
    }

    fn get_or(&self, key: &str, unset: bool) -> (r: bool)
        ensures
            r == switch_or(self@, key@, unset),
    {
        match self.get(key) {
            Some(b) => b,
            None => unset,
        }
    }

    /// Whether the switch is set and on.
    pub fn enabled(&self, key: &str) -> (r: bool)
        ensures
            r == switch_or(self@, key@, false),
    {
        self.get_or(key, false)
    }

    /// Whether recognised requests run without asking the model.
    pub fn deterministic_intents(&self) -> (r: bool)
        ensures
            r == switch_or(self@, "studio.deterministic_intents"@, false),
    {
        self.enabled("studio.deterministic_intents")
    }

    /// Whether a clean publish after writing always stops for the author.
    pub fn pause_after_clean_write(&self) -> (r: bool)
        ensures
            r == switch_or(self@, "studio.pause_after_clean_write"@, false),
    {
        self.get_or("studio.pause_after_clean_write", false)
    }

    /// Whether reasoning is streamed; on unless switched off.
    pub fn stream_reasoning(&self) -> (r: bool)
        ensures
            r == switch_or(self@, "studio.stream_reasoning"@, true),
    {
        self.get_or("studio.stream_reasoning", true)
    }

    /// Whether a new chapter starts with a clean chat.
    pub fn clear_history_on_new_chapter(&self) -> (r: bool)
        ensures
            r == switch_or(self@, "studio.clear_history_on_new_chapter"@, false),
    {
        self.enabled("studio.clear_history_on_new_chapter")
    }

    /// Whether a steered revision is audited again by itself.
    pub fn auto_reaudit_after_steer(&self) -> (r: bool)
        ensures
            r == switch_or(self@, "studio.auto_reaudit_after_steer"@, false),
    {
        self.enabled("studio.auto_reaudit_after_steer")
    }

    /// Whether a weaker client timeline is turned away.
    pub fn reject_weak_ui_turns(&self) -> (r: bool)
        ensures
            r == switch_or(self@, "studio.reject_weak_ui_turns"@, false),
    {
        self.enabled("studio.reject_weak_ui_turns")
    }

    /// Whether writing waits for a confirmed setup; on unless switched off.
    pub fn enforce_setup_gate(&self) -> (r: bool)
        ensures
            r == switch_or(self@, "studio.enforce_setup_gate"@, true),
    {
        self.get_or("studio.enforce_setup_gate", true)
    }

    /// Whether volumes follow their phases; on unless switched off.
    pub fn enforce_volume_phase(&self) -> (r: bool)
        ensures
            r == switch_or(self@, "studio.enforce_volume_phase"@, true),
    {
        self.get_or("studio.enforce_volume_phase", true)
    }

    /// Whether changes wait for confirmation; on unless switched off.
    pub fn require_mutation_confirm(&self) -> (r: bool)
        ensures
            r == switch_or(self@, "studio.require_mutation_confirm"@, true),
    {
        self.get_or("studio.require_mutation_confirm", true)
    }

    /// Whether a change looks for what depends on it; on unless switched off.
    pub fn impact_cascade(&self) -> (r: bool)
        ensures
            r == switch_or(self@, "studio.impact_cascade"@, true),
    {
        self.get_or("studio.impact_cascade", true)
    }

    /// Whether chapters are written in order; on unless switched off.
    pub fn enforce_chapter_order(&self) -> (r: bool)
        ensures
            r == switch_or(self@, "studio.enforce_chapter_order"@, true),
    {
        self.get_or("studio.enforce_chapter_order", true)
    }

    /// Whether decisions and runs are journalled; on unless switched off.
    pub fn ops_journal(&self) -> (r: bool)
        ensures
            r == switch_or(self@, "studio.ops_journal"@, true),
    {
        self.get_or("studio.ops_journal", true)
    }
}

} // verus!
