//! The per-event decision: whether a window needs remediation, given the
//! snapshots observed before the event and the compiled rules.
//!
//! Remediation is decided only for a window-opened-or-changed event, and,
//! when a prior snapshot of the window exists, only when its title or its
//! application id actually changed; the window must then match some rule.

use vstd::prelude::*;
use crate::rules::{CompiledRule, RuleSpec, rule_matches};
use crate::window::{StateTracker, WindowSnapshot, WindowSpec, WmEvent, WmEventSpec};

verus! {

/// Whether some rule of the ordered set matches the window.
pub open spec fn matches_any_spec(rules: Seq<RuleSpec>, window: WindowSpec) -> bool {
    exists|i: int| 0 <= i < rules.len() && rule_matches(rules[i], window)
}

/// The view of a compiled rule list.
pub open spec fn rules_view(rules: Seq<CompiledRule>) -> Seq<RuleSpec> {
    rules.map_values(|rule: CompiledRule| rule@)
}

/// The decision for one event against the pre-event snapshots: the id of the
/// window to remediate, or `None`.
pub open spec fn should_fix_spec(
    event: WmEventSpec,
    state: Map<u64, WindowSpec>,
    rules: Seq<RuleSpec>,
) -> Option<u64> {
    match event {
        WmEventSpec::WindowOpenedOrChanged(window) => {
            if state.contains_key(window.id) && state[window.id].title == window.title
                && state[window.id].app_id == window.app_id {
                None
            } else if matches_any_spec(rules, window) {
                Some(window.id)
            } else {
                None
            }
        },
        _ => None,
    }
}

/// Whether two optional strings hold the same text (or are both absent).
fn opt_string_eq(a: &Option<String>, b: &Option<String>) -> (r: bool)
    ensures
        r == (a.deep_view() == b.deep_view()),
{
    match (a, b) {
        (None, None) => true,
        (Some(x), Some(y)) => String::eq(x, y),
        _ => false,
    }
}

/// Whether any rule matches the window; rules are tried in order and the
/// first match suffices.
pub fn matches_any_rule(rules: &Vec<CompiledRule>, window: &WindowSnapshot) -> (r: bool)
    ensures
        r == matches_any_spec(rules_view(rules@), window@),
{
    let mut i: usize = 0;
    while i < rules.len()
        invariant
            0 <= i <= rules@.len(),
            forall|j: int| 0 <= j < i ==> !rule_matches(rules_view(rules@)[j], window@),
        decreases rules@.len() - i,
    {
        if rules[i].matches(window) {
            proof {
                assert(rule_matches(rules_view(rules@)[i as int], window@));
            }
            return true;
        }
        i += 1;
    }
    false
}

/// The decision for one event: `Some(id)` exactly when the event reports
/// window `id` opened or changed, its title or application id differs from
/// the prior snapshot (or there is none), and some rule matches it.
pub fn should_fix(event: &WmEvent, state: &StateTracker, rules: &Vec<CompiledRule>) -> (r: Option<
    u64,
>)
    ensures
        r == should_fix_spec(event@, state@, rules_view(rules@)),
{
    if let WmEvent::WindowOpenedOrChanged { window } = event {
        if let Some(old) = state.lookup(window.id) {
            let title_changed = !opt_string_eq(&old.title, &window.title);
            let app_id_changed = !opt_string_eq(&old.app_id, &window.app_id);
            if !(title_changed || app_id_changed) {
                return None;
            }
        }
        if matches_any_rule(rules, window) {
            Some(window.id)
        } else {
            None
        }
    } else {
        None
    }
}

/// A window observed for the first time is remediated exactly when some rule
/// matches it.
pub proof fn lemma_first_sighting(
    window: WindowSpec,
    state: Map<u64, WindowSpec>,
    rules: Seq<RuleSpec>,
)
    requires
        !state.contains_key(window.id),
    ensures
        should_fix_spec(WmEventSpec::WindowOpenedOrChanged(window), state, rules) == (
        if matches_any_spec(rules, window) {
            Some(window.id)
        } else {
            None::<u64>
        }),
{
}

/// A window observed again with unchanged title and application id is never
/// remediated, even when it still matches a rule.
pub proof fn lemma_unchanged_window_not_retriggered(
    window: WindowSpec,
    state: Map<u64, WindowSpec>,
    rules: Seq<RuleSpec>,
)
    requires
        state.contains_key(window.id),
        state[window.id].title == window.title,
        state[window.id].app_id == window.app_id,
    ensures
        should_fix_spec(WmEventSpec::WindowOpenedOrChanged(window), state, rules) is None,
{
}

/// A window whose title differs from its prior snapshot is remediated
/// exactly when some rule matches the new snapshot; in particular a title
/// change from non-matching to matching text triggers on the change event.
pub proof fn lemma_title_change_triggers(
    window: WindowSpec,
    state: Map<u64, WindowSpec>,
    rules: Seq<RuleSpec>,
)
    requires
        state.contains_key(window.id),
        state[window.id].title != window.title,
    ensures
        should_fix_spec(WmEventSpec::WindowOpenedOrChanged(window), state, rules) == (
        if matches_any_spec(rules, window) {
            Some(window.id)
        } else {
            None::<u64>
        }),
{
}

/// A window that matches no rule is never remediated, whatever the prior
/// state: no remediation fires before a window's fields match.
pub proof fn lemma_no_match_no_remediation(
    window: WindowSpec,
    state: Map<u64, WindowSpec>,
    rules: Seq<RuleSpec>,
)
    requires
        !matches_any_spec(rules, window),
    ensures
        should_fix_spec(WmEventSpec::WindowOpenedOrChanged(window), state, rules) is None,
{
}

} // verus!
