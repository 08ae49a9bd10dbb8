//! Rules that pick out windows to float.
//!
//! A rule carries an optional title pattern and an optional exact
//! application id. Against a window each predicate evaluates to a tri-state:
//! `Some(true)` (present and satisfied), `Some(false)` (present and
//! violated), or `None` (absent in the rule, or the window lacks the field).
//! The rule matches when the combined tri-states are satisfied: at least one
//! `Some(true)` and no `Some(false)`.

use vstd::prelude::*;
use crate::window::{WindowSnapshot, WindowSpec};

verus! {

/// Whether `regex_lite::Regex::new` accepts a pattern. Acceptance depends on
/// the pattern string alone (syntax and the crate's default size limit).
pub uninterp spec fn pattern_compiles(pattern: Seq<char>) -> bool;

/// Whether a compiled pattern matches anywhere in a text: the result of
/// `regex_lite::Regex::is_match`, a function of pattern and text alone.
pub uninterp spec fn pattern_matches(pattern: Seq<char>, text: Seq<char>) -> bool;

#[verifier::external_type_specification]
#[verifier::external_body]
pub struct ExRegexError(regex_lite::Error);

/// Relies on `regex_lite::Regex::new`: whether a pattern compiles depends on
/// the pattern string alone, so a pattern either always compiles or never
/// does.
#[verifier::external_body]
fn check_pattern(pattern: &str) -> (r: Result<(), regex_lite::Error>)
    ensures
        r is Ok <==> pattern_compiles(pattern@),
{
    regex_lite::Regex::new(pattern).map(|_| ())
}

/// Relies on `regex_lite::Regex::new` and `regex_lite::Regex::is_match`: for
/// a pattern that compiles, whether it matches anywhere in a text is a
/// function of the pattern and the text alone.
#[verifier::external_body]
fn pattern_is_match(pattern: &str, text: &str) -> (r: bool)
    requires
        pattern_compiles(pattern@),
    ensures
        r == pattern_matches(pattern@, text@),
{
    match regex_lite::Regex::new(pattern) {
        Ok(re) => re.is_match(text),
        Err(_) => false,
    }
}

/// The mathematical content of a rule: the title pattern and the application
/// id as character sequences, each optional.
pub ghost struct RuleSpec {
    pub title: Option<Seq<char>>,
    pub app_id: Option<Seq<char>>,
}

/// A sequence of tri-state predicate results is satisfied when at least one
/// is `Some(true)` and none is `Some(false)`. An all-`None` sequence (in
/// particular the empty one) is not satisfied.
pub open spec fn satisfied_spec(s: Seq<Option<bool>>) -> bool {
    &&& exists|i: int| 0 <= i < s.len() && s[i] == Some(true)
    &&& forall|i: int| 0 <= i < s.len() ==> s[i] != Some(false)
}

/// The tri-state of the title predicate: `None` when the rule has no title
/// pattern or the window no title, else whether the pattern matches.
pub open spec fn title_condition_spec(rule: RuleSpec, window: WindowSpec) -> Option<bool> {
    match rule.title {
        None => None,
        Some(pattern) => match window.title {
            None => None,
            Some(title) => Some(pattern_matches(pattern, title)),
        },
    }
}

/// The tri-state of the application-id predicate: `None` when the rule has
/// no app id or the window none, else whether the two are equal.
pub open spec fn app_id_condition_spec(rule: RuleSpec, window: WindowSpec) -> Option<bool> {
    match rule.app_id {
        None => None,
        Some(wanted) => match window.app_id {
            None => None,
            Some(id) => Some(wanted == id),
        },
    }
}

/// A rule matches a window when its two tri-state predicates combine to
/// satisfied.
pub open spec fn rule_matches(rule: RuleSpec, window: WindowSpec) -> bool {
    satisfied_spec(
        seq![title_condition_spec(rule, window), app_id_condition_spec(rule, window)],
    )
}

/// Over two tri-states, satisfaction is exactly: some `Some(true)` and no
/// `Some(false)`.
pub proof fn lemma_satisfied_two(a: Option<bool>, b: Option<bool>)
    ensures
        satisfied_spec(seq![a, b]) <==> ((a == Some(true) || b == Some(true)) && a != Some(
            false,
        ) && b != Some(false)),
{
    let s = seq![a, b];
    assert(s[0] == a && s[1] == b);
    if a == Some(true) || b == Some(true) {
        if a == Some(true) {
            assert(0 <= 0 < s.len() && s[0] == Some(true));
        } else {
            assert(0 <= 1 < s.len() && s[1] == Some(true));
        }
    }
}

/// A rule with only the application id set matches exactly the windows whose
/// application id equals it, whatever their title; a window with a different
/// id, or none, does not match.
pub proof fn lemma_app_id_only_rule(rule: RuleSpec, window: WindowSpec)
    requires
        rule.title is None,
        rule.app_id is Some,
    ensures
        rule_matches(rule, window) <==> window.app_id == rule.app_id,
{
    lemma_satisfied_two(
        title_condition_spec(rule, window),
        app_id_condition_spec(rule, window),
    );
}

/// Only returns `true` when at least one value is `Some(true)` and none is
/// `Some(false)`; an all-`None` or empty list is not satisfied.
pub fn satisfied(conditions: &Vec<Option<bool>>) -> (r: bool)
    ensures
        r == satisfied_spec(conditions@),
{
    let mut any_true = false;
    let mut i: usize = 0;
    while i < conditions.len()
        invariant
            0 <= i <= conditions@.len(),
            any_true == exists|j: int| 0 <= j < i && conditions@[j] == Some(true),
            forall|j: int| 0 <= j < i ==> conditions@[j] != Some(false),
        decreases conditions@.len() - i,
    {
        match conditions[i] {
            Some(true) => {
                any_true = true;
            },
            Some(false) => {
                return false;
            },
            None => {},
        }
        i += 1;
    }
    any_true
}

/// An uncompiled rule, as the configuration states it.
pub struct Rule {
    /// Title of the window.
    pub title: Option<String>,
    /// AppID of the window.
    pub app_id: Option<String>,
}

impl View for Rule {
    type V = RuleSpec;

    open spec fn view(&self) -> RuleSpec {
        RuleSpec { title: self.title.deep_view(), app_id: self.app_id.deep_view() }
    }
}

impl Rule {
    /// A rule from its two optional predicates.
    pub fn new(title: Option<String>, app_id: Option<String>) -> (r: Rule)
        ensures
            r@ == (RuleSpec { title: title.deep_view(), app_id: app_id.deep_view() }),
    {
        Rule { title, app_id }
    }

    /// Compiles the rule: fails exactly when the title pattern is present
    /// and invalid; the compiled rule keeps both predicates unchanged.
    pub fn try_compile(self) -> (r: Result<CompiledRule, regex_lite::Error>)
        ensures
            r is Ok <==> match self@.title {
                Some(pattern) => pattern_compiles(pattern),
                None => true,
            },
            r matches Ok(compiled) ==> compiled@ == self@,
    {
        match self.title {
            Some(pattern) => match check_pattern(pattern.as_str()) {
                Ok(()) => Ok(CompiledRule { title: Some(pattern), app_id: self.app_id }),
                Err(e) => Err(e),
            },
            None => Ok(CompiledRule { title: None, app_id: self.app_id }),
        }
    }
}

/// A rule whose title pattern, if any, is known to compile.
pub struct CompiledRule {
    title: Option<String>,
    app_id: Option<String>,
}

impl View for CompiledRule {
    type V = RuleSpec;

    closed spec fn view(&self) -> RuleSpec {
        RuleSpec { title: self.title.deep_view(), app_id: self.app_id.deep_view() }
    }
}

impl CompiledRule {
    #[verifier::type_invariant]
    spec fn wf(self) -> bool {
        self.title matches Some(pattern) ==> pattern_compiles(pattern@)
    }

    /// Whether this rule matches the window, under the tri-state semantics.
    pub fn matches(&self, window: &WindowSnapshot) -> (r: bool)
        ensures
            r == rule_matches(self@, window@),
    {
        let mut conditions: Vec<Option<bool>> = Vec::new();
        conditions.push(self.title(window));
        conditions.push(self.app_id(window));
        proof {
            assert(conditions@ =~= seq![
                title_condition_spec(self@, window@),
                app_id_condition_spec(self@, window@),
            ]);
        }
        satisfied(&conditions)
    }

    /// The tri-state of the title predicate against the window.
    fn title(&self, window: &WindowSnapshot) -> (r: Option<bool>)
        ensures
            r == title_condition_spec(self@, window@),
    {
        proof {
            use_type_invariant(self);
        }
        match &self.title {
            None => None,
            Some(pattern) => match &window.title {
                None => None,
                Some(title) => Some(pattern_is_match(pattern.as_str(), title.as_str())),
            },
        }
    }

    /// The tri-state of the application-id predicate against the window.
    fn app_id(&self, window: &WindowSnapshot) -> (r: Option<bool>)
        ensures
            r == app_id_condition_spec(self@, window@),
    {
        match &self.app_id {
            None => None,
            Some(wanted) => match &window.app_id {
                None => None,
                Some(id) => Some(String::eq(wanted, id)),
            },
        }
    }
}

/// The ordered list of rules from the configuration.
pub struct Rules {
    inner: Vec<Rule>,
}

impl View for Rules {
    type V = Seq<RuleSpec>;

    closed spec fn view(&self) -> Seq<RuleSpec> {
        self.inner@.map_values(|rule: Rule| rule@)
    }
}

impl Rules {
    /// A rule set from its rules, in order.
    pub fn new(rules: Vec<Rule>) -> (r: Rules)
        ensures
            r@ == rules@.map_values(|rule: Rule| rule@),
    {
        Rules { inner: rules }
    }

    /// The rules, in configuration order.
    pub fn into_iter(self) -> (r: Vec<Rule>)
        ensures
            r@.map_values(|rule: Rule| rule@) == self@,
    {
        self.inner
    }
}

} // verus!
