//! Scan and rule configuration.
//!
//! Repository-provided configuration is treated as untrusted data. No option
//! here can enable code execution or network access.
use vstd::prelude::*;

use crate::confidence::Confidence;
use crate::discovery::DiscoveryOptions;
use crate::finding::views;
use crate::order;
use crate::severity::Severity;
use crate::text;

verus! {

/// Rule selection and overrides.
///
/// The override lists map a rule id to a value; each id appears at most once
/// (they are read from a TOML table).
#[derive(Debug, Clone, PartialEq, Eq)]
pub struct RulesConfig {
    /// Rule ids to disable.
    pub disabled: Vec<String>,
    /// If non-empty, only these rule ids are enabled.
    pub enabled: Vec<String>,
    /// Per-rule severity overrides.
    pub severity_overrides: Vec<(String, Severity)>,
    /// Per-rule confidence overrides.
    pub confidence_overrides: Vec<(String, Confidence)>,
}

impl Default for RulesConfig {
    fn default() -> (r: Self)
        ensures
            r.disabled@.len() == 0,
            r.enabled@.len() == 0,
            r.severity_overrides@.len() == 0,
            r.confidence_overrides@.len() == 0,
    {
        RulesConfig {
            disabled: Vec::new(),
            enabled: Vec::new(),
            severity_overrides: Vec::new(),
            confidence_overrides: Vec::new(),
        }
    }
}

/// Whether a rule id is enabled: not disabled, and listed when an allow-list is given.
pub open spec fn rule_enabled(c: RulesConfig, id: Seq<char>) -> bool {
    !views(c.disabled@).contains(id) && (c.enabled@.len() == 0 || views(c.enabled@).contains(id))
}

/// The first override value for `id`, if any.
pub open spec fn lookup_override<T>(list: Seq<(String, T)>, id: Seq<char>) -> Option<T>
    decreases list.len(),
{
    if list.len() == 0 {
        None
    } else if list[0].0@ == id {
        Some(list[0].1)
    } else {
        lookup_override(list.drop_first(), id)
    }
}

/// Each id appears at most once in an override list, as in the TOML table it
/// is read from.
pub open spec fn keys_unique<T>(list: Seq<(String, T)>) -> bool {
    forall|i: int, j: int| 0 <= i < j < list.len() ==> (#[trigger] list[i]).0@ != (#[trigger] list[j]).0@
}

/// Both override lists of a configuration have unique ids.
pub open spec fn overrides_unique(c: RulesConfig) -> bool {
    keys_unique(c.severity_overrides@) && keys_unique(c.confidence_overrides@)
}

/// With unique ids, an override list is a map: looking up an id gives the
/// value listed with it, and no value when it is not listed.
pub proof fn lemma_override_lookup<T>(list: Seq<(String, T)>, id: Seq<char>)
    requires
        keys_unique(list),
    ensures
        forall|i: int| 0 <= i < list.len() && (#[trigger] list[i]).0@ == id ==> lookup_override(list, id) == Some(list[i].1),
        (forall|i: int| 0 <= i < list.len() ==> (#[trigger] list[i]).0@ != id) ==> lookup_override(list, id) is None,
    decreases list.len(),
{
    if list.len() > 0 {
        let rest = list.drop_first();
        assert forall|i: int, j: int| 0 <= i < j < rest.len() implies (#[trigger] rest[i]).0@ != (#[trigger] rest[j]).0@ by {
            assert(rest[i] == list[i + 1] && rest[j] == list[j + 1]);
        }
        lemma_override_lookup(rest, id);
        assert forall|i: int| 0 <= i < list.len() && (#[trigger] list[i]).0@ == id implies lookup_override(list, id) == Some(
            list[i].1,
        ) by {
            if i > 0 {
                assert(list[0].0@ != id);
                assert(rest[i - 1] == list[i]);
            }
        }
        if forall|i: int| 0 <= i < list.len() ==> (#[trigger] list[i]).0@ != id {
            assert forall|i: int| 0 <= i < rest.len() implies (#[trigger] rest[i]).0@ != id by {
                assert(rest[i] == list[i + 1]);
            }
            assert(list[0].0@ != id);
        }
    }
}

impl RulesConfig {
    /// Returns true if the rule id is enabled under this configuration.
    pub fn is_enabled(&self, id: &str) -> (r: bool)
        ensures
            r == rule_enabled(*self, id@),
    {
        if order::list_contains(&self.disabled, id) {
            return false;
        }
        if self.enabled.len() > 0 {
            return order::list_contains(&self.enabled, id);
        }
        true
    }

    /// The severity override for a rule, if any.
    pub fn severity_override(&self, id: &str) -> (r: Option<Severity>)
        ensures
            r == lookup_override(self.severity_overrides@, id@),
    {
        let mut i: usize = 0;
        assert(self.severity_overrides@.skip(0) =~= self.severity_overrides@);
        while i < self.severity_overrides.len()
            invariant
                i <= self.severity_overrides@.len(),
                lookup_override(self.severity_overrides@, id@) == lookup_override(
                    self.severity_overrides@.skip(i as int),
                    id@,
                ),
            decreases self.severity_overrides@.len() - i,
        {
            assert(self.severity_overrides@.skip(i as int).drop_first() =~= self.severity_overrides@.skip(i + 1));
            if text::str_eq(self.severity_overrides[i].0.as_str(), id) {
                return Some(self.severity_overrides[i].1);
            }
            i = i + 1;
        }
        None
    }

    /// The confidence override for a rule, if any.
    pub fn confidence_override(&self, id: &str) -> (r: Option<Confidence>)
        ensures
            r == lookup_override(self.confidence_overrides@, id@),
    {
        let mut i: usize = 0;
        assert(self.confidence_overrides@.skip(0) =~= self.confidence_overrides@);
        while i < self.confidence_overrides.len()
            invariant
                i <= self.confidence_overrides@.len(),
                lookup_override(self.confidence_overrides@, id@) == lookup_override(
                    self.confidence_overrides@.skip(i as int),
                    id@,
                ),
            decreases self.confidence_overrides@.len() - i,
        {
            assert(self.confidence_overrides@.skip(i as int).drop_first() =~= self.confidence_overrides@.skip(i + 1));
            if text::str_eq(self.confidence_overrides[i].0.as_str(), id) {
                return Some(self.confidence_overrides[i].1);
            }
            i = i + 1;
        }
        None
    }
}

/// Complete scan configuration.
#[derive(Debug, Clone, PartialEq, Eq)]
pub struct ScanConfig {
    /// Minimum severity to report.
    pub min_severity: Severity,
    /// Minimum confidence to report.
    pub min_confidence: Confidence,
    /// Glob patterns (relative to the scan root) to exclude from discovery.
    pub exclude: Vec<String>,
    /// Whether to follow symbolic links during discovery.
    pub follow_symlinks: bool,
    /// Rule selection and overrides.
    pub rules: RulesConfig,
}

impl Default for ScanConfig {
    fn default() -> (r: Self)
        ensures
            r.min_severity == Severity::Info,
            r.min_confidence == Confidence::Low,
            r.exclude@.len() == 0,
            !r.follow_symlinks,
            r.rules.disabled@.len() == 0,
            r.rules.enabled@.len() == 0,
            r.rules.severity_overrides@.len() == 0,
            r.rules.confidence_overrides@.len() == 0,
    {
        ScanConfig {
            min_severity: Severity::Info,
            min_confidence: Confidence::Low,
            exclude: Vec::new(),
            follow_symlinks: false,
            rules: RulesConfig::default(),
        }
    }
}

impl ScanConfig {
    /// Builds [`DiscoveryOptions`] from this configuration.
    pub fn discovery_options(&self) -> (r: DiscoveryOptions)
        ensures
            r.follow_symlinks == self.follow_symlinks,
            views(r.exclude@) == views(self.exclude@),
    {
        DiscoveryOptions {
            follow_symlinks: self.follow_symlinks,
            exclude: crate::finding::copy_strings(&self.exclude),
        }
    }
}

/// A disabled rule is never enabled, whatever the allow-list says.
pub proof fn lemma_disable_wins(c: RulesConfig, id: Seq<char>)
    requires
        views(c.disabled@).contains(id),
    ensures
        !rule_enabled(c, id),
{
}

/// With no lists at all, every rule is enabled.
pub proof fn lemma_default_enables_all(c: RulesConfig, id: Seq<char>)
    requires
        c.disabled@.len() == 0,
        c.enabled@.len() == 0,
    ensures
        rule_enabled(c, id),
{
}

} // verus!
