//! Rule registry.
use vstd::prelude::*;

use crate::rule::{Rule, RuleMetadata};
use crate::order::lex_le;
use crate::text;

verus! {

/// A well-formed rule id: `SS-` followed by three ASCII digits.
pub open spec fn valid_rule_id(id: Seq<char>) -> bool {
    &&& id.len() == 6
    &&& id[0] == 'S' && id[1] == 'S' && id[2] == '-'
    &&& forall|i: int| 3 <= i < 6 ==> '0' <= #[trigger] id[i] && id[i] <= '9'
}

/// Returns true if `id` matches the `SS-###` convention.
pub fn is_valid_rule_id(id: &str) -> (r: bool)
    ensures
        r == valid_rule_id(id@),
{
    let cs = text::chars_of(id);
    if cs.len() != 6 || cs[0] != 'S' || cs[1] != 'S' || cs[2] != '-' {
        return false;
    }
    let mut i: usize = 3;
    while i < 6
        invariant
            3 <= i <= 6,
            cs@ == id@,
            cs@.len() == 6,
            forall|k: int| 3 <= k < i ==> '0' <= #[trigger] id@[k] && id@[k] <= '9',
        decreases 6 - i,
    {
        if !('0' <= cs[i] && cs[i] <= '9') {
            return false;
        }
        i = i + 1;
    }
    true
}

/// Errors raised when registering rules.
#[derive(Debug, PartialEq, Eq)]
pub enum RegistryError {
    /// A rule with the same id is already registered.
    Duplicate(String),
    /// A rule id is malformed.
    InvalidId(String),
}

impl RegistryError {
    /// The error message.
    pub fn display_text(&self) -> (r: String)
        ensures
            r@ == match self {
                RegistryError::Duplicate(id) => "duplicate rule id: "@ + id@,
                RegistryError::InvalidId(id) => "invalid rule id: "@ + id@ + " (expected SS-###)"@,
            },
    {
        match self {
            RegistryError::Duplicate(id) => text::concat2("duplicate rule id: ", id.as_str()),
            RegistryError::InvalidId(id) => {
                let mut r = text::concat2("invalid rule id: ", id.as_str());
                text::push_str(&mut r, " (expected SS-###)");
                r
            },
        }
    }
}

/// The ids of a list of rule metadata.
pub open spec fn ids_of(metas: Seq<RuleMetadata>) -> Seq<Seq<char>> {
    metas.map_values(|m: RuleMetadata| m.id@)
}

/// A registry of security rules.
///
/// Each rule's metadata is read once, when the rule is registered; every id
/// in the registry is well formed and no id occurs twice.
pub struct RuleRegistry<R: Rule> {
    rules: Vec<Registered<R>>,
}

/// A registered rule with the metadata read when it was registered.
pub struct Registered<R: Rule> {
    /// The metadata.
    pub meta: RuleMetadata,
    /// The rule.
    pub rule: R,
}

impl<R: Rule> RuleRegistry<R> {
    /// The registry's invariant.
    pub closed spec fn wf(&self) -> bool {
        &&& forall|i: int| 0 <= i < self.rules@.len() ==> valid_rule_id(#[trigger] self.rules@[i].meta.id@)
        &&& forall|i: int, j: int|
            0 <= i < j < self.rules@.len() ==> #[trigger] self.rules@[i].meta.id@ != #[trigger] self.rules@[j].meta.id@
    }

    /// The metadata of the registered rules, in registration order.
    pub closed spec fn metadata_spec(&self) -> Seq<RuleMetadata> {
        self.rules@.map_values(|r: Registered<R>| r.meta)
    }

    /// The registered rules, in registration order.
    pub closed spec fn rules_spec(&self) -> Seq<R> {
        self.rules@.map_values(|r: Registered<R>| r.rule)
    }

    /// The `i`-th registered rule.
    pub closed spec fn rule_spec(&self, i: int) -> R {
        self.rules@[i].rule
    }

    /// Creates an empty registry.
    pub fn new() -> (r: Self)
        ensures
            r.wf(),
            r.metadata_spec().len() == 0,
    {
        let r = RuleRegistry::<R> { rules: Vec::new() };
        assert(r.metadata_spec() =~= Seq::<RuleMetadata>::empty());
        r
    }

    /// Every registered id is well formed and occurs once.
    pub proof fn lemma_ids_valid_and_unique(&self)
        requires
            self.wf(),
        ensures
            forall|i: int| 0 <= i < self.metadata_spec().len() ==> valid_rule_id(#[trigger] self.metadata_spec()[i].id@),
            forall|i: int, j: int|
                0 <= i < j < self.metadata_spec().len() ==> #[trigger] self.metadata_spec()[i].id@ != #[trigger] self.metadata_spec()[j].id@,
    {
    }

    /// Registers a rule, rejecting duplicate or malformed ids.
    pub fn register(&mut self, rule: R) -> (r: Result<(), RegistryError>)
        requires
            old(self).wf(),
        ensures
            final(self).wf(),
            !valid_rule_id(rule.metadata_spec().id@) ==> (r matches Err(RegistryError::InvalidId(id)) && id@
                == rule.metadata_spec().id@),
            valid_rule_id(rule.metadata_spec().id@) && ids_of(old(self).metadata_spec()).contains(
                rule.metadata_spec().id@,
            ) ==> (r matches Err(RegistryError::Duplicate(id)) && id@ == rule.metadata_spec().id@),
            valid_rule_id(rule.metadata_spec().id@) && !ids_of(old(self).metadata_spec()).contains(
                rule.metadata_spec().id@,
            ) ==> r is Ok,
            r is Ok ==> final(self).metadata_spec() == old(self).metadata_spec().push(rule.metadata_spec()),
            r is Ok ==> final(self).rules_spec() == old(self).rules_spec().push(rule),
            r is Err ==> final(self).metadata_spec() == old(self).metadata_spec(),
            r is Err ==> final(self).rules_spec() == old(self).rules_spec(),
    {
        let meta = rule.metadata();
        let id = meta.id;
        if !is_valid_rule_id(id) {
            return Err(RegistryError::InvalidId(text::owned(id)));
        }
        let mut i: usize = 0;
        while i < self.rules.len()
            invariant
                i <= self.rules@.len(),
                self.wf(),
                *self == *old(self),
                valid_rule_id(id@),
                meta == rule.metadata_spec(),
                meta.id == id,
                forall|k: int| 0 <= k < i ==> (#[trigger] self.rules@[k]).meta.id@ != id@,
            decreases self.rules@.len() - i,
        {
            if text::str_eq(self.rules[i].meta.id, id) {
                assert(ids_of(self.metadata_spec())[i as int] == id@);
                return Err(RegistryError::Duplicate(text::owned(id)));
            }
            i = i + 1;
        }
        assert(!ids_of(self.metadata_spec()).contains(id@)) by {
            if ids_of(self.metadata_spec()).contains(id@) {
                let k = choose|k: int| 0 <= k < self.rules@.len() && ids_of(self.metadata_spec())[k] == id@;
                assert(self.rules@[k].meta.id@ == id@);
            }
        }
        self.rules.push(Registered { meta, rule });
        assert(self.metadata_spec() =~= old(self).metadata_spec().push(meta));
        assert(self.rules_spec() =~= old(self).rules_spec().push(rule));
        assert forall|a: int| 0 <= a < self.rules@.len() implies valid_rule_id(#[trigger] self.rules@[a].meta.id@) by {
            if a < self.rules@.len() - 1 {
                assert(self.rules@[a] == old(self).rules@[a]);
            }
        }
        assert forall|a: int, b: int|
            0 <= a < b < self.rules@.len() implies #[trigger] self.rules@[a].meta.id@ != #[trigger] self.rules@[b].meta.id@ by {
            assert(self.rules@[a] == old(self).rules@[a]);
            if b == self.rules@.len() - 1 {
                assert(ids_of(old(self).metadata_spec())[a] == self.rules@[a].meta.id@);
            } else {
                assert(self.rules@[b] == old(self).rules@[b]);
            }
        }
        Ok(())
    }

    /// Number of registered rules.
    pub fn len(&self) -> (r: usize)
        requires
            self.wf(),
        ensures
            r == self.metadata_spec().len(),
    {
        self.rules.len()
    }

    /// Returns true if no rules are registered.
    pub fn is_empty(&self) -> (r: bool)
        requires
            self.wf(),
        ensures
            r == (self.metadata_spec().len() == 0),
    {
        self.rules.len() == 0
    }

    /// All registered rules, in registration order.
    pub fn rules(&self) -> (r: &[Registered<R>])
        requires
            self.wf(),
        ensures
            r@.map_values(|x: Registered<R>| x.meta) == self.metadata_spec(),
            r@.map_values(|x: Registered<R>| x.rule) == self.rules_spec(),
    {
        self.rules.as_slice()
    }

    /// The metadata of the `i`-th registered rule (as read at registration).
    pub fn metadata_at(&self, i: usize) -> (r: RuleMetadata)
        requires
            self.wf(),
            i < self.metadata_spec().len(),
        ensures
            r == self.metadata_spec()[i as int],
    {
        self.rules[i].meta
    }

    /// The first registered rule with the given id.
    pub fn by_id(&self, id: &str) -> (r: Option<&R>)
        requires
            self.wf(),
        ensures
            match r {
                Some(x) => exists|i: int|
                    0 <= i < self.metadata_spec().len() && self.metadata_spec()[i].id@ == id@
                        && self.rule_spec(i) == *x,
                None => !ids_of(self.metadata_spec()).contains(id@),
            },
    {
        let mut i: usize = 0;
        while i < self.rules.len()
            invariant
                i <= self.rules@.len(),
                forall|k: int| 0 <= k < i ==> (#[trigger] self.rules@[k]).meta.id@ != id@,
            decreases self.rules@.len() - i,
        {
            if text::str_eq(self.rules[i].meta.id, id) {
                assert(self.metadata_spec()[i as int] == self.rules@[i as int].meta);
                assert(self.rule_spec(i as int) == self.rules@[i as int].rule);
                assert(self.metadata_spec()[i as int].id@ == id@);
                return Some(&self.rules[i].rule);
            }
            i = i + 1;
        }
        assert(!ids_of(self.metadata_spec()).contains(id@)) by {
            if ids_of(self.metadata_spec()).contains(id@) {
                let k = choose|k: int| 0 <= k < self.rules@.len() && ids_of(self.metadata_spec())[k] == id@;
                assert(self.rules@[k].meta.id@ == id@);
            }
        }
        None
    }

    /// Metadata for all rules, sorted by id.
    pub fn metadata_sorted(&self) -> (r: Vec<RuleMetadata>)
        requires
            self.wf(),
        ensures
            r@ == sort_by_id(self.metadata_spec()),
    {
        let ghost ms = self.metadata_spec();
        let mut out: Vec<RuleMetadata> = Vec::new();
        let mut k: usize = 0;
        while k < self.rules.len()
            invariant
                k <= self.rules@.len(),
                ms == self.metadata_spec(),
                out@ == sort_by_id(ms.take(k as int)),
            decreases self.rules@.len() - k,
        {
            assert(ms.take(k + 1).drop_last() =~= ms.take(k as int));
            let x = self.rules[k].meta;
            assert(ms[k as int] == x);
            let ghost ov = out@;
            let mut pos: usize = out.len();
            while pos > 0 && !(crate::order::compare_strs(out[pos - 1].id, x.id) <= 0)
                invariant
                    pos <= out@.len(),
                    ov == out@,
                    forall|q: int| pos <= q < ov.len() ==> !lex_le(#[trigger] ov[q].id@, x.id@),
                decreases pos,
            {
                pos = pos - 1;
            }
            proof {
                lemma_insert_by_id_at(ov, x, pos as int);
            }
            out.insert(pos, x);
            k = k + 1;
        }
        assert(ms.take(self.rules@.len() as int) =~= ms);
        out
    }
}

/// Inserts `x` after every element whose id is not after its id.
pub open spec fn insert_by_id(s: Seq<RuleMetadata>, x: RuleMetadata) -> Seq<RuleMetadata>
    decreases s.len(),
{
    if s.len() == 0 {
        seq![x]
    } else if lex_le(s.last().id@, x.id@) {
        s.push(x)
    } else {
        insert_by_id(s.drop_last(), x).push(s.last())
    }
}

/// Metadata stably sorted by id.
pub open spec fn sort_by_id(s: Seq<RuleMetadata>) -> Seq<RuleMetadata>
    decreases s.len(),
{
    if s.len() == 0 {
        Seq::empty()
    } else {
        insert_by_id(sort_by_id(s.drop_last()), s.last())
    }
}

proof fn lemma_insert_by_id_at(s: Seq<RuleMetadata>, x: RuleMetadata, j: int)
    requires
        0 <= j <= s.len(),
        forall|k: int| j <= k < s.len() ==> !lex_le(#[trigger] s[k].id@, x.id@),
        j > 0 ==> lex_le(s[j - 1].id@, x.id@),
    ensures
        insert_by_id(s, x) == s.insert(j, x),
    decreases s.len(),
{
    if s.len() == 0 {
        assert(s.insert(j, x) =~= seq![x]);
    } else if j == s.len() {
        assert(s.insert(j, x) =~= s.push(x));
    } else {
        assert(!lex_le(s[s.len() - 1].id@, x.id@));
        lemma_insert_by_id_at(s.drop_last(), x, j);
        assert(s.drop_last().insert(j, x).push(s.last()) =~= s.insert(j, x));
    }
}

} // verus!
