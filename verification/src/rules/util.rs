//! Shared analysis utilities for rules.
//!
//! These helpers extract *facts* from a parsed function or file. Rules combine
//! facts to decide whether concrete evidence justifies a finding. No helper
//! here makes a security judgment on its own.
use vstd::prelude::*;

use crate::context::AnalysisContext;
use crate::finding::SourceLocation;
use crate::soroban::{self, attr_strength, ContractAttrStrength};
use crate::source::{self, attr_paths, has_definition, one_based, ParsedSource};
use crate::syntax::{RawFact, SynEvent, SyntaxTree};
use crate::text::{self, has_infix, lower, truncated};

verus! {

/// Longest rendered call text kept in a fact, in bytes.
pub const MAX_FACT_TEXT: usize = 160;

/// A call-like fact.
#[derive(Debug)]
pub struct CallFact {
    /// Method or function name.
    pub name: String,
    /// Rendered receiver or path, used for context checks.
    pub context: String,
    /// 1-based line.
    pub line: usize,
    /// 1-based column.
    pub column: usize,
    /// Rendered call text (truncated).
    pub text: String,
}

/// The value of a [`CallFact`].
pub struct CallView {
    pub name: Seq<char>,
    pub context: Seq<char>,
    pub line: usize,
    pub column: usize,
    pub text: Seq<char>,
}

impl View for CallFact {
    type V = CallView;

    open spec fn view(&self) -> CallView {
        CallView {
            name: self.name@,
            context: self.context@,
            line: self.line,
            column: self.column,
            text: self.text@,
        }
    }
}

/// A macro invocation fact.
#[derive(Debug)]
pub struct MacroFact {
    /// Macro name (last path segment).
    pub name: String,
    /// 1-based line.
    pub line: usize,
    /// 1-based column.
    pub column: usize,
    /// Rendered invocation text (truncated).
    pub text: String,
}

/// The value of a [`MacroFact`].
pub struct MacroView {
    pub name: Seq<char>,
    pub line: usize,
    pub column: usize,
    pub text: Seq<char>,
}

impl View for MacroFact {
    type V = MacroView;

    open spec fn view(&self) -> MacroView {
        MacroView { name: self.name@, line: self.line, column: self.column, text: self.text@ }
    }
}

/// A string literal fact.
#[derive(Debug)]
pub struct StringFact {
    /// Literal value.
    pub value: String,
    /// 1-based line.
    pub line: usize,
    /// 1-based column.
    pub column: usize,
}

/// The value of a [`StringFact`].
pub struct StringView {
    pub value: Seq<char>,
    pub line: usize,
    pub column: usize,
}

impl View for StringFact {
    type V = StringView;

    open spec fn view(&self) -> StringView {
        StringView { value: self.value@, line: self.line, column: self.column }
    }
}

/// Facts extracted from a function body or file.
#[derive(Debug)]
pub struct Facts {
    /// Method calls.
    pub method_calls: Vec<CallFact>,
    /// Free/associated function calls.
    pub function_calls: Vec<CallFact>,
    /// Macro invocations.
    pub macros: Vec<MacroFact>,
    /// String literals.
    pub strings: Vec<StringFact>,
    /// Whether the code contains `unsafe`.
    pub has_unsafe: bool,
    /// Locations of `unsafe` constructs.
    pub unsafe_locations: Vec<(usize, usize)>,
}

/// The value of [`Facts`].
pub struct FactsView {
    pub method_calls: Seq<CallView>,
    pub function_calls: Seq<CallView>,
    pub macros: Seq<MacroView>,
    pub strings: Seq<StringView>,
    pub has_unsafe: bool,
    pub unsafe_locations: Seq<(usize, usize)>,
}

/// The views of a list of calls.
pub open spec fn call_views(v: Seq<CallFact>) -> Seq<CallView> {
    v.map_values(|c: CallFact| c@)
}

impl View for Facts {
    type V = FactsView;

    open spec fn view(&self) -> FactsView {
        FactsView {
            method_calls: call_views(self.method_calls@),
            function_calls: call_views(self.function_calls@),
            macros: self.macros@.map_values(|m: MacroFact| m@),
            strings: self.strings@.map_values(|s: StringFact| s@),
            has_unsafe: self.has_unsafe,
            unsafe_locations: self.unsafe_locations@,
        }
    }
}

impl Default for Facts {
    fn default() -> (r: Self)
        ensures
            r@.method_calls.len() == 0,
            r@.function_calls.len() == 0,
            r@.macros.len() == 0,
            r@.strings.len() == 0,
            !r@.has_unsafe,
            r@.unsafe_locations.len() == 0,
    {
        Facts {
            method_calls: Vec::new(),
            function_calls: Vec::new(),
            macros: Vec::new(),
            strings: Vec::new(),
            has_unsafe: false,
            unsafe_locations: Vec::new(),
        }
    }
}

// ---------------------------------------------------------------------------
// Facts from syntax.
// ---------------------------------------------------------------------------
/// The facts of a sequence of raw syntax nodes, in visit order.
pub open spec fn facts_of(raw: Seq<RawFact>) -> FactsView
    decreases raw.len(),
{
    if raw.len() == 0 {
        FactsView {
            method_calls: Seq::empty(),
            function_calls: Seq::empty(),
            macros: Seq::empty(),
            strings: Seq::empty(),
            has_unsafe: false,
            unsafe_locations: Seq::empty(),
        }
    } else {
        let f = facts_of(raw.drop_last());
        match raw.last() {
            RawFact::MethodCall { name, context, line, column, text } => FactsView {
                method_calls: f.method_calls.push(
                    CallView {
                        name: name@,
                        context: context@,
                        line,
                        column: one_based(column),
                        text: truncated(text@, MAX_FACT_TEXT as nat),
                    },
                ),
                ..f
            },
            RawFact::Call { name, context, line, column, text } => FactsView {
                function_calls: f.function_calls.push(
                    CallView {
                        name: name@,
                        context: context@,
                        line,
                        column: one_based(column),
                        text: truncated(text@, MAX_FACT_TEXT as nat),
                    },
                ),
                ..f
            },
            RawFact::Macro { name, line, column, text } => FactsView {
                macros: f.macros.push(
                    MacroView {
                        name: name@,
                        line,
                        column: one_based(column),
                        text: truncated(text@, MAX_FACT_TEXT as nat),
                    },
                ),
                ..f
            },
            RawFact::Str { value, line, column } => FactsView {
                strings: f.strings.push(StringView { value: value@, line, column: one_based(column) }),
                ..f
            },
            RawFact::OtherCall { .. } => f,
            RawFact::OtherLit { .. } => f,
            RawFact::Unsafe { line, column } => FactsView {
                has_unsafe: true,
                unsafe_locations: f.unsafe_locations.push((line, one_based(column))),
                ..f
            },
        }
    }
}

fn one_based_col(c: usize) -> (r: usize)
    ensures
        r == one_based(c),
{
    if c < usize::MAX {
        c + 1
    } else {
        c
    }
}

/// Extracts facts from raw syntax nodes (a function body or a whole file).
pub fn facts_from_raw(raw: &Vec<RawFact>) -> (r: Facts)
    ensures
        r@ == facts_of(raw@),
{
    let mut facts = Facts::default();
    proof {
        let e = facts_of(raw@.take(0));
        assert(facts@.method_calls =~= e.method_calls);
        assert(facts@.function_calls =~= e.function_calls);
        assert(facts@.macros =~= e.macros);
        assert(facts@.strings =~= e.strings);
        assert(facts@.unsafe_locations =~= e.unsafe_locations);
    }
    let mut i: usize = 0;
    while i < raw.len()
        invariant
            i <= raw.len(),
            facts@ == facts_of(raw@.take(i as int)),
        decreases raw.len() - i,
    {
        assert(raw@.take(i + 1).drop_last() =~= raw@.take(i as int));
        let ghost before = facts@;
        match &raw[i] {
            RawFact::MethodCall { name, context, line, column, text } => {
                let c = CallFact {
                    name: name.clone(),
                    context: context.clone(),
                    line: *line,
                    column: one_based_col(*column),
                    text: text::truncate(text.as_str(), MAX_FACT_TEXT),
                };
                facts.method_calls.push(c);
                assert(facts@.method_calls =~= before.method_calls.push(c@));
            },
            RawFact::Call { name, context, line, column, text } => {
                let c = CallFact {
                    name: name.clone(),
                    context: context.clone(),
                    line: *line,
                    column: one_based_col(*column),
                    text: text::truncate(text.as_str(), MAX_FACT_TEXT),
                };
                facts.function_calls.push(c);
                assert(facts@.function_calls =~= before.function_calls.push(c@));
            },
            RawFact::Macro { name, line, column, text } => {
                let m = MacroFact {
                    name: name.clone(),
                    line: *line,
                    column: one_based_col(*column),
                    text: text::truncate(text.as_str(), MAX_FACT_TEXT),
                };
                facts.macros.push(m);
                assert(facts@.macros =~= before.macros.push(m@));
            },
            RawFact::Str { value, line, column } => {
                let s = StringFact { value: value.clone(), line: *line, column: one_based_col(*column) };
                facts.strings.push(s);
                assert(facts@.strings =~= before.strings.push(s@));
            },
            RawFact::OtherCall { .. } => {},
            RawFact::OtherLit { .. } => {},
            RawFact::Unsafe { line, column } => {
                facts.has_unsafe = true;
                facts.unsafe_locations.push((*line, one_based_col(*column)));
            },
        }
        i = i + 1;
    }
    assert(raw@.take(raw.len() as int) =~= raw@);
    facts
}

/// Extracts facts from a function body.
pub fn facts_from_block(body: &Vec<RawFact>) -> (r: Facts)
    ensures
        r@ == facts_of(body@),
{
    facts_from_raw(body)
}

/// Extracts facts from a whole file.
pub fn facts_from_file(file: &SyntaxTree) -> (r: Facts)
    ensures
        r@ == facts_of(file.facts@),
{
    facts_from_raw(&file.facts)
}

// ---------------------------------------------------------------------------
// Queries over facts.
// ---------------------------------------------------------------------------
/// Method names that mutate Soroban storage.
pub open spec fn is_storage_mutator(n: Seq<char>) -> bool {
    n == "set"@ || n == "remove"@ || n == "update"@ || n == "extend_ttl"@ || n == "set_ttl"@ || n
        == "bump"@
}

/// Method names that iterate storage.
pub open spec fn is_storage_iterator(n: Seq<char>) -> bool {
    n == "iter"@ || n == "keys"@ || n == "values"@
}

/// Method names that manage TTL.
pub open spec fn is_ttl_manager(n: Seq<char>) -> bool {
    n == "extend_ttl"@ || n == "set_ttl"@ || n == "bump"@
}

/// Panic-prone method names.
pub open spec fn is_panic_method(n: Seq<char>) -> bool {
    n == "unwrap"@ || n == "expect"@
}

/// Panic-prone macro names.
pub open spec fn is_panic_macro(n: Seq<char>) -> bool {
    n == "panic"@ || n == "todo"@ || n == "unimplemented"@ || n == "unreachable"@
}

/// The receiver mentions `word` (ASCII case-insensitively).
pub open spec fn mentions(context: Seq<char>, word: Seq<char>) -> bool {
    has_infix(lower(context), word)
}

/// A storage mutation: a mutator method on a storage receiver.
pub open spec fn is_storage_mutation(c: CallView) -> bool {
    is_storage_mutator(c.name) && mentions(c.context, "storage"@)
}

/// A persistent-storage mutation.
pub open spec fn is_persistent_mutation(c: CallView) -> bool {
    is_storage_mutation(c) && mentions(c.context, "persistent"@)
}

/// A storage iteration: an iterator method on a storage receiver.
pub open spec fn is_storage_iteration(c: CallView) -> bool {
    is_storage_iterator(c.name) && mentions(c.context, "storage"@)
}

/// A TTL management call.
pub open spec fn is_ttl_call(c: CallView) -> bool {
    is_ttl_manager(c.name)
}

/// A cross-contract client constructor (`SomeClient::new(..)`).
pub open spec fn is_client_constructor(c: CallView) -> bool {
    c.name == "new"@ && has_infix(c.context, "Client"@)
}

/// The calls satisfying `p`, in order.
pub open spec fn calls_where(s: Seq<CallView>, p: spec_fn(CallView) -> bool) -> Seq<CallView>
    decreases s.len(),
{
    if s.len() == 0 {
        Seq::empty()
    } else {
        let r = calls_where(s.drop_last(), p);
        if p(s.last()) {
            r.push(s.last())
        } else {
            r
        }
    }
}

/// An authorization method name.
pub open spec fn is_auth_name(n: Seq<char>) -> bool {
    n == "require_auth"@ || n == "require_auth_for_args"@
}

/// Some method call is `require_auth` or `require_auth_for_args`.
pub open spec fn requires_auth(f: FactsView) -> bool {
    exists|i: int| 0 <= i < f.method_calls.len() && is_auth_name(#[trigger] f.method_calls[i].name)
}

/// A panic site: construct name, line, column and text.
pub type PanicSite<'a> = (&'a str, usize, usize, &'a str);

/// The panic sites of method calls, in order.
pub open spec fn panic_calls(s: Seq<CallView>) -> Seq<(Seq<char>, usize, usize, Seq<char>)>
    decreases s.len(),
{
    if s.len() == 0 {
        Seq::empty()
    } else {
        let r = panic_calls(s.drop_last());
        let c = s.last();
        if is_panic_method(c.name) {
            r.push((c.name, c.line, c.column, c.text))
        } else {
            r
        }
    }
}

/// The panic sites of macros, in order.
pub open spec fn panic_macros(s: Seq<MacroView>) -> Seq<(Seq<char>, usize, usize, Seq<char>)>
    decreases s.len(),
{
    if s.len() == 0 {
        Seq::empty()
    } else {
        let r = panic_macros(s.drop_last());
        let m = s.last();
        if is_panic_macro(m.name) {
            r.push((m.name, m.line, m.column, m.text))
        } else {
            r
        }
    }
}

/// `a` is not after `b` in (line, column) order.
pub open spec fn site_le(a: (Seq<char>, usize, usize, Seq<char>), b: (Seq<char>, usize, usize, Seq<char>)) -> bool {
    a.1 < b.1 || (a.1 == b.1 && a.2 <= b.2)
}

/// Inserts `x` after every element not after it (stable insertion).
pub open spec fn insert_site(s: Seq<(Seq<char>, usize, usize, Seq<char>)>, x: (Seq<char>, usize, usize, Seq<char>)) -> Seq<(Seq<char>, usize, usize, Seq<char>)>
    decreases s.len(),
{
    if s.len() == 0 {
        seq![x]
    } else if site_le(s.last(), x) {
        s.push(x)
    } else {
        insert_site(s.drop_last(), x).push(s.last())
    }
}

/// The stable sort of panic sites by (line, column).
pub open spec fn sort_sites(s: Seq<(Seq<char>, usize, usize, Seq<char>)>) -> Seq<(Seq<char>, usize, usize, Seq<char>)>
    decreases s.len(),
{
    if s.len() == 0 {
        Seq::empty()
    } else {
        insert_site(sort_sites(s.drop_last()), s.last())
    }
}

/// All panic sites: panicking calls, then panicking macros, stably sorted by position.
pub open spec fn panics_of(f: FactsView) -> Seq<(Seq<char>, usize, usize, Seq<char>)> {
    sort_sites(panic_calls(f.method_calls) + panic_macros(f.macros))
}

/// The view of a panic site.
pub open spec fn site_view(p: PanicSite) -> (Seq<char>, usize, usize, Seq<char>) {
    (p.0@, p.1, p.2, p.3@)
}

proof fn lemma_insert_site_at(s: Seq<(Seq<char>, usize, usize, Seq<char>)>, x: (Seq<char>, usize, usize, Seq<char>), j: int)
    requires
        0 <= j <= s.len(),
        forall|k: int| j <= k < s.len() ==> !site_le(#[trigger] s[k], x),
        j > 0 ==> site_le(s[j - 1], x),
    ensures
        insert_site(s, x) == s.insert(j, x),
    decreases s.len(),
{
    if s.len() == 0 {
        assert(s.insert(j, x) =~= seq![x]);
    } else if j == s.len() {
        assert(s.insert(j, x) =~= s.push(x));
    } else {
        assert(!site_le(s[s.len() - 1], x));
        lemma_insert_site_at(s.drop_last(), x, j);
        assert(s.drop_last().insert(j, x).push(s.last()) =~= s.insert(j, x));
    }
}

fn is_one_of(n: &str, a: &str, b: &str) -> (r: bool)
    ensures
        r == (n@ == a@ || n@ == b@),
{
    text::str_eq(n, a) || text::str_eq(n, b)
}

fn storage_mutator(n: &str) -> (r: bool)
    ensures
        r == is_storage_mutator(n@),
{
    is_one_of(n, "set", "remove") || is_one_of(n, "update", "extend_ttl") || is_one_of(
        n,
        "set_ttl",
        "bump",
    )
}

fn storage_iterator(n: &str) -> (r: bool)
    ensures
        r == is_storage_iterator(n@),
{
    is_one_of(n, "iter", "keys") || text::str_eq(n, "values")
}

fn ttl_manager(n: &str) -> (r: bool)
    ensures
        r == is_ttl_manager(n@),
{
    is_one_of(n, "extend_ttl", "set_ttl") || text::str_eq(n, "bump")
}

fn context_mentions(context: &str, word: &str) -> (r: bool)
    ensures
        r == mentions(context@, word@),
{
    let l = text::to_lower(context);
    text::contains(l.as_str(), word)
}

/// The query kinds over method and function calls.
pub enum CallQuery {
    /// Storage mutations.
    StorageMutation,
    /// Persistent-storage mutations.
    PersistentMutation,
    /// Storage iterations.
    StorageIteration,
    /// TTL management calls.
    TtlManagement,
    /// Cross-contract client constructors.
    ClientConstructor,
}

/// The predicate of a query.
pub open spec fn query_pred(q: CallQuery) -> spec_fn(CallView) -> bool {
    match q {
        CallQuery::StorageMutation => |c: CallView| is_storage_mutation(c),
        CallQuery::PersistentMutation => |c: CallView| is_persistent_mutation(c),
        CallQuery::StorageIteration => |c: CallView| is_storage_iteration(c),
        CallQuery::TtlManagement => |c: CallView| is_ttl_call(c),
        CallQuery::ClientConstructor => |c: CallView| is_client_constructor(c),
    }
}

fn query_holds(q: &CallQuery, c: &CallFact) -> (r: bool)
    ensures
        r == (query_pred(*q))(c@),
{
    match q {
        CallQuery::StorageMutation => storage_mutator(c.name.as_str()) && context_mentions(
            c.context.as_str(),
            "storage",
        ),
        CallQuery::PersistentMutation => storage_mutator(c.name.as_str()) && context_mentions(
            c.context.as_str(),
            "storage",
        ) && context_mentions(c.context.as_str(), "persistent"),
        CallQuery::StorageIteration => storage_iterator(c.name.as_str()) && context_mentions(
            c.context.as_str(),
            "storage",
        ),
        CallQuery::TtlManagement => ttl_manager(c.name.as_str()),
        CallQuery::ClientConstructor => text::str_eq(c.name.as_str(), "new") && text::contains(
            c.context.as_str(),
            "Client",
        ),
    }
}

/// The calls of `calls` answering a query, in order.
fn select_calls<'a>(calls: &'a Vec<CallFact>, q: CallQuery) -> (r: Vec<&'a CallFact>)
    ensures
        r@.map_values(|c: &CallFact| c@) == calls_where(call_views(calls@), query_pred(q)),
{
    let ghost cv = call_views(calls@);
    let mut r: Vec<&CallFact> = Vec::new();
    let mut i: usize = 0;
    while i < calls.len()
        invariant
            i <= calls.len(),
            cv == call_views(calls@),
            r@.map_values(|c: &CallFact| c@) == calls_where(cv.take(i as int), query_pred(q)),
        decreases calls.len() - i,
    {
        assert(cv.take(i + 1).drop_last() =~= cv.take(i as int));
        if query_holds(&q, &calls[i]) {
            r.push(&calls[i]);
        }
        i = i + 1;
        assert(r@.map_values(|c: &CallFact| c@) =~= calls_where(cv.take(i as int), query_pred(q)));
    }
    assert(cv.take(calls.len() as int) =~= cv);
    r
}

impl Facts {
    /// Returns true if a `require_auth`-style call is present.
    pub fn has_require_auth(&self) -> (r: bool)
        ensures
            r == requires_auth(self@),
    {
        let mut i: usize = 0;
        while i < self.method_calls.len()
            invariant
                i <= self.method_calls.len(),
                forall|k: int| 0 <= k < i ==> !is_auth_name(#[trigger] self@.method_calls[k].name),
            decreases self.method_calls.len() - i,
        {
            if is_one_of(self.method_calls[i].name.as_str(), "require_auth", "require_auth_for_args") {
                assert(self@.method_calls[i as int] == self.method_calls@[i as int]@);
                assert(is_auth_name(self@.method_calls[i as int].name));
                return true;
            }
            assert(self@.method_calls[i as int] == self.method_calls@[i as int]@);
            i = i + 1;
        }
        false
    }

    /// Storage mutation calls.
    pub fn storage_mutations(&self) -> (r: Vec<&CallFact>)
        ensures
            r@.map_values(|c: &CallFact| c@) == calls_where(
                self@.method_calls,
                |c: CallView| is_storage_mutation(c),
            ),
    {
        select_calls(&self.method_calls, CallQuery::StorageMutation)
    }

    /// Persistent-storage mutation calls.
    pub fn persistent_mutations(&self) -> (r: Vec<&CallFact>)
        ensures
            r@.map_values(|c: &CallFact| c@) == calls_where(
                self@.method_calls,
                |c: CallView| is_persistent_mutation(c),
            ),
    {
        select_calls(&self.method_calls, CallQuery::PersistentMutation)
    }

    /// Storage iteration calls.
    pub fn storage_iterations(&self) -> (r: Vec<&CallFact>)
        ensures
            r@.map_values(|c: &CallFact| c@) == calls_where(
                self@.method_calls,
                |c: CallView| is_storage_iteration(c),
            ),
    {
        select_calls(&self.method_calls, CallQuery::StorageIteration)
    }

    /// TTL management calls.
    pub fn ttl_management(&self) -> (r: Vec<&CallFact>)
        ensures
            r@.map_values(|c: &CallFact| c@) == calls_where(
                self@.method_calls,
                |c: CallView| is_ttl_call(c),
            ),
    {
        select_calls(&self.method_calls, CallQuery::TtlManagement)
    }

    /// Cross-contract client constructors (`SomeClient::new(...)`).
    pub fn cross_contract_constructors(&self) -> (r: Vec<&CallFact>)
        ensures
            r@.map_values(|c: &CallFact| c@) == calls_where(
                self@.function_calls,
                |c: CallView| is_client_constructor(c),
            ),
    {
        select_calls(&self.function_calls, CallQuery::ClientConstructor)
    }

    /// Panic-prone calls and macros, stably sorted by position.
    pub fn panics(&self) -> (r: Vec<PanicSite<'_>>)
        ensures
            r@.map_values(|p: PanicSite| site_view(p)) == panics_of(self@),
    {
        let ghost all = panic_calls(self@.method_calls) + panic_macros(self@.macros);
        let mut found: Vec<PanicSite> = Vec::new();
        let mut i: usize = 0;
        while i < self.method_calls.len()
            invariant
                i <= self.method_calls.len(),
                found@.map_values(|p: PanicSite| site_view(p)) == panic_calls(self@.method_calls.take(i as int)),
            decreases self.method_calls.len() - i,
        {
            assert(self@.method_calls.take(i + 1).drop_last() =~= self@.method_calls.take(i as int));
            let c = &self.method_calls[i];
            if is_one_of(c.name.as_str(), "unwrap", "expect") {
                found.push((c.name.as_str(), c.line, c.column, c.text.as_str()));
            }
            i = i + 1;
            assert(found@.map_values(|p: PanicSite| site_view(p)) =~= panic_calls(self@.method_calls.take(i as int)));
        }
        assert(self@.method_calls.take(self.method_calls.len() as int) =~= self@.method_calls);
        let ghost calls_part = panic_calls(self@.method_calls);
        let ghost mv = self@.macros;
        let mut j: usize = 0;
        while j < self.macros.len()
            invariant
                j <= self.macros.len(),
                mv == self@.macros,
                found@.map_values(|p: PanicSite| site_view(p)) == calls_part + panic_macros(mv.take(j as int)),
            decreases self.macros.len() - j,
        {
            assert(mv.take(j + 1).drop_last() =~= mv.take(j as int));
            let m = &self.macros[j];
            assert(mv[j as int] == m@);
            let ghost fv0 = found@.map_values(|p: PanicSite| site_view(p));
            let ghost pm = panic_macros(mv.take(j as int));
            if is_one_of(m.name.as_str(), "panic", "todo") || is_one_of(m.name.as_str(), "unimplemented", "unreachable") {
                let site: PanicSite = (m.name.as_str(), m.line, m.column, m.text.as_str());
                found.push(site);
                assert(found@.map_values(|p: PanicSite| site_view(p)) =~= fv0.push(site_view(site)));
                assert(calls_part + pm.push(site_view(site)) =~= (calls_part + pm).push(site_view(site)));
            }
            j = j + 1;
            assert(found@.map_values(|p: PanicSite| site_view(p)) =~= calls_part + panic_macros(mv.take(j as int)));
        }
        assert(mv.take(self.macros.len() as int) =~= mv);
        // Stable insertion sort by (line, column).
        let ghost fv = found@.map_values(|p: PanicSite| site_view(p));
        let mut out: Vec<PanicSite> = Vec::new();
        let mut k: usize = 0;
        while k < found.len()
            invariant
                k <= found.len(),
                fv == found@.map_values(|p: PanicSite| site_view(p)),
                out@.map_values(|p: PanicSite| site_view(p)) == sort_sites(fv.take(k as int)),
            decreases found.len() - k,
        {
            assert(fv.take(k + 1).drop_last() =~= fv.take(k as int));
            let x = found[k];
            let ghost ov = out@.map_values(|p: PanicSite| site_view(p));
            let mut pos: usize = out.len();
            while pos > 0 && !(out[pos - 1].1 < x.1 || (out[pos - 1].1 == x.1 && out[pos - 1].2 <= x.2))
                invariant
                    pos <= out.len(),
                    ov == out@.map_values(|p: PanicSite| site_view(p)),
                    forall|q: int| pos <= q < ov.len() ==> !site_le(#[trigger] ov[q], site_view(x)),
                decreases pos,
            {
                pos = pos - 1;
            }
            proof {
                lemma_insert_site_at(ov, site_view(x), pos as int);
            }
            out.insert(pos, x);
            assert(out@.map_values(|p: PanicSite| site_view(p)) =~= ov.insert(pos as int, site_view(x)));
            k = k + 1;
        }
        assert(fv.take(found.len() as int) =~= fv);
        out
    }
}

// ---------------------------------------------------------------------------
// Contract entry functions.
// ---------------------------------------------------------------------------
/// A contract entry point with the facts of its body attached.
pub struct ContractFn<'a> {
    /// Function name.
    pub name: String,
    /// 1-based line.
    pub line: usize,
    /// 1-based column.
    pub column: usize,
    /// Raw facts of the function body.
    pub block: &'a Vec<RawFact>,
    /// Whether the function is `pub`.
    pub is_public: bool,
}

/// The value of a [`ContractFn`].
pub struct ContractFnView {
    pub name: Seq<char>,
    pub line: usize,
    pub column: usize,
    pub block: Seq<RawFact>,
    pub is_public: bool,
}

impl<'a> View for ContractFn<'a> {
    type V = ContractFnView;

    open spec fn view(&self) -> ContractFnView {
        ContractFnView {
            name: self.name@,
            line: self.line,
            column: self.column,
            block: self.block@,
            is_public: self.is_public,
        }
    }
}

/// Per open `impl`, trait or module: whether it is a contract `impl` block.
pub open spec fn contract_walk(evs: Seq<SynEvent>) -> (Seq<bool>, Seq<ContractFnView>)
    decreases evs.len(),
{
    if evs.len() == 0 {
        (Seq::empty(), Seq::empty())
    } else {
        let (frames, fns) = contract_walk(evs.drop_last());
        match evs.last() {
            SynEvent::ImplStart { attrs, span, self_ty } => (
                frames.push(has_definition(attr_paths(attrs@))),
                fns,
            ),
            SynEvent::TraitStart { .. } => (frames.push(false), fns),
            SynEvent::ModStart { .. } => (frames.push(false), fns),
            SynEvent::End => (
                if frames.len() > 0 {
                    frames.drop_last()
                } else {
                    frames
                },
                fns,
            ),
            SynEvent::ImplFn { attrs, is_public, sig, body } => if frames.len() > 0 && frames.last() {
                (
                    frames,
                    fns.push(
                        ContractFnView {
                            name: sig.name@,
                            line: sig.span.line,
                            column: one_based(sig.span.column),
                            block: body@,
                            is_public,
                        },
                    ),
                )
            } else {
                (frames, fns)
            },
            _ => (frames, fns),
        }
    }
}

/// The functions of contract `impl` blocks (`#[contractimpl]`), public or not,
/// in source order, including those in inline modules.
pub open spec fn contract_fns(tree: SyntaxTree) -> Seq<ContractFnView> {
    contract_walk(tree.events@).1
}

/// Collects the functions of contract `impl` blocks, with their body facts.
pub fn contract_entry_functions(file: &SyntaxTree) -> (r: Vec<ContractFn<'_>>)
    ensures
        r@.map_values(|f: ContractFn| f@) == contract_fns(*file),
{
    let evs = &file.events;
    let mut frames: Vec<bool> = Vec::new();
    let mut out: Vec<ContractFn> = Vec::new();
    let mut i: usize = 0;
    while i < evs.len()
        invariant
            i <= evs.len(),
            *evs == file.events,
            frames@ == contract_walk(evs@.take(i as int)).0,
            out@.map_values(|f: ContractFn| f@) == contract_walk(evs@.take(i as int)).1,
        decreases evs.len() - i,
    {
        assert(evs@.take(i + 1).drop_last() =~= evs@.take(i as int));
        let ghost ov = out@.map_values(|f: ContractFn| f@);
        match &evs[i] {
            SynEvent::ImplStart { attrs, .. } => {
                let a = attr_strings(attrs);
                frames.push(any_definition_attr(&a));
            },
            SynEvent::TraitStart { .. } => {
                frames.push(false);
            },
            SynEvent::ModStart { .. } => {
                frames.push(false);
            },
            SynEvent::End => {
                if frames.len() > 0 {
                    frames.pop();
                }
            },
            SynEvent::ImplFn { attrs, is_public, sig, body } => {
                if frames.len() > 0 && frames[frames.len() - 1] {
                    let f = ContractFn {
                        name: sig.name.clone(),
                        line: sig.span.line,
                        column: one_based_col(sig.span.column),
                        block: body,
                        is_public: *is_public,
                    };
                    out.push(f);
                    assert(out@.map_values(|f: ContractFn| f@) =~= ov.push(f@));
                }
            },
            _ => {},
        }
        i = i + 1;
        assert(out@.map_values(|f: ContractFn| f@) =~= contract_walk(evs@.take(i as int)).1);
    }
    assert(evs@.take(evs.len() as int) =~= evs@);
    out
}

/// The attribute paths of a list of attributes.
fn attr_strings(attrs: &Vec<Vec<String>>) -> (r: Vec<String>)
    ensures
        crate::finding::views(r@) == attr_paths(attrs@),
{
    let mut r: Vec<String> = Vec::new();
    let mut i: usize = 0;
    while i < attrs.len()
        invariant
            i <= attrs.len(),
            r@.len() == i,
            forall|k: int| 0 <= k < i ==> (#[trigger] r@[k])@ == source::attr_path(attrs@[k]),
        decreases attrs.len() - i,
    {
        r.push(text::join_strings(&attrs[i], "::"));
        i = i + 1;
    }
    assert(crate::finding::views(r@) =~= attr_paths(attrs@));
    r
}

/// Whether some attribute path defines a contract.
fn any_definition_attr(attrs: &Vec<String>) -> (r: bool)
    ensures
        r == has_definition(crate::finding::views(attrs@)),
{
    let mut i: usize = 0;
    while i < attrs.len()
        invariant
            i <= attrs.len(),
            forall|k: int|
                0 <= k < i ==> attr_strength(#[trigger] crate::finding::views(attrs@)[k])
                    != Some(ContractAttrStrength::Definition),
        decreases attrs.len() - i,
    {
        if soroban::contract_attribute_strength(attrs[i].as_str()) == Some(ContractAttrStrength::Definition) {
            assert(attr_strength(crate::finding::views(attrs@)[i as int]) == Some(ContractAttrStrength::Definition));
            return true;
        }
        i = i + 1;
    }
    false
}

// ---------------------------------------------------------------------------
// Locations and addresses.
// ---------------------------------------------------------------------------
/// Builds a source location for a fact inside a source file: the file is
/// made relative to the scan root.
pub fn location_for(ctx: &AnalysisContext<'_>, source: &ParsedSource, line: usize, column: usize) -> (r: SourceLocation)
    ensures
        r@ == (crate::finding::LocationView {
            file: ctx.relative_path_spec(source.path@),
            line,
            column: Some(column),
            end_line: None,
            end_column: None,
        }),
{
    let rel = ctx.relative_path(source.path.as_str());
    SourceLocation::with_column(rel.as_str(), line, column)
}

/// A base32 (RFC 4648) strkey character: `A`-`Z` or `2`-`7`.
pub open spec fn is_strkey_char(c: char) -> bool {
    ('A' <= c && c <= 'Z') || ('2' <= c && c <= '7')
}

/// The shape of a Stellar strkey: 56 characters, `G` (account) or `C`
/// (contract) first, base32 characters after.
pub open spec fn stellar_address_shape(s: Seq<char>) -> bool {
    &&& s.len() == 56
    &&& (s[0] == 'G' || s[0] == 'C')
    &&& forall|i: int| 1 <= i < s.len() ==> is_strkey_char(#[trigger] s[i])
}

/// Returns true if a string looks like a Stellar strkey (account `G`/contract `C`).
pub fn looks_like_stellar_address(value: &str) -> (r: bool)
    ensures
        r == stellar_address_shape(value@),
{
    let cs = text::chars_of(value);
    if cs.len() != 56 {
        return false;
    }
    if cs[0] != 'G' && cs[0] != 'C' {
        return false;
    }
    let mut i: usize = 1;
    while i < cs.len()
        invariant
            1 <= i <= cs.len(),
            cs@ == value@,
            forall|k: int| 1 <= k < i ==> is_strkey_char(#[trigger] value@[k]),
        decreases cs.len() - i,
    {
        let c = cs[i];
        if !(('A' <= c && c <= 'Z') || ('2' <= c && c <= '7')) {
            return false;
        }
        i = i + 1;
    }
    true
}


/// The string literals shaped like Stellar addresses, in order.
pub open spec fn strings_where_address(s: Seq<StringView>) -> Seq<StringView>
    decreases s.len(),
{
    if s.len() == 0 {
        Seq::empty()
    } else {
        let r = strings_where_address(s.drop_last());
        if stellar_address_shape(s.last().value) {
            r.push(s.last())
        } else {
            r
        }
    }
}

/// The string literals shaped like Stellar addresses.
pub fn address_literals(strings: &Vec<StringFact>) -> (r: Vec<&StringFact>)
    ensures
        r@.map_values(|s: &StringFact| s@) == strings_where_address(strings@.map_values(|s: StringFact| s@)),
{
    let ghost sv = strings@.map_values(|s: StringFact| s@);
    let mut r: Vec<&StringFact> = Vec::new();
    let mut i: usize = 0;
    while i < strings.len()
        invariant
            i <= strings.len(),
            sv == strings@.map_values(|s: StringFact| s@),
            r@.map_values(|s: &StringFact| s@) == strings_where_address(sv.take(i as int)),
        decreases strings.len() - i,
    {
        assert(sv.take(i + 1).drop_last() =~= sv.take(i as int));
        if looks_like_stellar_address(strings[i].value.as_str()) {
            r.push(&strings[i]);
        }
        i = i + 1;
        assert(r@.map_values(|s: &StringFact| s@) =~= strings_where_address(sv.take(i as int)));
    }
    assert(sv.take(strings.len() as int) =~= sv);
    r
}

} // verus!
