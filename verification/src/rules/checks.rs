//! The evidence each detector looks for, over the syntax facts of a project.
//!
//! Entry-point detectors examine the public functions of contract `impl`
//! blocks (`#[contractimpl]`); file detectors examine every node of a file.
//! Detectors only run on projects confirmed to be Soroban contracts.
use vstd::prelude::*;

use crate::context::{relative_spec, AnalysisContext};
use crate::finding::{finding_of, same_meta, Finding, FindingView, LocationView};
use crate::rule::RuleMetadata;
use crate::rules::util::{
    self, calls_where, contract_fns, facts_of, is_client_constructor, is_persistent_mutation,
    is_storage_iteration, is_storage_mutation, is_ttl_call, panics_of, requires_auth,
    stellar_address_shape, CallView, ContractFnView, FactsView,
};
use crate::source::{ParsedSource, SourceView};
use crate::text;

verus! {

/// The entry-point detectors.
#[derive(Clone, Copy, PartialEq, Eq, Structural)]
pub enum EntryCheck {
    /// Storage mutation with no authorization (SS-001).
    MissingAuthorization,
    /// Cross-contract client with no authorization (SS-002).
    CrossContract,
    /// Storage iteration (SS-003).
    UnboundedIteration,
    /// Panic-prone construct (SS-004).
    PanicProne,
    /// Persistent write without TTL management (SS-006).
    TtlManagement,
}

/// The file detectors.
#[derive(Clone, Copy, PartialEq, Eq, Structural)]
pub enum FileCheck {
    /// `unsafe` code (SS-005).
    UnsafeCode,
    /// Hardcoded Stellar address (SS-007).
    HardcodedAddress,
}

/// The location of a fact in a source, relative to the scan root.
pub open spec fn fact_location(root: Seq<char>, src: SourceView, line: usize, column: usize) -> LocationView {
    LocationView {
        file: relative_spec(root, src.path),
        line,
        column: Some(column),
        end_line: None,
        end_column: None,
    }
}

/// `` `name` `` quoted with backticks.
pub open spec fn quoted(name: Seq<char>) -> Seq<char> {
    "`"@ + name + "`"@
}

/// The evidence of a call found by an entry-point detector in function `func`.
pub open spec fn call_evidence(check: EntryCheck, func: Seq<char>, c: CallView) -> Seq<char> {
    match check {
        EntryCheck::MissingAuthorization => quoted(c.name)
            + " storage mutation with no authorization in "@ + quoted(func) + ": "@ + c.text,
        EntryCheck::CrossContract => "cross-contract client constructed with no authorization in "@
            + quoted(func) + ": "@ + c.text,
        EntryCheck::UnboundedIteration => "storage iteration in "@ + quoted(func) + ": "@ + c.text,
        EntryCheck::TtlManagement => "persistent storage write without TTL extension in "@ + quoted(
            func,
        ) + ": "@ + c.text,
        EntryCheck::PanicProne => Seq::empty(),
    }
}

/// The calls an entry-point detector reports in a function with these facts.
pub open spec fn reported_calls(check: EntryCheck, f: FactsView) -> Seq<CallView> {
    match check {
        EntryCheck::MissingAuthorization => if requires_auth(f) {
            Seq::empty()
        } else {
            calls_where(f.method_calls, |c: CallView| is_storage_mutation(c))
        },
        EntryCheck::CrossContract => if requires_auth(f) {
            Seq::empty()
        } else {
            calls_where(f.function_calls, |c: CallView| is_client_constructor(c))
        },
        EntryCheck::UnboundedIteration => calls_where(
            f.method_calls,
            |c: CallView| is_storage_iteration(c),
        ),
        EntryCheck::TtlManagement => {
            let writes = calls_where(f.method_calls, |c: CallView| is_persistent_mutation(c));
            if writes.len() == 0 || calls_where(f.method_calls, |c: CallView| is_ttl_call(c)).len()
                > 0 {
                Seq::empty()
            } else {
                writes
            }
        },
        EntryCheck::PanicProne => Seq::empty(),
    }
}

/// The findings of an entry-point detector in one contract function.
pub open spec fn function_findings(
    check: EntryCheck,
    meta: RuleMetadata,
    root: Seq<char>,
    src: SourceView,
    func: ContractFnView,
) -> Seq<FindingView> {
    let facts = facts_of(func.block);
    if !func.is_public {
        Seq::empty()
    } else if check == EntryCheck::PanicProne {
        panics_of(facts).map_values(
            |p: (Seq<char>, usize, usize, Seq<char>)|
                finding_of(
                    meta,
                    fact_location(root, src, p.1, p.2),
                    quoted(p.0) + " in "@ + quoted(func.name) + " can panic: "@ + p.3,
                ),
        )
    } else {
        reported_calls(check, facts).map_values(
            |c: CallView|
                finding_of(
                    meta,
                    fact_location(root, src, c.line, c.column),
                    call_evidence(check, func.name, c),
                ),
        )
    }
}

/// The findings of an entry-point detector over the first `n` contract functions.
pub open spec fn functions_findings(
    check: EntryCheck,
    meta: RuleMetadata,
    root: Seq<char>,
    src: SourceView,
    fns: Seq<ContractFnView>,
) -> Seq<FindingView>
    decreases fns.len(),
{
    if fns.len() == 0 {
        Seq::empty()
    } else {
        functions_findings(check, meta, root, src, fns.drop_last()) + function_findings(
            check,
            meta,
            root,
            src,
            fns.last(),
        )
    }
}

/// The findings of an entry-point detector over a list of sources (unparsed
/// sources are skipped).
pub open spec fn entry_findings(check: EntryCheck, meta: RuleMetadata, root: Seq<char>, sources: Seq<SourceView>) -> Seq<FindingView>
    decreases sources.len(),
{
    if sources.len() == 0 {
        Seq::empty()
    } else {
        let s = sources.last();
        entry_findings(check, meta, root, sources.drop_last()) + match s.syntax {
            Some(tree) => functions_findings(check, meta, root, s, contract_fns(tree)),
            None => Seq::empty(),
        }
    }
}

/// The findings of a file detector in one parsed source.
pub open spec fn source_file_findings(check: FileCheck, meta: RuleMetadata, root: Seq<char>, src: SourceView) -> Seq<FindingView> {
    match src.syntax {
        None => Seq::empty(),
        Some(tree) => {
            let facts = facts_of(tree.facts@);
            match check {
                FileCheck::UnsafeCode => facts.unsafe_locations.map_values(
                    |l: (usize, usize)|
                        finding_of(
                            meta,
                            fact_location(root, src, l.0, l.1),
                            "unsafe block/expression in "@ + src.path,
                        ),
                ),
                FileCheck::HardcodedAddress => util::strings_where_address(facts.strings).map_values(
                    |s: util::StringView|
                        finding_of(
                            meta,
                            fact_location(root, src, s.line, s.column),
                            "hardcoded Stellar address literal: "@ + s.value,
                        ),
                ),
            }
        },
    }
}

/// The findings of a file detector over a list of sources.
pub open spec fn file_findings(check: FileCheck, meta: RuleMetadata, root: Seq<char>, sources: Seq<SourceView>) -> Seq<FindingView>
    decreases sources.len(),
{
    if sources.len() == 0 {
        Seq::empty()
    } else {
        file_findings(check, meta, root, sources.drop_last()) + source_file_findings(
            check,
            meta,
            root,
            sources.last(),
        )
    }
}

/// Entry-point findings depend on a rule's metadata only through its text.
proof fn lemma_function_findings_meta(
    check: EntryCheck,
    a: RuleMetadata,
    b: RuleMetadata,
    root: Seq<char>,
    src: SourceView,
    func: ContractFnView,
)
    requires
        same_meta(a, b),
    ensures
        function_findings(check, a, root, src, func) == function_findings(check, b, root, src, func),
{
    assert(function_findings(check, a, root, src, func) =~= function_findings(check, b, root, src, func));
}

proof fn lemma_functions_findings_meta(
    check: EntryCheck,
    a: RuleMetadata,
    b: RuleMetadata,
    root: Seq<char>,
    src: SourceView,
    fns: Seq<ContractFnView>,
)
    requires
        same_meta(a, b),
    ensures
        functions_findings(check, a, root, src, fns) == functions_findings(check, b, root, src, fns),
    decreases fns.len(),
{
    if fns.len() > 0 {
        lemma_functions_findings_meta(check, a, b, root, src, fns.drop_last());
        lemma_function_findings_meta(check, a, b, root, src, fns.last());
    }
}

/// Entry-point findings over sources depend on the metadata only through its text.
pub proof fn lemma_entry_findings_meta(
    check: EntryCheck,
    a: RuleMetadata,
    b: RuleMetadata,
    root: Seq<char>,
    sources: Seq<SourceView>,
)
    requires
        same_meta(a, b),
    ensures
        entry_findings(check, a, root, sources) == entry_findings(check, b, root, sources),
    decreases sources.len(),
{
    if sources.len() > 0 {
        lemma_entry_findings_meta(check, a, b, root, sources.drop_last());
        match sources.last().syntax {
            Some(tree) => lemma_functions_findings_meta(check, a, b, root, sources.last(), contract_fns(tree)),
            None => {},
        }
    }
}

/// File findings over sources depend on the metadata only through its text.
pub proof fn lemma_file_findings_meta(
    check: FileCheck,
    a: RuleMetadata,
    b: RuleMetadata,
    root: Seq<char>,
    sources: Seq<SourceView>,
)
    requires
        same_meta(a, b),
    ensures
        file_findings(check, a, root, sources) == file_findings(check, b, root, sources),
    decreases sources.len(),
{
    if sources.len() > 0 {
        lemma_file_findings_meta(check, a, b, root, sources.drop_last());
        assert(source_file_findings(check, a, root, sources.last()) =~= source_file_findings(
            check,
            b,
            root,
            sources.last(),
        ));
    }
}

/// The views of a list of findings.
pub open spec fn finding_views(v: Seq<Finding>) -> Seq<FindingView> {
    v.map_values(|f: Finding| f@)
}

/// The views of the parsed sources of a context.
pub open spec fn context_sources(ctx: &AnalysisContext) -> Seq<SourceView> {
    ctx.sources@.map_values(|s: ParsedSource| s@)
}

/// `` `name` `` as a string.
fn quote_into(out: &mut String, name: &str)
    ensures
        final(out)@ == old(out)@ + quoted(name@),
{
    proof {
        reveal_strlit("`");
    }
    text::push_str(out, "`");
    text::push_str(out, name);
    text::push_str(out, "`");
    assert(final(out)@ =~= old(out)@ + quoted(name@));
}

fn call_evidence_exec(check: EntryCheck, func: &str, c: &util::CallFact) -> (r: String)
    requires
        check != EntryCheck::PanicProne,
    ensures
        r@ == call_evidence(check, func@, c@),
{
    let mut e = String::new();
    match check {
        EntryCheck::MissingAuthorization => {
            quote_into(&mut e, c.name.as_str());
            text::push_str(&mut e, " storage mutation with no authorization in ");
        },
        EntryCheck::CrossContract => {
            text::push_str(&mut e, "cross-contract client constructed with no authorization in ");
        },
        EntryCheck::UnboundedIteration => {
            text::push_str(&mut e, "storage iteration in ");
        },
        EntryCheck::TtlManagement => {
            text::push_str(&mut e, "persistent storage write without TTL extension in ");
        },
        EntryCheck::PanicProne => {},
    }
    quote_into(&mut e, func);
    text::push_str(&mut e, ": ");
    text::push_str(&mut e, c.text.as_str());
    proof {
        assert(e@ =~= call_evidence(check, func@, c@));
    }
    e
}

/// The calls an entry-point detector reports.
fn reported_calls_exec<'a>(check: EntryCheck, f: &'a util::Facts) -> (r: Vec<&'a util::CallFact>)
    requires
        check != EntryCheck::PanicProne,
    ensures
        r@.map_values(|c: &util::CallFact| c@) == reported_calls(check, f@),
{
    match check {
        EntryCheck::MissingAuthorization => {
            if f.has_require_auth() {
                let v: Vec<&util::CallFact> = Vec::new();
                assert(v@.map_values(|c: &util::CallFact| c@) =~= Seq::<CallView>::empty());
                v
            } else {
                f.storage_mutations()
            }
        },
        EntryCheck::CrossContract => {
            if f.has_require_auth() {
                let v: Vec<&util::CallFact> = Vec::new();
                assert(v@.map_values(|c: &util::CallFact| c@) =~= Seq::<CallView>::empty());
                v
            } else {
                f.cross_contract_constructors()
            }
        },
        EntryCheck::UnboundedIteration => f.storage_iterations(),
        EntryCheck::TtlManagement => {
            let writes = f.persistent_mutations();
            let ttl = f.ttl_management();
            if writes.len() == 0 || ttl.len() > 0 {
                let v: Vec<&util::CallFact> = Vec::new();
                assert(v@.map_values(|c: &util::CallFact| c@) =~= Seq::<CallView>::empty());
                v
            } else {
                writes
            }
        },
        EntryCheck::PanicProne => Vec::new(),
    }
}

/// Appends the findings of an entry-point detector in one contract function.
fn function_findings_exec(
    check: EntryCheck,
    meta: &RuleMetadata,
    ctx: &AnalysisContext<'_>,
    src: &ParsedSource,
    func: &util::ContractFn<'_>,
    out: &mut Vec<Finding>,
)
    ensures
        finding_views(final(out)@) == finding_views(old(out)@) + function_findings(
            check,
            *meta,
            ctx.root@,
            src@,
            func@,
        ),
{
    let ghost base = finding_views(out@);
    if !func.is_public {
        assert(finding_views(out@) =~= base + Seq::<FindingView>::empty());
        return;
    }
    let facts = util::facts_from_block(func.block);
    if check == EntryCheck::PanicProne {
        let sites = facts.panics();
        let ghost want = function_findings(check, *meta, ctx.root@, src@, func@);
        let ghost sv = sites@.map_values(|p: util::PanicSite| util::site_view(p));
        let mut k: usize = 0;
        while k < sites.len()
            invariant
                k <= sites.len(),
                sv == sites@.map_values(|p: util::PanicSite| util::site_view(p)),
                sv == panics_of(facts@),
                want.len() == sv.len(),
                forall|q: int| 0 <= q < sv.len() ==> #[trigger] want[q] == finding_of(
                    *meta,
                    fact_location(ctx.root@, src@, sv[q].1, sv[q].2),
                    quoted(sv[q].0) + " in "@ + quoted(func.name@) + " can panic: "@ + sv[q].3,
                ),
                finding_views(out@) == base + want.take(k as int),
            decreases sites.len() - k,
        {
            let p = sites[k];
            let mut e = String::new();
            quote_into(&mut e, p.0);
            text::push_str(&mut e, " in ");
            quote_into(&mut e, func.name.as_str());
            text::push_str(&mut e, " can panic: ");
            text::push_str(&mut e, p.3);
            let loc = util::location_for(ctx, src, p.1, p.2);
            let fnd = Finding::new(meta, loc, e.as_str());
            proof {
                assert(sv[k as int] == util::site_view(p));
                assert(e@ =~= quoted(sv[k as int].0) + " in "@ + quoted(func.name@) + " can panic: "@ + sv[k as int].3);
                assert(fnd@ == want[k as int]);
            }
            let ghost ov = finding_views(out@);
            out.push(fnd);
            assert(finding_views(out@) =~= ov.push(fnd@));
            k = k + 1;
            assert(want.take(k as int) =~= want.take(k - 1).push(want[k - 1]));
        }
        assert(want.take(sites.len() as int) =~= want);
        return;
    }
    let calls = reported_calls_exec(check, &facts);
    let ghost want = function_findings(check, *meta, ctx.root@, src@, func@);
    let ghost cv = calls@.map_values(|c: &util::CallFact| c@);
    let mut k: usize = 0;
    while k < calls.len()
        invariant
            k <= calls.len(),
            check != EntryCheck::PanicProne,
            cv == calls@.map_values(|c: &util::CallFact| c@),
            cv == reported_calls(check, facts@),
            want.len() == cv.len(),
            forall|q: int| 0 <= q < cv.len() ==> #[trigger] want[q] == finding_of(
                *meta,
                fact_location(ctx.root@, src@, cv[q].line, cv[q].column),
                call_evidence(check, func.name@, cv[q]),
            ),
            finding_views(out@) == base + want.take(k as int),
        decreases calls.len() - k,
    {
        let c = calls[k];
        let e = call_evidence_exec(check, func.name.as_str(), c);
        let loc = util::location_for(ctx, src, c.line, c.column);
        let fnd = Finding::new(meta, loc, e.as_str());
        proof {
            assert(cv[k as int] == c@);
            assert(fnd@ == want[k as int]);
        }
        let ghost ov = finding_views(out@);
        out.push(fnd);
        assert(finding_views(out@) =~= ov.push(fnd@));
        k = k + 1;
        assert(want.take(k as int) =~= want.take(k - 1).push(want[k - 1]));
    }
    assert(want.take(calls.len() as int) =~= want);
}

/// Appends the findings of an entry-point detector over all sources.
pub fn entry_point_findings(check: EntryCheck, meta: &RuleMetadata, ctx: &AnalysisContext<'_>, out: &mut Vec<Finding>)
    ensures
        finding_views(final(out)@) == finding_views(old(out)@) + entry_findings(
            check,
            *meta,
            ctx.root@,
            context_sources(ctx),
        ),
{
    let ghost base = finding_views(out@);
    let ghost sv = context_sources(ctx);
    let mut i: usize = 0;
    while i < ctx.sources.len()
        invariant
            i <= ctx.sources@.len(),
            sv == context_sources(ctx),
            finding_views(out@) == base + entry_findings(check, *meta, ctx.root@, sv.take(i as int)),
        decreases ctx.sources@.len() - i,
    {
        assert(sv.take(i + 1).drop_last() =~= sv.take(i as int));
        let src = &ctx.sources[i];
        assert(sv[i as int] == src@);
        let ghost before = finding_views(out@);
        match &src.syntax {
            Some(tree) => {
                let fns = util::contract_entry_functions(tree);
                let ghost fv = fns@.map_values(|f: util::ContractFn| f@);
                let mut j: usize = 0;
                while j < fns.len()
                    invariant
                        j <= fns.len(),
                        fv == fns@.map_values(|f: util::ContractFn| f@),
                        fv == contract_fns(*tree),
                        finding_views(out@) == before + functions_findings(
                            check,
                            *meta,
                            ctx.root@,
                            src@,
                            fv.take(j as int),
                        ),
                    decreases fns.len() - j,
                {
                    assert(fv.take(j + 1).drop_last() =~= fv.take(j as int));
                    assert(fv[j as int] == fns[j as int]@);
                    function_findings_exec(check, meta, ctx, src, &fns[j], out);
                    j = j + 1;
                    assert(finding_views(out@) =~= before + functions_findings(
                        check,
                        *meta,
                        ctx.root@,
                        src@,
                        fv.take(j as int),
                    ));
                }
                assert(fv.take(fns.len() as int) =~= fv);
            },
            None => {},
        }
        i = i + 1;
        assert(finding_views(out@) =~= base + entry_findings(check, *meta, ctx.root@, sv.take(i as int)));
    }
    assert(sv.take(ctx.sources@.len() as int) =~= sv);
}

/// Appends the findings of a file detector over all sources.
pub fn file_check_findings(check: FileCheck, meta: &RuleMetadata, ctx: &AnalysisContext<'_>, out: &mut Vec<Finding>)
    ensures
        finding_views(final(out)@) == finding_views(old(out)@) + file_findings(
            check,
            *meta,
            ctx.root@,
            context_sources(ctx),
        ),
{
    let ghost base = finding_views(out@);
    let ghost sv = context_sources(ctx);
    let mut i: usize = 0;
    while i < ctx.sources.len()
        invariant
            i <= ctx.sources@.len(),
            sv == context_sources(ctx),
            finding_views(out@) == base + file_findings(check, *meta, ctx.root@, sv.take(i as int)),
        decreases ctx.sources@.len() - i,
    {
        assert(sv.take(i + 1).drop_last() =~= sv.take(i as int));
        let src = &ctx.sources[i];
        assert(sv[i as int] == src@);
        let ghost before = finding_views(out@);
        let ghost want = source_file_findings(check, *meta, ctx.root@, src@);
        match &src.syntax {
            Some(tree) => {
                let facts = util::facts_from_file(tree);
                match check {
                    FileCheck::UnsafeCode => {
                        let mut k: usize = 0;
                        while k < facts.unsafe_locations.len()
                            invariant
                                k <= facts.unsafe_locations.len(),
                                src.syntax == Some(*tree),
                                facts@ == facts_of(tree.facts@),
                                check == FileCheck::UnsafeCode,
                                want == source_file_findings(check, *meta, ctx.root@, src@),
                                finding_views(out@) == before + want.take(k as int),
                            decreases facts.unsafe_locations.len() - k,
                        {
                            let (line, column) = facts.unsafe_locations[k];
                            let mut e = text::owned("unsafe block/expression in ");
                            text::push_str(&mut e, src.path.as_str());
                            let loc = util::location_for(ctx, src, line, column);
                            let fnd = Finding::new(meta, loc, e.as_str());
                            assert(fnd@ == want[k as int]);
                            let ghost ov = finding_views(out@);
                            out.push(fnd);
                            assert(finding_views(out@) =~= ov.push(fnd@));
                            k = k + 1;
                            assert(want.take(k as int) =~= want.take(k - 1).push(want[k - 1]));
                        }
                        assert(want.take(facts.unsafe_locations.len() as int) =~= want);
                    },
                    FileCheck::HardcodedAddress => {
                        let addrs = util::address_literals(&facts.strings);
                        let ghost av = addrs@.map_values(|s: &util::StringFact| s@);
                        let mut k: usize = 0;
                        while k < addrs.len()
                            invariant
                                k <= addrs.len(),
                                src.syntax == Some(*tree),
                                facts@ == facts_of(tree.facts@),
                                check == FileCheck::HardcodedAddress,
                                av == addrs@.map_values(|s: &util::StringFact| s@),
                                av == util::strings_where_address(facts@.strings),
                                want == source_file_findings(check, *meta, ctx.root@, src@),
                                finding_views(out@) == before + want.take(k as int),
                            decreases addrs.len() - k,
                        {
                            let s = addrs[k];
                            let mut e = text::owned("hardcoded Stellar address literal: ");
                            text::push_str(&mut e, s.value.as_str());
                            let loc = util::location_for(ctx, src, s.line, s.column);
                            let fnd = Finding::new(meta, loc, e.as_str());
                            assert(av[k as int] == s@);
                            assert(fnd@ == want[k as int]);
                            let ghost ov = finding_views(out@);
                            out.push(fnd);
                            assert(finding_views(out@) =~= ov.push(fnd@));
                            k = k + 1;
                            assert(want.take(k as int) =~= want.take(k - 1).push(want[k - 1]));
                        }
                        assert(want.take(addrs.len() as int) =~= want);
                    },
                }
            },
            None => {
                assert(want =~= Seq::<FindingView>::empty());
            },
        }
        assert(finding_views(out@) =~= before + want);
        i = i + 1;
        assert(finding_views(out@) =~= base + file_findings(check, *meta, ctx.root@, sv.take(i as int)));
    }
    assert(sv.take(ctx.sources@.len() as int) =~= sv);
}

} // verus!
