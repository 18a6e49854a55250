//! Laws of the detectors: which facts of a contract function or a source
//! file each detector reports, stated over the facts themselves.
use vstd::prelude::*;

use crate::finding::{finding_of, FindingView};
use crate::rule::RuleMetadata;
use crate::rules::checks::{fact_location, function_findings, quoted, source_file_findings, EntryCheck, FileCheck};
use crate::rules::util::{
    calls_where, facts_of, insert_site, mentions, panic_calls, panic_macros, panics_of, sort_sites,
    strings_where_address, CallView, ContractFnView, FactsView, MacroView, StringView,
};
use crate::source::SourceView;
use crate::text::has_infix;

verus! {

/// Selecting calls by a predicate keeps, in order, the calls that satisfy any
/// predicate agreeing with it.
proof fn lemma_calls_where_is_filter(
    s: Seq<CallView>,
    p: spec_fn(CallView) -> bool,
    q: spec_fn(CallView) -> bool,
)
    requires
        forall|c: CallView| #[trigger] p(c) == q(c),
    ensures
        calls_where(s, p) == s.filter(q),
    decreases s.len(),
{
    reveal(Seq::filter);
    if s.len() > 0 {
        lemma_calls_where_is_filter(s.drop_last(), p, q);
    }
}

/// SS-001: in a public contract function that calls neither `require_auth`
/// nor `require_auth_for_args`, every call of `set`, `remove`, `update`,
/// `extend_ttl`, `set_ttl` or `bump` on a receiver that mentions storage is
/// reported once, at its position and in order, and nothing else is; a
/// function that calls either authorization method is not reported at all.
pub proof fn lemma_missing_authorization_reports(
    meta: RuleMetadata,
    root: Seq<char>,
    src: SourceView,
    func: ContractFnView,
)
    requires
        func.is_public,
    ensures
        ({
            let calls = facts_of(func.block).method_calls;
            let authorized = exists|i: int|
                0 <= i < calls.len() && (#[trigger] calls[i].name == "require_auth"@ || calls[i].name
                    == "require_auth_for_args"@);
            let writes = calls.filter(
                |c: CallView|
                    (c.name == "set"@ || c.name == "remove"@ || c.name == "update"@ || c.name
                        == "extend_ttl"@ || c.name == "set_ttl"@ || c.name == "bump"@) && mentions(
                        c.context,
                        "storage"@,
                    ),
            );
            function_findings(EntryCheck::MissingAuthorization, meta, root, src, func) == if authorized {
                Seq::<FindingView>::empty()
            } else {
                writes.map_values(
                    |c: CallView|
                        finding_of(
                            meta,
                            fact_location(root, src, c.line, c.column),
                            quoted(c.name) + " storage mutation with no authorization in "@ + quoted(
                                func.name,
                            ) + ": "@ + c.text,
                        ),
                )
            }
        }),
{
    let calls = facts_of(func.block).method_calls;
    lemma_calls_where_is_filter(
        calls,
        |c: CallView| crate::rules::util::is_storage_mutation(c),
        |c: CallView|
            (c.name == "set"@ || c.name == "remove"@ || c.name == "update"@ || c.name == "extend_ttl"@
                || c.name == "set_ttl"@ || c.name == "bump"@) && mentions(c.context, "storage"@),
    );
}

/// The panic sites of method calls are the `unwrap` and `expect` calls, in order.
proof fn lemma_panic_calls_are_filter(s: Seq<CallView>)
    ensures
        panic_calls(s) == s.filter(|c: CallView| c.name == "unwrap"@ || c.name == "expect"@).map_values(
            |c: CallView| (c.name, c.line, c.column, c.text),
        ),
    decreases s.len(),
{
    reveal(Seq::filter);
    if s.len() > 0 {
        lemma_panic_calls_are_filter(s.drop_last());
        let r = s.drop_last().filter(|c: CallView| c.name == "unwrap"@ || c.name == "expect"@);
        assert(r.push(s.last()).map_values(|c: CallView| (c.name, c.line, c.column, c.text)) =~= r.map_values(
            |c: CallView| (c.name, c.line, c.column, c.text),
        ).push((s.last().name, s.last().line, s.last().column, s.last().text)));
    }
}

/// The panic sites of macros are the `panic!`, `todo!`, `unimplemented!` and
/// `unreachable!` invocations, in order.
proof fn lemma_panic_macros_are_filter(s: Seq<MacroView>)
    ensures
        panic_macros(s) == s.filter(
            |m: MacroView|
                m.name == "panic"@ || m.name == "todo"@ || m.name == "unimplemented"@ || m.name
                    == "unreachable"@,
        ).map_values(|m: MacroView| (m.name, m.line, m.column, m.text)),
    decreases s.len(),
{
    reveal(Seq::filter);
    if s.len() > 0 {
        lemma_panic_macros_are_filter(s.drop_last());
        let r = s.drop_last().filter(
            |m: MacroView|
                m.name == "panic"@ || m.name == "todo"@ || m.name == "unimplemented"@ || m.name
                    == "unreachable"@,
        );
        assert(r.push(s.last()).map_values(|m: MacroView| (m.name, m.line, m.column, m.text)) =~= r.map_values(
            |m: MacroView| (m.name, m.line, m.column, m.text),
        ).push((s.last().name, s.last().line, s.last().column, s.last().text)));
    }
}

/// Positions in (line, column) order.
spec fn before_or_at(a: (Seq<char>, usize, usize, Seq<char>), b: (Seq<char>, usize, usize, Seq<char>)) -> bool {
    a.1 < b.1 || (a.1 == b.1 && a.2 <= b.2)
}

/// Inserting a site adds it to the sites, and keeps sites in position order.
proof fn lemma_insert_site(s: Seq<(Seq<char>, usize, usize, Seq<char>)>, x: (Seq<char>, usize, usize, Seq<char>))
    ensures
        insert_site(s, x).to_multiset() == s.to_multiset().insert(x),
        (forall|i: int, j: int| 0 <= i < j < s.len() ==> before_or_at(#[trigger] s[i], #[trigger] s[j]))
            ==> (forall|i: int, j: int|
            0 <= i < j < insert_site(s, x).len() ==> before_or_at(
                #[trigger] insert_site(s, x)[i],
                #[trigger] insert_site(s, x)[j],
            )),
    decreases s.len(),
{
    broadcast use vstd::seq_lib::group_to_multiset_ensures;
    if s.len() == 0 {
        assert(seq![x] =~= Seq::<(Seq<char>, usize, usize, Seq<char>)>::empty().push(x));
    } else if before_or_at(s.last(), x) {
    } else {
        let p = s.drop_last();
        lemma_insert_site(p, x);
        assert(p.push(s.last()) =~= s);
        let t = insert_site(p, x);
        if forall|i: int, j: int| 0 <= i < j < s.len() ==> before_or_at(#[trigger] s[i], #[trigger] s[j]) {
            assert forall|k: int| 0 <= k < t.len() implies before_or_at(#[trigger] t[k], s.last()) by {
                assert(t.to_multiset().count(t[k]) > 0);
                if t[k] != x {
                    assert(p.to_multiset().count(t[k]) > 0);
                    let w = choose|w: int| 0 <= w < p.len() && p[w] == t[k];
                    assert(s[w] == p[w]);
                }
            }
            let u = t.push(s.last());
            assert forall|i: int, j: int| 0 <= i < j < u.len() implies before_or_at(#[trigger] u[i], #[trigger] u[j]) by {
                if j == t.len() {
                    assert(u[i] == t[i]);
                } else {
                    assert(u[i] == t[i] && u[j] == t[j]);
                    assert forall|a: int, b: int| 0 <= a < b < p.len() implies before_or_at(#[trigger] p[a], #[trigger] p[b]) by {
                        assert(p[a] == s[a] && p[b] == s[b]);
                    }
                }
            }
        }
    }
}

/// Sorting sites keeps every site, as often as it occurs, in position order.
proof fn lemma_sort_sites(s: Seq<(Seq<char>, usize, usize, Seq<char>)>)
    ensures
        sort_sites(s).to_multiset() == s.to_multiset(),
        forall|i: int, j: int|
            0 <= i < j < sort_sites(s).len() ==> before_or_at(#[trigger] sort_sites(s)[i], #[trigger] sort_sites(s)[j]),
    decreases s.len(),
{
    broadcast use vstd::seq_lib::group_to_multiset_ensures;
    if s.len() > 0 {
        lemma_sort_sites(s.drop_last());
        lemma_insert_site(sort_sites(s.drop_last()), s.last());
        assert(s.drop_last().push(s.last()) =~= s);
    }
}

/// SS-004's sites: the panic sites of a function's facts are its `unwrap` and
/// `expect` calls and its `panic!`, `todo!`, `unimplemented!` and
/// `unreachable!` invocations, each once, ordered by line and column.
pub proof fn lemma_panic_sites(f: FactsView)
    ensures
        panics_of(f).to_multiset() == (f.method_calls.filter(
            |c: CallView| c.name == "unwrap"@ || c.name == "expect"@,
        ).map_values(|c: CallView| (c.name, c.line, c.column, c.text)) + f.macros.filter(
            |m: MacroView|
                m.name == "panic"@ || m.name == "todo"@ || m.name == "unimplemented"@ || m.name
                    == "unreachable"@,
        ).map_values(|m: MacroView| (m.name, m.line, m.column, m.text))).to_multiset(),
        forall|i: int, j: int|
            0 <= i < j < panics_of(f).len() ==> (#[trigger] panics_of(f)[i]).1 < (#[trigger] panics_of(f)[j]).1
                || (panics_of(f)[i].1 == panics_of(f)[j].1 && panics_of(f)[i].2 <= panics_of(f)[j].2),
{
    lemma_panic_calls_are_filter(f.method_calls);
    lemma_panic_macros_are_filter(f.macros);
    lemma_sort_sites(panic_calls(f.method_calls) + panic_macros(f.macros));
}

/// SS-004: in a public contract function, every `unwrap` or `expect` call and
/// every `panic!`, `todo!`, `unimplemented!` or `unreachable!` invocation is
/// reported at its position, and the findings are exactly as many as these
/// constructs.
pub proof fn lemma_panic_prone_reports(meta: RuleMetadata, root: Seq<char>, src: SourceView, func: ContractFnView)
    requires
        func.is_public,
    ensures
        ({
            let f = facts_of(func.block);
            let found = function_findings(EntryCheck::PanicProne, meta, root, src, func);
            &&& found.len() == f.method_calls.filter(|c: CallView| c.name == "unwrap"@ || c.name == "expect"@).len()
                + f.macros.filter(
                |m: MacroView|
                    m.name == "panic"@ || m.name == "todo"@ || m.name == "unimplemented"@ || m.name
                        == "unreachable"@,
            ).len()
            &&& forall|i: int|
                0 <= i < f.method_calls.len() && (#[trigger] f.method_calls[i].name == "unwrap"@
                    || f.method_calls[i].name == "expect"@) ==> found.contains(
                    finding_of(
                        meta,
                        fact_location(root, src, f.method_calls[i].line, f.method_calls[i].column),
                        quoted(f.method_calls[i].name) + " in "@ + quoted(func.name) + " can panic: "@
                            + f.method_calls[i].text,
                    ),
                )
            &&& forall|i: int|
                0 <= i < f.macros.len() && (#[trigger] f.macros[i].name == "panic"@ || f.macros[i].name
                    == "todo"@ || f.macros[i].name == "unimplemented"@ || f.macros[i].name
                    == "unreachable"@) ==> found.contains(
                    finding_of(
                        meta,
                        fact_location(root, src, f.macros[i].line, f.macros[i].column),
                        quoted(f.macros[i].name) + " in "@ + quoted(func.name) + " can panic: "@
                            + f.macros[i].text,
                    ),
                )
        }),
{
    broadcast use vstd::seq_lib::group_to_multiset_ensures;
    reveal(Seq::filter);
    let f = facts_of(func.block);
    lemma_panic_sites(f);
    let cp = |c: CallView| c.name == "unwrap"@ || c.name == "expect"@;
    let mp = |m: MacroView|
        m.name == "panic"@ || m.name == "todo"@ || m.name == "unimplemented"@ || m.name == "unreachable"@;
    let a = f.method_calls.filter(cp).map_values(|c: CallView| (c.name, c.line, c.column, c.text));
    let b = f.macros.filter(mp).map_values(|m: MacroView| (m.name, m.line, m.column, m.text));
    let ps = panics_of(f);
    let g = |p: (Seq<char>, usize, usize, Seq<char>)|
        finding_of(meta, fact_location(root, src, p.1, p.2), quoted(p.0) + " in "@ + quoted(func.name) + " can panic: "@ + p.3);
    let found = function_findings(EntryCheck::PanicProne, meta, root, src, func);
    assert(found == ps.map_values(g));
    assert(ps.len() == (a + b).len()) by {
        assert(ps.to_multiset().len() == (a + b).to_multiset().len());
    }
    assert forall|i: int|
        0 <= i < f.method_calls.len() && (#[trigger] f.method_calls[i].name == "unwrap"@ || f.method_calls[i].name
            == "expect"@) implies found.contains(
        finding_of(
            meta,
            fact_location(root, src, f.method_calls[i].line, f.method_calls[i].column),
            quoted(f.method_calls[i].name) + " in "@ + quoted(func.name) + " can panic: "@ + f.method_calls[i].text,
        ),
    ) by {
        let c = f.method_calls[i];
        let site = (c.name, c.line, c.column, c.text);
        f.method_calls.lemma_filter_contains(cp, i);
        let k = choose|k: int| 0 <= k < f.method_calls.filter(cp).len() && f.method_calls.filter(cp)[k] == c;
        assert(a[k] == site);
        assert((a + b)[k] == site);
        assert((a + b).contains(site));
        assert((a + b).to_multiset().count(site) > 0);
        assert(ps.to_multiset().count(site) > 0);
        assert(ps.contains(site));
        let w = choose|w: int| 0 <= w < ps.len() && ps[w] == site;
        assert(found[w] == g(site));
    }
    assert forall|i: int|
        0 <= i < f.macros.len() && (#[trigger] f.macros[i].name == "panic"@ || f.macros[i].name == "todo"@
            || f.macros[i].name == "unimplemented"@ || f.macros[i].name == "unreachable"@) implies found.contains(
        finding_of(
            meta,
            fact_location(root, src, f.macros[i].line, f.macros[i].column),
            quoted(f.macros[i].name) + " in "@ + quoted(func.name) + " can panic: "@ + f.macros[i].text,
        ),
    ) by {
        let m = f.macros[i];
        let site = (m.name, m.line, m.column, m.text);
        f.macros.lemma_filter_contains(mp, i);
        let k = choose|k: int| 0 <= k < f.macros.filter(mp).len() && f.macros.filter(mp)[k] == m;
        assert(b[k] == site);
        assert((a + b)[a.len() + k] == site);
        assert((a + b).contains(site));
        assert((a + b).to_multiset().count(site) > 0);
        assert(ps.to_multiset().count(site) > 0);
        assert(ps.contains(site));
        let w = choose|w: int| 0 <= w < ps.len() && ps[w] == site;
        assert(found[w] == g(site));
    }
}

/// The address-shaped literals of a list are those of 56 characters that
/// start with `G` or `C` and continue with base32 characters (`A`-`Z`,
/// `2`-`7`), each kept once, in order.
proof fn lemma_address_literals_are_filter(s: Seq<StringView>)
    ensures
        strings_where_address(s) == s.filter(
            |x: StringView|
                x.value.len() == 56 && (x.value[0] == 'G' || x.value[0] == 'C') && forall|k: int|
                    1 <= k < 56 ==> ('A' <= #[trigger] x.value[k] && x.value[k] <= 'Z') || ('2' <= x.value[k]
                        && x.value[k] <= '7'),
        ),
    decreases s.len(),
{
    reveal(Seq::filter);
    if s.len() > 0 {
        lemma_address_literals_are_filter(s.drop_last());
    }
}

/// SS-007: the findings for a parsed source are its string literals shaped
/// like Stellar strkeys (56 characters, `G` or `C` first, base32 after),
/// one per literal, at its position and in order; an unparsed source has none.
pub proof fn lemma_hardcoded_address_reports(meta: RuleMetadata, root: Seq<char>, src: SourceView)
    ensures
        source_file_findings(FileCheck::HardcodedAddress, meta, root, src) == match src.syntax {
            None => Seq::<FindingView>::empty(),
            Some(tree) => facts_of(tree.facts@).strings.filter(
                |x: StringView|
                    x.value.len() == 56 && (x.value[0] == 'G' || x.value[0] == 'C') && forall|k: int|
                        1 <= k < 56 ==> ('A' <= #[trigger] x.value[k] && x.value[k] <= 'Z') || ('2'
                            <= x.value[k] && x.value[k] <= '7'),
            ).map_values(
                |x: StringView|
                    finding_of(
                        meta,
                        fact_location(root, src, x.line, x.column),
                        "hardcoded Stellar address literal: "@ + x.value,
                    ),
            ),
        },
{
    match src.syntax {
        None => {},
        Some(tree) => {
            lemma_address_literals_are_filter(facts_of(tree.facts@).strings);
        },
    }
}

/// Only public contract functions are reported, by every entry-point detector.
pub proof fn lemma_private_functions_unreported(
    check: EntryCheck,
    meta: RuleMetadata,
    root: Seq<char>,
    src: SourceView,
    func: ContractFnView,
)
    requires
        !func.is_public,
    ensures
        function_findings(check, meta, root, src, func) == Seq::<FindingView>::empty(),
{
}

/// SS-002: in a public contract function that calls neither `require_auth`
/// nor `require_auth_for_args`, every call of a function `new` whose path
/// contains `Client` is reported once, at its position and in order, and
/// nothing else is; a function that calls either authorization method is not
/// reported.
pub proof fn lemma_cross_contract_reports(meta: RuleMetadata, root: Seq<char>, src: SourceView, func: ContractFnView)
    requires
        func.is_public,
    ensures
        ({
            let f = facts_of(func.block);
            let authorized = exists|i: int|
                0 <= i < f.method_calls.len() && (#[trigger] f.method_calls[i].name == "require_auth"@
                    || f.method_calls[i].name == "require_auth_for_args"@);
            function_findings(EntryCheck::CrossContract, meta, root, src, func) == if authorized {
                Seq::<FindingView>::empty()
            } else {
                f.function_calls.filter(|c: CallView| c.name == "new"@ && has_infix(c.context, "Client"@)).map_values(
                    |c: CallView|
                        finding_of(
                            meta,
                            fact_location(root, src, c.line, c.column),
                            "cross-contract client constructed with no authorization in "@ + quoted(func.name)
                                + ": "@ + c.text,
                        ),
                )
            }
        }),
{
    lemma_calls_where_is_filter(
        facts_of(func.block).function_calls,
        |c: CallView| crate::rules::util::is_client_constructor(c),
        |c: CallView| c.name == "new"@ && has_infix(c.context, "Client"@),
    );
}

/// SS-003: in a public contract function, every call of `iter`, `keys` or
/// `values` on a receiver that mentions storage is reported once, at its
/// position and in order, and nothing else is.
pub proof fn lemma_unbounded_iteration_reports(meta: RuleMetadata, root: Seq<char>, src: SourceView, func: ContractFnView)
    requires
        func.is_public,
    ensures
        function_findings(EntryCheck::UnboundedIteration, meta, root, src, func) == facts_of(
            func.block,
        ).method_calls.filter(
            |c: CallView|
                (c.name == "iter"@ || c.name == "keys"@ || c.name == "values"@) && mentions(c.context, "storage"@),
        ).map_values(
            |c: CallView|
                finding_of(
                    meta,
                    fact_location(root, src, c.line, c.column),
                    "storage iteration in "@ + quoted(func.name) + ": "@ + c.text,
                ),
        ),
{
    lemma_calls_where_is_filter(
        facts_of(func.block).method_calls,
        |c: CallView| crate::rules::util::is_storage_iteration(c),
        |c: CallView|
            (c.name == "iter"@ || c.name == "keys"@ || c.name == "values"@) && mentions(c.context, "storage"@),
    );
}

/// SS-006: a public contract function that writes persistent storage (a call
/// of `set`, `remove`, `update`, `extend_ttl`, `set_ttl` or `bump` on a
/// receiver mentioning both storage and persistent) and never calls
/// `extend_ttl`, `set_ttl` or `bump` is reported once per such write, at its
/// position and in order; any other function is not reported.
pub proof fn lemma_ttl_management_reports(meta: RuleMetadata, root: Seq<char>, src: SourceView, func: ContractFnView)
    requires
        func.is_public,
    ensures
        ({
            let calls = facts_of(func.block).method_calls;
            let writes = calls.filter(
                |c: CallView|
                    (c.name == "set"@ || c.name == "remove"@ || c.name == "update"@ || c.name
                        == "extend_ttl"@ || c.name == "set_ttl"@ || c.name == "bump"@) && mentions(
                        c.context,
                        "storage"@,
                    ) && mentions(c.context, "persistent"@),
            );
            let manages_ttl = exists|i: int|
                0 <= i < calls.len() && (#[trigger] calls[i].name == "extend_ttl"@ || calls[i].name
                    == "set_ttl"@ || calls[i].name == "bump"@);
            function_findings(EntryCheck::TtlManagement, meta, root, src, func) == if manages_ttl {
                Seq::<FindingView>::empty()
            } else {
                writes.map_values(
                    |c: CallView|
                        finding_of(
                            meta,
                            fact_location(root, src, c.line, c.column),
                            "persistent storage write without TTL extension in "@ + quoted(func.name) + ": "@
                                + c.text,
                        ),
                )
            }
        }),
{
    reveal(Seq::filter);
    let calls = facts_of(func.block).method_calls;
    let tp = |c: CallView| c.name == "extend_ttl"@ || c.name == "set_ttl"@ || c.name == "bump"@;
    lemma_calls_where_is_filter(
        calls,
        |c: CallView| crate::rules::util::is_persistent_mutation(c),
        |c: CallView|
            (c.name == "set"@ || c.name == "remove"@ || c.name == "update"@ || c.name == "extend_ttl"@
                || c.name == "set_ttl"@ || c.name == "bump"@) && mentions(c.context, "storage"@) && mentions(
                c.context,
                "persistent"@,
            ),
    );
    lemma_calls_where_is_filter(calls, |c: CallView| crate::rules::util::is_ttl_call(c), tp);
    let ttl = calls.filter(tp);
    if exists|i: int| 0 <= i < calls.len() && (#[trigger] calls[i].name == "extend_ttl"@ || calls[i].name
        == "set_ttl"@ || calls[i].name == "bump"@) {
        let i = choose|i: int| 0 <= i < calls.len() && (#[trigger] calls[i].name == "extend_ttl"@
            || calls[i].name == "set_ttl"@ || calls[i].name == "bump"@);
        calls.lemma_filter_contains(tp, i);
    } else if ttl.len() > 0 {
        calls.lemma_filter_pred(tp, 0);
        assert(ttl.contains(ttl[0]));
        calls.lemma_filter_contains_rev(tp, ttl[0]);
        let i = choose|i: int| 0 <= i < calls.len() && calls[i] == ttl[0];
        assert(tp(calls[i]));
    }
}

} // verus!
