use vstd::prelude::*;
use crate::ast::{
    is_string_literal_stmt, is_use_client_stmt, is_use_server_stmt, item_span, ModuleItem,
};
use crate::diagnostics::{spec_misplaced_diag, spec_redundant_diag, DiagnosticKind, SpecDiag};
use crate::rewriter::{lemma_strip_no_directive_identity, strip_spec};
use crate::scanner::{item_export_names, scan_init, scan_items, scan_step, ScanState};

verus! {

/// The scan folded from an arbitrary intermediate state.
pub open spec fn scan_from(st: ScanState, items: Seq<ModuleItem>) -> ScanState
    decreases items.len(),
{
    if items.len() == 0 {
        st
    } else {
        scan_step(scan_from(st, items.drop_last()), items.last())
    }
}

pub proof fn lemma_scan_items_is_scan_from(items: Seq<ModuleItem>)
    ensures
        scan_items(items) == scan_from(scan_init(), items),
    decreases items.len(),
{
    if items.len() == 0 {
    } else {
        lemma_scan_items_is_scan_from(items.drop_last());
    }
}

pub proof fn lemma_scan_from_append(st: ScanState, a: Seq<ModuleItem>, b: Seq<ModuleItem>)
    ensures
        scan_from(st, a + b) == scan_from(scan_from(st, a), b),
    decreases b.len(),
{
    if b.len() == 0 {
        assert(a + b =~= a);
    } else {
        lemma_scan_from_append(st, a, b.drop_last());
        assert((a + b).drop_last() =~= a + b.drop_last());
        assert((a + b).last() == b.last());
    }
}

pub proof fn lemma_scan_from_one(st: ScanState, item: ModuleItem)
    ensures
        scan_from(st, seq![item]) == scan_step(st, item),
{
    let s = seq![item];
    assert(s.drop_last() =~= Seq::<ModuleItem>::empty());
    assert(scan_from(st, Seq::<ModuleItem>::empty()) == st);
    assert(s.last() == item);
}

/// One step never re-opens the prologue, never unsets a directive flag, and
/// only appends to the collected diagnostics.
pub proof fn lemma_step_monotone(st: ScanState, item: ModuleItem)
    ensures
        st.finished_directives ==> scan_step(st, item).finished_directives,
        st.is_client_entry ==> scan_step(st, item).is_client_entry,
        st.is_action_file ==> scan_step(st, item).is_action_file,
        scan_step(st, item).diags.len() >= st.diags.len(),
        forall|j: int| 0 <= j < st.diags.len() ==> scan_step(st, item).diags[j] == st.diags[j],
{
}

pub proof fn lemma_from_monotone(st: ScanState, items: Seq<ModuleItem>)
    ensures
        st.finished_directives ==> scan_from(st, items).finished_directives,
        st.is_client_entry ==> scan_from(st, items).is_client_entry,
        st.is_action_file ==> scan_from(st, items).is_action_file,
        scan_from(st, items).diags.len() >= st.diags.len(),
        forall|j: int| 0 <= j < st.diags.len() ==> scan_from(st, items).diags[j] == st.diags[j],
    decreases items.len(),
{
    if items.len() == 0 {
    } else {
        lemma_from_monotone(st, items.drop_last());
        lemma_step_monotone(scan_from(st, items.drop_last()), items.last());
    }
}

/// Once the prologue is closed, the directive flags never change again.
pub proof fn lemma_from_finished_flags(st: ScanState, items: Seq<ModuleItem>)
    requires
        st.finished_directives,
    ensures
        scan_from(st, items).is_client_entry == st.is_client_entry,
        scan_from(st, items).is_action_file == st.is_action_file,
    decreases items.len(),
{
    if items.len() == 0 {
    } else {
        lemma_from_finished_flags(st, items.drop_last());
        lemma_from_monotone(st, items.drop_last());
    }
}

/// How many of the collected diagnostics are redundant-directives reports.
pub open spec fn count_redundant(diags: Seq<SpecDiag>) -> int
    decreases diags.len(),
{
    if diags.len() == 0 {
        0
    } else {
        count_redundant(diags.drop_last()) + (if diags.last().kind
            == DiagnosticKind::RedundantDirectives {
            1int
        } else {
            0int
        })
    }
}

pub proof fn lemma_count_redundant_push(diags: Seq<SpecDiag>, d: SpecDiag)
    ensures
        count_redundant(diags.push(d)) == count_redundant(diags) + (if d.kind
            == DiagnosticKind::RedundantDirectives {
            1int
        } else {
            0int
        }),
{
    assert(diags.push(d).drop_last() =~= diags);
    assert(diags.push(d).last() == d);
}

/// A step taken after the prologue closed, or on anything but a
/// string-literal statement, reports no redundant directives.
pub proof fn lemma_step_no_redundant(st: ScanState, item: ModuleItem)
    requires
        st.finished_directives || !is_string_literal_stmt(item),
    ensures
        count_redundant(scan_step(st, item).diags) == count_redundant(st.diags),
{
    match item {
        ModuleItem::StrLitStmt { value, span } => {
            if value@ == "use client"@ && st.finished_directives {
                lemma_count_redundant_push(st.diags, spec_misplaced_diag(span));
            }
        },
        ModuleItem::ParenStrLitStmt { value, span } => {
            if value@ == "use client"@ {
                lemma_count_redundant_push(st.diags, spec_misplaced_diag(span));
            }
        },
        _ => {},
    }
}

pub proof fn lemma_from_finished_no_redundant(st: ScanState, items: Seq<ModuleItem>)
    requires
        st.finished_directives,
    ensures
        count_redundant(scan_from(st, items).diags) == count_redundant(st.diags),
    decreases items.len(),
{
    if items.len() == 0 {
    } else {
        lemma_from_finished_no_redundant(st, items.drop_last());
        lemma_from_monotone(st, items.drop_last());
        lemma_step_no_redundant(scan_from(st, items.drop_last()), items.last());
    }
}

/// A module with no string-literal statements classifies with both directive
/// flags false, and directive stripping leaves its body unchanged.
pub proof fn lemma_no_directive_candidates(items: Seq<ModuleItem>)
    requires
        forall|j: int| 0 <= j < items.len() ==> !is_string_literal_stmt(#[trigger] items[j]),
    ensures
        !scan_items(items).is_client_entry,
        !scan_items(items).is_action_file,
        strip_spec(items) == items,
{
    lemma_no_directive_flags(items);
    assert forall|j: int| 0 <= j < items.len() implies !is_use_client_stmt(
        #[trigger] items[j],
    ) by {
        assert(!is_string_literal_stmt(items[j]));
    }
    lemma_strip_no_directive_identity(items);
}

proof fn lemma_no_directive_flags(items: Seq<ModuleItem>)
    requires
        forall|j: int| 0 <= j < items.len() ==> !is_string_literal_stmt(#[trigger] items[j]),
    ensures
        !scan_items(items).is_client_entry,
        !scan_items(items).is_action_file,
    decreases items.len(),
{
    if items.len() == 0 {
    } else {
        assert forall|j: int| 0 <= j < items.drop_last().len() implies !is_string_literal_stmt(
            #[trigger] items.drop_last()[j],
        ) by {
            assert(items.drop_last()[j] == items[j]);
        }
        lemma_no_directive_flags(items.drop_last());
        assert(!is_string_literal_stmt(items.last()));
    }
}

/// A module whose first statement is the `"use client"` literal classifies
/// as a client entry, and no `"use client"` statement survives stripping.
pub proof fn lemma_leading_use_client(items: Seq<ModuleItem>)
    requires
        items.len() > 0,
        is_use_client_stmt(items[0]),
    ensures
        scan_items(items).is_client_entry,
        forall|j: int|
            0 <= j < strip_spec(items).len() ==> !is_use_client_stmt(#[trigger] strip_spec(items)[j]),
{
    lemma_scan_items_is_scan_from(items);
    let head = seq![items[0]];
    let tail = items.subrange(1, items.len() as int);
    assert(head + tail =~= items);
    lemma_scan_from_append(scan_init(), head, tail);
    lemma_scan_from_one(scan_init(), items[0]);
    let st1 = scan_step(scan_init(), items[0]);
    assert(scan_from(scan_init(), head) == st1);
    assert(st1.is_client_entry);
    lemma_from_monotone(st1, tail);
    crate::rewriter::lemma_strip_removes_directive(items);
}

/// A module whose prologue holds `"use client"` and `"use server"`, in
/// either order and both before any other statement, classifies with both
/// flags true and yields exactly one redundant-directives diagnostic.
pub proof fn lemma_redundant_directives(
    first: ModuleItem,
    second: ModuleItem,
    rest: Seq<ModuleItem>,
)
    requires
        (is_use_client_stmt(first) && is_use_server_stmt(second)) || (is_use_server_stmt(first)
            && is_use_client_stmt(second)),
        rest.len() == 0 || !is_string_literal_stmt(rest[0]),
    ensures
        scan_items(seq![first, second] + rest).is_client_entry,
        scan_items(seq![first, second] + rest).is_action_file,
        count_redundant(scan_items(seq![first, second] + rest).diags) == 1,
{
    reveal_strlit("use client");
    reveal_strlit("use server");
    assert(("use client"@)[4] != ("use server"@)[4]);
    assert("use client"@ != "use server"@);

    let items = seq![first, second] + rest;
    lemma_scan_items_is_scan_from(items);
    let two = seq![first, second];
    lemma_scan_from_append(scan_init(), two, rest);
    assert(seq![first] + seq![second] =~= two);
    lemma_scan_from_append(scan_init(), seq![first], seq![second]);
    lemma_scan_from_one(scan_init(), first);
    let st1 = scan_step(scan_init(), first);
    lemma_scan_from_one(st1, second);
    let st2 = scan_step(st1, second);
    assert(scan_from(scan_init(), two) == st2);
    assert(st1.diags =~= Seq::<SpecDiag>::empty());
    assert(st2.is_client_entry && st2.is_action_file);
    assert(st2.diags == st1.diags.push(spec_redundant_diag(item_span(second))));
    lemma_count_redundant_push(st1.diags, spec_redundant_diag(item_span(second)));
    assert(count_redundant(st2.diags) == 1);
    assert(!st2.finished_directives);

    if rest.len() == 0 {
        assert(items =~= two);
    } else {
        let head = seq![rest[0]];
        let tail = rest.subrange(1, rest.len() as int);
        assert(head + tail =~= rest);
        lemma_scan_from_append(st2, head, tail);
        lemma_scan_from_one(st2, rest[0]);
        let st3 = scan_step(st2, rest[0]);
        assert(scan_from(st2, head) == st3);
        assert(st3.finished_directives);
        lemma_step_no_redundant(st2, rest[0]);
        lemma_step_monotone(st2, rest[0]);
        lemma_from_monotone(st3, tail);
        lemma_from_finished_no_redundant(st3, tail);
    }
}

/// After a non-directive first statement, a later `"use client"` literal is
/// reported as misplaced and neither directive flag is set.
pub proof fn lemma_misplaced_use_client(items: Seq<ModuleItem>, i: int)
    requires
        items.len() > 0,
        !is_string_literal_stmt(items[0]),
        0 < i < items.len(),
        is_use_client_stmt(items[i]),
    ensures
        !scan_items(items).is_client_entry,
        !scan_items(items).is_action_file,
        exists|j: int|
            0 <= j < scan_items(items).diags.len() && scan_items(items).diags[j]
                == spec_misplaced_diag(item_span(items[i])),
{
    lemma_scan_items_is_scan_from(items);
    let a = items.take(i);
    let b = seq![items[i]];
    let c = items.subrange(i + 1, items.len() as int);
    assert(a + b =~= items.take(i + 1));
    assert((a + b) + c =~= items);
    lemma_scan_from_append(scan_init(), a, b);
    lemma_scan_from_append(scan_init(), a + b, c);

    let a0 = seq![items[0]];
    let a1 = a.subrange(1, a.len() as int);
    assert(a0 + a1 =~= a);
    lemma_scan_from_append(scan_init(), a0, a1);
    lemma_scan_from_one(scan_init(), items[0]);
    let st0 = scan_step(scan_init(), items[0]);
    assert(scan_from(scan_init(), a0) == st0);
    assert(st0.finished_directives && !st0.is_client_entry && !st0.is_action_file);
    lemma_from_monotone(st0, a1);
    lemma_from_finished_flags(st0, a1);
    let sta = scan_from(scan_init(), a);
    assert(sta.finished_directives && !sta.is_client_entry && !sta.is_action_file);

    lemma_scan_from_one(sta, items[i]);
    let stb = scan_step(sta, items[i]);
    assert(scan_from(scan_init(), a + b) == stb);
    assert(stb.diags == sta.diags.push(spec_misplaced_diag(item_span(items[i]))));
    let ghost w = sta.diags.len() as int;
    assert(stb.diags[w] == spec_misplaced_diag(item_span(items[i])));

    lemma_from_monotone(stb, c);
    lemma_from_finished_flags(stb, c);
    assert(scan_items(items).diags[w] == spec_misplaced_diag(item_span(items[i])));
}

/// Re-running the pass on a server-layer proxy rewrite changes nothing: the
/// proxy body holds no directive, classifies as no client entry, yields no
/// diagnostic, and strips to itself.
pub proof fn lemma_rewrite_idempotent(items: Seq<ModuleItem>)
    requires
        items.len() == 2,
        items[0] is ProxyFactoryBinding,
        items[1] is ProxyExportAssign,
    ensures
        !scan_items(items).is_client_entry,
        !scan_items(items).is_action_file,
        scan_items(items).diags.len() == 0,
        strip_spec(items) == items,
{
    let a = items.drop_last();
    assert(a.len() == 1 && a.last() == items[0]);
    assert(a.drop_last() =~= Seq::<ModuleItem>::empty());
    assert(scan_items(Seq::<ModuleItem>::empty()) == scan_init());
    assert(scan_items(a) == scan_step(scan_init(), items[0]));
    assert(scan_items(items) == scan_step(scan_items(a), items[1]));
    assert forall|j: int| 0 <= j < items.len() implies !is_use_client_stmt(
        #[trigger] items[j],
    ) by {
        assert(j == 0 || j == 1);
    }
    lemma_strip_no_directive_identity(items);
}

/// The export names each item contributes, concatenated in source order.
pub open spec fn export_contribs(items: Seq<ModuleItem>) -> Seq<Seq<char>>
    decreases items.len(),
{
    if items.len() == 0 {
        Seq::empty()
    } else {
        export_contribs(items.drop_last()) + item_export_names(items.last())
    }
}

/// The collected export-name list decomposes item by item, independently of
/// the directive state; in particular every `export * from` declaration
/// contributes exactly one "*" marker, however many such declarations exist.
pub proof fn lemma_export_names_item_by_item(items: Seq<ModuleItem>)
    ensures
        scan_items(items).export_names == export_contribs(items),
        forall|j: int|
            0 <= j < items.len() && items[j] is ExportAll ==> item_export_names(#[trigger] items[j])
                == seq!["*"@],
    decreases items.len(),
{
    if items.len() == 0 {
    } else {
        lemma_export_names_item_by_item(items.drop_last());
        assert(scan_items(items).export_names =~= export_contribs(items));
    }
}

} // verus!
