use vstd::prelude::*;
use vstd::string::StringExecFns;
use crate::ast::{dummy_span, is_use_client_stmt, Module, ModuleItem};
use crate::diagnostics::string_eq_lit;
use crate::scanner::view_names;

verus! {

/// The body after directive stripping: every `"use client"` statement is
/// removed, wherever it stands; everything else is kept in order.
pub open spec fn strip_spec(items: Seq<ModuleItem>) -> Seq<ModuleItem>
    decreases items.len(),
{
    if items.len() == 0 {
        Seq::empty()
    } else {
        strip_spec(items.drop_last()) + (if is_use_client_stmt(items.last()) {
            Seq::<ModuleItem>::empty()
        } else {
            seq![items.last()]
        })
    }
}

/// Nothing that remains after stripping is a `"use client"` statement.
pub proof fn lemma_strip_removes_directive(items: Seq<ModuleItem>)
    ensures
        forall|j: int|
            0 <= j < strip_spec(items).len() ==> !is_use_client_stmt(#[trigger] strip_spec(items)[j]),
    decreases items.len(),
{
    if items.len() == 0 {
    } else {
        lemma_strip_removes_directive(items.drop_last());
        let pre = strip_spec(items.drop_last());
        assert forall|j: int| 0 <= j < strip_spec(items).len() implies !is_use_client_stmt(
            #[trigger] strip_spec(items)[j],
        ) by {
            if j < pre.len() {
                assert(strip_spec(items)[j] == pre[j]);
            } else {
                assert(strip_spec(items)[j] == items.last());
            }
        }
    }
}

/// Stripping a body that holds no `"use client"` statement leaves it as it
/// stands.
pub proof fn lemma_strip_no_directive_identity(items: Seq<ModuleItem>)
    requires
        forall|j: int| 0 <= j < items.len() ==> !is_use_client_stmt(#[trigger] items[j]),
    ensures
        strip_spec(items) == items,
    decreases items.len(),
{
    if items.len() == 0 {
        assert(strip_spec(items) =~= items);
    } else {
        lemma_strip_no_directive_identity(items.drop_last());
        assert(strip_spec(items) =~= items);
    }
}

fn is_use_client_stmt_exec(item: &ModuleItem) -> (r: bool)
    ensures
        r == is_use_client_stmt(*item),
{
    match item {
        ModuleItem::StrLitStmt { value, span } => string_eq_lit(value, "use client"),
        _ => false,
    }
}

/// Removes every `"use client"` directive statement from the module's body.
pub fn remove_top_level_directive(module: &mut Module)
    ensures
        final(module).body@ == strip_spec(old(module).body@),
        final(module).span == old(module).span,
{
    let mut body: Vec<ModuleItem> = Vec::new();
    core::mem::swap(&mut body, &mut module.body);
    let ghost orig = body@;
    let mut kept: Vec<ModuleItem> = Vec::new();
    while body.len() > 0
        invariant
            body@.len() <= orig.len(),
            body@ == orig.subrange(orig.len() - body@.len(), orig.len() as int),
            kept@ == strip_spec(orig.take(orig.len() - body@.len())),
        decreases body@.len(),
    {
        let ghost k = orig.len() - body@.len();
        let item = body.remove(0);
        proof {
            assert(item == orig[k as int]);
        }
        if is_use_client_stmt_exec(&item) {
            // spent directive text is dropped
        } else {
            kept.push(item);
        }
        proof {
            assert(orig.take(k as int + 1).drop_last() =~= orig.take(k as int));
            assert(orig.take(k as int + 1).last() == orig[k as int]);
            assert(kept@ =~= strip_spec(orig.take(k as int + 1)));
            assert(body@ =~= orig.subrange(k as int + 1, orig.len() as int));
        }
    }
    proof {
        assert(orig.take(orig.len() as int) =~= orig);
    }
    module.body = kept;
}

/// The comma-joined export-name list, as it stands in the metadata comment.
pub open spec fn join_comma(names: Seq<Seq<char>>) -> Seq<char>
    decreases names.len(),
{
    if names.len() == 0 {
        Seq::<char>::empty()
    } else if names.len() == 1 {
        names[0]
    } else {
        join_comma(names.drop_last()) + ","@ + names.last()
    }
}

/// The module-kind tag of the metadata comment: whether a downstream stage
/// should consume the proxy target as commonjs or auto-detect.
pub open spec fn module_kind_tag(is_cjs: bool) -> Seq<char> {
    if is_cjs {
        "cjs"@
    } else {
        "auto"@
    }
}

/// The one metadata comment of a client entry: a fixed marker, the collected
/// export names joined by commas, and the module-kind tag.
pub open spec fn client_entry_comment(export_names: Seq<Seq<char>>, is_cjs: bool) -> Seq<char> {
    " __next_internal_client_entry_do_not_use__ "@ + join_comma(export_names) + " "@
        + module_kind_tag(is_cjs) + " "@
}

fn join_export_names(names: &Vec<String>) -> (r: String)
    ensures
        r@ == join_comma(view_names(names@)),
{
    let mut r = String::new();
    let n = names.len();
    for i in 0..n
        invariant
            n == names@.len(),
            r@ == join_comma(view_names(names@).take(i as int)),
    {
        if i > 0 {
            r.append(",");
        }
        r.append(names[i].as_str());
        proof {
            let s = view_names(names@);
            assert(s.take(i as int + 1).drop_last() =~= s.take(i as int));
            assert(s.take(i as int + 1).last() == s[i as int]);
            assert(s[i as int] == names@[i as int]@);
            assert(r@ =~= join_comma(s.take(i as int + 1)));
        }
    }
    proof {
        assert(view_names(names@).take(names@.len() as int) =~= view_names(names@));
    }
    r
}

/// Builds the metadata comment text for a client entry.
pub fn client_entry_comment_text(export_names: &Vec<String>, is_cjs: bool) -> (r: String)
    ensures
        r@ == client_entry_comment(view_names(export_names@), is_cjs),
{
    let mut r: String = " __next_internal_client_entry_do_not_use__ ".to_owned();
    let joined = join_export_names(export_names);
    r.append(joined.as_str());
    r.append(" ");
    if is_cjs {
        r.append("cjs");
    } else {
        r.append("auto");
    }
    r.append(" ");
    r
}

/// On the server layer, replaces a client entry's whole body with the
/// two-statement proxy stub — a binding that acquires the proxy factory from
/// the reserved specifier, and an assignment of the export surface to the
/// factory applied to the file path — and returns the metadata comment.
pub fn to_module_ref(
    module: &mut Module,
    filepath: &String,
    export_names: &Vec<String>,
    is_cjs: bool,
) -> (comment: String)
    ensures
        final(module).body@.len() == 2,
        final(module).body@[0] is ProxyFactoryBinding,
        crate::ast::proxy_binding_specifier(final(module).body@[0])
            == "private-next-rsc-mod-ref-proxy"@,
        final(module).body@[1] is ProxyExportAssign,
        crate::ast::proxy_assign_filepath(final(module).body@[1]) == filepath@,
        final(module).span == old(module).span,
        comment@ == client_entry_comment(view_names(export_names@), is_cjs),
{
    module.body.clear();
    module.body.push(
        ModuleItem::ProxyFactoryBinding {
            specifier: "private-next-rsc-mod-ref-proxy".to_owned(),
            span: dummy_span(),
        },
    );
    module.body.push(
        ModuleItem::ProxyExportAssign { filepath: filepath.clone(), span: dummy_span() },
    );
    client_entry_comment_text(export_names, is_cjs)
}

} // verus!
