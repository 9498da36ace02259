//! Laws of the handoff protocol, proved over the spec-level transitions that
//! the executable operations are specified against.

use vstd::prelude::*;

use crate::runtime::RuntimeView;
use crate::runtime::handoff_spec;
use crate::runtime::register_accepts;
use crate::runtime::register_spec;
use crate::tree::TreeView;

verus! {

/// Registration is idempotent per runtime instance. After one accepted
/// registration, a second attempt — with any global flag and whatever the
/// native loader would have reported — is always accepted, does not duplicate
/// the module-table entry, does not rerun the loader, and leaves the managed
/// objects alone.
pub proof fn lemma_register_idempotent(
    rt: RuntimeView,
    g1: bool,
    ok1: bool,
    g2: bool,
    ok2: bool,
)
    requires
        register_accepts(rt, ok1),
    ensures
        register_accepts(register_spec(rt, g1, ok1), ok2),
        register_spec(register_spec(rt, g1, ok1), g2, ok2).module_loaded == register_spec(
            rt,
            g1,
            ok1,
        ).module_loaded,
        register_spec(register_spec(rt, g1, ok1), g2, ok2).loader_runs == register_spec(
            rt,
            g1,
            ok1,
        ).loader_runs,
        register_spec(register_spec(rt, g1, ok1), g2, ok2).trees == register_spec(
            rt,
            g1,
            ok1,
        ).trees,
{
}

/// Registering binds the well-known global name exactly when the flag is set
/// and the attempt is accepted: starting from an unbound global, an accepted
/// registration with the flag true binds it, and a registration with the flag
/// false — accepted or not — leaves it unbound.
pub proof fn lemma_global_binding(rt: RuntimeView, loader_ok: bool)
    requires
        !rt.global_bound,
    ensures
        register_spec(rt, true, loader_ok).global_bound <==> register_accepts(rt, loader_ok),
        !register_spec(rt, false, loader_ok).global_bound,
{
}

/// A successful handoff installs exactly one new tree object, reachable at
/// the end of the runtime's object list: it owns the tree's resource handle
/// and reports the tree's root syntactic category.
pub proof fn lemma_handoff_installs_tree(rt: RuntimeView, tree: TreeView, src: Seq<u8>)
    ensures
        handoff_spec(rt, tree, src, true).trees.len() == rt.trees.len() + 1,
        handoff_spec(rt, tree, src, true).trees.last().handle == tree.handle,
        handoff_spec(rt, tree, src, true).trees.last().root_kind == tree.root_kind,
{
}

/// The handoff copies the source: the new object's bytes equal the original
/// buffer's bytes, so any node-text span resolved against the object equals
/// the corresponding slice of the original source, independent of that
/// buffer's lifetime.
pub proof fn lemma_handoff_copies_source(
    rt: RuntimeView,
    tree: TreeView,
    src: Seq<u8>,
    start: int,
    end: int,
)
    requires
        0 <= start <= end <= src.len(),
    ensures
        handoff_spec(rt, tree, src, true).trees.last().src == src,
        handoff_spec(rt, tree, src, true).trees.last().src.subrange(start, end) == src.subrange(
            start,
            end,
        ),
{
}

/// A handoff has no partial-success state: if the native entry point raises,
/// the runtime is exactly as it was, and ownership of the handle rests with
/// the native side's own cleanup — never with both sides, never with neither
/// plus a half-installed object.
pub proof fn lemma_handoff_failure_no_effect(rt: RuntimeView, tree: TreeView, src: Seq<u8>)
    ensures
        handoff_spec(rt, tree, src, false) == rt,
{
}

/// Both transitions preserve the runtime invariant, for any observed outcome
/// of the native side.
pub proof fn lemma_transitions_preserve_wf(
    rt: RuntimeView,
    global: bool,
    loader_ok: bool,
    tree: TreeView,
    src: Seq<u8>,
    push_ok: bool,
)
    requires
        rt.wf(),
        tree.wf(),
    ensures
        register_spec(rt, global, loader_ok).wf(),
        handoff_spec(rt, tree, src, push_ok).wf(),
{
    let after = handoff_spec(rt, tree, src, push_ok);
    assert forall|i: int| 0 <= i < after.trees.len() implies (#[trigger] after.trees[i]).wf() by {
        if i < rt.trees.len() {
            assert(rt.trees[i].wf());
        }
    }
}

} // verus!
