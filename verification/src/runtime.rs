//! The receiving side of the boundary: a model of the scripting runtime's
//! module registry, global namespace, and managed tree objects.
//!
//! The runtime's own machinery (the interpreter, its stack, its collector) is
//! an outside collaborator; this module tracks exactly the state that the
//! handoff protocol touches, and states how each operation changes it. The
//! outcome of each native entry point (did it raise inside the runtime?) is
//! an event the caller observes and passes in, so every contract here holds
//! whichever way the native side went.

use vstd::prelude::*;
use vstd::slice::slice_index_get;

use crate::tree::TreeView;
use crate::tree::TreeWithSource;

verus! {

/// The well-known name under which the extension module is registered, and
/// under which it is bound in the global namespace when requested.
pub const MODULE_NAME: &'static str = "ltreesitter";

/// Why an operation against the runtime failed.
#[derive(Clone, Copy, Debug, PartialEq, Eq, Structural)]
pub enum RuntimeError {
    /// The module's native registration entry point raised inside the
    /// runtime; nothing was registered.
    LoaderRaised,
    /// The native "construct and push tree" entry point raised inside the
    /// runtime. Ownership of the tree's handle had already been accepted by
    /// the native side, which cleans up on its own failure paths, so the
    /// handle has no remaining owner on the calling side and no object was
    /// installed.
    PushRaised,
}

/// Mathematical model of one managed tree object.
pub struct ObjectView {
    /// The native resource handle the object now owns.
    pub handle: u64,
    /// Bytes of the root node's syntactic category name.
    pub root_kind: Seq<u8>,
    /// The object's private copy of the source bytes.
    pub src: Seq<u8>,
}

impl ObjectView {
    /// A managed object is well formed when it owns a non-null handle.
    pub open spec fn wf(self) -> bool {
        self.handle != 0
    }
}

/// A tree object owned by the runtime's managed-object system: it owns the
/// tree's native resource handle and a private copy of the source bytes the
/// tree was parsed from, so node text can be resolved without the original
/// buffer.
pub struct TreeObject {
    handle: u64,
    root_kind: Vec<u8>,
    src: Vec<u8>,
}

impl View for TreeObject {
    type V = ObjectView;

    closed spec fn view(&self) -> ObjectView {
        ObjectView { handle: self.handle, root_kind: self.root_kind@, src: self.src@ }
    }
}

impl TreeObject {
    /// The native resource handle this object owns.
    pub fn handle(&self) -> (r: u64)
        ensures
            r == self@.handle,
    {
        self.handle
    }

    /// The syntactic category name of the tree's root node.
    pub fn root_kind(&self) -> (r: &Vec<u8>)
        ensures
            r@ == self@.root_kind,
    {
        &self.root_kind
    }

    /// The object's private copy of the source bytes.
    pub fn source(&self) -> (r: &Vec<u8>)
        ensures
            r@ == self@.src,
    {
        &self.src
    }

    /// Resolves the text of a node spanning bytes `start..end` of the source.
    ///
    /// The result comes from the object's own copy of the source, so it is
    /// meaningful even after the buffer the tree was parsed from is gone.
    pub fn node_text(&self, start: usize, end: usize) -> (r: Vec<u8>)
        requires
            start <= end <= self@.src.len(),
        ensures
            r@ == self@.src.subrange(start as int, end as int),
    {
        let mut out: Vec<u8> = Vec::new();
        let mut i: usize = start;
        while i < end
            invariant
                start <= i <= end,
                end <= self@.src.len(),
                out@ == self@.src.subrange(start as int, i as int),
            decreases end - i,
        {
            let b: u8 = self.src[i];
            out.push(b);
            proof {
                assert(self@.src.subrange(start as int, i as int).push(self@.src[i as int])
                    =~= self@.src.subrange(start as int, i as int + 1));
            }
            i += 1;
        }
        out
    }
}

/// Mathematical model of the runtime state the protocol touches.
pub struct RuntimeView {
    /// Whether the extension module is present in the module table.
    pub module_loaded: bool,
    /// How many times the module's native loader has run to completion in
    /// this runtime instance.
    pub loader_runs: nat,
    /// Whether the well-known global name is bound to the module.
    pub global_bound: bool,
    /// The tree objects owned by the runtime, oldest first.
    pub trees: Seq<ObjectView>,
}

impl RuntimeView {
    /// The runtime invariant: the loader runs at most once per instance, the
    /// module is in the table exactly when the loader has run, and every
    /// managed object owns a non-null handle.
    pub open spec fn wf(self) -> bool {
        &&& self.loader_runs <= 1
        &&& (self.module_loaded <==> self.loader_runs == 1)
        &&& forall|i: int| 0 <= i < self.trees.len() ==> (#[trigger] self.trees[i]).wf()
    }
}

/// Whether a registration attempt succeeds: it can only fail when the module
/// is not yet in the table (so the loader actually runs) and the loader
/// raises.
pub open spec fn register_accepts(rt: RuntimeView, loader_ok: bool) -> bool {
    rt.module_loaded || loader_ok
}

/// The state after a registration attempt with the given global flag, where
/// `loader_ok` says whether the native loader completed without raising. A
/// repeated registration never reruns the loader; a successful one installs
/// the module; the global name is (re)bound whenever the flag is set and the
/// attempt succeeds; a failed attempt changes nothing.
pub open spec fn register_spec(rt: RuntimeView, global: bool, loader_ok: bool) -> RuntimeView {
    if rt.module_loaded {
        RuntimeView {
            module_loaded: true,
            loader_runs: rt.loader_runs,
            global_bound: rt.global_bound || global,
            trees: rt.trees,
        }
    } else if loader_ok {
        RuntimeView {
            module_loaded: true,
            loader_runs: rt.loader_runs + 1,
            global_bound: rt.global_bound || global,
            trees: rt.trees,
        }
    } else {
        rt
    }
}

/// The state after a handoff attempt of `tree` with source bytes `src`, where
/// `push_ok` says whether the native "construct and push tree" entry point
/// completed without raising. On success exactly one new object is appended,
/// owning the tree's handle and a copy of the bytes; on failure the runtime
/// state is unchanged (the native side cleans up the handle it had accepted).
pub open spec fn handoff_spec(rt: RuntimeView, tree: TreeView, src: Seq<u8>, push_ok: bool) -> RuntimeView {
    if push_ok {
        RuntimeView {
            module_loaded: rt.module_loaded,
            loader_runs: rt.loader_runs,
            global_bound: rt.global_bound,
            trees: rt.trees.push(ObjectView { handle: tree.handle, root_kind: tree.root_kind, src }),
        }
    } else {
        rt
    }
}

/// A scripting-runtime instance, reduced to the state the handoff protocol
/// touches: its module table entry for the extension, the well-known global
/// binding, and the tree objects its object system owns.
pub struct Runtime {
    module_loaded: bool,
    loader_runs: u64,
    global_bound: bool,
    trees: Vec<TreeObject>,
}

impl View for Runtime {
    type V = RuntimeView;

    closed spec fn view(&self) -> RuntimeView {
        RuntimeView {
            module_loaded: self.module_loaded,
            loader_runs: self.loader_runs as nat,
            global_bound: self.global_bound,
            trees: self.trees@.map_values(|t: TreeObject| t@),
        }
    }
}

/// An extension trait that loads the tree-wrapping module into a runtime
/// instance.
pub trait Module: View<V = RuntimeView> {
    /// Loads the extension module into the runtime through its "require a
    /// named module, running its loader if not already loaded" mechanism. If
    /// `global` is true, additionally binds the module under the well-known
    /// global name.
    ///
    /// `loader_ok` is the observed outcome of the module's native loader: it
    /// matters only when the module is not yet registered, since the require
    /// mechanism runs the loader at most once per runtime instance. A second
    /// load therefore cannot fail and does not duplicate the module-table
    /// entry.
    fn open_ltreesitter(&mut self, global: bool, loader_ok: bool) -> (r: Result<(), RuntimeError>)
        requires
            old(self)@.wf(),
        ensures
            final(self)@ == register_spec(old(self)@, global, loader_ok),
            final(self)@.wf(),
            r == Ok::<(), RuntimeError>(()) <==> register_accepts(old(self)@, loader_ok),
            !register_accepts(old(self)@, loader_ok) ==> r == Err::<(), RuntimeError>(
                RuntimeError::LoaderRaised,
            ),
    ;
}

impl Module for Runtime {
    fn open_ltreesitter(&mut self, global: bool, loader_ok: bool) -> (r: Result<(), RuntimeError>) {
        if self.module_loaded {
            self.global_bound = self.global_bound || global;
            Ok(())
        } else if loader_ok {
            self.module_loaded = true;
            self.loader_runs = self.loader_runs + 1;
            self.global_bound = self.global_bound || global;
            Ok(())
        } else {
            Err(RuntimeError::LoaderRaised)
        }
    }
}

impl Runtime {
    /// A fresh runtime instance: no module registered, the well-known global
    /// unbound, no managed tree objects.
    pub fn new() -> (r: Runtime)
        ensures
            r@ == (RuntimeView {
                module_loaded: false,
                loader_runs: 0,
                global_bound: false,
                trees: Seq::<ObjectView>::empty(),
            }),
            r@.wf(),
    {
        let rt = Runtime { module_loaded: false, loader_runs: 0, global_bound: false, trees: Vec::new() };
        proof {
            assert(rt@.trees =~= Seq::<ObjectView>::empty());
        }
        rt
    }

    /// Whether the extension module is present in the module table.
    pub fn module_loaded(&self) -> (r: bool)
        ensures
            r == self@.module_loaded,
    {
        self.module_loaded
    }

    /// How many times the module's native loader has run in this instance.
    pub fn loader_runs(&self) -> (r: u64)
        ensures
            r as nat == self@.loader_runs,
    {
        self.loader_runs
    }

    /// Whether the well-known global name is bound to the module.
    pub fn global_bound(&self) -> (r: bool)
        ensures
            r == self@.global_bound,
    {
        self.global_bound
    }

    /// How many tree objects the runtime owns.
    pub fn tree_count(&self) -> (r: usize)
        ensures
            r == self@.trees.len(),
    {
        self.trees.len()
    }

    /// The `i`th tree object owned by the runtime, oldest first.
    pub fn tree(&self, i: usize) -> (r: &TreeObject)
        requires
            i < self@.trees.len(),
        ensures
            r@ == self@.trees[i as int],
    {
        &self.trees[i]
    }

    /// Models the extension's native "construct and push tree" entry point:
    /// it accepts ownership of `handle`, copies the bytes of `src` into
    /// storage of its own, and installs the finished object; `push_ok` is the
    /// observed outcome of that entry point.
    fn push_tree(&mut self, handle: u64, root_kind: Vec<u8>, src: &[u8], push_ok: bool) -> (r:
        Result<usize, RuntimeError>)
        requires
            old(self)@.wf(),
            handle != 0,
        ensures
            final(self)@ == handoff_spec(
                old(self)@,
                (TreeView { handle, root_kind: root_kind@ }),
                src@,
                push_ok,
            ),
            final(self)@.wf(),
            r == Ok::<usize, RuntimeError>(old(self)@.trees.len() as usize) <==> push_ok,
            !push_ok ==> r == Err::<usize, RuntimeError>(RuntimeError::PushRaised),
    {
        if push_ok {
            let idx = self.trees.len();
            let src_copy = copy_bytes(src);
            let obj = TreeObject { handle, root_kind, src: src_copy };
            self.trees.push(obj);
            proof {
                assert(self@.trees =~= old(self)@.trees.push(
                    ObjectView { handle, root_kind: root_kind@, src: src@ },
                ));
            }
            Ok(idx)
        } else {
            Err(RuntimeError::PushRaised)
        }
    }
}

impl TreeWithSource<'_> {
    /// Hands the tree, paired with its source bytes, across the boundary into
    /// the runtime's managed-object system.
    ///
    /// The pair is taken by value: the handoff consumes the tree, so its
    /// handle can never cross the boundary twice and the calling side retains
    /// no way to free or reuse it. The source bytes are copied into the new
    /// object, never retained by reference. `push_ok` is the observed outcome
    /// of the native "construct and push tree" entry point, which accepts
    /// ownership of the handle before it can raise.
    ///
    /// On success the result is the index of the one new object, reachable
    /// through [`Runtime::tree`]; on failure the runtime is unchanged.
    pub fn into_lua(self, rt: &mut Runtime, push_ok: bool) -> (r: Result<usize, RuntimeError>)
        requires
            old(rt)@.wf(),
            self.tree@.wf(),
        ensures
            final(rt)@ == handoff_spec(old(rt)@, self.tree@, self.src@, push_ok),
            final(rt)@.wf(),
            r == Ok::<usize, RuntimeError>(old(rt)@.trees.len() as usize) <==> push_ok,
            !push_ok ==> r == Err::<usize, RuntimeError>(RuntimeError::PushRaised),
    {
        let TreeWithSource { tree, src } = self;
        let root_kind = copy_bytes(tree.root_kind().as_slice());
        let raw = tree.into_raw();
        rt.push_tree(raw, root_kind, src, push_ok)
    }
}

/// Copies a byte slice into a fresh vector, byte by byte.
fn copy_bytes(src: &[u8]) -> (r: Vec<u8>)
    ensures
        r@ == src@,
{
    let n: usize = src.len();
    let mut out: Vec<u8> = Vec::new();
    let mut i: usize = 0;
    while i < n
        invariant
            i <= n,
            n == src@.len(),
            out@ == src@.subrange(0, i as int),
        decreases n - i,
    {
        let b: u8 = *slice_index_get(src, i);
        out.push(b);
        proof {
            assert(src@.subrange(0, i as int).push(src@[i as int])
                =~= src@.subrange(0, i as int + 1));
        }
        i += 1;
    }
    proof {
        assert(src@.subrange(0, n as int) =~= src@);
    }
    out
}

} // verus!
