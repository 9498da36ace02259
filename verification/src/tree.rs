//! The native side of the boundary: an owned parse tree and its pairing with
//! the source bytes it was parsed from.

use vstd::prelude::*;

verus! {

/// Mathematical model of a parsed tree: the address of its single underlying
/// native resource, and the syntactic category of its root node.
pub struct TreeView {
    /// Model of the non-null native resource handle.
    pub handle: u64,
    /// Bytes of the root node's syntactic category name, as the grammar
    /// reports it.
    pub root_kind: Seq<u8>,
}

impl TreeView {
    /// A tree is well formed when its resource handle is non-null.
    pub open spec fn wf(self) -> bool {
        self.handle != 0
    }
}

/// An owned, complete syntax tree over some source text.
///
/// The underlying native resource is represented by a non-null handle. The
/// value owns that resource: it is freed exactly once, by whoever holds the
/// handle last. Handing the tree off to a scripting runtime consumes the
/// value, so the handle cannot cross the boundary twice.
pub struct ParsedTree {
    handle: u64,
    root_kind: Vec<u8>,
}

impl View for ParsedTree {
    type V = TreeView;

    closed spec fn view(&self) -> TreeView {
        TreeView { handle: self.handle, root_kind: self.root_kind@ }
    }
}

impl ParsedTree {
    /// Wraps a native resource handle produced by the parser collaborator.
    ///
    /// `handle` is the address of the heap-allocated native tree; `root_kind`
    /// is the grammar's category name for the tree's root node.
    pub fn new(handle: u64, root_kind: Vec<u8>) -> (r: ParsedTree)
        requires
            handle != 0,
        ensures
            r@ == (TreeView { handle, root_kind: root_kind@ }),
            r@.wf(),
    {
        ParsedTree { handle, root_kind }
    }

    /// The syntactic category name of the tree's root node.
    pub fn root_kind(&self) -> (r: &Vec<u8>)
        ensures
            r@ == self@.root_kind,
    {
        &self.root_kind
    }

    /// Consumes the tree and yields its raw resource handle.
    ///
    /// After this call the original value no longer exists, so its teardown
    /// can never free the resource: whoever receives the handle is its sole
    /// owner and must arrange for it to be released exactly once.
    pub fn into_raw(self) -> (r: u64)
        ensures
            r == self@.handle,
    {
        self.handle
    }
}

/// The combination of a [`ParsedTree`] with the source code that it was
/// parsed from.
///
/// The pairing is transient: it exists only to carry both halves into a
/// single handoff call. The tree is owned, so handing the pair off consumes
/// it; the source is borrowed, because the handoff copies the bytes rather
/// than retaining the reference.
pub struct TreeWithSource<'a> {
    /// The owned tree; its resource handle crosses the boundary exactly once.
    pub tree: ParsedTree,
    /// The bytes the tree was parsed from; copied, never retained.
    pub src: &'a [u8],
}

/// An extension trait that combines a parsed tree with the source code that
/// it was parsed from.
pub trait WithSource: View<V = TreeView> + Sized {
    /// Pairs the tree with its source bytes for a single handoff call.
    fn with_source<'a>(self, src: &'a [u8]) -> (r: TreeWithSource<'a>)
        ensures
            r.tree@ == self@,
            r.src@ == src@,
    ;
}

impl WithSource for ParsedTree {
    fn with_source<'a>(self, src: &'a [u8]) -> (r: TreeWithSource<'a>) {
        TreeWithSource { tree: self, src }
    }
}

} // verus!
