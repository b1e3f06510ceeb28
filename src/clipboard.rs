//! The clipboard: paths waiting to be pasted, and whether they are copied
//! or cut.

use vstd::prelude::*;
use crate::path::{FsPath, PathView};

verus! {

/// What a paste does with the clipboard's paths.
#[derive(Debug, Clone, Copy, PartialEq, Eq, Structural)]
pub enum ClipboardOperation {
    Empty,
    Copy,
    Cut,
}

/// Paths waiting to be pasted.
pub struct Clipboard {
    pub items: Vec<FsPath>,
    pub operation: ClipboardOperation,
}

/// The mathematical value of a clipboard.
pub ghost struct ClipboardView {
    pub items: Seq<PathView>,
    pub operation: ClipboardOperation,
}

/// The views of a sequence of paths.
pub open spec fn paths_view(s: Seq<FsPath>) -> Seq<PathView> {
    s.map_values(|p: FsPath| p@)
}

/// The operation is `Empty` exactly when there is nothing to paste.
pub open spec fn clipboard_wf(c: ClipboardView) -> bool {
    (c.operation == ClipboardOperation::Empty) <==> c.items.len() == 0
}

impl View for Clipboard {
    type V = ClipboardView;

    open spec fn view(&self) -> ClipboardView {
        ClipboardView { items: paths_view(self.items@), operation: self.operation }
    }
}

impl Clipboard {
    /// An empty clipboard.
    pub fn new() -> (r: Clipboard)
        ensures
            r@.items.len() == 0,
            r@.operation == ClipboardOperation::Empty,
            clipboard_wf(r@),
    {
        Clipboard { items: Vec::new(), operation: ClipboardOperation::Empty }
    }
}

/// Copies of the given paths.
pub fn duplicate_paths(s: &Vec<FsPath>) -> (r: Vec<FsPath>)
    ensures
        paths_view(r@) == paths_view(s@),
{
    let mut out: Vec<FsPath> = Vec::new();
    let mut i: usize = 0;
    while i < s.len()
        invariant
            i <= s@.len(),
            out@.len() == i,
            paths_view(out@) == paths_view(s@.subrange(0, i as int)),
        decreases s@.len() - i,
    {
        let ghost o0 = out@;
        out.push(s[i].duplicate());
        assert forall|k: int| 0 <= k <= i implies paths_view(out@)[k] == paths_view(s@.subrange(0, i + 1))[k] by {
            if k < i {
                assert(out@[k] == o0[k]);
                assert(paths_view(o0)[k] == paths_view(s@.subrange(0, i as int))[k]);
            }
        }
        assert(paths_view(out@) =~= paths_view(s@.subrange(0, i + 1)));
        i = i + 1;
    }
    assert(s@.subrange(0, s@.len() as int) == s@);
    out
}

} // verus!
