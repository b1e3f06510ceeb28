//! Deleting files and directories.

use vstd::prelude::*;
use crate::app::{App, AppView};
use crate::clipboard::paths_view;
use crate::commands::{FsOp, OpView, finish_batch, finish_batch_spec, listing_view, outcomes_view, result_view, push_quoted, quoted};
use crate::entry::FileItem;
use crate::path::{FsPath, PathView, path_text};
use crate::text::{decimal, push_decimal, push_text, string_of};

verus! {

/// Deletes each target; a directory goes with everything in it.
pub struct DeleteCommand {
    pub targets: Vec<FsPath>,
}

pub ghost struct DeleteView {
    pub targets: Seq<PathView>,
}

impl View for DeleteCommand {
    type V = DeleteView;

    open spec fn view(&self) -> DeleteView {
        DeleteView { targets: paths_view(self.targets@) }
    }
}

pub open spec fn delete_description(c: DeleteView) -> Seq<char> {
    if c.targets.len() == 1 {
        "Delete "@ + quoted(path_text(c.targets[0]))
    } else {
        "Delete "@ + decimal(c.targets.len()) + " items"@
    }
}

impl DeleteCommand {
    pub fn new(targets: Vec<FsPath>) -> (r: Self)
        ensures
            r@.targets == paths_view(targets@),
    {
        DeleteCommand { targets }
    }

    pub fn new_single(target: FsPath) -> (r: Self)
        ensures
            r@.targets == seq![target@],
    {
        let mut targets: Vec<FsPath> = Vec::new();
        targets.push(target);
        let r = DeleteCommand { targets };
        assert(r@.targets =~= seq![target@]);
        r
    }

    pub fn description(&self) -> (r: String)
        ensures
            r@ == delete_description(self@),
    {
        let n = self.targets.len();
        assert(self@.targets.len() == n);
        if n == 1 {
            assert(self@.targets[0] == self.targets@[0]@);
        }
        let mut s = string_of("Delete ");
        if n == 1 {
            let p = self.targets[0].to_text();
            push_quoted(&mut s, p.as_str());
        } else {
            push_decimal(&mut s, n as u64);
            push_text(&mut s, " items");
        }
        s
    }

    /// The operation for target `i`: a directory is removed with its
    /// contents, anything else as a file.
    pub fn operation(&self, i: usize, target_is_dir: bool) -> (r: FsOp)
        requires
            i < self@.targets.len(),
        ensures
            r@ == if target_is_dir {
                OpView::RemoveDirAll(self@.targets[i as int])
            } else {
                OpView::RemoveFile(self@.targets[i as int])
            },
    {
        let path = self.targets[i].duplicate();
        if target_is_dir {
            FsOp::RemoveDirAll { path }
        } else {
            FsOp::RemoveFile { path }
        }
    }

    /// Takes the outcome of each target's removal and a fresh listing:
    /// reports `Deleted N item(s)`, or the failures, then refreshes the
    /// listing whatever happened.
    pub fn complete(
        &self,
        app: &mut App,
        outcomes: &Vec<Option<String>>,
        listing: Result<Vec<FileItem>, String>,
    ) -> (r: Result<(), String>)
        requires
            old(app).wf(),
            outcomes@.len() == self@.targets.len(),
        ensures
            final(app).wf(),
            (final(app)@, result_view(r)) == finish_batch_spec(
                old(app)@,
                "Deleted "@,
                "Deleted "@,
                self@.targets,
                outcomes_view(outcomes@),
                listing_view(listing),
            ),
    {
        finish_batch(app, "Deleted ", "Deleted ", &self.targets, outcomes, listing)
    }
}

} // verus!
