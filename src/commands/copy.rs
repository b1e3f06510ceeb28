//! Copying entries to a destination.

use vstd::prelude::*;
use crate::app::{App, AppView};
use crate::clipboard::paths_view;
use crate::commands::{FsOp, OpView, finish_batch, finish_batch_spec, listing_view, outcomes_view, result_view, push_quoted, quoted, resolve_spec, destination_for};
use crate::entry::FileItem;
use crate::path::{FsPath, PathView, path_text};
use crate::text::{decimal, push_decimal, push_text, string_of};

verus! {

/// Copies each source, directories with everything in them.
pub struct CopyCommand {
    pub sources: Vec<FsPath>,
    pub destination: FsPath,
}

pub ghost struct CopyView {
    pub sources: Seq<PathView>,
    pub destination: PathView,
}

impl View for CopyCommand {
    type V = CopyView;

    open spec fn view(&self) -> CopyView {
        CopyView { sources: paths_view(self.sources@), destination: self.destination@ }
    }
}

pub open spec fn copy_description(c: CopyView) -> Seq<char> {
    if c.sources.len() == 1 {
        "Copy "@ + quoted(path_text(c.sources[0])) + " to "@ + quoted(path_text(c.destination))
    } else {
        "Copy "@ + decimal(c.sources.len()) + " items to "@ + quoted(path_text(c.destination))
    }
}

impl CopyCommand {
    pub fn new(sources: Vec<FsPath>, destination: FsPath) -> (r: Self)
        ensures
            r@ == (CopyView { sources: paths_view(sources@), destination: destination@ }),
    {
        CopyCommand { sources, destination }
    }

    pub fn description(&self) -> (r: String)
        ensures
            r@ == copy_description(self@),
    {
        let n = self.sources.len();
        assert(self@.sources.len() == n);
        if n == 1 {
            assert(self@.sources[0] == self.sources@[0]@);
        }
        let mut s = string_of("Copy ");
        if n == 1 {
            let p = self.sources[0].to_text();
            push_quoted(&mut s, p.as_str());
            push_text(&mut s, " to ");
        } else {
            push_decimal(&mut s, n as u64);
            push_text(&mut s, " items to ");
        }
        let d = self.destination.to_text();
        push_quoted(&mut s, d.as_str());
        proof {
            if n == 1 {
                assert(s@ =~= copy_description(self@));
            } else {
                assert(s@ =~= copy_description(self@));
            }
        }
        s
    }

    /// The operation for source `i`, given whether the destination is a
    /// directory at that moment: copy it to where it lands.
    pub fn operation(&self, i: usize, dest_is_dir: bool) -> (r: FsOp)
        requires
            i < self@.sources.len(),
        ensures
            r@ == OpView::CopyTree(
                self@.sources[i as int],
                resolve_spec(self@.sources[i as int], self@.destination, dest_is_dir),
            ),
    {
        let to = destination_for(&self.sources[i], &self.destination, dest_is_dir);
        FsOp::CopyTree { from: self.sources[i].duplicate(), to }
    }

    /// Takes the outcome of each copy and a fresh listing: reports
    /// `Copied N item(s)`, or the failures, then refreshes the listing.
    pub fn complete(
        &self,
        app: &mut App,
        outcomes: &Vec<Option<String>>,
        listing: Result<Vec<FileItem>, String>,
    ) -> (r: Result<(), String>)
        requires
            old(app).wf(),
            outcomes@.len() == self@.sources.len(),
        ensures
            final(app).wf(),
            (final(app)@, result_view(r)) == finish_batch_spec(
                old(app)@,
                "Copied "@,
                "Copied "@,
                self@.sources,
                outcomes_view(outcomes@),
                listing_view(listing),
            ),
    {
        finish_batch(app, "Copied ", "Copied ", &self.sources, outcomes, listing)
    }
}

} // verus!
