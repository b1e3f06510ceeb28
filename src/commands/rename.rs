//! Renaming an entry within its directory.

use vstd::prelude::*;
use crate::app::{App, AppView, opt_text};
use crate::commands::{FsOp, OpView, finish_single, single_spec, listing_view, result_view, push_quoted, quoted};
use crate::entry::FileItem;
use crate::path::{FsPath, PathView, path_text, file_name_spec, with_file_name_spec};
use crate::text::{push_text, string_of};

verus! {

/// Gives an entry a new name in the same directory.
pub struct RenameCommand {
    pub source: FsPath,
    pub new_name: String,
    /// The name before the rename, once it happened.
    pub old_name: Option<String>,
}

pub ghost struct RenameView {
    pub source: PathView,
    pub new_name: Seq<char>,
    pub old_name: Option<Seq<char>>,
}

impl View for RenameCommand {
    type V = RenameView;

    open spec fn view(&self) -> RenameView {
        RenameView { source: self.source@, new_name: self.new_name@, old_name: opt_text(self.old_name) }
    }
}

/// Where the entry is after the rename.
pub open spec fn renamed_path(c: RenameView) -> PathView {
    with_file_name_spec(c.source, c.new_name)
}

/// The rename operation; there is none when the source has no file name.
pub open spec fn rename_op(c: RenameView) -> Option<OpView> {
    if file_name_spec(c.source) is Some {
        Some(OpView::Rename(c.source, renamed_path(c)))
    } else {
        None
    }
}

/// The operation that puts the entry back under its old name, once the
/// rename happened.
pub open spec fn rename_undo_op(c: RenameView) -> Option<OpView> {
    match c.old_name {
        Some(n) => Some(OpView::Rename(renamed_path(c), with_file_name_spec(c.source, n))),
        None => None,
    }
}

pub open spec fn invalid_path_text() -> Seq<char> {
    "Invalid file path"@
}

impl RenameCommand {
    pub fn new(source: FsPath, new_name: String) -> (r: Self)
        ensures
            r@ == (RenameView { source: source@, new_name: new_name@, old_name: None }),
    {
        RenameCommand { source, new_name, old_name: None }
    }

    pub fn description(&self) -> (r: String)
        ensures
            r@ == "Rename "@ + quoted(path_text(self.source@)) + " to "@ + quoted(self.new_name@),
    {
        let mut s = string_of("Rename ");
        let p = self.source.to_text();
        push_quoted(&mut s, p.as_str());
        push_text(&mut s, " to ");
        push_quoted(&mut s, self.new_name.as_str());
        s
    }

    /// The rename operation (`rename_op`).
    pub fn operation(&self) -> (r: Option<FsOp>)
        ensures
            match r {
                Some(op) => rename_op(self@) == Some(op@),
                None => rename_op(self@) is None,
            },
    {
        if self.source.file_name().is_some() {
            let to = self.source.with_file_name(self.new_name.as_str());
            Some(FsOp::Rename { from: self.source.duplicate(), to })
        } else {
            None
        }
    }

    /// Takes the outcome of the rename and a fresh listing. A source
    /// without a file name fails with `Invalid file path`; a failed rename
    /// returns its reason. After a success the old name is kept for undo,
    /// the listing is refreshed and `Renamed '<old>' to '<new>'` reported.
    pub fn complete(
        &mut self,
        app: &mut App,
        outcome: &Option<String>,
        listing: Result<Vec<FileItem>, String>,
    ) -> (r: Result<(), String>)
        requires
            old(app).wf(),
        ensures
            final(app).wf(),
            match file_name_spec(old(self)@.source) {
                None => final(self)@ == old(self)@ && final(app)@ == old(app)@ && result_view(r)
                    == Err::<(), Seq<char>>(invalid_path_text()),
                Some(n) => {
                    &&& final(self)@ == (if outcome is None {
                        RenameView { old_name: Some(n), ..old(self)@ }
                    } else {
                        old(self)@
                    })
                    &&& (final(app)@, result_view(r)) == single_spec(
                        old(app)@,
                        opt_text(*outcome),
                        listing_view(listing),
                        "Renamed "@ + quoted(n) + " to "@ + quoted(old(self)@.new_name),
                    )
                },
            },
    {
        match self.source.file_name() {
            None => Err(string_of("Invalid file path")),
            Some(n) => {
                let mut status = string_of("Renamed ");
                push_quoted(&mut status, n.as_str());
                push_text(&mut status, " to ");
                push_quoted(&mut status, self.new_name.as_str());
                if outcome.is_none() {
                    self.old_name = Some(n);
                }
                finish_single(app, outcome, listing, status)
            },
        }
    }

    /// The operation that undoes the rename (`rename_undo_op`).
    pub fn undo_operation(&self) -> (r: Option<FsOp>)
        ensures
            match r {
                Some(op) => rename_undo_op(self@) == Some(op@),
                None => rename_undo_op(self@) is None,
            },
    {
        match &self.old_name {
            Some(n) => {
                let from = self.source.with_file_name(self.new_name.as_str());
                let to = self.source.with_file_name(n.as_str());
                Some(FsOp::Rename { from, to })
            },
            None => None,
        }
    }

    /// Takes the outcome of the undo: nothing happens before the rename;
    /// otherwise see `single_spec`, reporting `Undid rename: restored '<old>'`.
    pub fn complete_undo(
        &self,
        app: &mut App,
        outcome: &Option<String>,
        listing: Result<Vec<FileItem>, String>,
    ) -> (r: Result<(), String>)
        requires
            old(app).wf(),
        ensures
            final(app).wf(),
            (final(app)@, result_view(r)) == match self@.old_name {
                Some(n) => single_spec(
                    old(app)@,
                    opt_text(*outcome),
                    listing_view(listing),
                    "Undid rename: restored "@ + quoted(n),
                ),
                None => (old(app)@, Ok(())),
            },
    {
        match &self.old_name {
            Some(n) => {
                let mut status = string_of("Undid rename: restored ");
                push_quoted(&mut status, n.as_str());
                finish_single(app, outcome, listing, status)
            },
            None => Ok(()),
        }
    }
}

} // verus!

verus! {

/// Renaming an entry and then undoing the rename puts it back: the rename
/// that completed remembers the name the entry had, its undo renames the
/// entry from where the rename put it back to the path it had, and on a
/// filesystem where the entry existed its content is there again.
pub proof fn lemma_rename_then_undo_restores<C>(
    c: RenameView,
    a: AppView,
    listing: Result<Seq<crate::entry::FileItemView>, Seq<char>>,
    fs: Map<PathView, C>,
)
    requires
        crate::path::path_wf(c.source),
        file_name_spec(c.source) is Some,
        fs.contains_key(c.source),
    ensures
        ({
            let done = crate::commands::complete_spec(
                crate::commands::CommandView::Rename(c),
                a,
                seq![false],
                seq![None],
                listing,
            ).0;
            let after = RenameView { old_name: file_name_spec(c.source), ..c };
            &&& done == crate::commands::CommandView::Rename(after)
            &&& after.old_name == file_name_spec(c.source)
            &&& rename_op(c) == Some(OpView::Rename(c.source, renamed_path(c)))
            &&& rename_undo_op(after) == Some(OpView::Rename(renamed_path(c), c.source))
            &&& crate::commands::apply_rename(
                crate::commands::apply_rename(fs, c.source, renamed_path(c)),
                renamed_path(c),
                c.source,
            )[c.source] == fs[c.source]
        }),
{
    crate::path::lemma_with_own_file_name(c.source);
    crate::commands::lemma_rename_round_trip(fs, c.source, renamed_path(c));
}

} // verus!
