//! Creating a file or a directory.

use vstd::prelude::*;
use crate::app::{App, AppView, opt_text};
use crate::commands::{FsOp, OpView, finish_single, single_spec, listing_view, result_view, push_quoted, quoted};
use crate::entry::FileItem;
use crate::path::{FsPath, PathView, path_text};
use crate::text::{push_text, string_of};

verus! {

/// Creates a file, with its missing parent directories.
pub struct CreateFileCommand {
    pub path: FsPath,
    pub content: String,
    /// Whether the file was written.
    pub created: bool,
}

pub ghost struct CreateFileView {
    pub path: PathView,
    pub content: Seq<char>,
    pub created: bool,
}

impl View for CreateFileCommand {
    type V = CreateFileView;

    open spec fn view(&self) -> CreateFileView {
        CreateFileView { path: self.path@, content: self.content@, created: self.created }
    }
}

/// Creates a directory, with its missing parents.
pub struct CreateDirCommand {
    pub path: FsPath,
    /// Whether the directory was created.
    pub created: bool,
}

pub ghost struct CreateDirView {
    pub path: PathView,
    pub created: bool,
}

impl View for CreateDirCommand {
    type V = CreateDirView;

    open spec fn view(&self) -> CreateDirView {
        CreateDirView { path: self.path@, created: self.created }
    }
}

impl CreateFileCommand {
    /// A command that creates an empty file.
    pub fn new(path: FsPath) -> (r: Self)
        ensures
            r@ == (CreateFileView { path: path@, content: Seq::empty(), created: false }),
    {
        CreateFileCommand { path, content: String::new(), created: false }
    }

    /// A command that creates a file holding `content`.
    pub fn new_with_content(path: FsPath, content: String) -> (r: Self)
        ensures
            r@ == (CreateFileView { path: path@, content: content@, created: false }),
    {
        CreateFileCommand { path, content, created: false }
    }

    pub fn description(&self) -> (r: String)
        ensures
            r@ == "Create file "@ + path_text(self.path@),
    {
        let mut s = string_of("Create file ");
        let p = self.path.to_text();
        push_text(&mut s, p.as_str());
        s
    }

    /// The one operation: write the file.
    pub fn operation(&self) -> (r: FsOp)
        ensures
            r@ == OpView::WriteFile(self.path@, self.content@),
    {
        FsOp::WriteFile { path: self.path.duplicate(), content: self.content.clone() }
    }

    /// Takes the outcome of the write and a fresh listing: on success the
    /// file counts as created, the listing is refreshed and
    /// `Created file: <path>` reported.
    pub fn complete(
        &mut self,
        app: &mut App,
        outcome: &Option<String>,
        listing: Result<Vec<FileItem>, String>,
    ) -> (r: Result<(), String>)
        requires
            old(app).wf(),
        ensures
            final(app).wf(),
            final(self)@ == (CreateFileView { created: old(self).created || outcome is None, ..old(self)@ }),
            (final(app)@, result_view(r)) == single_spec(
                old(app)@,
                opt_text(*outcome),
                listing_view(listing),
                "Created file: "@ + path_text(old(self).path@),
            ),
    {
        if outcome.is_none() {
            self.created = true;
        }
        let mut status = string_of("Created file: ");
        let p = self.path.to_text();
        push_text(&mut status, p.as_str());
        finish_single(app, outcome, listing, status)
    }

    /// The operation that undoes the creation: remove the file, if it was
    /// created.
    pub fn undo_operation(&self) -> (r: Option<FsOp>)
        ensures
            r matches Some(op) ==> op@ == OpView::RemoveFile(self.path@),
            r is Some <==> self.created,
    {
        if self.created {
            Some(FsOp::RemoveFile { path: self.path.duplicate() })
        } else {
            None
        }
    }

    /// Takes the outcome of the removal: nothing happens when the file was
    /// never created; otherwise see `single_spec`, reporting
    /// `Undid 'Create file: <path>'`.
    pub fn complete_undo(
        &self,
        app: &mut App,
        outcome: &Option<String>,
        listing: Result<Vec<FileItem>, String>,
    ) -> (r: Result<(), String>)
        requires
            old(app).wf(),
        ensures
            final(app).wf(),
            (final(app)@, result_view(r)) == if self.created {
                single_spec(
                    old(app)@,
                    opt_text(*outcome),
                    listing_view(listing),
                    "Undid 'Create file: "@ + path_text(self.path@) + "'"@,
                )
            } else {
                (old(app)@, Ok(()))
            },
    {
        if !self.created {
            return Ok(());
        }
        let mut status = string_of("Undid 'Create file: ");
        let p = self.path.to_text();
        push_text(&mut status, p.as_str());
        push_text(&mut status, "'");
        finish_single(app, outcome, listing, status)
    }
}

impl CreateDirCommand {
    pub fn new(path: FsPath) -> (r: Self)
        ensures
            r@ == (CreateDirView { path: path@, created: false }),
    {
        CreateDirCommand { path, created: false }
    }

    pub fn description(&self) -> (r: String)
        ensures
            r@ == "Create directory: "@ + quoted(path_text(self.path@)),
    {
        let mut s = string_of("Create directory: ");
        let p = self.path.to_text();
        push_quoted(&mut s, p.as_str());
        s
    }

    /// The one operation: create the directory and its missing parents.
    pub fn operation(&self) -> (r: FsOp)
        ensures
            r@ == OpView::CreateDirAll(self.path@),
    {
        FsOp::CreateDirAll { path: self.path.duplicate() }
    }

    /// Takes the outcome of the creation and a fresh listing: on success the
    /// directory counts as created, the listing is refreshed and
    /// `Created directory: <path>` reported.
    pub fn complete(
        &mut self,
        app: &mut App,
        outcome: &Option<String>,
        listing: Result<Vec<FileItem>, String>,
    ) -> (r: Result<(), String>)
        requires
            old(app).wf(),
        ensures
            final(app).wf(),
            final(self)@ == (CreateDirView { created: old(self).created || outcome is None, ..old(self)@ }),
            (final(app)@, result_view(r)) == single_spec(
                old(app)@,
                opt_text(*outcome),
                listing_view(listing),
                "Created directory: "@ + path_text(old(self).path@),
            ),
    {
        if outcome.is_none() {
            self.created = true;
        }
        let mut status = string_of("Created directory: ");
        let p = self.path.to_text();
        push_text(&mut status, p.as_str());
        finish_single(app, outcome, listing, status)
    }

    /// The operation that undoes the creation: remove the directory, which
    /// must be empty by then, if it was created.
    pub fn undo_operation(&self) -> (r: Option<FsOp>)
        ensures
            r matches Some(op) ==> op@ == OpView::RemoveDir(self.path@),
            r is Some <==> self.created,
    {
        if self.created {
            Some(FsOp::RemoveDir { path: self.path.duplicate() })
        } else {
            None
        }
    }

    /// Takes the outcome of the removal: nothing happens when the directory
    /// was never created; otherwise see `single_spec`, reporting
    /// `Removed directory: '<path>'`.
    pub fn complete_undo(
        &self,
        app: &mut App,
        outcome: &Option<String>,
        listing: Result<Vec<FileItem>, String>,
    ) -> (r: Result<(), String>)
        requires
            old(app).wf(),
        ensures
            final(app).wf(),
            (final(app)@, result_view(r)) == if self.created {
                single_spec(
                    old(app)@,
                    opt_text(*outcome),
                    listing_view(listing),
                    "Removed directory: "@ + quoted(path_text(self.path@)),
                )
            } else {
                (old(app)@, Ok(()))
            },
    {
        if !self.created {
            return Ok(());
        }
        let mut status = string_of("Removed directory: ");
        let p = self.path.to_text();
        push_quoted(&mut status, p.as_str());
        finish_single(app, outcome, listing, status)
    }
}

} // verus!
