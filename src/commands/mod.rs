//! The command engine: reversible filesystem commands.
//!
//! A command does not touch the filesystem itself. It hands out the
//! operations to perform (`operation`), the caller performs them and hands
//! back what each one gave (`complete`), together with a fresh listing of the
//! current directory, and the command then updates the application state.

use vstd::prelude::*;
use crate::app::{App, AppView, refresh_spec};
use crate::entry::{FileItem, FileItemView, items_view};
use crate::path::{FsPath, PathView, path_text};
use crate::text::{decimal, push_decimal, push_text, string_of};

pub mod create;
pub mod rename;
pub mod delete;
pub mod copy;
pub mod move_cmd;

pub use create::{CreateDirCommand, CreateFileCommand, CreateFileView, CreateDirView};
pub use rename::{RenameCommand, RenameView};
pub use delete::{DeleteCommand, DeleteView};
pub use copy::{CopyCommand, CopyView};
pub use move_cmd::{MoveCommand, MoveView};

verus! {

/// One filesystem operation for the caller to perform.
pub enum FsOp {
    /// Create the parent directories if needed, then write the file.
    WriteFile { path: FsPath, content: String },
    /// Create a directory and its missing parents.
    CreateDirAll { path: FsPath },
    RemoveFile { path: FsPath },
    /// Remove an empty directory.
    RemoveDir { path: FsPath },
    /// Remove a directory and everything in it.
    RemoveDirAll { path: FsPath },
    Rename { from: FsPath, to: FsPath },
    /// Copy a file, or a directory with everything in it.
    CopyTree { from: FsPath, to: FsPath },
}

/// The mathematical value of an operation.
pub ghost enum OpView {
    WriteFile(PathView, Seq<char>),
    CreateDirAll(PathView),
    RemoveFile(PathView),
    RemoveDir(PathView),
    RemoveDirAll(PathView),
    Rename(PathView, PathView),
    CopyTree(PathView, PathView),
}

impl View for FsOp {
    type V = OpView;

    open spec fn view(&self) -> OpView {
        match self {
            FsOp::WriteFile { path, content } => OpView::WriteFile(path@, content@),
            FsOp::CreateDirAll { path } => OpView::CreateDirAll(path@),
            FsOp::RemoveFile { path } => OpView::RemoveFile(path@),
            FsOp::RemoveDir { path } => OpView::RemoveDir(path@),
            FsOp::RemoveDirAll { path } => OpView::RemoveDirAll(path@),
            FsOp::Rename { from, to } => OpView::Rename(from@, to@),
            FsOp::CopyTree { from, to } => OpView::CopyTree(from@, to@),
        }
    }
}

/// A filesystem command of any kind.
pub enum Command {
    CreateFile(CreateFileCommand),
    CreateDir(CreateDirCommand),
    Rename(RenameCommand),
    Delete(DeleteCommand),
    Copy(CopyCommand),
    Move(MoveCommand),
}

/// The mathematical value of a command.
pub ghost enum CommandView {
    CreateFile(CreateFileView),
    CreateDir(CreateDirView),
    Rename(RenameView),
    Delete(DeleteView),
    Copy(CopyView),
    Move(MoveView),
}

impl View for Command {
    type V = CommandView;

    open spec fn view(&self) -> CommandView {
        match self {
            Command::CreateFile(c) => CommandView::CreateFile(c@),
            Command::CreateDir(c) => CommandView::CreateDir(c@),
            Command::Rename(c) => CommandView::Rename(c@),
            Command::Delete(c) => CommandView::Delete(c@),
            Command::Copy(c) => CommandView::Copy(c@),
            Command::Move(c) => CommandView::Move(c@),
        }
    }
}

/// The views of operation outcomes: `None` for success, or the reason of
/// the failure.
pub open spec fn outcomes_view(o: Seq<Option<String>>) -> Seq<Option<Seq<char>>> {
    o.map_values(|x: Option<String>| match x {
        Some(e) => Some(e@),
        None => None,
    })
}

/// The view of a listing read from the filesystem, or of the reason it
/// could not be read.
pub open spec fn listing_view(l: Result<Vec<FileItem>, String>) -> Result<Seq<FileItemView>, Seq<char>> {
    match l {
        Ok(v) => Ok(items_view(v@)),
        Err(e) => Err(e@),
    }
}

/// The view of a command's result.
pub open spec fn result_view(r: Result<(), String>) -> Result<(), Seq<char>> {
    match r {
        Ok(()) => Ok(()),
        Err(e) => Err(e@),
    }
}

/// How many operations succeeded.
pub open spec fn ok_count(o: Seq<Option<Seq<char>>>) -> nat
    decreases o.len(),
{
    if o.len() == 0 {
        0
    } else {
        ok_count(o.drop_last()) + if o.last() is None { 1nat } else { 0nat }
    }
}

/// `path: reason` for each operation that failed, in order.
pub open spec fn failure_texts(paths: Seq<PathView>, o: Seq<Option<Seq<char>>>) -> Seq<Seq<char>>
    decreases o.len(),
{
    if o.len() == 0 {
        Seq::empty()
    } else {
        let before = failure_texts(paths, o.drop_last());
        match o.last() {
            Some(e) => before.push(path_text(paths[o.len() - 1]) + ": "@ + e),
            None => before,
        }
    }
}

/// Texts separated by `, `.
pub open spec fn comma_joined(s: Seq<Seq<char>>) -> Seq<char>
    decreases s.len(),
{
    if s.len() == 0 {
        Seq::empty()
    } else if s.len() == 1 {
        s[0]
    } else {
        comma_joined(s.drop_last()) + ", "@ + s.last()
    }
}

/// The state after reporting on a batch: a status when every operation
/// succeeded, `<ok_prefix>N item(s)`; otherwise an error,
/// `<err_prefix>N item(s), M error(s): path: reason, ...`.
pub open spec fn report_spec(
    a: AppView,
    ok_prefix: Seq<char>,
    err_prefix: Seq<char>,
    paths: Seq<PathView>,
    o: Seq<Option<Seq<char>>>,
) -> AppView {
    let errs = failure_texts(paths, o);
    if errs.len() == 0 {
        AppView { status_message: Some(ok_prefix + decimal(ok_count(o)) + " item(s)"@), ..a }
    } else {
        AppView {
            error_message: Some(
                err_prefix + decimal(ok_count(o)) + " item(s), "@ + decimal(errs.len()) + " error(s): "@
                    + comma_joined(errs),
            ),
            ..a
        }
    }
}

/// The state and result after a batch report and a refresh with `listing`.
pub open spec fn finish_batch_spec(
    a: AppView,
    ok_prefix: Seq<char>,
    err_prefix: Seq<char>,
    paths: Seq<PathView>,
    o: Seq<Option<Seq<char>>>,
    listing: Result<Seq<FileItemView>, Seq<char>>,
) -> (AppView, Result<(), Seq<char>>) {
    let reported = report_spec(a, ok_prefix, err_prefix, paths, o);
    match listing {
        Ok(l) => (refresh_spec(reported, l), Ok(())),
        Err(e) => (reported, Err(e)),
    }
}

/// Reports on a batch of operations, then refreshes the listing.
pub(crate) fn finish_batch(
    app: &mut App,
    ok_prefix: &str,
    err_prefix: &str,
    paths: &Vec<FsPath>,
    outcomes: &Vec<Option<String>>,
    listing: Result<Vec<FileItem>, String>,
) -> (r: Result<(), String>)
    requires
        old(app).wf(),
        paths@.len() == outcomes@.len(),
    ensures
        final(app).wf(),
        (final(app)@, result_view(r)) == finish_batch_spec(
            old(app)@,
            ok_prefix@,
            err_prefix@,
            crate::clipboard::paths_view(paths@),
            outcomes_view(outcomes@),
            listing_view(listing),
        ),
{
    let ghost pv = crate::clipboard::paths_view(paths@);
    let ghost ov = outcomes_view(outcomes@);
    let mut count: u64 = 0;
    let mut errors: String = String::new();
    let mut n_errors: u64 = 0;
    let mut i: usize = 0;
    while i < outcomes.len()
        invariant
            i <= outcomes@.len(),
            paths@.len() == outcomes@.len(),
            pv == crate::clipboard::paths_view(paths@),
            ov == outcomes_view(outcomes@),
            count == ok_count(ov.subrange(0, i as int)),
            n_errors == failure_texts(pv, ov.subrange(0, i as int)).len(),
            errors@ == comma_joined(failure_texts(pv, ov.subrange(0, i as int))),
            count <= i,
            n_errors <= i,
        decreases outcomes@.len() - i,
    {
        let ghost sub = ov.subrange(0, i + 1);
        assert(sub.drop_last() == ov.subrange(0, i as int));
        assert(sub.last() == ov[i as int]);
        match &outcomes[i] {
            Some(e) => {
                if n_errors > 0 {
                    push_text(&mut errors, ", ");
                }
                let p = paths[i].to_text();
                push_text(&mut errors, p.as_str());
                push_text(&mut errors, ": ");
                push_text(&mut errors, e.as_str());
                proof {
                    let before = failure_texts(pv, ov.subrange(0, i as int));
                    assert(failure_texts(pv, sub) == before.push(path_text(pv[i as int]) + ": "@ + e@));
                    assert(failure_texts(pv, sub).drop_last() == before);
                    if before.len() == 0 {
                        assert(comma_joined(before) == Seq::<char>::empty());
                    }
                    assert(errors@ == comma_joined(failure_texts(pv, sub)));
                }
                n_errors = n_errors + 1;
            },
            None => {
                count = count + 1;
            },
        }
        i = i + 1;
    }
    assert(ov.subrange(0, ov.len() as int) == ov);
    assert(ov.len() == outcomes@.len());
    let mut msg: String;
    if n_errors == 0 {
        msg = string_of(ok_prefix);
        push_decimal(&mut msg, count);
        push_text(&mut msg, " item(s)");
        app.set_status(msg);
    } else {
        msg = string_of(err_prefix);
        push_decimal(&mut msg, count);
        push_text(&mut msg, " item(s), ");
        push_decimal(&mut msg, n_errors);
        push_text(&mut msg, " error(s): ");
        push_text(&mut msg, errors.as_str());
        app.set_error(msg);
    }
    match listing {
        Ok(entries) => {
            app.refresh_file_list(entries);
            Ok(())
        },
        Err(e) => Err(e),
    }
}

} // verus!

verus! {

/// The state and result of a single operation: its failure is returned as
/// is; after a success the listing is refreshed and `status` reported.
pub open spec fn single_spec(
    a: AppView,
    outcome: Option<Seq<char>>,
    listing: Result<Seq<FileItemView>, Seq<char>>,
    status: Seq<char>,
) -> (AppView, Result<(), Seq<char>>) {
    match outcome {
        Some(e) => (a, Err(e)),
        None => match listing {
            Ok(l) => (AppView { status_message: Some(status), ..refresh_spec(a, l) }, Ok(())),
            Err(e) => (a, Err(e)),
        },
    }
}

/// Finishes a single operation: see `single_spec`.
pub(crate) fn finish_single(
    app: &mut App,
    outcome: &Option<String>,
    listing: Result<Vec<FileItem>, String>,
    status: String,
) -> (r: Result<(), String>)
    requires
        old(app).wf(),
    ensures
        final(app).wf(),
        (final(app)@, result_view(r)) == single_spec(
            old(app)@,
            crate::app::opt_text(*outcome),
            listing_view(listing),
            status@,
        ),
{
    match outcome {
        Some(e) => Err(e.clone()),
        None => match listing {
            Ok(entries) => {
                app.refresh_file_list(entries);
                app.set_status(status);
                Ok(())
            },
            Err(e) => Err(e),
        },
    }
}

/// `'text'`
pub open spec fn quoted(t: Seq<char>) -> Seq<char> {
    "'"@ + t + "'"@
}

/// Appends `'text'`.
pub(crate) fn push_quoted(s: &mut String, t: &str)
    ensures
        final(s)@ == old(s)@ + quoted(t@),
{
    push_text(s, "'");
    push_text(s, t);
    push_text(s, "'");
    assert(final(s)@ =~= old(s)@ + quoted(t@));
}

/// Where an item lands when it is copied or moved to `dest`: inside it,
/// under its own name, when `dest` is a directory; else `dest` itself.
pub open spec fn resolve_spec(source: PathView, dest: PathView, dest_is_dir: bool) -> PathView {
    if dest_is_dir {
        match crate::path::file_name_spec(source) {
            Some(n) => crate::path::join_spec(dest, n),
            None => crate::path::join_spec(dest, Seq::empty()),
        }
    } else {
        dest
    }
}

/// Where an item lands when it is copied or moved: see `resolve_spec`.
pub fn destination_for(source: &FsPath, dest: &FsPath, dest_is_dir: bool) -> (r: FsPath)
    ensures
        r@ == resolve_spec(source@, dest@, dest_is_dir),
{
    if dest_is_dir {
        match source.file_name() {
            Some(n) => dest.join(n.as_str()),
            None => {
                let empty = "";
                proof {
                    reveal_strlit("");
                    assert(empty@ =~= Seq::<char>::empty());
                }
                dest.join(empty)
            },
        }
    } else {
        dest.duplicate()
    }
}

pub open spec fn undo_unsupported_text() -> Seq<char> {
    "Undo not implemented for this command!"@
}

} // verus!

verus! {

/// The outcome of the first operation, if one was performed.
pub open spec fn first_outcome(o: Seq<Option<Seq<char>>>) -> Option<Seq<char>> {
    if o.len() > 0 {
        o[0]
    } else {
        None
    }
}

/// What a command says it does.
pub open spec fn description_spec(c: CommandView) -> Seq<char> {
    match c {
        CommandView::CreateFile(c) => "Create file "@ + path_text(c.path),
        CommandView::CreateDir(c) => "Create directory: "@ + quoted(path_text(c.path)),
        CommandView::Rename(c) => "Rename "@ + quoted(path_text(c.source)) + " to "@ + quoted(c.new_name),
        CommandView::Delete(c) => delete::delete_description(c),
        CommandView::Copy(c) => copy::copy_description(c),
        CommandView::Move(c) => move_cmd::move_description(c),
    }
}

/// How many operations running a command takes.
pub open spec fn op_count_spec(c: CommandView) -> nat {
    match c {
        CommandView::CreateFile(_) => 1,
        CommandView::CreateDir(_) => 1,
        CommandView::Rename(c) => if rename::rename_op(c) is Some { 1 } else { 0 },
        CommandView::Delete(c) => c.targets.len(),
        CommandView::Copy(c) => c.sources.len(),
        CommandView::Move(c) => c.sources.len(),
    }
}

/// The path to test for being a directory before operation `i`.
pub open spec fn fact_path_spec(c: CommandView, i: int) -> Option<PathView> {
    match c {
        CommandView::Delete(c) => Some(c.targets[i]),
        CommandView::Copy(c) => Some(c.destination),
        CommandView::Move(c) => Some(c.destination),
        _ => None,
    }
}

/// Operation `i` of a command, given whether the path of
/// `fact_path_spec` is a directory.
pub open spec fn op_spec(c: CommandView, i: int, is_dir: bool) -> OpView {
    match c {
        CommandView::CreateFile(c) => OpView::WriteFile(c.path, c.content),
        CommandView::CreateDir(c) => OpView::CreateDirAll(c.path),
        CommandView::Rename(c) => rename::rename_op(c)->0,
        CommandView::Delete(c) => if is_dir {
            OpView::RemoveDirAll(c.targets[i])
        } else {
            OpView::RemoveFile(c.targets[i])
        },
        CommandView::Copy(c) => OpView::CopyTree(
            c.sources[i],
            resolve_spec(c.sources[i], c.destination, is_dir),
        ),
        CommandView::Move(c) => OpView::Rename(
            c.sources[i],
            resolve_spec(c.sources[i], c.destination, is_dir),
        ),
    }
}

/// A command, the state, and the result after the command's operations gave
/// `o` (with `facts` answering `fact_path_spec`) and the listing was read.
pub open spec fn complete_spec(
    c: CommandView,
    a: AppView,
    facts: Seq<bool>,
    o: Seq<Option<Seq<char>>>,
    listing: Result<Seq<FileItemView>, Seq<char>>,
) -> (CommandView, AppView, Result<(), Seq<char>>) {
    match c {
        CommandView::CreateFile(f) => {
            let (a2, r) = single_spec(a, first_outcome(o), listing, "Created file: "@ + path_text(f.path));
            (CommandView::CreateFile(CreateFileView { created: f.created || first_outcome(o) is None, ..f }), a2, r)
        },
        CommandView::CreateDir(d) => {
            let (a2, r) = single_spec(a, first_outcome(o), listing, "Created directory: "@ + path_text(d.path));
            (CommandView::CreateDir(CreateDirView { created: d.created || first_outcome(o) is None, ..d }), a2, r)
        },
        CommandView::Rename(m) => match crate::path::file_name_spec(m.source) {
            None => (c, a, Err(rename::invalid_path_text())),
            Some(n) => {
                let (a2, r) = single_spec(a, first_outcome(o), listing, "Renamed "@ + quoted(n) + " to "@ + quoted(m.new_name));
                let m2 = if first_outcome(o) is None { RenameView { old_name: Some(n), ..m } } else { m };
                (CommandView::Rename(m2), a2, r)
            },
        },
        CommandView::Delete(d) => {
            let (a2, r) = finish_batch_spec(a, "Deleted "@, "Deleted "@, d.targets, o, listing);
            (c, a2, r)
        },
        CommandView::Copy(k) => {
            let (a2, r) = finish_batch_spec(a, "Copied "@, "Copied "@, k.sources, o, listing);
            (c, a2, r)
        },
        CommandView::Move(m) => {
            let (a2, r) = finish_batch_spec(a, "Moved "@, "Moved "@, m.sources, o, listing);
            let m2 = MoveView { moved_items: m.moved_items + move_cmd::new_moves(m.sources, m.destination, facts, o), ..m };
            (CommandView::Move(m2), a2, r)
        },
    }
}

/// How many operations undoing a command takes.
pub open spec fn undo_count_spec(c: CommandView) -> nat {
    match c {
        CommandView::CreateFile(f) => if f.created { 1 } else { 0 },
        CommandView::CreateDir(d) => if d.created { 1 } else { 0 },
        CommandView::Rename(m) => if m.old_name is Some { 1 } else { 0 },
        CommandView::Move(m) => m.moved_items.len(),
        _ => 0,
    }
}

/// Operation `i` of undoing a command.
pub open spec fn undo_op_spec(c: CommandView, i: int) -> OpView {
    match c {
        CommandView::CreateFile(f) => OpView::RemoveFile(f.path),
        CommandView::CreateDir(d) => OpView::RemoveDir(d.path),
        CommandView::Rename(m) => rename::rename_undo_op(m)->0,
        CommandView::Move(m) => move_cmd::move_undo_op(m, i),
        _ => arbitrary(),
    }
}

/// The state and result after undoing a command: the operations gave `o`
/// and the listing was read. Deletions and copies cannot be undone.
pub open spec fn undo_complete_spec(
    c: CommandView,
    a: AppView,
    o: Seq<Option<Seq<char>>>,
    listing: Result<Seq<FileItemView>, Seq<char>>,
) -> (AppView, Result<(), Seq<char>>) {
    match c {
        CommandView::CreateFile(f) => if f.created {
            single_spec(a, first_outcome(o), listing, "Undid 'Create file: "@ + path_text(f.path) + "'"@)
        } else {
            (a, Ok(()))
        },
        CommandView::CreateDir(d) => if d.created {
            single_spec(a, first_outcome(o), listing, "Removed directory: "@ + quoted(path_text(d.path)))
        } else {
            (a, Ok(()))
        },
        CommandView::Rename(m) => match m.old_name {
            Some(n) => single_spec(a, first_outcome(o), listing, "Undid rename: restored "@ + quoted(n)),
            None => (a, Ok(())),
        },
        CommandView::Move(m) => finish_batch_spec(
            a,
            "Undid move: restored "@,
            "Restored "@,
            m.moved_items.map_values(|p: (PathView, PathView)| p.1),
            o,
            listing,
        ),
        _ => (a, Err(undo_unsupported_text())),
    }
}

impl Command {
    pub fn description(&self) -> (r: String)
        ensures
            r@ == description_spec(self@),
    {
        match self {
            Command::CreateFile(c) => c.description(),
            Command::CreateDir(c) => c.description(),
            Command::Rename(c) => c.description(),
            Command::Delete(c) => c.description(),
            Command::Copy(c) => c.description(),
            Command::Move(c) => c.description(),
        }
    }

    /// How many operations running this command takes (`op_count_spec`).
    pub fn operation_count(&self) -> (r: usize)
        ensures
            r == op_count_spec(self@),
    {
        match self {
            Command::CreateFile(_) => 1,
            Command::CreateDir(_) => 1,
            Command::Rename(c) => if c.operation().is_some() { 1 } else { 0 },
            Command::Delete(c) => c.targets.len(),
            Command::Copy(c) => c.sources.len(),
            Command::Move(c) => c.sources.len(),
        }
    }

    /// The path whose kind operation `i` depends on (`fact_path_spec`).
    pub fn fact_path(&self, i: usize) -> (r: Option<FsPath>)
        requires
            i < op_count_spec(self@),
        ensures
            match r {
                Some(p) => fact_path_spec(self@, i as int) == Some(p@),
                None => fact_path_spec(self@, i as int) is None,
            },
    {
        match self {
            Command::Delete(c) => Some(c.targets[i].duplicate()),
            Command::Copy(c) => Some(c.destination.duplicate()),
            Command::Move(c) => Some(c.destination.duplicate()),
            _ => None,
        }
    }

    /// Operation `i`, given whether the path of `fact_path` is a directory
    /// (`op_spec`).
    pub fn operation(&self, i: usize, is_dir: bool) -> (r: FsOp)
        requires
            i < op_count_spec(self@),
        ensures
            r@ == op_spec(self@, i as int, is_dir),
    {
        match self {
            Command::CreateFile(c) => c.operation(),
            Command::CreateDir(c) => c.operation(),
            Command::Rename(c) => match c.operation() {
                Some(op) => op,
                None => {
                    assert(false);
                    c.operation().unwrap()
                },
            },
            Command::Delete(c) => c.operation(i, is_dir),
            Command::Copy(c) => c.operation(i, is_dir),
            Command::Move(c) => c.operation(i, is_dir),
        }
    }

    /// Takes the outcome of each operation, the answers to `fact_path`, and
    /// a fresh listing of the current directory (`complete_spec`).
    pub fn complete(
        &mut self,
        app: &mut App,
        facts: &Vec<bool>,
        outcomes: &Vec<Option<String>>,
        listing: Result<Vec<FileItem>, String>,
    ) -> (r: Result<(), String>)
        requires
            old(app).wf(),
            outcomes@.len() == op_count_spec(old(self)@),
            facts@.len() == op_count_spec(old(self)@),
        ensures
            final(app).wf(),
            (final(self)@, final(app)@, result_view(r)) == complete_spec(
                old(self)@,
                old(app)@,
                facts@,
                outcomes_view(outcomes@),
                listing_view(listing),
            ),
    {
        let none: Option<String> = None;
        let first: &Option<String> = if outcomes.len() > 0 {
            &outcomes[0]
        } else {
            &none
        };
        assert(crate::app::opt_text(*first) == first_outcome(outcomes_view(outcomes@)));
        match self {
            Command::CreateFile(c) => c.complete(app, first, listing),
            Command::CreateDir(c) => c.complete(app, first, listing),
            Command::Rename(c) => c.complete(app, first, listing),
            Command::Delete(c) => c.complete(app, outcomes, listing),
            Command::Copy(c) => c.complete(app, outcomes, listing),
            Command::Move(c) => c.complete(app, facts, outcomes, listing),
        }
    }

    /// How many operations undoing this command takes (`undo_count_spec`).
    pub fn undo_operation_count(&self) -> (r: usize)
        ensures
            r == undo_count_spec(self@),
    {
        match self {
            Command::CreateFile(c) => if c.created { 1 } else { 0 },
            Command::CreateDir(c) => if c.created { 1 } else { 0 },
            Command::Rename(c) => if c.old_name.is_some() { 1 } else { 0 },
            Command::Move(c) => c.moved_items.len(),
            _ => 0,
        }
    }

    /// Operation `i` of undoing this command (`undo_op_spec`).
    pub fn undo_operation(&self, i: usize) -> (r: FsOp)
        requires
            i < undo_count_spec(self@),
        ensures
            r@ == undo_op_spec(self@, i as int),
    {
        match self {
            Command::CreateFile(c) => c.undo_operation().unwrap(),
            Command::CreateDir(c) => c.undo_operation().unwrap(),
            Command::Rename(c) => c.undo_operation().unwrap(),
            Command::Move(c) => c.undo_operation(i),
            Command::Delete(_) => {
                assert(false);
                FsOp::RemoveFile { path: FsPath::root() }
            },
            Command::Copy(_) => {
                assert(false);
                FsOp::RemoveFile { path: FsPath::root() }
            },
        }
    }

    /// Takes the outcome of each undo operation and a fresh listing
    /// (`undo_complete_spec`); deletions and copies fail with
    /// `Undo not implemented for this command!`.
    pub fn undo(
        &mut self,
        app: &mut App,
        outcomes: &Vec<Option<String>>,
        listing: Result<Vec<FileItem>, String>,
    ) -> (r: Result<(), String>)
        requires
            old(app).wf(),
            outcomes@.len() == undo_count_spec(old(self)@),
        ensures
            final(app).wf(),
            final(self)@ == old(self)@,
            (final(app)@, result_view(r)) == undo_complete_spec(
                old(self)@,
                old(app)@,
                outcomes_view(outcomes@),
                listing_view(listing),
            ),
    {
        let none: Option<String> = None;
        let first: &Option<String> = if outcomes.len() > 0 {
            &outcomes[0]
        } else {
            &none
        };
        assert(crate::app::opt_text(*first) == first_outcome(outcomes_view(outcomes@)));
        match self {
            Command::CreateFile(c) => c.complete_undo(app, first, listing),
            Command::CreateDir(c) => c.complete_undo(app, first, listing),
            Command::Rename(c) => c.complete_undo(app, first, listing),
            Command::Move(c) => c.complete_undo(app, outcomes, listing),
            _ => Err(string_of("Undo not implemented for this command!")),
        }
    }
}

} // verus!

verus! {

/// The filesystem, as a map from paths to what they hold, after `from` is
/// renamed to `to`: what `from` held is now at `to`, replacing anything
/// there.
pub open spec fn apply_rename<C>(fs: Map<PathView, C>, from: PathView, to: PathView) -> Map<PathView, C> {
    if fs.contains_key(from) {
        fs.remove(from).insert(to, fs[from])
    } else {
        fs
    }
}

/// A rename followed by the rename back puts the content where it was.
pub proof fn lemma_rename_round_trip<C>(fs: Map<PathView, C>, a: PathView, b: PathView)
    requires
        fs.contains_key(a),
    ensures
        apply_rename(apply_rename(fs, a, b), b, a).contains_key(a),
        apply_rename(apply_rename(fs, a, b), b, a)[a] == fs[a],
{
}

} // verus!
