//! The mode state machine: what each key or mouse event does in each mode.
//!
//! A handler changes the application state and returns an `Effect`: work
//! that needs the filesystem, which the caller performs (see `commands`).

use vstd::prelude::*;
use crate::app::{App, AppMode, AppView, InputContext, refresh_spec, scrolled_down, scrolled_up, toggled, selected_views, trim_start, trim_end, command_line_spec};
use crate::clipboard::{Clipboard, ClipboardOperation, ClipboardView, duplicate_paths};
use crate::commands::{Command, CommandView, CopyCommand, CopyView, CreateDirCommand, CreateDirView, CreateFileCommand, CreateFileView, DeleteCommand, DeleteView, MoveCommand, MoveView, RenameCommand, RenameView, description_spec, quoted, push_quoted, result_view, listing_view};
use crate::entry::{FileItem, FileItemView, items_view};
use crate::list::{ListView, next_spec, prev_spec};
use crate::path::{FsPath, PathView, parent_spec, join_spec};
use crate::text::{decimal, push_decimal, push_text, string_of, string_from_chars, chars_of, same_text};
use crate::utils::DOUBLE_CLICK_DURATION;

verus! {

/// How many lines the help text has.
pub const HELP_LINE_COUNT: usize = 43;

/// The least time between two scroll events that are both taken, in
/// milliseconds.
pub const SCROLL_DEBOUNCE_MS: u64 = 15;

/// The key of a key press.
#[derive(Debug, Clone, Copy, PartialEq, Eq, Structural)]
pub enum KeyCode {
    Up,
    Down,
    Left,
    Right,
    Enter,
    Esc,
    Home,
    End,
    Backspace,
    Delete,
    Char(char),
    Other,
}

/// A key press, and whether Control was held.
#[derive(Debug, Clone, Copy, PartialEq, Eq, Structural)]
pub struct KeyInput {
    pub code: KeyCode,
    pub ctrl: bool,
}

/// The kind of a mouse event.
#[derive(Debug, Clone, Copy, PartialEq, Eq, Structural)]
pub enum MouseKind {
    ScrollUp,
    ScrollDown,
    LeftDown,
    Other,
}

/// A mouse event and the terminal row it happened on.
#[derive(Debug, Clone, Copy, PartialEq, Eq, Structural)]
pub struct MouseInput {
    pub kind: MouseKind,
    pub row: u16,
}

/// A command to run now, and how to report on it afterwards.
pub struct Job {
    pub command: Command,
    /// Put before the reason when the command fails: `<prefix>: <reason>`.
    pub failure_prefix: String,
    /// Report `Executed Action: <description>` once it ran.
    pub announce: bool,
    /// Read the listing once more after a success.
    pub refresh_again: bool,
}

pub ghost struct JobView {
    pub command: CommandView,
    pub failure_prefix: Seq<char>,
    pub announce: bool,
    pub refresh_again: bool,
}

impl View for Job {
    type V = JobView;

    open spec fn view(&self) -> JobView {
        JobView {
            command: self.command@,
            failure_prefix: self.failure_prefix@,
            announce: self.announce,
            refresh_again: self.refresh_again,
        }
    }
}

/// Filesystem work that an event asks for.
pub enum Effect {
    Nothing,
    /// Move into this directory, if it is one.
    Navigate(FsPath),
    Run(Job),
}

pub ghost enum EffectView {
    Nothing,
    Navigate(PathView),
    Run(JobView),
}

impl View for Effect {
    type V = EffectView;

    open spec fn view(&self) -> EffectView {
        match self {
            Effect::Nothing => EffectView::Nothing,
            Effect::Navigate(p) => EffectView::Navigate(p@),
            Effect::Run(j) => EffectView::Run(j@),
        }
    }
}

/// The entry under the cursor.
pub open spec fn selected_item(a: AppView) -> Option<FileItemView> {
    match a.list.cursor {
        Some(c) => if c < a.list.items.len() {
            Some(a.list.items[c as int])
        } else {
            None
        },
        None => None,
    }
}

/// Going up: to the parent directory, if there is one.
pub open spec fn nav_up_effect(a: AppView) -> EffectView {
    match parent_spec(a.current_path) {
        Some(p) => EffectView::Navigate(p),
        None => EffectView::Nothing,
    }
}

/// Opening the entry under the cursor: into it, if it is a directory.
pub open spec fn enter_effect(a: AppView) -> EffectView {
    match selected_item(a) {
        Some(it) => if it.is_dir {
            EffectView::Navigate(it.path)
        } else {
            EffectView::Nothing
        },
        None => EffectView::Nothing,
    }
}

/// A job with no announcement and no second refresh.
pub open spec fn plain_job(c: CommandView, prefix: Seq<char>) -> EffectView {
    EffectView::Run(JobView { command: c, failure_prefix: prefix, announce: false, refresh_again: false })
}

/// Pasting: nothing when the clipboard is empty; a copy of its paths into
/// the current directory, leaving the clipboard as it is; or a move of
/// them there, emptying the clipboard.
pub open spec fn paste_spec(a: AppView) -> (AppView, EffectView) {
    if a.clipboard.items.len() == 0 {
        (a, EffectView::Nothing)
    } else {
        match a.clipboard.operation {
            ClipboardOperation::Copy => (
                a,
                plain_job(
                    CommandView::Copy(CopyView { sources: a.clipboard.items, destination: a.current_path }),
                    "Copy failed"@,
                ),
            ),
            ClipboardOperation::Cut => (
                AppView {
                    clipboard: ClipboardView { items: Seq::empty(), operation: ClipboardOperation::Empty },
                    ..a
                },
                plain_job(
                    CommandView::Move(MoveView {
                        sources: a.clipboard.items,
                        destination: a.current_path,
                        moved_items: Seq::empty(),
                    }),
                    "Move failed"@,
                ),
            ),
            ClipboardOperation::Empty => (a, EffectView::Nothing),
        }
    }
}

/// A key in `Normal` mode.
pub open spec fn normal_key_spec(a: AppView, key: KeyInput) -> (AppView, EffectView) {
    match key.code {
        KeyCode::Down => (AppView { list: next_spec(a.list), ..a }, EffectView::Nothing),
        KeyCode::Up => (AppView { list: prev_spec(a.list), ..a }, EffectView::Nothing),
        KeyCode::Left => (a, nav_up_effect(a)),
        KeyCode::Right | KeyCode::Enter => (a, enter_effect(a)),
        KeyCode::Esc => (AppView { error_message: None, status_message: None, ..a }, EffectView::Nothing),
        KeyCode::Char(c) => {
            if c == '/' {
                (AppView {
                    mode: AppMode::Command,
                    input_context: Some(InputContext::Command),
                    input_buffer: Seq::empty(),
                    cursor_position: 0,
                    ..a
                }, EffectView::Nothing)
            } else if c == '?' {
                (AppView { mode: AppMode::Help, ..a }, EffectView::Nothing)
            } else if c == 's' {
                (AppView { mode: AppMode::MultiSelect, selection: Seq::empty(), ..a }, EffectView::Nothing)
            } else if c == 'n' {
                (AppView {
                    mode: AppMode::Input,
                    input_context: Some(InputContext::CreateFile),
                    input_buffer: Seq::empty(),
                    cursor_position: 0,
                    status_message: Some("Create new file: "@),
                    ..a
                }, EffectView::Nothing)
            } else if c == 'N' {
                (AppView {
                    mode: AppMode::Input,
                    input_context: Some(InputContext::CreateDir),
                    input_buffer: Seq::empty(),
                    cursor_position: 0,
                    status_message: Some("Create new directory: "@),
                    ..a
                }, EffectView::Nothing)
            } else if c == 'C' {
                if a.clipboard.items.len() > 0 {
                    (AppView { mode: AppMode::Clipboard, clipboard_scroll_offset: 0, ..a }, EffectView::Nothing)
                } else {
                    (AppView { status_message: Some("Clipboard is empty!"@), ..a }, EffectView::Nothing)
                }
            } else if c == 'q' || (c == 'c' && key.ctrl) {
                (AppView { should_exit: true, ..a }, EffectView::Nothing)
            } else if c == 'r' {
                match selected_item(a) {
                    Some(it) => (AppView {
                        mode: AppMode::Input,
                        input_buffer: it.name,
                        cursor_position: it.name.len() as usize,
                        input_context: Some(InputContext::Rename),
                        status_message: Some("Rename to: "@),
                        ..a
                    }, EffectView::Nothing),
                    None => (a, EffectView::Nothing),
                }
            } else if c == 'd' {
                match selected_item(a) {
                    Some(it) => (AppView {
                        mode: AppMode::Confirm,
                        status_message: Some("Delete "@ + quoted(it.name) + "? (y/n)"@),
                        active_command: Some(CommandView::Delete(DeleteView { targets: seq![it.path] })),
                        ..a
                    }, EffectView::Nothing),
                    None => (a, EffectView::Nothing),
                }
            } else if c == 'x' || c == 'c' {
                match selected_item(a) {
                    Some(it) => (AppView {
                        clipboard: ClipboardView {
                            items: seq![it.path],
                            operation: if c == 'x' { ClipboardOperation::Cut } else { ClipboardOperation::Copy },
                        },
                        status_message: Some(if c == 'x' { "Cut to clipboard"@ } else { "Copied to clipboard"@ }),
                        ..a
                    }, EffectView::Nothing),
                    None => (a, EffectView::Nothing),
                }
            } else if c == 'v' {
                paste_spec(a)
            } else {
                (a, EffectView::Nothing)
            }
        },
        _ => (a, EffectView::Nothing),
    }
}

/// The text cursor or the text after an editing key.
pub open spec fn editing_spec(a: AppView, code: KeyCode) -> AppView {
    let n = a.input_buffer.len();
    let p = a.cursor_position;
    match code {
        KeyCode::Left => AppView { cursor_position: scrolled_up(p), ..a },
        KeyCode::Right => AppView { cursor_position: if p < n { (p + 1) as usize } else { p }, ..a },
        KeyCode::Up | KeyCode::Home => AppView { cursor_position: 0, ..a },
        KeyCode::Down | KeyCode::End => AppView { cursor_position: n as usize, ..a },
        KeyCode::Backspace => if p > 0 {
            AppView { input_buffer: a.input_buffer.remove(p - 1), cursor_position: (p - 1) as usize, ..a }
        } else {
            a
        },
        KeyCode::Delete => if p < n {
            AppView { input_buffer: a.input_buffer.remove(p as int), ..a }
        } else {
            a
        },
        KeyCode::Char(c) => AppView { input_buffer: a.input_buffer.insert(p as int, c), cursor_position: (p + 1) as usize, ..a },
        _ => a,
    }
}

/// Leaving a text session: back to `Normal` with an empty text.
pub open spec fn end_session(a: AppView) -> AppView {
    AppView { mode: AppMode::Normal, input_context: None, input_buffer: Seq::empty(), cursor_position: 0, ..a }
}

/// A key in `Input` mode. Enter on a typed text runs the rename or the
/// creation that the session is for, and ends the session.
pub open spec fn input_key_spec(a: AppView, key: KeyInput) -> (AppView, EffectView) {
    match key.code {
        KeyCode::Enter => if a.input_buffer.len() == 0 {
            (a, EffectView::Nothing)
        } else {
            let t = a.input_buffer;
            let eff = match a.input_context {
                Some(InputContext::Rename) => match selected_item(a) {
                    Some(it) => EffectView::Run(JobView {
                        command: CommandView::Rename(RenameView { source: it.path, new_name: t, old_name: None }),
                        failure_prefix: "Rename failed"@,
                        announce: false,
                        refresh_again: true,
                    }),
                    None => EffectView::Nothing,
                },
                Some(InputContext::CreateFile) => plain_job(
                    CommandView::CreateFile(CreateFileView {
                        path: join_spec(a.current_path, t),
                        content: Seq::empty(),
                        created: false,
                    }),
                    "File creation failed"@,
                ),
                Some(InputContext::CreateDir) => plain_job(
                    CommandView::CreateDir(CreateDirView { path: join_spec(a.current_path, t), created: false }),
                    "Directory creation failed"@,
                ),
                _ => EffectView::Nothing,
            };
            (end_session(a), eff)
        },
        KeyCode::Esc => (AppView { error_message: None, status_message: None, ..end_session(a) }, EffectView::Nothing),
        _ => (editing_spec(a, key.code), EffectView::Nothing),
    }
}

/// A key in `Confirm` mode: `y` runs the armed command and announces it;
/// `n`, `q` or Esc drops it.
pub open spec fn confirm_key_spec(a: AppView, key: KeyInput) -> (AppView, EffectView) {
    match key.code {
        KeyCode::Char(c) => if c == 'y' || c == 'Y' {
            match a.active_command {
                Some(cmd) => (
                    AppView { active_command: None, mode: AppMode::Normal, ..a },
                    EffectView::Run(JobView {
                        command: cmd,
                        failure_prefix: "Command failed"@,
                        announce: true,
                        refresh_again: false,
                    }),
                ),
                None => (a, EffectView::Nothing),
            }
        } else if c == 'q' || c == 'Q' || c == 'n' || c == 'N' {
            (AppView {
                status_message: Some("Cancelled Action"@),
                active_command: None,
                mode: AppMode::Normal,
                ..a
            }, EffectView::Nothing)
        } else {
            (a, EffectView::Nothing)
        },
        KeyCode::Esc => (AppView {
            status_message: Some("Cancelled Action"@),
            active_command: None,
            mode: AppMode::Normal,
            ..a
        }, EffectView::Nothing),
        _ => (a, EffectView::Nothing),
    }
}

/// The paths of the selected entries, in selection order.
pub open spec fn selected_paths(a: AppView) -> Seq<PathView> {
    selected_views(a.list.items, a.selection).map_values(|f: FileItemView| f.path)
}

/// A key in `MultiSelect` mode.
pub open spec fn multi_select_key_spec(a: AppView, key: KeyInput) -> (AppView, EffectView) {
    match key.code {
        KeyCode::Down => (AppView { list: next_spec(a.list), ..a }, EffectView::Nothing),
        KeyCode::Up => (AppView { list: prev_spec(a.list), ..a }, EffectView::Nothing),
        KeyCode::Left => (AppView { selection: Seq::empty(), ..a }, nav_up_effect(a)),
        KeyCode::Right | KeyCode::Enter => (AppView { selection: Seq::empty(), ..a }, enter_effect(a)),
        KeyCode::Esc => (AppView { mode: AppMode::Normal, selection: Seq::empty(), ..a }, EffectView::Nothing),
        KeyCode::Char(c) => {
            let t = selected_paths(a);
            if c == ' ' {
                match selected_item(a) {
                    Some(it) => if it.name != seq!['.', '.'] {
                        (AppView { selection: toggled(a.selection, a.list.cursor), ..a }, EffectView::Nothing)
                    } else {
                        (a, EffectView::Nothing)
                    },
                    None => (a, EffectView::Nothing),
                }
            } else if c == 'd' {
                if t.len() > 0 {
                    (AppView {
                        mode: AppMode::Confirm,
                        status_message: Some("Delete "@ + decimal(t.len()) + " selected item(s)? (y/n)"@),
                        active_command: Some(CommandView::Delete(DeleteView { targets: t })),
                        ..a
                    }, EffectView::Nothing)
                } else {
                    (a, EffectView::Nothing)
                }
            } else if c == 'c' || c == 'x' {
                if t.len() > 0 {
                    (AppView {
                        clipboard: ClipboardView {
                            items: t,
                            operation: if c == 'x' { ClipboardOperation::Cut } else { ClipboardOperation::Copy },
                        },
                        status_message: Some(if c == 'x' { "Cut selected item(s)"@ } else { "Copied selected item(s)"@ }),
                        ..a
                    }, EffectView::Nothing)
                } else {
                    (a, EffectView::Nothing)
                }
            } else if c == 'q' || c == 's' {
                (AppView { mode: AppMode::Normal, selection: Seq::empty(), ..a }, EffectView::Nothing)
            } else {
                (a, EffectView::Nothing)
            }
        },
        _ => (a, EffectView::Nothing),
    }
}

/// The lines a modal shows: the given share of the terminal's height, in
/// fifths, less its frame.
pub open spec fn viewport_spec(height: u16, fifths: int, frame: int) -> usize {
    let m = (height as int) * fifths / 5;
    if m >= frame {
        (m - frame) as usize
    } else {
        0
    }
}

/// A key in `Help` mode.
pub open spec fn help_key_spec(a: AppView, key: KeyInput, height: Option<u16>) -> AppView {
    match key.code {
        KeyCode::Esc => AppView { mode: AppMode::Normal, ..a },
        KeyCode::Char(c) => if c == 'q' {
            AppView { mode: AppMode::Normal, ..a }
        } else if c == 'c' && key.ctrl {
            AppView { should_exit: true, ..a }
        } else {
            a
        },
        KeyCode::Down => match height {
            Some(h) => AppView {
                help_scroll_offset: scrolled_down(a.help_scroll_offset, HELP_LINE_COUNT, viewport_spec(h, 4, 2)),
                ..a
            },
            None => a,
        },
        KeyCode::Up => AppView { help_scroll_offset: scrolled_up(a.help_scroll_offset), ..a },
        _ => a,
    }
}

/// A key in `Clipboard` mode.
pub open spec fn clipboard_key_spec(a: AppView, key: KeyInput, height: Option<u16>) -> AppView {
    match key.code {
        KeyCode::Esc => AppView { mode: AppMode::Normal, ..a },
        KeyCode::Char(c) => if c == 'q' {
            AppView { mode: AppMode::Normal, ..a }
        } else {
            a
        },
        KeyCode::Down => match height {
            Some(h) => AppView {
                clipboard_scroll_offset: scrolled_down(
                    a.clipboard_scroll_offset,
                    (a.clipboard.items.len() as usize).saturating_add(3),
                    viewport_spec(h, 3, 2),
                ),
                ..a
            },
            None => a,
        },
        KeyCode::Up => AppView { clipboard_scroll_offset: scrolled_up(a.clipboard_scroll_offset), ..a },
        _ => a,
    }
}

/// A key in `Command` mode. Enter ends the session, back in `Normal`, and
/// runs the line: one that is `help` once trimmed opens the help, any other
/// goes by its first word (`command_line_spec`). Esc ends the session and
/// clears the messages.
pub open spec fn command_key_spec(a: AppView, key: KeyInput) -> AppView {
    match key.code {
        KeyCode::Enter => {
            let line = a.input_buffer;
            if trim_end(trim_start(line)) == "help"@ {
                AppView { mode: AppMode::Help, ..end_session(a) }
            } else {
                command_line_spec(end_session(a), line)
            }
        },
        KeyCode::Esc => AppView { error_message: None, status_message: None, ..end_session(a) },
        _ => editing_spec(a, key.code),
    }
}

/// A key, in whatever mode the state is in.
pub open spec fn key_spec(a: AppView, key: KeyInput, height: Option<u16>) -> (AppView, EffectView) {
    match a.mode {
        AppMode::Normal => normal_key_spec(a, key),
        AppMode::Help => (help_key_spec(a, key, height), EffectView::Nothing),
        AppMode::Input => input_key_spec(a, key),
        AppMode::Confirm => confirm_key_spec(a, key),
        AppMode::MultiSelect => multi_select_key_spec(a, key),
        AppMode::Clipboard => (clipboard_key_spec(a, key, height), EffectView::Nothing),
        AppMode::Command => (command_key_spec(a, key), EffectView::Nothing),
    }
}

/// A click on a terminal row. Rows start four lines down. A second click on
/// the same listing index within `DOUBLE_CLICK_DURATION` opens it (a
/// directory, or the parent entry) and forgets the click; any other click
/// on a listed row moves the cursor there and remembers the click.
pub open spec fn click_spec(a: AppView, row: u16, now: u64) -> (AppView, EffectView) {
    let y = if row >= 4 { row - 4 } else { 0 };
    if y < a.list.visible.len() {
        let idx = a.list.visible[y as int];
        let double = a.last_click_index == Some(idx) && match a.last_click_time {
            Some(t) => now.saturating_sub(t) < DOUBLE_CLICK_DURATION,
            None => false,
        };
        if double {
            let eff = if idx < a.list.items.len() {
                let it = a.list.items[idx as int];
                if it.name == seq!['.', '.'] {
                    nav_up_effect(a)
                } else if it.is_dir {
                    EffectView::Navigate(it.path)
                } else {
                    EffectView::Nothing
                }
            } else {
                EffectView::Nothing
            };
            (AppView { last_click_time: None, last_click_index: None, ..a }, eff)
        } else {
            (AppView {
                list: ListView { cursor: Some(idx), ..a.list },
                last_click_index: Some(idx),
                last_click_time: Some(now),
                ..a
            }, EffectView::Nothing)
        }
    } else {
        (a, EffectView::Nothing)
    }
}

/// A mouse event at time `now` (milliseconds). A scroll event less than
/// `SCROLL_DEBOUNCE_MS` after the last one taken is dropped. Scrolling
/// moves the help or clipboard view in those modes, and the listing's
/// cursor otherwise (down to the next entry, up to the previous).
pub open spec fn mouse_spec(a: AppView, m: MouseInput, now: u64, height: Option<u16>) -> (AppView, EffectView) {
    let scroll = m.kind == MouseKind::ScrollUp || m.kind == MouseKind::ScrollDown;
    let bounced = scroll && match a.last_scroll_time {
        Some(t) => now.saturating_sub(t) < SCROLL_DEBOUNCE_MS,
        None => false,
    };
    if bounced {
        (a, EffectView::Nothing)
    } else {
        let b = if scroll { AppView { last_scroll_time: Some(now), ..a } } else { a };
        match m.kind {
            MouseKind::ScrollDown => (match b.mode {
                AppMode::Help => match height {
                    Some(h) => AppView {
                        help_scroll_offset: scrolled_down(b.help_scroll_offset, HELP_LINE_COUNT, viewport_spec(h, 4, 2)),
                        ..b
                    },
                    None => b,
                },
                AppMode::Clipboard => match height {
                    Some(h) => AppView {
                        clipboard_scroll_offset: scrolled_down(
                            b.clipboard_scroll_offset,
                            (b.clipboard.items.len() as usize).saturating_add(4),
                            viewport_spec(h, 3, 6),
                        ),
                        ..b
                    },
                    None => b,
                },
                _ => AppView { list: next_spec(b.list), ..b },
            }, EffectView::Nothing),
            MouseKind::ScrollUp => (match b.mode {
                AppMode::Help => AppView { help_scroll_offset: scrolled_up(b.help_scroll_offset), ..b },
                AppMode::Clipboard => AppView { clipboard_scroll_offset: scrolled_up(b.clipboard_scroll_offset), ..b },
                _ => AppView { list: prev_spec(b.list), ..b },
            }, EffectView::Nothing),
            MouseKind::LeftDown => click_spec(b, m.row, now),
            MouseKind::Other => (b, EffectView::Nothing),
        }
    }
}

/// The state after a job ran with result `r`, and `again` was read for a
/// second refresh: a failure is reported after the job's prefix; a
/// successful job that asks for it refreshes once more; an announced job
/// reports `Executed Action: <description>` in any case.
pub open spec fn finish_job_spec(
    a: AppView,
    j: JobView,
    r: Result<(), Seq<char>>,
    again: Result<Seq<FileItemView>, Seq<char>>,
) -> AppView {
    let a1 = match r {
        Err(e) => AppView { error_message: Some(j.failure_prefix + ": "@ + e), ..a },
        Ok(()) => if j.refresh_again {
            match again {
                Ok(l) => refresh_spec(a, l),
                Err(e) => AppView { error_message: Some("Failed to refresh after rename: "@ + e), ..a },
            }
        } else {
            a
        },
    };
    if j.announce {
        AppView { status_message: Some("Executed Action: "@ + description_spec(j.command)), ..a1 }
    } else {
        a1
    }
}

} // verus!

verus! {

impl App {
    /// Going up to the parent directory (`nav_up_effect`).
    pub fn navigate_up(&self) -> (r: Effect)
        ensures
            r@ == nav_up_effect(self@),
    {
        match self.current_path.parent() {
            Some(p) => Effect::Navigate(p),
            None => Effect::Nothing,
        }
    }

    /// Opening the entry under the cursor (`enter_effect`).
    pub fn enter_selected(&self) -> (r: Effect)
        requires
            self.wf(),
        ensures
            r@ == enter_effect(self@),
    {
        match self.file_list.selected() {
            Some(item) => {
                if item.is_dir {
                    Effect::Navigate(item.path.duplicate())
                } else {
                    Effect::Nothing
                }
            },
            None => Effect::Nothing,
        }
    }

    /// Reports on a job that ran (`finish_job_spec`).
    pub fn finish_job(&mut self, job: &Job, result: Result<(), String>, listing_again: Result<Vec<FileItem>, String>)
        requires
            old(self).wf(),
        ensures
            final(self).wf(),
            final(self)@ == finish_job_spec(old(self)@, job@, result_view(result), listing_view(listing_again)),
    {
        match result {
            Err(e) => {
                let mut msg = job.failure_prefix.clone();
                push_text(&mut msg, ": ");
                push_text(&mut msg, e.as_str());
                self.set_error(msg);
            },
            Ok(()) => {
                if job.refresh_again {
                    match listing_again {
                        Ok(entries) => self.refresh_file_list(entries),
                        Err(e) => {
                            let mut msg = string_of("Failed to refresh after rename: ");
                            push_text(&mut msg, e.as_str());
                            self.set_error(msg);
                        },
                    }
                }
            },
        }
        if job.announce {
            let mut msg = string_of("Executed Action: ");
            let d = job.command.description();
            push_text(&mut msg, d.as_str());
            self.set_status(msg);
        }
    }
}

/// Handles a key in `Normal` mode (`normal_key_spec`).
pub fn handle_key_event_normal(key: KeyInput, app: &mut App) -> (r: Effect)
    requires
        old(app).wf(),
    ensures
        final(app).wf(),
        (final(app)@, r@) == normal_key_spec(old(app)@, key),
{
    match key.code {
        KeyCode::Down => {
            app.file_list.next();
            assert(app@.list =~= next_spec(old(app)@.list));
            Effect::Nothing
        },
        KeyCode::Up => {
            app.file_list.prev();
            assert(app@.list =~= prev_spec(old(app)@.list));
            Effect::Nothing
        },
        KeyCode::Left => app.navigate_up(),
        KeyCode::Right | KeyCode::Enter => app.enter_selected(),
        KeyCode::Esc => {
            app.clear_messages();
            Effect::Nothing
        },
        KeyCode::Char(c) => {
            if c == '/' {
                app.mode = AppMode::Command;
                app.input_context = Some(InputContext::Command);
                app.clear_input_buffer();
            } else if c == '?' {
                app.mode = AppMode::Help;
            } else if c == 's' {
                app.mode = AppMode::MultiSelect;
                app.clear_multi_selection();
            } else if c == 'n' {
                app.mode = AppMode::Input;
                app.input_context = Some(InputContext::CreateFile);
                app.clear_input_buffer();
                app.set_status(string_of("Create new file: "));
            } else if c == 'N' {
                app.mode = AppMode::Input;
                app.input_context = Some(InputContext::CreateDir);
                app.clear_input_buffer();
                app.set_status(string_of("Create new directory: "));
            } else if c == 'C' {
                if app.clipboard.items.len() > 0 {
                    app.mode = AppMode::Clipboard;
                    app.clipboard_scroll_offset = 0;
                } else {
                    app.set_status(string_of("Clipboard is empty!"));
                }
            } else if c == 'q' || (c == 'c' && key.ctrl) {
                app.should_exit = true;
            } else if c == 'r' {
                let mut picked: Option<Vec<char>> = None;
                match app.file_list.selected() {
                    Some(item) => {
                        picked = Some(chars_of(item.name.as_str()));
                    },
                    None => {},
                }
                match picked {
                    Some(name) => {
                        app.mode = AppMode::Input;
                        app.cursor_position = name.len();
                        app.input_buffer = name;
                        app.input_context = Some(InputContext::Rename);
                        app.set_status(string_of("Rename to: "));
                    },
                    None => {},
                }
            } else if c == 'd' {
                let mut armed: Option<(String, FsPath)> = None;
                match app.file_list.selected() {
                    Some(item) => {
                        let mut msg = string_of("Delete ");
                        push_quoted(&mut msg, item.name.as_str());
                        push_text(&mut msg, "? (y/n)");
                        armed = Some((msg, item.path.duplicate()));
                    },
                    None => {},
                }
                match armed {
                    Some((msg, path)) => {
                        app.mode = AppMode::Confirm;
                        app.set_status(msg);
                        app.active_command = Some(Command::Delete(DeleteCommand::new_single(path)));
                    },
                    None => {},
                }
            } else if c == 'x' || c == 'c' {
                let mut picked: Option<FsPath> = None;
                match app.file_list.selected() {
                    Some(item) => {
                        picked = Some(item.path.duplicate());
                    },
                    None => {},
                }
                match picked {
                    Some(path) => {
                        let mut items: Vec<FsPath> = Vec::new();
                        items.push(path);
                        let operation = if c == 'x' {
                            ClipboardOperation::Cut
                        } else {
                            ClipboardOperation::Copy
                        };
                        app.clipboard = Clipboard { items, operation };
                        assert(app@.clipboard.items =~= seq![path@]);
                        if c == 'x' {
                            app.set_status(string_of("Cut to clipboard"));
                        } else {
                            app.set_status(string_of("Copied to clipboard"));
                        }
                    },
                    None => {},
                }
            } else if c == 'v' {
                return paste(app);
            }
            Effect::Nothing
        },
        _ => Effect::Nothing,
    }
}

/// Pastes the clipboard into the current directory (`paste_spec`).
fn paste(app: &mut App) -> (r: Effect)
    requires
        old(app).wf(),
    ensures
        final(app).wf(),
        final(app)@ == paste_spec(old(app)@).0,
        r@ == paste_spec(old(app)@).1,
{
    if app.clipboard.items.len() == 0 {
        return Effect::Nothing;
    }
    let items = duplicate_paths(&app.clipboard.items);
    let dest = app.current_path.duplicate();
    let operation = app.clipboard.operation;
    let r = match operation {
        ClipboardOperation::Copy => Effect::Run(Job {
            command: Command::Copy(CopyCommand::new(items, dest)),
            failure_prefix: string_of("Copy failed"),
            announce: false,
            refresh_again: false,
        }),
        ClipboardOperation::Cut => Effect::Run(Job {
            command: Command::Move(MoveCommand::new(items, dest)),
            failure_prefix: string_of("Move failed"),
            announce: false,
            refresh_again: false,
        }),
        ClipboardOperation::Empty => Effect::Nothing,
    };
    if operation == ClipboardOperation::Cut {
        app.clipboard = Clipboard::new();
        assert(app@.clipboard.items =~= Seq::empty());
    }
    r
}

} // verus!

verus! {

/// Applies an editing key to the text being typed (`editing_spec`).
fn edit_text(app: &mut App, code: KeyCode)
    requires
        old(app).wf(),
    ensures
        final(app).wf(),
        final(app)@ == editing_spec(old(app)@, code),
{
    match code {
        KeyCode::Left => app.move_cursor_left(),
        KeyCode::Right => app.move_cursor_right(),
        KeyCode::Up | KeyCode::Home => app.move_cursor_home(),
        KeyCode::Down | KeyCode::End => app.move_cursor_end(),
        KeyCode::Backspace => {
            app.delete_char_before_cursor();
        },
        KeyCode::Delete => {
            app.delete_char_at_cursor();
        },
        KeyCode::Char(c) => app.insert_char_at_cursor(c),
        _ => {},
    }
}

/// Ends a text session (`end_session`).
fn end_input_session(app: &mut App)
    requires
        old(app).wf(),
    ensures
        final(app).wf(),
        final(app)@ == end_session(old(app)@),
{
    app.mode = AppMode::Normal;
    app.input_context = None;
    app.clear_input_buffer();
}

/// Handles a key in `Input` mode (`input_key_spec`).
pub fn handle_key_event_input(key: KeyInput, app: &mut App) -> (r: Effect)
    requires
        old(app).wf(),
    ensures
        final(app).wf(),
        (final(app)@, r@) == input_key_spec(old(app)@, key),
{
    match key.code {
        KeyCode::Enter => {
            if app.input_buffer.len() == 0 {
                return Effect::Nothing;
            }
            let text = string_from_chars(app.input_buffer.as_slice());
            let eff = match app.input_context {
                Some(InputContext::Rename) => {
                    let mut picked: Option<FsPath> = None;
                    match app.file_list.selected() {
                        Some(item) => {
                            picked = Some(item.path.duplicate());
                        },
                        None => {},
                    }
                    match picked {
                        Some(source) => Effect::Run(Job {
                            command: Command::Rename(RenameCommand::new(source, text)),
                            failure_prefix: string_of("Rename failed"),
                            announce: false,
                            refresh_again: true,
                        }),
                        None => Effect::Nothing,
                    }
                },
                Some(InputContext::CreateFile) => {
                    let path = app.current_path.join(text.as_str());
                    Effect::Run(Job {
                        command: Command::CreateFile(CreateFileCommand::new(path)),
                        failure_prefix: string_of("File creation failed"),
                        announce: false,
                        refresh_again: false,
                    })
                },
                Some(InputContext::CreateDir) => {
                    let path = app.current_path.join(text.as_str());
                    Effect::Run(Job {
                        command: Command::CreateDir(CreateDirCommand::new(path)),
                        failure_prefix: string_of("Directory creation failed"),
                        announce: false,
                        refresh_again: false,
                    })
                },
                _ => Effect::Nothing,
            };
            end_input_session(app);
            eff
        },
        KeyCode::Esc => {
            end_input_session(app);
            app.clear_messages();
            Effect::Nothing
        },
        _ => {
            edit_text(app, key.code);
            Effect::Nothing
        },
    }
}

/// Handles a key in `Confirm` mode (`confirm_key_spec`).
pub fn handle_key_event_confirm(key: KeyInput, app: &mut App) -> (r: Effect)
    requires
        old(app).wf(),
    ensures
        final(app).wf(),
        (final(app)@, r@) == confirm_key_spec(old(app)@, key),
{
    let yes = key.code == KeyCode::Char('y') || key.code == KeyCode::Char('Y');
    let no = key.code == KeyCode::Char('q') || key.code == KeyCode::Char('Q') || key.code == KeyCode::Char('n')
        || key.code == KeyCode::Char('N') || key.code == KeyCode::Esc;
    if yes {
        match app.active_command.take() {
            Some(command) => {
                app.mode = AppMode::Normal;
                Effect::Run(Job { command, failure_prefix: string_of("Command failed"), announce: true, refresh_again: false })
            },
            None => Effect::Nothing,
        }
    } else if no {
        app.set_status(string_of("Cancelled Action"));
        app.active_command = None;
        app.mode = AppMode::Normal;
        Effect::Nothing
    } else {
        Effect::Nothing
    }
}

/// The paths of the selected entries, in selection order.
fn selected_paths_of(app: &App) -> (r: Vec<FsPath>)
    ensures
        crate::clipboard::paths_view(r@) == selected_paths(app@),
{
    let chosen = app.selected_items();
    let mut out: Vec<FsPath> = Vec::new();
    let mut i: usize = 0;
    while i < chosen.len()
        invariant
            i <= chosen@.len(),
            chosen@.len() == selected_views(app@.list.items, app@.selection).len(),
            forall|k: int| 0 <= k < chosen@.len() ==> (*#[trigger] chosen@[k])@ == selected_views(app@.list.items, app@.selection)[k],
            out@.len() == i,
            forall|k: int| 0 <= k < i ==> (#[trigger] out@[k])@ == selected_views(app@.list.items, app@.selection)[k].path,
        decreases chosen@.len() - i,
    {
        out.push(chosen[i].path.duplicate());
        i = i + 1;
    }
    assert(crate::clipboard::paths_view(out@) =~= selected_paths(app@));
    out
}

/// Handles a key in `MultiSelect` mode (`multi_select_key_spec`).
pub fn handle_key_event_multi_select(key: KeyInput, app: &mut App) -> (r: Effect)
    requires
        old(app).wf(),
    ensures
        final(app).wf(),
        (final(app)@, r@) == multi_select_key_spec(old(app)@, key),
{
    match key.code {
        KeyCode::Down => {
            app.file_list.next();
            assert(app@.list =~= next_spec(old(app)@.list));
            Effect::Nothing
        },
        KeyCode::Up => {
            app.file_list.prev();
            assert(app@.list =~= prev_spec(old(app)@.list));
            Effect::Nothing
        },
        KeyCode::Left => {
            let eff = app.navigate_up();
            app.clear_multi_selection();
            eff
        },
        KeyCode::Right | KeyCode::Enter => {
            let eff = app.enter_selected();
            app.clear_multi_selection();
            eff
        },
        KeyCode::Esc => {
            app.mode = AppMode::Normal;
            app.clear_multi_selection();
            Effect::Nothing
        },
        KeyCode::Char(c) => {
            if c == ' ' {
                let mut toggle = false;
                match app.file_list.selected() {
                    Some(item) => {
                        let up = "..";
                        proof {
                            reveal_strlit("..");
                            assert(up@ =~= seq!['.', '.']);
                        }
                        toggle = !same_text(item.name.as_str(), up);
                    },
                    None => {},
                }
                if toggle {
                    app.toggle_selection();
                }
            } else if c == 'd' || c == 'c' || c == 'x' {
                let targets = selected_paths_of(app);
                let n = targets.len();
                if n > 0 {
                    if c == 'd' {
                        let mut msg = string_of("Delete ");
                        push_decimal(&mut msg, n as u64);
                        push_text(&mut msg, " selected item(s)? (y/n)");
                        app.mode = AppMode::Confirm;
                        app.set_status(msg);
                        app.active_command = Some(Command::Delete(DeleteCommand::new(targets)));
                    } else if c == 'c' {
                        app.clipboard = Clipboard { items: targets, operation: ClipboardOperation::Copy };
                        app.set_status(string_of("Copied selected item(s)"));
                    } else {
                        app.clipboard = Clipboard { items: targets, operation: ClipboardOperation::Cut };
                        app.set_status(string_of("Cut selected item(s)"));
                    }
                }
            } else if c == 'q' || c == 's' {
                app.mode = AppMode::Normal;
                app.clear_multi_selection();
            }
            Effect::Nothing
        },
        _ => Effect::Nothing,
    }
}

/// The lines a modal shows (`viewport_spec`).
fn viewport(height: u16, fifths: u32, frame: u32) -> (r: usize)
    requires
        fifths <= 5,
    ensures
        r == viewport_spec(height, fifths as int, frame as int),
{
    assert((height as u32) * fifths <= 65535 * 5) by (nonlinear_arith)
        requires
            fifths <= 5,
            height <= 65535,
    ;
    let m: u32 = (height as u32) * fifths / 5;
    if m >= frame {
        (m - frame) as usize
    } else {
        0
    }
}

/// Handles a key in `Help` mode (`help_key_spec`); `terminal_height` is
/// the terminal's height in rows, when it could be read.
pub fn handle_key_event_help(key: KeyInput, app: &mut App, terminal_height: Option<u16>)
    requires
        old(app).wf(),
    ensures
        final(app).wf(),
        final(app)@ == help_key_spec(old(app)@, key, terminal_height),
{
    match key.code {
        KeyCode::Esc => {
            app.mode = AppMode::Normal;
        },
        KeyCode::Char(c) => {
            if c == 'q' {
                app.mode = AppMode::Normal;
            } else if c == 'c' && key.ctrl {
                app.should_exit = true;
            }
        },
        KeyCode::Down => {
            match terminal_height {
                Some(h) => {
                    let v = viewport(h, 4, 2);
                    app.scroll_help_down(HELP_LINE_COUNT, v);
                },
                None => {},
            }
        },
        KeyCode::Up => app.scroll_help_up(),
        _ => {},
    }
}

/// Handles a key in `Clipboard` mode (`clipboard_key_spec`).
pub fn handle_key_event_clipboard(key: KeyInput, app: &mut App, terminal_height: Option<u16>)
    requires
        old(app).wf(),
    ensures
        final(app).wf(),
        final(app)@ == clipboard_key_spec(old(app)@, key, terminal_height),
{
    match key.code {
        KeyCode::Esc => {
            app.mode = AppMode::Normal;
        },
        KeyCode::Char(c) => {
            if c == 'q' {
                app.mode = AppMode::Normal;
            }
        },
        KeyCode::Down => {
            match terminal_height {
                Some(h) => {
                    let v = viewport(h, 3, 2);
                    let content = app.clipboard.items.len().saturating_add(3);
                    app.scroll_clipboard_down(content, v);
                },
                None => {},
            }
        },
        KeyCode::Up => app.scroll_clipboard_up(),
        _ => {},
    }
}

/// Whether a text is `help` once trimmed.
fn is_help_line(t: &Vec<char>) -> (r: bool)
    ensures
        r == (trim_end(trim_start(t@)) == "help"@),
{
    let mut start: usize = 0;
    assert(t@.subrange(0, t@.len() as int) == t@);
    while start < t.len() && crate::text::is_space_char(t[start])
        invariant
            start <= t@.len(),
            trim_start(t@) == trim_start(t@.subrange(start as int, t@.len() as int)),
        decreases t@.len() - start,
    {
        assert(t@.subrange(start as int, t@.len() as int).drop_first() == t@.subrange(start + 1, t@.len() as int));
        start = start + 1;
    }
    assert(trim_start(t@) == t@.subrange(start as int, t@.len() as int));
    let mut end: usize = t.len();
    while end > start && crate::text::is_space_char(t[end - 1])
        invariant
            start <= end <= t@.len(),
            trim_start(t@) == t@.subrange(start as int, t@.len() as int),
            trim_end(trim_start(t@)) == trim_end(t@.subrange(start as int, end as int)),
        decreases end,
    {
        assert(t@.subrange(start as int, end as int).drop_last() == t@.subrange(start as int, end - 1));
        end = end - 1;
    }
    assert(trim_end(t@.subrange(start as int, end as int)) == t@.subrange(start as int, end as int));
    let word = string_from_chars(&t.as_slice()[start..end]);
    same_text(word.as_str(), "help")
}

/// Handles a key in `Command` mode (`command_key_spec`).
pub fn handle_key_event_command(key: KeyInput, app: &mut App)
    requires
        old(app).wf(),
    ensures
        final(app).wf(),
        final(app)@ == command_key_spec(old(app)@, key),
{
    match key.code {
        KeyCode::Enter => {
            let help = is_help_line(&app.input_buffer);
            let line = string_from_chars(app.input_buffer.as_slice());
            end_input_session(app);
            if help {
                app.mode = AppMode::Help;
            } else {
                app.execute_command(line.as_str());
            }
        },
        KeyCode::Esc => {
            end_input_session(app);
            app.clear_messages();
        },
        _ => edit_text(app, key.code),
    }
}

/// Handles a key in whatever mode the state is in (`key_spec`).
pub fn handle_key_event(key: KeyInput, app: &mut App, terminal_height: Option<u16>) -> (r: Effect)
    requires
        old(app).wf(),
    ensures
        final(app).wf(),
        (final(app)@, r@) == key_spec(old(app)@, key, terminal_height),
{
    match app.mode {
        AppMode::Normal => handle_key_event_normal(key, app),
        AppMode::Help => {
            handle_key_event_help(key, app, terminal_height);
            Effect::Nothing
        },
        AppMode::Input => handle_key_event_input(key, app),
        AppMode::Confirm => handle_key_event_confirm(key, app),
        AppMode::MultiSelect => handle_key_event_multi_select(key, app),
        AppMode::Clipboard => {
            handle_key_event_clipboard(key, app, terminal_height);
            Effect::Nothing
        },
        AppMode::Command => {
            handle_key_event_command(key, app);
            Effect::Nothing
        },
    }
}

} // verus!

verus! {

/// Handles a click on a terminal row (`click_spec`).
fn handle_click(app: &mut App, row: u16, now: u64) -> (r: Effect)
    requires
        old(app).wf(),
    ensures
        final(app).wf(),
        (final(app)@, r@) == click_spec(old(app)@, row, now),
{
    let y: usize = row.saturating_sub(4) as usize;
    if y >= app.file_list.filtered_items.len() {
        return Effect::Nothing;
    }
    let idx = app.file_list.filtered_items[y];
    let double = app.last_click_index == Some(idx) && match app.last_click_time {
        Some(t) => now.saturating_sub(t) < DOUBLE_CLICK_DURATION,
        None => false,
    };
    if double {
        let mut eff = Effect::Nothing;
        if idx < app.file_list.items.len() {
            let up = "..";
            proof {
                reveal_strlit("..");
                assert(up@ =~= seq!['.', '.']);
            }
            let item = &app.file_list.items[idx];
            if same_text(item.name.as_str(), up) {
                eff = app.navigate_up();
            } else if item.is_dir {
                eff = Effect::Navigate(item.path.duplicate());
            }
        }
        app.last_click_time = None;
        app.last_click_index = None;
        eff
    } else {
        proof {
            assert(app.file_list.filtered_items@.contains(idx)) by {
                assert(app.file_list.filtered_items@[y as int] == idx);
            }
        }
        let ghost l0 = app.file_list@;
        assert(crate::list::list_wf(l0));
        app.file_list.selected = Some(idx);
        assert(app.file_list@ == (ListView { cursor: Some(idx), ..l0 }));
        assert(crate::list::list_wf(app.file_list@));
        app.last_click_index = Some(idx);
        app.last_click_time = Some(now);
        Effect::Nothing
    }
}

/// Handles a mouse event at time `now`, in milliseconds on a clock that
/// does not go back (`mouse_spec`).
pub fn handle_mouse_event(mouse: MouseInput, app: &mut App, now: u64, terminal_height: Option<u16>) -> (r: Effect)
    requires
        old(app).wf(),
    ensures
        final(app).wf(),
        (final(app)@, r@) == mouse_spec(old(app)@, mouse, now, terminal_height),
{
    let scroll = mouse.kind == MouseKind::ScrollUp || mouse.kind == MouseKind::ScrollDown;
    if scroll {
        match app.last_scroll_time {
            Some(last) => {
                if now.saturating_sub(last) < SCROLL_DEBOUNCE_MS {
                    return Effect::Nothing;
                }
            },
            None => {},
        }
        app.last_scroll_time = Some(now);
    }
    match mouse.kind {
        MouseKind::ScrollDown => {
            match app.mode {
                AppMode::Help => match terminal_height {
                    Some(h) => {
                        let v = viewport(h, 4, 2);
                        app.scroll_help_down(HELP_LINE_COUNT, v);
                    },
                    None => {},
                },
                AppMode::Clipboard => match terminal_height {
                    Some(h) => {
                        let v = viewport(h, 3, 6);
                        let content = app.clipboard.items.len().saturating_add(4);
                        app.scroll_clipboard_down(content, v);
                    },
                    None => {},
                },
                _ => {
                    let ghost before = app@;
                    app.file_list.next();
                    assert(app@.list =~= next_spec(before.list));
                },
            }
            Effect::Nothing
        },
        MouseKind::ScrollUp => {
            match app.mode {
                AppMode::Help => app.scroll_help_up(),
                AppMode::Clipboard => app.scroll_clipboard_up(),
                _ => {
                    let ghost before = app@;
                    app.file_list.prev();
                    assert(app@.list =~= prev_spec(before.list));
                },
            }
            Effect::Nothing
        },
        MouseKind::LeftDown => handle_click(app, mouse.row, now),
        MouseKind::Other => Effect::Nothing,
    }
}

} // verus!

verus! {

/// Pasting a copied clipboard in `Normal` mode copies its paths into the
/// current directory and leaves the state, clipboard included, as it was;
/// so a later paste with that clipboard copies the same paths again, into
/// whatever directory is current then.
pub proof fn lemma_copy_paste_repeatable(a: AppView, b: AppView, key: KeyInput, height: Option<u16>)
    requires
        key.code == KeyCode::Char('v'),
        a.mode == AppMode::Normal,
        b.mode == AppMode::Normal,
        a.clipboard.operation == ClipboardOperation::Copy,
        a.clipboard.items.len() > 0,
        b.clipboard == key_spec(a, key, height).0.clipboard,
    ensures
        key_spec(a, key, height) == (a, plain_job(
            CommandView::Copy(CopyView { sources: a.clipboard.items, destination: a.current_path }),
            "Copy failed"@,
        )),
        key_spec(b, key, height) == (b, plain_job(
            CommandView::Copy(CopyView { sources: a.clipboard.items, destination: b.current_path }),
            "Copy failed"@,
        )),
{
}

} // verus!

verus! {

/// With an empty clipboard, pasting in `Normal` mode changes nothing and
/// asks for no work.
pub proof fn lemma_paste_empty_is_no_op(a: AppView, key: KeyInput, height: Option<u16>)
    requires
        key.code == KeyCode::Char('v'),
        a.mode == AppMode::Normal,
        a.clipboard.items.len() == 0,
    ensures
        key_spec(a, key, height) == (a, EffectView::Nothing),
{
}

/// Declining an armed command drops it with no filesystem work and returns
/// to `Normal`; a `y` after that changes nothing and asks for no work.
pub proof fn lemma_decline_then_yes(a: AppView, no: KeyInput, yes: KeyInput, height: Option<u16>)
    requires
        a.mode == AppMode::Confirm,
        no.code == KeyCode::Char('n'),
        yes.code == KeyCode::Char('y'),
    ensures
        key_spec(a, no, height).1 == EffectView::Nothing,
        key_spec(a, no, height).0.mode == AppMode::Normal,
        key_spec(a, no, height).0.active_command is None,
        key_spec(key_spec(a, no, height).0, yes, height) == (key_spec(a, no, height).0, EffectView::Nothing),
{
}

/// A second click on the row of a directory within the double-click window
/// opens it and forgets the click.
pub proof fn lemma_double_click_opens(a: AppView, m: MouseInput, now: u64, t: u64, height: Option<u16>)
    requires
        m.kind == MouseKind::LeftDown,
        m.row >= 4,
        m.row - 4 < a.list.visible.len(),
        a.list.visible[m.row - 4] < a.list.items.len(),
        a.list.items[a.list.visible[m.row - 4] as int].is_dir,
        a.list.items[a.list.visible[m.row - 4] as int].name != seq!['.', '.'],
        a.last_click_index == Some(a.list.visible[m.row - 4]),
        a.last_click_time == Some(t),
        now.saturating_sub(t) < DOUBLE_CLICK_DURATION,
    ensures
        mouse_spec(a, m, now, height).1 == EffectView::Navigate(
            a.list.items[a.list.visible[m.row - 4] as int].path,
        ),
        mouse_spec(a, m, now, height).0.last_click_index is None,
        mouse_spec(a, m, now, height).0.last_click_time is None,
{
}

/// A click on a listed row other than the last one clicked opens nothing:
/// it moves the cursor there and starts the double-click window anew.
pub proof fn lemma_click_other_row(a: AppView, m: MouseInput, now: u64, height: Option<u16>)
    requires
        m.kind == MouseKind::LeftDown,
        m.row >= 4,
        m.row - 4 < a.list.visible.len(),
        a.last_click_index != Some(a.list.visible[m.row - 4]),
    ensures
        mouse_spec(a, m, now, height).1 == EffectView::Nothing,
        mouse_spec(a, m, now, height).0.list.cursor == Some(a.list.visible[m.row - 4]),
        mouse_spec(a, m, now, height).0.last_click_index == Some(a.list.visible[m.row - 4]),
        mouse_spec(a, m, now, height).0.last_click_time == Some(now),
{
}

} // verus!

verus! {

/// A command is armed only in `Confirm` mode.
pub open spec fn armed_only_in_confirm(a: AppView) -> bool {
    a.active_command is Some ==> a.mode == AppMode::Confirm
}

/// No key or mouse event leaves an armed command outside `Confirm` mode:
/// arming enters `Confirm`, and leaving `Confirm` drops the command.
pub proof fn lemma_armed_only_in_confirm(
    a: AppView,
    key: KeyInput,
    m: MouseInput,
    now: u64,
    height: Option<u16>,
)
    requires
        armed_only_in_confirm(a),
    ensures
        armed_only_in_confirm(key_spec(a, key, height).0),
        armed_only_in_confirm(mouse_spec(a, m, now, height).0),
{
}

} // verus!
