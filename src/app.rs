//! The application context: everything the interaction core keeps between
//! events, and the entry points that commands and handlers change it by.

use vstd::prelude::*;
use crate::clipboard::{Clipboard, ClipboardView, clipboard_wf};
use crate::commands::{Command, CommandView};
use crate::entry::{FileItem, FileItemView, items_view, sort_listing, sorted_spec};
use crate::list::{ListView, StatefulList, identity_indices, list_wf};
use crate::path::{FsPath, PathView, parent_spec};
use crate::text::{string_of, push_text, lowercase, lower_of, is_space, is_space_char, same_text};

verus! {

/// What keystrokes mean at the moment.
#[derive(Debug, Clone, Copy, PartialEq, Eq, Structural)]
pub enum AppMode {
    /// Browsing the listing.
    Normal,
    /// Picking several entries.
    MultiSelect,
    /// Typing a name for a rename or a creation.
    Input,
    /// Waiting for a yes or no on an armed command.
    Confirm,
    /// Typing a command line.
    Command,
    /// Showing the help.
    Help,
    /// Showing the clipboard.
    Clipboard,
}

/// What a text being typed is for.
#[derive(Debug, Clone, Copy, PartialEq, Eq, Structural)]
pub enum InputContext {
    Rename,
    CreateFile,
    CreateDir,
    Filter,
    Command,
}

/// The state of the interaction core.
pub struct App {
    pub should_exit: bool,
    pub mode: AppMode,
    pub current_path: FsPath,
    pub file_list: StatefulList<FileItem>,
    pub error_message: Option<String>,
    pub status_message: Option<String>,
    /// Indices into the listing's items, in the order they were picked.
    pub selection: Vec<usize>,
    pub help_scroll_offset: usize,
    pub input_buffer: Vec<char>,
    /// Where typed characters go, as an index into `input_buffer`.
    pub cursor_position: usize,
    pub input_context: Option<InputContext>,
    /// The command waiting for confirmation.
    pub active_command: Option<Command>,
    pub clipboard: Clipboard,
    pub clipboard_scroll_offset: usize,
    /// When the last scroll event was taken, in milliseconds.
    pub last_scroll_time: Option<u64>,
    /// The listing index of the last click that did not open anything.
    pub last_click_index: Option<usize>,
    /// When that click happened, in milliseconds.
    pub last_click_time: Option<u64>,
}

/// The mathematical value of the application state.
pub ghost struct AppView {
    pub should_exit: bool,
    pub mode: AppMode,
    pub current_path: PathView,
    pub list: ListView<FileItemView>,
    pub error_message: Option<Seq<char>>,
    pub status_message: Option<Seq<char>>,
    pub selection: Seq<usize>,
    pub help_scroll_offset: usize,
    pub input_buffer: Seq<char>,
    pub cursor_position: usize,
    pub input_context: Option<InputContext>,
    pub active_command: Option<CommandView>,
    pub clipboard: ClipboardView,
    pub clipboard_scroll_offset: usize,
    pub last_scroll_time: Option<u64>,
    pub last_click_index: Option<usize>,
    pub last_click_time: Option<u64>,
}

/// The view of an optional text.
pub open spec fn opt_text(o: Option<String>) -> Option<Seq<char>> {
    match o {
        Some(s) => Some(s@),
        None => None,
    }
}

impl View for App {
    type V = AppView;

    open spec fn view(&self) -> AppView {
        AppView {
            should_exit: self.should_exit,
            mode: self.mode,
            current_path: self.current_path@,
            list: ListView {
                items: items_view(self.file_list.items@),
                visible: self.file_list.filtered_items@,
                cursor: self.file_list.selected,
            },
            error_message: opt_text(self.error_message),
            status_message: opt_text(self.status_message),
            selection: self.selection@,
            help_scroll_offset: self.help_scroll_offset,
            input_buffer: self.input_buffer@,
            cursor_position: self.cursor_position,
            input_context: self.input_context,
            active_command: match self.active_command {
                Some(c) => Some(c@),
                None => None,
            },
            clipboard: self.clipboard@,
            clipboard_scroll_offset: self.clipboard_scroll_offset,
            last_scroll_time: self.last_scroll_time,
            last_click_index: self.last_click_index,
            last_click_time: self.last_click_time,
        }
    }
}

/// The entry that leads to the parent directory.
pub open spec fn parent_item(p: PathView) -> FileItemView {
    FileItemView { name: seq!['.', '.'], path: p, is_dir: true, size: None, modified: None }
}

/// The items of a listing of `dir` read as `entries`: the parent entry
/// first when `dir` has a parent, then the entries in listing order.
pub open spec fn listing_items(dir: PathView, entries: Seq<FileItemView>) -> Seq<FileItemView> {
    match parent_spec(dir) {
        Some(p) => seq![parent_item(p)] + sorted_spec(entries),
        None => sorted_spec(entries),
    }
}

/// The state after the listing is replaced by `entries`: every item
/// visible, the cursor on the first one, and the selection cleared.
pub open spec fn refresh_spec(a: AppView, entries: Seq<FileItemView>) -> AppView {
    let items = listing_items(a.current_path, entries);
    AppView {
        list: ListView {
            items,
            visible: identity_indices(items.len()),
            cursor: if items.len() > 0 { Some(0usize) } else { None },
        },
        selection: Seq::empty(),
        ..a
    }
}

impl App {
    /// The listing is consistent, the text cursor stays within the text, the
    /// clipboard holds paths exactly when it has an operation, and the
    /// selection holds each index at most once.
    pub open spec fn wf(&self) -> bool {
        &&& list_wf(self.file_list@)
        &&& self.cursor_position <= self.input_buffer@.len()
        &&& clipboard_wf(self.clipboard@)
        &&& self.selection@.no_duplicates()
    }

    /// A fresh state in `Normal` mode for the directory `current_path`,
    /// whose entries are `entries`.
    pub fn new(current_path: FsPath, entries: Vec<FileItem>) -> (r: App)
        ensures
            r.wf(),
            r@ == refresh_spec(
                AppView {
                    should_exit: false,
                    mode: AppMode::Normal,
                    current_path: current_path@,
                    list: ListView { items: Seq::empty(), visible: Seq::empty(), cursor: None },
                    error_message: None,
                    status_message: None,
                    selection: Seq::empty(),
                    help_scroll_offset: 0,
                    input_buffer: Seq::empty(),
                    cursor_position: 0,
                    input_context: None,
                    active_command: None,
                    clipboard: ClipboardView { items: Seq::empty(), operation: crate::clipboard::ClipboardOperation::Empty },
                    clipboard_scroll_offset: 0,
                    last_scroll_time: None,
                    last_click_index: None,
                    last_click_time: None,
                },
                items_view(entries@),
            ),
    {
        let mut app = App {
            should_exit: false,
            mode: AppMode::Normal,
            current_path,
            file_list: StatefulList::new(),
            error_message: None,
            status_message: None,
            selection: Vec::new(),
            help_scroll_offset: 0,
            input_buffer: Vec::new(),
            cursor_position: 0,
            input_context: None,
            active_command: None,
            clipboard: Clipboard::new(),
            clipboard_scroll_offset: 0,
            last_scroll_time: None,
            last_click_index: None,
            last_click_time: None,
        };
        assert(app@.list.items =~= Seq::empty());
        assert(app@.clipboard.items =~= Seq::empty());
        app.refresh_file_list(entries);
        app
    }

    pub fn set_error(&mut self, message: String)
        ensures
            final(self)@ == (AppView { error_message: Some(message@), ..old(self)@ }),
            final(self).wf() == old(self).wf(),
    {
        self.error_message = Some(message);
    }

    pub fn set_status(&mut self, message: String)
        ensures
            final(self)@ == (AppView { status_message: Some(message@), ..old(self)@ }),
            final(self).wf() == old(self).wf(),
    {
        self.status_message = Some(message);
    }

    /// Clears both the status and the error message.
    pub fn clear_messages(&mut self)
        ensures
            final(self)@ == (AppView { error_message: None, status_message: None, ..old(self)@ }),
            final(self).wf() == old(self).wf(),
    {
        self.error_message = None;
        self.status_message = None;
    }

    /// Replaces the listing with the entries of the current directory.
    pub fn refresh_file_list(&mut self, entries: Vec<FileItem>)
        requires
            old(self).wf(),
        ensures
            final(self).wf(),
            final(self)@ == refresh_spec(old(self)@, items_view(entries@)),
    {
        let ghost ev = items_view(entries@);
        let mut sorted = sort_listing(entries);
        match self.current_path.parent() {
            Some(up) => {
                let item = FileItem {
                    name: string_of(".."),
                    path: up,
                    is_dir: true,
                    size: None,
                    modified: None,
                };
                proof {
                    reveal_strlit("..");
                    assert(".."@ =~= seq!['.', '.']);
                    assert(item@ == parent_item(parent_spec(self.current_path@)->0));
                }
                let ghost s0 = sorted@;
                sorted.insert(0, item);
                assert(items_view(sorted@) =~= seq![item@] + items_view(s0));
            },
            None => {},
        }
        let ghost items = items_view(sorted@);
        assert(items == listing_items(self.current_path@, ev));
        self.file_list = StatefulList::new_with_items(sorted);
        self.selection = Vec::new();
        assert(self@.selection =~= Seq::empty());
        assert(self@ =~= refresh_spec(old(self)@, ev));
    }
}


/// The furthest a view of `viewport_height` lines can scroll over
/// `content_length` lines.
pub open spec fn max_scroll(content_length: usize, viewport_height: usize) -> usize {
    if content_length > viewport_height {
        (content_length - viewport_height) as usize
    } else {
        0
    }
}

/// An offset moved one line down, stopping at `max_scroll`.
pub open spec fn scrolled_down(offset: usize, content_length: usize, viewport_height: usize) -> usize {
    if offset < max_scroll(content_length, viewport_height) {
        (offset + 1) as usize
    } else {
        offset
    }
}

/// An offset moved one line up, stopping at 0.
pub open spec fn scrolled_up(offset: usize) -> usize {
    if offset > 0 {
        (offset - 1) as usize
    } else {
        offset
    }
}

/// The selection after the item under the cursor is toggled: taken out
/// when it is in, added at the end when it is not.
pub open spec fn toggled(sel: Seq<usize>, cursor: Option<usize>) -> Seq<usize> {
    match cursor {
        Some(i) => if sel.contains(i) {
            sel.remove(sel.index_of_first(i)->0)
        } else {
            sel.push(i)
        },
        None => sel,
    }
}

/// The selected entries that are in the listing, in selection order.
pub open spec fn selected_views(items: Seq<FileItemView>, sel: Seq<usize>) -> Seq<FileItemView>
    decreases sel.len(),
{
    if sel.len() == 0 {
        Seq::empty()
    } else {
        let before = selected_views(items, sel.drop_last());
        if sel.last() < items.len() {
            before.push(items[sel.last() as int])
        } else {
            before
        }
    }
}

/// A text without the white space at its start.
pub open spec fn trim_start(t: Seq<char>) -> Seq<char>
    decreases t.len(),
{
    if t.len() > 0 && is_space(t[0]) {
        trim_start(t.drop_first())
    } else {
        t
    }
}

/// A text without the white space at its end.
pub open spec fn trim_end(t: Seq<char>) -> Seq<char>
    decreases t.len(),
{
    if t.len() > 0 && is_space(t.last()) {
        trim_end(t.drop_last())
    } else {
        t
    }
}

/// The characters of a text up to its first white space.
pub open spec fn leading_word(t: Seq<char>) -> Seq<char>
    decreases t.len(),
{
    if t.len() == 0 || is_space(t[0]) {
        Seq::empty()
    } else {
        seq![t[0]] + leading_word(t.drop_first())
    }
}

/// The first word of a text, if it holds anything but white space.
pub open spec fn first_word(t: Seq<char>) -> Option<Seq<char>> {
    let s = trim_start(t);
    if s.len() == 0 {
        None
    } else {
        Some(leading_word(s))
    }
}

/// The state after a command whose first word is `w`, and `l` in lower
/// case: `q`, `quit` or `exit` asks to exit, `h` or `help` opens the help,
/// anything else is reported as unknown and returns to `Normal`.
pub open spec fn command_word_spec(a: AppView, w: Seq<char>, l: Seq<char>) -> AppView {
    if l == "q"@ || l == "quit"@ || l == "exit"@ {
        AppView { should_exit: true, ..a }
    } else if l == "h"@ || l == "help"@ {
        AppView { mode: AppMode::Help, input_buffer: Seq::empty(), cursor_position: 0, ..a }
    } else {
        AppView { error_message: Some("Unknown command: "@ + w), mode: AppMode::Normal, ..a }
    }
}

/// The state after a command line runs: by its first word, in any case
/// (`command_word_spec`); a blank line changes nothing.
pub open spec fn command_line_spec(a: AppView, line: Seq<char>) -> AppView {
    match first_word(line) {
        None => a,
        Some(w) => command_word_spec(a, w, lower_of(w)),
    }
}

/// Where `x` first occurs in `s`.
fn first_position(s: &Vec<usize>, x: usize) -> (r: Option<usize>)
    ensures
        match r {
            Some(i) => s@.index_of_first(x) == Some(i as int),
            None => s@.index_of_first(x) is None,
        },
{
    proof {
        s@.index_of_first_ensures(x);
    }
    let mut i: usize = 0;
    while i < s.len()
        invariant
            i <= s@.len(),
            forall|k: int| 0 <= k < i ==> s@[k] != x,
            match s@.index_of_first(x) {
                Some(index) => {
                    &&& s@.contains(x)
                    &&& 0 <= index < s@.len()
                    &&& s@[index] == x
                    &&& forall|j: int| 0 <= j < index < s@.len() ==> s@[j] != x
                },
                None => !s@.contains(x),
            },
        decreases s@.len() - i,
    {
        if s[i] == x {
            return Some(i);
        }
        i = i + 1;
    }
    None
}

fn trim_start_index(t: &Vec<char>) -> (r: usize)
    ensures
        r <= t@.len(),
        trim_start(t@) == t@.subrange(r as int, t@.len() as int),
{
    let mut i: usize = 0;
    assert(t@.subrange(0, t@.len() as int) == t@);
    while i < t.len() && is_space_char(t[i])
        invariant
            i <= t@.len(),
            trim_start(t@) == trim_start(t@.subrange(i as int, t@.len() as int)),
        decreases t@.len() - i,
    {
        assert(t@.subrange(i as int, t@.len() as int).drop_first() == t@.subrange(i + 1, t@.len() as int));
        i = i + 1;
    }
    i
}

/// The characters of `t` from `start` on, up to the first white space.
fn word_end(t: &Vec<char>, start: usize) -> (r: usize)
    requires
        start <= t@.len(),
    ensures
        start <= r <= t@.len(),
        leading_word(t@.subrange(start as int, t@.len() as int)) == t@.subrange(start as int, r as int),
{
    let mut j: usize = start;
    while j < t.len() && !is_space_char(t[j])
        invariant
            start <= j <= t@.len(),
            leading_word(t@.subrange(start as int, t@.len() as int)) == t@.subrange(start as int, j as int)
                + leading_word(t@.subrange(j as int, t@.len() as int)),
        decreases t@.len() - j,
    {
        let ghost rest = t@.subrange(j as int, t@.len() as int);
        assert(rest.drop_first() == t@.subrange(j + 1, t@.len() as int));
        assert(t@.subrange(start as int, j + 1) == t@.subrange(start as int, j as int) + seq![t@[j as int]]);
        j = j + 1;
    }
    assert(leading_word(t@.subrange(j as int, t@.len() as int)) == Seq::<char>::empty());
    assert(t@.subrange(start as int, j as int) + Seq::<char>::empty() == t@.subrange(start as int, j as int));
    j
}

impl App {
    /// Moves into `path`, if it is a directory: the listing is refreshed
    /// from `listing` and the messages cleared. When the listing could not
    /// be read, the path is still taken and the reason returned.
    pub fn navigate_to(&mut self, path: FsPath, is_dir: bool, listing: Result<Vec<FileItem>, String>) -> (r: Result<(), String>)
        requires
            old(self).wf(),
        ensures
            final(self).wf(),
            !is_dir ==> final(self)@ == old(self)@ && r is Ok,
            is_dir ==> match listing {
                Ok(l) => r is Ok && final(self)@ == (AppView {
                    error_message: None,
                    status_message: None,
                    ..refresh_spec(AppView { current_path: path@, ..old(self)@ }, items_view(l@))
                }),
                Err(e) => r == Err::<(), String>(e) && final(self)@ == (AppView { current_path: path@, ..old(self)@ }),
            },
    {
        if !is_dir {
            return Ok(());
        }
        self.current_path = path;
        match listing {
            Ok(entries) => {
                self.refresh_file_list(entries);
                self.clear_messages();
                Ok(())
            },
            Err(e) => Err(e),
        }
    }

    pub fn scroll_help_down(&mut self, content_length: usize, viewport_height: usize)
        requires
            old(self).wf(),
        ensures
            final(self)@ == (AppView {
                help_scroll_offset: scrolled_down(old(self).help_scroll_offset, content_length, viewport_height),
                ..old(self)@
            }),
            final(self).wf(),
    {
        let max_scroll = if content_length > viewport_height {
            content_length - viewport_height
        } else {
            0
        };
        if self.help_scroll_offset < max_scroll {
            self.help_scroll_offset = self.help_scroll_offset + 1;
        }
    }

    pub fn scroll_help_up(&mut self)
        requires
            old(self).wf(),
        ensures
            final(self)@ == (AppView { help_scroll_offset: scrolled_up(old(self).help_scroll_offset), ..old(self)@ }),
            final(self).wf(),
    {
        if self.help_scroll_offset > 0 {
            self.help_scroll_offset = self.help_scroll_offset - 1;
        }
    }

    pub fn scroll_clipboard_down(&mut self, content_length: usize, viewport_height: usize)
        requires
            old(self).wf(),
        ensures
            final(self)@ == (AppView {
                clipboard_scroll_offset: scrolled_down(old(self).clipboard_scroll_offset, content_length, viewport_height),
                ..old(self)@
            }),
            final(self).wf(),
    {
        let max_scroll = if content_length > viewport_height {
            content_length - viewport_height
        } else {
            0
        };
        if self.clipboard_scroll_offset < max_scroll {
            self.clipboard_scroll_offset = self.clipboard_scroll_offset + 1;
        }
    }

    pub fn scroll_clipboard_up(&mut self)
        requires
            old(self).wf(),
        ensures
            final(self)@ == (AppView { clipboard_scroll_offset: scrolled_up(old(self).clipboard_scroll_offset), ..old(self)@ }),
            final(self).wf(),
    {
        if self.clipboard_scroll_offset > 0 {
            self.clipboard_scroll_offset = self.clipboard_scroll_offset - 1;
        }
    }

    /// Empties the text being typed.
    pub fn clear_input_buffer(&mut self)
        requires
            old(self).wf(),
        ensures
            final(self)@ == (AppView { input_buffer: Seq::empty(), cursor_position: 0, ..old(self)@ }),
            final(self).wf(),
    {
        self.input_buffer = Vec::new();
        self.cursor_position = 0;
        assert(self@.input_buffer =~= Seq::empty());
        assert(self@ =~= AppView { input_buffer: Seq::empty(), cursor_position: 0, ..old(self)@ });
    }

    pub fn move_cursor_left(&mut self)
        requires
            old(self).wf(),
        ensures
            final(self)@ == (AppView { cursor_position: scrolled_up(old(self).cursor_position), ..old(self)@ }),
            final(self).wf(),
    {
        if self.cursor_position > 0 {
            self.cursor_position = self.cursor_position - 1;
        }
    }

    pub fn move_cursor_right(&mut self)
        requires
            old(self).wf(),
        ensures
            final(self)@ == (AppView {
                cursor_position: if old(self).cursor_position < old(self).input_buffer@.len() {
                    (old(self).cursor_position + 1) as usize
                } else {
                    old(self).cursor_position
                },
                ..old(self)@
            }),
            final(self).wf(),
    {
        if self.cursor_position < self.input_buffer.len() {
            self.cursor_position = self.cursor_position + 1;
        }
    }

    pub fn move_cursor_home(&mut self)
        requires
            old(self).wf(),
        ensures
            final(self)@ == (AppView { cursor_position: 0, ..old(self)@ }),
            final(self).wf(),
    {
        self.cursor_position = 0;
    }

    pub fn move_cursor_end(&mut self)
        requires
            old(self).wf(),
        ensures
            final(self)@ == (AppView { cursor_position: old(self).input_buffer@.len() as usize, ..old(self)@ }),
            final(self).wf(),
    {
        self.cursor_position = self.input_buffer.len();
    }

    /// Removes the character before the text cursor (backspace).
    pub fn delete_char_before_cursor(&mut self) -> (r: Option<char>)
        requires
            old(self).wf(),
        ensures
            final(self).wf(),
            old(self).cursor_position > 0 ==> r == Some(old(self).input_buffer@[old(self).cursor_position - 1])
                && final(self)@ == (AppView {
                input_buffer: old(self).input_buffer@.remove(old(self).cursor_position - 1),
                cursor_position: (old(self).cursor_position - 1) as usize,
                ..old(self)@
            }),
            old(self).cursor_position == 0 ==> r is None && final(self)@ == old(self)@,
    {
        if self.cursor_position > 0 {
            self.cursor_position = self.cursor_position - 1;
            let c = self.input_buffer.remove(self.cursor_position);
            Some(c)
        } else {
            None
        }
    }

    /// Removes the character under the text cursor (delete).
    pub fn delete_char_at_cursor(&mut self) -> (r: Option<char>)
        requires
            old(self).wf(),
        ensures
            final(self).wf(),
            old(self).cursor_position < old(self).input_buffer@.len() ==> r == Some(
                old(self).input_buffer@[old(self).cursor_position as int],
            ) && final(self)@ == (AppView {
                input_buffer: old(self).input_buffer@.remove(old(self).cursor_position as int),
                ..old(self)@
            }),
            old(self).cursor_position >= old(self).input_buffer@.len() ==> r is None && final(self)@
                == old(self)@,
    {
        if self.cursor_position < self.input_buffer.len() {
            let c = self.input_buffer.remove(self.cursor_position);
            Some(c)
        } else {
            None
        }
    }

    /// Inserts a character at the text cursor and moves past it.
    pub fn insert_char_at_cursor(&mut self, c: char)
        requires
            old(self).wf(),
        ensures
            final(self).wf(),
            final(self)@ == (AppView {
                input_buffer: old(self).input_buffer@.insert(old(self).cursor_position as int, c),
                cursor_position: (old(self).cursor_position + 1) as usize,
                ..old(self)@
            }),
    {
        self.input_buffer.insert(self.cursor_position, c);
        let n = self.input_buffer.len();
        assert(self.cursor_position < n);
        self.cursor_position = self.cursor_position + 1;
    }

    pub fn clear_multi_selection(&mut self)
        requires
            old(self).wf(),
        ensures
            final(self)@ == (AppView { selection: Seq::empty(), ..old(self)@ }),
            final(self).wf(),
    {
        self.selection = Vec::new();
        assert(self@ =~= AppView { selection: Seq::empty(), ..old(self)@ });
    }

    /// Adds the item under the cursor to the selection, or takes it out.
    pub fn toggle_selection(&mut self)
        requires
            old(self).wf(),
        ensures
            final(self)@ == (AppView { selection: toggled(old(self)@.selection, old(self)@.list.cursor), ..old(self)@ }),
            final(self).wf(),
    {
        if let Some(sel) = self.file_list.selected {
            proof {
                self.selection@.index_of_first_ensures(sel);
            }
            match first_position(&self.selection, sel) {
                Some(i) => {
                    let ghost s0 = self.selection@;
                    self.selection.remove(i);
                    proof {
                        let s1 = self.selection@;
                        assert forall|a: int, b: int| 0 <= a < s1.len() && 0 <= b < s1.len() && a != b implies s1[a] != s1[b] by {
                            let a0 = if a < i { a } else { a + 1 };
                            let b0 = if b < i { b } else { b + 1 };
                            assert(s1[a] == s0[a0] && s1[b] == s0[b0]);
                        }
                    }
                },
                None => {
                    let ghost s0 = self.selection@;
                    self.selection.push(sel);
                    proof {
                        let s1 = self.selection@;
                        assert forall|a: int, b: int| 0 <= a < s1.len() && 0 <= b < s1.len() && a != b implies s1[a] != s1[b] by {
                            if a < s0.len() && b < s0.len() {
                                assert(s1[a] == s0[a] && s1[b] == s0[b]);
                            } else if a < s0.len() {
                                assert(s1[a] == s0[a]);
                                assert(s0.contains(s0[a]));
                            } else if b < s0.len() {
                                assert(s1[b] == s0[b]);
                                assert(s0.contains(s0[b]));
                            }
                        }
                    }
                },
            }
        }
    }

    /// The selected entries that are in the listing, in selection order.
    pub fn selected_items(&self) -> (r: Vec<&FileItem>)
        ensures
            r@.len() == selected_views(self@.list.items, self@.selection).len(),
            forall|k: int| 0 <= k < r@.len() ==> (*#[trigger] r@[k])@ == selected_views(self@.list.items, self@.selection)[k],
    {
        let mut out: Vec<&FileItem> = Vec::new();
        let mut i: usize = 0;
        while i < self.selection.len()
            invariant
                i <= self.selection@.len(),
                out@.len() == selected_views(self@.list.items, self@.selection.subrange(0, i as int)).len(),
                forall|k: int| 0 <= k < out@.len() ==> (*#[trigger] out@[k])@ == selected_views(self@.list.items, self@.selection.subrange(0, i as int))[k],
            decreases self.selection@.len() - i,
        {
            let ghost sub = self@.selection.subrange(0, i + 1);
            assert(sub.drop_last() == self@.selection.subrange(0, i as int));
            let idx = self.selection[i];
            if idx < self.file_list.items.len() {
                out.push(&self.file_list.items[idx]);
            }
            i = i + 1;
        }
        assert(self@.selection.subrange(0, self@.selection.len() as int) == self@.selection);
        out
    }

    /// Runs a command line (`command_line_spec`).
    pub fn execute_command(&mut self, command: &str)
        requires
            old(self).wf(),
        ensures
            final(self).wf(),
            final(self)@ == command_line_spec(old(self)@, command@),
    {
        let t = crate::text::chars_of(command);
        let start = trim_start_index(&t);
        if start == t.len() {
            return;
        }
        let end = word_end(&t, start);
        let word = crate::text::string_from_chars(&t.as_slice()[start..end]);
        assert(word@ == leading_word(trim_start(command@)));
        let l = lowercase(word.as_str());
        self.run_command_word(word.as_str(), l.as_str());
    }

    /// Runs a command given its first word and that word in lower case
    /// (`command_word_spec`).
    pub fn run_command_word(&mut self, word: &str, lowered: &str)
        requires
            old(self).wf(),
        ensures
            final(self).wf(),
            final(self)@ == command_word_spec(old(self)@, word@, lowered@),
    {
        if same_text(lowered, "q") || same_text(lowered, "quit") || same_text(lowered, "exit") {
            self.should_exit = true;
        } else if same_text(lowered, "h") || same_text(lowered, "help") {
            self.mode = AppMode::Help;
            self.clear_input_buffer();
        } else {
            let mut msg = string_of("Unknown command: ");
            push_text(&mut msg, word);
            self.error_message = Some(msg);
            self.mode = AppMode::Normal;
        }
    }
}

} // verus!

verus! {

/// In every listing the parent entry, when the directory has one, stands
/// first and is the only entry named `..`; after it come all the entries
/// read from the directory, directories before files, each group in
/// lower-case name order.
pub proof fn lemma_listing_order(a: AppView, entries: Seq<FileItemView>)
    requires
        forall|i: int| 0 <= i < entries.len() ==> (#[trigger] entries[i]).name != seq!['.', '.'],
    ensures
        ({
            let items = refresh_spec(a, entries).list.items;
            let has_parent = parent_spec(a.current_path) is Some;
            let rest = if has_parent { items.drop_first() } else { items };
            &&& has_parent ==> items.len() > 0 && items[0].name == seq!['.', '.'] && items[0].is_dir
            &&& forall|i: int| 0 <= i < rest.len() ==> (#[trigger] rest[i]).name != seq!['.', '.']
            &&& crate::entry::sorted_listing(rest)
            &&& rest.to_multiset() == entries.to_multiset()
        }),
{
    broadcast use vstd::seq_lib::group_to_multiset_ensures;

    crate::entry::lemma_sorted_spec(entries);
    let sorted = sorted_spec(entries);
    let items = refresh_spec(a, entries).list.items;
    if parent_spec(a.current_path) is Some {
        assert(items.drop_first() =~= sorted);
    }
    assert forall|i: int| 0 <= i < sorted.len() implies (#[trigger] sorted[i]).name != seq!['.', '.'] by {
        assert(sorted.contains(sorted[i]));
        assert(sorted.to_multiset().count(sorted[i]) > 0);
        assert(entries.contains(sorted[i]));
    }
}

} // verus!
