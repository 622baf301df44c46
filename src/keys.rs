//! The mode state machine: which operation each key stands for in each mode,
//! what each operation does to the state, and what it asks of the outside
//! world.

use vstd::prelude::*;

use crate::app::{App, AppState, Location, Mode};
use crate::command::{Command, command_of, parse_command};
use crate::cursor::{BoundKind, last_position, upper_bound};
use crate::display_texts::{COMMAND_LIST, CREDITS, HELP_TEXT};
use crate::text::{join_lines, joined};

verus! {

/// A key press, as far as the browser tells keys apart.
#[derive(Clone, Copy, Debug, PartialEq, Eq, Structural)]
pub enum Key {
    Char(char),
    Up,
    Down,
    Left,
    Right,
    Enter,
    Esc,
    Backspace,
    Other,
}

/// What a key press does.
#[derive(Clone, Copy, Debug, PartialEq, Eq, Structural)]
pub enum Op {
    /// Nothing.
    Ignore,
    /// Begin command entry.
    EnterCommand,
    /// Switch to a mode other than display mode.
    SetMode(Mode),
    /// Empty the search text and switch to search mode.
    ResetSearch,
    /// Copy the line under the cursor of a panel.
    CopyLine(Location),
    /// Copy every line of a panel.
    CopyAll(Location),
    /// Scroll a panel by a number of lines.
    Scroll(Location, i32),
    /// Put a panel's cursor on its first line.
    JumpTop(Location),
    /// Put a panel's cursor on its last line.
    JumpBottom(Location),
    /// Move a text field's cursor.
    MoveCursor(Location, i32),
    /// Type a character into a text field.
    Type(Location, char),
    /// The marker typed in search mode: part of the search text where the
    /// configuration allows it, else the start of command entry.
    SearchMarker,
    /// Backspace in search mode: leave it when the search text is empty.
    SearchBackspace,
    /// Backspace in command mode: leave it when at most the marker is left.
    CommandBackspace,
    /// Abandon the command.
    CancelCommand,
    /// Run the command.
    Submit,
    /// Close the text on display.
    LeaveDisplay,
}

/// What the browser asks of the outside world after a key press.
#[derive(Clone, Debug)]
pub enum Action {
    Nothing,
    /// Put this text on the clipboard.
    Copy(String),
    /// Write this text to standard output.
    Print(String),
    /// End the program, then print the package list if `print` is set.
    Exit { print: bool },
}

/// An action as the contracts see it.
pub enum ActionView {
    Nothing,
    Copy(Seq<char>),
    Print(Seq<char>),
    Exit { print: bool },
}

impl View for Action {
    type V = ActionView;

    open spec fn view(&self) -> ActionView {
        match self {
            Action::Nothing => ActionView::Nothing,
            Action::Copy(s) => ActionView::Copy(s@),
            Action::Print(s) => ActionView::Print(s@),
            Action::Exit { print } => ActionView::Exit { print: *print },
        }
    }
}

/// The navigation keys of a panel: up and down by one line or by ten, to the
/// top and to the bottom.
pub open spec fn panel_op(loc: Location, key: Key) -> Op {
    match key {
        Key::Char(c) => if c == 'k' {
            Op::Scroll(loc, -1i32)
        } else if c == 'j' {
            Op::Scroll(loc, 1i32)
        } else if c == 'u' {
            Op::Scroll(loc, -10i32)
        } else if c == 'd' {
            Op::Scroll(loc, 10i32)
        } else if c == 'g' {
            Op::JumpTop(loc)
        } else if c == 'G' {
            Op::JumpBottom(loc)
        } else {
            Op::Ignore
        },
        Key::Up => Op::Scroll(loc, -1i32),
        Key::Down => Op::Scroll(loc, 1i32),
        _ => Op::Ignore,
    }
}

/// The key table: the operation that `key` stands for in `mode`.
pub open spec fn key_op(mode: Mode, key: Key) -> Op {
    match mode {
        Mode::Normal => match key {
            Key::Char(c) => if c == ':' {
                Op::EnterCommand
            } else if c == 's' {
                Op::SetMode(Mode::Search)
            } else if c == 'r' {
                Op::ResetSearch
            } else if c == 'y' {
                Op::CopyLine(Location::Paclist)
            } else if c == 'Y' {
                Op::CopyAll(Location::Paclist)
            } else if c == 'l' || c == 'i' {
                Op::SetMode(Mode::Info)
            } else {
                panel_op(Location::Paclist, key)
            },
            Key::Right | Key::Enter => Op::SetMode(Mode::Info),
            _ => panel_op(Location::Paclist, key),
        },
        Mode::Info => match key {
            Key::Char(c) => if c == ':' {
                Op::EnterCommand
            } else if c == 's' {
                Op::SetMode(Mode::Search)
            } else if c == 'r' {
                Op::ResetSearch
            } else if c == 'y' {
                Op::CopyLine(Location::Pacinfo)
            } else if c == 'Y' {
                Op::CopyAll(Location::Pacinfo)
            } else if c == 'h' || c == 'n' {
                Op::SetMode(Mode::Normal)
            } else {
                panel_op(Location::Pacinfo, key)
            },
            Key::Esc | Key::Left => Op::SetMode(Mode::Normal),
            _ => panel_op(Location::Pacinfo, key),
        },
        Mode::Command => match key {
            Key::Esc => Op::CancelCommand,
            Key::Enter => Op::Submit,
            Key::Backspace => Op::CommandBackspace,
            Key::Left => Op::MoveCursor(Location::Command, -1i32),
            Key::Right => Op::MoveCursor(Location::Command, 1i32),
            Key::Char(c) => Op::Type(Location::Command, c),
            _ => Op::Ignore,
        },
        Mode::Search => match key {
            Key::Down | Key::Esc | Key::Enter => Op::SetMode(Mode::Normal),
            Key::Char(c) => if c == ':' {
                Op::SearchMarker
            } else {
                Op::Type(Location::Search, c)
            },
            Key::Backspace => Op::SearchBackspace,
            Key::Left => Op::MoveCursor(Location::Search, -1i32),
            Key::Right => Op::MoveCursor(Location::Search, 1i32),
            _ => Op::Ignore,
        },
        Mode::Display => match key {
            Key::Esc => Op::LeaveDisplay,
            Key::Char(c) => if c == ':' {
                Op::EnterCommand
            } else {
                panel_op(Location::Pacinfo, key)
            },
            _ => panel_op(Location::Pacinfo, key),
        },
    }
}

fn panel_op_for(loc: Location, key: Key) -> (r: Op)
    ensures
        r == panel_op(loc, key),
{
    match key {
        Key::Char(c) => if c == 'k' {
            Op::Scroll(loc, -1i32)
        } else if c == 'j' {
            Op::Scroll(loc, 1i32)
        } else if c == 'u' {
            Op::Scroll(loc, -10i32)
        } else if c == 'd' {
            Op::Scroll(loc, 10i32)
        } else if c == 'g' {
            Op::JumpTop(loc)
        } else if c == 'G' {
            Op::JumpBottom(loc)
        } else {
            Op::Ignore
        },
        Key::Up => Op::Scroll(loc, -1i32),
        Key::Down => Op::Scroll(loc, 1i32),
        _ => Op::Ignore,
    }
}

/// The operation that `key` stands for in `mode`.
pub fn op_for(mode: Mode, key: Key) -> (r: Op)
    ensures
        r == key_op(mode, key),
{
    match mode {
        Mode::Normal => match key {
            Key::Char(c) => if c == ':' {
                Op::EnterCommand
            } else if c == 's' {
                Op::SetMode(Mode::Search)
            } else if c == 'r' {
                Op::ResetSearch
            } else if c == 'y' {
                Op::CopyLine(Location::Paclist)
            } else if c == 'Y' {
                Op::CopyAll(Location::Paclist)
            } else if c == 'l' || c == 'i' {
                Op::SetMode(Mode::Info)
            } else {
                panel_op_for(Location::Paclist, key)
            },
            Key::Right | Key::Enter => Op::SetMode(Mode::Info),
            _ => panel_op_for(Location::Paclist, key),
        },
        Mode::Info => match key {
            Key::Char(c) => if c == ':' {
                Op::EnterCommand
            } else if c == 's' {
                Op::SetMode(Mode::Search)
            } else if c == 'r' {
                Op::ResetSearch
            } else if c == 'y' {
                Op::CopyLine(Location::Pacinfo)
            } else if c == 'Y' {
                Op::CopyAll(Location::Pacinfo)
            } else if c == 'h' || c == 'n' {
                Op::SetMode(Mode::Normal)
            } else {
                panel_op_for(Location::Pacinfo, key)
            },
            Key::Esc | Key::Left => Op::SetMode(Mode::Normal),
            _ => panel_op_for(Location::Pacinfo, key),
        },
        Mode::Command => match key {
            Key::Esc => Op::CancelCommand,
            Key::Enter => Op::Submit,
            Key::Backspace => Op::CommandBackspace,
            Key::Left => Op::MoveCursor(Location::Command, -1i32),
            Key::Right => Op::MoveCursor(Location::Command, 1i32),
            Key::Char(c) => Op::Type(Location::Command, c),
            _ => Op::Ignore,
        },
        Mode::Search => match key {
            Key::Down | Key::Esc | Key::Enter => Op::SetMode(Mode::Normal),
            Key::Char(c) => if c == ':' {
                Op::SearchMarker
            } else {
                Op::Type(Location::Search, c)
            },
            Key::Backspace => Op::SearchBackspace,
            Key::Left => Op::MoveCursor(Location::Search, -1i32),
            Key::Right => Op::MoveCursor(Location::Search, 1i32),
            _ => Op::Ignore,
        },
        Mode::Display => match key {
            Key::Esc => Op::LeaveDisplay,
            Key::Char(c) => if c == ':' {
                Op::EnterCommand
            } else {
                panel_op_for(Location::Pacinfo, key)
            },
            _ => panel_op_for(Location::Pacinfo, key),
        },
    }
}

/// Whether `op` may follow in `mode`: the operations that switch modes
/// without recomputing the projections never enter or leave display mode,
/// and only command mode submits.
pub open spec fn op_fits(mode: Mode, op: Op) -> bool {
    match op {
        Op::SetMode(m) => mode != Mode::Display && m != Mode::Display,
        Op::ResetSearch | Op::SearchBackspace | Op::CommandBackspace | Op::CancelCommand => mode
            != Mode::Display,
        Op::Submit => mode == Mode::Command,
        _ => true,
    }
}

/// Every operation of the key table fits the mode it is taken in.
pub proof fn lemma_key_op_fits(mode: Mode, key: Key)
    ensures
        op_fits(mode, key_op(mode, key)),
{
}

impl AppState {
    /// The lines of the panel at `loc`.
    pub open spec fn panel_lines(self, loc: Location) -> Seq<Seq<char>> {
        if loc == Location::Paclist {
            self.paclist
        } else {
            self.pacinfo
        }
    }

    /// The command buffer run: the buffer is emptied, then the command it
    /// named takes effect.
    pub open spec fn submitted(self) -> (AppState, ActionView) {
        let s = self.cleared(Location::Command);
        match command_of(self.command) {
            Command::Help => (s.display_entered(HELP_TEXT@), ActionView::Nothing),
            Command::Quit => (s, ActionView::Exit { print: false }),
            Command::Print => (
                AppState { mode: Mode::Normal, ..s },
                ActionView::Print(joined(s.paclist)),
            ),
            Command::QuitAndPrint => (s, ActionView::Exit { print: true }),
            Command::CommandList => (s.display_entered(COMMAND_LIST@), ActionView::Nothing),
            Command::Credits => (s.display_entered(CREDITS@), ActionView::Nothing),
            Command::Unknown => (AppState { mode: Mode::Normal, ..s }, ActionView::Nothing),
        }
    }

    /// The state after `op` and what it asks of the outside world.
    pub open spec fn applied(self, op: Op) -> (AppState, ActionView) {
        match op {
            Op::Ignore => (self, ActionView::Nothing),
            Op::EnterCommand => (self.command_entered(), ActionView::Nothing),
            Op::SetMode(m) => (AppState { mode: m, ..self }, ActionView::Nothing),
            Op::ResetSearch => (
                AppState { mode: Mode::Search, ..self.cleared(Location::Search) },
                ActionView::Nothing,
            ),
            Op::CopyLine(loc) => if self.cursor_of(loc) < self.panel_lines(loc).len() {
                (self, ActionView::Copy(self.panel_lines(loc)[self.cursor_of(loc) as int]))
            } else {
                (self, ActionView::Nothing)
            },
            Op::CopyAll(loc) => (self, ActionView::Copy(joined(self.panel_lines(loc)))),
            Op::Scroll(loc, d) => (self.scrolled(loc, d as int), ActionView::Nothing),
            Op::JumpTop(loc) => (self.jumped(loc, 0), ActionView::Nothing),
            Op::JumpBottom(loc) => (
                self.jumped(loc, upper_bound(BoundKind::Selection, self.field_len(loc))),
                ActionView::Nothing,
            ),
            Op::MoveCursor(loc, d) => (self.cursor_moved(loc, d as int), ActionView::Nothing),
            Op::Type(loc, c) => (self.char_added(c, loc), ActionView::Nothing),
            Op::SearchMarker => if self.config.operation.allow_colon_in_search {
                (self.char_added(':', Location::Search), ActionView::Nothing)
            } else {
                (self.command_entered(), ActionView::Nothing)
            },
            Op::SearchBackspace => if self.search.len() == 0 {
                (AppState { mode: Mode::Normal, ..self }, ActionView::Nothing)
            } else {
                (self.char_deleted(Location::Search), ActionView::Nothing)
            },
            Op::CommandBackspace => if self.command.len() <= 1 {
                (
                    AppState { mode: Mode::Normal, ..self.cleared(Location::Command) },
                    ActionView::Nothing,
                )
            } else {
                (self.char_deleted(Location::Command), ActionView::Nothing)
            },
            Op::CancelCommand => (
                AppState { mode: Mode::Normal, ..self.cleared(Location::Command) },
                ActionView::Nothing,
            ),
            Op::Submit => self.submitted(),
            Op::LeaveDisplay => (self.display_left(Mode::Normal), ActionView::Nothing),
        }
    }

    /// The state after `key` is pressed, and what it asks of the outside world.
    pub open spec fn after_key(self, key: Key) -> (AppState, ActionView) {
        self.applied(key_op(self.mode, key))
    }
}

/// Whenever a key press changes the search text, both the list cursor and
/// the detail cursor end at 0.
pub proof fn lemma_search_change_resets_cursors(s: AppState, key: Key)
    requires
        s.wf(),
    ensures
        s.after_key(key).0.search != s.search ==> s.after_key(key).0.list_cursor == 0
            && s.after_key(key).0.info_cursor == 0,
{
}

impl App {
    /// Runs the command in the command buffer: empties the buffer, then puts
    /// a text on display, asks for the package list to be printed, or asks
    /// for the program to end; an unknown command just returns to normal
    /// mode.
    pub fn submit_command(&mut self) -> (r: Action)
        requires
            old(self)@.wf(),
            old(self).mode == Mode::Command,
        ensures
            (final(self)@, r@) == old(self)@.submitted(),
            final(self)@.wf(),
    {
        let command = parse_command(&self.current_command);
        self.clear(Location::Command);
        match command {
            Command::Help => {
                self.goto_display_mode(HELP_TEXT);
                Action::Nothing
            },
            Command::Quit => Action::Exit { print: false },
            Command::Print => {
                let text = self.package_list_text();
                self.mode = Mode::Normal;
                Action::Print(text)
            },
            Command::QuitAndPrint => Action::Exit { print: true },
            Command::CommandList => {
                self.goto_display_mode(COMMAND_LIST);
                Action::Nothing
            },
            Command::Credits => {
                self.goto_display_mode(CREDITS);
                Action::Nothing
            },
            Command::Unknown => {
                self.mode = Mode::Normal;
                Action::Nothing
            },
        }
    }

    fn apply_panel(&mut self, op: Op) -> (r: Action)
        requires
            old(self)@.wf(),
            op_fits(old(self).mode, op),
            op is CopyLine || op is CopyAll || op is Scroll || op is JumpTop || op is JumpBottom,
        ensures
            (final(self)@, r@) == old(self)@.applied(op),
            final(self)@.wf(),
    {
        match op {
            Op::CopyLine(loc) => {
                let lines = if loc == Location::Paclist {
                    &self.current_paclist
                } else {
                    &self.current_pacinfo
                };
                let i = self.cursor_index(&loc);
                if i < lines.len() {
                    Action::Copy(lines[i].clone())
                } else {
                    Action::Nothing
                }
            },
            Op::CopyAll(loc) => {
                let lines = if loc == Location::Paclist {
                    &self.current_paclist
                } else {
                    &self.current_pacinfo
                };
                Action::Copy(join_lines(lines))
            },
            Op::Scroll(loc, d) => {
                self.scroll(d, &loc);
                Action::Nothing
            },
            Op::JumpTop(loc) => {
                self.cursor_jump(&loc, 0);
                Action::Nothing
            },
            Op::JumpBottom(loc) => {
                let last = last_position(BoundKind::Selection, self.field_len(&loc));
                self.cursor_jump(&loc, last);
                Action::Nothing
            },
            _ => Action::Nothing,
        }
    }

    fn apply_edit(&mut self, op: Op) -> (r: Action)
        requires
            old(self)@.wf(),
            op_fits(old(self).mode, op),
            op is MoveCursor || op is Type || op is SearchMarker || op is SearchBackspace
                || op is CommandBackspace,
        ensures
            (final(self)@, r@) == old(self)@.applied(op),
            final(self)@.wf(),
    {
        match op {
            Op::MoveCursor(loc, d) => {
                self.cursor_change(&loc, d);
                Action::Nothing
            },
            Op::Type(loc, c) => {
                self.add_char(c, &loc);
                Action::Nothing
            },
            Op::SearchMarker => {
                if self.config.operation.allow_colon_in_search {
                    self.add_char(':', &Location::Search);
                } else {
                    self.goto_command_mode();
                }
                Action::Nothing
            },
            Op::SearchBackspace => {
                if self.current_search.len() == 0 {
                    self.mode = Mode::Normal;
                } else {
                    self.delete_char(Location::Search);
                }
                Action::Nothing
            },
            Op::CommandBackspace => {
                if self.current_command.len() <= 1 {
                    self.clear(Location::Command);
                    self.mode = Mode::Normal;
                } else {
                    self.delete_char(Location::Command);
                }
                Action::Nothing
            },
            _ => Action::Nothing,
        }
    }

    fn apply(&mut self, op: Op) -> (r: Action)
        requires
            old(self)@.wf(),
            op_fits(old(self).mode, op),
        ensures
            (final(self)@, r@) == old(self)@.applied(op),
            final(self)@.wf(),
    {
        match op {
            Op::Ignore => Action::Nothing,
            Op::EnterCommand => {
                self.goto_command_mode();
                Action::Nothing
            },
            Op::SetMode(m) => {
                self.mode = m;
                Action::Nothing
            },
            Op::ResetSearch => {
                self.clear(Location::Search);
                self.mode = Mode::Search;
                Action::Nothing
            },
            Op::CopyLine(_) | Op::CopyAll(_) | Op::Scroll(_, _) | Op::JumpTop(_) | Op::JumpBottom(_) => {
                self.apply_panel(op)
            },
            Op::MoveCursor(_, _) | Op::Type(_, _) | Op::SearchMarker | Op::SearchBackspace
            | Op::CommandBackspace => self.apply_edit(op),
            Op::CancelCommand => {
                self.clear(Location::Command);
                self.mode = Mode::Normal;
                Action::Nothing
            },
            Op::Submit => self.submit_command(),
            Op::LeaveDisplay => {
                self.leave_display_mode(Mode::Normal);
                Action::Nothing
            },
        }
    }

    /// Handles one key press: applies what the key stands for in the current
    /// mode and says what the outside world is to do.
    pub fn handle_key(&mut self, key: Key) -> (r: Action)
        requires
            old(self)@.wf(),
        ensures
            (final(self)@, r@) == old(self)@.after_key(key),
            final(self)@.wf(),
    {
        let op = op_for(self.mode, key);
        proof {
            lemma_key_op_fits(self.mode, key);
        }
        self.apply(op)
    }
}

} // verus!
