//! The application state: the package records, the filtered view of them,
//! the two text fields, the cursors and the derived projections.

use vstd::prelude::*;

use crate::config::ConfigToml;
use crate::cursor::{BoundKind, clamped, in_bounds, jump_cursor, move_cursor, moved, upper_bound};
use crate::filter::{filter_indices, lemma_filter_exact, matching_indices};
use crate::text::{join_lines, joined, lines_of, split_lines, views_of};

verus! {

/// One installed package: its name and the lines that describe it.
#[derive(Clone, Debug)]
pub struct Package {
    pub name: String,
    pub info: Vec<String>,
}

/// A package as the contracts see it.
pub struct PackageView {
    pub name: Seq<char>,
    pub info: Seq<Seq<char>>,
}

impl View for Package {
    type V = PackageView;

    open spec fn view(&self) -> PackageView {
        PackageView { name: self.name@, info: self.info@.map_values(|l: String| l@) }
    }
}

/// The views of a sequence of packages.
pub open spec fn packages_view(v: Seq<Package>) -> Seq<PackageView> {
    v.map_values(|p: Package| p@)
}

/// The interaction modes.
#[derive(Clone, Copy, Debug, PartialEq, Eq, Structural)]
pub enum Mode {
    Normal,
    Info,
    Search,
    Command,
    Display,
}

/// The fields that a cursor operation addresses.
#[derive(Clone, Copy, Debug, PartialEq, Eq, Structural)]
pub enum Location {
    Search,
    Paclist,
    Pacinfo,
    Command,
}

/// The whole state of the browser.
pub struct App {
    pub mode: Mode,
    pub config: ConfigToml,
    /// Every package, in the order they were loaded.
    pub packages: Vec<Package>,
    /// The indices of the packages that the search text selects, in order.
    pub displayed_packages_indices: Vec<usize>,
    pub current_search: Vec<char>,
    pub current_command: Vec<char>,
    /// The lines of the list panel.
    pub current_paclist: Vec<String>,
    /// The lines of the detail panel.
    pub current_pacinfo: Vec<String>,
    /// The text that display mode shows.
    pub display_text: &'static str,
    /// Where the renderer puts the list panel's scrollbar.
    pub list_scroll_position: usize,
    /// Where the renderer puts the detail panel's scrollbar.
    pub info_scroll_position: usize,
    pub search_cursor_index: usize,
    pub list_cursor_index: usize,
    pub info_cursor_index: usize,
    pub command_cursor_index: usize,
}

/// The state of the browser as the contracts see it.
pub struct AppState {
    pub mode: Mode,
    pub config: ConfigToml,
    pub packages: Seq<PackageView>,
    pub displayed: Seq<usize>,
    pub search: Seq<char>,
    pub command: Seq<char>,
    pub paclist: Seq<Seq<char>>,
    pub pacinfo: Seq<Seq<char>>,
    pub display_text: Seq<char>,
    pub list_scroll: usize,
    pub info_scroll: usize,
    pub search_cursor: usize,
    pub list_cursor: usize,
    pub info_cursor: usize,
    pub command_cursor: usize,
}

impl View for App {
    type V = AppState;

    open spec fn view(&self) -> AppState {
        AppState {
            mode: self.mode,
            config: self.config,
            packages: packages_view(self.packages@),
            displayed: self.displayed_packages_indices@,
            search: self.current_search@,
            command: self.current_command@,
            paclist: views_of(self.current_paclist@),
            pacinfo: views_of(self.current_pacinfo@),
            display_text: self.display_text@,
            list_scroll: self.list_scroll_position,
            info_scroll: self.info_scroll_position,
            search_cursor: self.search_cursor_index,
            list_cursor: self.list_cursor_index,
            info_cursor: self.info_cursor_index,
            command_cursor: self.command_cursor_index,
        }
    }
}

/// The kind of the cursor at `loc`: text fields take insertion points,
/// panels take lines.
pub open spec fn bound_of(loc: Location) -> BoundKind {
    match loc {
        Location::Search | Location::Command => BoundKind::Editing,
        Location::Paclist | Location::Pacinfo => BoundKind::Selection,
    }
}

/// The kind of the cursor at `loc`.
pub fn bound_kind(loc: &Location) -> (r: BoundKind)
    ensures
        r == bound_of(*loc),
{
    match loc {
        Location::Search | Location::Command => BoundKind::Editing,
        Location::Paclist | Location::Pacinfo => BoundKind::Selection,
    }
}

/// A projection that shows nothing: one empty line.
pub open spec fn blank() -> Seq<Seq<char>> {
    seq![Seq::empty()]
}

impl AppState {
    /// The package under the list cursor, if any package is displayed.
    pub open spec fn selected(self) -> Option<PackageView> {
        if self.displayed.len() > 0 {
            Some(self.packages[self.displayed[self.list_cursor as int] as int])
        } else {
            None
        }
    }

    /// What the list panel shows: the displayed names, or one empty line
    /// when there are none or a text is on display.
    pub open spec fn list_lines(self) -> Seq<Seq<char>> {
        if self.mode == Mode::Display || self.displayed.len() == 0 {
            blank()
        } else {
            self.displayed.map_values(|i: usize| self.packages[i as int].name)
        }
    }

    /// What the detail panel shows: the lines of the text on display, or the
    /// selected package's lines, or one empty line when nothing is selected.
    pub open spec fn info_lines(self) -> Seq<Seq<char>> {
        if self.mode == Mode::Display {
            lines_of(self.display_text)
        } else {
            match self.selected() {
                Some(p) => p.info,
                None => blank(),
            }
        }
    }

    /// Every displayed index addresses a package and the list cursor
    /// addresses a displayed one, or is 0.
    pub open spec fn indices_valid(self) -> bool {
        &&& forall|k: int|
            0 <= k < self.displayed.len() ==> #[trigger] self.displayed[k] < self.packages.len()
        &&& (self.list_cursor == 0 || self.list_cursor < self.displayed.len())
    }

    /// The invariant: the filter matches the search text, both projections
    /// are those of the current state, and every cursor is in range.
    pub open spec fn wf(self) -> bool {
        &&& self.displayed == filter_indices(self.packages, self.search)
        &&& self.indices_valid()
        &&& self.paclist == self.list_lines()
        &&& self.pacinfo == self.info_lines()
        &&& in_bounds(self.info_cursor as int, self.pacinfo.len() as int, BoundKind::Selection)
        &&& self.search_cursor <= self.search.len()
        &&& self.command_cursor <= self.command.len()
    }

    /// Both projections recomputed.
    pub open spec fn with_lists(self) -> AppState {
        AppState { paclist: self.list_lines(), pacinfo: self.info_lines(), ..self }
    }

    /// The filter recomputed for the search text, both cursors back at the
    /// top, and both projections recomputed.
    pub open spec fn refreshed(self) -> AppState {
        AppState {
            displayed: filter_indices(self.packages, self.search),
            list_cursor: 0,
            info_cursor: 0,
            ..self
        }.with_lists()
    }

    /// The position of the cursor at `loc`.
    pub open spec fn cursor_of(self, loc: Location) -> usize {
        match loc {
            Location::Search => self.search_cursor,
            Location::Paclist => self.list_cursor,
            Location::Pacinfo => self.info_cursor,
            Location::Command => self.command_cursor,
        }
    }

    /// The length of what the cursor at `loc` ranges over.
    pub open spec fn field_len(self, loc: Location) -> int {
        match loc {
            Location::Search => self.search.len() as int,
            Location::Paclist => self.paclist.len() as int,
            Location::Pacinfo => self.pacinfo.len() as int,
            Location::Command => self.command.len() as int,
        }
    }

    /// The detail cursor and its scroll mirror back at the top.
    pub open spec fn info_reset(self) -> AppState {
        AppState { info_cursor: 0, info_scroll: 0, ..self }
    }

    /// The cursor at `loc` put at `index`; a new list entry brings its own
    /// detail lines, shown from the top.
    pub open spec fn cursor_placed(self, loc: Location, index: usize) -> AppState {
        match loc {
            Location::Search => AppState { search_cursor: index, ..self },
            Location::Paclist => {
                let t = AppState { list_cursor: index, ..self };
                AppState { pacinfo: t.info_lines(), ..t }.info_reset()
            },
            Location::Pacinfo => AppState { info_cursor: index, ..self },
            Location::Command => AppState { command_cursor: index, ..self },
        }
    }

    /// The cursor at `loc` moved by `delta`, saturating at both ends.
    pub open spec fn cursor_moved(self, loc: Location, delta: int) -> AppState {
        self.cursor_placed(
            loc,
            moved(self.cursor_of(loc) as int, delta, self.field_len(loc), bound_of(loc)) as usize,
        )
    }

    /// The scroll mirror of `loc` set to its cursor.
    pub open spec fn scroll_synced(self, loc: Location) -> AppState {
        match loc {
            Location::Paclist => AppState { list_scroll: self.list_cursor, ..self },
            Location::Pacinfo => AppState { info_scroll: self.info_cursor, ..self },
            _ => self,
        }
    }

    /// A scroll of the panel at `loc` by `delta` lines.
    pub open spec fn scrolled(self, loc: Location, delta: int) -> AppState {
        self.cursor_moved(loc, delta).scroll_synced(loc)
    }

    /// The cursor at `loc` put at `target`, or at the nearest valid position,
    /// with its scroll mirror following.
    pub open spec fn jumped(self, loc: Location, target: int) -> AppState {
        self.cursor_placed(
            loc,
            clamped(target, upper_bound(bound_of(loc), self.field_len(loc))) as usize,
        ).scroll_synced(loc)
    }

    /// `c` typed at the cursor of the text field at `loc`; a new search text
    /// refreshes the filter.
    pub open spec fn char_added(self, c: char, loc: Location) -> AppState {
        match loc {
            Location::Search => AppState {
                search: self.search.insert(self.search_cursor as int, c),
                search_cursor: (self.search_cursor + 1) as usize,
                ..self
            }.refreshed(),
            Location::Command => AppState {
                command: self.command.insert(self.command_cursor as int, c),
                command_cursor: (self.command_cursor + 1) as usize,
                ..self
            },
            _ => self,
        }
    }

    /// The character before the cursor of the text field at `loc` removed,
    /// if there is one; a new search text refreshes the filter.
    pub open spec fn char_deleted(self, loc: Location) -> AppState {
        match loc {
            Location::Search => if self.search_cursor > 0 {
                AppState {
                    search: self.search.remove(self.search_cursor - 1),
                    search_cursor: (self.search_cursor - 1) as usize,
                    ..self
                }.refreshed()
            } else {
                self
            },
            Location::Command => if self.command_cursor > 0 {
                AppState {
                    command: self.command.remove(self.command_cursor - 1),
                    command_cursor: (self.command_cursor - 1) as usize,
                    ..self
                }
            } else {
                self
            },
            _ => self,
        }
    }

    /// The text field at `loc` emptied; an empty search text refreshes the filter.
    pub open spec fn cleared(self, loc: Location) -> AppState {
        match loc {
            Location::Search => AppState {
                search: Seq::empty(),
                search_cursor: 0,
                ..self
            }.refreshed(),
            Location::Command => AppState { command: Seq::empty(), command_cursor: 0, ..self },
            _ => self,
        }
    }

    /// The browser in `mode`, with its projections restored and the detail
    /// panel at the top.
    pub open spec fn display_left(self, mode: Mode) -> AppState {
        AppState { mode, ..self }.with_lists().info_reset()
    }

    /// `text` on display, shown from the top.
    pub open spec fn display_entered(self, text: Seq<char>) -> AppState {
        AppState { mode: Mode::Display, display_text: text, ..self }.with_lists().info_reset()
    }

    /// Command entry begun: the browser in command mode (out of display mode,
    /// if it was there) and the marker typed into the command field.
    pub open spec fn command_entered(self) -> AppState {
        let t = if self.mode == Mode::Display {
            self.display_left(Mode::Command)
        } else {
            AppState { mode: Mode::Command, ..self }
        };
        t.char_added(':', Location::Command)
    }

    /// The state in which the browser starts.
    pub open spec fn initial(config: ConfigToml, packages: Seq<PackageView>) -> AppState {
        AppState {
            mode: config.operation.starting_mode,
            config,
            packages,
            displayed: Seq::new(packages.len(), |i: int| i as usize),
            search: Seq::empty(),
            command: Seq::empty(),
            paclist: blank(),
            pacinfo: blank(),
            display_text: Seq::empty(),
            list_scroll: 0,
            info_scroll: 0,
            search_cursor: 0,
            list_cursor: 0,
            info_cursor: 0,
            command_cursor: 0,
        }.refreshed()
    }
}

/// Refreshing twice in a row with the same search text gives the same state
/// as refreshing once.
pub proof fn lemma_refresh_idempotent(s: AppState)
    ensures
        s.refreshed().refreshed() == s.refreshed(),
{
    let r = s.refreshed();
    assert(r.refreshed().paclist =~= r.paclist);
    assert(r.refreshed().pacinfo =~= r.pacinfo);
}

/// Refreshing a state whose text cursors are in range gives a state that
/// satisfies the invariant.
pub proof fn lemma_refreshed_wf(s: AppState)
    requires
        s.packages.len() <= usize::MAX,
        s.search_cursor <= s.search.len(),
        s.command_cursor <= s.command.len(),
    ensures
        s.refreshed().wf(),
{
    lemma_filter_exact(s.packages, s.search);
}

/// In every state that satisfies the invariant, the detail panel shows the
/// text on display in display mode, and otherwise the lines of the package
/// at the list cursor (one empty line when no package is displayed); the
/// list panel shows the displayed names.
pub proof fn lemma_projections_current(s: AppState)
    requires
        s.wf(),
    ensures
        s.mode == Mode::Display ==> s.pacinfo == lines_of(s.display_text),
        s.mode != Mode::Display && s.displayed.len() > 0 ==> s.list_cursor < s.displayed.len()
            && s.pacinfo == s.packages[s.displayed[s.list_cursor as int] as int].info,
        s.mode != Mode::Display && s.displayed.len() == 0 ==> s.pacinfo == blank(),
        s.mode != Mode::Display && s.displayed.len() > 0 ==> s.paclist.len() == s.displayed.len()
            && forall|k: int|
            0 <= k < s.displayed.len() ==> #[trigger] s.paclist[k]
                == s.packages[s.displayed[k] as int].name,
{
}

fn blank_lines() -> (r: Vec<String>)
    ensures
        views_of(r@) == blank(),
{
    let mut r: Vec<String> = Vec::new();
    r.push(String::new());
    assert(views_of(r@) =~= blank());
    r
}

impl App {
    /// Recomputes the list panel's lines.
    pub fn refresh_current_paclist(&mut self)
        requires
            old(self)@.indices_valid(),
        ensures
            final(self)@ == (AppState { paclist: old(self)@.list_lines(), ..old(self)@ }),
    {
        let ghost s = self@;
        if self.mode == Mode::Display || self.displayed_packages_indices.len() == 0 {
            self.current_paclist = blank_lines();
        } else {
            let mut names: Vec<String> = Vec::new();
            let mut k: usize = 0;
            while k < self.displayed_packages_indices.len()
                invariant
                    self@ == s,
                    s.indices_valid(),
                    k <= s.displayed.len(),
                    views_of(names@) == s.displayed.take(k as int).map_values(
                        |i: usize| s.packages[i as int].name,
                    ),
                decreases s.displayed.len() - k,
            {
                let i = self.displayed_packages_indices[k];
                assert(i < s.packages.len());
                let name = self.packages[i].name.clone();
                assert(name@ == s.packages[i as int].name);
                let ghost prev = names@;
                names.push(name);
                assert(views_of(names@) =~= views_of(prev).push(s.packages[i as int].name));
                assert(s.displayed.take(k + 1).map_values(|i: usize| s.packages[i as int].name)
                    =~= s.displayed.take(k as int).map_values(
                    |i: usize| s.packages[i as int].name,
                ).push(s.packages[i as int].name));
                k = k + 1;
            }
            assert(s.displayed.take(k as int) =~= s.displayed);
            self.current_paclist = names;
        }
        assert(self@.paclist =~= s.list_lines());
    }

    /// Recomputes the detail panel's lines.
    pub fn refresh_current_pacinfo(&mut self)
        requires
            old(self)@.indices_valid(),
        ensures
            final(self)@ == (AppState { pacinfo: old(self)@.info_lines(), ..old(self)@ }),
    {
        let ghost s = self@;
        if self.mode == Mode::Display {
            self.current_pacinfo = split_lines(self.display_text);
        } else if self.displayed_packages_indices.len() == 0 {
            self.current_pacinfo = blank_lines();
        } else {
            let p = self.displayed_packages_indices[self.list_cursor_index];
            let mut lines: Vec<String> = Vec::new();
            let mut k: usize = 0;
            while k < self.packages[p].info.len()
                invariant
                    self@ == s,
                    p < s.packages.len(),
                    k <= s.packages[p as int].info.len(),
                    views_of(lines@) == s.packages[p as int].info.take(k as int),
                decreases s.packages[p as int].info.len() - k,
            {
                let line = self.packages[p].info[k].clone();
                assert(line@ == s.packages[p as int].info[k as int]);
                let ghost prev = lines@;
                lines.push(line);
                assert(views_of(lines@) =~= views_of(prev).push(line@));
                assert(s.packages[p as int].info.take(k + 1) =~= s.packages[p as int].info.take(
                    k as int,
                ).push(line@));
                k = k + 1;
            }
            assert(s.packages[p as int].info.take(k as int) =~= s.packages[p as int].info);
            self.current_pacinfo = lines;
        }
        assert(self@.pacinfo =~= s.info_lines());
    }

    /// The package under the list cursor, if any package is displayed.
    pub fn selected_package(&self) -> (r: Option<&Package>)
        requires
            self@.indices_valid(),
        ensures
            match r {
                Some(p) => self@.selected() == Some(p@),
                None => self@.selected() is None,
            },
    {
        if self.displayed_packages_indices.len() > 0 {
            Some(&self.packages[self.displayed_packages_indices[self.list_cursor_index]])
        } else {
            None
        }
    }

    /// Recomputes the filter for the current search text, puts both cursors
    /// back at the top and recomputes both projections.
    pub fn refresh_search(&mut self)
        requires
            old(self).search_cursor_index <= old(self).current_search.len(),
            old(self).command_cursor_index <= old(self).current_command.len(),
        ensures
            final(self)@ == old(self)@.refreshed(),
            final(self)@.wf(),
    {
        assert(self.packages.len() <= usize::MAX);
        proof {
            lemma_refreshed_wf(self@);
        }
        self.list_cursor_index = 0;
        self.info_cursor_index = 0;
        self.displayed_packages_indices = matching_indices(&self.packages, &self.current_search);
        proof {
            lemma_filter_exact(self@.packages, self@.search);
        }
        self.refresh_current_paclist();
        self.refresh_current_pacinfo();
    }

    /// The browser over `packages`, in the configured starting mode, with
    /// every package displayed.
    pub fn new(config: ConfigToml, packages: Vec<Package>) -> (r: App)
        ensures
            r@ == AppState::initial(config, packages_view(packages@)),
            r@.wf(),
    {
        let mut all: Vec<usize> = Vec::new();
        let mut i: usize = 0;
        while i < packages.len()
            invariant
                i <= packages.len(),
                all@ == Seq::new(i as nat, |k: int| k as usize),
            decreases packages.len() - i,
        {
            all.push(i);
            assert(all@ =~= Seq::new((i + 1) as nat, |k: int| k as usize));
            i = i + 1;
        }
        let mut app = App {
            mode: config.operation.starting_mode,
            displayed_packages_indices: all,
            packages,
            current_search: Vec::new(),
            current_command: Vec::new(),
            current_paclist: blank_lines(),
            current_pacinfo: blank_lines(),
            display_text: "",
            list_scroll_position: 0,
            info_scroll_position: 0,
            search_cursor_index: 0,
            list_cursor_index: 0,
            info_cursor_index: 0,
            command_cursor_index: 0,
            config,
        };
        proof {
            reveal_strlit("");
        }
        assert(app@.display_text =~= Seq::<char>::empty());
        assert(app@.search =~= Seq::<char>::empty());
        assert(app@.command =~= Seq::<char>::empty());
        app.refresh_search();
        app
    }

    /// The position of the cursor at `location`.
    pub fn cursor_index(&self, location: &Location) -> (r: usize)
        ensures
            r == self@.cursor_of(*location),
    {
        match location {
            Location::Search => self.search_cursor_index,
            Location::Paclist => self.list_cursor_index,
            Location::Pacinfo => self.info_cursor_index,
            Location::Command => self.command_cursor_index,
        }
    }

    /// The length of what the cursor at `location` ranges over.
    pub fn field_len(&self, location: &Location) -> (r: usize)
        ensures
            r == self@.field_len(*location),
    {
        match location {
            Location::Search => self.current_search.len(),
            Location::Paclist => self.current_paclist.len(),
            Location::Pacinfo => self.current_pacinfo.len(),
            Location::Command => self.current_command.len(),
        }
    }

    /// Puts the detail cursor and its scroll mirror back at the top.
    pub fn reset_info_scroll(&mut self)
        ensures
            final(self)@ == old(self)@.info_reset(),
    {
        self.info_cursor_index = 0;
        self.update_scroll_state(&Location::Pacinfo);
    }

    fn update_scroll_state(&mut self, location: &Location)
        ensures
            final(self)@ == old(self)@.scroll_synced(*location),
    {
        match location {
            Location::Paclist => {
                self.list_scroll_position = self.list_cursor_index;
            },
            Location::Pacinfo => {
                self.info_scroll_position = self.info_cursor_index;
            },
            _ => {},
        }
    }

    fn set_cursor(&mut self, location: &Location, index: usize)
        requires
            old(self)@.wf(),
            in_bounds(index as int, old(self)@.field_len(*location), bound_of(*location)),
        ensures
            final(self)@ == old(self)@.cursor_placed(*location, index),
            final(self)@.wf(),
    {
        match location {
            Location::Search => {
                self.search_cursor_index = index;
            },
            Location::Paclist => {
                self.list_cursor_index = index;
                self.refresh_current_pacinfo();
                self.reset_info_scroll();
            },
            Location::Pacinfo => {
                self.info_cursor_index = index;
            },
            Location::Command => {
                self.command_cursor_index = index;
            },
        }
    }

    pub(crate) fn cursor_change(&mut self, location: &Location, change: i32) -> (r: usize)
        requires
            old(self)@.wf(),
        ensures
            final(self)@ == old(self)@.cursor_moved(*location, change as int),
            final(self)@.wf(),
            r == final(self)@.cursor_of(*location),
    {
        let index = move_cursor(
            self.cursor_index(location),
            change,
            self.field_len(location),
            bound_kind(location),
        );
        self.set_cursor(location, index);
        index
    }

    /// Moves the cursor at `location` one step forward, saturating at the end.
    pub fn cursor_inc(&mut self, location: &Location) -> (r: usize)
        requires
            old(self)@.wf(),
        ensures
            final(self)@ == old(self)@.cursor_moved(*location, 1),
            final(self)@.wf(),
            r == final(self)@.cursor_of(*location),
    {
        self.cursor_change(location, 1)
    }

    /// Moves the cursor at `location` one step back, saturating at 0.
    pub fn cursor_dec(&mut self, location: &Location) -> (r: usize)
        requires
            old(self)@.wf(),
        ensures
            final(self)@ == old(self)@.cursor_moved(*location, -1),
            final(self)@.wf(),
            r == final(self)@.cursor_of(*location),
    {
        self.cursor_change(location, -1)
    }

    /// Puts the cursor at `location` at `index`, or at the nearest valid
    /// position, and its scroll mirror with it.
    pub fn cursor_jump(&mut self, location: &Location, index: usize)
        requires
            old(self)@.wf(),
        ensures
            final(self)@ == old(self)@.jumped(*location, index as int),
            final(self)@.wf(),
    {
        let target = jump_cursor(index, self.field_len(location), bound_kind(location));
        self.set_cursor(location, target);
        self.update_scroll_state(location);
    }

    pub(crate) fn scroll(&mut self, pos_change: i32, location: &Location)
        requires
            old(self)@.wf(),
        ensures
            final(self)@ == old(self)@.scrolled(*location, pos_change as int),
            final(self)@.wf(),
    {
        self.cursor_change(location, pos_change);
        self.update_scroll_state(location);
    }

    /// Scrolls the panel at `location` ten lines down.
    pub fn scroll_down_fast(&mut self, location: &Location)
        requires
            old(self)@.wf(),
        ensures
            final(self)@ == old(self)@.scrolled(*location, 10),
            final(self)@.wf(),
    {
        self.scroll(10, location);
    }

    /// Scrolls the panel at `location` ten lines up.
    pub fn scroll_up_fast(&mut self, location: &Location)
        requires
            old(self)@.wf(),
        ensures
            final(self)@ == old(self)@.scrolled(*location, -10),
            final(self)@.wf(),
    {
        self.scroll(-10, location);
    }

    /// Scrolls the panel at `location` one line up.
    pub fn scroll_up(&mut self, location: &Location)
        requires
            old(self)@.wf(),
        ensures
            final(self)@ == old(self)@.scrolled(*location, -1),
            final(self)@.wf(),
    {
        self.scroll(-1, location);
    }

    /// Scrolls the panel at `location` one line down.
    pub fn scroll_down(&mut self, location: &Location)
        requires
            old(self)@.wf(),
        ensures
            final(self)@ == old(self)@.scrolled(*location, 1),
            final(self)@.wf(),
    {
        self.scroll(1, location);
    }

    /// Types `c` at the cursor of the text field at `location` and moves the
    /// cursor past it; a new search text refreshes the filter. Gives the new
    /// cursor position, or `None` where `location` is not a text field.
    pub fn add_char(&mut self, c: char, location: &Location) -> (r: Option<usize>)
        requires
            old(self)@.wf(),
        ensures
            final(self)@ == old(self)@.char_added(c, *location),
            final(self)@.wf(),
            r == (match *location {
                Location::Search | Location::Command => Some(final(self)@.cursor_of(*location)),
                _ => None::<usize>,
            }),
    {
        match location {
            Location::Search => {
                self.current_search.insert(self.search_cursor_index, c);
                assert(self.current_search.len() <= usize::MAX);
                self.search_cursor_index = self.search_cursor_index + 1;
                self.refresh_search();
                Some(self.search_cursor_index)
            },
            Location::Command => {
                self.current_command.insert(self.command_cursor_index, c);
                assert(self.current_command.len() <= usize::MAX);
                self.command_cursor_index = self.command_cursor_index + 1;
                Some(self.command_cursor_index)
            },
            _ => None,
        }
    }

    /// Removes the character before the cursor of the text field at
    /// `location` and moves the cursor back over it; a new search text
    /// refreshes the filter. Gives the new cursor position, or `None` where
    /// there is nothing to delete (the cursor is at 0) or `location` is not a
    /// text field; then nothing changes.
    pub fn delete_char(&mut self, location: Location) -> (r: Option<usize>)
        requires
            old(self)@.wf(),
        ensures
            final(self)@ == old(self)@.char_deleted(location),
            final(self)@.wf(),
            r == (match location {
                Location::Search | Location::Command => if old(self)@.cursor_of(location) > 0 {
                    Some(final(self)@.cursor_of(location))
                } else {
                    None
                },
                _ => None::<usize>,
            }),
    {
        match location {
            Location::Search => {
                if self.search_cursor_index > 0 {
                    self.current_search.remove(self.search_cursor_index - 1);
                    self.search_cursor_index = self.search_cursor_index - 1;
                    self.refresh_search();
                    Some(self.search_cursor_index)
                } else {
                    None
                }
            },
            Location::Command => {
                if self.command_cursor_index > 0 {
                    self.current_command.remove(self.command_cursor_index - 1);
                    self.command_cursor_index = self.command_cursor_index - 1;
                    Some(self.command_cursor_index)
                } else {
                    None
                }
            },
            _ => None,
        }
    }

    /// Empties the text field at `location`; an empty search text refreshes
    /// the filter.
    pub fn clear(&mut self, location: Location)
        requires
            old(self)@.wf(),
        ensures
            final(self)@ == old(self)@.cleared(location),
            final(self)@.wf(),
    {
        match location {
            Location::Search => {
                self.current_search = Vec::new();
                self.search_cursor_index = 0;
                self.refresh_search();
            },
            Location::Command => {
                self.current_command = Vec::new();
                self.command_cursor_index = 0;
            },
            _ => {},
        }
    }

    /// Puts `text` on display in the detail panel, shown from the top.
    pub fn goto_display_mode(&mut self, text: &'static str)
        requires
            old(self)@.wf(),
        ensures
            final(self)@ == old(self)@.display_entered(text@),
            final(self)@.wf(),
    {
        self.mode = Mode::Display;
        self.display_text = text;
        self.refresh_current_paclist();
        self.refresh_current_pacinfo();
        self.reset_info_scroll();
    }

    /// Switches to `new_mode`, restoring the package projections with the
    /// detail panel at the top.
    pub fn leave_display_mode(&mut self, new_mode: Mode)
        requires
            old(self)@.wf(),
        ensures
            final(self)@ == old(self)@.display_left(new_mode),
            final(self)@.wf(),
    {
        self.mode = new_mode;
        self.refresh_current_paclist();
        self.refresh_current_pacinfo();
        self.reset_info_scroll();
    }

    /// Begins command entry: command mode, leaving display mode if the
    /// browser is in it, with the marker typed into the command field.
    pub fn goto_command_mode(&mut self)
        requires
            old(self)@.wf(),
        ensures
            final(self)@ == old(self)@.command_entered(),
            final(self)@.wf(),
    {
        if self.mode == Mode::Display {
            self.leave_display_mode(Mode::Command);
        } else {
            self.mode = Mode::Command;
        }
        self.add_char(':', &Location::Command);
    }

    /// The list panel's lines, one per line: what printing the list writes.
    pub fn package_list_text(&self) -> (r: String)
        ensures
            r@ == joined(self@.paclist),
    {
        join_lines(&self.current_paclist)
    }
}

} // verus!
