//! The state of the dashboard, and what keys and commands do to it.

use vstd::prelude::*;
use crate::text::chars::{owned, same_text};
use crate::text::decimal::{decimal, decimal_text};
use crate::text::search::{strip_start, trimmed};
use crate::tui::page::Page;
use crate::tui::snapshot::Snapshot;

verus! {

/// `String::pop` removes the last character, where there is one.
pub assume_specification[ String::pop ](s: &mut String) -> (r: Option<char>)
    ensures
        old(s)@.len() == 0 ==> r is None && final(s)@ == old(s)@,
        old(s)@.len() > 0 ==> r == Some(old(s)@.last()) && final(s)@ == old(s)@.drop_last(),
;

/// What typed characters go to.
#[derive(Clone, Copy, Debug, PartialEq, Eq, Structural)]
pub enum InputMode {
    Normal,
    Search,
    Command,
}

/// A key.
#[derive(Clone, Copy, Debug, PartialEq, Eq, Structural)]
pub enum KeyCode {
    Esc,
    Enter,
    Backspace,
    Tab,
    BackTab,
    Left,
    Right,
    Up,
    Down,
    Char(char),
    Other,
}

/// A key that was pressed, and whether control was held.
#[derive(Clone, Copy, Debug, PartialEq, Eq, Structural)]
pub struct Key {
    pub code: KeyCode,
    pub control: bool,
}

/// What a command asks for.
pub ghost enum Command {
    Nothing,
    Quit,
    Refresh,
    Go(Page),
    Find(Seq<char>),
    Unknown(Seq<char>),
}

/// Whether a text starts with another.
pub open spec fn starts_with(s: Seq<char>, prefix: Seq<char>) -> bool {
    prefix.len() <= s.len() && s.take(prefix.len() as int) == prefix
}

/// What a command asks for, once the space around it is gone.
pub open spec fn command_of(text: Seq<char>) -> Command {
    if text == ""@ {
        Command::Nothing
    } else if text == "q"@ || text == "quit"@ || text == "exit"@ {
        Command::Quit
    } else if text == "r"@ || text == "refresh"@ {
        Command::Refresh
    } else if text == "overview"@ || text == "o"@ {
        Command::Go(Page::Overview)
    } else if text == "gateway"@ || text == "gw"@ {
        Command::Go(Page::Gateway)
    } else if text == "guilds"@ || text == "g"@ {
        Command::Go(Page::Guilds)
    } else if text == "users"@ || text == "u"@ {
        Command::Go(Page::Users)
    } else if text == "events"@ || text == "e"@ {
        Command::Go(Page::Events)
    } else if text == "env"@ {
        Command::Go(Page::Env)
    } else if text == "actions"@ || text == "a"@ {
        Command::Go(Page::Actions)
    } else if starts_with(text, "find "@) {
        Command::Find(trimmed(text.skip("find "@.len() as int)))
    } else {
        Command::Unknown(text)
    }
}

/// The state of the dashboard.
#[derive(Debug, PartialEq)]
pub struct App {
    pub view: Page,
    pub snapshot: Snapshot,
    pub search: String,
    pub command: String,
    pub mode: InputMode,
    pub status: String,
    pub selected: usize,
    pub should_quit: bool,
}

/// What keys and commands change of an [`App`].
#[verifier::ext_equal]
pub ghost struct AppView {
    pub view: Page,
    pub search: Seq<char>,
    pub command: Seq<char>,
    pub mode: InputMode,
    pub status: Seq<char>,
    pub selected: usize,
    pub should_quit: bool,
}

impl View for App {
    type V = AppView;

    open spec fn view(&self) -> AppView {
        AppView {
            view: self.view,
            search: self.search@,
            command: self.command@,
            mode: self.mode,
            status: self.status@,
            selected: self.selected,
            should_quit: self.should_quit,
        }
    }
}

impl AppView {
    /// On another page, with the first entry selected.
    pub open spec fn turned(self, page: Page) -> AppView {
        AppView { view: page, selected: 0, ..self }
    }

    /// With the command carried out.
    pub open spec fn commanded(self) -> AppView {
        let done = AppView { command: Seq::empty(), mode: InputMode::Normal, ..self };
        match command_of(trimmed(self.command)) {
            Command::Nothing => done,
            Command::Quit => AppView { should_quit: true, ..done },
            Command::Refresh => AppView { status: "refresh requested"@, ..done },
            Command::Go(page) => AppView { view: page, ..done },
            Command::Find(text) => AppView {
                search: text,
                status: "searching for '"@ + text + "'"@,
                ..done
            },
            Command::Unknown(text) => AppView { status: "unknown command: "@ + text, ..done },
        }
    }

    /// With a key pressed while the search is typed.
    pub open spec fn search_key(self, code: KeyCode) -> AppView {
        match code {
            KeyCode::Esc => AppView { mode: InputMode::Normal, ..self },
            KeyCode::Enter => AppView { mode: InputMode::Normal, ..self },
            KeyCode::Backspace => AppView { search: shortened(self.search), ..self },
            KeyCode::Char(c) => AppView { search: self.search.push(c), ..self },
            _ => self,
        }
    }

    /// With a key pressed while a command is typed.
    pub open spec fn command_key(self, code: KeyCode) -> AppView {
        match code {
            KeyCode::Esc => AppView { command: Seq::empty(), mode: InputMode::Normal, ..self },
            KeyCode::Enter => self.commanded(),
            KeyCode::Backspace => AppView { command: shortened(self.command), ..self },
            KeyCode::Char(c) => AppView { command: self.command.push(c), ..self },
            _ => self,
        }
    }

    /// With a key pressed while nothing is typed.
    pub open spec fn normal_key(self, code: KeyCode) -> AppView {
        match code {
            KeyCode::Char('q') => AppView { should_quit: true, ..self },
            KeyCode::Char('/') => AppView { mode: InputMode::Search, ..self },
            KeyCode::Char(':') => AppView { mode: InputMode::Command, ..self },
            KeyCode::Char('r') => AppView { status: "refresh requested"@, ..self },
            KeyCode::Tab => self.turned(self.view.following()),
            KeyCode::Right => self.turned(self.view.following()),
            KeyCode::BackTab => self.turned(self.view.preceding()),
            KeyCode::Left => self.turned(self.view.preceding()),
            KeyCode::Char('1') => AppView { view: Page::Overview, ..self },
            KeyCode::Char('2') => AppView { view: Page::Gateway, ..self },
            KeyCode::Char('3') => AppView { view: Page::Guilds, ..self },
            KeyCode::Char('4') => AppView { view: Page::Users, ..self },
            KeyCode::Char('5') => AppView { view: Page::Events, ..self },
            KeyCode::Char('6') => AppView { view: Page::Env, ..self },
            KeyCode::Char('7') => AppView { view: Page::Actions, ..self },
            KeyCode::Down => AppView {
                selected: if self.selected == usize::MAX {
                    usize::MAX
                } else {
                    (self.selected + 1) as usize
                },
                ..self
            },
            KeyCode::Up => AppView {
                selected: if self.selected == 0 {
                    0
                } else {
                    (self.selected - 1) as usize
                },
                ..self
            },
            _ => self,
        }
    }

    /// With a key pressed. Control with `c` leaves the dashboard from anywhere.
    pub open spec fn pressed(self, key: Key) -> AppView {
        if key.control && key.code == KeyCode::Char('c') {
            AppView { should_quit: true, ..self }
        } else {
            match self.mode {
                InputMode::Search => self.search_key(key.code),
                InputMode::Command => self.command_key(key.code),
                InputMode::Normal => self.normal_key(key.code),
            }
        }
    }

    /// The text at the foot of the dashboard, `age` seconds after the last look.
    pub open spec fn footer(self, age: nat) -> Seq<char> {
        match self.mode {
            InputMode::Normal => self.status + " | search='"@ + self.search + "' | updated "@
                + decimal(age) + "s ago"@,
            InputMode::Search => "/"@ + self.search,
            InputMode::Command => ":"@ + self.command,
        }
    }
}

/// A text without its last character.
pub open spec fn shortened(s: Seq<char>) -> Seq<char> {
    if s.len() == 0 {
        s
    } else {
        s.drop_last()
    }
}

/// Whether a text is one of two.
fn either(text: &str, a: &str, b: &str) -> (r: bool)
    ensures
        r == (text@ == a@ || text@ == b@),
{
    same_text(text, a) || same_text(text, b)
}

impl App {
    /// The dashboard as it starts.
    pub fn new(snapshot: Snapshot) -> (r: Self)
        ensures
            r@ == (AppView {
                view: Page::Overview,
                search: Seq::empty(),
                command: Seq::empty(),
                mode: InputMode::Normal,
                status: "r refresh | / search | : command | tab switch | q quit"@,
                selected: 0,
                should_quit: false,
            }),
            r.snapshot == snapshot,
    {
        App {
            view: Page::Overview,
            snapshot,
            search: String::new(),
            command: String::new(),
            mode: InputMode::Normal,
            status: owned("r refresh | / search | : command | tab switch | q quit"),
            selected: 0,
            should_quit: false,
        }
    }

    /// Turns to the next page.
    pub fn next_view(&mut self)
        ensures
            final(self)@ == old(self)@.turned(old(self)@.view.following()),
            final(self).snapshot == old(self).snapshot,
    {
        self.view = self.view.next();
        self.selected = 0;
    }

    /// Turns to the page before.
    pub fn prev_view(&mut self)
        ensures
            final(self)@ == old(self)@.turned(old(self)@.view.preceding()),
            final(self).snapshot == old(self).snapshot,
    {
        self.view = self.view.prev();
        self.selected = 0;
    }

    /// Carries the typed command out.
    pub fn apply_command(&mut self)
        ensures
            final(self)@ == old(self)@.commanded(),
            final(self).snapshot == old(self).snapshot,
    {
        let command: String = self.command.as_str().trim().to_owned();
        self.command = String::new();
        self.mode = InputMode::Normal;
        let text: &str = command.as_str();
        if same_text(text, "") {
        } else if either(text, "q", "quit") || same_text(text, "exit") {
            self.should_quit = true;
        } else if either(text, "r", "refresh") {
            self.status = owned("refresh requested");
        } else if either(text, "overview", "o") {
            self.view = Page::Overview;
        } else if either(text, "gateway", "gw") {
            self.view = Page::Gateway;
        } else if either(text, "guilds", "g") {
            self.view = Page::Guilds;
        } else if either(text, "users", "u") {
            self.view = Page::Users;
        } else if either(text, "events", "e") {
            self.view = Page::Events;
        } else if same_text(text, "env") {
            self.view = Page::Env;
        } else if either(text, "actions", "a") {
            self.view = Page::Actions;
        } else if let Some(rest) = strip_start(text, "find ") {
            self.search = rest.as_str().trim().to_owned();
            let mut status: String = owned("searching for '");
            status.append(self.search.as_str());
            status.append("'");
            self.status = status;
        } else {
            self.status = owned("unknown command: ").concat(text);
        }
        assert(self@ =~= old(self)@.commanded());
    }

    /// Takes a key in.
    pub fn handle_key(&mut self, key: Key)
        ensures
            final(self)@ == old(self)@.pressed(key),
            final(self).snapshot == old(self).snapshot,
    {
        if key.control && key.code == KeyCode::Char('c') {
            self.should_quit = true;
            return;
        }
        match self.mode {
            InputMode::Search => match key.code {
                KeyCode::Esc => self.mode = InputMode::Normal,
                KeyCode::Enter => self.mode = InputMode::Normal,
                KeyCode::Backspace => {
                    let mut text: String = self.search.clone();
                    let _ = text.pop();
                    self.search = text;
                },
                KeyCode::Char(c) => {
                    let mut text: String = self.search.clone();
                    text.push(c);
                    self.search = text;
                },
                _ => {},
            },
            InputMode::Command => match key.code {
                KeyCode::Esc => {
                    self.command = String::new();
                    self.mode = InputMode::Normal;
                },
                KeyCode::Enter => self.apply_command(),
                KeyCode::Backspace => {
                    let mut text: String = self.command.clone();
                    let _ = text.pop();
                    self.command = text;
                },
                KeyCode::Char(c) => {
                    let mut text: String = self.command.clone();
                    text.push(c);
                    self.command = text;
                },
                _ => {},
            },
            InputMode::Normal => match key.code {
                KeyCode::Char('q') => self.should_quit = true,
                KeyCode::Char('/') => self.mode = InputMode::Search,
                KeyCode::Char(':') => self.mode = InputMode::Command,
                KeyCode::Char('r') => self.status = owned("refresh requested"),
                KeyCode::Tab => self.next_view(),
                KeyCode::Right => self.next_view(),
                KeyCode::BackTab => self.prev_view(),
                KeyCode::Left => self.prev_view(),
                KeyCode::Char('1') => self.view = Page::Overview,
                KeyCode::Char('2') => self.view = Page::Gateway,
                KeyCode::Char('3') => self.view = Page::Guilds,
                KeyCode::Char('4') => self.view = Page::Users,
                KeyCode::Char('5') => self.view = Page::Events,
                KeyCode::Char('6') => self.view = Page::Env,
                KeyCode::Char('7') => self.view = Page::Actions,
                KeyCode::Down => self.selected = self.selected.saturating_add(1),
                KeyCode::Up => self.selected = self.selected.saturating_sub(1),
                _ => {},
            },
        }
        assert(self@ =~= old(self)@.pressed(key));
    }

    /// Whether a look at the service was asked for.
    pub fn wants_refresh(&self) -> (r: bool)
        ensures
            r == (self@.status == "refresh requested"@),
    {
        same_text(self.status.as_str(), "refresh requested")
    }

    /// Whether it is time for a look at the service, `age` seconds after the last.
    pub fn refresh_is_due(age: u64) -> (r: bool)
        ensures
            r == (age >= 5),
    {
        age >= 5
    }

    /// Takes in what a look at the service has shown; `asked` tells whether it was asked for.
    pub fn refreshed(&mut self, outcome: Result<Snapshot, String>, asked: bool)
        ensures
            match outcome {
                Ok(snapshot) => {
                    &&& final(self).snapshot == snapshot
                    &&& final(self)@ == (AppView {
                        status: if asked {
                            "refreshed"@
                        } else {
                            "auto-refreshed"@
                        },
                        ..old(self)@
                    })
                },
                Err(e) => {
                    &&& final(self).snapshot == old(self).snapshot
                    &&& final(self)@ == (AppView {
                        status: "refresh failed: "@ + e@,
                        ..old(self)@
                    })
                },
            },
    {
        match outcome {
            Ok(snapshot) => {
                self.snapshot = snapshot;
                self.status = if asked {
                    owned("refreshed")
                } else {
                    owned("auto-refreshed")
                };
            },
            Err(e) => {
                self.status = owned("refresh failed: ").concat(e.as_str());
            },
        }
    }

    /// The text at the foot of the dashboard, `age` seconds after the last look.
    pub fn footer_text(&self, age: u64) -> (r: String)
        ensures
            r@ == self@.footer(age as nat),
    {
        match self.mode {
            InputMode::Normal => {
                let seconds: String = decimal_text(age as u128);
                let mut text: String = self.status.clone();
                text.append(" | search='");
                text.append(self.search.as_str());
                text.append("' | updated ");
                text.append(seconds.as_str());
                text.append("s ago");
                text
            },
            InputMode::Search => owned("/").concat(self.search.as_str()),
            InputMode::Command => owned(":").concat(self.command.as_str()),
        }
    }
}

/// A character that is typed and taken back leaves the dashboard as it was.
pub proof fn lemma_typing_undone(app: AppView, c: char)
    requires
        app.mode != InputMode::Normal,
    ensures
        app.pressed(Key { code: KeyCode::Char(c), control: false }).pressed(
            Key { code: KeyCode::Backspace, control: false },
        ) == app,
{
    assert(app.search.push(c).drop_last() =~= app.search);
    assert(app.command.push(c).drop_last() =~= app.command);
}

/// Turning a page on and back leads to the page where it started.
pub proof fn lemma_turning_undone(app: AppView)
    requires
        app.mode == InputMode::Normal,
    ensures
        app.pressed(Key { code: KeyCode::Right, control: false }).pressed(
            Key { code: KeyCode::Left, control: false },
        ).view == app.view,
{
}

/// Once the dashboard is to be left, no key keeps it open.
pub proof fn lemma_quitting_stays(app: AppView, key: Key)
    requires
        app.should_quit,
    ensures
        app.pressed(key).should_quit,
{
}

} // verus!
