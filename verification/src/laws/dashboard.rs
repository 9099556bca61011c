//! What keys and commands do to the dashboard, whatever it shows.

use vstd::prelude::*;
use crate::laws::texts::{blank, lemma_space_dropped};
use crate::text::decimal::decimal;
use crate::text::search::is_white_space;
use crate::tui::dashboard::{command_of, AppView, Command, InputMode, Key, KeyCode};
use crate::tui::page::Page;

verus! {

/// A key that is pressed by itself.
pub open spec fn plain(code: KeyCode) -> Key {
    Key { code, control: false }
}

/// A dashboard in which nothing is typed.
pub open spec fn idle(app: AppView) -> bool {
    app.mode == InputMode::Normal
}

/// The pages stand in one order, around which the arrows and tab lead.
pub proof fn lemma_page_order()
    ensures
        Page::Overview.following() == Page::Gateway,
        Page::Gateway.following() == Page::Guilds,
        Page::Guilds.following() == Page::Users,
        Page::Users.following() == Page::Events,
        Page::Events.following() == Page::Env,
        Page::Env.following() == Page::Actions,
        Page::Actions.following() == Page::Overview,
        forall|page: Page| #[trigger] page.following().preceding() == page,
        forall|page: Page| #[trigger] page.preceding().following() == page,
{
}

/// Each page is labelled with its number, counted from one, and its title.
pub proof fn lemma_page_labels()
    ensures
        Page::at(0).label() == " 1 Overview"@,
        Page::at(1).label() == " 2 Gateway"@,
        Page::at(2).label() == " 3 Guilds"@,
        Page::at(3).label() == " 4 Users"@,
        Page::at(4).label() == " 5 Events"@,
        Page::at(5).label() == " 6 Env"@,
        Page::at(6).label() == " 7 Actions"@,
        Page::count() == 7,
{
    reveal_strlit(" ");
    reveal_strlit("Overview");
    reveal_strlit("Gateway");
    reveal_strlit("Guilds");
    reveal_strlit("Users");
    reveal_strlit("Events");
    reveal_strlit("Env");
    reveal_strlit("Actions");
    reveal_strlit(" 1 Overview");
    reveal_strlit(" 2 Gateway");
    reveal_strlit(" 3 Guilds");
    reveal_strlit(" 4 Users");
    reveal_strlit(" 5 Events");
    reveal_strlit(" 6 Env");
    reveal_strlit(" 7 Actions");
    assert(Page::at(0).label() =~= " 1 Overview"@);
    assert(Page::at(1).label() =~= " 2 Gateway"@);
    assert(Page::at(2).label() =~= " 3 Guilds"@);
    assert(Page::at(3).label() =~= " 4 Users"@);
    assert(Page::at(4).label() =~= " 5 Events"@);
    assert(Page::at(5).label() =~= " 6 Env"@);
    assert(Page::at(6).label() =~= " 7 Actions"@);
}

/// A digit leads to the page that is labelled with it, and leaves everything else as it is.
pub proof fn lemma_digits_lead(app: AppView)
    requires
        idle(app),
    ensures
        app.pressed(plain(KeyCode::Char('1'))) == (AppView { view: Page::Overview, ..app }),
        app.pressed(plain(KeyCode::Char('2'))) == (AppView { view: Page::Gateway, ..app }),
        app.pressed(plain(KeyCode::Char('3'))) == (AppView { view: Page::Guilds, ..app }),
        app.pressed(plain(KeyCode::Char('4'))) == (AppView { view: Page::Users, ..app }),
        app.pressed(plain(KeyCode::Char('5'))) == (AppView { view: Page::Events, ..app }),
        app.pressed(plain(KeyCode::Char('6'))) == (AppView { view: Page::Env, ..app }),
        app.pressed(plain(KeyCode::Char('7'))) == (AppView { view: Page::Actions, ..app }),
{
}

/// Tab and right lead to the page behind, back tab and left to the one before; either way the
/// first entry is selected, and nothing else changes.
pub proof fn lemma_arrows_lead(app: AppView)
    requires
        idle(app),
    ensures
        ({
            let on = app.pressed(plain(KeyCode::Right));
            let back = app.pressed(plain(KeyCode::Left));
            &&& on == app.pressed(plain(KeyCode::Tab))
            &&& back == app.pressed(plain(KeyCode::BackTab))
            &&& on == (AppView { view: app.view.following(), selected: 0, ..app })
            &&& back == (AppView { view: app.view.preceding(), selected: 0, ..app })
        }),
{
}

/// Down selects the entry behind and up the one before, as far as there are numbers for them;
/// down and up again selects the same.
pub proof fn lemma_selection_moves(app: AppView)
    requires
        idle(app),
    ensures
        ({
            let down = app.pressed(plain(KeyCode::Down));
            let up = app.pressed(plain(KeyCode::Up));
            &&& down == (AppView { selected: down.selected, ..app })
            &&& up == (AppView { selected: up.selected, ..app })
            &&& app.selected < usize::MAX ==> down.selected == app.selected + 1
            &&& app.selected > 0 ==> up.selected == app.selected - 1
            &&& app.selected == usize::MAX ==> down == app
            &&& app.selected == 0 ==> up == app
            &&& app.selected < usize::MAX ==> down.pressed(plain(KeyCode::Up)) == app
        }),
{
}

/// The other keys that mean something while nothing is typed: each does one thing.
pub proof fn lemma_letters_do(app: AppView, c: char)
    requires
        idle(app),
        !('1' <= c && c <= '7'),
    ensures
        app.pressed(plain(KeyCode::Char(c))) == if c == 'q' {
            AppView { should_quit: true, ..app }
        } else if c == 'r' {
            AppView { status: "refresh requested"@, ..app }
        } else if c == '/' {
            AppView { mode: InputMode::Search, ..app }
        } else if c == ':' {
            AppView { mode: InputMode::Command, ..app }
        } else {
            app
        },
        app.pressed(plain(KeyCode::Esc)) == app,
        app.pressed(plain(KeyCode::Enter)) == app,
        app.pressed(plain(KeyCode::Backspace)) == app,
        app.pressed(plain(KeyCode::Other)) == app,
{
}

/// With control held, `c` leaves the dashboard, whatever is typed, and nothing else changes.
pub proof fn lemma_control_c_leaves(app: AppView)
    ensures
        app.pressed(Key { code: KeyCode::Char('c'), control: true }) == (AppView {
            should_quit: true,
            ..app
        }),
{
}

/// The dashboard after a text was typed, character by character.
pub open spec fn after_typing(app: AppView, text: Seq<char>) -> AppView
    decreases text.len(),
{
    if text.len() == 0 {
        app
    } else {
        after_typing(app, text.drop_last()).pressed(plain(KeyCode::Char(text.last())))
    }
}

/// What is typed is taken up as it is typed, behind what was there, for as long as the search or
/// the command is typed; nothing else changes.
pub proof fn lemma_typed_is_taken(app: AppView, text: Seq<char>)
    ensures
        app.mode == InputMode::Search ==> after_typing(app, text) == (AppView {
            search: app.search + text,
            ..app
        }),
        app.mode == InputMode::Command ==> after_typing(app, text) == (AppView {
            command: app.command + text,
            ..app
        }),
    decreases text.len(),
{
    if text.len() > 0 {
        lemma_typed_is_taken(app, text.drop_last());
        let t = text.drop_last();
        assert(app.search + text =~= (app.search + t).push(text.last()));
        assert(app.command + text =~= (app.command + t).push(text.last()));
    } else {
        assert(app.search + text =~= app.search);
        assert(app.command + text =~= app.command);
    }
}

/// A search that is typed after a slash and ended is the search, and the pages show it at once;
/// leaving it by escape keeps it as well. A command that is left by escape is forgotten.
pub proof fn lemma_typing_ends(app: AppView)
    ensures
        app.mode == InputMode::Search ==> app.pressed(plain(KeyCode::Enter)) == (AppView {
            mode: InputMode::Normal,
            ..app
        }),
        app.mode == InputMode::Search ==> app.pressed(plain(KeyCode::Esc)) == (AppView {
            mode: InputMode::Normal,
            ..app
        }),
        app.mode == InputMode::Command ==> app.pressed(plain(KeyCode::Esc)) == (AppView {
            mode: InputMode::Normal,
            command: Seq::empty(),
            ..app
        }),
        app.mode == InputMode::Search && app.search.len() == 0 ==> app.pressed(
            plain(KeyCode::Backspace),
        ) == app,
        app.mode == InputMode::Command && app.command.len() == 0 ==> app.pressed(
            plain(KeyCode::Backspace),
        ) == app,
{
}

/// The texts that name commands are all different from each other.
proof fn lemma_command_names()
    ensures
        command_of(""@) == Command::Nothing,
        command_of("q"@) == Command::Quit,
        command_of("quit"@) == Command::Quit,
        command_of("exit"@) == Command::Quit,
        command_of("r"@) == Command::Refresh,
        command_of("refresh"@) == Command::Refresh,
        command_of("overview"@) == Command::Go(Page::Overview),
        command_of("o"@) == Command::Go(Page::Overview),
        command_of("gateway"@) == Command::Go(Page::Gateway),
        command_of("gw"@) == Command::Go(Page::Gateway),
        command_of("guilds"@) == Command::Go(Page::Guilds),
        command_of("g"@) == Command::Go(Page::Guilds),
        command_of("users"@) == Command::Go(Page::Users),
        command_of("u"@) == Command::Go(Page::Users),
        command_of("events"@) == Command::Go(Page::Events),
        command_of("e"@) == Command::Go(Page::Events),
        command_of("env"@) == Command::Go(Page::Env),
        command_of("actions"@) == Command::Go(Page::Actions),
        command_of("a"@) == Command::Go(Page::Actions),
{
    reveal_strlit("");
    reveal_strlit("q");
    reveal_strlit("quit");
    reveal_strlit("exit");
    reveal_strlit("r");
    reveal_strlit("refresh");
    reveal_strlit("overview");
    reveal_strlit("o");
    reveal_strlit("gateway");
    reveal_strlit("gw");
    reveal_strlit("guilds");
    reveal_strlit("g");
    reveal_strlit("users");
    reveal_strlit("u");
    reveal_strlit("events");
    reveal_strlit("e");
    reveal_strlit("env");
    reveal_strlit("actions");
    reveal_strlit("a");
    assert(""@.len() == 0);
    assert("q"@.len() == 1);
    assert("quit"@.len() == 4);
    assert("exit"@.len() == 4);
    assert("r"@.len() == 1);
    assert("refresh"@.len() == 7);
    assert("overview"@.len() == 8);
    assert("o"@.len() == 1);
    assert("gateway"@.len() == 7);
    assert("gw"@.len() == 2);
    assert("guilds"@.len() == 6);
    assert("g"@.len() == 1);
    assert("users"@.len() == 5);
    assert("u"@.len() == 1);
    assert("events"@.len() == 6);
    assert("e"@.len() == 1);
    assert("env"@.len() == 3);
    assert("actions"@.len() == 7);
    assert("a"@.len() == 1);
    assert("q"@[0] != "r"@[0]);
    assert("q"@[0] != "o"@[0]);
    assert("q"@[0] != "g"@[0]);
    assert("q"@[0] != "u"@[0]);
    assert("q"@[0] != "e"@[0]);
    assert("q"@[0] != "a"@[0]);
    assert("quit"@[0] != "exit"@[0]);
    assert("r"@[0] != "o"@[0]);
    assert("r"@[0] != "g"@[0]);
    assert("r"@[0] != "u"@[0]);
    assert("r"@[0] != "e"@[0]);
    assert("r"@[0] != "a"@[0]);
    assert("refresh"@[0] != "gateway"@[0]);
    assert("refresh"@[0] != "actions"@[0]);
    assert("o"@[0] != "g"@[0]);
    assert("o"@[0] != "u"@[0]);
    assert("o"@[0] != "e"@[0]);
    assert("o"@[0] != "a"@[0]);
    assert("gateway"@[0] != "actions"@[0]);
    assert("guilds"@[0] != "events"@[0]);
    assert("g"@[0] != "u"@[0]);
    assert("g"@[0] != "e"@[0]);
    assert("g"@[0] != "a"@[0]);
    assert("u"@[0] != "e"@[0]);
    assert("u"@[0] != "a"@[0]);
    assert("e"@[0] != "a"@[0]);
}

/// Whether a text is the name of a command.
pub open spec fn names_command(text: Seq<char>) -> bool {
    ||| text == ""@ || text == "q"@ || text == "quit"@ || text == "exit"@
    ||| text == "r"@ || text == "refresh"@
    ||| text == "overview"@ || text == "o"@ || text == "gateway"@ || text == "gw"@
    ||| text == "guilds"@ || text == "g"@ || text == "users"@ || text == "u"@
    ||| text == "events"@ || text == "e"@ || text == "env"@
    ||| text == "actions"@ || text == "a"@
}

/// Whether a dashboard has a command typed, with whatever white space around it.
pub open spec fn has_typed(app: AppView, a: Seq<char>, text: Seq<char>, b: Seq<char>) -> bool {
    &&& app.mode == InputMode::Command
    &&& app.command == a + text + b
    &&& blank(a)
    &&& blank(b)
    &&& text.len() > 0 ==> !is_white_space(text[0]) && !is_white_space(text.last())
}

/// The dashboard once what was typed is gone.
pub open spec fn done(app: AppView) -> AppView {
    AppView { command: Seq::empty(), mode: InputMode::Normal, ..app }
}

/// What every command does once it is entered, whatever white space is around it: those that
/// name a page lead there, those that leave leave, and one without a name does nothing.
pub proof fn lemma_commands_do(app: AppView, a: Seq<char>, text: Seq<char>, b: Seq<char>)
    requires
        has_typed(app, a, text, b),
    ensures
        ({
            let next = app.pressed(plain(KeyCode::Enter));
            let gone = done(app);
            &&& text == ""@ ==> next == gone
            &&& text == "q"@ || text == "quit"@ || text == "exit"@ ==> next == (AppView {
                should_quit: true,
                ..gone
            })
            &&& text == "r"@ || text == "refresh"@ ==> next == (AppView {
                status: "refresh requested"@,
                ..gone
            })
            &&& text == "overview"@ || text == "o"@ ==> next == (AppView {
                view: Page::Overview,
                ..gone
            })
            &&& text == "gateway"@ || text == "gw"@ ==> next == (AppView {
                view: Page::Gateway,
                ..gone
            })
            &&& text == "guilds"@ || text == "g"@ ==> next == (AppView {
                view: Page::Guilds,
                ..gone
            })
            &&& text == "users"@ || text == "u"@ ==> next == (AppView {
                view: Page::Users,
                ..gone
            })
            &&& text == "events"@ || text == "e"@ ==> next == (AppView {
                view: Page::Events,
                ..gone
            })
            &&& text == "env"@ ==> next == (AppView { view: Page::Env, ..gone })
            &&& text == "actions"@ || text == "a"@ ==> next == (AppView {
                view: Page::Actions,
                ..gone
            })
        }),
{
    lemma_space_dropped(a, text, b);
    lemma_command_names();
}

/// A command that starts with `find` and a space searches for what follows, without the white
/// space around that, and says so.
pub proof fn lemma_find_searches(
    app: AppView,
    a: Seq<char>,
    inner: Seq<char>,
    sought: Seq<char>,
    b: Seq<char>,
)
    requires
        sought.len() > 0,
        !is_white_space(sought[0]),
        blank(inner),
        has_typed(app, a, "find "@ + inner + sought, b),
    ensures
        app.pressed(plain(KeyCode::Enter)) == (AppView {
            search: sought,
            status: "searching for '"@ + sought + "'"@,
            ..done(app)
        }),
{
    reveal_strlit("find ");
    assert("find "@.len() == 5);
    let text = "find "@ + inner + sought;
    lemma_space_dropped(a, text, b);
    assert(text.take(5) =~= "find "@);
    assert(text.skip(5) =~= inner + sought + Seq::empty());
    assert(text.last() == sought.last());
    lemma_space_dropped(inner, sought, Seq::empty());
    assert(text[4] == ' ');
    reveal_strlit("refresh");
    reveal_strlit("overview");
    reveal_strlit("gateway");
    reveal_strlit("guilds");
    reveal_strlit("events");
    reveal_strlit("actions");
    reveal_strlit("");
    assert(""@.len() == 0);
    reveal_strlit("q");
    assert("q"@.len() == 1);
    reveal_strlit("quit");
    assert("quit"@.len() == 4);
    reveal_strlit("exit");
    assert("exit"@.len() == 4);
    reveal_strlit("r");
    assert("r"@.len() == 1);
    reveal_strlit("o");
    assert("o"@.len() == 1);
    reveal_strlit("gw");
    assert("gw"@.len() == 2);
    reveal_strlit("g");
    assert("g"@.len() == 1);
    reveal_strlit("users");
    assert("users"@.len() == 5);
    reveal_strlit("u");
    assert("u"@.len() == 1);
    reveal_strlit("e");
    assert("e"@.len() == 1);
    reveal_strlit("env");
    assert("env"@.len() == 3);
    reveal_strlit("a");
    assert("a"@.len() == 1);
    assert("refresh"@[4] != text[4]);
    assert("overview"@[4] != text[4]);
    assert("gateway"@[4] != text[4]);
    assert("guilds"@[4] != text[4]);
    assert("events"@[4] != text[4]);
    assert("actions"@[4] != text[4]);
}

/// A command that is neither named nor a search is told back as unknown, and nothing else
/// changes.
pub proof fn lemma_unknown_is_told(app: AppView, a: Seq<char>, text: Seq<char>, b: Seq<char>)
    requires
        has_typed(app, a, text, b),
        !names_command(text),
        text.len() < 5 || text.take(5) != "find "@,
    ensures
        app.pressed(plain(KeyCode::Enter)) == (AppView {
            status: "unknown command: "@ + text,
            ..done(app)
        }),
{
    reveal_strlit("find ");
    assert("find "@.len() == 5);
    lemma_space_dropped(a, text, b);
}

/// The foot of the dashboard shows what is typed, behind the sign that began it; where nothing is
/// typed, what was last said, the search and how old the rest is.
pub proof fn lemma_foot_shows(app: AppView, age: nat)
    ensures
        app.mode == InputMode::Search ==> app.footer(age) == "/"@ + app.search,
        app.mode == InputMode::Command ==> app.footer(age) == ":"@ + app.command,
        idle(app) ==> app.footer(age) == app.status + " | search='"@ + app.search + "' | updated "@
            + decimal(age) + "s ago"@,
{
}

} // verus!
