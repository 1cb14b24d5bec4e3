//! What the chat bot decides: its settings, and the commands and buttons
//! it answers.
use vstd::prelude::*;
use crate::text::same_text;

verus! {
/// The bot's settings.
#[derive(Debug)]
pub struct Config {
    pub endpoint: String,
    pub password: String,
    pub token: String,
    pub guildid: u64,
}

impl Default for Config {
    /// Empty texts and guild 0.
    fn default() -> (c: Config)
        ensures
            c.endpoint@ == Seq::<char>::empty(),
            c.password@ == Seq::<char>::empty(),
            c.token@ == Seq::<char>::empty(),
            c.guildid == 0,
    {
        Config { endpoint: String::new(), password: String::new(), token: String::new(), guildid: 0 }
    }
}

/// The slash commands the bot knows.
#[derive(Debug, PartialEq, Eq, Clone, Copy)]
pub enum Command {
    Search,
    List,
    /// Any other command, answered with `not implemented :(`.
    Unknown,
}

/// The command of the given name.
pub open spec fn command_named(name: Seq<char>) -> Command {
    if name == "search"@ {
        Command::Search
    } else if name == "list"@ {
        Command::List
    } else {
        Command::Unknown
    }
}

/// The command that a slash command of the given name asks for.
pub fn command_for(name: &str) -> (c: Command)
    ensures
        c == command_named(name@),
{
    proof {
        reveal_strlit("search");
        reveal_strlit("list");
    }
    if same_text(name, "search") {
        Command::Search
    } else if same_text(name, "list") {
        Command::List
    } else {
        Command::Unknown
    }
}

/// What the buttons under a result page ask for.
#[derive(Debug, PartialEq, Eq, Clone, Copy)]
pub enum ButtonAction {
    /// `f`: the next page.
    Forward,
    /// `b`: the page before.
    Back,
    /// `g`: download one of the torrents shown.
    Get,
}

/// Whether `code` names a button action: `f`, `b` or `g`.
pub open spec fn known_action(code: Seq<char>) -> bool {
    code == "f"@ || code == "b"@ || code == "g"@
}

/// The button action of the given code.
pub open spec fn action_named(code: Seq<char>) -> ButtonAction {
    if code == "f"@ {
        ButtonAction::Forward
    } else if code == "b"@ {
        ButtonAction::Back
    } else {
        ButtonAction::Get
    }
}

/// Whether `code` names a button action (see `known_action`).
pub fn is_button_action(code: &str) -> (b: bool)
    ensures
        b == known_action(code@),
{
    proof {
        reveal_strlit("f");
        reveal_strlit("b");
        reveal_strlit("g");
    }
    same_text(code, "f") || same_text(code, "b") || same_text(code, "g")
}

/// The action that the `action` field of a button's id names. The code
/// must name one (the bot panics otherwise); `is_button_action` asks first.
pub fn button_action(code: &str) -> (a: ButtonAction)
    requires
        known_action(code@),
    ensures
        a == action_named(code@),
{
    proof {
        reveal_strlit("f");
        reveal_strlit("b");
        reveal_strlit("g");
    }
    if same_text(code, "f") {
        ButtonAction::Forward
    } else if same_text(code, "b") {
        ButtonAction::Back
    } else {
        ButtonAction::Get
    }
}

/// The page one after (`Forward`) or one before (`Back`) `page`, where it
/// is an `i64`; `None` for `Get`.
pub open spec fn turned(page: i64, action: ButtonAction) -> Option<i64> {
    match action {
        ButtonAction::Forward => if page < i64::MAX { Some((page + 1) as i64) } else { None },
        ButtonAction::Back => if page > i64::MIN { Some((page - 1) as i64) } else { None },
        ButtonAction::Get => None,
    }
}

/// The page that a `Forward` or `Back` button leads to from `page`: one
/// after or one before. `None` for `Get`, and where the page number
/// would leave the range of `i64`.
pub fn turned_page(page: i64, action: ButtonAction) -> (r: Option<i64>)
    ensures
        r == turned(page, action),
{
    match action {
        ButtonAction::Forward => if page < i64::MAX { Some(page + 1) } else { None },
        ButtonAction::Back => if page > i64::MIN { Some(page - 1) } else { None },
        ButtonAction::Get => None,
    }
}

/// The page number handed to a search: the low 32 bits of `page`.
pub fn search_page(page: i64) -> (p: u32)
    ensures
        p == page as u32,
{
    page as u32
}


} // verus!
