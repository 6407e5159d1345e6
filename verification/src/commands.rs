//! Reading the commands players send, and the replies that need nothing but
//! the command.
use vstd::prelude::*;
use vstd::string::*;
use crate::embed::{
    Colour, Embed, EmbedView, Reply, ReplyView, notice, notice_embed, owned, titled,
    with_field, with_footer, with_thumbnail, with_timestamp,
};
use crate::hash::{answer, choice_index, response_text};
use crate::rake::RakeType;
use crate::text::{chars_eq, split_once, split_once_chars, string_of, strip_prefix, strip_prefix_chars};

verus! {

/// What a message asks of the bot.
pub enum Command {
    /// `help <topic>`
    HelpTopic(String),
    /// `say <question>` (or `say, <question>`)
    Say(String),
    /// `speak <text>`
    Speak(String),
    /// `info <item>`
    Info(String),
    /// `sell <item>`
    Sell(String),
    /// `gaia <order>`: an order from the bot's owner.
    Gaia(String),
    /// A command with an argument that the bot does not know.
    Unknown(String),
    /// `help`
    Help,
    /// `ping`
    Ping,
    /// `invite`
    Invite,
    /// `rake`, `riskyRake` or `daily`
    Rake(RakeType),
    /// `inventory`
    Inventory,
    /// `passives`
    Passives,
    /// `shop`
    Shop,
    /// `leaderboard`
    Leaderboard,
    /// A word the bot does not know.
    UnknownBare(String),
}

pub enum CommandView {
    HelpTopic(Seq<char>),
    Say(Seq<char>),
    Speak(Seq<char>),
    Info(Seq<char>),
    Sell(Seq<char>),
    Gaia(Seq<char>),
    Unknown(Seq<char>),
    Help,
    Ping,
    Invite,
    Rake(RakeType),
    Inventory,
    Passives,
    Shop,
    Leaderboard,
    UnknownBare(Seq<char>),
}

impl View for Command {
    type V = CommandView;

    open spec fn view(&self) -> CommandView {
        match self {
            Command::HelpTopic(s) => CommandView::HelpTopic(s@),
            Command::Say(s) => CommandView::Say(s@),
            Command::Speak(s) => CommandView::Speak(s@),
            Command::Info(s) => CommandView::Info(s@),
            Command::Sell(s) => CommandView::Sell(s@),
            Command::Gaia(s) => CommandView::Gaia(s@),
            Command::Unknown(s) => CommandView::Unknown(s@),
            Command::Help => CommandView::Help,
            Command::Ping => CommandView::Ping,
            Command::Invite => CommandView::Invite,
            Command::Rake(t) => CommandView::Rake(*t),
            Command::Inventory => CommandView::Inventory,
            Command::Passives => CommandView::Passives,
            Command::Shop => CommandView::Shop,
            Command::Leaderboard => CommandView::Leaderboard,
            Command::UnknownBare(s) => CommandView::UnknownBare(s@),
        }
    }
}

/// The part of a message after the `oi ` (or `Oi `) that calls the bot.
pub open spec fn addressed(s: Seq<char>) -> Option<Seq<char>> {
    match strip_prefix(s, "oi "@) {
        Some(rest) => Some(rest),
        None => strip_prefix(s, "Oi "@),
    }
}

/// What a message asks: nothing unless it starts with `oi ` or `Oi `; then
/// the first word is the command and the rest, after the first space, its
/// argument.
pub open spec fn parse_command(s: Seq<char>) -> Option<CommandView> {
    match addressed(s) {
        None => None,
        Some(content) => Some(
            match split_once(content, ' ') {
                Some((command, input)) => if command == "help"@ {
                    CommandView::HelpTopic(input)
                } else if command == "say"@ || command == "say,"@ {
                    CommandView::Say(input)
                } else if command == "speak"@ {
                    CommandView::Speak(input)
                } else if command == "info"@ {
                    CommandView::Info(input)
                } else if command == "sell"@ {
                    CommandView::Sell(input)
                } else if command == "gaia"@ {
                    CommandView::Gaia(input)
                } else {
                    CommandView::Unknown(command)
                },
                None => if content == "help"@ {
                    CommandView::Help
                } else if content == "ping"@ {
                    CommandView::Ping
                } else if content == "invite"@ {
                    CommandView::Invite
                } else if content == "rake"@ || content == "r"@ {
                    CommandView::Rake(RakeType::Normal)
                } else if content == "riskyRake"@ || content == "rr"@ {
                    CommandView::Rake(RakeType::Risky)
                } else if content == "daily"@ {
                    CommandView::Rake(RakeType::Daily)
                } else if content == "inventory"@ || content == "inv"@ {
                    CommandView::Inventory
                } else if content == "passives"@ {
                    CommandView::Passives
                } else if content == "shop"@ {
                    CommandView::Shop
                } else if content == "leaderboard"@ || content == "lb"@ {
                    CommandView::Leaderboard
                } else {
                    CommandView::UnknownBare(content)
                },
            },
        ),
    }
}

/// Reads what a message asks of the bot.
pub fn parse_message(message: &str) -> (r: Option<Command>)
    ensures
        r matches Some(c) ==> parse_command(message@) == Some(c@),
        r is None ==> parse_command(message@) is None,
{
    let cs = crate::text::chars_of(message);
    let content = match strip_prefix_chars(&cs, "oi ") {
        Some(rest) => rest,
        None => match strip_prefix_chars(&cs, "Oi ") {
            Some(rest) => rest,
            None => return None,
        },
    };
    match split_once_chars(&content, ' ') {
        Some((command, input)) => {
            let input = string_of(&input);
            if chars_eq(&command, "help") {
                Some(Command::HelpTopic(input))
            } else if chars_eq(&command, "say") || chars_eq(&command, "say,") {
                Some(Command::Say(input))
            } else if chars_eq(&command, "speak") {
                Some(Command::Speak(input))
            } else if chars_eq(&command, "info") {
                Some(Command::Info(input))
            } else if chars_eq(&command, "sell") {
                Some(Command::Sell(input))
            } else if chars_eq(&command, "gaia") {
                Some(Command::Gaia(input))
            } else {
                Some(Command::Unknown(string_of(&command)))
            }
        },
        None => {
            if chars_eq(&content, "help") {
                Some(Command::Help)
            } else if chars_eq(&content, "ping") {
                Some(Command::Ping)
            } else if chars_eq(&content, "invite") {
                Some(Command::Invite)
            } else if chars_eq(&content, "rake") || chars_eq(&content, "r") {
                Some(Command::Rake(RakeType::Normal))
            } else if chars_eq(&content, "riskyRake") || chars_eq(&content, "rr") {
                Some(Command::Rake(RakeType::Risky))
            } else if chars_eq(&content, "daily") {
                Some(Command::Rake(RakeType::Daily))
            } else if chars_eq(&content, "inventory") || chars_eq(&content, "inv") {
                Some(Command::Inventory)
            } else if chars_eq(&content, "passives") {
                Some(Command::Passives)
            } else if chars_eq(&content, "shop") {
                Some(Command::Shop)
            } else if chars_eq(&content, "leaderboard") || chars_eq(&content, "lb") {
                Some(Command::Leaderboard)
            } else {
                Some(Command::UnknownBare(string_of(&content)))
            }
        },
    }
}

/// The bot answers `oi` and `Oi` alike.
pub proof fn lemma_greeting_case(rest: Seq<char>)
    ensures
        parse_command("oi "@ + rest) == parse_command("Oi "@ + rest),
        parse_command("oi "@ + rest) is Some,
{
    reveal_strlit("oi ");
    reveal_strlit("Oi ");
    assert(("oi "@ + rest).take(3) =~= "oi "@);
    assert(("oi "@ + rest).skip(3) =~= rest);
    assert(("Oi "@ + rest).take(3) =~= "Oi "@);
    assert(("Oi "@ + rest).skip(3) =~= rest);
    assert(("Oi "@ + rest).take(3)[0] != "oi "@[0]);
}

// ---------------------------------------------------------------------------
// Fixed texts
// ---------------------------------------------------------------------------

pub open spec fn icon_url() -> Seq<char> {
    "https://img.icons8.com/emoji/452/fallen-leaf.png"@
}

pub fn icon_url_str() -> (r: &'static str)
    ensures
        r@ == icon_url(),
{
    "https://img.icons8.com/emoji/452/fallen-leaf.png"
}

/// The odds of the bonus finds, as the help shows them.
pub open spec fn gift_drop_chance() -> Seq<char> {
    "- **`Handful of Leaves`**: Grants 20 Leaves upon selling (5%)\n- **`Pile of Leaves`**: Grants 100 Leaves upon selling (1%)\n- **`Bucket of Leaves`**: Grants 400 Leaves upon selling (0.25%)\n- **`Barrel of Leaves`**: Grants 2,000 Leaves upon selling (0.05%)\n- **`Truckload of Leaves`**: Grants 10,000 Leaves upon selling (0.01%)"@
}

pub fn gift_drop_chance_str() -> (r: &'static str)
    ensures
        r@ == gift_drop_chance(),
{
    "- **`Handful of Leaves`**: Grants 20 Leaves upon selling (5%)\n- **`Pile of Leaves`**: Grants 100 Leaves upon selling (1%)\n- **`Bucket of Leaves`**: Grants 400 Leaves upon selling (0.25%)\n- **`Barrel of Leaves`**: Grants 2,000 Leaves upon selling (0.05%)\n- **`Truckload of Leaves`**: Grants 10,000 Leaves upon selling (0.01%)"
}

/// The help on one command.
pub open spec fn help_topic_spec(input: Seq<char>) -> EmbedView {
    if input == "rake"@ || input == "r"@ {
        with_field(
            with_field(
                notice(
                    "`rake` (alias: `r`)"@,
                    "The basic command to rake and obtain Leaves."@,
                    Colour::Positive,
                ),
                "Details"@,
                "**exp**:\n`5`-`10`\n**Leaves**:\n`(1 + 0.1 * <strength>)`-`(4 + 0.5 * <rake size> * <rake efficiency>)`\n**cooldown**:\n`(30 + <rake size>)` seconds"@,
                false,
            ),
            "Drops"@,
            gift_drop_chance(),
            false,
        )
    } else if input == "riskyRake"@ || input == "rr"@ {
        with_field(
            with_field(
                notice(
                    "`riskyRake` (alias: `rr`)"@,
                    "The risky version of raking to obtain or lose Leaves."@,
                    Colour::Positive,
                ),
                "Details"@,
                "**exp**:\n`-10`-`40`\n**Leaves**:\n`(-6 + 0.2 * <strength>)`-`(16 + <rake size> * <rake efficiency>)`\n**cooldown**:\n`(60 + 2 * <rake size>)` seconds"@,
                false,
            ),
            "Drops"@,
            gift_drop_chance(),
            false,
        )
    } else {
        notice(
            "What's `"@ + input + "`?"@,
            "I don't have that command, try `oi help` to see available commands."@,
            Colour::Danger,
        )
    }
}

/// The help on one command (`help <topic>`).
pub fn handle_help(input: &str) -> (r: Embed)
    ensures
        r@ == help_topic_spec(input@),
{
    let cs = crate::text::chars_of(input);
    if chars_eq(&cs, "rake") || chars_eq(&cs, "r") {
        notice_embed(
            owned("`rake` (alias: `r`)"),
            owned("The basic command to rake and obtain Leaves."),
            Colour::Positive,
        ).field(
            owned("Details"),
            owned(
                "**exp**:\n`5`-`10`\n**Leaves**:\n`(1 + 0.1 * <strength>)`-`(4 + 0.5 * <rake size> * <rake efficiency>)`\n**cooldown**:\n`(30 + <rake size>)` seconds",
            ),
            false,
        ).field(owned("Drops"), owned(gift_drop_chance_str()), false)
    } else if chars_eq(&cs, "riskyRake") || chars_eq(&cs, "rr") {
        notice_embed(
            owned("`riskyRake` (alias: `rr`)"),
            owned("The risky version of raking to obtain or lose Leaves."),
            Colour::Positive,
        ).field(
            owned("Details"),
            owned(
                "**exp**:\n`-10`-`40`\n**Leaves**:\n`(-6 + 0.2 * <strength>)`-`(16 + <rake size> * <rake efficiency>)`\n**cooldown**:\n`(60 + 2 * <rake size>)` seconds",
            ),
            false,
        ).field(owned("Drops"), owned(gift_drop_chance_str()), false)
    } else {
        let mut t = String::new();
        t.append("What's `");
        t.append(input);
        t.append("`?");
        assert(t@ =~= "What's `"@ + input@ + "`?"@);
        notice_embed(
            t,
            owned("I don't have that command, try `oi help` to see available commands."),
            Colour::Danger,
        )
    }
}

/// The list of all commands (`help`).
pub open spec fn help_menu_spec() -> EmbedView {
    with_footer(
        with_field(
            with_field(
                with_field(
                    with_field(
                        with_field(
                            with_thumbnail(
                                notice(
                                    "Commands"@,
                                    "[Join our official server!](https://discord.gg/fwNnyndEM2)"@,
                                    Colour::Positive,
                                ),
                                icon_url(),
                            ),
                            "Raking"@,
                            "`rake (r)`, `riskyRake (rr)`, `daily`, `rank`, `passives`, `leaderboard (lb)`, `shop`, `inventory (inv)`, `character (char)`, `equip`, `unequip`, `info`, `sell`, `arena (pvp)`"@,
                            false,
                        ),
                        "Fun"@,
                        "`say`"@,
                        false,
                    ),
                    "Utility"@,
                    "`ping`, `invite`"@,
                    false,
                ),
                "Music"@,
                "`play`, `leave`"@,
                false,
            ),
            "Admin"@,
            "`speak`, `settings`"@,
            false,
        ),
        "yee haw"@,
        icon_url(),
    )
}

pub fn help_menu() -> (r: Embed)
    ensures
        r@ == help_menu_spec(),
{
    notice_embed(
        owned("Commands"),
        owned("[Join our official server!](https://discord.gg/fwNnyndEM2)"),
        Colour::Positive,
    ).thumbnail(owned(icon_url_str())).field(
        owned("Raking"),
        owned(
            "`rake (r)`, `riskyRake (rr)`, `daily`, `rank`, `passives`, `leaderboard (lb)`, `shop`, `inventory (inv)`, `character (char)`, `equip`, `unequip`, `info`, `sell`, `arena (pvp)`",
        ),
        false,
    ).field(owned("Fun"), owned("`say`"), false).field(
        owned("Utility"),
        owned("`ping`, `invite`"),
        false,
    ).field(owned("Music"), owned("`play`, `leave`"), false).field(
        owned("Admin"),
        owned("`speak`, `settings`"),
        false,
    ).footer(owned("yee haw"), owned(icon_url_str()))
}

pub open spec fn ping_spec() -> EmbedView {
    with_timestamp(titled("\u{1F3D3} Pong!"@, Colour::Positive))
}

pub fn ping_embed() -> (r: Embed)
    ensures
        r@ == ping_spec(),
{
    Embed::new(owned("\u{1F3D3} Pong!"), Colour::Positive).timestamp_now()
}

pub open spec fn invite_spec() -> EmbedView {
    with_thumbnail(
        notice(
            "Invite me to your server!"@,
            "[Click this if you're an epic gamer or something idk](https://discord.com/api/oauth2/authorize?client_id=767768980043333642&permissions=3435841&scope=bot)"@,
            Colour::Positive,
        ),
        "https://cdn.discordapp.com/avatars/767768980043333642/75c9a79a0aad1157fa8645061601961e.png"@,
    )
}

pub fn invite_embed() -> (r: Embed)
    ensures
        r@ == invite_spec(),
{
    notice_embed(
        owned("Invite me to your server!"),
        owned(
            "[Click this if you're an epic gamer or something idk](https://discord.com/api/oauth2/authorize?client_id=767768980043333642&permissions=3435841&scope=bot)",
        ),
        Colour::Positive,
    ).thumbnail(
        owned(
            "https://cdn.discordapp.com/avatars/767768980043333642/75c9a79a0aad1157fa8645061601961e.png",
        ),
    )
}

/// The answer to a question (`say`).
pub open spec fn say_spec(question: Seq<char>, answer_text: Seq<char>) -> EmbedView {
    with_field(notice("Question"@, question, Colour::Positive), "Answer"@, answer_text, true)
}

pub fn say_embed(question: &str) -> (r: Embed)
    ensures
        r@ == say_spec(question@, response_text(choice_index(question@, 20))),
{
    notice_embed(owned("Question"), owned(question), Colour::Positive).field(
        owned("Answer"),
        owned(answer(question)),
        true,
    )
}

pub open spec fn unknown_spec(word: Seq<char>) -> EmbedView {
    notice(
        "What's `"@ + word + "`?"@,
        "I can't quite understand what you're saying, maybe try `oi help`?"@,
        Colour::Danger,
    )
}

/// The reply to a command the bot does not know.
pub fn unknown_embed(word: &str) -> (r: Embed)
    ensures
        r@ == unknown_spec(word@),
{
    let mut t = String::new();
    t.append("What's `");
    t.append(word);
    t.append("`?");
    assert(t@ =~= "What's `"@ + word@ + "`?"@);
    notice_embed(
        t,
        owned("I can't quite understand what you're saying, maybe try `oi help`?"),
        Colour::Danger,
    )
}

/// The reply to a command that needs nothing but itself, if it is one.
pub open spec fn simple_reply_spec(c: CommandView, answer_text: Seq<char>) -> Option<ReplyView> {
    match c {
        CommandView::HelpTopic(input) => Some(ReplyView::Embed(help_topic_spec(input))),
        CommandView::Say(q) => Some(ReplyView::Embed(say_spec(q, answer_text))),
        CommandView::Speak(t) => Some(ReplyView::Quiet(t)),
        CommandView::Unknown(w) => Some(ReplyView::Embed(unknown_spec(w))),
        CommandView::Help => Some(ReplyView::Embed(help_menu_spec())),
        CommandView::Ping => Some(ReplyView::Embed(ping_spec())),
        CommandView::Invite => Some(ReplyView::Embed(invite_spec())),
        CommandView::UnknownBare(w) => Some(ReplyView::Embed(unknown_spec(w))),
        _ => None,
    }
}

/// The reply to a command that needs no stored data: help, `say`, `speak`,
/// `ping`, `invite` and unknown commands. `None` for the others.
pub fn simple_reply(c: &Command) -> (r: Option<Reply>)
    ensures
        r matches Some(reply) ==> simple_reply_spec(c@, match c {
            Command::Say(q) => response_text(choice_index(q@, 20)),
            _ => Seq::empty(),
        }) == Some(reply@),
        r is None ==> simple_reply_spec(c@, Seq::empty()) is None,
{
    match c {
        Command::HelpTopic(input) => Some(Reply::Embed(handle_help(input.as_str()))),
        Command::Say(q) => Some(Reply::Embed(say_embed(q.as_str()))),
        Command::Speak(t) => Some(Reply::Quiet(owned(t.as_str()))),
        Command::Unknown(w) => Some(Reply::Embed(unknown_embed(w.as_str()))),
        Command::Help => Some(Reply::Embed(help_menu())),
        Command::Ping => Some(Reply::Embed(ping_embed())),
        Command::Invite => Some(Reply::Embed(invite_embed())),
        Command::UnknownBare(w) => Some(Reply::Embed(unknown_embed(w.as_str()))),
        _ => None,
    }
}

} // verus!
