//! Orders from the bot's owner (`gaia`): granting items, passives, experience
//! and Leaves.
use vstd::prelude::*;
use vstd::string::*;
use crate::commands::icon_url_str;
use crate::commands::icon_url;
use crate::embed::{Colour, Embed, EmbedView, notice, notice_embed, owned, with_field, with_footer};
use crate::inventory::Item;
use crate::items::{BaseItem, Modifier, base_from_repr, lemma_base_repr_round_trip};
use crate::passive::{Passive, lemma_passive_repr_round_trip, passive_from_repr};
use crate::inventory::lemma_split_once_at;
use crate::text::{
    chars_eq, chars_of, decimal, decimal_int, is_digit, lemma_decimal, lemma_parse_signed_decimal,
    lemma_parse_unsigned_decimal, parse_i32, parse_i64, parse_signed, parse_u64, parse_unsigned,
    parse_usize, push_int, split_once, split_once_chars, split_three, split_three_chars, string_of,
};

verus! {

/// An order from the owner, as read from its text.
pub enum OwnerCommand {
    /// `give <user> <item>` with both numbers readable; the item is `None`
    /// when no item has that number.
    Give { receiver: u64, item: Option<BaseItem> },
    /// `give` with a number that does not read.
    GiveUnrecognized,
    /// `give` without an item number.
    GiveMissing,
    /// `apply <user> <passive> <seconds>` with all three numbers readable; the
    /// passive is `None` when no passive has that number.
    Apply { receiver: u64, passive: Option<Passive>, seconds: i64 },
    ApplyUnrecognized,
    ApplyMissing,
    /// `bless <user> <exp> <leaves>` with all three numbers readable.
    Bless { receiver: u64, exp: i32, leaves: i32 },
    BlessUnrecognized,
    BlessMissing,
    /// An order with arguments that Gaia does not know.
    Unknown(String),
    /// `help`
    Help,
    /// A word that Gaia does not know.
    UnknownBare(String),
}

pub enum OwnerCommandView {
    Give { receiver: u64, item: Option<BaseItem> },
    GiveUnrecognized,
    GiveMissing,
    Apply { receiver: u64, passive: Option<Passive>, seconds: i64 },
    ApplyUnrecognized,
    ApplyMissing,
    Bless { receiver: u64, exp: i32, leaves: i32 },
    BlessUnrecognized,
    BlessMissing,
    Unknown(Seq<char>),
    Help,
    UnknownBare(Seq<char>),
}

impl View for OwnerCommand {
    type V = OwnerCommandView;

    open spec fn view(&self) -> OwnerCommandView {
        match self {
            OwnerCommand::Give { receiver, item } => OwnerCommandView::Give { receiver: *receiver, item: *item },
            OwnerCommand::GiveUnrecognized => OwnerCommandView::GiveUnrecognized,
            OwnerCommand::GiveMissing => OwnerCommandView::GiveMissing,
            OwnerCommand::Apply { receiver, passive, seconds } => OwnerCommandView::Apply {
                receiver: *receiver,
                passive: *passive,
                seconds: *seconds,
            },
            OwnerCommand::ApplyUnrecognized => OwnerCommandView::ApplyUnrecognized,
            OwnerCommand::ApplyMissing => OwnerCommandView::ApplyMissing,
            OwnerCommand::Bless { receiver, exp, leaves } => OwnerCommandView::Bless {
                receiver: *receiver,
                exp: *exp,
                leaves: *leaves,
            },
            OwnerCommand::BlessUnrecognized => OwnerCommandView::BlessUnrecognized,
            OwnerCommand::BlessMissing => OwnerCommandView::BlessMissing,
            OwnerCommand::Unknown(s) => OwnerCommandView::Unknown(s@),
            OwnerCommand::Help => OwnerCommandView::Help,
            OwnerCommand::UnknownBare(s) => OwnerCommandView::UnknownBare(s@),
        }
    }
}

/// How an order reads: its first word names it; `give` takes two numbers
/// after it, `apply` and `bless` three (the last one holds the rest of the text).
pub open spec fn parse_owner_spec(s: Seq<char>) -> OwnerCommandView {
    match split_once(s, ' ') {
        Some((command, args)) => if command == "give"@ {
            match split_once(args, ' ') {
                Some((r, i)) => match (parse_unsigned(r, u64::MAX as int), parse_unsigned(i, usize::MAX as int)) {
                    (Some(receiver), Some(item)) => OwnerCommandView::Give {
                        receiver: receiver as u64,
                        item: base_from_repr(item),
                    },
                    _ => OwnerCommandView::GiveUnrecognized,
                },
                None => OwnerCommandView::GiveMissing,
            }
        } else if command == "apply"@ {
            match split_three(args, ' ') {
                Some((r, p, t)) => match (
                    parse_unsigned(r, u64::MAX as int),
                    parse_unsigned(p, usize::MAX as int),
                    parse_signed(t, i64::MIN as int, i64::MAX as int),
                ) {
                    (Some(receiver), Some(passive), Some(seconds)) => OwnerCommandView::Apply {
                        receiver: receiver as u64,
                        passive: passive_from_repr(passive),
                        seconds: seconds as i64,
                    },
                    _ => OwnerCommandView::ApplyUnrecognized,
                },
                None => OwnerCommandView::ApplyMissing,
            }
        } else if command == "bless"@ {
            match split_three(args, ' ') {
                Some((r, x, l)) => match (
                    parse_unsigned(r, u64::MAX as int),
                    parse_signed(x, i32::MIN as int, i32::MAX as int),
                    parse_signed(l, i32::MIN as int, i32::MAX as int),
                ) {
                    (Some(receiver), Some(exp), Some(leaves)) => OwnerCommandView::Bless {
                        receiver: receiver as u64,
                        exp: exp as i32,
                        leaves: leaves as i32,
                    },
                    _ => OwnerCommandView::BlessUnrecognized,
                },
                None => OwnerCommandView::BlessMissing,
            }
        } else {
            OwnerCommandView::Unknown(command)
        },
        None => if s == "help"@ {
            OwnerCommandView::Help
        } else {
            OwnerCommandView::UnknownBare(s)
        },
    }
}

/// Reads an order only when it comes from the owner: `None` for anyone else,
/// who is answered with `access_denied`.
pub fn owner_command(owner_id: i64, user_id: i64, input: &str) -> (r: Option<OwnerCommand>)
    ensures
        r is Some <==> owner_id == user_id,
        r matches Some(c) ==> c@ == parse_owner_spec(input@),
{
    if owner_id == user_id {
        Some(parse_owner_command(input))
    } else {
        None
    }
}

/// Reads an order from the owner.
pub fn parse_owner_command(input: &str) -> (r: OwnerCommand)
    ensures
        r@ == parse_owner_spec(input@),
{
    let cs = chars_of(input);
    match split_once_chars(&cs, ' ') {
        Some((command, args)) => {
            if chars_eq(&command, "give") {
                match split_once_chars(&args, ' ') {
                    Some((r, i)) => match (parse_u64(&r), parse_usize(&i)) {
                        (Some(receiver), Some(item)) => OwnerCommand::Give {
                            receiver,
                            item: BaseItem::from_repr(item),
                        },
                        _ => OwnerCommand::GiveUnrecognized,
                    },
                    None => OwnerCommand::GiveMissing,
                }
            } else if chars_eq(&command, "apply") {
                match split_three_chars(&args, ' ') {
                    Some((r, p, t)) => match (parse_u64(&r), parse_usize(&p), parse_i64(&t)) {
                        (Some(receiver), Some(passive), Some(seconds)) => OwnerCommand::Apply {
                            receiver,
                            passive: Passive::from_repr(passive),
                            seconds,
                        },
                        _ => OwnerCommand::ApplyUnrecognized,
                    },
                    None => OwnerCommand::ApplyMissing,
                }
            } else if chars_eq(&command, "bless") {
                match split_three_chars(&args, ' ') {
                    Some((r, x, l)) => match (parse_u64(&r), parse_i32(&x), parse_i32(&l)) {
                        (Some(receiver), Some(exp), Some(leaves)) => OwnerCommand::Bless {
                            receiver,
                            exp,
                            leaves,
                        },
                        _ => OwnerCommand::BlessUnrecognized,
                    },
                    None => OwnerCommand::BlessMissing,
                }
            } else {
                OwnerCommand::Unknown(string_of(&command))
            }
        },
        None => {
            if chars_eq(&cs, "help") {
                OwnerCommand::Help
            } else {
                OwnerCommand::UnknownBare(string_of(&cs))
            }
        },
    }
}

impl OwnerCommand {
    /// The user an order names, when it names one that must be looked up.
    pub fn receiver(&self) -> (r: Option<u64>)
        ensures
            r == (match self@ {
                OwnerCommandView::Give { receiver, .. } => Some(receiver),
                OwnerCommandView::Apply { receiver, .. } => Some(receiver),
                OwnerCommandView::Bless { receiver, .. } => Some(receiver),
                _ => None,
            }),
    {
        match self {
            OwnerCommand::Give { receiver, .. } => Some(*receiver),
            OwnerCommand::Apply { receiver, .. } => Some(*receiver),
            OwnerCommand::Bless { receiver, .. } => Some(*receiver),
            _ => None,
        }
    }
}

/// A change to stored data that an order makes.
#[derive(Clone, Copy, PartialEq, Eq, Structural, Debug)]
pub enum Grant {
    /// Give one `item` to `user`.
    GiveItem { user: i64, item: Item },
    /// Let `passive` act on `user` until `expires_at`.
    ApplyPassive { user: i64, expires_at: i64, passive: Passive },
    /// Add experience and Leaves to `user`, as a rake at `at` would.
    Bless { user: i64, exp: i32, leaves: i32, at: i64 },
}

pub open spec fn confused(d: Seq<char>, colour: Colour) -> EmbedView {
    notice("Gaia is Confused by Your Demands"@, d, colour)
}

pub open spec fn access_denied_spec() -> EmbedView {
    notice("Access Denied"@, "You do not have the permissions for this command."@, Colour::Danger)
}

/// The reply to someone other than the owner.
pub fn access_denied() -> (r: Embed)
    ensures
        r@ == access_denied_spec(),
{
    notice_embed(
        owned("Access Denied"),
        owned("You do not have the permissions for this command."),
        Colour::Danger,
    )
}

pub open spec fn owner_help_spec() -> EmbedView {
    with_footer(
        with_field(
            with_field(
                with_field(
                    with_field(
                        notice(
                            "Gaia Commands"@,
                            "Codename Gaia. Heed commands from her director."@,
                            Colour::Positive,
                        ),
                        "`give`"@,
                        "Gives an item to a user.\n- `oi gaia give <user_id> <item_id>`"@,
                        false,
                    ),
                    "`apply`"@,
                    "Applies a passive to a user.\n- `oi gaia apply <user_id> <passive_id> <duration>`"@,
                    false,
                ),
                "`bless`"@,
                "Provides exp and Leaves to a user.\n- `oi gaia bless <user_id> <exp> <leaves>`"@,
                false,
            ),
            "`help`"@,
            "Displays this command."@,
            false,
        ),
        "May your backyard be full of Leaves."@,
        icon_url(),
    )
}

/// The list of the owner's orders.
pub fn handle_owner_help() -> (r: Embed)
    ensures
        r@ == owner_help_spec(),
{
    notice_embed(
        owned("Gaia Commands"),
        owned("Codename Gaia. Heed commands from her director."),
        Colour::Positive,
    ).field(
        owned("`give`"),
        owned("Gives an item to a user.\n- `oi gaia give <user_id> <item_id>`"),
        false,
    ).field(
        owned("`apply`"),
        owned("Applies a passive to a user.\n- `oi gaia apply <user_id> <passive_id> <duration>`"),
        false,
    ).field(
        owned("`bless`"),
        owned("Provides exp and Leaves to a user.\n- `oi gaia bless <user_id> <exp> <leaves>`"),
        false,
    ).field(owned("`help`"), owned("Displays this command."), false).footer(
        owned("May your backyard be full of Leaves."),
        owned(icon_url_str()),
    )
}

/// What an order comes to, given the name of the user it names (`None` when
/// no such user is found) and the time: the reply, and the change to make.
pub open spec fn owner_outcome_spec(c: OwnerCommandView, receiver_name: Option<Seq<char>>, timestamp: int) -> (
    EmbedView,
    Option<Grant>,
) {
    match c {
        OwnerCommandView::Give { receiver, item } => match (receiver_name, item) {
            (Some(name), Some(base)) => (
                notice(
                    "Item Granted"@,
                    name + " has received `"@ + base.spec_name() + "`."@,
                    Colour::Positive,
                ),
                Some(
                    Grant::GiveItem {
                        user: receiver as i64,
                        item: Item { base, quality: 0, modifier: Modifier::Normal },
                    },
                ),
            ),
            _ => (confused("She does not recognize the user ID or item ID."@, Colour::Danger), None),
        },
        OwnerCommandView::GiveUnrecognized => (
            confused("She does not recognize the user ID or item ID."@, Colour::Danger),
            None,
        ),
        OwnerCommandView::GiveMissing => (confused("She does not sense an item ID."@, Colour::Positive), None),
        OwnerCommandView::Apply { receiver, passive, seconds } => match (receiver_name, passive) {
            (Some(name), Some(p)) => (
                notice(
                    "Passive Granted"@,
                    "Inflicted "@ + name + " with `"@ + p.spec_name() + "` until <t:"@ + decimal_int(
                        timestamp + seconds,
                    ) + ":R>."@,
                    Colour::Positive,
                ),
                Some(
                    Grant::ApplyPassive {
                        user: receiver as i64,
                        expires_at: (timestamp + seconds) as i64,
                        passive: p,
                    },
                ),
            ),
            _ => (
                confused("She does not recognize the user/passive ID or time."@, Colour::Danger),
                None,
            ),
        },
        OwnerCommandView::ApplyUnrecognized => (
            confused("She does not recognize the user/passive ID or time."@, Colour::Danger),
            None,
        ),
        OwnerCommandView::ApplyMissing => (
            confused("She does not sense user/passive ID or time."@, Colour::Danger),
            None,
        ),
        OwnerCommandView::Bless { receiver, exp, leaves } => match receiver_name {
            Some(name) => (
                notice(
                    "Wish Granted"@,
                    name + " has received `"@ + decimal_int(exp as int) + " exp` and `"@ + decimal_int(
                        leaves as int,
                    ) + " Leaves`."@,
                    Colour::Positive,
                ),
                Some(Grant::Bless { user: receiver as i64, exp, leaves, at: timestamp as i64 }),
            ),
            None => (
                confused("She does not recognize the user ID or exp/Leaves."@, Colour::Danger),
                None,
            ),
        },
        OwnerCommandView::BlessUnrecognized => (
            confused("She does not recognize the user ID or exp/Leaves."@, Colour::Danger),
            None,
        ),
        OwnerCommandView::BlessMissing => (
            confused("She does not sense user ID or exp/Leaves amount."@, Colour::Danger),
            None,
        ),
        OwnerCommandView::Unknown(w) => (
            notice(
                "Gaia is Confused by Your Command"@,
                "She does not recognize `"@ + w + "`."@,
                Colour::Danger,
            ),
            None,
        ),
        OwnerCommandView::Help => (owner_help_spec(), None),
        OwnerCommandView::UnknownBare(w) => (
            notice(
                "Gaia is Confused by Your Command"@,
                "She does not recognize `"@ + w + "`."@,
                Colour::Danger,
            ),
            None,
        ),
    }
}

/// Whether an order names a user to look up before it can be carried out.
pub open spec fn names_receiver(c: OwnerCommandView) -> bool {
    c is Give || c is Apply || c is Bless
}

fn confused_embed(d: &str, colour: Colour) -> (r: Embed)
    ensures
        r@ == confused(d@, colour),
{
    notice_embed(owned("Gaia is Confused by Your Demands"), owned(d), colour)
}

fn unrecognized_order(w: &String) -> (r: Embed)
    ensures
        r@ == notice("Gaia is Confused by Your Command"@, "She does not recognize `"@ + w@ + "`."@, Colour::Danger),
{
    let mut d = String::new();
    d.append("She does not recognize `");
    d.append(w.as_str());
    d.append("`.");
    assert(d@ =~= "She does not recognize `"@ + w@ + "`."@);
    notice_embed(owned("Gaia is Confused by Your Command"), d, Colour::Danger)
}

/// Carries out the decision part of an order: the reply and the change to
/// make, given the looked-up name of the user it names and the time.
pub fn owner_outcome(c: &OwnerCommand, receiver_name: Option<&str>, timestamp: i64) -> (r: (Embed, Option<Grant>))
    requires
        match c {
            OwnerCommand::Apply { passive: Some(_), seconds, .. } => receiver_name is Some ==> i64::MIN
                <= timestamp + *seconds <= i64::MAX,
            _ => true,
        },
    ensures
        r.0@ == owner_outcome_spec(c@, match receiver_name {
            Some(n) => Some(n@),
            None => None,
        }, timestamp as int).0,
        r.1 == owner_outcome_spec(c@, match receiver_name {
            Some(n) => Some(n@),
            None => None,
        }, timestamp as int).1,
{
    match c {
        OwnerCommand::Give { receiver, item } => match (receiver_name, item) {
            (Some(name), Some(base)) => {
                let mut d = String::new();
                d.append(name);
                d.append(" has received `");
                d.append(base.name());
                d.append("`.");
                assert(d@ =~= name@ + " has received `"@ + base.spec_name() + "`."@);
                (
                    notice_embed(owned("Item Granted"), d, Colour::Positive),
                    Some(Grant::GiveItem { user: *receiver as i64, item: Item::from_base(*base) }),
                )
            },
            _ => (confused_embed("She does not recognize the user ID or item ID.", Colour::Danger), None),
        },
        OwnerCommand::GiveUnrecognized => (
            confused_embed("She does not recognize the user ID or item ID.", Colour::Danger),
            None,
        ),
        OwnerCommand::GiveMissing => (confused_embed("She does not sense an item ID.", Colour::Positive), None),
        OwnerCommand::Apply { receiver, passive, seconds } => match (receiver_name, passive) {
            (Some(name), Some(p)) => {
                let expires_at = timestamp + *seconds;
                let mut d = String::new();
                d.append("Inflicted ");
                d.append(name);
                d.append(" with `");
                d.append(p.name());
                d.append("` until <t:");
                push_int(&mut d, expires_at);
                d.append(":R>.");
                assert(d@ =~= "Inflicted "@ + name@ + " with `"@ + p.spec_name() + "` until <t:"@
                    + decimal_int(timestamp + *seconds) + ":R>."@);
                (
                    notice_embed(owned("Passive Granted"), d, Colour::Positive),
                    Some(Grant::ApplyPassive { user: *receiver as i64, expires_at, passive: *p }),
                )
            },
            _ => (
                confused_embed("She does not recognize the user/passive ID or time.", Colour::Danger),
                None,
            ),
        },
        OwnerCommand::ApplyUnrecognized => (
            confused_embed("She does not recognize the user/passive ID or time.", Colour::Danger),
            None,
        ),
        OwnerCommand::ApplyMissing => (
            confused_embed("She does not sense user/passive ID or time.", Colour::Danger),
            None,
        ),
        OwnerCommand::Bless { receiver, exp, leaves } => match receiver_name {
            Some(name) => {
                let mut d = String::new();
                d.append(name);
                d.append(" has received `");
                push_int(&mut d, *exp as i64);
                d.append(" exp` and `");
                push_int(&mut d, *leaves as i64);
                d.append(" Leaves`.");
                assert(d@ =~= name@ + " has received `"@ + decimal_int(*exp as int) + " exp` and `"@
                    + decimal_int(*leaves as int) + " Leaves`."@);
                (
                    notice_embed(owned("Wish Granted"), d, Colour::Positive),
                    Some(Grant::Bless { user: *receiver as i64, exp: *exp, leaves: *leaves, at: timestamp }),
                )
            },
            None => (
                confused_embed("She does not recognize the user ID or exp/Leaves.", Colour::Danger),
                None,
            ),
        },
        OwnerCommand::BlessUnrecognized => (
            confused_embed("She does not recognize the user ID or exp/Leaves.", Colour::Danger),
            None,
        ),
        OwnerCommand::BlessMissing => (
            confused_embed("She does not sense user ID or exp/Leaves amount.", Colour::Danger),
            None,
        ),
        OwnerCommand::Unknown(w) => (unrecognized_order(w), None),
        OwnerCommand::Help => (handle_owner_help(), None),
        OwnerCommand::UnknownBare(w) => (unrecognized_order(w), None),
    }
}

/// An order changes stored data only when it reads, names a user that is
/// found, and (for items and passives) a number that names something.
pub proof fn lemma_grant_needs_receiver(c: OwnerCommandView, name: Option<Seq<char>>, timestamp: int)
    ensures
        owner_outcome_spec(c, name, timestamp).1 is Some ==> names_receiver(c) && name is Some,
        owner_outcome_spec(c, name, timestamp).1 is Some && c is Give ==> c->Give_item is Some,
        owner_outcome_spec(c, name, timestamp).1 is Some && c is Apply ==> c->Apply_passive is Some,
{
}

/// `bless <u> <x> <l>`, with no space in `u` or `x`, grants exactly when `u`
/// reads as a `u64` and both `x` and `l` read as an `i32`, a minus sign
/// allowed; the experience is what `x` reads as and the Leaves what `l` reads
/// as, the two read alike.
pub proof fn lemma_bless_reads(u: Seq<char>, x: Seq<char>, l: Seq<char>)
    requires
        !u.contains(' '),
        !x.contains(' '),
    ensures
        ({
            let v = parse_owner_spec("bless "@ + u + " "@ + x + " "@ + l);
            match (
                parse_unsigned(u, u64::MAX as int),
                parse_signed(x, i32::MIN as int, i32::MAX as int),
                parse_signed(l, i32::MIN as int, i32::MAX as int),
            ) {
                (Some(r), Some(e), Some(g)) => v == OwnerCommandView::Bless {
                    receiver: r as u64,
                    exp: e as i32,
                    leaves: g as i32,
                },
                _ => v == OwnerCommandView::BlessUnrecognized,
            }
        }),
{
    reveal_strlit("bless ");
    reveal_strlit("bless");
    reveal_strlit(" ");
    reveal_strlit("give");
    reveal_strlit("apply");
    let b = "bless"@;
    assert(!b.contains(' ')) by {
        if b.contains(' ') {
            let k = choose|k: int| 0 <= k < b.len() && b[k] == ' ';
        }
    }
    let rest = u + seq![' '] + (x + seq![' '] + l);
    assert("bless "@ + u + " "@ + x + " "@ + l =~= b + seq![' '] + rest);
    lemma_split_once_at(b, rest, ' ');
    lemma_split_once_at(u, x + seq![' '] + l, ' ');
    lemma_split_once_at(x, l, ' ');
    assert(b != "give"@) by {
        assert(b.len() != "give"@.len());
    }
    assert(b != "apply"@) by {
        assert(b[0] != "apply"@[0]);
    }
}

/// The text `decimal_int` writes holds no space.
proof fn lemma_decimal_int_no_space(i: int)
    ensures
        !decimal_int(i).contains(' '),
{
    let n: nat = if i < 0 { (-i) as nat } else { i as nat };
    lemma_decimal(n);
    let s = decimal_int(i);
    if s.contains(' ') {
        let k = choose|k: int| 0 <= k < s.len() && s[k] == ' ';
        if i < 0 {
            assert(s[k] == decimal(n)[k - 1]);
            assert(is_digit(decimal(n)[k - 1]));
        } else {
            assert(is_digit(decimal(n)[k]));
        }
    }
}

/// Blessing a user with any `i32` experience and Leaves, negative ones too,
/// written as numbers are written, reads back as exactly that order.
pub proof fn lemma_bless_round_trip(receiver: u64, exp: i32, leaves: i32)
    ensures
        parse_owner_spec(
            "bless "@ + decimal(receiver as nat) + " "@ + decimal_int(exp as int) + " "@ + decimal_int(leaves as int),
        ) == (OwnerCommandView::Bless { receiver, exp, leaves }),
{
    lemma_decimal_int_no_space(receiver as int);
    lemma_decimal_int_no_space(exp as int);
    assert(decimal_int(receiver as int) == decimal(receiver as nat));
    lemma_parse_unsigned_decimal(receiver as nat, u64::MAX as int);
    lemma_parse_signed_decimal(exp as int, i32::MIN as int, i32::MAX as int);
    lemma_parse_signed_decimal(leaves as int, i32::MIN as int, i32::MAX as int);
    lemma_bless_reads(decimal(receiver as nat), decimal_int(exp as int), decimal_int(leaves as int));
}

/// Giving a user any item, written as its stored number, reads back as
/// exactly that order.
pub proof fn lemma_give_round_trip(receiver: u64, item: BaseItem)
    ensures
        parse_owner_spec("give "@ + decimal(receiver as nat) + " "@ + decimal(item.spec_repr() as nat)) == (
        OwnerCommandView::Give { receiver, item: Some(item) }),
{
    reveal_strlit("give ");
    reveal_strlit("give");
    reveal_strlit(" ");
    lemma_base_repr_round_trip(item, 0);
    lemma_decimal_int_no_space(receiver as int);
    assert(decimal_int(receiver as int) == decimal(receiver as nat));
    lemma_parse_unsigned_decimal(receiver as nat, u64::MAX as int);
    lemma_parse_unsigned_decimal(item.spec_repr() as nat, usize::MAX as int);
    let g = "give"@;
    assert(!g.contains(' ')) by {
        if g.contains(' ') {
            let k = choose|k: int| 0 <= k < g.len() && g[k] == ' ';
        }
    }
    let rest = decimal(receiver as nat) + seq![' '] + decimal(item.spec_repr() as nat);
    assert("give "@ + decimal(receiver as nat) + " "@ + decimal(item.spec_repr() as nat) =~= g + seq![' ']
        + rest);
    lemma_split_once_at(g, rest, ' ');
    lemma_split_once_at(decimal(receiver as nat), decimal(item.spec_repr() as nat), ' ');
}

/// Applying any passive, written as its stored number, for any `i64` number
/// of seconds (negative ones too) reads back as exactly that order.
pub proof fn lemma_apply_round_trip(receiver: u64, passive: Passive, seconds: i64)
    ensures
        parse_owner_spec(
            "apply "@ + decimal(receiver as nat) + " "@ + decimal(passive.spec_repr() as nat) + " "@ + decimal_int(
                seconds as int,
            ),
        ) == (OwnerCommandView::Apply { receiver, passive: Some(passive), seconds }),
{
    reveal_strlit("apply ");
    reveal_strlit("apply");
    reveal_strlit(" ");
    reveal_strlit("give");
    lemma_passive_repr_round_trip(passive, 0);
    lemma_decimal_int_no_space(receiver as int);
    lemma_decimal_int_no_space(passive.spec_repr());
    assert(decimal_int(receiver as int) == decimal(receiver as nat));
    assert(decimal_int(passive.spec_repr()) == decimal(passive.spec_repr() as nat));
    lemma_parse_unsigned_decimal(receiver as nat, u64::MAX as int);
    lemma_parse_unsigned_decimal(passive.spec_repr() as nat, usize::MAX as int);
    lemma_parse_signed_decimal(seconds as int, i64::MIN as int, i64::MAX as int);
    let a = "apply"@;
    assert(!a.contains(' ')) by {
        if a.contains(' ') {
            let k = choose|k: int| 0 <= k < a.len() && a[k] == ' ';
        }
    }
    let p = decimal(passive.spec_repr() as nat);
    let t = decimal_int(seconds as int);
    let rest = decimal(receiver as nat) + seq![' '] + (p + seq![' '] + t);
    assert("apply "@ + decimal(receiver as nat) + " "@ + p + " "@ + t =~= a + seq![' '] + rest);
    lemma_split_once_at(a, rest, ' ');
    lemma_split_once_at(decimal(receiver as nat), p + seq![' '] + t, ' ');
    lemma_split_once_at(p, t, ' ');
    assert(a != "give"@) by {
        assert(a.len() != "give"@.len());
    }
}

} // verus!
