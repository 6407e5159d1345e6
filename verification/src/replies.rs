//! Replies that show stored data: item info, selling, passives, the shop, the
//! inventory and the leaderboard.
use vstd::prelude::*;
use crate::embed::{Colour, Embed, EmbedView, notice, notice_embed, owned, titled, with_field};
use crate::inventory::{Item, ShopRep, inventory_text, inventory_text_spec, shop_text};
use crate::items::{BaseItem, base_from_name};
use crate::passive::{Passive, passive_from_repr};
use crate::text::{
    decimal, decimal_int, pad_left, pad_right, push_decimal, push_int, push_pad_left, push_pad_right,
    push_str,
};

verus! {

pub open spec fn info_owned_spec(n: u32, input: Seq<char>, item: BaseItem) -> EmbedView {
    notice("You Own "@ + decimal(n as nat) + " of "@ + input, item.spec_description(), Colour::Positive)
}

/// `info` on an item the player owns `n` of.
pub fn info_owned(n: u32, input: &str, item: BaseItem) -> (r: Embed)
    ensures
        r@ == info_owned_spec(n, input@, item),
{
    let mut t = String::new();
    push_str(&mut t, "You Own ");
    push_decimal(&mut t, n as u64);
    push_str(&mut t, " of ");
    push_str(&mut t, input);
    assert(t@ =~= "You Own "@ + decimal(n as nat) + " of "@ + input@);
    notice_embed(t, owned(item.description()), Colour::Positive)
}

pub open spec fn not_owned_spec(input: Seq<char>, d: Seq<char>) -> EmbedView {
    notice("You don't own the item `"@ + input + "`."@, d, Colour::Danger)
}

fn not_owned_title(input: &str) -> (r: String)
    ensures
        r@ == "You don't own the item `"@ + input@ + "`."@,
{
    let mut t = String::new();
    push_str(&mut t, "You don't own the item `");
    push_str(&mut t, input);
    push_str(&mut t, "`.");
    assert(t@ =~= "You don't own the item `"@ + input@ + "`."@);
    t
}

/// `info` on an item the player does not own.
pub fn info_not_owned(input: &str) -> (r: Embed)
    ensures
        r@ == not_owned_spec(input@, "Tough luck."@),
{
    notice_embed(not_owned_title(input), owned("Tough luck."), Colour::Danger)
}

pub open spec fn info_invalid_spec(input: Seq<char>) -> EmbedView {
    with_field(
        notice("`"@ + input + "` is not a valid item."@, "Did you capitalize the name?"@, Colour::Danger),
        "Example"@,
        "`oi info T-Shirt`"@,
        true,
    )
}

/// `info` on a name that is no item.
pub fn info_invalid(input: &str) -> (r: Embed)
    ensures
        r@ == info_invalid_spec(input@),
{
    let mut t = String::new();
    push_str(&mut t, "`");
    push_str(&mut t, input);
    push_str(&mut t, "` is not a valid item.");
    assert(t@ =~= "`"@ + input@ + "` is not a valid item."@);
    notice_embed(t, owned("Did you capitalize the name?"), Colour::Danger).field(
        owned("Example"),
        owned("`oi info T-Shirt`"),
        true,
    )
}

/// The answer to `info <input>`: the item's description with how many the
/// player owns, a notice that the player owns none when no count is stored,
/// or a hint when `input` names no item. `owned` is the stored count of the
/// item `input` names.
pub fn info_answer(input: &str, owned: Option<u32>) -> (r: Embed)
    ensures
        r@ == match base_from_name(input@) {
            Some(item) => match owned {
                Some(n) => info_owned_spec(n, input@, item),
                None => not_owned_spec(input@, "Tough luck."@),
            },
            None => info_invalid_spec(input@),
        },
{
    match BaseItem::from_str(input) {
        Some(item) => match owned {
            Some(n) => info_owned(n, input, item),
            None => info_not_owned(input),
        },
        None => info_invalid(input),
    }
}

pub open spec fn sell_prompt_spec(amount: u32, item: Item) -> EmbedView {
    with_field(
        with_field(
            titled(
                "Are you sure that you want to sell "@ + decimal(amount as nat) + " of `"@ + item.base.spec_name()
                    + "`?"@,
                Colour::Warning,
            ),
            "Original Price"@,
            decimal_int(item.base.spec_buying_price()) + " Leaves"@,
            true,
        ),
        "Selling Price"@,
        decimal_int(item.base.spec_selling_price()) + " Leaves"@,
        true,
    )
}

fn leaves_amount(n: i32) -> (r: String)
    ensures
        r@ == decimal_int(n as int) + " Leaves"@,
{
    let mut t = String::new();
    push_int(&mut t, n as i64);
    push_str(&mut t, " Leaves");
    assert(t@ =~= decimal_int(n as int) + " Leaves"@);
    t
}

/// `sell` on an item the player owns `amount` of: the confirmation question.
pub fn sell_prompt(amount: u32, item: &Item) -> (r: Embed)
    ensures
        r@ == sell_prompt_spec(amount, *item),
{
    let mut t = String::new();
    push_str(&mut t, "Are you sure that you want to sell ");
    push_decimal(&mut t, amount as u64);
    push_str(&mut t, " of `");
    push_str(&mut t, item.base.name());
    push_str(&mut t, "`?");
    assert(t@ =~= "Are you sure that you want to sell "@ + decimal(amount as nat) + " of `"@
        + item.base.spec_name() + "`?"@);
    Embed::new(t, Colour::Warning).field(
        owned("Original Price"),
        leaves_amount(item.base.buying_price()),
        true,
    ).field(owned("Selling Price"), leaves_amount(item.base.selling_price()), true)
}

/// `sell` on a text that is no item.
pub fn sell_unknown(input: &str) -> (r: Embed)
    ensures
        r@ == not_owned_spec(input@, "Did you capitalize the item name?"@),
{
    notice_embed(not_owned_title(input), owned("Did you capitalize the item name?"), Colour::Danger)
}

/// The active passives: one field each, with its name, expiry and effect.
pub open spec fn passive_fields(e: EmbedView, list: Seq<(u32, i64)>) -> Option<EmbedView>
    decreases list.len(),
{
    if list.len() == 0 {
        Some(e)
    } else {
        match passive_fields(e, list.drop_last()) {
            Some(e2) => match passive_from_repr(list.last().0 as int) {
                Some(p) => Some(
                    with_field(
                        e2,
                        p.spec_name() + " (expires <t:"@ + decimal_int(list.last().1 as int) + ":R>)"@,
                        p.spec_description(),
                        false,
                    ),
                ),
                None => None,
            },
            None => None,
        }
    }
}

pub open spec fn passives_spec(list: Seq<(u32, i64)>) -> Option<EmbedView> {
    passive_fields(
        titled("You currently have "@ + decimal(list.len()) + " passives"@, Colour::Positive),
        list,
    )
}

/// The list of a player's active passives, given as (number, expiry) pairs;
/// `None` when a number names no passive.
pub fn passives_embed(list: &Vec<(u32, i64)>) -> (r: Option<Embed>)
    ensures
        r matches Some(e) ==> passives_spec(list@) == Some(e@),
        r is None ==> passives_spec(list@) is None,
{
    let mut t = String::new();
    push_str(&mut t, "You currently have ");
    push_decimal(&mut t, list.len() as u64);
    push_str(&mut t, " passives");
    assert(t@ =~= "You currently have "@ + decimal(list@.len()) + " passives"@);
    let ghost start = titled(t@, Colour::Positive);
    let mut e = Embed::new(t, Colour::Positive);
    let mut i: usize = 0;
    while i < list.len()
        invariant
            i <= list@.len(),
            passive_fields(start, list@.take(i as int)) == Some(e@),
            start == titled("You currently have "@ + decimal(list@.len()) + " passives"@, Colour::Positive),
        decreases list.len() - i,
    {
        let (id, time) = list[i];
        proof {
            assert(list@.take(i + 1).drop_last() =~= list@.take(i as int));
        }
        match Passive::from_repr(id as usize) {
            Some(p) => {
                let mut name = String::new();
                push_str(&mut name, p.name());
                push_str(&mut name, " (expires <t:");
                push_int(&mut name, time);
                push_str(&mut name, ":R>)");
                assert(name@ =~= p.spec_name() + " (expires <t:"@ + decimal_int(time as int) + ":R>)"@);
                e = e.field(name, owned(p.description()), false);
            },
            None => {
                proof {
                    assert(list@.take(i + 1).last() == list@[i as int]);
                    assert(passive_fields(start, list@.take(i + 1)) is None);
                    lemma_passive_fields_stay_none(start, list@, i as int + 1);
                }
                return None;
            },
        }
        i = i + 1;
    }
    assert(list@.take(list@.len() as int) =~= list@);
    Some(e)
}

proof fn lemma_passive_fields_stay_none(e: EmbedView, list: Seq<(u32, i64)>, k: int)
    requires
        0 <= k <= list.len(),
        passive_fields(e, list.take(k)) is None,
    ensures
        passive_fields(e, list) is None,
    decreases list.len() - k,
{
    if k < list.len() {
        assert(list.take(k + 1).drop_last() =~= list.take(k));
        lemma_passive_fields_stay_none(e, list, k + 1);
    } else {
        assert(list.take(k) =~= list);
    }
}

pub open spec fn shop_embed_spec(
    equipments: Seq<BaseItem>,
    weapons: Seq<BaseItem>,
    consumables: Seq<BaseItem>,
    refresh: int,
    leaves: int,
) -> EmbedView {
    with_field(
        with_field(
            with_field(
                notice("Equipments for sale"@, shop_text(equipments, 1), Colour::Positive),
                "Weapons on sale"@,
                shop_text(weapons, 5),
                false,
            ),
            "Consumables on sale"@,
            shop_text(consumables, 7),
            false,
        ),
        "Info"@,
        "Shop refreshes <t:"@ + decimal(refresh as nat) + ":R>.\nYour Leaves: "@ + decimal_int(leaves),
        false,
    )
}

/// The shop's offer, when it changes next, and the player's Leaves.
pub fn shop_embed(
    equipments: &Vec<BaseItem>,
    weapons: &Vec<BaseItem>,
    consumables: &Vec<BaseItem>,
    refresh: u64,
    leaves: i64,
) -> (r: Embed)
    ensures
        r@ == shop_embed_spec(equipments@, weapons@, consumables@, refresh as int, leaves as int),
{
    let mut info = String::new();
    push_str(&mut info, "Shop refreshes <t:");
    push_decimal(&mut info, refresh);
    push_str(&mut info, ":R>.\nYour Leaves: ");
    push_int(&mut info, leaves);
    assert(info@ =~= "Shop refreshes <t:"@ + decimal(refresh as nat) + ":R>.\nYour Leaves: "@ + decimal_int(
        leaves as int,
    ));
    notice_embed(owned("Equipments for sale"), equipments.shop_rep(1), Colour::Positive).field(
        owned("Weapons on sale"),
        weapons.shop_rep(5),
        false,
    ).field(owned("Consumables on sale"), consumables.shop_rep(7), false).field(
        owned("Info"),
        info,
        false,
    )
}

/// The player's inventory and Leaves.
pub fn inventory_embed(items: &Vec<(Item, u32)>, leaves: i64) -> (r: Embed)
    ensures
        r@ == notice("Your Inventory"@, inventory_text_spec(items@, leaves as int), Colour::Positive),
{
    notice_embed(owned("Your Inventory"), inventory_text(items, leaves), Colour::Positive)
}

/// One line of a leaderboard.
pub open spec fn leaderboard_line_spec(name: Seq<char>, exp: int) -> Seq<char> {
    "1. `"@ + pad_right(name, 24) + pad_left(decimal_int(exp), 8) + " exp`\n"@
}

/// A leaderboard: one line per (name, exp) entry; `None` names a user that
/// could not be looked up and shows as `???`.
pub open spec fn leaderboard_text_spec(entries: Seq<(Option<Seq<char>>, i64)>) -> Seq<char>
    decreases entries.len(),
{
    if entries.len() == 0 {
        Seq::empty()
    } else {
        leaderboard_text_spec(entries.drop_last()) + leaderboard_line_spec(
            match entries.last().0 {
                Some(n) => n,
                None => "???"@,
            },
            entries.last().1 as int,
        )
    }
}

pub open spec fn entries_view(entries: Seq<(Option<String>, i64)>) -> Seq<(Option<Seq<char>>, i64)> {
    entries.map_values(
        |e: (Option<String>, i64)|
            (
                match e.0 {
                    Some(n) => Some(n@),
                    None => None,
                },
                e.1,
            ),
    )
}

/// The text of a leaderboard.
pub fn leaderboard_text(entries: &Vec<(Option<String>, i64)>) -> (r: String)
    ensures
        r@ == leaderboard_text_spec(entries_view(entries@)),
{
    let mut r = String::new();
    let mut i: usize = 0;
    while i < entries.len()
        invariant
            i <= entries@.len(),
            r@ == leaderboard_text_spec(entries_view(entries@.take(i as int))),
        decreases entries.len() - i,
    {
        let exp = entries[i].1;
        push_str(&mut r, "1. `");
        match &entries[i].0 {
            Some(n) => push_pad_right(&mut r, n.as_str(), 24),
            None => push_pad_right(&mut r, "???", 24),
        }
        let e = crate::text::int_string(exp);
        push_pad_left(&mut r, e.as_str(), 8);
        push_str(&mut r, " exp`\n");
        proof {
            assert(entries_view(entries@.take(i + 1)).drop_last() =~= entries_view(entries@.take(i as int)));
        }
        i = i + 1;
        assert(r@ =~= leaderboard_text_spec(entries_view(entries@.take(i as int))));
    }
    assert(entries@.take(entries@.len() as int) =~= entries@);
    r
}

pub open spec fn leaderboard_spec(global: Seq<char>, server: Option<Seq<char>>) -> EmbedView {
    let e = notice("Global Leaderboard"@, global, Colour::Positive);
    match server {
        Some(s) => with_field(e, "Server Leaderboard"@, s, false),
        None => e,
    }
}

/// The leaderboard reply: the global board, and the server's when asked in a server.
pub fn leaderboard_embed(global: String, server: Option<String>) -> (r: Embed)
    ensures
        r@ == leaderboard_spec(global@, match server {
            Some(s) => Some(s@),
            None => None,
        }),
{
    let e = notice_embed(owned("Global Leaderboard"), global, Colour::Positive);
    match server {
        Some(s) => e.field(owned("Server Leaderboard"), s, false),
        None => e,
    }
}

/// The message shown while the leaderboard loads.
pub fn loading_text() -> (r: String)
    ensures
        r@ == "<a:loading:822855468731990058> loading..."@,
{
    owned("<a:loading:822855468731990058> loading...")
}

/// In the sell confirmation, the field named "Original Price" shows what the
/// item costs in the shop and the one named "Selling Price" what selling it
/// pays, both in Leaves; these are its only two fields.
pub proof fn lemma_sell_prompt_prices(amount: u32, item: Item)
    ensures
        ({
            let f = sell_prompt_spec(amount, item).fields;
            &&& f.len() == 2
            &&& exists|i: int| 0 <= i < 2 && #[trigger] f[i].name == "Original Price"@
            &&& exists|i: int| 0 <= i < 2 && #[trigger] f[i].name == "Selling Price"@
            &&& forall|i: int|
                0 <= i < 2 && #[trigger] f[i].name == "Original Price"@ ==> f[i].value == decimal_int(
                    item.base.spec_buying_price(),
                ) + " Leaves"@
            &&& forall|i: int|
                0 <= i < 2 && #[trigger] f[i].name == "Selling Price"@ ==> f[i].value == decimal_int(
                    item.base.spec_selling_price(),
                ) + " Leaves"@
        }),
{
    reveal_strlit("Original Price");
    reveal_strlit("Selling Price");
    let f = sell_prompt_spec(amount, item).fields;
    assert(f[0].name == "Original Price"@);
    assert(f[1].name == "Selling Price"@);
    assert("Original Price"@[0] != "Selling Price"@[0]);
}

/// The shop reply lists the equipments drawn in its description, the weapons
/// drawn under "Weapons on sale" and the consumables drawn under "Consumables
/// on sale", numbered from 1, 5 and 7; the refresh time and the player's
/// Leaves come last, under "Info".
pub proof fn lemma_shop_sections(
    equipments: Seq<BaseItem>,
    weapons: Seq<BaseItem>,
    consumables: Seq<BaseItem>,
    refresh: int,
    leaves: int,
)
    ensures
        ({
            let e = shop_embed_spec(equipments, weapons, consumables, refresh, leaves);
            &&& e.description == Some(shop_text(equipments, 1))
            &&& e.fields.len() == 3
            &&& exists|i: int| 0 <= i < 3 && #[trigger] e.fields[i].name == "Weapons on sale"@
            &&& exists|i: int| 0 <= i < 3 && #[trigger] e.fields[i].name == "Consumables on sale"@
            &&& forall|i: int|
                0 <= i < 3 && #[trigger] e.fields[i].name == "Weapons on sale"@ ==> e.fields[i].value
                    == shop_text(weapons, 5)
            &&& forall|i: int|
                0 <= i < 3 && #[trigger] e.fields[i].name == "Consumables on sale"@ ==> e.fields[i].value
                    == shop_text(consumables, 7)
            &&& e.fields[2].name == "Info"@
        }),
{
    reveal_strlit("Weapons on sale");
    reveal_strlit("Consumables on sale");
    reveal_strlit("Info");
    let e = shop_embed_spec(equipments, weapons, consumables, refresh, leaves);
    assert(e.fields[0].name == "Weapons on sale"@);
    assert(e.fields[1].name == "Consumables on sale"@);
    assert(e.fields[2].name == "Info"@);
    assert("Weapons on sale"@[0] != "Consumables on sale"@[0]);
    assert("Weapons on sale"@[0] != "Info"@[0]);
    assert("Consumables on sale"@[0] != "Info"@[0]);
}

} // verus!
