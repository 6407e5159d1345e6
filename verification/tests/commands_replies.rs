use rake::commands::{
    Command, handle_help, help_menu, invite_embed, parse_message, ping_embed, say_embed, simple_reply,
    unknown_embed,
};
use rake::embed::{Colour, Reply};
use rake::gaia::{
    Grant, OwnerCommand, access_denied, handle_owner_help, owner_command, owner_outcome, parse_owner_command,
};
use rake::inventory::Item;
use rake::items::{BaseItem, Modifier};
use rake::passive::Passive;
use rake::queries::{
    add_item_queries, add_passive_queries, create_table_statements, item_query, items_query, leaderboard_query, passives_query,
    register_query, sell_item_queries, update_raking_query, user_field_query,
};
use rake::rake::RakeType;
use rake::replies::{
    info_answer, info_invalid, info_not_owned, info_owned, inventory_embed, leaderboard_embed, leaderboard_text,
    loading_text, passives_embed, sell_prompt, sell_unknown, shop_embed,
};

#[test]
fn messages_not_addressed_are_ignored() {
    assert!(parse_message("hello there").is_none());
    assert!(parse_message("oi").is_none());
    assert!(parse_message("OI rake").is_none());
    assert!(parse_message(" oi rake").is_none());
}

#[test]
fn bare_commands() {
    assert!(matches!(parse_message("oi help"), Some(Command::Help)));
    assert!(matches!(parse_message("Oi ping"), Some(Command::Ping)));
    assert!(matches!(parse_message("oi invite"), Some(Command::Invite)));
    assert!(matches!(parse_message("oi r"), Some(Command::Rake(RakeType::Normal))));
    assert!(matches!(parse_message("oi rake"), Some(Command::Rake(RakeType::Normal))));
    assert!(matches!(parse_message("oi rr"), Some(Command::Rake(RakeType::Risky))));
    assert!(matches!(parse_message("Oi riskyRake"), Some(Command::Rake(RakeType::Risky))));
    assert!(matches!(parse_message("oi daily"), Some(Command::Rake(RakeType::Daily))));
    assert!(matches!(parse_message("oi inv"), Some(Command::Inventory)));
    assert!(matches!(parse_message("oi inventory"), Some(Command::Inventory)));
    assert!(matches!(parse_message("oi passives"), Some(Command::Passives)));
    assert!(matches!(parse_message("oi shop"), Some(Command::Shop)));
    assert!(matches!(parse_message("oi lb"), Some(Command::Leaderboard)));
    assert!(matches!(parse_message("oi leaderboard"), Some(Command::Leaderboard)));
    match parse_message("oi dance") {
        Some(Command::UnknownBare(w)) => assert_eq!(w, "dance"),
        _ => panic!("expected an unknown word"),
    }
    match parse_message("oi ") {
        Some(Command::UnknownBare(w)) => assert_eq!(w, ""),
        _ => panic!("expected an empty word"),
    }
}

#[test]
fn commands_with_arguments() {
    match parse_message("oi help rr") {
        Some(Command::HelpTopic(t)) => assert_eq!(t, "rr"),
        _ => panic!(),
    }
    match parse_message("oi say, will it rain today?") {
        Some(Command::Say(q)) => assert_eq!(q, "will it rain today?"),
        _ => panic!(),
    }
    match parse_message("Oi say hi") {
        Some(Command::Say(q)) => assert_eq!(q, "hi"),
        _ => panic!(),
    }
    match parse_message("oi speak hello @everyone") {
        Some(Command::Speak(t)) => assert_eq!(t, "hello @everyone"),
        _ => panic!(),
    }
    match parse_message("oi info T-Shirt") {
        Some(Command::Info(t)) => assert_eq!(t, "T-Shirt"),
        _ => panic!(),
    }
    match parse_message("oi sell Lousy Sneaker 3") {
        Some(Command::Sell(t)) => assert_eq!(t, "Lousy Sneaker 3"),
        _ => panic!(),
    }
    match parse_message("oi gaia give 1 2") {
        Some(Command::Gaia(t)) => assert_eq!(t, "give 1 2"),
        _ => panic!(),
    }
    match parse_message("oi rake now") {
        Some(Command::Unknown(w)) => assert_eq!(w, "rake"),
        _ => panic!(),
    }
}

#[test]
fn help_embeds() {
    let e = handle_help("r");
    assert_eq!(e.title, "`rake` (alias: `r`)");
    assert_eq!(e.fields.len(), 2);
    assert_eq!(
        e.fields[0].value,
        "**exp**:\n`5`-`10`\n**Leaves**:\n`(1 + 0.1 * <strength>)`-`(4 + 0.5 * <rake size> * <rake efficiency>)`\n**cooldown**:\n`(30 + <rake size>)` seconds"
    );
    assert!(e.fields[1].value.starts_with("- **`Handful of Leaves`**: Grants 20 Leaves upon selling (5%)\n"));
    assert_eq!(handle_help("riskyRake").title, "`riskyRake` (alias: `rr`)");
    let e = handle_help("fly");
    assert_eq!(e.title, "What's `fly`?");
    assert_eq!(e.colour, Colour::Danger);
    let m = help_menu();
    assert_eq!(m.title, "Commands");
    assert_eq!(m.fields.len(), 5);
    assert_eq!(m.fields[0].value, "`rake (r)`, `riskyRake (rr)`, `daily`, `rank`, `passives`, `leaderboard (lb)`, `shop`, `inventory (inv)`, `character (char)`, `equip`, `unequip`, `info`, `sell`, `arena (pvp)`");
    assert_eq!(m.footer.as_ref().unwrap().text, "yee haw");
    assert!(m.thumbnail.is_some());
    assert!(ping_embed().timestamp);
    assert_eq!(ping_embed().title, "\u{1F3D3} Pong!");
    assert!(invite_embed().description.unwrap().starts_with("[Click this if you're an epic gamer or something idk](https://"));
    assert_eq!(unknown_embed("zz").title, "What's `zz`?");
}

#[test]
fn say_answers() {
    let e = say_embed("hello");
    assert_eq!(e.title, "Question");
    assert_eq!(e.description.as_deref(), Some("hello"));
    assert_eq!(e.fields[0].name, "Answer");
    assert_eq!(e.fields[0].value, "...so you're a Rake of culture as well!");
    assert!(e.fields[0].inline);
}

#[test]
fn simple_replies() {
    match simple_reply(&parse_message("oi speak hi all").unwrap()) {
        Some(Reply::Quiet(t)) => assert_eq!(t, "hi all"),
        _ => panic!(),
    }
    match simple_reply(&parse_message("oi ping").unwrap()) {
        Some(Reply::Embed(e)) => assert!(e.timestamp),
        _ => panic!(),
    }
    assert!(simple_reply(&parse_message("oi shop").unwrap()).is_none());
    assert!(simple_reply(&parse_message("oi info Milk").unwrap()).is_none());
}

#[test]
fn owner_orders_parse() {
    assert!(matches!(
        parse_owner_command("give 123 5"),
        OwnerCommand::Give { receiver: 123, item: Some(BaseItem::TankTop) }
    ));
    assert!(matches!(parse_owner_command("give 123 99"), OwnerCommand::Give { receiver: 123, item: None }));
    assert!(matches!(parse_owner_command("give x 5"), OwnerCommand::GiveUnrecognized));
    assert!(matches!(parse_owner_command("give 1 2 3"), OwnerCommand::GiveUnrecognized));
    assert!(matches!(parse_owner_command("give 123"), OwnerCommand::GiveMissing));
    assert!(matches!(
        parse_owner_command("apply 1 2 -60"),
        OwnerCommand::Apply { receiver: 1, passive: Some(Passive::Unlucky), seconds: -60 }
    ));
    assert!(matches!(parse_owner_command("apply 1 7 60"), OwnerCommand::Apply { passive: None, .. }));
    assert!(matches!(parse_owner_command("apply 1 2 6 0"), OwnerCommand::ApplyUnrecognized));
    assert!(matches!(parse_owner_command("apply 1 2"), OwnerCommand::ApplyMissing));
    assert!(matches!(
        parse_owner_command("bless 9 -5 +10"),
        OwnerCommand::Bless { receiver: 9, exp: -5, leaves: 10 }
    ));
    assert!(matches!(parse_owner_command("bless 9 x 10"), OwnerCommand::BlessUnrecognized));
    assert!(matches!(parse_owner_command("bless 9"), OwnerCommand::BlessMissing));
    assert!(matches!(parse_owner_command("help"), OwnerCommand::Help));
    match parse_owner_command("bless") {
        OwnerCommand::UnknownBare(w) => assert_eq!(w, "bless"),
        _ => panic!(),
    }
    match parse_owner_command("dance now") {
        OwnerCommand::Unknown(w) => assert_eq!(w, "dance"),
        _ => panic!(),
    }
}

#[test]
fn owner_outcomes() {
    let (e, g) = owner_outcome(&parse_owner_command("give 123 5"), Some("Ann"), 1000);
    assert_eq!(e.title, "Item Granted");
    assert_eq!(e.description.as_deref(), Some("Ann has received `Tank Top`."));
    assert_eq!(g, Some(Grant::GiveItem { user: 123, item: Item::from_base(BaseItem::TankTop) }));
    let (e, g) = owner_outcome(&parse_owner_command("give 123 5"), None, 1000);
    assert_eq!(e.description.as_deref(), Some("She does not recognize the user ID or item ID."));
    assert_eq!(g, None);
    let (e, _) = owner_outcome(&parse_owner_command("give 123"), Some("Ann"), 1000);
    assert_eq!(e.description.as_deref(), Some("She does not sense an item ID."));
    assert_eq!(e.colour, Colour::Positive);
    let (e, g) = owner_outcome(&parse_owner_command("apply 1 0 60"), Some("Bo"), 1000);
    assert_eq!(e.description.as_deref(), Some("Inflicted Bo with `Lucky!` until <t:1060:R>."));
    assert_eq!(g, Some(Grant::ApplyPassive { user: 1, expires_at: 1060, passive: Passive::Lucky }));
    let (e, g) = owner_outcome(&parse_owner_command("apply 1 5 60"), Some("Bo"), 1000);
    assert_eq!(e.description.as_deref(), Some("She does not recognize the user/passive ID or time."));
    assert_eq!(g, None);
    let (e, g) = owner_outcome(&parse_owner_command("bless 18446744073709551615 -5 10"), Some("Cy"), 77);
    assert_eq!(e.title, "Wish Granted");
    assert_eq!(e.description.as_deref(), Some("Cy has received `-5 exp` and `10 Leaves`."));
    assert_eq!(g, Some(Grant::Bless { user: -1, exp: -5, leaves: 10, at: 77 }));
    let (e, _) = owner_outcome(&parse_owner_command("bless 1"), None, 0);
    assert_eq!(e.description.as_deref(), Some("She does not sense user ID or exp/Leaves amount."));
    let (e, _) = owner_outcome(&parse_owner_command("fly away"), None, 0);
    assert_eq!(e.title, "Gaia is Confused by Your Command");
    assert_eq!(e.description.as_deref(), Some("She does not recognize `fly`."));
    let (e, _) = owner_outcome(&parse_owner_command("help"), None, 0);
    assert_eq!(e.title, handle_owner_help().title);
    assert_eq!(e.fields.len(), 4);
    assert_eq!(access_denied().title, "Access Denied");
}

#[test]
fn stored_data_replies() {
    let e = info_owned(3, "Milk", BaseItem::Milk);
    assert_eq!(e.title, "You Own 3 of Milk");
    assert_eq!(e.description.as_deref(), Some(BaseItem::Milk.description()));
    assert_eq!(info_not_owned("Milk").title, "You don't own the item `Milk`.");
    assert_eq!(info_not_owned("Milk").description.as_deref(), Some("Tough luck."));
    let e = info_invalid("Mlk");
    assert_eq!(e.title, "`Mlk` is not a valid item.");
    assert_eq!(e.fields[0].value, "`oi info T-Shirt`");
    let item = Item::from_base(BaseItem::Coat);
    let e = sell_prompt(2, &item);
    assert_eq!(e.title, "Are you sure that you want to sell 2 of `Coat`?");
    assert_eq!(e.fields[0].value, "1999 Leaves");
    assert_eq!(e.fields[1].value, "50 Leaves");
    assert_eq!(e.colour, Colour::Warning);
    assert_eq!(sell_unknown("x").description.as_deref(), Some("Did you capitalize the item name?"));
    let e = passives_embed(&vec![(0, 100), (2, 200)]).unwrap();
    assert_eq!(e.title, "You currently have 2 passives");
    assert_eq!(e.fields[1].name, "Unlucky... (expires <t:200:R>)");
    assert_eq!(e.fields[1].value, Passive::Unlucky.description());
    assert!(passives_embed(&vec![(0, 100), (9, 200)]).is_none());
    let e = shop_embed(&vec![BaseItem::Coat], &vec![], &vec![BaseItem::Milk], 86400, 12);
    assert_eq!(e.title, "Equipments for sale");
    assert_eq!(e.fields[2].value, "Shop refreshes <t:86400:R>.\nYour Leaves: 12");
    let e = inventory_embed(&vec![], 5);
    assert_eq!(e.description.as_deref(), Some("\n\nYour Leaves: 5"));
}

#[test]
fn leaderboard_replies() {
    let t = leaderboard_text(&vec![(Some("ann".to_string()), 120), (None, -3)]);
    assert_eq!(t, format!("1. `{:<24}{:>8} exp`\n1. `{:<24}{:>8} exp`\n", "ann", 120, "???", -3));
    let e = leaderboard_embed(t.clone(), Some("x".to_string()));
    assert_eq!(e.title, "Global Leaderboard");
    assert_eq!(e.fields[0].name, "Server Leaderboard");
    assert!(leaderboard_embed(t, None).fields.is_empty());
    assert_eq!(loading_text(), "<a:loading:822855468731990058> loading...");
}

#[test]
fn sql_statements() {
    assert_eq!(register_query(42), "INSERT OR IGNORE INTO user (id) VALUES (42)");
    assert_eq!(user_field_query("last_daily", 7), "SELECT last_daily FROM user WHERE id = 7");
    assert_eq!(
        passives_query(7, 1000),
        "SELECT passive_id, expires_at FROM passive WHERE user_id = 7 AND expires_at > 1000"
    );
    assert_eq!(
        item_query(7, 33, 0, 0),
        "SELECT quantity FROM item WHERE user_id = 7 AND item_id = 33 AND quality = 0 AND modifier = 0 AND quantity > 0"
    );
    assert_eq!(
        items_query(-7),
        "SELECT item_id, quantity, quality, modifier FROM item WHERE user_id = -7 AND quantity > 0"
    );
    assert_eq!(
        leaderboard_query(&vec![], Some(10)),
        "SELECT id, exp FROM user  ORDER BY exp DESC, leaves DESC LIMIT 10"
    );
    assert_eq!(
        leaderboard_query(&vec![1, 22, 333], None),
        "SELECT id, exp FROM user WHERE id IN (1,22,333) ORDER BY exp DESC, leaves DESC "
    );
    assert_eq!(
        update_raking_query(7, -5, 12, "last_raked", 99),
        "UPDATE user SET exp = exp + -5, leaves = leaves + 12, last_raked = 99 WHERE id = 7"
    );
    let item = Item { base: BaseItem::Scarf, quality: 3, modifier: Modifier::Heavy };
    let (a, b) = add_item_queries(7, &item);
    assert_eq!(a, "INSERT OR IGNORE INTO item (user_id, item_id, quantity) VALUES (7, 33, 0)");
    assert_eq!(b, "UPDATE item SET quantity = quantity + 1 WHERE user_id = 7 AND item_id = 33");
    let (a, b) = add_passive_queries(7, 5000, Passive::LuckyZero);
    assert_eq!(a, "INSERT OR IGNORE INTO passive (user_id, passive_id, expires_at) VALUES (7, 1, 0)");
    assert_eq!(b, "UPDATE passive SET expires_at = 5000 WHERE user_id = 7 AND passive_id = 1");
    let (a, b) = sell_item_queries(7, 3, &item);
    assert_eq!(a, "UPDATE item SET quantity = quantity - 3 WHERE user_id = 7 AND item_id = 33");
    assert_eq!(b, "UPDATE user SET leaves = leaves + 45 WHERE id = 7");
}

#[test]
fn owner_order_receivers() {
    assert_eq!(parse_owner_command("give 5 1").receiver(), Some(5));
    assert_eq!(parse_owner_command("apply 6 1 1").receiver(), Some(6));
    assert_eq!(parse_owner_command("bless 7 1 1").receiver(), Some(7));
    assert_eq!(parse_owner_command("give 5").receiver(), None);
    assert_eq!(parse_owner_command("help").receiver(), None);
}

#[test]
fn only_the_owner_gives_orders() {
    assert!(owner_command(42, 7, "give 123 5").is_none());
    assert!(owner_command(42, 7, "help").is_none());
    assert!(matches!(
        owner_command(42, 42, "give 123 5"),
        Some(OwnerCommand::Give { receiver: 123, item: Some(BaseItem::TankTop) })
    ));
    assert!(matches!(owner_command(-1, -1, "help"), Some(OwnerCommand::Help)));
}

#[test]
fn table_statements() {
    let statements = create_table_statements();
    assert_eq!(statements.len(), 3);
    assert!(statements[0].trim_start().starts_with("CREATE TABLE IF NOT EXISTS user ("));
    assert!(statements[0].contains("last_daily INTEGER NOT NULL DEFAULT 0"));
    assert!(statements[1].trim_start().starts_with("CREATE TABLE IF NOT EXISTS item ("));
    assert!(statements[1].contains("PRIMARY KEY (user_id, item_id, quality, modifier)"));
    assert!(statements[2].trim_start().starts_with("CREATE TABLE IF NOT EXISTS passive ("));
    assert!(statements[2].contains("PRIMARY KEY (user_id, passive_id)"));
}

#[test]
fn info_answers() {
    let e = info_answer("Milk", Some(3));
    assert_eq!(e.title, info_owned(3, "Milk", BaseItem::Milk).title);
    assert_eq!(e.title, "You Own 3 of Milk");
    assert_eq!(info_answer("Milk", None).title, "You don't own the item `Milk`.");
    assert_eq!(info_answer("Mlk", Some(3)).title, info_invalid("Mlk").title);
    assert_eq!(info_answer("Mlk", None).title, "`Mlk` is not a valid item.");
}
