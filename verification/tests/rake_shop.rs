use rake::embed::{Colour, Reply};
use rake::items::BaseItem;
use rake::passive::Passive;
use rake::rake::{
    CooldownField, RakeType, Settlement, bonus_item, cooldown, cooldown_text, passive_expiry, passive_list_text,
    rake_embed, rake_finish, rake_start, roll_bonus, roll_exp, settle,
};
use rake::shop::{get_shop, refresh_time, sample_items};
use rake::chance::SeededRng;

#[test]
fn rake_parameters() {
    assert_eq!(RakeType::Normal.delay(), 30);
    assert_eq!(RakeType::Risky.delay(), 60);
    assert_eq!(RakeType::Daily.delay(), 72000);
    assert_eq!(RakeType::Daily.field(), CooldownField::LastDaily);
    assert_eq!(RakeType::Risky.field().column(), "last_raked");
    assert_eq!(RakeType::Risky.exp_range(), (-10, 41));
}

#[test]
fn cooldown_boundaries() {
    assert_eq!(cooldown(RakeType::Normal, 100, 129), Some(130));
    assert_eq!(cooldown(RakeType::Normal, 100, 130), None);
    assert_eq!(cooldown(RakeType::Daily, 0, 71999), Some(72000));
    assert_eq!(cooldown(RakeType::Daily, 0, 72000), None);
    assert_eq!(
        cooldown_text(RakeType::Risky, 1234),
        "Risky raking is on cooldown, please try again <t:1234:R>."
    );
}

#[test]
fn exp_rolls_stay_in_range() {
    for t in [RakeType::Normal, RakeType::Risky, RakeType::Daily] {
        let (lo, hi) = t.exp_range();
        let mut seen = std::collections::HashSet::new();
        for _ in 0..2000 {
            let e = roll_exp(t);
            assert!(lo <= e && e < hi);
            seen.insert(e);
        }
        assert!(seen.len() > 1);
        assert!(seen.contains(&lo) && seen.contains(&(hi - 1)));
    }
}

#[test]
fn lucky_double() {
    assert_eq!(settle(5, 5), Settlement { exp: 10, leaves: 10, passive: Some(Passive::Lucky) });
    assert_eq!(settle(0, 0), Settlement { exp: 0, leaves: 0, passive: Some(Passive::LuckyZero) });
    assert_eq!(settle(-3, -3), Settlement { exp: -6, leaves: -6, passive: Some(Passive::Unlucky) });
    assert_eq!(settle(5, 6), Settlement { exp: 5, leaves: 6, passive: None });
}

#[test]
fn bonus_thresholds() {
    assert_eq!(bonus_item(0), Some(BaseItem::LeafHandful));
    assert_eq!(bonus_item(499), Some(BaseItem::LeafHandful));
    assert_eq!(bonus_item(500), Some(BaseItem::LeafPile));
    assert_eq!(bonus_item(624), Some(BaseItem::LeafBucket));
    assert_eq!(bonus_item(629), Some(BaseItem::LeafBarrel));
    assert_eq!(bonus_item(630), Some(BaseItem::LeafTruckload));
    assert_eq!(bonus_item(631), None);
    assert_eq!(bonus_item(9999), None);
}

#[test]
fn bonus_rates_count() {
    let mut counts = [0u32; 6];
    for roll in 0..10000 {
        let k = match bonus_item(roll) {
            Some(BaseItem::LeafHandful) => 0,
            Some(BaseItem::LeafPile) => 1,
            Some(BaseItem::LeafBucket) => 2,
            Some(BaseItem::LeafBarrel) => 3,
            Some(BaseItem::LeafTruckload) => 4,
            None => 5,
            Some(_) => panic!("unexpected find"),
        };
        counts[k] += 1;
    }
    assert_eq!(counts, [500, 100, 25, 5, 1, 9369]);
}

#[test]
fn bonus_rolls_are_drawn() {
    let mut nothing = 0;
    for _ in 0..2000 {
        match roll_bonus() {
            None => nothing += 1,
            Some(b) => assert!(b.repr() <= 4),
        }
    }
    assert!(nothing > 1000 && nothing < 2000);
}

#[test]
fn rake_report() {
    let e = rake_embed(RakeType::Normal, 7, -2, &vec![], None, None);
    assert_eq!(e.title, "You raked with `bare hands`.");
    assert_eq!(e.description.as_deref(), Some("`+7 exp`\n`-2 Leaves`"));
    assert_eq!(e.colour, Colour::Positive);
    assert!(e.fields.is_empty());

    let e = rake_embed(
        RakeType::Daily,
        0,
        0,
        &vec![Passive::Lucky, Passive::Unlucky],
        Some(Passive::LuckyZero),
        Some(BaseItem::LeafPile),
    );
    assert_eq!(e.title, "You claimed your daily reward by raking with `bare hands`.");
    assert_eq!(e.description.as_deref(), Some("`+0 exp`\n`+0 Leaves`"));
    assert_eq!(e.fields.len(), 3);
    assert_eq!(e.fields[0].name, "Passives");
    assert_eq!(e.fields[0].value, "\n- Lucky!\n- Unlucky...");
    assert!(!e.fields[0].inline);
    assert_eq!(e.fields[1].name, "Luck o' Clock!");
    assert_eq!(e.fields[1].value, "Luck o' Clock!");
    assert_eq!(e.fields[2].name, "Bonus");
    assert_eq!(e.fields[2].value, "You also found a `Pile of Leaves`!\n*It is now in your inventory.*");
    assert!(e.fields[2].inline);
    assert_eq!(passive_list_text(&vec![]), "");
}

#[test]
fn shop_offer() {
    let (e, w, c) = get_shop(86400);
    let (e, w, c) = (e.into_items(), w.into_items(), c.into_items());
    assert_eq!(e.len(), 4);
    assert_eq!(w.len(), 2);
    assert_eq!(c.len(), 3);
    for x in &e {
        assert!(BaseItem::equipments().contains(x));
        assert_eq!(e.iter().filter(|y| *y == x).count(), 1);
    }
    for x in &w {
        assert!(BaseItem::weapons().contains(x));
        assert_eq!(w.iter().filter(|y| *y == x).count(), 1);
    }
    for x in &c {
        assert!(BaseItem::consumables().contains(x));
        assert_eq!(c.iter().filter(|y| *y == x).count(), 1);
    }
    let (e2, w2, c2) = get_shop(86400);
    assert_eq!((e2.into_items(), w2.into_items(), c2.into_items()), (e, w, c));
}

#[test]
fn shop_offers_vary() {
    let offers: Vec<_> = (1..20u64).map(|d| get_shop(d * 86400).0.into_items()).collect();
    assert!(offers.iter().any(|o| *o != offers[0]));
}

#[test]
fn shop_refresh() {
    assert_eq!(refresh_time(0), 86400);
    assert_eq!(refresh_time(86399), 86400);
    assert_eq!(refresh_time(86400), 172800);
    assert_eq!(refresh_time(1_700_000_000), 1_700_006_400);
}

#[test]
fn passive_expiries() {
    assert_eq!(passive_expiry(Passive::Lucky, 1000), 4600);
    assert_eq!(passive_expiry(Passive::LuckyZero, 0), 10800);
    assert_eq!(passive_expiry(Passive::Unlucky, -600), 0);
}

#[test]
fn weighted_draws() {
    let mut rng = SeededRng::new(7);
    assert_eq!(sample_items(&mut rng, 0, &BaseItem::weapons()).unwrap().into_items(), vec![]);
    assert_eq!(sample_items(&mut rng, 3, &[]).unwrap().into_items(), vec![]);
    assert_eq!(sample_items(&mut rng, 3, &[BaseItem::LeafHandful, BaseItem::LeafPile]).unwrap().into_items(), vec![]);
    let all = sample_items(&mut rng, 100, &BaseItem::weapons()).unwrap().into_items();
    assert_eq!(all.len(), BaseItem::weapons().len());
    for x in BaseItem::weapons() {
        assert_eq!(all.iter().filter(|y| **y == x).count(), 1);
    }
    let mixed = [BaseItem::LeafHandful, BaseItem::Scarf, BaseItem::LeafPile, BaseItem::Coat];
    let two = sample_items(&mut rng, 5, &mixed).unwrap().into_items();
    assert_eq!(two.len(), 2);
    assert!(two.contains(&BaseItem::Scarf) && two.contains(&BaseItem::Coat));
}

#[test]
fn rake_on_cooldown_answers_only() {
    match rake_start(RakeType::Normal, 100, 129) {
        Some(Reply::Text(t)) => assert_eq!(t, "Raking is on cooldown, please try again <t:130:R>."),
        _ => panic!(),
    }
    match rake_start(RakeType::Daily, 0, 71999) {
        Some(Reply::Text(t)) => {
            assert_eq!(t, "You already claimed your daily reward, please try again <t:72000:R>.")
        },
        _ => panic!(),
    }
    assert!(rake_start(RakeType::Normal, 100, 130).is_none());
    assert!(rake_start(RakeType::Daily, 0, 72000).is_none());
}

#[test]
fn rake_stores_what_it_found() {
    let (e, q) = rake_finish(RakeType::Normal, 7, 1000, 3, 4, &vec![], None);
    assert_eq!(q, vec!["UPDATE user SET exp = exp + 3, leaves = leaves + 4, last_raked = 1000 WHERE id = 7".to_string()]);
    assert_eq!(e.description.as_deref(), Some("`+3 exp`\n`+4 Leaves`"));
    assert!(e.fields.is_empty());

    let (e, q) = rake_finish(RakeType::Daily, 7, 1000, 5, 5, &vec![Passive::Unlucky], Some(BaseItem::LeafPile));
    assert_eq!(
        q,
        vec![
            "INSERT OR IGNORE INTO passive (user_id, passive_id, expires_at) VALUES (7, 0, 0)".to_string(),
            "UPDATE passive SET expires_at = 4600 WHERE user_id = 7 AND passive_id = 0".to_string(),
            "UPDATE user SET exp = exp + 10, leaves = leaves + 10, last_daily = 1000 WHERE id = 7".to_string(),
            "INSERT OR IGNORE INTO item (user_id, item_id, quantity) VALUES (7, 1, 0)".to_string(),
            "UPDATE item SET quantity = quantity + 1 WHERE user_id = 7 AND item_id = 1".to_string(),
        ]
    );
    assert_eq!(e.description.as_deref(), Some("`+5 exp`\n`+5 Leaves`"));
    assert_eq!(e.fields.len(), 3);
    assert_eq!(e.fields[0].name, "Passives");
    assert_eq!(e.fields[1].name, "Lucky!");
    assert_eq!(e.fields[2].name, "Bonus");

    let (_, q) = rake_finish(RakeType::Risky, 7, 1000, 0, 0, &vec![], None);
    assert_eq!(q[1], "UPDATE passive SET expires_at = 11800 WHERE user_id = 7 AND passive_id = 1");
    assert_eq!(q[2], "UPDATE user SET exp = exp + 0, leaves = leaves + 0, last_raked = 1000 WHERE id = 7");
    let (_, q) = rake_finish(RakeType::Risky, 7, 1000, -4, -4, &vec![], None);
    assert_eq!(q[1], "UPDATE passive SET expires_at = 1600 WHERE user_id = 7 AND passive_id = 2");
    assert_eq!(q[2], "UPDATE user SET exp = exp + -8, leaves = leaves + -8, last_raked = 1000 WHERE id = 7");
}

#[test]
fn one_seed_one_offer() {
    for day in 1..10u64 {
        let (a, b, c) = get_shop(day * 86400);
        let (x, y, z) = get_shop(day * 86400);
        assert_eq!(a.into_items(), x.into_items());
        assert_eq!(b.into_items(), y.into_items());
        assert_eq!(c.into_items(), z.into_items());
    }
}

#[test]
fn draws_grow_one_at_a_time() {
    let mut rng = SeededRng::new(3);
    let mut d = rake::chance::Draw::new(&rng);
    assert_eq!(d.len(), 0);
    assert_eq!(d.draw_from(&mut rng, &[BaseItem::LeafPile]), None);
    assert_eq!(d.len(), 0);
    assert_eq!(d.draw_from(&mut rng, &[BaseItem::LeafPile, BaseItem::Scarf]), Some(BaseItem::Scarf));
    assert_eq!(d.into_items(), vec![BaseItem::Scarf]);
}
