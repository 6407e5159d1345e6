use rake::inventory::{Item, ShopRep, inventory_text};
use rake::items::{BaseItem, Limb, Modifier};
use rake::passive::Passive;

fn cs(s: &str) -> Vec<char> {
    s.chars().collect()
}

#[test]
fn item_tables() {
    assert_eq!(BaseItem::Tshirt.name(), "T-Shirt");
    assert_eq!(BaseItem::Coat.buying_price(), 1999);
    assert_eq!(BaseItem::Coat.selling_price(), 50);
    assert_eq!(BaseItem::FriedSnow.selling_price(), -99999);
    assert_eq!(BaseItem::PropellerHat.description(), "\"Become an attack helicopter today!\"");
    assert_eq!(BaseItem::PropellerHat.weight(), 2);
    assert_eq!(BaseItem::LeafBarrel.weight(), 0);
    assert_eq!(BaseItem::Scarf.repr(), 33);
    assert_eq!(BaseItem::from_repr(33), Some(BaseItem::Scarf));
    assert_eq!(BaseItem::from_repr(34), None);
    assert_eq!(Modifier::from_repr(8), Some(Modifier::Legendary));
    assert_eq!(Modifier::from_repr(9), None);
    assert_eq!(Modifier::Intimidating.repr(), 6);
}

#[test]
fn names_read_back() {
    for i in 0..34 {
        let b = BaseItem::from_repr(i).unwrap();
        assert_eq!(BaseItem::from_str(b.name()), Some(b));
        assert_eq!(BaseItem::from_repr(b.repr() as usize), Some(b));
    }
    for i in 0..9 {
        let m = Modifier::from_repr(i).unwrap();
        assert_eq!(Modifier::from_name(&cs(m.name())), Some(m));
    }
    assert_eq!(BaseItem::from_str("t-shirt"), None);
    assert_eq!(BaseItem::from_str("TankTop"), None);
}

#[test]
fn selling_never_beats_buying() {
    for i in 0..34 {
        let b = BaseItem::from_repr(i).unwrap();
        assert!(b.selling_price() <= b.buying_price());
    }
}

#[test]
fn equipment_iff_limbs() {
    for i in 0..34 {
        let b = BaseItem::from_repr(i).unwrap();
        assert_eq!(b.is_equipment(), !b.equipable_limbs().is_empty());
    }
    assert_eq!(
        BaseItem::Coat.equipable_limbs(),
        vec![Limb::Torso, Limb::LeftUpperArm, Limb::RightUpperArm, Limb::LeftLowerArm, Limb::RightLowerArm]
    );
    assert_eq!(BaseItem::Scarf.equipable_limbs(), vec![Limb::Neck]);
    assert!(BaseItem::Milk.equipable_limbs().is_empty());
}

#[test]
fn shelves_are_weighted_and_disjoint() {
    let e = BaseItem::equipments();
    let w = BaseItem::weapons();
    let c = BaseItem::consumables();
    for i in 0..34 {
        let b = BaseItem::from_repr(i).unwrap();
        let on_shelf = e.contains(&b) as u8 + w.contains(&b) as u8 + c.contains(&b) as u8;
        assert!(on_shelf <= 1);
        assert_eq!(b.weight() > 0, on_shelf == 1);
    }
}

#[test]
fn item_from_str_cases() {
    assert_eq!(
        Item::from_str("Lousy Sneaker 3"),
        Some(Item { base: BaseItem::Sneaker, quality: 3, modifier: Modifier::Lousy })
    );
    assert_eq!(Item::from_str("Sneaker"), Some(Item::from_base(BaseItem::Sneaker)));
    assert_eq!(
        Item::from_str("Heavy Coat"),
        Some(Item { base: BaseItem::Coat, quality: 0, modifier: Modifier::Heavy })
    );
    assert_eq!(
        Item::from_str("Normal Tank Top 5"),
        Some(Item { base: BaseItem::TankTop, quality: 5, modifier: Modifier::Normal })
    );
    assert_eq!(
        Item::from_str("Tank Top"),
        Some(Item { base: BaseItem::TankTop, quality: 0, modifier: Modifier::Normal })
    );
    assert_eq!(
        Item::from_str("T-Shirt 3"),
        Some(Item { base: BaseItem::Tshirt, quality: 3, modifier: Modifier::Normal })
    );
    assert_eq!(
        Item::from_str("Normal Tank Top"),
        Some(Item { base: BaseItem::TankTop, quality: 0, modifier: Modifier::Normal })
    );
    assert_eq!(
        Item::from_str("Tank Top 255"),
        Some(Item { base: BaseItem::TankTop, quality: 255, modifier: Modifier::Normal })
    );
    assert_eq!(Item::from_str("Heavy 5"), None);
    assert_eq!(Item::from_str("Heavy"), None);
    assert_eq!(Item::from_str("Tank Top x"), None);
    assert_eq!(Item::from_str("Tank  Top"), None);
    assert_eq!(Item::from_str("Heavy Coat 256"), None);
    assert_eq!(Item::from_str("Bogus Coat"), None);
    assert_eq!(Item::from_str("Heavy Coat x"), None);
    assert_eq!(Item::from_str(""), None);
}

#[test]
fn full_names_read_back() {
    let item = Item { base: BaseItem::Jacket, quality: 17, modifier: Modifier::Superior };
    assert_eq!(item.full_name(), "Superior Jacket");
    assert_eq!(Item::from_str(&item.full_name()), Some(Item { quality: 0, ..item }));
    assert_eq!(Item::from_str(&format!("{} {}", item.full_name(), item.quality)), Some(item));
}

#[test]
fn owned_lines() {
    let sneaker = Item { base: BaseItem::Sneaker, quality: 7, modifier: Modifier::Lousy };
    assert_eq!(sneaker.with_quantity(3), format!("`{:<40}`", "3 of Lousy Sneaker"));
    assert_eq!(
        sneaker.with_quality(3),
        format!("`{:<40}` - \u{1F315}\u{1F317}\u{1F311}\u{1F311}", "3 of Lousy Sneaker")
    );
    assert_eq!(sneaker.as_owned(3), sneaker.with_quality(3));
    let top = Item { quality: 20, ..sneaker };
    assert!(top.with_quality(1).ends_with("- \u{1F315}\u{1F315}\u{1F315}\u{1F315}"));
    let bottom = Item { quality: 0, ..sneaker };
    assert!(bottom.with_quality(1).ends_with("- \u{1F311}\u{1F311}\u{1F311}\u{1F311}"));
    let milk = Item::from_base(BaseItem::Milk);
    assert_eq!(milk.as_owned(2), milk.with_quantity(2));
}

#[test]
fn shop_lines() {
    let list = vec![BaseItem::Sneaker, BaseItem::Coat];
    assert_eq!(
        list.shop_rep(1),
        format!("1. `{:<24}{:>6} Leaves`\n1. `{:<24}{:>6} Leaves`\n", "Sneaker", 20, "Coat", 1999)
    );
    assert_eq!(Vec::<BaseItem>::new().shop_rep(5), "");
}

#[test]
fn inventory_listing() {
    let items = vec![
        (Item::from_base(BaseItem::Milk), 2),
        (Item { base: BaseItem::Scarf, quality: 5, modifier: Modifier::Dull }, 1),
    ];
    let expected = format!(
        "{}\n{}\n\nYour Leaves: -12",
        items[0].0.with_quantity(2),
        items[1].0.with_quality(1)
    );
    assert_eq!(inventory_text(&items, -12), expected);
    assert_eq!(inventory_text(&Vec::new(), 0), "\n\nYour Leaves: 0");
}

#[test]
fn passives_table() {
    assert_eq!(Passive::Lucky.duration(), 3600);
    assert_eq!(Passive::LuckyZero.duration(), 10800);
    assert_eq!(Passive::Unlucky.duration(), 600);
    assert_eq!(Passive::LuckyZero.name(), "Luck o' Clock!");
    assert_eq!(Passive::from_repr(2), Some(Passive::Unlucky));
    assert_eq!(Passive::from_repr(3), None);
    assert_eq!(Passive::Unlucky.repr(), 2);
    assert!(Passive::Lucky.description().ends_with("(1 hour)"));
}

#[test]
fn rows_to_items() {
    assert_eq!(
        Item::from_row(7, 4, 1),
        Some(Item { base: BaseItem::Sneaker, quality: 4, modifier: Modifier::Lousy })
    );
    assert_eq!(Item::from_row(40, 4, 1), None);
    assert_eq!(Item::from_row(7, 4, 9), None);
}

#[test]
fn every_full_name_reads_back() {
    for i in 0..34 {
        let base = BaseItem::from_repr(i).unwrap();
        for j in 0..9 {
            let modifier = Modifier::from_repr(j).unwrap();
            for quality in [0u8, 1, 20, 255] {
                let item = Item { base, quality, modifier };
                assert_eq!(Item::from_str(&format!("{} {}", item.full_name(), quality)), Some(item));
                assert_eq!(Item::from_str(&item.full_name()), Some(Item { quality: 0, ..item }));
            }
        }
        assert_eq!(Item::from_str(base.name()), Some(Item::from_base(base)));
        assert_eq!(Item::from_str(&format!("{} 9", base.name())), Some(Item { quality: 9, ..Item::from_base(base) }));
    }
}

#[test]
fn descriptions_are_distinct() {
    for i in 0..34 {
        let a = BaseItem::from_repr(i).unwrap();
        assert!(!a.description().is_empty());
        for j in 0..34 {
            let b = BaseItem::from_repr(j).unwrap();
            if i != j {
                assert_ne!(a.description(), b.description());
            }
        }
    }
    assert_eq!(BaseItem::LeafBucket.description(), "A bucket o' leaves.");
    assert_eq!(BaseItem::LegSleeve.description(), "Prevent shin splits");
}

#[test]
fn limbs_come_in_pairs() {
    fn mirror(l: Limb) -> Limb {
        match l {
            Limb::LeftUpperArm => Limb::RightUpperArm,
            Limb::RightUpperArm => Limb::LeftUpperArm,
            Limb::LeftLowerArm => Limb::RightLowerArm,
            Limb::RightLowerArm => Limb::LeftLowerArm,
            Limb::LeftHand => Limb::RightHand,
            Limb::RightHand => Limb::LeftHand,
            Limb::LeftUpperLeg => Limb::RightUpperLeg,
            Limb::RightUpperLeg => Limb::LeftUpperLeg,
            Limb::LeftLowerLeg => Limb::RightLowerLeg,
            Limb::RightLowerLeg => Limb::LeftLowerLeg,
            Limb::LeftFoot => Limb::RightFoot,
            Limb::RightFoot => Limb::LeftFoot,
            other => other,
        }
    }
    for i in 0..34 {
        let limbs = BaseItem::from_repr(i).unwrap().equipable_limbs();
        for (k, l) in limbs.iter().enumerate() {
            assert!(limbs.contains(&mirror(*l)));
            assert!(!limbs[k + 1..].contains(l));
        }
    }
    assert_eq!(BaseItem::Sneaker.equipable_limbs(), vec![Limb::LeftFoot, Limb::RightFoot]);
}

#[test]
fn shelves_cover_every_item_once() {
    let mut all: Vec<BaseItem> = Vec::new();
    all.extend(BaseItem::equipments());
    all.extend(BaseItem::weapons());
    all.extend(BaseItem::consumables());
    all.extend([
        BaseItem::LeafHandful,
        BaseItem::LeafPile,
        BaseItem::LeafBucket,
        BaseItem::LeafBarrel,
        BaseItem::LeafTruckload,
    ]);
    assert_eq!(all.len(), 34);
    for i in 0..34 {
        let b = BaseItem::from_repr(i).unwrap();
        assert_eq!(all.iter().filter(|x| **x == b).count(), 1);
    }
}
