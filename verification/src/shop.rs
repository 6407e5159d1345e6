//! The daily shop: which items are on sale, and when the offer changes.
use vstd::prelude::*;
use crate::chance::{Draw, SeededRng, total_weight, weighted_count};
use crate::items::{BaseItem, lemma_shelves};

verus! {

/// Seconds in a day.
pub const DAY: u64 = 86400;

/// Every item of `items` has a positive weight.
pub open spec fn all_weighted(items: Seq<BaseItem>) -> bool {
    forall|i: int| 0 <= i < items.len() ==> #[trigger] items[i].spec_weight() > 0
}

/// A draw of `amount` items from `items`: exactly that many, each one of
/// `items`, none twice.
pub open spec fn is_draw(v: Seq<BaseItem>, items: Seq<BaseItem>, amount: nat) -> bool {
    &&& v.len() == amount
    &&& forall|i: int| 0 <= i < v.len() ==> items.contains(#[trigger] v[i])
    &&& v.no_duplicates()
}

proof fn lemma_weighted_count_all(items: Seq<BaseItem>)
    requires
        all_weighted(items),
    ensures
        weighted_count(items) == items.len(),
    decreases items.len(),
{
    if items.len() > 0 {
        assert(items.last() == items[items.len() - 1]);
        lemma_weighted_count_all(items.drop_last());
    }
}

/// How many items a weighted draw of `amount` from `items` yields: `amount`,
/// or fewer when fewer items have a positive weight.
pub open spec fn sample_size(amount: nat, items: Seq<BaseItem>) -> nat {
    if amount <= weighted_count(items) {
        amount
    } else {
        weighted_count(items)
    }
}

/// Taking out the item at `j` lowers the count of weighted items by one when
/// that item has a weight, and the total weight by its weight.
proof fn lemma_remove_weight(s: Seq<BaseItem>, j: int)
    requires
        0 <= j < s.len(),
    ensures
        weighted_count(s.remove(j)) == weighted_count(s) - (if s[j].spec_weight() > 0 {
            1int
        } else {
            0int
        }),
        total_weight(s.remove(j)) == total_weight(s) - s[j].spec_weight(),
    decreases s.len(),
{
    let t = s.remove(j);
    if j == s.len() - 1 {
        assert(t =~= s.drop_last());
    } else {
        assert(t.drop_last() =~= s.drop_last().remove(j));
        assert(t.last() == s.last());
        lemma_remove_weight(s.drop_last(), j);
    }
}

/// Every weight is at most 64, so a total is at most 64 per item.
proof fn lemma_total_weight_bound(s: Seq<BaseItem>)
    ensures
        0 <= total_weight(s) <= 64 * s.len(),
    decreases s.len(),
{
    if s.len() > 0 {
        lemma_total_weight_bound(s.drop_last());
    }
}

/// How many items of `items` have a positive weight.
fn positive_count(items: &[BaseItem]) -> (n: usize)
    ensures
        n == weighted_count(items@),
{
    let mut n: usize = 0;
    let mut i: usize = 0;
    while i < items.len()
        invariant
            i <= items@.len(),
            n <= i,
            n == weighted_count(items@.take(i as int)),
        decreases items.len() - i,
    {
        assert(items@.take(i + 1).drop_last() =~= items@.take(i as int));
        if items[i].weight() > 0 {
            n = n + 1;
        }
        i = i + 1;
    }
    assert(items@.take(items@.len() as int) =~= items@);
    n
}

/// Draws up to `amount` items of `items`, one after another and each at most
/// once, with the generator `rng`: every draw takes one of the items not yet
/// drawn, each as likely as its weight, so items of weight 0 never come. It
/// stops after `amount` items or when no item with a weight is left. `None`
/// exactly when a draw is due and the weights add up past `u32::MAX`.
pub fn sample_items(rng: &mut SeededRng, amount: usize, items: &[BaseItem]) -> (r: Option<Draw>)
    ensures
        final(rng).seed() == old(rng).seed(),
        r matches Some(d) ==> d.seed() == old(rng).seed(),
        r is None <==> amount > 0 && weighted_count(items@) > 0 && total_weight(items@) > u32::MAX,
        r matches Some(v) ==> {
            &&& v@.len() == sample_size(amount as nat, items@)
            &&& forall|i: int|
                0 <= i < v@.len() ==> items@.contains(#[trigger] v@[i]) && v@[i].spec_weight() > 0
            &&& items@.no_duplicates() ==> v@.no_duplicates()
        },
{
    let mut count = positive_count(items);
    let mut remaining: Vec<BaseItem> = Vec::new();
    let mut i: usize = 0;
    while i < items.len()
        invariant
            i <= items@.len(),
            remaining@ == items@.take(i as int),
        decreases items.len() - i,
    {
        remaining.push(items[i]);
        i = i + 1;
        assert(remaining@ =~= items@.take(i as int));
    }
    assert(items@.take(items@.len() as int) =~= items@);
    let mut chosen = Draw::new(rng);
    while chosen.len() < amount && count > 0
        invariant
            chosen.seed() == rng.seed(),
            rng.seed() == old(rng).seed(),
            count == weighted_count(remaining@),
            chosen@.len() + count == weighted_count(items@),
            chosen@.len() <= amount,
            total_weight(remaining@) <= total_weight(items@),
            chosen@.len() > 0 ==> total_weight(items@) <= u32::MAX,
            chosen@.len() == 0 ==> remaining@ == items@,
            forall|x: BaseItem| remaining@.contains(x) ==> items@.contains(x),
            forall|k: int|
                0 <= k < chosen@.len() ==> items@.contains(#[trigger] chosen@[k]) && chosen@[k].spec_weight() > 0,
            items@.no_duplicates() ==> {
                &&& remaining@.no_duplicates()
                &&& chosen@.no_duplicates()
                &&& forall|k: int| 0 <= k < chosen@.len() ==> !remaining@.contains(#[trigger] chosen@[k])
            },
        decreases count,
    {
        let ghost chosen_before = chosen@;
        let b = match chosen.draw_from(rng, remaining.as_slice()) {
            Some(b) => b,
            None => {
                return None;
            },
        };
        let ghost k0 = choose|k: int| 0 <= k < remaining@.len() && remaining@[k] == b;
        let mut j: usize = 0;
        while remaining[j] != b
            invariant
                0 <= j <= k0 < remaining.len(),
                remaining@[k0] == b,
            decreases k0 - j,
        {
            assert(remaining@[j as int] != b);
            j = j + 1;
        }
        let ghost before = remaining@;
        remaining.remove(j);
        proof {
            lemma_remove_weight(before, j as int);
            before.remove_ensures(j as int);
            assert forall|x: BaseItem| remaining@.contains(x) implies items@.contains(x) by {
                let k = choose|k: int| 0 <= k < remaining@.len() && remaining@[k] == x;
                if k < j {
                    assert(before[k] == x);
                } else {
                    assert(before[k + 1] == x);
                }
            }
            if items@.no_duplicates() {
                assert(!remaining@.contains(b)) by {
                    if remaining@.contains(b) {
                        let k = choose|k: int| 0 <= k < remaining@.len() && remaining@[k] == b;
                        if k < j {
                            assert(before[k] == before[j as int]);
                        } else {
                            assert(before[k + 1] == before[j as int]);
                        }
                    }
                }
                assert(remaining@.no_duplicates()) by {
                    assert forall|p: int, q: int|
                        0 <= p < remaining@.len() && 0 <= q < remaining@.len() && p != q implies remaining@[p]
                        != remaining@[q] by {
                        let pp = if p < j { p } else { p + 1 };
                        let qq = if q < j { q } else { q + 1 };
                        assert(remaining@[p] == before[pp]);
                        assert(remaining@[q] == before[qq]);
                    }
                }
                assert(!chosen_before.contains(b)) by {
                    if chosen_before.contains(b) {
                        let k = choose|k: int| 0 <= k < chosen_before.len() && chosen_before[k] == b;
                        assert(before.contains(chosen_before[k]));
                    }
                }
            }
        }
        count = count - 1;
        proof {
            assert(chosen@ == chosen_before.push(b));
            assert(chosen@[chosen_before.len() as int] == b);
            assert forall|k: int| 0 <= k < chosen@.len() implies items@.contains(#[trigger] chosen@[k])
                && chosen@[k].spec_weight() > 0 by {
                if k < chosen_before.len() {
                    assert(chosen@[k] == chosen_before[k]);
                } else {
                    assert(before.contains(b));
                }
            }
            if items@.no_duplicates() {
                assert forall|k: int| 0 <= k < chosen@.len() implies !remaining@.contains(#[trigger] chosen@[k]) by {
                    if k < chosen_before.len() {
                        assert(chosen@[k] == chosen_before[k]);
                        if remaining@.contains(chosen@[k]) {
                            let m = choose|m: int| 0 <= m < remaining@.len() && remaining@[m] == chosen@[k];
                            if m < j {
                                assert(before[m] == chosen_before[k]);
                            } else {
                                assert(before[m + 1] == chosen_before[k]);
                            }
                        }
                    }
                }
                assert(chosen@.no_duplicates()) by {
                    assert forall|p: int, q: int|
                        0 <= p < chosen@.len() && 0 <= q < chosen@.len() && p != q implies chosen@[p]
                        != chosen@[q] by {
                        if p < chosen_before.len() && q < chosen_before.len() {
                            assert(chosen@[p] == chosen_before[p]);
                            assert(chosen@[q] == chosen_before[q]);
                        } else if p < chosen_before.len() {
                            assert(chosen@[p] == chosen_before[p]);
                            assert(chosen_before.contains(chosen_before[p]));
                        } else if q < chosen_before.len() {
                            assert(chosen@[q] == chosen_before[q]);
                            assert(chosen_before.contains(chosen_before[q]));
                        }
                    }
                }
            }
        }
    }
    Some(chosen)
}

/// The shop's offer for a seed: four equipments, two weapons and three
/// consumables, drawn in that order by weight, none twice, from one generator
/// seeded with `seed`.
pub fn get_shop(seed: u64) -> (r: (Draw, Draw, Draw))
    ensures
        r.0.seed() == seed,
        r.1.seed() == seed,
        r.2.seed() == seed,
        is_draw(r.0@, BaseItem::spec_equipments(), 4),
        is_draw(r.1@, BaseItem::spec_weapons(), 2),
        is_draw(r.2@, BaseItem::spec_consumables(), 3),
{
    let mut rng = SeededRng::new(seed);
    let equipments = BaseItem::equipments();
    let weapons = BaseItem::weapons();
    let consumables = BaseItem::consumables();
    proof {
        lemma_shelves(BaseItem::Scarf);
        assert forall|i: int| 0 <= i < equipments@.len() implies #[trigger] equipments@[i].spec_weight() > 0 by {
            lemma_shelves(equipments@[i]);
        }
        assert forall|i: int| 0 <= i < weapons@.len() implies #[trigger] weapons@[i].spec_weight() > 0 by {
            lemma_shelves(weapons@[i]);
        }
        assert forall|i: int| 0 <= i < consumables@.len() implies #[trigger] consumables@[i].spec_weight() > 0 by {
            lemma_shelves(consumables@[i]);
        }
        lemma_weighted_count_all(equipments@);
        lemma_weighted_count_all(weapons@);
        lemma_weighted_count_all(consumables@);
        lemma_total_weight_bound(equipments@);
        lemma_total_weight_bound(weapons@);
        lemma_total_weight_bound(consumables@);
    }
    let e = sample_items(&mut rng, 4, equipments.as_slice()).unwrap();
    let w = sample_items(&mut rng, 2, weapons.as_slice()).unwrap();
    let c = sample_items(&mut rng, 3, consumables.as_slice()).unwrap();
    (e, w, c)
}

/// When the shop next changes its offer: the start of the next day, counted
/// in seconds since the epoch.
pub open spec fn refresh_time_spec(timestamp: i64) -> int {
    ((timestamp as u64) / DAY + 1) as int * (DAY as int)
}

/// The time of the next change of the shop's offer.
pub fn refresh_time(timestamp: i64) -> (r: u64)
    requires
        refresh_time_spec(timestamp) <= u64::MAX,
    ensures
        r as int == refresh_time_spec(timestamp),
{
    (timestamp as u64 / DAY + 1) * DAY
}

} // verus!
