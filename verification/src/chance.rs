//! Randomness, taken from the `rand` crate.
use vstd::prelude::*;
use rand::SeedableRng;
use rand::rngs::StdRng;
use rand::seq::IndexedRandom;
use crate::items::BaseItem;

verus! {

#[verifier::external_type_specification]
#[verifier::external_body]
pub struct ExStdRng(StdRng);

/// Wrapper of `rand::random_range` on `lo..hi`: a number drawn from the thread's
/// generator, at least `lo` and below `hi`. `random_range` panics on an empty
/// range, hence the `requires`. Which number comes is left unsaid: it is chance.
#[verifier::external_body]
pub(crate) fn random_between(lo: i32, hi: i32) -> (r: i32)
    requires
        lo < hi,
    ensures
        lo <= r < hi,
{
    rand::random_range(lo..hi)
}

/// A generator seeded once from a number, which it keeps as a ghost so that
/// contracts can say which seed a draw came from.
pub struct SeededRng {
    rng: StdRng,
    seed: Ghost<u64>,
}

impl SeededRng {
    /// The number the generator was seeded with.
    pub closed spec fn seed(&self) -> u64 {
        self.seed@
    }

    /// A generator seeded with `seed`.
    pub fn new(seed: u64) -> (r: SeededRng)
        ensures
            r.seed() == seed,
    {
        seeded_rng(seed)
    }
}

/// Wrapper of `StdRng::seed_from_u64`: a generator seeded with `seed`, which
/// records that seed. The generator's state is opaque here; what it will
/// draw is left unsaid (rand documents `StdRng`'s output as not portable).
#[verifier::external_body]
fn seeded_rng(seed: u64) -> (r: SeededRng)
    ensures
        r.seed() == seed,
{
    SeededRng { rng: StdRng::seed_from_u64(seed), seed: Ghost(seed) }
}

/// The number of items of `items` with a positive weight.
pub open spec fn weighted_count(items: Seq<BaseItem>) -> nat
    decreases items.len(),
{
    if items.len() == 0 {
        0
    } else {
        weighted_count(items.drop_last()) + if items.last().spec_weight() > 0 {
            1nat
        } else {
            0nat
        }
    }
}

/// The sum of the weights of `items`.
pub open spec fn total_weight(items: Seq<BaseItem>) -> int
    decreases items.len(),
{
    if items.len() == 0 {
        0
    } else {
        total_weight(items.drop_last()) + items.last().spec_weight()
    }
}

/// Wrapper of `IndexedRandom::choose_weighted` with the item weights: one item
/// of `items`, each as likely as its `u32` weight. rand builds a
/// `WeightedIndex` from the weights, which fails on an empty slice, when every
/// weight is 0 and when the running total overflows `u32`; otherwise it draws
/// a number below the total and returns the item whose share of the total
/// holds it, so an item of weight 0 never comes. Which item comes rests on the
/// generator and is left unsaid; the generator keeps its seed.
#[verifier::external_body]
fn weighted_choice(rng: &mut SeededRng, items: &[BaseItem]) -> (r: Option<BaseItem>)
    ensures
        final(rng).seed() == old(rng).seed(),
        r is Some <==> (weighted_count(items@) > 0 && total_weight(items@) <= u32::MAX),
        r matches Some(b) ==> items@.contains(b) && b.spec_weight() > 0,
{
    match items.choose_weighted(&mut rng.rng, |item: &BaseItem| item.weight()) {
        Ok(item) => Some(*item),
        Err(_) => None,
    }
}

/// Items drawn one at a time by weight from a seeded generator, with the seed
/// of that generator. Only `Draw::new` and `Draw::draw_from` make or grow a
/// draw, so every item in it was chosen by the generator it names.
pub struct Draw {
    items: Vec<BaseItem>,
    seed: Ghost<u64>,
}

impl View for Draw {
    type V = Seq<BaseItem>;

    closed spec fn view(&self) -> Seq<BaseItem> {
        self.items@
    }
}

impl Draw {
    /// The seed of the generator the items were drawn with.
    pub closed spec fn seed(&self) -> u64 {
        self.seed@
    }

    /// A draw with nothing in it yet, to be made with `rng`.
    pub fn new(rng: &SeededRng) -> (r: Draw)
        ensures
            r@ == Seq::<BaseItem>::empty(),
            r.seed() == rng.seed(),
    {
        Draw { items: Vec::new(), seed: Ghost(rng.seed()) }
    }

    /// Draws one more item of `items` with `rng`, each item as likely as its
    /// weight; `None`, and nothing drawn, when no item has a weight or the
    /// weights add up past `u32::MAX`.
    pub fn draw_from(&mut self, rng: &mut SeededRng, items: &[BaseItem]) -> (r: Option<BaseItem>)
        requires
            old(self).seed() == old(rng).seed(),
        ensures
            final(self).seed() == old(self).seed(),
            final(rng).seed() == old(rng).seed(),
            r is Some <==> (weighted_count(items@) > 0 && total_weight(items@) <= u32::MAX),
            r matches Some(b) ==> items@.contains(b) && b.spec_weight() > 0 && final(self)@ == old(self)@.push(b),
            r is None ==> final(self)@ == old(self)@,
    {
        let r = weighted_choice(rng, items);
        match r {
            Some(b) => {
                self.items.push(b);
            },
            None => {},
        }
        r
    }

    /// How many items have been drawn.
    pub fn len(&self) -> (r: usize)
        ensures
            r == self@.len(),
    {
        self.items.len()
    }

    /// The items drawn, in the order they came.
    pub fn into_items(self) -> (r: Vec<BaseItem>)
        ensures
            r@ == self@,
    {
        self.items
    }
}

} // verus!
