//! Raking: cooldowns, experience, the lucky double, bonus finds and the
//! message that reports them.
use vstd::prelude::*;
use vstd::set_lib::set_int_range;
use crate::chance::random_between;
use crate::embed::{Colour, Embed, EmbedView, Reply, ReplyView, described, titled, with_field};
use crate::inventory::Item;
use crate::items::Modifier;
use crate::items::BaseItem;
use crate::passive::Passive;
use crate::queries::{
    add_item_queries, add_item_spec, add_passive_queries, add_passive_spec, update_raking_query, update_raking_spec,
};
use crate::text::{decimal_int, decimal_signed, push_char, push_int, push_signed, push_str};

verus! {

/// The three ways to rake.
#[derive(Clone, Copy, PartialEq, Eq, Structural, Debug)]
pub enum RakeType {
    Normal,
    Risky,
    Daily,
}

/// Which cooldown a rake uses.
#[derive(Clone, Copy, PartialEq, Eq, Structural, Debug)]
pub enum CooldownField {
    LastRaked,
    LastDaily,
}

impl CooldownField {
    pub open spec fn spec_column(self) -> Seq<char> {
        match self {
            CooldownField::LastRaked => "last_raked"@,
            CooldownField::LastDaily => "last_daily"@,
        }
    }

    /// The column that keeps the time of the last rake of this kind.
    pub fn column(&self) -> (r: &'static str)
        ensures
            r@ == self.spec_column(),
    {
        match self {
            CooldownField::LastRaked => "last_raked",
            CooldownField::LastDaily => "last_daily",
        }
    }
}

impl RakeType {
    /// Seconds to wait between two rakes: 30, 60, and 20 hours for the daily reward.
    pub open spec fn spec_delay(self) -> int {
        match self {
            RakeType::Normal => 30,
            RakeType::Risky => 60,
            RakeType::Daily => 72000,
        }
    }

    pub open spec fn spec_field(self) -> CooldownField {
        match self {
            RakeType::Daily => CooldownField::LastDaily,
            _ => CooldownField::LastRaked,
        }
    }

    /// The experience a rake gives lies in `lo..hi`.
    pub open spec fn spec_exp_range(self) -> (int, int) {
        match self {
            RakeType::Normal => (5, 11),
            RakeType::Risky => (-10, 41),
            RakeType::Daily => (200, 241),
        }
    }

    pub open spec fn spec_remark(self) -> Seq<char> {
        match self {
            RakeType::Normal => "You raked"@,
            RakeType::Risky => "With great risk, you raked"@,
            RakeType::Daily => "You claimed your daily reward by raking"@,
        }
    }

    pub open spec fn spec_cooldown_notice(self) -> Seq<char> {
        match self {
            RakeType::Normal => "Raking is on cooldown"@,
            RakeType::Risky => "Risky raking is on cooldown"@,
            RakeType::Daily => "You already claimed your daily reward"@,
        }
    }

    pub fn delay(&self) -> (r: i64)
        ensures
            r as int == self.spec_delay(),
    {
        match self {
            RakeType::Normal => 30,
            RakeType::Risky => 60,
            RakeType::Daily => 72000,
        }
    }

    pub fn field(&self) -> (r: CooldownField)
        ensures
            r == self.spec_field(),
    {
        match self {
            RakeType::Daily => CooldownField::LastDaily,
            _ => CooldownField::LastRaked,
        }
    }

    pub fn exp_range(&self) -> (r: (i32, i32))
        ensures
            (r.0 as int, r.1 as int) == self.spec_exp_range(),
    {
        match self {
            RakeType::Normal => (5, 11),
            RakeType::Risky => (-10, 41),
            RakeType::Daily => (200, 241),
        }
    }

    pub fn remark(&self) -> (r: &'static str)
        ensures
            r@ == self.spec_remark(),
    {
        match self {
            RakeType::Normal => "You raked",
            RakeType::Risky => "With great risk, you raked",
            RakeType::Daily => "You claimed your daily reward by raking",
        }
    }

    pub fn cooldown_notice(&self) -> (r: &'static str)
        ensures
            r@ == self.spec_cooldown_notice(),
    {
        match self {
            RakeType::Normal => "Raking is on cooldown",
            RakeType::Risky => "Risky raking is on cooldown",
            RakeType::Daily => "You already claimed your daily reward",
        }
    }
}

/// When the next rake of this kind is allowed, if it is not yet allowed at `now`.
pub open spec fn cooldown_spec(rake_type: RakeType, last: int, now: int) -> Option<int> {
    let next = last + rake_type.spec_delay();
    if next > now {
        Some(next)
    } else {
        None
    }
}

/// `Some(next)` when a rake at `now`, after one at `last`, is still on cooldown
/// until `next`; `None` when it may go ahead.
pub fn cooldown(rake_type: RakeType, last: i64, now: i64) -> (r: Option<i64>)
    requires
        last + rake_type.spec_delay() <= i64::MAX,
    ensures
        r matches Some(next) ==> cooldown_spec(rake_type, last as int, now as int) == Some(next as int),
        r is None ==> cooldown_spec(rake_type, last as int, now as int) is None,
{
    let next = last + rake_type.delay();
    if next > now {
        Some(next)
    } else {
        None
    }
}

pub open spec fn cooldown_text_spec(rake_type: RakeType, next: int) -> Seq<char> {
    rake_type.spec_cooldown_notice() + ", please try again <t:"@ + decimal_int(next) + ":R>."@
}

/// The reply to a rake that is on cooldown.
pub fn cooldown_text(rake_type: RakeType, next: i64) -> (r: String)
    ensures
        r@ == cooldown_text_spec(rake_type, next as int),
{
    let mut r = String::new();
    push_str(&mut r, rake_type.cooldown_notice());
    push_str(&mut r, ", please try again <t:");
    push_int(&mut r, next);
    push_str(&mut r, ":R>.");
    assert(r@ =~= cooldown_text_spec(rake_type, next as int));
    r
}

/// The experience of a rake, drawn at random from the rake's range.
pub fn roll_exp(rake_type: RakeType) -> (r: i32)
    ensures
        rake_type.spec_exp_range().0 <= r < rake_type.spec_exp_range().1,
        rake_type == RakeType::Normal ==> 5 <= r <= 10,
        rake_type == RakeType::Risky ==> -10 <= r <= 40,
        rake_type == RakeType::Daily ==> 200 <= r <= 240,
{
    let (lo, hi) = rake_type.exp_range();
    random_between(lo, hi)
}

/// What a rake finally gives, after the lucky double.
#[derive(Clone, Copy, PartialEq, Eq, Structural, Debug)]
pub struct Settlement {
    pub exp: i32,
    pub leaves: i32,
    pub passive: Option<Passive>,
}

/// The passive a lucky double grants, by the sign of the doubled experience.
pub open spec fn lucky_passive(exp: int) -> Passive {
    if exp == 0 {
        Passive::LuckyZero
    } else if exp > 0 {
        Passive::Lucky
    } else {
        Passive::Unlucky
    }
}

/// When experience and Leaves come out equal, both double and a passive is
/// granted: "Luck o' Clock!" on zero, "Lucky!" when positive, "Unlucky..."
/// when negative. Otherwise nothing changes.
pub fn settle(exp: i32, leaves: i32) -> (r: Settlement)
    requires
        exp == leaves ==> i32::MIN <= 2 * exp <= i32::MAX,
    ensures
        exp == leaves ==> r == (Settlement {
            exp: (2 * exp) as i32,
            leaves: (2 * leaves) as i32,
            passive: Some(lucky_passive(2 * exp)),
        }),
        exp != leaves ==> r == (Settlement { exp, leaves, passive: None }),
{
    if exp == leaves {
        let exp = exp + exp;
        let leaves = leaves + leaves;
        let passive = if exp == 0 {
            Passive::LuckyZero
        } else if exp > 0 {
            Passive::Lucky
        } else {
            Passive::Unlucky
        };
        Settlement { exp, leaves, passive: Some(passive) }
    } else {
        Settlement { exp, leaves, passive: None }
    }
}

/// When a passive granted at `time` runs out.
pub fn passive_expiry(passive: Passive, time: i64) -> (r: i64)
    requires
        time + passive.spec_duration() <= i64::MAX,
    ensures
        r == time + passive.spec_duration(),
{
    time + passive.duration()
}

/// The item found alongside a rake, by a roll out of 10000.
pub open spec fn bonus_item_spec(roll: int) -> Option<BaseItem> {
    if roll < 500 {
        Some(BaseItem::LeafHandful)
    } else if roll < 600 {
        Some(BaseItem::LeafPile)
    } else if roll < 625 {
        Some(BaseItem::LeafBucket)
    } else if roll < 630 {
        Some(BaseItem::LeafBarrel)
    } else if roll < 631 {
        Some(BaseItem::LeafTruckload)
    } else {
        None
    }
}

/// The item a roll out of 10000 finds.
pub fn bonus_item(roll: i32) -> (r: Option<BaseItem>)
    ensures
        r == bonus_item_spec(roll as int),
{
    if roll < 500 {
        Some(BaseItem::LeafHandful)
    } else if roll < 600 {
        Some(BaseItem::LeafPile)
    } else if roll < 625 {
        Some(BaseItem::LeafBucket)
    } else if roll < 630 {
        Some(BaseItem::LeafBarrel)
    } else if roll < 631 {
        Some(BaseItem::LeafTruckload)
    } else {
        None
    }
}

/// Rolls for a bonus find.
pub fn roll_bonus() -> (r: Option<BaseItem>)
    ensures
        exists|roll: int| 0 <= roll < 10000 && r == bonus_item_spec(roll),
{
    let roll = random_between(0, 10000);
    bonus_item(roll)
}

/// The rolls out of 10000 that find `item` (or nothing, for `None`).
pub open spec fn rolls_finding(item: Option<BaseItem>) -> Set<int> {
    Set::new(|roll: int| 0 <= roll < 10000 && bonus_item_spec(roll) == item)
}

/// The bonus finds come at the advertised rates: a Handful of Leaves on 5% of
/// rolls, a Pile on 1%, a Bucket on 0.25%, a Barrel on 0.05% and a Truckload on
/// 0.01%; the other 93.69% find nothing.
pub proof fn lemma_bonus_rates()
    ensures
        rolls_finding(Some(BaseItem::LeafHandful)).len() == 500,
        rolls_finding(Some(BaseItem::LeafPile)).len() == 100,
        rolls_finding(Some(BaseItem::LeafBucket)).len() == 25,
        rolls_finding(Some(BaseItem::LeafBarrel)).len() == 5,
        rolls_finding(Some(BaseItem::LeafTruckload)).len() == 1,
        rolls_finding(None).len() == 9369,
{
    vstd::set_lib::lemma_int_range(0, 500);
    vstd::set_lib::lemma_int_range(500, 600);
    vstd::set_lib::lemma_int_range(600, 625);
    vstd::set_lib::lemma_int_range(625, 630);
    vstd::set_lib::lemma_int_range(630, 631);
    vstd::set_lib::lemma_int_range(631, 10000);
    assert(rolls_finding(Some(BaseItem::LeafHandful)) =~= set_int_range(0, 500));
    assert(rolls_finding(Some(BaseItem::LeafPile)) =~= set_int_range(500, 600));
    assert(rolls_finding(Some(BaseItem::LeafBucket)) =~= set_int_range(600, 625));
    assert(rolls_finding(Some(BaseItem::LeafBarrel)) =~= set_int_range(625, 630));
    assert(rolls_finding(Some(BaseItem::LeafTruckload)) =~= set_int_range(630, 631));
    assert(rolls_finding(None) =~= set_int_range(631, 10000));
}

/// The names of the passives that took effect, each on its own `- ` line.
pub open spec fn passive_list(ps: Seq<Passive>) -> Seq<char>
    decreases ps.len(),
{
    if ps.len() == 0 {
        Seq::empty()
    } else {
        passive_list(ps.drop_last()) + "\n- "@ + ps.last().spec_name()
    }
}

pub fn passive_list_text(ps: &Vec<Passive>) -> (r: String)
    ensures
        r@ == passive_list(ps@),
{
    let mut r = String::new();
    let mut i: usize = 0;
    while i < ps.len()
        invariant
            i <= ps@.len(),
            r@ == passive_list(ps@.take(i as int)),
        decreases ps.len() - i,
    {
        push_str(&mut r, "\n- ");
        push_str(&mut r, ps[i].name());
        proof {
            assert(ps@.take(i + 1).drop_last() =~= ps@.take(i as int));
        }
        i = i + 1;
        assert(r@ =~= passive_list(ps@.take(i as int)));
    }
    assert(ps@.take(ps@.len() as int) =~= ps@);
    r
}

pub open spec fn bonus_text(item: BaseItem) -> Seq<char> {
    "You also found a `"@ + item.spec_name() + "`!\n*It is now in your inventory.*"@
}

/// The report of a rake: the experience and Leaves drawn, the passives that
/// took effect, the lucky double and the bonus find.
pub open spec fn rake_embed_spec(
    rake_type: RakeType,
    exp: int,
    leaves: int,
    passives: Seq<Passive>,
    lucky: Option<Passive>,
    bonus: Option<BaseItem>,
) -> EmbedView {
    let e0 = described(
        titled(rake_type.spec_remark() + " with `bare hands`."@, Colour::Positive),
        seq!['`'] + decimal_signed(exp) + " exp`\n`"@ + decimal_signed(leaves) + " Leaves`"@,
    );
    let e1 = if passives.len() > 0 {
        with_field(e0, "Passives"@, passive_list(passives), false)
    } else {
        e0
    };
    let e2 = match lucky {
        Some(p) => with_field(e1, p.spec_name(), p.spec_name(), false),
        None => e1,
    };
    match bonus {
        Some(item) => with_field(e2, "Bonus"@, bonus_text(item), true),
        None => e2,
    }
}

/// The report of a rake.
pub fn rake_embed(
    rake_type: RakeType,
    exp: i32,
    leaves: i32,
    passives: &Vec<Passive>,
    lucky: Option<Passive>,
    bonus: Option<BaseItem>,
) -> (r: Embed)
    ensures
        r@ == rake_embed_spec(rake_type, exp as int, leaves as int, passives@, lucky, bonus),
{
    let mut title = String::new();
    push_str(&mut title, rake_type.remark());
    push_str(&mut title, " with `bare hands`.");
    let mut d = String::new();
    push_char(&mut d, '`');
    push_signed(&mut d, exp as i64);
    push_str(&mut d, " exp`\n`");
    push_signed(&mut d, leaves as i64);
    push_str(&mut d, " Leaves`");
    assert(title@ =~= rake_type.spec_remark() + " with `bare hands`."@);
    assert(d@ =~= seq!['`'] + decimal_signed(exp as int) + " exp`\n`"@ + decimal_signed(leaves as int)
        + " Leaves`"@);
    let mut e = Embed::new(title, Colour::Positive).description(d);
    if passives.len() > 0 {
        e = e.field("Passives".to_owned(), passive_list_text(passives), false);
    }
    match lucky {
        Some(p) => {
            e = e.field(p.name().to_owned(), p.name().to_owned(), false);
        },
        None => {},
    }
    match bonus {
        Some(item) => {
            let mut t = String::new();
            push_str(&mut t, "You also found a `");
            push_str(&mut t, item.name());
            push_str(&mut t, "`!\n*It is now in your inventory.*");
            assert(t@ =~= bonus_text(item));
            e = e.field("Bonus".to_owned(), t, true);
        },
        None => {},
    }
    e
}

/// The reply to a rake that is still on cooldown, or `None` when it may go
/// ahead. A rake on cooldown stores nothing: only the reply goes out.
pub fn rake_start(rake_type: RakeType, last: i64, now: i64) -> (r: Option<Reply>)
    requires
        last + rake_type.spec_delay() <= i64::MAX,
    ensures
        r is None <==> cooldown_spec(rake_type, last as int, now as int) is None,
        r matches Some(t) ==> t@ == ReplyView::Text(
            cooldown_text_spec(rake_type, last + rake_type.spec_delay()),
        ),
{
    match cooldown(rake_type, last, now) {
        Some(next) => Some(Reply::Text(cooldown_text(rake_type, next))),
        None => None,
    }
}

/// The passive a rake grants: one on a lucky double, none otherwise.
pub open spec fn settle_passive(exp: i32, leaves: i32) -> Option<Passive> {
    if exp == leaves {
        Some(lucky_passive(2 * exp))
    } else {
        None
    }
}

/// The experience a rake stores, doubled on a lucky double.
pub open spec fn settled_exp(exp: i32, leaves: i32) -> int {
    if exp == leaves {
        2 * exp
    } else {
        exp as int
    }
}

/// The Leaves a rake stores, doubled on a lucky double.
pub open spec fn settled_leaves(exp: i32, leaves: i32) -> int {
    if exp == leaves {
        2 * leaves
    } else {
        leaves as int
    }
}

/// The statements that put a granted passive on a user until `now` plus its
/// duration; none when no passive is granted.
pub open spec fn passive_statements(user_id: int, now: int, passive: Option<Passive>) -> Seq<Seq<char>> {
    match passive {
        Some(p) => {
            let q = add_passive_spec(user_id, now + p.spec_duration(), p);
            seq![q.0, q.1]
        },
        None => Seq::empty(),
    }
}

/// The statements that give a user one plain item of the kind found; none
/// when nothing is found.
pub open spec fn bonus_statements(user_id: int, bonus: Option<BaseItem>) -> Seq<Seq<char>> {
    match bonus {
        Some(b) => {
            let q = add_item_spec(user_id, Item { base: b, quality: 0, modifier: Modifier::Normal });
            seq![q.0, q.1]
        },
        None => Seq::empty(),
    }
}

/// Everything a rake that goes ahead stores, in order: the passive of a lucky
/// double, the experience and Leaves with the time of the rake in the rake's
/// cooldown column, and the bonus find.
pub open spec fn rake_statements(
    rake_type: RakeType,
    user_id: int,
    now: int,
    exp: i32,
    leaves: i32,
    bonus: Option<BaseItem>,
) -> Seq<Seq<char>> {
    passive_statements(user_id, now, settle_passive(exp, leaves)) + seq![
        update_raking_spec(
            user_id,
            settled_exp(exp, leaves),
            settled_leaves(exp, leaves),
            rake_type.spec_field().spec_column(),
            now,
        ),
    ] + bonus_statements(user_id, bonus)
}

/// What a rake that goes ahead answers and stores, given its draws: the
/// experience `exp` and Leaves `leaves` drawn, the passives that took effect
/// and the bonus find.
pub fn rake_finish(
    rake_type: RakeType,
    user_id: i64,
    now: i64,
    exp: i32,
    leaves: i32,
    active: &Vec<Passive>,
    bonus: Option<BaseItem>,
) -> (r: (Embed, Vec<String>))
    requires
        exp == leaves ==> i32::MIN <= 2 * exp <= i32::MAX,
        settle_passive(exp, leaves) matches Some(p) ==> now + p.spec_duration() <= i64::MAX,
    ensures
        r.0@ == rake_embed_spec(rake_type, exp as int, leaves as int, active@, settle_passive(exp, leaves), bonus),
        r.1@.map_values(|q: String| q@) == rake_statements(rake_type, user_id as int, now as int, exp, leaves, bonus),
{
    let settled = settle(exp, leaves);
    let mut statements: Vec<String> = Vec::new();
    match settled.passive {
        Some(p) => {
            let (a, b) = add_passive_queries(user_id, passive_expiry(p, now), p);
            statements.push(a);
            statements.push(b);
        },
        None => {},
    }
    let ghost first = statements@.map_values(|q: String| q@);
    assert(first =~= passive_statements(user_id as int, now as int, settle_passive(exp, leaves)));
    statements.push(update_raking_query(user_id, settled.exp, settled.leaves, rake_type.field().column(), now));
    let ghost second = statements@.map_values(|q: String| q@);
    assert(second =~= first + seq![
        update_raking_spec(
            user_id as int,
            settled_exp(exp, leaves),
            settled_leaves(exp, leaves),
            rake_type.spec_field().spec_column(),
            now as int,
        ),
    ]);
    match bonus {
        Some(item) => {
            let (a, b) = add_item_queries(user_id, &Item::from_base(item));
            statements.push(a);
            statements.push(b);
        },
        None => {},
    }
    assert(statements@.map_values(|q: String| q@) =~= second + bonus_statements(user_id as int, bonus));
    (rake_embed(rake_type, exp, leaves, active, settled.passive, bonus), statements)
}

/// The experience a rake can give: 5 to 10 for a normal rake, -10 to 40 for
/// a risky one and 200 to 240 for the daily reward.
pub proof fn lemma_exp_ranges(x: int)
    ensures
        RakeType::Normal.spec_exp_range().0 <= x < RakeType::Normal.spec_exp_range().1 <==> 5 <= x <= 10,
        RakeType::Risky.spec_exp_range().0 <= x < RakeType::Risky.spec_exp_range().1 <==> -10 <= x <= 40,
        RakeType::Daily.spec_exp_range().0 <= x < RakeType::Daily.spec_exp_range().1 <==> 200 <= x <= 240,
{
}

/// A normal rake waits 30 seconds after the last rake, a risky one 60 and
/// the daily reward 72000 after the last one; normal and risky rakes share the
/// `last_raked` column, the daily reward has `last_daily`.
pub proof fn lemma_cooldowns(last: int, now: int)
    ensures
        cooldown_spec(RakeType::Normal, last, now) is Some <==> now < last + 30,
        cooldown_spec(RakeType::Risky, last, now) is Some <==> now < last + 60,
        cooldown_spec(RakeType::Daily, last, now) is Some <==> now < last + 72000,
        RakeType::Normal.spec_field().spec_column() == "last_raked"@,
        RakeType::Risky.spec_field().spec_column() == "last_raked"@,
        RakeType::Daily.spec_field().spec_column() == "last_daily"@,
{
}

} // verus!
