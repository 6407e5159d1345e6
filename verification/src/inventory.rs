//! Owned items: parsing them from what a player types, and showing them in
//! the inventory and in the shop.
use vstd::prelude::*;
use crate::items::{
    BaseItem, Modifier, base_from_name, base_from_repr, lemma_base_name_round_trip, lemma_item_name_last_char,
    lemma_item_name_not_modified, lemma_modifier_name_round_trip, modifier_from_name, modifier_from_repr,
};
use crate::text::{
    chars_of, is_digit, lemma_decimal, lemma_parse_unsigned_decimal, decimal, decimal_int, int_string, pad_left, pad_right, parse_u8, parse_unsigned,
    push_char, push_decimal, push_pad_left, push_pad_right, push_str, rsplit_once,
    rsplit_once_chars, slice_range, split_once, split_once_chars,
};

verus! {

/// An item a player owns: its kind, its quality and its modifier.
#[derive(Clone, Copy, PartialEq, Eq, Structural, Debug)]
pub struct Item {
    pub base: BaseItem,
    pub quality: u8,
    pub modifier: Modifier,
}

/// The modifier a text opens with, and what follows it: the first word and
/// the rest when that word names a modifier; otherwise the plain modifier and
/// the whole text.
pub open spec fn take_modifier(s: Seq<char>) -> (Modifier, Seq<char>) {
    match split_once(s, ' ') {
        Some((word, rest)) => match modifier_from_name(word) {
            Some(m) => (m, rest),
            None => (Modifier::Normal, s),
        },
        None => (Modifier::Normal, s),
    }
}

/// The quality a text closes with, and what precedes it: the last word and
/// the text before it when that word reads as a `u8`; otherwise 0 and the
/// whole text.
pub open spec fn take_quality(s: Seq<char>) -> (u8, Seq<char>) {
    match rsplit_once(s, ' ') {
        Some((rest, word)) => match parse_unsigned(word, 255) {
            Some(q) => (q as u8, rest),
            None => (0, s),
        },
        None => (0, s),
    }
}

/// An item as `Item::from_str` reads it from `[modifier] <item> [quality]`:
/// an optional modifier word, the item's name (which may hold spaces), and an
/// optional quality; a missing modifier is the plain one, a missing quality 0.
pub open spec fn parse_item(s: Seq<char>) -> Option<Item> {
    let (modifier, rest) = take_modifier(s);
    let (quality, name) = take_quality(rest);
    match base_from_name(name) {
        Some(base) => Some(Item { base, quality, modifier }),
        None => None,
    }
}

/// The moon glyph that stands for `k` fifths of a quality step.
pub open spec fn moon(k: int) -> Seq<char> {
    if k <= 0 {
        "\u{1F311}"@
    } else if k == 1 {
        "\u{1F318}"@
    } else if k == 2 {
        "\u{1F317}"@
    } else if k == 3 {
        "\u{1F316}"@
    } else {
        "\u{1F315}"@
    }
}

/// How full the `i`-th moon of the quality bar is: `min(q - 5i, 4)`, at least 0.
pub open spec fn quality_step(q: int, i: int) -> int {
    let d = q - 5 * i;
    if d <= 0 {
        0
    } else if d >= 4 {
        4
    } else {
        d
    }
}

/// The quality bar: a dash and four moons.
pub open spec fn quality_bar(q: int) -> Seq<char> {
    "- "@ + moon(quality_step(q, 0)) + moon(quality_step(q, 1)) + moon(quality_step(q, 2)) + moon(
        quality_step(q, 3),
    )
}

/// The glyph for a fill level `k <= 4`.
fn moon_glyph(k: u8) -> (r: &'static str)
    requires
        k <= 4,
    ensures
        r@ == moon(k as int),
{
    let glyphs: [&'static str; 5] = ["\u{1F311}", "\u{1F318}", "\u{1F317}", "\u{1F316}", "\u{1F315}"];
    glyphs[k as usize]
}

impl Item {
    pub open spec fn spec_full_name(self) -> Seq<char> {
        self.modifier.spec_name() + seq![' '] + self.base.spec_name()
    }

    pub open spec fn spec_with_quantity(self, quantity: u32) -> Seq<char> {
        seq!['`'] + pad_right(decimal(quantity as nat) + " of "@ + self.spec_full_name(), 40) + seq!['`']
    }

    pub open spec fn spec_with_quality(self, quantity: u32) -> Seq<char> {
        self.spec_with_quantity(quantity) + seq![' '] + quality_bar(self.quality as int)
    }

    pub open spec fn spec_as_owned(self, quantity: u32) -> Seq<char> {
        if BaseItem::spec_equipments().contains(self.base) {
            self.spec_with_quality(quantity)
        } else {
            self.spec_with_quantity(quantity)
        }
    }

    /// A plain item of the given kind: quality 0, no special modifier.
    pub fn from_base(base: BaseItem) -> (r: Item)
        ensures
            r == (Item { base, quality: 0, modifier: Modifier::Normal }),
    {
        Item { base, quality: 0, modifier: Modifier::Normal }
    }

    /// Reads an item written as `[modifier] <item> [quality]`.
    pub fn from_str(s: &str) -> (r: Option<Item>)
        ensures
            r == parse_item(s@),
    {
        let cs = chars_of(s);
        let n = cs.len();
        let (modifier, rest) = match split_once_chars(&cs, ' ') {
            Some((word, rest)) => match Modifier::from_name(&word) {
                Some(m) => (m, rest),
                None => (Modifier::Normal, slice_range(&cs, 0, n)),
            },
            None => (Modifier::Normal, slice_range(&cs, 0, n)),
        };
        assert(cs@.subrange(0, n as int) =~= cs@);
        assert((modifier, rest@) == take_modifier(s@));
        let k = rest.len();
        let (quality, name) = match rsplit_once_chars(&rest, ' ') {
            Some((front, word)) => match parse_u8(&word) {
                Some(q) => (q, front),
                None => (0u8, slice_range(&rest, 0, k)),
            },
            None => (0u8, slice_range(&rest, 0, k)),
        };
        assert(rest@.subrange(0, k as int) =~= rest@);
        assert((quality, name@) == take_quality(rest@));
        match BaseItem::from_name(&name) {
            Some(base) => Some(Item { base, quality, modifier }),
            None => None,
        }
    }

    /// The item stored as a row of numbers, when they all name something.
    pub fn from_row(item_id: u32, quality: u8, modifier: u8) -> (r: Option<Item>)
        ensures
            r == (match (base_from_repr(item_id as int), modifier_from_repr(modifier as int)) {
                (Some(base), Some(modifier)) => Some(Item { base, quality, modifier }),
                _ => None,
            }),
    {
        match (BaseItem::from_repr(item_id as usize), Modifier::from_repr(modifier as usize)) {
            (Some(base), Some(modifier)) => Some(Item { base, quality, modifier }),
            _ => None,
        }
    }

    /// `"<modifier> <item>"`.
    pub fn full_name(&self) -> (r: String)
        ensures
            r@ == self.spec_full_name(),
    {
        let mut r = String::new();
        push_str(&mut r, self.modifier.name());
        push_char(&mut r, ' ');
        push_str(&mut r, self.base.name());
        assert(r@ =~= self.spec_full_name());
        r
    }

    /// `` `<quantity> of <full name>` ``, the inner text padded to 40 characters.
    pub fn with_quantity(&self, quantity: u32) -> (r: String)
        ensures
            r@ == self.spec_with_quantity(quantity),
    {
        let mut inner = String::new();
        push_decimal(&mut inner, quantity as u64);
        push_str(&mut inner, " of ");
        let name = self.full_name();
        push_str(&mut inner, name.as_str());
        let mut r = String::new();
        push_char(&mut r, '`');
        push_pad_right(&mut r, inner.as_str(), 40);
        push_char(&mut r, '`');
        assert(r@ =~= self.spec_with_quantity(quantity));
        r
    }

    /// The quantity line followed by the quality bar; meant for equipments.
    pub fn with_quality(&self, quantity: u32) -> (r: String)
        ensures
            r@ == self.spec_with_quality(quantity),
    {
        let mut bar = String::new();
        push_str(&mut bar, "- ");
        let mut i: u8 = 0;
        while i < 4
            invariant
                i <= 4,
                bar@ == "- "@ + (if i == 0 {
                    Seq::<char>::empty()
                } else if i == 1 {
                    moon(quality_step(self.quality as int, 0))
                } else if i == 2 {
                    moon(quality_step(self.quality as int, 0)) + moon(quality_step(self.quality as int, 1))
                } else if i == 3 {
                    moon(quality_step(self.quality as int, 0)) + moon(quality_step(self.quality as int, 1))
                        + moon(quality_step(self.quality as int, 2))
                } else {
                    moon(quality_step(self.quality as int, 0)) + moon(quality_step(self.quality as int, 1))
                        + moon(quality_step(self.quality as int, 2)) + moon(
                        quality_step(self.quality as int, 3),
                    )
                }),
            decreases 4 - i,
        {
            let d = self.quality.saturating_sub(i * 5);
            let k: u8 = if d < 4 {
                d
            } else {
                4
            };
            assert(k as int == quality_step(self.quality as int, i as int));
            let ghost before = bar@;
            push_str(&mut bar, moon_glyph(k));
            i = i + 1;
            assert(bar@ =~= "- "@ + (if i == 1 {
                moon(quality_step(self.quality as int, 0))
            } else if i == 2 {
                moon(quality_step(self.quality as int, 0)) + moon(quality_step(self.quality as int, 1))
            } else if i == 3 {
                moon(quality_step(self.quality as int, 0)) + moon(quality_step(self.quality as int, 1))
                    + moon(quality_step(self.quality as int, 2))
            } else {
                moon(quality_step(self.quality as int, 0)) + moon(quality_step(self.quality as int, 1))
                    + moon(quality_step(self.quality as int, 2)) + moon(
                    quality_step(self.quality as int, 3),
                )
            }));
        }
        let mut r = self.with_quantity(quantity);
        push_char(&mut r, ' ');
        push_str(&mut r, bar.as_str());
        assert(r@ =~= self.spec_with_quality(quantity));
        r
    }

    /// How an owned item is listed: with its quality bar when it is an
    /// equipment, with its quantity only otherwise.
    pub fn as_owned(&self, quantity: u32) -> (r: String)
        ensures
            r@ == self.spec_as_owned(quantity),
    {
        if self.base.is_equipment() {
            self.with_quality(quantity)
        } else {
            self.with_quantity(quantity)
        }
    }
}

/// One line of the shop's list: the number, the name padded to 24 characters
/// and the price right-aligned in 6.
pub open spec fn shop_line(item: BaseItem, start: nat) -> Seq<char> {
    decimal(start) + ". `"@ + pad_right(item.spec_name(), 24) + pad_left(
        decimal_int(item.spec_buying_price()),
        6,
    ) + " Leaves`\n"@
}

/// The shop's list of `items`, every line numbered `start`.
pub open spec fn shop_text(items: Seq<BaseItem>, start: nat) -> Seq<char>
    decreases items.len(),
{
    if items.len() == 0 {
        Seq::empty()
    } else {
        shop_text(items.drop_last(), start) + shop_line(items.last(), start)
    }
}

/// How a list of items is shown in the shop.
pub trait ShopRep {
    fn shop_rep(&self, start: usize) -> String;
}

impl ShopRep for Vec<BaseItem> {
    fn shop_rep(&self, start: usize) -> (r: String)
        ensures
            r@ == shop_text(self@, start as nat),
    {
        let mut r = String::new();
        let mut i: usize = 0;
        while i < self.len()
            invariant
                i <= self@.len(),
                r@ == shop_text(self@.take(i as int), start as nat),
            decreases self.len() - i,
        {
            let item = self[i];
            push_decimal(&mut r, start as u64);
            push_str(&mut r, ". `");
            push_pad_right(&mut r, item.name(), 24);
            let price = int_string(item.buying_price() as i64);
            push_pad_left(&mut r, price.as_str(), 6);
            push_str(&mut r, " Leaves`\n");
            proof {
                assert(self@.take(i + 1).drop_last() =~= self@.take(i as int));
            }
            i = i + 1;
            assert(r@ =~= shop_text(self@.take(i as int), start as nat));
        }
        assert(self@.take(self@.len() as int) =~= self@);
        r
    }
}

/// The owned items, one line each, separated by newlines.
pub open spec fn owned_lines(items: Seq<(Item, u32)>) -> Seq<char>
    decreases items.len(),
{
    if items.len() == 0 {
        Seq::empty()
    } else if items.len() == 1 {
        items[0].0.spec_as_owned(items[0].1)
    } else {
        owned_lines(items.drop_last()) + seq!['\n'] + items.last().0.spec_as_owned(items.last().1)
    }
}

/// The text of the inventory: the owned items, then the Leaves.
pub open spec fn inventory_text_spec(items: Seq<(Item, u32)>, leaves: int) -> Seq<char> {
    owned_lines(items) + "\n\nYour Leaves: "@ + decimal_int(leaves)
}

/// The text of a player's inventory.
pub fn inventory_text(items: &Vec<(Item, u32)>, leaves: i64) -> (r: String)
    ensures
        r@ == inventory_text_spec(items@, leaves as int),
{
    let mut r = String::new();
    let mut i: usize = 0;
    while i < items.len()
        invariant
            i <= items@.len(),
            r@ == owned_lines(items@.take(i as int)),
        decreases items.len() - i,
    {
        let (item, quantity) = items[i];
        if i > 0 {
            push_char(&mut r, '\n');
        }
        let line = item.as_owned(quantity);
        push_str(&mut r, line.as_str());
        proof {
            let t = items@.take(i + 1);
            assert(t.drop_last() =~= items@.take(i as int));
            if i == 0 {
                assert(items@.take(0) =~= Seq::<(Item, u32)>::empty());
            }
        }
        i = i + 1;
        assert(r@ =~= owned_lines(items@.take(i as int)));
    }
    assert(items@.take(items@.len() as int) =~= items@);
    push_str(&mut r, "\n\nYour Leaves: ");
    let l = int_string(leaves);
    push_str(&mut r, l.as_str());
    assert(r@ =~= inventory_text_spec(items@, leaves as int));
    r
}

/// Splitting `a + sep + t` at its first `sep` gives `a` and `t` when `a` holds no `sep`.
pub proof fn lemma_split_once_at(a: Seq<char>, t: Seq<char>, sep: char)
    requires
        !a.contains(sep),
    ensures
        split_once(a + seq![sep] + t, sep) == Some((a, t)),
{
    let s = a + seq![sep] + t;
    s.index_of_first_ensures(sep);
    assert(s[a.len() as int] == sep);
    let k = s.index_of_first(sep).unwrap();
    if k < a.len() {
        assert(a[k] == s[k]);
    }
    assert(k == a.len());
    assert(s.take(k) =~= a);
    assert(s.skip(k + 1) =~= t);
}

/// Splitting `t + sep + q` at its last `sep` gives `t` and `q` when `q` holds no `sep`.
pub proof fn lemma_rsplit_once_at(t: Seq<char>, q: Seq<char>, sep: char)
    requires
        !q.contains(sep),
    ensures
        rsplit_once(t + seq![sep] + q, sep) == Some((t, q)),
{
    let s = t + seq![sep] + q;
    s.index_of_last_ensures(sep);
    assert(s[t.len() as int] == sep);
    let k = s.index_of_last(sep).unwrap();
    if k > t.len() {
        assert(q[k - t.len() - 1] == s[k]);
    }
    assert(k == t.len());
    assert(s.take(k) =~= t);
    assert(s.skip(k + 1) =~= q);
}

/// Decimal digits hold no space.
proof fn lemma_decimal_no_space(n: nat)
    ensures
        !decimal(n).contains(' '),
{
    lemma_decimal(n);
    if decimal(n).contains(' ') {
        let k = choose|k: int| 0 <= k < decimal(n).len() && decimal(n)[k] == ' ';
        assert(is_digit(decimal(n)[k]));
    }
}

/// A modifier's name followed by a space gives that modifier and the rest.
proof fn lemma_take_modifier_given(m: Modifier, rest: Seq<char>)
    ensures
        take_modifier(m.spec_name() + seq![' '] + rest) == (m, rest),
{
    lemma_modifier_name_round_trip(m);
    lemma_split_once_at(m.spec_name(), rest, ' ');
}

/// An item's name, alone or followed by a space and more, opens with no modifier.
proof fn lemma_take_modifier_absent(b: BaseItem, t: Seq<char>)
    requires
        t.len() == 0 || t[0] == ' ',
    ensures
        take_modifier(b.spec_name() + t) == (Modifier::Normal, b.spec_name() + t),
{
    let n = b.spec_name();
    let s = n + t;
    s.index_of_first_ensures(' ');
    match s.index_of_first(' ') {
        Some(i) => {
            let w = s.take(i);
            match modifier_from_name(w) {
                Some(m) => {
                    assert(w == m.spec_name());
                    lemma_item_name_not_modified(b, m);
                    if i < n.len() {
                        assert(n.take(i) =~= w);
                        assert(n[i] == s[i]);
                    } else if i > n.len() {
                        assert(s[n.len() as int] == t[0]);
                    } else {
                        assert(w =~= n);
                    }
                },
                None => {},
            }
        },
        None => {},
    }
}

/// An item's name closes with no quality.
proof fn lemma_take_quality_absent(b: BaseItem)
    ensures
        take_quality(b.spec_name()) == (0u8, b.spec_name()),
{
    let n = b.spec_name();
    lemma_item_name_last_char(b);
    n.index_of_last_ensures(' ');
    match n.index_of_last(' ') {
        Some(j) => {
            let word = n.skip(j + 1);
            assert(j != n.len() - 1);
            assert(word.len() > 0);
            assert(word.last() == n.last());
            let body = if word.len() > 0 && word[0] == '+' {
                word.drop_first()
            } else {
                word
            };
            if body.len() > 0 {
                assert(body.last() == word.last());
                assert(!is_digit(body[body.len() - 1]));
            }
            assert(parse_unsigned(word, 255) is None);
        },
        None => {},
    }
}

/// A text followed by a space and the decimal digits of a `u8` closes with
/// that quality.
proof fn lemma_take_quality_given(t: Seq<char>, q: u8)
    ensures
        take_quality(t + seq![' '] + decimal(q as nat)) == (q, t),
{
    lemma_decimal_no_space(q as nat);
    lemma_rsplit_once_at(t, decimal(q as nat), ' ');
    lemma_parse_unsigned_decimal(q as nat, 255);
}

/// Reading an item's full name gives the item back with quality 0.
pub proof fn lemma_parse_full_name(item: Item)
    ensures
        parse_item(item.spec_full_name()) == Some(Item { quality: 0, ..item }),
{
    lemma_take_modifier_given(item.modifier, item.base.spec_name());
    lemma_take_quality_absent(item.base);
    lemma_base_name_round_trip(item.base);
}

/// Reading `"<modifier> <item> <quality>"` gives the item back.
pub proof fn lemma_parse_with_quality(item: Item)
    ensures
        parse_item(item.spec_full_name() + seq![' '] + decimal(item.quality as nat)) == Some(item),
{
    let m = item.modifier.spec_name();
    let b = item.base.spec_name();
    let q = decimal(item.quality as nat);
    assert(item.spec_full_name() + seq![' '] + q =~= m + seq![' '] + (b + seq![' '] + q));
    lemma_take_modifier_given(item.modifier, b + seq![' '] + q);
    lemma_take_quality_given(b, item.quality);
    lemma_base_name_round_trip(item.base);
}

/// Reading an item's bare name gives the plain item.
pub proof fn lemma_parse_bare_name(base: BaseItem)
    ensures
        parse_item(base.spec_name()) == Some(Item { base, quality: 0, modifier: Modifier::Normal }),
{
    assert(base.spec_name() + Seq::<char>::empty() =~= base.spec_name());
    lemma_take_modifier_absent(base, Seq::empty());
    lemma_take_quality_absent(base);
    lemma_base_name_round_trip(base);
}

/// Reading `"<item> <quality>"` gives the item with that quality and the
/// plain modifier.
pub proof fn lemma_parse_name_with_quality(base: BaseItem, quality: u8)
    ensures
        parse_item(base.spec_name() + seq![' '] + decimal(quality as nat)) == Some(
            Item { base, quality, modifier: Modifier::Normal },
        ),
{
    let t = seq![' '] + decimal(quality as nat);
    assert(base.spec_name() + seq![' '] + decimal(quality as nat) =~= base.spec_name() + t);
    lemma_take_modifier_absent(base, t);
    lemma_take_quality_given(base.spec_name(), quality);
    lemma_base_name_round_trip(base);
}

} // verus!
