//! A daily inventory-quality updater for a small fixed catalog of item
//! categories, each with its own aging rule.
//!
//! An [`Item`] carries a name, a number of days until it must be sold
//! (`sell_in`), and a `quality`. [`GildedRose::update_quality`] advances every
//! item in the collection by one simulated day: `sell_in` drops by one and
//! `quality` moves according to the item's category, clamped step by step to
//! the range 0 to 50. The spec function [`advanced`] states the whole rule
//! table, and the update is proved to realise it item by item.

use vstd::prelude::*;

verus! {

/// The closed set of aging behaviours. Every name outside the three special
/// ones falls in the default category, `Ordinary`.
#[derive(Clone, Copy, PartialEq, Eq, Structural, Debug)]
pub enum Category {
    /// Exempt from all updates: neither `sell_in` nor `quality` ever moves.
    Legendary,
    /// Quality rises as `sell_in` falls, twice as fast once expired.
    RipensWithAge,
    /// Quality rises in tiers as the deadline nears, then drops to 0.
    EventTicket,
    /// The default: quality falls over time, twice as fast once expired.
    Ordinary,
}

/// The mathematical value of one item: its name as a character sequence and
/// its two counters as unbounded integers.
pub ghost struct ItemModel {
    pub name: Seq<char>,
    pub sell_in: int,
    pub quality: int,
}

/// Which category a name selects. The catalog knows three special names;
/// every other name is ordinary.
pub open spec fn category_of_name(name: Seq<char>) -> Category {
    if name == "Aged Brie"@ {
        Category::RipensWithAge
    } else if name == "Backstage passes to a TAFKAL80ETC concert"@ {
        Category::EventTicket
    } else if name == "Sulfuras, Hand of Ragnaros"@ {
        Category::Legendary
    } else {
        Category::Ordinary
    }
}

/// One upward quality step, clamped: a value already at 50 or above does not
/// move.
pub open spec fn raised(quality: int) -> int {
    if quality < 50 {
        quality + 1
    } else {
        quality
    }
}

/// One downward quality step, clamped: a value already at 0 or below does not
/// move.
pub open spec fn lowered(quality: int) -> int {
    if quality > 0 {
        quality - 1
    } else {
        quality
    }
}

/// The rule table for one simulated day, per item. Each quality step is
/// clamped on its own. The expiry branch tests the decremented `sell_in`;
/// the event-ticket tiers test the value before the decrement.
pub open spec fn advanced(m: ItemModel) -> ItemModel {
    match category_of_name(m.name) {
        Category::Legendary => m,
        Category::RipensWithAge => {
            let sell_in = m.sell_in - 1;
            let quality = raised(m.quality);
            ItemModel {
                name: m.name,
                sell_in: sell_in,
                quality: if sell_in < 0 { raised(quality) } else { quality },
            }
        },
        Category::EventTicket => {
            let sell_in = m.sell_in - 1;
            let quality = raised(m.quality);
            let quality = if m.sell_in < 11 { raised(quality) } else { quality };
            let quality = if m.sell_in < 6 { raised(quality) } else { quality };
            ItemModel {
                name: m.name,
                sell_in: sell_in,
                quality: if sell_in < 0 { 0 } else { quality },
            }
        },
        Category::Ordinary => {
            let sell_in = m.sell_in - 1;
            let quality = lowered(m.quality);
            ItemModel {
                name: m.name,
                sell_in: sell_in,
                quality: if sell_in < 0 { lowered(quality) } else { quality },
            }
        },
    }
}

/// `n` consecutive daily advances of one item.
pub open spec fn advanced_times(m: ItemModel, n: nat) -> ItemModel
    decreases n,
{
    if n == 0 {
        m
    } else {
        advanced(advanced_times(m, (n - 1) as nat))
    }
}

/// Every input is accepted, up to the one machine limit: a non-legendary
/// item's `sell_in` is decremented, so it must not already sit at the
/// smallest `i32`.
pub open spec fn can_advance(m: ItemModel) -> bool {
    category_of_name(m.name) == Category::Legendary || m.sell_in > i32::MIN as int
}

proof fn lemma_name_preserved_times(m: ItemModel, n: nat)
    ensures
        advanced_times(m, n).name == m.name,
    decreases n,
{
    if n > 0 {
        lemma_name_preserved_times(m, (n - 1) as nat);
    }
}

/// A non-legendary item whose quality starts in the range 0 to 50 stays in
/// that range after any number of consecutive daily advances.
pub proof fn lemma_quality_stays_in_range(m: ItemModel, n: nat)
    requires
        category_of_name(m.name) != Category::Legendary,
        0 <= m.quality <= 50,
    ensures
        0 <= advanced_times(m, n).quality <= 50,
    decreases n,
{
    if n > 0 {
        lemma_quality_stays_in_range(m, (n - 1) as nat);
        lemma_name_preserved_times(m, (n - 1) as nat);
    }
}

/// A legendary item is left entirely alone: `sell_in` and `quality` are
/// unchanged by any number of daily advances.
pub proof fn lemma_legendary_unchanged(m: ItemModel, n: nat)
    requires
        category_of_name(m.name) == Category::Legendary,
    ensures
        advanced_times(m, n) == m,
    decreases n,
{
    if n > 0 {
        lemma_legendary_unchanged(m, (n - 1) as nat);
    }
}

/// A ripening item's quality never exceeds 50, even when it starts at 50.
pub proof fn lemma_ripening_quality_capped(m: ItemModel, n: nat)
    requires
        category_of_name(m.name) == Category::RipensWithAge,
        m.quality <= 50,
    ensures
        advanced_times(m, n).quality <= 50,
    decreases n,
{
    if n > 0 {
        lemma_ripening_quality_capped(m, (n - 1) as nat);
        lemma_name_preserved_times(m, (n - 1) as nat);
    }
}

/// An ordinary item's quality never drops below 0, even when it starts at 0.
pub proof fn lemma_ordinary_quality_floored(m: ItemModel, n: nat)
    requires
        category_of_name(m.name) == Category::Ordinary,
        m.quality >= 0,
    ensures
        advanced_times(m, n).quality >= 0,
    decreases n,
{
    if n > 0 {
        lemma_ordinary_quality_floored(m, (n - 1) as nat);
        lemma_name_preserved_times(m, (n - 1) as nat);
    }
}

/// One inventory entry. All fields are caller-visible; no range is imposed on
/// construction, out-of-range qualities are tolerated and only the clamp
/// steers later changes back toward 0 to 50.
pub struct Item {
    pub name: String,
    pub sell_in: i32,
    pub quality: i32,
}

impl View for Item {
    type V = ItemModel;

    open spec fn view(&self) -> ItemModel {
        ItemModel { name: self.name@, sell_in: self.sell_in as int, quality: self.quality as int }
    }
}

impl Item {
    pub fn new(name: &str, sell_in: i32, quality: i32) -> (item: Item)
        ensures
            item@ == (ItemModel {
                name: name@,
                sell_in: sell_in as int,
                quality: quality as int,
            }),
    {
        Item { name: name.to_owned(), sell_in, quality }
    }
}

/// Which category an item's name selects, decided by comparing against the
/// three special catalog names.
pub fn category_of(name: &String) -> (category: Category)
    ensures
        category == category_of_name(name@),
{
    let ripening = "Aged Brie".to_owned();
    let ticket = "Backstage passes to a TAFKAL80ETC concert".to_owned();
    let legendary = "Sulfuras, Hand of Ragnaros".to_owned();
    if *name == ripening {
        Category::RipensWithAge
    } else if *name == ticket {
        Category::EventTicket
    } else if *name == legendary {
        Category::Legendary
    } else {
        Category::Ordinary
    }
}

fn raise_quality(quality: i32) -> (r: i32)
    ensures
        r as int == raised(quality as int),
{
    if quality < 50 {
        quality + 1
    } else {
        quality
    }
}

fn lower_quality(quality: i32) -> (r: i32)
    ensures
        r as int == lowered(quality as int),
{
    if quality > 0 {
        quality - 1
    } else {
        quality
    }
}

/// Advance one item by one simulated day, in place, according to its
/// category's rule.
fn update_item(item: &mut Item)
    requires
        can_advance(old(item)@),
    ensures
        final(item)@ == advanced(old(item)@),
{
    let category = category_of(&item.name);
    match category {
        Category::Legendary => {},
        Category::RipensWithAge => {
            item.sell_in = item.sell_in - 1;
            item.quality = raise_quality(item.quality);
            if item.sell_in < 0 {
                item.quality = raise_quality(item.quality);
            }
        },
        Category::EventTicket => {
            let days_left = item.sell_in;
            item.sell_in = item.sell_in - 1;
            item.quality = raise_quality(item.quality);
            if days_left < 11 {
                item.quality = raise_quality(item.quality);
            }
            if days_left < 6 {
                item.quality = raise_quality(item.quality);
            }
            if item.sell_in < 0 {
                item.quality = 0;
            }
        },
        Category::Ordinary => {
            item.sell_in = item.sell_in - 1;
            item.quality = lower_quality(item.quality);
            if item.sell_in < 0 {
                item.quality = lower_quality(item.quality);
            }
        },
    }
}

/// The whole inventory: the caller hands the collection over and reads the
/// mutated items back through the public field.
pub struct GildedRose {
    pub items: Vec<Item>,
}

impl GildedRose {
    pub fn new(items: Vec<Item>) -> (rose: GildedRose)
        ensures
            rose.items == items,
    {
        GildedRose { items }
    }

    /// Advance every item by one simulated day. Items are independent: each
    /// ends exactly at `advanced` of its old value, names untouched.
    pub fn update_quality(&mut self)
        requires
            forall|i: int|
                0 <= i < old(self).items@.len() ==> can_advance(#[trigger] old(self).items@[i]@),
        ensures
            final(self).items@.len() == old(self).items@.len(),
            forall|i: int|
                0 <= i < old(self).items@.len() ==> #[trigger] final(self).items@[i]@ == advanced(
                    old(self).items@[i]@,
                ),
    {
        let mut i: usize = 0;
        while i < self.items.len()
            invariant
                i <= self.items@.len(),
                self.items@.len() == old(self).items@.len(),
                forall|k: int|
                    0 <= k < old(self).items@.len() ==> can_advance(
                        #[trigger] old(self).items@[k]@,
                    ),
                forall|k: int|
                    0 <= k < i ==> #[trigger] self.items@[k]@ == advanced(old(self).items@[k]@),
                forall|k: int|
                    i <= k < self.items@.len() ==> #[trigger] self.items@[k] == old(
                        self,
                    ).items@[k],
            decreases self.items@.len() - i,
        {
            update_item(&mut self.items[i]);
            i = i + 1;
        }
    }
}

} // verus!
