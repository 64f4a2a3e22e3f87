//! Read-only reference data: item bondings, classes, qualities, items and icons.

use vstd::prelude::*;

use crate::armory::CharacterItem;

verus! {

#[derive(Clone, Copy, Debug, PartialEq, Eq, Structural)]
pub struct ItemBonding {
    pub id: u8,
    pub localization_id: u32,
}

#[derive(Clone, Copy, Debug, PartialEq, Eq, Structural)]
pub struct ItemClass {
    pub id: u8,
    pub localization_id: u32,
}

#[derive(Clone, Debug)]
pub struct ItemQuality {
    pub id: u8,
    pub localization_id: u32,
    pub color: String,
}

/// An item template of one expansion.
#[derive(Clone, Copy, Debug, PartialEq, Eq, Structural)]
pub struct Item {
    pub expansion_id: u8,
    pub id: u32,
    pub icon: u16,
    pub quality: u8,
}

#[derive(Clone, Debug)]
pub struct Icon {
    pub id: u16,
    pub name: String,
}

/// An item as the character viewer shows it.
#[derive(Clone, Debug)]
pub struct CharacterViewerItemDto {
    pub item_id: u32,
    pub quality: u8,
    pub icon: String,
}

/// The reference tables.
#[derive(Debug)]
pub struct Data {
    pub item_bondings: Vec<ItemBonding>,
    pub item_classes: Vec<ItemClass>,
    pub item_qualities: Vec<ItemQuality>,
    pub items: Vec<Item>,
    pub icons: Vec<Icon>,
}

/// `i` is the first position of `s` with a bonding whose id is `id`.
pub open spec fn first_bonding(s: Seq<ItemBonding>, id: u8, i: int) -> bool {
    &&& 0 <= i < s.len()
    &&& s[i].id == id
    &&& forall|k: int| 0 <= k < i ==> #[trigger] s[k].id != id
}

/// `i` is the first position of `s` with a class whose id is `id`.
pub open spec fn first_class(s: Seq<ItemClass>, id: u8, i: int) -> bool {
    &&& 0 <= i < s.len()
    &&& s[i].id == id
    &&& forall|k: int| 0 <= k < i ==> #[trigger] s[k].id != id
}

/// `i` is the first position of `s` with a quality whose id is `id`.
pub open spec fn first_quality(s: Seq<ItemQuality>, id: u8, i: int) -> bool {
    &&& 0 <= i < s.len()
    &&& s[i].id == id
    &&& forall|k: int| 0 <= k < i ==> #[trigger] s[k].id != id
}

/// `it` is the item `item_id` of expansion `expansion_id`.
pub open spec fn is_item(it: Item, expansion_id: u8, item_id: u32) -> bool {
    it.expansion_id == expansion_id && it.id == item_id
}

/// `i` is the first position of `s` with the item `item_id` of expansion `expansion_id`.
pub open spec fn first_item(s: Seq<Item>, expansion_id: u8, item_id: u32, i: int) -> bool {
    &&& 0 <= i < s.len()
    &&& is_item(s[i], expansion_id, item_id)
    &&& forall|k: int| 0 <= k < i ==> !is_item(#[trigger] s[k], expansion_id, item_id)
}

/// `s` holds the item `item_id` of expansion `expansion_id`.
pub open spec fn has_item(s: Seq<Item>, expansion_id: u8, item_id: u32) -> bool {
    exists|k: int| 0 <= k < s.len() && is_item(#[trigger] s[k], expansion_id, item_id)
}

/// `i` is the first position of `s` with an icon whose id is `id`.
pub open spec fn first_icon(s: Seq<Icon>, id: u16, i: int) -> bool {
    &&& 0 <= i < s.len()
    &&& s[i].id == id
    &&& forall|k: int| 0 <= k < i ==> #[trigger] s[k].id != id
}

/// `s` holds an icon whose id is `id`.
pub open spec fn has_icon(s: Seq<Icon>, id: u16) -> bool {
    exists|k: int| 0 <= k < s.len() && #[trigger] s[k].id == id
}

/// Looking up item bondings.
pub trait RetrieveItemBonding {
    fn get_item_bonding(&self, id: u8) -> Option<ItemBonding>;

    fn get_all_item_bondings(&self) -> Vec<ItemBonding>;
}

/// Looking up item classes.
pub trait RetrieveItemClass {
    fn get_item_class(&self, id: u8) -> Option<ItemClass>;

    fn get_all_item_classes(&self) -> Vec<ItemClass>;
}

/// Looking up item qualities.
pub trait RetrieveItemQuality {
    fn get_item_quality(&self, id: u8) -> Option<ItemQuality>;
}

fn copy_bondings(v: &Vec<ItemBonding>) -> (r: Vec<ItemBonding>)
    ensures
        r@ == v@,
{
    let mut r: Vec<ItemBonding> = Vec::new();
    let mut i: usize = 0;
    while i < v.len()
        invariant
            i <= v@.len(),
            r@ == v@.subrange(0, i as int),
        decreases v.len() - i,
    {
        r.push(v[i]);
        i += 1;
    }
    assert(r@ =~= v@);
    r
}

fn copy_classes(v: &Vec<ItemClass>) -> (r: Vec<ItemClass>)
    ensures
        r@ == v@,
{
    let mut r: Vec<ItemClass> = Vec::new();
    let mut i: usize = 0;
    while i < v.len()
        invariant
            i <= v@.len(),
            r@ == v@.subrange(0, i as int),
        decreases v.len() - i,
    {
        r.push(v[i]);
        i += 1;
    }
    assert(r@ =~= v@);
    r
}

impl RetrieveItemBonding for Data {
    /// The first bonding with id `id`.
    fn get_item_bonding(&self, id: u8) -> (r: Option<ItemBonding>)
        ensures
            r is None <==> forall|k: int|
                0 <= k < self.item_bondings@.len() ==> #[trigger] self.item_bondings@[k].id != id,
            r matches Some(b) ==> exists|i: int|
                first_bonding(self.item_bondings@, id, i) && b == self.item_bondings@[i],
    {
        let mut i: usize = 0;
        while i < self.item_bondings.len()
            invariant
                i <= self.item_bondings@.len(),
                forall|k: int| 0 <= k < i ==> #[trigger] self.item_bondings@[k].id != id,
            decreases self.item_bondings.len() - i,
        {
            if self.item_bondings[i].id == id {
                return Some(self.item_bondings[i]);
            }
            i += 1;
        }
        None
    }

    /// All bondings, in table order.
    fn get_all_item_bondings(&self) -> (r: Vec<ItemBonding>)
        ensures
            r@ == self.item_bondings@,
    {
        copy_bondings(&self.item_bondings)
    }
}

impl RetrieveItemClass for Data {
    /// The first class with id `id`.
    fn get_item_class(&self, id: u8) -> (r: Option<ItemClass>)
        ensures
            r is None <==> forall|k: int|
                0 <= k < self.item_classes@.len() ==> #[trigger] self.item_classes@[k].id != id,
            r matches Some(c) ==> exists|i: int|
                first_class(self.item_classes@, id, i) && c == self.item_classes@[i],
    {
        let mut i: usize = 0;
        while i < self.item_classes.len()
            invariant
                i <= self.item_classes@.len(),
                forall|k: int| 0 <= k < i ==> #[trigger] self.item_classes@[k].id != id,
            decreases self.item_classes.len() - i,
        {
            if self.item_classes[i].id == id {
                return Some(self.item_classes[i]);
            }
            i += 1;
        }
        None
    }

    /// All classes, in table order.
    fn get_all_item_classes(&self) -> (r: Vec<ItemClass>)
        ensures
            r@ == self.item_classes@,
    {
        copy_classes(&self.item_classes)
    }
}

impl RetrieveItemQuality for Data {
    /// The first quality with id `id`.
    fn get_item_quality(&self, id: u8) -> (r: Option<ItemQuality>)
        ensures
            r is None <==> forall|k: int|
                0 <= k < self.item_qualities@.len() ==> #[trigger] self.item_qualities@[k].id != id,
            r matches Some(q) ==> exists|i: int|
                first_quality(self.item_qualities@, id, i) && q == self.item_qualities@[i],
    {
        let mut i: usize = 0;
        while i < self.item_qualities.len()
            invariant
                i <= self.item_qualities@.len(),
                forall|k: int| 0 <= k < i ==> #[trigger] self.item_qualities@[k].id != id,
            decreases self.item_qualities.len() - i,
        {
            let q = &self.item_qualities[i];
            if q.id == id {
                assert(first_quality(self.item_qualities@, id, i as int));
                return Some(
                    ItemQuality { id: q.id, localization_id: q.localization_id, color: q.color.clone() },
                );
            }
            i += 1;
        }
        None
    }
}

impl Data {
    fn find_item(&self, expansion_id: u8, item_id: u32) -> (r: Option<usize>)
        ensures
            r is None <==> !has_item(self.items@, expansion_id, item_id),
            r matches Some(i) ==> first_item(self.items@, expansion_id, item_id, i as int),
    {
        let mut i: usize = 0;
        while i < self.items.len()
            invariant
                i <= self.items@.len(),
                forall|k: int|
                    0 <= k < i ==> !is_item(#[trigger] self.items@[k], expansion_id, item_id),
            decreases self.items.len() - i,
        {
            if self.items[i].expansion_id == expansion_id && self.items[i].id == item_id {
                return Some(i);
            }
            i += 1;
        }
        None
    }

    fn find_icon(&self, id: u16) -> (r: Option<usize>)
        ensures
            r is None <==> !has_icon(self.icons@, id),
            r matches Some(i) ==> first_icon(self.icons@, id, i as int),
    {
        let mut i: usize = 0;
        while i < self.icons.len()
            invariant
                i <= self.icons@.len(),
                forall|k: int| 0 <= k < i ==> #[trigger] self.icons@[k].id != id,
            decreases self.icons.len() - i,
        {
            if self.icons[i].id == id {
                return Some(i);
            }
            i += 1;
        }
        None
    }
}

/// How the character viewer shows a worn item: its id, the quality of its
/// template in expansion `expansion_id`, and the name of the template's icon.
pub fn character_item_to_character_item_viewer_dto(
    data: &Data,
    expansion_id: u8,
    character_item: &CharacterItem,
) -> (r: CharacterViewerItemDto)
    requires
        has_item(data.items@, expansion_id, character_item.item_id),
        forall|i: int|
            first_item(data.items@, expansion_id, character_item.item_id, i) ==> has_icon(
                data.icons@,
                #[trigger] data.items@[i].icon,
            ),
    ensures
        exists|i: int, j: int|
            {
                &&& first_item(data.items@, expansion_id, character_item.item_id, i)
                &&& first_icon(data.icons@, data.items@[i].icon, j)
                &&& r.item_id == character_item.item_id
                &&& r.quality == data.items@[i].quality
                &&& r.icon@ == data.icons@[j].name@
            },
{
    let i = match data.find_item(expansion_id, character_item.item_id) {
        Some(i) => i,
        None => {
            assert(false);
            0
        },
    };
    let item = &data.items[i];
    assert(first_item(data.items@, expansion_id, character_item.item_id, i as int));
    let j = match data.find_icon(item.icon) {
        Some(j) => j,
        None => {
            assert(false);
            0
        },
    };
    CharacterViewerItemDto {
        item_id: character_item.item_id,
        quality: item.quality,
        icon: data.icons[j].name.clone(),
    }
}

} // verus!
