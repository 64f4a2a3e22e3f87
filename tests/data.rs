use backend::armory::CharacterItem;
use backend::data::{
    character_item_to_character_item_viewer_dto, Data, Icon, Item, ItemBonding, ItemClass, ItemQuality,
    RetrieveItemBonding, RetrieveItemClass, RetrieveItemQuality,
};

fn data() -> Data {
    Data {
        item_bondings: vec![ItemBonding { id: 2, localization_id: 20 }, ItemBonding { id: 1, localization_id: 10 }],
        item_classes: vec![ItemClass { id: 4, localization_id: 40 }, ItemClass { id: 4, localization_id: 41 }],
        item_qualities: vec![ItemQuality { id: 5, localization_id: 50, color: "ff8000".to_owned() }],
        items: vec![
            Item { expansion_id: 0, id: 19019, icon: 7, quality: 5 },
            Item { expansion_id: 1, id: 19019, icon: 8, quality: 4 },
        ],
        icons: vec![Icon { id: 7, name: "inv_sword_39".to_owned() }, Icon { id: 8, name: "inv_sword_40".to_owned() }],
    }
}

#[test]
fn bondings_are_looked_up_by_id() {
    let d = data();
    assert_eq!(d.get_item_bonding(1), Some(ItemBonding { id: 1, localization_id: 10 }));
    assert_eq!(d.get_item_bonding(3), None);
    assert_eq!(d.get_all_item_bondings(), d.item_bondings);
}

#[test]
fn classes_take_the_first_with_an_id() {
    let d = data();
    assert_eq!(d.get_item_class(4), Some(ItemClass { id: 4, localization_id: 40 }));
    assert_eq!(d.get_item_class(0), None);
    assert_eq!(d.get_all_item_classes().len(), 2);
}

#[test]
fn qualities_are_looked_up_by_id() {
    let d = data();
    let q = d.get_item_quality(5).unwrap();
    assert_eq!((q.localization_id, q.color.as_str()), (50, "ff8000"));
    assert!(d.get_item_quality(6).is_none());
}

#[test]
fn viewer_items_take_quality_and_icon_of_their_expansion() {
    let d = data();
    let worn = CharacterItem { id: 1, item_id: 19019, random_property_id: None, enchant_id: Some(684), gem_ids: vec![] };
    let v = character_item_to_character_item_viewer_dto(&d, 1, &worn);
    assert_eq!((v.item_id, v.quality, v.icon.as_str()), (19019, 4, "inv_sword_40"));
    let v = character_item_to_character_item_viewer_dto(&d, 0, &worn);
    assert_eq!((v.item_id, v.quality, v.icon.as_str()), (19019, 5, "inv_sword_39"));
}
