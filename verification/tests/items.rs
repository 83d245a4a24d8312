use svg_quest::character::Character;
use svg_quest::item::{Item, ItemType, HERB_HEAL};
use svg_quest::position::Position;
use svg_quest::save_data::SaveData;

fn hero() -> Character {
    Character {
        current_hp: 17,
        max_hp: 80,
        position: Position::new(120, -40),
        inventory: vec![Item::new("薬草"), Item::new("棍棒")],
        event_flags: vec![true, false],
    }
}

fn same_item(a: &Item, b: &Item) -> bool {
    a.name == b.name && a.item_type == b.item_type && a.description == b.description
}

fn same_character(a: &Character, b: &Character) -> bool {
    a.current_hp == b.current_hp
        && a.max_hp == b.max_hp
        && a.position == b.position
        && a.event_flags == b.event_flags
        && a.inventory.len() == b.inventory.len()
        && a.inventory.iter().zip(b.inventory.iter()).all(|(x, y)| same_item(x, y))
}

#[test]
fn items_are_built_from_their_names() {
    let herb = Item::new("薬草");
    assert_eq!(herb.name, "薬草");
    assert_eq!(herb.item_type, ItemType::Consumable);
    assert_eq!(herb.description, "HPを30回復");
    let club = Item::new("棍棒");
    assert_eq!(club.item_type, ItemType::Weapon);
    assert_eq!(club.description, "粗悪な武器");
    let key = Item::new("最初の鍵");
    assert_eq!(key.item_type, ItemType::Key);
    assert_eq!(key.description, "");
}

#[test]
fn only_the_items_of_the_game_are_known() {
    assert!(Item::is_known(&"薬草".to_string()));
    assert!(Item::is_known(&"棍棒".to_string()));
    assert!(Item::is_known(&"最初の鍵".to_string()));
    assert!(!Item::is_known(&"剣".to_string()));
    assert!(!Item::is_known(&"".to_string()));
}

#[test]
fn the_herb_heals_up_to_the_maximum() {
    let herb = Item::new("薬草");
    assert_eq!(HERB_HEAL, 30);
    assert_eq!(herb.consume(25, 80), 55);
    assert_eq!(herb.consume(50, 80), 80);
    assert_eq!(herb.consume(49, 80), 79);
    assert_eq!(herb.consume(60, 80), 80);
    assert_eq!(herb.consume(80, 80), 80);
    assert_eq!(herb.consume(u32::MAX - 5, u32::MAX), u32::MAX);
}

#[test]
fn other_items_do_not_heal() {
    assert_eq!(Item::new("棍棒").consume(25, 80), 25);
    assert_eq!(Item::new("最初の鍵").consume(25, 80), 25);
}

#[test]
fn the_starting_character() {
    let character = Character::starting();
    assert_eq!(character.current_hp, 25);
    assert_eq!(character.max_hp, 80);
    assert_eq!(character.position, Position::new(-1, -1));
    assert!(character.inventory.is_empty());
    assert!(character.event_flags.is_empty());
}

#[test]
fn carrying_is_by_name() {
    let character = hero();
    assert!(character.carries(&"薬草".to_string()));
    assert!(character.carries(&"棍棒".to_string()));
    assert!(!character.carries(&"最初の鍵".to_string()));
    assert_eq!(character.inventory_names(), vec!["薬草".to_string(), "棍棒".to_string()]);
}

#[test]
fn the_snapshot_of_a_new_game() {
    let save = SaveData::empty();
    assert_eq!(save.character_u32, vec![25, 80]);
    assert_eq!(save.treasure_box_usize, vec![Vec::<usize>::new()]);
    assert_eq!(save.map_usize, vec![0]);
    assert_eq!(save.map_i32, vec![360, 280]);
    assert!(save.inventory_string.is_empty());
    assert!(save.event_flags.is_empty());
    assert_eq!(save.check_token, 0);
    assert!(save.is_well_formed());
    assert!(save.is_playable());
}

#[test]
fn new_keeps_what_it_is_given() {
    let save = SaveData::new(
        vec![1, 2],
        vec![vec![0], vec![]],
        vec![1],
        vec![3, 4],
        vec!["薬草".to_string()],
        vec![true],
    );
    assert_eq!(save.character_u32, vec![1, 2]);
    assert_eq!(save.treasure_box_usize, vec![vec![0usize], Vec::<usize>::new()]);
    assert_eq!(save.map_usize, vec![1]);
    assert_eq!(save.map_i32, vec![3, 4]);
    assert_eq!(save.inventory_string, vec!["薬草".to_string()]);
    assert_eq!(save.event_flags, vec![true]);
    assert_eq!(save.check_token, 0);
}

#[test]
fn update_fills_the_snapshot() {
    let mut save = SaveData::empty();
    save.check_token = 9;
    save.update(&vec![hero()], &vec![vec![0], vec![], vec![0]], 2);
    assert_eq!(save.character_u32, vec![17, 80]);
    assert_eq!(save.treasure_box_usize, vec![vec![0usize], Vec::<usize>::new(), vec![0usize]]);
    assert_eq!(save.map_usize, vec![2]);
    assert_eq!(save.map_i32, vec![120, -40]);
    assert_eq!(save.inventory_string, vec!["薬草".to_string(), "棍棒".to_string()]);
    assert_eq!(save.event_flags, vec![true, false]);
    assert_eq!(save.check_token, 9);
}

#[test]
fn a_saved_character_is_read_back_unchanged() {
    let mut save = SaveData::empty();
    save.update(&vec![hero()], &vec![vec![0]], 0);
    let mut party = vec![Character::starting()];
    save.load(&mut party, None);
    assert!(same_character(&party[0], &hero()));
}

#[test]
fn a_stored_snapshot_replaces_the_one_kept() {
    let mut stored = SaveData::empty();
    stored.update(&vec![hero()], &vec![vec![], vec![0]], 1);
    let mut kept = SaveData::empty();
    let mut party = vec![Character::starting()];
    kept.load(&mut party, Some(stored));
    assert!(same_character(&party[0], &hero()));
    assert_eq!(kept.map_usize, vec![1]);
    assert_eq!(kept.treasure_box_usize, vec![Vec::<usize>::new(), vec![0usize]]);
    assert_eq!(kept.character_u32, vec![17, 80]);
}

#[test]
fn loading_a_new_game_resets_the_character() {
    let mut party = vec![hero()];
    SaveData::empty().load(&mut party, None);
    assert_eq!(party[0].current_hp, 25);
    assert_eq!(party[0].max_hp, 80);
    assert_eq!(party[0].position, Position::new(360, 280));
    assert!(party[0].inventory.is_empty());
    assert!(party[0].event_flags.is_empty());
}

#[test]
fn snapshots_that_cannot_be_read_back_are_told_apart() {
    let mut save = SaveData::empty();
    save.character_u32 = vec![25];
    assert!(!save.is_well_formed());
    let mut save = SaveData::empty();
    save.character_u32 = vec![81, 80];
    assert!(!save.is_well_formed());
    let mut save = SaveData::empty();
    save.map_i32 = vec![1];
    assert!(!save.is_well_formed());
    let mut save = SaveData::empty();
    save.map_usize = vec![];
    assert!(!save.is_well_formed());
    let mut save = SaveData::empty();
    save.inventory_string = vec!["薬草".to_string(), "剣".to_string()];
    assert!(!save.is_well_formed());
}

#[test]
fn snapshots_from_which_no_game_can_go_on_are_told_apart() {
    let mut save = SaveData::empty();
    save.map_usize = vec![4];
    save.treasure_box_usize = vec![vec![]; 5];
    assert!(save.is_well_formed());
    assert!(!save.is_playable());
    let mut save = SaveData::empty();
    save.map_usize = vec![2];
    assert!(!save.is_playable());
    save.treasure_box_usize = vec![vec![], vec![], vec![]];
    assert!(save.is_playable());
    // The camera must be able to follow: 360 - x and 280 - y must fit.
    save.map_i32 = vec![360 - i32::MAX - 1, 0];
    assert!(!save.is_playable());
    save.map_i32 = vec![0, 280 - i32::MAX - 1];
    assert!(!save.is_playable());
    save.map_i32 = vec![360 - i32::MAX, 280 - i32::MAX];
    assert!(save.is_playable());
    save.map_i32 = vec![i32::MAX, i32::MAX];
    assert!(save.is_playable());
}

#[test]
fn clone_copies_every_field() {
    let mut save = SaveData::empty();
    save.update(&vec![hero()], &vec![vec![1, 2]], 0);
    save.check_token = 3;
    let copy = save.clone();
    assert_eq!(copy.character_u32, save.character_u32);
    assert_eq!(copy.treasure_box_usize, save.treasure_box_usize);
    assert_eq!(copy.map_usize, save.map_usize);
    assert_eq!(copy.map_i32, save.map_i32);
    assert_eq!(copy.inventory_string, save.inventory_string);
    assert_eq!(copy.event_flags, save.event_flags);
    assert_eq!(copy.check_token, 3);
}
