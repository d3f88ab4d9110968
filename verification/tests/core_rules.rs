//! The arithmetic rules: modifiers, armor class, speed, hit dice and
//! hit points.

use character_builder::background::Background;
use character_builder::character::{calculate_ac, calculate_speed, Dice, Status};
use character_builder::classes::{
    BarbarianSubclass, Class, ClericSubclass, MonkSubclass, RogueSubclass, WizardSubclass,
};
use character_builder::gender::Gender;
use character_builder::races::{Dwarf, Elf, Gnome, Halfling, Human, Race};
use character_builder::resolver::Choosable;
use character_builder::stats::{match_stat, Stat};

fn sample_stats(dex: u8, con: u8, wis: u8) -> [Stat; 6] {
    [
        Stat::Str(10),
        Stat::Dex(dex),
        Stat::Con(con),
        Stat::Int(8),
        Stat::Wis(wis),
        Stat::Chr(12),
    ]
}

#[test]
fn modifier_matches_the_stepped_table() {
    assert_eq!(Stat::Str(1).get_modifier(), -5);
    assert_eq!(Stat::Str(2).get_modifier(), -4);
    assert_eq!(Stat::Str(3).get_modifier(), -4);
    assert_eq!(Stat::Str(9).get_modifier(), -1);
    assert_eq!(Stat::Str(10).get_modifier(), 0);
    assert_eq!(Stat::Str(11).get_modifier(), 0);
    assert_eq!(Stat::Str(14).get_modifier(), 2);
    assert_eq!(Stat::Str(20).get_modifier(), 5);
    assert_eq!(Stat::Str(29).get_modifier(), 9);
    assert_eq!(Stat::Str(30).get_modifier(), 10);
}

#[test]
fn modifier_is_zero_outside_the_score_range() {
    assert_eq!(Stat::Dex(0).get_modifier(), 0);
    assert_eq!(Stat::Dex(31).get_modifier(), 0);
    assert_eq!(Stat::Dex(255).get_modifier(), 0);
}

#[test]
fn modifier_never_decreases_as_the_score_grows() {
    let mut last = -5;
    for v in 1..=30u8 {
        let m = Stat::Con(v).get_modifier();
        assert!(m >= last);
        last = m;
    }
}

#[test]
fn modifier_display_carries_a_sign_for_bonuses() {
    assert_eq!(Stat::Dex(14).display(), "+2");
    assert_eq!(Stat::Dex(1).display(), "-5");
    assert_eq!(Stat::Dex(10).display(), "0");
    assert_eq!(Stat::Dex(30).display(), "+10");
}

#[test]
fn ability_names_and_listing() {
    assert_eq!(Stat::Str(1).show_name(), "Strength");
    assert_eq!(Stat::Dex(1).show_name(), "Dexterity");
    assert_eq!(Stat::Con(1).show_name(), "Constitution");
    assert_eq!(Stat::Int(1).show_name(), "Intelligence");
    assert_eq!(Stat::Wis(1).show_name(), "Wisdom");
    assert_eq!(Stat::Chr(1).show_name(), "Charisma");
    assert_eq!(Stat::list(), "Str, Dex, Con, Int, Wis, Chr");
}

#[test]
fn match_stat_replaces_the_score_and_keeps_the_tag() {
    assert_eq!(match_stat(&Stat::Wis(3), 18), Stat::Wis(18));
    assert_eq!(match_stat(&Stat::Str(10), 1), Stat::Str(1));
}

#[test]
fn armor_class_for_a_barbarian_adds_the_constitution_modifier() {
    // Dexterity modifier +2, Constitution modifier +3.
    let stats = sample_stats(14, 16, 10);
    let barbarian = Class::Barbarian(BarbarianSubclass::Berserker);
    assert_eq!(calculate_ac(&stats, &barbarian), 15);
}

#[test]
fn armor_class_for_a_monk_adds_the_wisdom_modifier() {
    let stats = sample_stats(14, 10, 16);
    let monk = Class::Monk(MonkSubclass::OpenHand);
    assert_eq!(calculate_ac(&stats, &monk), 15);
}

#[test]
fn armor_class_for_other_classes_is_ten_plus_dexterity() {
    let stats = sample_stats(14, 16, 16);
    let wizard = Class::Wizard(WizardSubclass::Abjuration);
    assert_eq!(calculate_ac(&stats, &wizard), 12);
}

#[test]
fn speed_is_fixed_by_race_and_subrace() {
    assert_eq!(calculate_speed(&Race::Dwarf(Dwarf::HillDwarf)), 25);
    assert_eq!(calculate_speed(&Race::Gnome(Gnome::Rock)), 25);
    assert_eq!(calculate_speed(&Race::Halfling(Halfling::Stout)), 25);
    assert_eq!(calculate_speed(&Race::Elf(Elf::WoodElf)), 35);
    assert_eq!(calculate_speed(&Race::Elf(Elf::HighElf)), 30);
    assert_eq!(calculate_speed(&Race::Human(Human::Standard)), 30);
    assert_eq!(calculate_speed(&Race::Dragonborn), 30);
    assert_eq!(calculate_speed(&Race::HalfElf), 30);
    assert_eq!(calculate_speed(&Race::HalfOrc), 30);
    assert_eq!(calculate_speed(&Race::Tiefling), 30);
}

#[test]
fn every_class_maps_to_its_hit_die() {
    let stats = sample_stats(10, 10, 10);
    let race = Race::Human(Human::Standard);
    let level = 1u8;
    let expect = [
        Dice::D8,
        Dice::D12,
        Dice::D8,
        Dice::D8,
        Dice::D8,
        Dice::D10,
        Dice::D8,
        Dice::D10,
        Dice::D10,
        Dice::D8,
        Dice::D6,
        Dice::D8,
        Dice::D6,
    ];
    for (i, die) in expect.iter().enumerate() {
        let class = Class::from_index(i);
        let status = Status::new(&stats, &race, &class, &level, true);
        assert_eq!(status.hit_dice, *die);
    }
}

#[test]
fn first_level_hit_points_ignore_the_progression_policy() {
    // A d8 class with Constitution modifier +2: first level is 8 + 2,
    // under the average policy and the rolled policy alike.
    let stats = sample_stats(10, 14, 10);
    let race = Race::Human(Human::Standard);
    let rogue = Class::Rogue(RogueSubclass::Thief);
    let level = 1u8;
    let averaged = Status::new(&stats, &race, &rogue, &level, true);
    let rolled = Status::new(&stats, &race, &rogue, &level, false);
    assert_eq!(averaged.maximum_hp, 10);
    assert_eq!(averaged.current_hp, 10);
    assert_eq!(rolled.maximum_hp, 10);
}

#[test]
fn average_policy_hit_points_at_level_five() {
    // d8, Constitution modifier +2, level 5: (8+2) + (2+5)*4 == 38.
    let stats = sample_stats(10, 14, 10);
    let race = Race::Human(Human::Standard);
    let cleric = Class::Cleric(ClericSubclass::Life);
    let level = 5u8;
    let status = Status::new(&stats, &race, &cleric, &level, true);
    assert_eq!(status.maximum_hp, 38);
    assert_eq!(status.current_hp, 38);
}

#[test]
fn rolled_hit_points_stay_inside_the_dice_bounds() {
    // A d12 class at level 20 with Constitution modifier 0: first
    // level gives 12, each of the 19 rolls adds between 1 and 12.
    let stats = sample_stats(10, 10, 10);
    let race = Race::HalfOrc;
    let barbarian = Class::Barbarian(BarbarianSubclass::Zealot);
    let level = 20u8;
    for _ in 0..20 {
        let status = Status::new(&stats, &race, &barbarian, &level, false);
        assert!(status.maximum_hp >= 12 + 19);
        assert!(status.maximum_hp <= 12 + 19 * 12);
        assert_eq!(status.current_hp, status.maximum_hp);
    }
}

#[test]
fn fresh_status_starts_unblessed_and_unconditioned() {
    let stats = sample_stats(14, 14, 14);
    let race = Race::Elf(Elf::DarkElf);
    let wizard = Class::Wizard(WizardSubclass::Evocation);
    let level = 3u8;
    let status = Status::new(&stats, &race, &wizard, &level, true);
    assert!(!status.blessed);
    assert_eq!(status.initiative, 2);
    assert_eq!(status.speed, 30);
    assert_eq!(status.armor_class, 12);
}

#[test]
fn backgrounds_and_genders_are_flat_catalogs() {
    assert_eq!(
        character_builder::resolver::collect_names::<Background>(),
        vec![
            "Acolyte",
            "Charlatan",
            "Criminal",
            "Entertainer",
            "Folk Hero",
            "Guild Artisan",
            "Hermit",
            "Noble",
            "Outlander",
            "Sailor",
            "Soldier",
            "Urchin",
        ]
    );
    assert_eq!(
        character_builder::resolver::collect_names::<Gender>(),
        vec!["Male", "Female", "None"]
    );
}
