//! The choice resolver, the assembly walk, the turn machine, the
//! spell menu and the saved-game codec.

use character_builder::background::Background;
use character_builder::builder::{is_valid_level, BuildPhase, CharacterBuilder};
use character_builder::character::{Character, Condition, Dice};
use character_builder::classes::{Class, SorcererSubclass, WizardSubclass};
use character_builder::codec::{decode, encode};
use character_builder::gender::Gender;
use character_builder::names::{name_pool, resolve_name, NamePool};
use character_builder::play_object::PlayObject;
use character_builder::play_state::{PlayState, TurnOption};
use character_builder::races::{Dwarf, Elf, Race};
use character_builder::resolver::{
    collect_names, eq_ignore_ascii_case, parse_catalog, resolve_choice, resolve_text,
    Choosable, TextResolution,
};
use character_builder::spell::{Spell, SpellSlot};
use character_builder::stats::Stat;

fn sample_character(level: u8, use_average: bool) -> Character {
    let mut b = CharacterBuilder::new();
    b.set_race(Race::Dwarf(Dwarf::HillDwarf));
    b.set_subrace(Some(2), 0);
    b.set_gender(Gender::Female);
    b.set_name(String::from("Brunhilde"));
    b.set_class(Class::Sorcerer(SorcererSubclass::Draconic));
    b.set_level(level);
    if level > 2 {
        b.set_subclass(Some(5), 0);
    }
    b.set_background(Background::FolkHero);
    b.set_stats([
        Stat::Str(8),
        Stat::Dex(15),
        Stat::Con(13),
        Stat::Int(11),
        Stat::Wis(9),
        Stat::Chr(17),
    ]);
    b.set_hit_policy(use_average);
    b.finish()
}

#[test]
fn menu_selection_resolves_to_the_chosen_variant() {
    // Menu index 3 stands for the variant at position 2.
    assert_eq!(resolve_choice(5, Some(3), 0), 2);
    assert_eq!(resolve_choice(5, Some(1), 4), 0);
    assert_eq!(resolve_choice(5, Some(5), 4), 4);
}

#[test]
fn random_entry_failed_read_and_overflow_fall_back_to_the_random_pick() {
    assert_eq!(resolve_choice(5, Some(0), 3), 3);
    assert_eq!(resolve_choice(5, None, 2), 2);
    assert_eq!(resolve_choice(5, Some(6), 1), 1);
}

#[test]
fn resolving_the_same_deterministic_input_twice_agrees() {
    let first = resolve_choice(9, Some(4), 0);
    let second = resolve_choice(9, Some(4), 8);
    assert_eq!(first, second);
    let a: Background = Background::pick(Some(5), 0);
    let b: Background = Background::pick(Some(5), 11);
    assert_eq!(a, b);
    assert_eq!(a, Background::FolkHero);
}

#[test]
fn free_text_resolution_matches_names_without_case() {
    let names = collect_names::<Background>();
    assert_eq!(resolve_text(&names, ""), TextResolution::Random);
    assert_eq!(resolve_text(&names, "acolyte"), TextResolution::Pick(0));
    assert_eq!(resolve_text(&names, "FOLK HERO"), TextResolution::Pick(4));
    assert_eq!(resolve_text(&names, "paladin"), TextResolution::Unrecognized);
    // A one-character line is real input here: it must parse or be
    // rejected, never treated as a request for a random pick.
    assert_eq!(resolve_text(&names, "x"), TextResolution::Unrecognized);
}

#[test]
fn parsing_free_text_yields_the_variant_itself() {
    assert_eq!(parse_catalog::<Background>("folk hero"), Some(Background::FolkHero));
    assert_eq!(parse_catalog::<Gender>("none"), Some(Gender::NonBinary));
    assert_eq!(parse_catalog::<Race>("half orc"), Some(Race::HalfOrc));
    assert_eq!(parse_catalog::<Background>("nothing at all"), None);
    assert!(eq_ignore_ascii_case("Wood Elf", "wood ELF"));
    assert!(!eq_ignore_ascii_case("Wood Elf", "WoodElf"));
}

#[test]
fn dwarf_subrace_phase_presents_exactly_the_dwarf_set() {
    let race = Race::Dwarf(Dwarf::HillDwarf);
    assert_eq!(race.subrace_options(), vec!["Hill Dwarf", "Mountain Dwarf"]);
    let picked = race.choose_subrace(Some(2), 0);
    assert_eq!(picked, Race::Dwarf(Dwarf::MountainDwarf));
    let random = race.choose_subrace(Some(0), 1);
    assert!(
        random == Race::Dwarf(Dwarf::HillDwarf) || random == Race::Dwarf(Dwarf::MountainDwarf)
    );
}

#[test]
fn subclass_resolution_rewraps_the_class() {
    let wizard = Class::Wizard(WizardSubclass::Abjuration);
    assert_eq!(
        wizard.choose_subclass(Some(9), 0),
        Class::Wizard(WizardSubclass::Bladesinger)
    );
    assert_eq!(wizard.subclass_options().len(), 10);
}

#[test]
fn build_walk_skips_the_subrace_phase_for_a_dragonborn() {
    let mut b = CharacterBuilder::new();
    b.set_race(Race::Dragonborn);
    assert_eq!(b.phase(), BuildPhase::Gender);
}

#[test]
fn build_walk_enters_the_subrace_phase_for_a_dwarf() {
    let mut b = CharacterBuilder::new();
    b.set_race(Race::Dwarf(Dwarf::HillDwarf));
    assert_eq!(b.phase(), BuildPhase::Subrace);
    b.set_subrace(Some(1), 0);
    assert_eq!(b.phase(), BuildPhase::Gender);
}

#[test]
fn level_two_never_enters_the_subclass_phase() {
    let mut b = CharacterBuilder::new();
    b.set_race(Race::Tiefling);
    b.set_gender(Gender::Male);
    b.set_name(String::from("Mordred"));
    b.set_class(Class::Wizard(WizardSubclass::Abjuration));
    b.set_level(2);
    assert_eq!(b.phase(), BuildPhase::Background);
}

#[test]
fn level_three_always_enters_the_subclass_phase() {
    let mut b = CharacterBuilder::new();
    b.set_race(Race::Tiefling);
    b.set_gender(Gender::Male);
    b.set_name(String::from("Mordred"));
    b.set_class(Class::Wizard(WizardSubclass::Abjuration));
    b.set_level(3);
    assert_eq!(b.phase(), BuildPhase::Subclass);
}

#[test]
fn a_finished_build_carries_its_choices_and_derived_block() {
    let c = sample_character(5, true);
    assert_eq!(c.name, "Brunhilde");
    assert_eq!(c.level, 5);
    assert_eq!(c.race, Race::Dwarf(Dwarf::MountainDwarf));
    assert_eq!(c.class, Class::Sorcerer(SorcererSubclass::ShadowMagic));
    assert_eq!(c.background, Background::FolkHero);
    assert_eq!(c.gender, Gender::Female);
    // d6 sorcerer, Constitution modifier +1: (6+1) + (1+4)*4 == 27.
    assert_eq!(c.status.hit_dice, Dice::D6);
    assert_eq!(c.status.maximum_hp, 27);
    assert_eq!(c.status.current_hp, 27);
    // Dexterity 15 gives +2; dwarves walk 25.
    assert_eq!(c.status.armor_class, 12);
    assert_eq!(c.status.initiative, 2);
    assert_eq!(c.status.speed, 25);
    assert_eq!(c.status.conditions, Condition::Normal);
    assert_eq!(*c.get_dex(), Stat::Dex(15));
    assert_eq!(*c.get_chr(), Stat::Chr(17));
}

#[test]
fn level_text_is_validated_as_a_number_from_one_to_twenty() {
    assert!(is_valid_level(&String::from("1")));
    assert!(is_valid_level(&String::from("20")));
    assert!(is_valid_level(&String::from("007")));
    assert!(!is_valid_level(&String::from("0")));
    assert!(!is_valid_level(&String::from("21")));
    assert!(!is_valid_level(&String::from("")));
    assert!(!is_valid_level(&String::from("three")));
    assert!(!is_valid_level(&String::from("-2")));
}

#[test]
fn quitting_terminates_the_session_and_nothing_revives_it() {
    let c = sample_character(2, true);
    let po = PlayObject::new(c, 1700000000);
    let mut state = PlayState::new(po);
    assert!(state.active);
    state.take_turn(TurnOption::Move);
    assert!(state.active);
    state.take_turn(TurnOption::BonusAction);
    assert!(state.active);
    state.take_turn(TurnOption::Action);
    assert!(state.active);
    let name_before = state.play_object.character.name.clone();
    state.take_turn(TurnOption::Quit);
    assert!(!state.active);
    state.take_turn(TurnOption::Move);
    assert!(!state.active);
    assert_eq!(state.play_object.character.name, name_before);
}

#[test]
fn turn_options_menu_only_names() {
    assert_eq!(
        collect_names::<TurnOption>(),
        vec!["Move", "Action", "Bonus Action", "Quit"]
    );
}

#[test]
fn action_menu_is_filtered_and_sorted_by_level_then_name() {
    let c = sample_character(3, true);
    let state = PlayState::new(PlayObject::new(c, 0));
    let spells = vec![
        Spell { id: 1, level: 2, name: String::from("Web") },
        Spell { id: 2, level: 0, name: String::from("Light") },
        Spell { id: 3, level: 1, name: String::from("Sleep") },
        Spell { id: 4, level: 1, name: String::from("Charm Person") },
        Spell { id: 5, level: 4, name: String::from("Banishment") },
        Spell { id: 6, level: 0, name: String::from("Guidance") },
    ];
    let menu = state.get_actions(spells, 3);
    let lines: Vec<String> = menu.iter().map(|s| s.label()).collect();
    assert_eq!(
        lines,
        vec![
            "Guidance [Cantrip]",
            "Light [Cantrip]",
            "Charm Person [1st]",
            "Sleep [1st]",
            "Web [2nd]",
        ]
    );
}

#[test]
fn an_empty_catalog_response_yields_an_empty_menu() {
    let c = sample_character(3, true);
    let state = PlayState::new(PlayObject::new(c, 0));
    let menu = state.get_actions(Vec::new(), 9);
    assert!(menu.is_empty());
}

#[test]
fn spell_labels_spell_out_the_level_ordinal() {
    let mk = |level: u8| Spell { id: 0, level, name: String::from("Spark") };
    assert_eq!(mk(0).label(), "Spark [Cantrip]");
    assert_eq!(mk(1).label(), "Spark [1st]");
    assert_eq!(mk(2).label(), "Spark [2nd]");
    assert_eq!(mk(3).label(), "Spark [3rd]");
    assert_eq!(mk(4).label(), "Spark [4th]");
    assert_eq!(mk(11).label(), "Spark [11th]");
}

#[test]
fn spell_slots_track_levels_and_availability() {
    let slots = SpellSlot::from_vec(vec![1, 2, 3]);
    assert_eq!(slots.len(), 3);
    assert!(slots.iter().all(|s| s.available));
    assert_eq!(slots[2].level, 3);
    assert_eq!(SpellSlot::max_available_level(&slots), Some(3));
    let mut mixed = slots;
    mixed[2].available = false;
    assert_eq!(SpellSlot::max_available_level(&mixed), Some(2));
    assert_eq!(SpellSlot::max_available_level(&Vec::new()), None);
}

#[test]
fn saved_record_round_trips_through_the_codec() {
    let c = sample_character(5, false);
    let mut po = PlayObject::new(c, 1700000123);
    po.on_save(1700000456);
    let text = encode(&po);
    let back = decode(&text).expect("a written record reads back");
    assert_eq!(back.character, po.character);
    assert_eq!(back.created_at, po.created_at);
    assert_eq!(back.updated_at, po.updated_at);
    // The last-played timestamp is never persisted; loading resets it.
    assert_eq!(back.last_played_at, 0);
    let mut loaded = back;
    loaded.on_load(1700000999);
    assert_eq!(loaded.last_played_at, 1700000999);
    assert_eq!(loaded.character, po.character);
}

#[test]
fn malformed_saved_text_is_refused() {
    assert_eq!(decode(""), None);
    assert_eq!(decode("just a name and nothing else\n"), None);
    assert_eq!(decode("name\n1\n2\nnot a number\n"), None);
    let c = sample_character(2, true);
    let po = PlayObject::new(c, 42);
    let text = encode(&po);
    // Cutting the file short or corrupting a tag must fail the read.
    let cut = &text[..text.len() - 4];
    assert_eq!(decode(cut), None);
    let tampered = text.replace("\n42\n", "\n99999999999999999999999\n");
    assert_eq!(decode(&tampered), None);
}

#[test]
fn name_pools_collapse_the_female_and_unspecified_genders() {
    assert_eq!(
        name_pool(&Race::Dwarf(Dwarf::HillDwarf), &Gender::Male),
        NamePool::DwarfMale
    );
    assert_eq!(
        name_pool(&Race::Dwarf(Dwarf::HillDwarf), &Gender::Female),
        NamePool::DwarfFemale
    );
    assert_eq!(
        name_pool(&Race::Dwarf(Dwarf::HillDwarf), &Gender::NonBinary),
        NamePool::DwarfFemale
    );
    assert_eq!(
        name_pool(&Race::Gnome(character_builder::races::Gnome::Forest), &Gender::Female),
        NamePool::HalflingFemale
    );
    assert_eq!(name_pool(&Race::HalfElf, &Gender::Male), NamePool::HumanMale);
    assert_eq!(name_pool(&Race::Elf(Elf::WoodElf), &Gender::NonBinary), NamePool::ElfFemale);
}

#[test]
fn typed_names_win_over_generated_ones() {
    assert_eq!(resolve_name("Osswald", String::from("Generated")), "Osswald");
    assert_eq!(resolve_name("", String::from("Generated")), "Generated");
}

#[test]
fn timestamps_follow_the_load_and_save_policy() {
    let c = sample_character(1, true);
    let mut po = PlayObject::new(c, 100);
    assert_eq!(po.created_at, 100);
    assert_eq!(po.updated_at, Some(100));
    assert_eq!(po.last_played_at, 100);
    po.on_save(250);
    assert_eq!(po.created_at, 100);
    assert_eq!(po.updated_at, Some(250));
    po.on_load(300);
    assert_eq!(po.created_at, 100);
    assert_eq!(po.updated_at, Some(250));
    assert_eq!(po.last_played_at, 300);
}

#[test]
fn rolled_hit_points_draw_fresh_rolls_inside_the_die() {
    // A d6 class at level 20 with Constitution modifier +1: the
    // first level gives 7, each of the 19 rolls adds 1..=6 plus the
    // modifier.  A draw that ever left the die's faces would step
    // outside these bounds.
    let mut seen_different = false;
    let mut first: Option<i16> = None;
    for _ in 0..40 {
        let c = sample_character(20, false);
        assert!(c.status.maximum_hp >= 7 + 19 * 2);
        assert!(c.status.maximum_hp <= 7 + 19 * 7);
        match first {
            None => first = Some(c.status.maximum_hp),
            Some(f) => {
                if c.status.maximum_hp != f {
                    seen_different = true;
                }
            },
        }
    }
    // With overwhelming probability forty rolled totals differ.
    assert!(seen_different);
}
