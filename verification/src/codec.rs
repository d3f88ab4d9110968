//! The saved-game codec: renders a persisted record as lines of text
//! and reads it back, with the round trip proved.
//!
//! The format is one line for the character's name followed by one
//! decimal line per remaining field.  The last-played timestamp is
//! never persisted; loading resets it.

use crate::background::Background;
use crate::character::{Character, Condition, Dice, Status};
use crate::classes::Class;
use crate::gender::Gender;
use crate::numeral::{
    encode_i64, lemma_take_i64_of, lemma_take_line_of, push_newline, spec_encode_wf_bound,
    spec_i64_dec, spec_take_i64, spec_take_line, take_i64, take_line,
};
use crate::play_object::PlayObject;
use crate::races::Race;
use crate::resolver::Choosable;
use crate::stats::{spec_stats_ordered, Stat};
use vstd::prelude::*;
use vstd::string::StrSliceExecFns;

verus! {

/// The mathematical content of a persisted record: everything a saved
/// file determines.  The last-played timestamp is absent by design.
pub ghost struct PoModel {
    pub name: Seq<char>,
    pub level: int,
    pub background: Background,
    pub race: Race,
    pub class: Class,
    pub gender: Gender,
    pub stats: Seq<Stat>,
    pub armor_class: int,
    pub conditions: Condition,
    pub blessed: bool,
    pub initiative: int,
    pub hit_dice: Dice,
    pub current_hp: int,
    pub maximum_hp: int,
    pub speed: int,
    pub created_at: int,
    pub updated_at: Option<int>,
}

/// The model of a typed record.
pub open spec fn spec_po_model(po: PlayObject) -> PoModel {
    PoModel {
        name: po.character.name@,
        level: po.character.level as int,
        background: po.character.background,
        race: po.character.race,
        class: po.character.class,
        gender: po.character.gender,
        stats: po.character.stats@,
        armor_class: po.character.status.armor_class as int,
        conditions: po.character.status.conditions,
        blessed: po.character.status.blessed,
        initiative: po.character.status.initiative as int,
        hit_dice: po.character.status.hit_dice,
        current_hp: po.character.status.current_hp as int,
        maximum_hp: po.character.status.maximum_hp as int,
        speed: po.character.status.speed as int,
        created_at: po.created_at as int,
        updated_at: match po.updated_at {
            Some(t) => Some(t as int),
            None => None,
        },
    }
}

/// What the codec asks of a record it is to write: a name free of
/// line breaks, a level inside the rules' range, the six scores in
/// their fixed layout (the file stores values only and restores the
/// tags canonically), and timestamps within the numeral parser's
/// eighteen digits (far beyond any clock).
pub open spec fn spec_po_wf(po: PlayObject) -> bool {
    &&& forall|j: int| 0 <= j < po.character.name@.len() ==> po.character.name@[j] != '\n'
    &&& 1 <= po.character.level <= 20
    &&& spec_stats_ordered(po.character.stats@)
    &&& -spec_encode_wf_bound() < po.created_at < spec_encode_wf_bound()
    &&& match po.updated_at {
        Some(t) => -spec_encode_wf_bound() < t < spec_encode_wf_bound(),
        None => true,
    }
}

/// The numeric fields of a record, in the order the file stores them.
pub open spec fn spec_po_numbers(po: PlayObject) -> Seq<int> {
    let c = po.character;
    seq![
        c.level as int,
        c.background.spec_index(),
        c.race.spec_index(),
        c.race.spec_subrace_index(),
        c.class.spec_index(),
        c.class.spec_subclass_index(),
        c.gender.spec_index(),
        c.stats@[0].spec_value() as int,
        c.stats@[1].spec_value() as int,
        c.stats@[2].spec_value() as int,
        c.stats@[3].spec_value() as int,
        c.stats@[4].spec_value() as int,
        c.stats@[5].spec_value() as int,
        c.status.armor_class as int,
        c.status.conditions.spec_index(),
        if c.status.blessed {
            1
        } else {
            0
        },
        c.status.initiative as int,
        c.status.hit_dice.spec_index(),
        c.status.current_hp as int,
        c.status.maximum_hp as int,
        c.status.speed as int,
        po.created_at as int,
        match po.updated_at {
            Some(_) => 1,
            None => 0,
        },
        match po.updated_at {
            Some(t) => t as int,
            None => 0,
        },
    ]
}

/// One decimal line per number, in order.
pub open spec fn spec_encode_numbers(vs: Seq<int>) -> Seq<char>
    decreases vs.len(),
{
    if vs.len() == 0 {
        Seq::empty()
    } else {
        spec_i64_dec(vs[0]) + seq!['\n'] + spec_encode_numbers(vs.skip(1))
    }
}

/// The whole file: the name line, then every numeric field on a line
/// of its own.
pub open spec fn spec_encode(po: PlayObject) -> Seq<char> {
    po.character.name@ + seq!['\n'] + spec_encode_numbers(spec_po_numbers(po))
}

/// Reads `k` decimal lines in a row.
pub open spec fn spec_take_numbers(s: Seq<char>, pos: int, k: nat) -> Option<(Seq<int>, int)>
    decreases k,
{
    if k == 0 {
        Some((Seq::empty(), pos))
    } else {
        match spec_take_i64(s, pos) {
            Some((v, p2)) => match spec_take_numbers(s, p2, (k - 1) as nat) {
                Some((vs, p3)) => Some((seq![v] + vs, p3)),
                None => None,
            },
            None => None,
        }
    }
}

/// Rebuilds the model from the name line and the twenty-four numbers,
/// refusing any value outside its field's range.
pub open spec fn spec_model_from(name: Seq<char>, vs: Seq<int>) -> Option<PoModel> {
    if vs.len() != 24 {
        None
    } else if !(1 <= vs[0] <= 20) {
        None
    } else if !(0 <= vs[1] < 12) {
        None
    } else if !(0 <= vs[2] < 9) {
        None
    } else if !({
        let race0 = Race::variant_at(vs[2]);
        if race0.spec_has_subrace() {
            0 <= vs[3] < race0.spec_subrace_count()
        } else {
            vs[3] == 0
        }
    }) {
        None
    } else if !(0 <= vs[4] < 13) {
        None
    } else if !(0 <= vs[5] < Class::variant_at(vs[4]).spec_subclass_count()) {
        None
    } else if !(0 <= vs[6] < 3) {
        None
    } else if !(forall|i: int| 7 <= i < 13 ==> 0 <= #[trigger] vs[i] <= 255) {
        None
    } else if !(-128 <= vs[13] <= 127) {
        None
    } else if !(0 <= vs[14] < 2) {
        None
    } else if !(vs[15] == 0 || vs[15] == 1) {
        None
    } else if !(-128 <= vs[16] <= 127) {
        None
    } else if !(0 <= vs[17] < 7) {
        None
    } else if !(-32768 <= vs[18] <= 32767) {
        None
    } else if !(-32768 <= vs[19] <= 32767) {
        None
    } else if !(0 <= vs[20] <= 65535) {
        None
    } else if !(vs[22] == 0 || vs[22] == 1) {
        None
    } else {
        Some(
            PoModel {
                name,
                level: vs[0],
                background: Background::variant_at(vs[1]),
                race: Race::variant_at(vs[2]).spec_with_subrace(vs[3]),
                class: Class::variant_at(vs[4]).spec_with_subclass(vs[5]),
                gender: Gender::variant_at(vs[6]),
                stats: seq![
                    Stat::Str(vs[7] as u8),
                    Stat::Dex(vs[8] as u8),
                    Stat::Con(vs[9] as u8),
                    Stat::Int(vs[10] as u8),
                    Stat::Wis(vs[11] as u8),
                    Stat::Chr(vs[12] as u8),
                ],
                armor_class: vs[13],
                conditions: Condition::from_index_spec(vs[14]),
                blessed: vs[15] == 1,
                initiative: vs[16],
                hit_dice: Dice::from_index_spec(vs[17]),
                current_hp: vs[18],
                maximum_hp: vs[19],
                speed: vs[20],
                created_at: vs[21],
                updated_at: if vs[22] == 1 {
                    Some(vs[23])
                } else {
                    None
                },
            },
        )
    }
}

/// The whole decoder at the specification level: the name line, the
/// twenty-four numbers, nothing after them, and the field checks.
pub open spec fn spec_decode(s: Seq<char>) -> Option<PoModel> {
    match spec_take_line(s, 0) {
        Some((name, p1)) => match spec_take_numbers(s, p1, 24) {
            Some((vs, p2)) => if p2 == s.len() {
                spec_model_from(name, vs)
            } else {
                None
            },
            None => None,
        },
        None => None,
    }
}

/// Renders a record in the saved-game format.
pub fn encode(po: &PlayObject) -> (r: String)
    ensures
        r@ == spec_encode(*po),
{
    let nums = po_numbers(po);
    let mut out = po.character.name.clone();
    push_newline(&mut out);
    let ghost vs = spec_po_numbers(*po);
    let mut k: usize = 0;
    proof {
        assert(vs.skip(0) =~= vs);
    }
    while k < nums.len()
        invariant
            k <= nums@.len(),
            nums@.len() == vs.len(),
            forall|i: int| 0 <= i < vs.len() ==> nums@[i] as int == vs[i],
            spec_encode(*po) == out@ + spec_encode_numbers(vs.skip(k as int)),
        decreases nums@.len() - k,
    {
        let ghost out_before = out@;
        encode_i64(nums[k], &mut out);
        push_newline(&mut out);
        proof {
            assert(vs.skip(k as int)[0] == vs[k as int]);
            assert(vs.skip(k as int).skip(1) =~= vs.skip(k as int + 1));
            assert(out@ =~= out_before + spec_i64_dec(vs[k as int]) + seq!['\n']);
            assert(out_before + spec_i64_dec(vs[k as int]) + seq!['\n'] + spec_encode_numbers(
                vs.skip(k as int + 1),
            ) =~= out_before + (spec_i64_dec(vs[k as int]) + seq!['\n'] + spec_encode_numbers(
                vs.skip(k as int + 1),
            )));
        }
        k += 1;
    }
    proof {
        assert(vs.skip(vs.len() as int) =~= Seq::<int>::empty());
        assert(out@ + Seq::<char>::empty() =~= out@);
    }
    out
}

/// The numeric fields of a record, in file order.
#[verifier::rlimit(60)]
fn po_numbers(po: &PlayObject) -> (r: Vec<i64>)
    ensures
        r@.len() == spec_po_numbers(*po).len(),
        forall|i: int| 0 <= i < r@.len() ==> r@[i] as int == spec_po_numbers(*po)[i],
{
    let c = &po.character;
    let mut nums: Vec<i64> = Vec::new();
    nums.push(c.level as i64);
    nums.push(c.background.index_of() as i64);
    nums.push(c.race.index_of() as i64);
    nums.push(c.race.subrace_index() as i64);
    nums.push(c.class.index_of() as i64);
    nums.push(c.class.subclass_index() as i64);
    nums.push(c.gender.index_of() as i64);
    nums.push(c.stats[0].value() as i64);
    nums.push(c.stats[1].value() as i64);
    nums.push(c.stats[2].value() as i64);
    nums.push(c.stats[3].value() as i64);
    nums.push(c.stats[4].value() as i64);
    nums.push(c.stats[5].value() as i64);
    nums.push(c.status.armor_class as i64);
    nums.push(c.status.conditions.index_of() as i64);
    nums.push(if c.status.blessed { 1 } else { 0 });
    nums.push(c.status.initiative as i64);
    nums.push(c.status.hit_dice.index_of() as i64);
    nums.push(c.status.current_hp as i64);
    nums.push(c.status.maximum_hp as i64);
    nums.push(c.status.speed as i64);
    nums.push(po.created_at);
    nums.push(match po.updated_at { Some(_) => 1, None => 0 });
    nums.push(match po.updated_at { Some(t) => t, None => 0 });
    nums
}

/// Reads a saved file back into a record, if it is well formed; the
/// last-played timestamp starts at zero until the load marks it.
pub fn decode(s: &str) -> (r: Option<PlayObject>)
    ensures
        match r {
            Some(po) => spec_decode(s@) == Some(spec_po_model(po)),
            None => spec_decode(s@) is None,
        },
{
    let total = s.unicode_len();
    let (name, p1) = match take_line(s, 0) {
        Some(v) => v,
        None => {
            return None;
        },
    };
    let ghost start = p1 as int;
    let mut nums: Vec<i64> = Vec::new();
    let mut pos: usize = p1;
    let mut k: usize = 0;
    proof {
        assert(nums@.map_values(|x: i64| x as int) =~= Seq::<int>::empty());
    }
    while k < 24
        invariant
            k <= 24,
            pos <= s@.len(),
            nums@.len() == k,
            spec_take_line(s@, 0) == Some((name@, start)),
            match spec_take_numbers(s@, pos as int, (24 - k) as nat) {
                Some(vp) => spec_take_numbers(s@, start, 24) == Some::<(Seq<int>, int)>(
                    (nums@.map_values(|x: i64| x as int) + vp.0, vp.1),
                ),
                None => spec_take_numbers(s@, start, 24) is None,
            },
        decreases 24 - k,
    {
        let ghost nums_before = nums@;
        let (v, p2) = match take_i64(s, pos) {
            Some(v) => v,
            None => {
                proof {
                    assert(spec_take_numbers(s@, pos as int, (24 - k) as nat) is None);
                    assert(spec_take_numbers(s@, start, 24) is None);
                    assert(spec_decode(s@) is None);
                }
                return None;
            },
        };
        nums.push(v);
        proof {
            let mapped_before = nums_before.map_values(|x: i64| x as int);
            let mapped = nums@.map_values(|x: i64| x as int);
            assert(mapped =~= mapped_before.push(v as int));
            match spec_take_numbers(s@, p2 as int, (24 - (k + 1)) as nat) {
                Some(vp) => {
                    assert(spec_take_numbers(s@, pos as int, (24 - k) as nat) == Some::<(
                        Seq<int>,
                        int,
                    )>((seq![v as int] + vp.0, vp.1)));
                    assert(mapped_before + (seq![v as int] + vp.0) =~= mapped + vp.0);
                },
                None => {
                    assert(spec_take_numbers(s@, pos as int, (24 - k) as nat) is None);
                },
            }
        }
        pos = p2;
        k += 1;
    }
    if pos != total {
        proof {
            assert(spec_take_numbers(s@, pos as int, 0) == Some::<(Seq<int>, int)>(
                (Seq::empty(), pos as int),
            ));
            assert(nums@.map_values(|x: i64| x as int) + Seq::<int>::empty() =~= nums@.map_values(
                |x: i64| x as int,
            ));
        }
        return None;
    }
    proof {
        assert(spec_take_numbers(s@, pos as int, 0) == Some::<(Seq<int>, int)>(
            (Seq::empty(), pos as int),
        ));
        assert(nums@.map_values(|x: i64| x as int) + Seq::<int>::empty() =~= nums@.map_values(
            |x: i64| x as int,
        ));
    }
    record_from(name, &nums)
}

/// Rebuilds the record from the name line and the numbers, mirroring
/// the specification's field checks one for one.
fn record_from(name: String, nums: &Vec<i64>) -> (r: Option<PlayObject>)
    requires
        nums@.len() == 24,
    ensures
        match r {
            Some(po) => spec_model_from(name@, nums@.map_values(|x: i64| x as int)) == Some(
                spec_po_model(po),
            ),
            None => spec_model_from(name@, nums@.map_values(|x: i64| x as int)) is None,
        },
{
    let ghost vs = nums@.map_values(|x: i64| x as int);
    if !(1 <= nums[0] && nums[0] <= 20) {
        return None;
    }
    if !(0 <= nums[1] && nums[1] < 12) {
        return None;
    }
    if !(0 <= nums[2] && nums[2] < 9) {
        return None;
    }
    let race0 = Race::from_index(nums[2] as usize);
    let sub_ok = if race0.has_subrace() {
        0 <= nums[3] && nums[3] < race0.subrace_count() as i64
    } else {
        nums[3] == 0
    };
    if !sub_ok {
        return None;
    }
    if !(0 <= nums[4] && nums[4] < 13) {
        return None;
    }
    let class0 = Class::from_index(nums[4] as usize);
    if !(0 <= nums[5] && nums[5] < class0.subclass_count() as i64) {
        return None;
    }
    if !(0 <= nums[6] && nums[6] < 3) {
        return None;
    }
    let mut i: usize = 7;
    while i < 13
        invariant
            7 <= i <= 13,
            nums@.len() == 24,
            vs == nums@.map_values(|x: i64| x as int),
            forall|j: int| 7 <= j < i ==> 0 <= #[trigger] vs[j] <= 255,
        decreases 13 - i,
    {
        if !(0 <= nums[i] && nums[i] <= 255) {
            proof {
                assert(!(0 <= vs[i as int] && vs[i as int] <= 255));
            }
            return None;
        }
        i += 1;
    }
    if !(-128 <= nums[13] && nums[13] <= 127) {
        return None;
    }
    if !(0 <= nums[14] && nums[14] < 2) {
        return None;
    }
    if !(nums[15] == 0 || nums[15] == 1) {
        return None;
    }
    if !(-128 <= nums[16] && nums[16] <= 127) {
        return None;
    }
    if !(0 <= nums[17] && nums[17] < 7) {
        return None;
    }
    if !(-32768 <= nums[18] && nums[18] <= 32767) {
        return None;
    }
    if !(-32768 <= nums[19] && nums[19] <= 32767) {
        return None;
    }
    if !(0 <= nums[20] && nums[20] <= 65535) {
        return None;
    }
    if !(nums[22] == 0 || nums[22] == 1) {
        return None;
    }
    let stats: [Stat; 6] = [
        Stat::Str(nums[7] as u8),
        Stat::Dex(nums[8] as u8),
        Stat::Con(nums[9] as u8),
        Stat::Int(nums[10] as u8),
        Stat::Wis(nums[11] as u8),
        Stat::Chr(nums[12] as u8),
    ];
    let status = Status {
        armor_class: nums[13] as i8,
        conditions: Condition::from_index(nums[14] as usize),
        blessed: nums[15] == 1,
        initiative: nums[16] as i8,
        hit_dice: Dice::from_index(nums[17] as usize),
        current_hp: nums[18] as i16,
        maximum_hp: nums[19] as i16,
        speed: nums[20] as u16,
    };
    let character = Character {
        name,
        level: nums[0] as u8,
        background: Background::from_index(nums[1] as usize),
        race: race0.with_subrace(nums[3] as usize),
        class: class0.with_subclass(nums[5] as usize),
        stats,
        status,
        gender: Gender::from_index(nums[6] as usize),
    };
    let po = PlayObject {
        character,
        created_at: nums[21],
        updated_at: if nums[22] == 1 {
            Some(nums[23])
        } else {
            None
        },
        last_played_at: 0,
    };
    proof {
        assert(spec_model_from(name@, vs) is Some);
        let m1 = spec_model_from(name@, vs).unwrap();
        let m2 = spec_po_model(po);
        assert(m1.name == m2.name);
        assert(m1.level == m2.level);
        assert(m1.background == m2.background);
        assert(m1.race == m2.race);
        assert(m1.class == m2.class);
        assert(m1.gender == m2.gender);
        assert(stats@[0] == Stat::Str(nums@[7] as u8) && stats@[1] == Stat::Dex(nums@[8] as u8)
            && stats@[2] == Stat::Con(nums@[9] as u8) && stats@[3] == Stat::Int(nums@[10] as u8)
            && stats@[4] == Stat::Wis(nums@[11] as u8) && stats@[5] == Stat::Chr(
            nums@[12] as u8,
        ));
        assert(m1.stats =~= m2.stats);
        assert(m1.armor_class == m2.armor_class);
        assert(m1.conditions == m2.conditions);
        assert(m1.blessed == m2.blessed);
        assert(m1.initiative == m2.initiative);
        assert(m1.hit_dice == m2.hit_dice);
        assert(m1.current_hp == m2.current_hp);
        assert(m1.maximum_hp == m2.maximum_hp);
        assert(m1.speed == m2.speed);
        assert(m1.created_at == m2.created_at);
        assert(m1.updated_at == m2.updated_at);
        assert(m1 == m2);
    }
    Some(po)
}

/// Reading many numeral lines laid end to end yields the values they
/// encode, one for one.
proof fn lemma_take_numbers_of(pre: Seq<char>, vs: Seq<int>, rest: Seq<char>)
    requires
        forall|i: int|
            0 <= i < vs.len() ==> -spec_encode_wf_bound() < #[trigger] vs[i]
                < spec_encode_wf_bound(),
    ensures
        spec_take_numbers(pre + spec_encode_numbers(vs) + rest, pre.len() as int, vs.len())
            == Some((vs, pre.len() + spec_encode_numbers(vs).len() as int)),
    decreases vs.len(),
{
    if vs.len() == 0 {
        assert(spec_encode_numbers(vs) =~= Seq::<char>::empty());
        assert(pre + spec_encode_numbers(vs) + rest =~= pre + rest);
        assert(vs =~= Seq::<int>::empty());
    } else {
        let v = vs[0];
        let tail = vs.skip(1);
        let num = spec_i64_dec(v);
        let s = pre + spec_encode_numbers(vs) + rest;
        let pre2 = pre + num + seq!['\n'];
        assert(s =~= pre + num + seq!['\n'] + (spec_encode_numbers(tail) + rest));
        lemma_take_i64_of(pre, v as i64, spec_encode_numbers(tail) + rest);
        assert(spec_take_i64(s, pre.len() as int) == Some(
            (v, pre.len() + num.len() + 1 as int),
        ));
        assert(pre2 + spec_encode_numbers(tail) + rest =~= s);
        lemma_take_numbers_of(pre2, tail, rest);
        assert(seq![v] + tail =~= vs);
    }
}

/// The round trip law: a record written by the codec reads back with
/// the same character, the same creation timestamp and the same update
/// timestamp, field for field.
pub proof fn lemma_codec_round_trip(po: PlayObject)
    requires
        spec_po_wf(po),
    ensures
        spec_decode(spec_encode(po)) == Some(spec_po_model(po)),
{
    let name = po.character.name@;
    let vs = spec_po_numbers(po);
    let body = spec_encode_numbers(vs);
    let s = spec_encode(po);
    assert(s =~= Seq::<char>::empty() + name + seq!['\n'] + body);
    lemma_take_line_of(Seq::empty(), name, body);
    assert(spec_take_line(s, 0) == Some((name, name.len() + 1 as int)));
    let pre2 = name + seq!['\n'];
    assert(pre2 + body + Seq::<char>::empty() =~= s);
    assert forall|i: int| 0 <= i < vs.len() implies -spec_encode_wf_bound() < #[trigger] vs[i]
        < spec_encode_wf_bound() by {
        assert(vs.len() == 24);
    }
    lemma_take_numbers_of(pre2, vs, Seq::empty());
    assert(spec_take_numbers(s, pre2.len() as int, 24) == Some(
        (vs, pre2.len() + body.len() as int),
    ));
    assert(pre2.len() + body.len() == s.len());
    lemma_model_from_numbers(po);
}

/// The field checks accept every typed, well-formed record, and the
/// model they rebuild is the record's own.
proof fn lemma_model_from_numbers(po: PlayObject)
    requires
        spec_po_wf(po),
    ensures
        spec_model_from(po.character.name@, spec_po_numbers(po)) == Some(spec_po_model(po)),
{
    let c = po.character;
    let vs = spec_po_numbers(po);
    crate::races::lemma_race_index_round(c.race);
    crate::classes::lemma_class_index_round(c.class);
    crate::background::lemma_background_index_round(c.background);
    crate::gender::lemma_gender_index_round(c.gender);
    crate::character::lemma_condition_index_round(c.status.conditions);
    crate::character::lemma_dice_index_round(c.status.hit_dice);
    let m1 = spec_model_from(po.character.name@, vs).unwrap();
    let m2 = spec_po_model(po);
    assert(m1.stats =~= m2.stats) by {
        assert(c.stats@[0] == Stat::Str(c.stats@[0].spec_value()));
        assert(c.stats@[1] == Stat::Dex(c.stats@[1].spec_value()));
        assert(c.stats@[2] == Stat::Con(c.stats@[2].spec_value()));
        assert(c.stats@[3] == Stat::Int(c.stats@[3].spec_value()));
        assert(c.stats@[4] == Stat::Wis(c.stats@[4].spec_value()));
        assert(c.stats@[5] == Stat::Chr(c.stats@[5].spec_value()));
    }
    assert(m1 == m2);
}

} // verus!
