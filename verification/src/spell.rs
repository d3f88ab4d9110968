//! Spells, spell slots, and the sorted menu the Action turn presents.

use crate::numeral::{encode_u64, spec_u64_dec};
use vstd::prelude::*;
use vstd::string::StrSliceExecFns;
use vstd::string::StringExecFns;

verus! {

broadcast use vstd::seq_lib::group_to_multiset_ensures;

/// One spell of the remote catalog: its record key, level and name.
#[derive(Debug, Clone, PartialEq, Eq)]
pub struct Spell {
    pub id: i64,
    pub level: u8,
    pub name: String,
}

/// The ordinal tail of a spell level: "Cantrip" for level zero, then
/// "1st", "2nd", "3rd" and "`n`th" beyond.
pub open spec fn spec_level_label(level: int) -> Seq<char> {
    if level == 0 {
        "Cantrip"@
    } else if level == 1 {
        "1st"@
    } else if level == 2 {
        "2nd"@
    } else if level == 3 {
        "3rd"@
    } else {
        spec_u64_dec(level as nat) + "th"@
    }
}

impl Spell {
    /// The menu line of a spell: its name, then its level in brackets.
    pub open spec fn spec_label(self) -> Seq<char> {
        self.name@ + " ["@ + spec_level_label(self.level as int) + "]"@
    }

    /// Renders the menu line of this spell.
    pub fn label(&self) -> (r: String)
        ensures
            r@ == self.spec_label(),
    {
        let mut out = self.name.clone();
        out.append(" [");
        if self.level == 0 {
            out.append("Cantrip");
        } else if self.level == 1 {
            out.append("1st");
        } else if self.level == 2 {
            out.append("2nd");
        } else if self.level == 3 {
            out.append("3rd");
        } else {
            encode_u64(self.level as u64, &mut out);
            out.append("th");
        }
        out.append("]");
        out
    }
}

/// One spell slot: its level and whether it is still available.
#[derive(Debug, Clone, Copy, PartialEq, Eq, Structural)]
pub struct SpellSlot {
    pub level: u8,
    pub available: bool,
}

impl SpellSlot {
    /// A fresh, still-available slot of the given level.
    pub fn from_u8(level: u8) -> (r: SpellSlot)
        ensures
            r == (SpellSlot { level, available: true }),
    {
        SpellSlot { level, available: true }
    }

    /// Fresh, still-available slots for every level in the vector, in
    /// the order given.
    pub fn from_vec(vector: Vec<u8>) -> (r: Vec<SpellSlot>)
        ensures
            r@.len() == vector@.len(),
            forall|i: int|
                0 <= i < r@.len() ==> r@[i] == (SpellSlot { level: vector@[i], available: true }),
    {
        let mut out: Vec<SpellSlot> = Vec::new();
        let mut k: usize = 0;
        while k < vector.len()
            invariant
                k <= vector@.len(),
                out@.len() == k,
                forall|i: int|
                    0 <= i < k ==> out@[i] == (SpellSlot {
                        level: vector@[i],
                        available: true,
                    }),
            decreases vector@.len() - k,
        {
            out.push(SpellSlot::from_u8(vector[k]));
            k += 1;
        }
        out
    }

    /// The level of the highest still-available slot, if any: the
    /// exclusive upper bound handed to the spell catalog query.
    pub fn max_available_level(slots: &Vec<SpellSlot>) -> (r: Option<u8>)
        ensures
            match r {
                Some(m) => (exists|i: int|
                    0 <= i < slots@.len() && slots@[i].available && slots@[i].level == m) && forall|
                    i: int,
                |
                    0 <= i < slots@.len() && slots@[i].available ==> slots@[i].level <= m,
                None => forall|i: int| 0 <= i < slots@.len() ==> !slots@[i].available,
            },
    {
        let mut best: Option<u8> = None;
        let mut k: usize = 0;
        while k < slots.len()
            invariant
                k <= slots@.len(),
                match best {
                    Some(m) => (exists|i: int|
                        0 <= i < k && slots@[i].available && slots@[i].level == m) && forall|i: int|
                        0 <= i < k && slots@[i].available ==> slots@[i].level <= m,
                    None => forall|i: int| 0 <= i < k ==> !slots@[i].available,
                },
            decreases slots@.len() - k,
        {
            let slot = slots[k];
            if slot.available {
                best = match best {
                    Some(m) => if slot.level > m {
                        Some(slot.level)
                    } else {
                        Some(m)
                    },
                    None => Some(slot.level),
                };
            }
            k += 1;
        }
        best
    }
}

/// Code-point lexicographic order on character sequences, compared
/// from position `i` on.
pub open spec fn spec_lex_le(a: Seq<char>, b: Seq<char>, i: int) -> bool
    decreases a.len() - i when 0 <= i
{
    if i >= a.len() {
        true
    } else if i >= b.len() {
        false
    } else if a[i] < b[i] {
        true
    } else if b[i] < a[i] {
        false
    } else {
        spec_lex_le(a, b, i + 1)
    }
}

/// Code-point lexicographic order on character sequences, as a
/// byte-wise comparison of their encoded forms would order them.
pub open spec fn spec_str_le(a: Seq<char>, b: Seq<char>) -> bool {
    spec_lex_le(a, b, 0)
}

/// Sequences equal up to `i` compare from 0 as they compare from `i`.
proof fn lemma_lex_prefix(a: Seq<char>, b: Seq<char>, i: int)
    requires
        0 <= i <= a.len(),
        i <= b.len(),
        forall|j: int| 0 <= j < i ==> a[j] == b[j],
    ensures
        spec_lex_le(a, b, 0) == spec_lex_le(a, b, i),
    decreases i,
{
    if i > 0 {
        lemma_lex_prefix(a, b, i - 1);
    }
}

/// Lexicographic order is total: one of the two directions holds.
pub proof fn lemma_lex_le_total(a: Seq<char>, b: Seq<char>, i: int)
    requires
        0 <= i,
    ensures
        spec_lex_le(a, b, i) || spec_lex_le(b, a, i),
    decreases a.len() - i,
{
    if i < a.len() && i < b.len() && !(a[i] < b[i]) && !(b[i] < a[i]) {
        lemma_lex_le_total(a, b, i + 1);
    }
}

/// Lexicographic order is transitive.
pub proof fn lemma_lex_le_trans(a: Seq<char>, b: Seq<char>, c: Seq<char>, i: int)
    requires
        0 <= i,
        spec_lex_le(a, b, i),
        spec_lex_le(b, c, i),
    ensures
        spec_lex_le(a, c, i),
    decreases a.len() - i,
{
    if i < a.len() && i < b.len() && i < c.len() && !(a[i] < c[i]) && !(c[i] < a[i]) && a[i] == b[i]
        && b[i] == c[i] {
        lemma_lex_le_trans(a, b, c, i + 1);
    }
}

/// Compares two strings in code-point order.
pub fn str_le(a: &str, b: &str) -> (r: bool)
    ensures
        r == spec_str_le(a@, b@),
{
    let an = a.unicode_len();
    let bn = b.unicode_len();
    let mut i: usize = 0;
    while i < an && i < bn
        invariant
            0 <= i <= an,
            i <= bn,
            an == a@.len(),
            bn == b@.len(),
            forall|j: int| 0 <= j < i ==> a@[j] == b@[j],
        decreases an - i,
    {
        let ca = a.get_char(i);
        let cb = b.get_char(i);
        if ca < cb {
            proof {
                lemma_lex_prefix(a@, b@, i as int);
            }
            return true;
        }
        if cb < ca {
            proof {
                lemma_lex_prefix(a@, b@, i as int);
            }
            return false;
        }
        i += 1;
    }
    proof {
        lemma_lex_prefix(a@, b@, i as int);
    }
    i == an
}

/// The menu order of two spells: by level first, then by name.
pub open spec fn spec_spell_le(a: Spell, b: Spell) -> bool {
    a.level < b.level || (a.level == b.level && spec_str_le(a.name@, b.name@))
}

/// The spell menu order is total.
pub proof fn lemma_spell_le_total(a: Spell, b: Spell)
    ensures
        spec_spell_le(a, b) || spec_spell_le(b, a),
{
    lemma_lex_le_total(a.name@, b.name@, 0);
}

/// The spell menu order is transitive.
pub proof fn lemma_spell_le_trans(a: Spell, b: Spell, c: Spell)
    requires
        spec_spell_le(a, b),
        spec_spell_le(b, c),
    ensures
        spec_spell_le(a, c),
{
    if a.level == b.level && b.level == c.level {
        lemma_lex_le_trans(a.name@, b.name@, c.name@, 0);
    }
}

/// Whether the sequence already stands in menu order.
pub open spec fn spec_sorted(s: Seq<Spell>) -> bool {
    forall|i: int, j: int| 0 <= i < j < s.len() ==> spec_spell_le(s[i], s[j])
}

/// The position at which `s` belongs in an ordered menu: everything
/// before it is at most `s`, everything from it on is at least `s`.
fn insert_position(out: &Vec<Spell>, s: &Spell) -> (p: usize)
    requires
        spec_sorted(out@),
    ensures
        p <= out@.len(),
        forall|a: int| 0 <= a < p ==> spec_spell_le(out@[a], *s),
        forall|b: int| p <= b < out@.len() ==> spec_spell_le(*s, out@[b]),
{
    let mut p: usize = 0;
    while p < out.len()
        invariant
            0 <= p <= out@.len(),
            spec_sorted(out@),
            forall|a: int| 0 <= a < p ==> spec_spell_le(out@[a], *s),
        decreases out@.len() - p,
    {
        let c = &out[p];
        if !(c.level < s.level || (c.level == s.level && str_le(c.name.as_str(), s.name.as_str()))) {
            proof {
                lemma_spell_le_total(out@[p as int], *s);
                assert forall|b: int| p <= b < out@.len() implies spec_spell_le(*s, out@[b]) by {
                    if b > p {
                        lemma_spell_le_trans(*s, out@[p as int], out@[b]);
                    }
                }
            }
            return p;
        }
        p += 1;
    }
    p
}

/// Sorts the spells for the menu: by level ascending, then by name in
/// code-point order; the result holds exactly the spells given.
pub fn sort_spells(spells: Vec<Spell>) -> (r: Vec<Spell>)
    ensures
        spec_sorted(r@),
        r@.to_multiset() == spells@.to_multiset(),
{
    let ghost orig = spells@;
    let mut rest = spells;
    let mut out: Vec<Spell> = Vec::new();
    while rest.len() > 0
        invariant
            spec_sorted(out@),
            out@.to_multiset().add(rest@.to_multiset()) == orig.to_multiset(),
        decreases rest@.len(),
    {
        let ghost rest_before = rest@;
        let s = rest.pop().unwrap();
        proof {
            assert(rest_before =~= rest@.push(s));
        }
        let p = insert_position(&out, &s);
        let ghost out_before = out@;
        out.insert(p, s);
        proof {
            out_before.insert_ensures(p as int, s);
            assert(spec_sorted(out@)) by {
                assert forall|i: int, j: int| 0 <= i < j < out@.len() implies spec_spell_le(
                    out@[i],
                    out@[j],
                ) by {
                    if j < p {
                    } else if i > p {
                    } else if i == p && j > p {
                        assert(out@[j] == out_before[j - 1]);
                    } else if j == p && i < p {
                        assert(out@[i] == out_before[i]);
                    } else if i < p && j > p {
                        assert(out@[i] == out_before[i]);
                        assert(out@[j] == out_before[j - 1]);
                        lemma_spell_le_trans(out_before[i], s, out_before[j - 1]);
                    }
                }
            }
            assert(out@.to_multiset().add(rest@.to_multiset()) =~= orig.to_multiset());
        }
    }
    out
}

/// Filtering distributes over putting one element in front.
proof fn lemma_filter_prepend(s: Seq<Spell>, x: Spell, pred: spec_fn(Spell) -> bool)
    ensures
        (seq![x] + s).filter(pred) == if pred(x) {
            seq![x] + s.filter(pred)
        } else {
            s.filter(pred)
        },
    decreases s.len(),
{
    reveal(Seq::filter);
    Seq::filter_distributes_over_add(seq![x], s, pred);
    let single = seq![x];
    assert(single.drop_last() =~= Seq::<Spell>::empty());
    assert(single.last() == x);
    assert(Seq::<Spell>::empty().filter(pred) =~= Seq::<Spell>::empty());
    if pred(x) {
        assert(single.filter(pred) =~= single);
    } else {
        assert(single.filter(pred) =~= Seq::<Spell>::empty());
        assert(Seq::<Spell>::empty() + s.filter(pred) =~= s.filter(pred));
    }
}

/// Keeps only the spells strictly below the slot bound, in their given
/// order; the turn menu then shows the survivors sorted.
pub fn filter_spells(spells: Vec<Spell>, bound: u8) -> (r: Vec<Spell>)
    ensures
        r@ == spells@.filter(|s: Spell| s.level < bound),
{
    let ghost pred = |s: Spell| s.level < bound;
    let mut out: Vec<Spell> = Vec::new();
    let mut rest = spells;
    let ghost orig = rest@;
    proof {
        assert(orig.subrange(orig.len() as int, orig.len() as int) =~= Seq::<Spell>::empty());
    }
    while rest.len() > 0
        invariant
            rest@.len() <= orig.len(),
            rest@ == orig.subrange(0, rest@.len() as int),
            out@ == orig.subrange(rest@.len() as int, orig.len() as int).filter(pred),
            pred == (|s: Spell| s.level < bound),
        decreases rest@.len(),
    {
        let ghost rest_before = rest@;
        let s = rest.pop().unwrap();
        let ghost k = rest@.len() as int;
        proof {
            assert(s == orig[k]);
            assert(rest@ =~= orig.subrange(0, k));
        }
        let ghost out_before = out@;
        if s.level < bound {
            out.insert(0, s);
            proof {
                assert(out@ =~= seq![s] + out_before);
            }
        }
        proof {
            let suffix = orig.subrange(k + 1, orig.len() as int);
            lemma_filter_prepend(suffix, s, pred);
            assert(orig.subrange(k, orig.len() as int) =~= seq![s] + suffix);
        }
    }
    proof {
        assert(orig.subrange(0, orig.len() as int) =~= orig);
    }
    out
}

} // verus!
