//! The choice resolver: turns a menu selection or free-text line into
//! exactly one member of an enumerated catalog.
//!
//! Every prompt in the game shows a catalog's variants behind an extra
//! "Random" entry at position 0.  The resolver maps the raw outcome of
//! such a prompt (a menu index, a failed read, or a typed line) to the
//! index of one variant, falling back to a uniformly random pick when
//! the input selects nothing.

use vstd::prelude::*;

verus! {

/// Where a menu selection lands among `count` catalog variants:
/// a failed read (`None`), the Random entry (`Some(0)`) and an index
/// past the menu all fall back to `random_index`; `Some(u)` with
/// `1 <= u <= count` picks variant `u - 1`.
pub open spec fn spec_resolve(count: nat, selection: Option<usize>, random_index: nat) -> nat {
    match selection {
        Option::None => random_index,
        Option::Some(u) => if u == 0 || u > count {
            random_index
        } else {
            (u - 1) as nat
        },
    }
}

/// A deterministic selection (a real menu index, not the Random entry
/// or a failed read) resolves the same way whatever the random
/// fallback would have been: resolving identical non-random input
/// twice yields the same variant.
pub proof fn lemma_resolve_ignores_randomness(
    count: nat,
    selection: Option<usize>,
    rnd1: nat,
    rnd2: nat,
)
    requires
        selection matches Some(u) && 1 <= u <= count,
    ensures
        spec_resolve(count, selection, rnd1) == spec_resolve(count, selection, rnd2),
{
}

/// Relies on rand's `Rng::gen_range` over `0..n`: it returns a value
/// of the (half-open) range, and panics only when the range is empty,
/// which `n >= 1` rules out.  Nothing more is promised of a random draw.
#[verifier::external_body]
pub(crate) fn random_below(n: usize) -> (r: usize)
    requires
        n >= 1,
    ensures
        r < n,
{
    rand::Rng::gen_range(&mut rand::thread_rng(), 0..n)
}

/// Maps one menu outcome to the index of the chosen variant.
pub fn resolve_choice(option_count: usize, selection: Option<usize>, random_index: usize) -> (r:
    usize)
    requires
        random_index < option_count,
    ensures
        r as nat == spec_resolve(option_count as nat, selection, random_index as nat),
        r < option_count,
{
    match selection {
        None => random_index,
        Some(u) => {
            if u == 0 || u > option_count {
                random_index
            } else {
                u - 1
            }
        },
    }
}

/// The code point a character compares as under ASCII-case-insensitive
/// matching: upper-case ASCII letters fold onto their lower-case forms,
/// everything else stands for itself.
pub open spec fn spec_fold_code(c: char) -> int {
    if 'A' <= c <= 'Z' {
        c as int + 32
    } else {
        c as int
    }
}

/// ASCII-case-insensitive equality of two character sequences.
pub open spec fn spec_ci_eq(a: Seq<char>, b: Seq<char>) -> bool {
    a.len() == b.len() && forall|i: int|
        0 <= i < a.len() ==> spec_fold_code(a[i]) == spec_fold_code(b[i])
}

/// Compares two strings, ignoring ASCII case.
pub fn eq_ignore_ascii_case(a: &str, b: &str) -> (r: bool)
    ensures
        r == spec_ci_eq(a@, b@),
{
    let a_len = a.unicode_len();
    let b_len = b.unicode_len();
    if a_len != b_len {
        return false;
    }
    let mut i: usize = 0;
    while i < a_len
        invariant
            i <= a_len,
            a_len == a@.len(),
            b_len == b@.len(),
            a_len == b_len,
            forall|j: int| 0 <= j < i ==> spec_fold_code(a@[j]) == spec_fold_code(b@[j]),
        decreases a_len - i,
    {
        let ca = a.get_char(i);
        let cb = b.get_char(i);
        let fa: u32 = if 'A' <= ca && ca <= 'Z' {
            ca as u32 + 32
        } else {
            ca as u32
        };
        let fb: u32 = if 'A' <= cb && cb <= 'Z' {
            cb as u32 + 32
        } else {
            cb as u32
        };
        if fa != fb {
            return false;
        }
        i += 1;
    }
    true
}

/// The position of the first option that the typed line matches,
/// ignoring ASCII case.
pub open spec fn spec_text_match(names: Seq<Seq<char>>, input: Seq<char>) -> Option<int>
    decreases names.len(),
{
    if names.len() == 0 {
        None
    } else if spec_ci_eq(names[0], input) {
        Some(0)
    } else {
        match spec_text_match(names.skip(1), input) {
            Some(i) => Some(i + 1),
            None => None,
        }
    }
}

/// Finds the first option a typed line matches, ignoring ASCII case.
pub fn match_option(options: &Vec<String>, input: &str) -> (r: Option<usize>)
    ensures
        match r {
            Some(i) => i < options@.len() && Some(i as int) == spec_text_match(
                options@.map_values(|s: String| s@),
                input@,
            ),
            None => spec_text_match(options@.map_values(|s: String| s@), input@) is None,
        },
{
    let ghost names = options@.map_values(|s: String| s@);
    proof {
        assert(names.skip(0) =~= names);
    }
    let mut i: usize = 0;
    while i < options.len()
        invariant
            i <= options@.len(),
            names == options@.map_values(|s: String| s@),
            spec_text_match(names, input@) == (match spec_text_match(
                names.skip(i as int),
                input@,
            ) {
                Some(j) => Some(j + i),
                None => None,
            }),
        decreases options@.len() - i,
    {
        proof {
            assert(names.skip(i as int).len() == names.len() - i);
            assert(names.skip(i as int)[0] == names[i as int]);
        }
        if eq_ignore_ascii_case(options[i].as_str(), input) {
            return Some(i);
        }
        proof {
            assert(names.skip(i as int).skip(1) =~= names.skip(i as int + 1));
        }
        i += 1;
    }
    None
}

/// What a typed line asks of the resolver: the empty line asks for a
/// random pick, a line matching a variant (ignoring ASCII case) picks
/// it, and anything else is rejected so the caller re-prompts.
#[derive(Debug, Clone, Copy, PartialEq, Eq, Structural)]
pub enum TextResolution {
    Random,
    Pick(usize),
    Unrecognized,
}

/// Classifies one typed line against the option list.
pub fn resolve_text(options: &Vec<String>, input: &str) -> (r: TextResolution)
    ensures
        input@.len() == 0 ==> r == TextResolution::Random,
        input@.len() > 0 ==> match spec_text_match(
            options@.map_values(|s: String| s@),
            input@,
        ) {
            Some(i) => r == TextResolution::Pick(i as usize) && i < options@.len(),
            None => r == TextResolution::Unrecognized,
        },
{
    if input.is_empty() {
        TextResolution::Random
    } else {
        match match_option(options, input) {
            Some(i) => TextResolution::Pick(i),
            None => TextResolution::Unrecognized,
        }
    }
}

/// An enumerated catalog the resolver can draw from: a fixed,
/// non-empty variant list in declaration order, each variant with a
/// canonical display name.
pub trait Choosable: Sized {
    /// How many variants the catalog offers.
    spec fn option_count() -> nat;

    /// The variant at a declaration-order position.
    spec fn variant_at(i: int) -> Self;

    /// The canonical display name of this variant.
    spec fn spec_name(self) -> Seq<char>;

    /// The number of selectable variants; every catalog is non-empty.
    fn variant_count() -> (n: usize)
        ensures
            n as nat == Self::option_count(),
            n >= 1,
    ;

    /// Returns the variant at position `i` in declaration order.
    fn from_index(i: usize) -> (r: Self)
        requires
            (i as nat) < Self::option_count(),
        ensures
            r == Self::variant_at(i as int),
    ;

    /// The canonical display name, as prompts and saved sheets show it.
    fn name(&self) -> (r: &'static str)
        ensures
            r@ == self.spec_name(),
    ;

    /// Resolves one prompt outcome to a variant: `None` stands for a
    /// failed read, `Some(0)` for the Random menu entry, `Some(u)` for
    /// the variant at `u - 1`; `random_index` is the fallback pick.
    fn pick(selection: Option<usize>, random_index: usize) -> (r: Self)
        requires
            (random_index as nat) < Self::option_count(),
        ensures
            r == Self::variant_at(
                spec_resolve(Self::option_count(), selection, random_index as nat) as int,
            ),
    ;
}

/// The display names of every variant of a catalog, in declaration order.
pub fn collect_names<T: Choosable>() -> (r: Vec<String>)
    ensures
        r@.len() == T::option_count(),
        forall|i: int|
            0 <= i < r@.len() ==> r@[i]@ == T::variant_at(i).spec_name(),
{
    let n = T::variant_count();
    let mut v: Vec<String> = Vec::new();
    let mut i: usize = 0;
    while i < n
        invariant
            i <= n,
            n as nat == T::option_count(),
            v@.len() == i,
            forall|j: int| 0 <= j < i ==> v@[j]@ == T::variant_at(j).spec_name(),
        decreases n - i,
    {
        let item = T::from_index(i);
        v.push(item.name().to_owned());
        i += 1;
    }
    v
}

/// Parses free text to a catalog variant: the first variant whose
/// canonical name matches the line, ignoring ASCII case.
pub fn parse_catalog<T: Choosable>(input: &str) -> (r: Option<T>)
    ensures
        match r {
            Some(v) => exists|i: int|
                0 <= i < T::option_count() && v == T::variant_at(i) && spec_ci_eq(
                    T::variant_at(i).spec_name(),
                    input@,
                ),
            None => forall|i: int|
                0 <= i < T::option_count() ==> !spec_ci_eq(T::variant_at(i).spec_name(), input@),
        },
{
    let names = collect_names::<T>();
    let ghost name_seq = names@.map_values(|s: String| s@);
    proof {
        lemma_text_match_range(name_seq, input@);
    }
    match match_option(&names, input) {
        Some(i) => {
            let v = T::from_index(i);
            proof {
                lemma_text_match_found(name_seq, input@, i as int);
                assert(name_seq[i as int] == names@[i as int]@);
                assert(v == T::variant_at(i as int) && spec_ci_eq(
                    T::variant_at(i as int).spec_name(),
                    input@,
                ));
            }
            Some(v)
        },
        None => {
            proof {
                lemma_text_match_none(name_seq, input@);
                assert forall|i: int|
                    0 <= i < T::option_count() implies !spec_ci_eq(
                    T::variant_at(i).spec_name(),
                    input@,
                ) by {
                    assert(name_seq[i] == names@[i]@);
                }
            }
            None
        },
    }
}

/// A found match lies inside the list and really matches.
proof fn lemma_text_match_range(names: Seq<Seq<char>>, input: Seq<char>)
    ensures
        spec_text_match(names, input) matches Some(i) ==> 0 <= i < names.len(),
    decreases names.len(),
{
    if names.len() > 0 && !spec_ci_eq(names[0], input) {
        lemma_text_match_range(names.skip(1), input);
    }
}

/// The index returned by a match points at a matching name.
proof fn lemma_text_match_found(names: Seq<Seq<char>>, input: Seq<char>, i: int)
    requires
        spec_text_match(names, input) == Some(i),
    ensures
        0 <= i < names.len(),
        spec_ci_eq(names[i], input),
    decreases names.len(),
{
    if names.len() > 0 && !spec_ci_eq(names[0], input) {
        lemma_text_match_found(names.skip(1), input, i - 1);
        assert(names.skip(1)[i - 1] == names[i]);
    }
}

/// When no index comes back, no name in the list matches.
proof fn lemma_text_match_none(names: Seq<Seq<char>>, input: Seq<char>)
    requires
        spec_text_match(names, input) is None,
    ensures
        forall|i: int| 0 <= i < names.len() ==> !spec_ci_eq(names[i], input),
    decreases names.len(),
{
    if names.len() > 0 {
        lemma_text_match_none(names.skip(1), input);
        assert forall|i: int| 0 <= i < names.len() implies !spec_ci_eq(names[i], input) by {
            if i > 0 {
                assert(names.skip(1)[i - 1] == names[i]);
            }
        }
    }
}

} // verus!
