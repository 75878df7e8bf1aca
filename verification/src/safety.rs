//! Safety distances: how close robot parts, the tool and environment
//! objects may come to each other before a configuration counts as a
//! collision.
use vstd::prelude::*;
use crate::check_mode::{check_mode_name, mode_for_name, mode_label, normalize_mode, parse_check_mode, CheckMode};
use crate::error::ValueError;
use crate::ieee754::{finite32, is_less32, key32, less32};
use crate::validate::{validate_collision_index, validate_f32};

verus! {

/// The binary32 encoding of -1.0: the distance that disables the check of
/// a pair of bodies.
pub const NEVER_COLLIDES_BITS: u32 = 0xbf80_0000;

/// The binary32 encoding of 0.0: the distance that allows bodies to touch
/// but not to intersect.
pub const TOUCH_ONLY_BITS: u32 = 0;

/// The distances strictly between `NEVER_COLLIDES` and `TOUCH_ONLY`, which
/// mean nothing and are refused.
pub open spec fn in_distance_gap(d: u32) -> bool {
    less32(NEVER_COLLIDES_BITS, d) && less32(d, TOUCH_ONLY_BITS)
}

/// Why a distance (already narrowed to binary32) is refused, if it is.
pub open spec fn distance_error(d: u32, name: Seq<char>) -> Option<Seq<char>> {
    if !finite32(d) {
        Some(name + " values must be finite f32 values"@)
    } else if in_distance_gap(d) {
        Some(name + " must be non-negative or NEVER_COLLIDES"@)
    } else {
        None
    }
}

/// Checks a safety distance already narrowed to binary32: finite, and
/// either non-negative or at most `NEVER_COLLIDES`.
pub fn validate_safety_distance(narrowed: u32, name: &str) -> (r: Result<u32, ValueError>)
    ensures
        match distance_error(narrowed, name@) {
            None => r == Ok::<u32, ValueError>(narrowed),
            Some(m) => r matches Err(e) && e@ == m,
        },
{
    let value = validate_f32(narrowed, name)?;
    if is_less32(NEVER_COLLIDES_BITS, value) && is_less32(value, TOUCH_ONLY_BITS) {
        return Err(ValueError::named(name, " must be non-negative or NEVER_COLLIDES"));
    }
    Ok(value)
}

/// The pair of body indices that a special distance applies to.
pub open spec fn pair_key(entry: (u16, u16, u32)) -> (u16, u16) {
    (entry.0, entry.1)
}

/// The map that inserting the entries in order builds: a later entry for
/// the same pair replaces an earlier one.
pub open spec fn distance_map(entries: Seq<(u16, u16, u32)>) -> Map<(u16, u16), u32>
    decreases entries.len(),
{
    if entries.len() == 0 {
        Map::empty()
    } else {
        let last = entries.last();
        distance_map(entries.drop_last()).insert(pair_key(last), last.2)
    }
}

/// No two entries name the same pair.
pub open spec fn distinct_pairs(entries: Seq<(u16, u16, u32)>) -> bool {
    forall|i: int, j: int|
        0 <= i < entries.len() && 0 <= j < entries.len() && i != j ==> pair_key(
            #[trigger] entries[i],
        ) != pair_key(#[trigger] entries[j])
}

/// The map that a list of entries with distinct pairs holds.
pub open spec fn entries_map(entries: Seq<(u16, u16, u32)>) -> Map<(u16, u16), u32> {
    Map::new(
        |k: (u16, u16)| exists|i: int| 0 <= i < entries.len() && pair_key(entries[i]) == k,
        |k: (u16, u16)|
            entries[choose|i: int| 0 <= i < entries.len() && pair_key(entries[i]) == k].2,
    )
}

/// The entry with the given pair, found in a list with distinct pairs.
fn find_pair(entries: &Vec<(u16, u16, u32)>, a: u16, b: u16) -> (r: Option<usize>)
    ensures
        match r {
            Some(i) => i < entries@.len() && pair_key(entries@[i as int]) == (a, b),
            None => forall|i: int|
                0 <= i < entries@.len() ==> pair_key(#[trigger] entries@[i]) != (a, b),
        },
{
    let mut i: usize = 0;
    while i < entries.len()
        invariant
            i <= entries@.len(),
            forall|j: int| 0 <= j < i ==> pair_key(#[trigger] entries@[j]) != (a, b),
        decreases entries@.len() - i,
    {
        let (x, y, _) = entries[i];
        if x == a && y == b {
            return Some(i);
        }
        i = i + 1;
    }
    None
}

/// Sets the distance of pair `(a, b)`, replacing the entry for that pair
/// if there is one.
fn insert_distance(entries: &mut Vec<(u16, u16, u32)>, a: u16, b: u16, d: u32)
    requires
        distinct_pairs(old(entries)@),
    ensures
        distinct_pairs(final(entries)@),
        entries_map(final(entries)@) == entries_map(old(entries)@).insert((a, b), d),
{
    let ghost before = entries@;
    match find_pair(entries, a, b) {
        Some(i) => {
            entries.set(i, (a, b, d));
            proof {
                let after = entries@;
                assert forall|k: (u16, u16)|
                    entries_map(after).dom().contains(k) == entries_map(before).insert(
                        (a, b),
                        d,
                    ).dom().contains(k) by {
                    if exists|j: int| 0 <= j < before.len() && pair_key(before[j]) == k {
                        let j = choose|j: int| 0 <= j < before.len() && pair_key(before[j]) == k;
                        assert(pair_key(after[j]) == k);
                    }
                    if exists|j: int| 0 <= j < after.len() && pair_key(after[j]) == k {
                        let j = choose|j: int| 0 <= j < after.len() && pair_key(after[j]) == k;
                        if j != i {
                            assert(pair_key(before[j]) == k);
                        }
                    }
                }
                assert forall|k: (u16, u16)| #[trigger]
                    entries_map(after).dom().contains(k) implies entries_map(after)[k]
                    == entries_map(before).insert((a, b), d)[k] by {
                    let j = choose|j: int| 0 <= j < after.len() && pair_key(after[j]) == k;
                    if k == (a, b) {
                        assert(j == i);
                    } else {
                        let j0 = choose|j0: int| 0 <= j0 < before.len() && pair_key(before[j0]) == k;
                        assert(pair_key(before[j]) == k);
                        assert(j0 == j);
                    }
                }
                assert(entries_map(after) =~= entries_map(before).insert((a, b), d));
            }
        },
        None => {
            entries.push((a, b, d));
            proof {
                let after = entries@;
                let n = before.len() as int;
                assert(pair_key(after[n]) == (a, b));
                assert forall|k: (u16, u16)|
                    entries_map(after).dom().contains(k) == entries_map(before).insert(
                        (a, b),
                        d,
                    ).dom().contains(k) by {
                    if exists|j: int| 0 <= j < before.len() && pair_key(before[j]) == k {
                        let j = choose|j: int| 0 <= j < before.len() && pair_key(before[j]) == k;
                        assert(pair_key(after[j]) == k);
                    }
                    if exists|j: int| 0 <= j < after.len() && pair_key(after[j]) == k {
                        let j = choose|j: int| 0 <= j < after.len() && pair_key(after[j]) == k;
                        if j != n {
                            assert(pair_key(before[j]) == k);
                        }
                    }
                }
                assert forall|k: (u16, u16)| #[trigger]
                    entries_map(after).dom().contains(k) implies entries_map(after)[k]
                    == entries_map(before).insert((a, b), d)[k] by {
                    let j = choose|j: int| 0 <= j < after.len() && pair_key(after[j]) == k;
                    if k == (a, b) {
                        assert(j == n);
                    } else {
                        let j0 = choose|j0: int| 0 <= j0 < before.len() && pair_key(before[j0]) == k;
                        assert(pair_key(before[j0]) == k);
                        assert(pair_key(after[j0]) == k);
                        assert(j0 == j);
                    }
                }
                assert(entries_map(after) =~= entries_map(before).insert((a, b), d));
            }
        },
    }
}


/// The pairs as the collision engine keys them: indices narrowed to 16 bits.
pub open spec fn keyed_pairs(pairs: Seq<(usize, usize, u32)>) -> Seq<(u16, u16, u32)> {
    pairs.map_values(|p: (usize, usize, u32)| (p.0 as u16, p.1 as u16, p.2))
}

/// Why one special distance `(a, b, distance)` is refused, if it is.
pub open spec fn pair_error(p: (usize, usize, u32)) -> Option<Seq<char>> {
    if p.0 > 0xffff || p.1 > 0xffff {
        Some("collision indices must fit in an unsigned 16-bit value"@)
    } else {
        distance_error(p.2, "special distance"@)
    }
}

/// The refusal of the first special distance that is refused, if any.
pub open spec fn first_pair_error(pairs: Seq<(usize, usize, u32)>) -> Option<Seq<char>>
    decreases pairs.len(),
{
    if pairs.len() == 0 {
        None
    } else if pair_error(pairs[0]) is Some {
        pair_error(pairs[0])
    } else {
        first_pair_error(pairs.drop_first())
    }
}

/// Why a set of safety distances is refused, checked in order: the special
/// distances, the distance to the environment, the default distance
/// between robot parts, then the mode name.
pub open spec fn safety_error(
    to_environment: u32,
    to_robot_default: u32,
    pairs: Seq<(usize, usize, u32)>,
    mode: Seq<char>,
) -> Option<Seq<char>> {
    if first_pair_error(pairs) is Some {
        first_pair_error(pairs)
    } else if distance_error(to_environment, "to_environment"@) is Some {
        distance_error(to_environment, "to_environment"@)
    } else if distance_error(to_robot_default, "to_robot_default"@) is Some {
        distance_error(to_robot_default, "to_robot_default"@)
    } else if mode_for_name(normalize_mode(mode)) is None {
        Some("mode must be 'all', 'first_collision_only', or 'no_check'"@)
    } else {
        None
    }
}

/// Minimal distances between robot parts, the tool and the environment.
/// Distances are binary32 bit patterns; `NEVER_COLLIDES` disables the check
/// of a pair and `TOUCH_ONLY` allows contact without intersection.
#[derive(Debug)]
pub struct SafetyDistances {
    to_environment: u32,
    to_robot_default: u32,
    special_distances: Vec<(u16, u16, u32)>,
    mode: CheckMode,
}

impl SafetyDistances {
    #[verifier::type_invariant]
    spec fn well_formed(self) -> bool {
        distinct_pairs(self.special_distances@)
    }

    /// The distance kept between the robot and environment objects.
    pub closed spec fn environment_distance(self) -> u32 {
        self.to_environment
    }

    /// The distance kept between robot parts with no special distance.
    pub closed spec fn robot_distance(self) -> u32 {
        self.to_robot_default
    }

    /// The special distances, one entry per pair of body indices.
    pub closed spec fn special_entries(self) -> Seq<(u16, u16, u32)> {
        self.special_distances@
    }

    /// The special distance of each pair of body indices that has one.
    pub open spec fn special_map(self) -> Map<(u16, u16), u32> {
        entries_map(self.special_entries())
    }

    /// How collision checks treat a configuration.
    pub closed spec fn check_mode(self) -> CheckMode {
        self.mode
    }

    /// Safety distances from the distance to the environment, the default
    /// distance between robot parts, special distances `(a, b, distance)`
    /// for pairs of bodies, and a mode name. Distances are binary32 bit
    /// patterns (the caller's values narrowed to binary32); a later special
    /// distance for the same pair replaces an earlier one.
    pub fn new(
        to_environment: u32,
        to_robot_default: u32,
        special_distances: Option<Vec<(usize, usize, u32)>>,
        mode: &str,
    ) -> (r: Result<SafetyDistances, ValueError>)
        ensures
            ({
                let pairs = match special_distances {
                    Some(v) => v@,
                    None => Seq::empty(),
                };
                match safety_error(to_environment, to_robot_default, pairs, mode@) {
                    Some(m) => r matches Err(e) && e@ == m,
                    None => r matches Ok(s) && s.environment_distance() == to_environment
                        && s.robot_distance() == to_robot_default && s.special_map()
                        == distance_map(keyed_pairs(pairs)) && mode_for_name(
                        normalize_mode(mode@),
                    ) == Some(s.check_mode()),
                }
            }),
    {
        let pairs = match special_distances {
            Some(v) => v,
            None => Vec::new(),
        };
        let n = pairs.len();
        let mut entries: Vec<(u16, u16, u32)> = Vec::new();
        let mut i: usize = 0;
        assert(pairs@.skip(0) =~= pairs@);
        while i < n
            invariant
                n == pairs@.len(),
                pairs@ == match special_distances {
                    Some(v) => v@,
                    None => Seq::empty(),
                },
                i <= n,
                first_pair_error(pairs@) == first_pair_error(pairs@.skip(i as int)),
                distinct_pairs(entries@),
                entries_map(entries@) == distance_map(keyed_pairs(pairs@.take(i as int))),
            decreases n - i,
        {
            let (a, b, d) = pairs[i];
            proof {
                assert(pairs@.skip(i as int)[0] == pairs@[i as int]);
                assert(pairs@.skip(i as int).drop_first() =~= pairs@.skip(i + 1));
                if pair_error(pairs@[i as int]) is Some {
                    assert(first_pair_error(pairs@) == pair_error(pairs@[i as int]));
                }
            }
            validate_collision_index(a)?;
            validate_collision_index(b)?;
            let d = validate_safety_distance(d, "special distance")?;
            insert_distance(&mut entries, a as u16, b as u16, d);
            i = i + 1;
            proof {
                let k = keyed_pairs(pairs@.take(i as int));
                assert(k.drop_last() =~= keyed_pairs(pairs@.take(i - 1)));
            }
        }
        proof {
            assert(pairs@.skip(n as int) =~= Seq::<(usize, usize, u32)>::empty());
            assert(pairs@.take(n as int) =~= pairs@);
        }
        let to_environment = validate_safety_distance(to_environment, "to_environment")?;
        let to_robot_default = validate_safety_distance(to_robot_default, "to_robot_default")?;
        let mode = parse_check_mode(mode)?;
        Ok(SafetyDistances { to_environment, to_robot_default, special_distances: entries, mode })
    }

    /// The standard distances for a mode name: robot parts and environment
    /// objects may touch but not intersect, and no pair has a special
    /// distance.
    pub fn standard(mode: &str) -> (r: Result<SafetyDistances, ValueError>)
        ensures
            match mode_for_name(normalize_mode(mode@)) {
                Some(m) => r matches Ok(s) && s.environment_distance() == TOUCH_ONLY_BITS
                    && s.robot_distance() == TOUCH_ONLY_BITS && s.special_map().is_empty()
                    && s.check_mode() == m,
                None => r matches Err(e) && e@
                    == "mode must be 'all', 'first_collision_only', or 'no_check'"@,
            },
    {
        let mode = parse_check_mode(mode)?;
        Ok(SafetyDistances::standard_for(mode))
    }

    /// The standard distances for a mode: robot parts and environment
    /// objects may touch but not intersect, and no pair has a special
    /// distance.
    pub fn standard_for(mode: CheckMode) -> (s: SafetyDistances)
        ensures
            s.environment_distance() == TOUCH_ONLY_BITS,
            s.robot_distance() == TOUCH_ONLY_BITS,
            s.special_map().is_empty(),
            s.check_mode() == mode,
    {
        let s = SafetyDistances {
            to_environment: TOUCH_ONLY_BITS,
            to_robot_default: TOUCH_ONLY_BITS,
            special_distances: Vec::new(),
            mode,
        };
        assert(s.special_map() =~= Map::empty());
        s
    }

    /// The distances of a shaped robot built without explicit safety
    /// distances: the standard ones, checking for the first collision only
    /// or for all of them.
    pub fn default_for_shape(first_collision_only: bool) -> (s: SafetyDistances)
        ensures
            s.environment_distance() == TOUCH_ONLY_BITS,
            s.robot_distance() == TOUCH_ONLY_BITS,
            s.special_map().is_empty(),
            s.check_mode() == if first_collision_only {
                CheckMode::FirstCollisionOnly
            } else {
                CheckMode::AllCollisions
            },
    {
        SafetyDistances::standard_for(
            if first_collision_only {
                CheckMode::FirstCollisionOnly
            } else {
                CheckMode::AllCollisions
            },
        )
    }

    /// The distance kept between the robot and environment objects.
    pub fn to_environment(&self) -> (d: u32)
        ensures
            d == self.environment_distance(),
    {
        self.to_environment
    }

    /// The distance kept between robot parts with no special distance.
    pub fn to_robot_default(&self) -> (d: u32)
        ensures
            d == self.robot_distance(),
    {
        self.to_robot_default
    }

    /// The special distances as `(a, b, distance)`, one entry per pair.
    pub fn special_distances(&self) -> (r: Vec<(usize, usize, u32)>)
        ensures
            r@.len() == self.special_entries().len(),
            forall|i: int|
                0 <= i < r@.len() ==> #[trigger] r@[i] == (
                    self.special_entries()[i].0 as usize,
                    self.special_entries()[i].1 as usize,
                    self.special_entries()[i].2,
                ),
            distinct_pairs(self.special_entries()),
            entries_map(self.special_entries()) == self.special_map(),
    {
        proof {
            use_type_invariant(self);
        }
        let mut out: Vec<(usize, usize, u32)> = Vec::new();
        let mut i: usize = 0;
        while i < self.special_distances.len()
            invariant
                i <= self.special_distances@.len(),
                out@.len() == i,
                forall|j: int|
                    0 <= j < i ==> #[trigger] out@[j] == (
                        self.special_distances@[j].0 as usize,
                        self.special_distances@[j].1 as usize,
                        self.special_distances@[j].2,
                    ),
            decreases self.special_distances@.len() - i,
        {
            let (a, b, d) = self.special_distances[i];
            out.push((a as usize, b as usize, d));
            i = i + 1;
        }
        out
    }

    /// The canonical name of the check mode.
    pub fn mode(&self) -> (m: &'static str)
        ensures
            m@ == mode_label(self.check_mode()),
    {
        check_mode_name(self.mode)
    }

    /// The check mode.
    pub fn check_mode_value(&self) -> (m: CheckMode)
        ensures
            m == self.check_mode(),
    {
        self.mode
    }
}


impl Clone for SafetyDistances {
    /// A copy with the same distances and mode.
    fn clone(&self) -> (c: SafetyDistances)
        ensures
            c.environment_distance() == self.environment_distance(),
            c.robot_distance() == self.robot_distance(),
            c.special_entries() == self.special_entries(),
            c.check_mode() == self.check_mode(),
    {
        proof {
            use_type_invariant(self);
        }
        let mut entries: Vec<(u16, u16, u32)> = Vec::new();
        let mut i: usize = 0;
        while i < self.special_distances.len()
            invariant
                i <= self.special_distances@.len(),
                entries@ == self.special_distances@.take(i as int),
            decreases self.special_distances@.len() - i,
        {
            entries.push(self.special_distances[i]);
            i = i + 1;
            assert(entries@ =~= self.special_distances@.take(i as int));
        }
        assert(entries@ =~= self.special_distances@);
        SafetyDistances {
            to_environment: self.to_environment,
            to_robot_default: self.to_robot_default,
            special_distances: entries,
            mode: self.mode,
        }
    }
}

/// Of several special distances for one pair, the last one given is the one
/// kept.
pub proof fn lemma_last_special_distance_wins(
    pairs: Seq<(usize, usize, u32)>,
    a: usize,
    b: usize,
    d: u32,
)
    ensures
        ({
            let m = distance_map(keyed_pairs(pairs.push((a, b, d))));
            m.contains_key((a as u16, b as u16)) && m[(a as u16, b as u16)] == d
        }),
{
    let k = keyed_pairs(pairs.push((a, b, d)));
    assert(k.drop_last() =~= keyed_pairs(pairs));
    assert(k.last() == (a as u16, b as u16, d));
}

/// A finite distance is accepted exactly when it is not below zero (-0.0
/// included) or not above -1.0 (`NEVER_COLLIDES`); the values strictly
/// between -1.0 and 0.0 are the only finite ones refused, and any
/// non-finite value is refused.
pub proof fn lemma_safety_distance_acceptance(d: u32, name: Seq<char>)
    ensures
        finite32(d) ==> (distance_error(d, name) is None <==> (key32(d) >= 0 || key32(d) <= key32(
            NEVER_COLLIDES_BITS,
        ))),
        !finite32(d) ==> distance_error(d, name) is Some,
        distance_error(NEVER_COLLIDES_BITS, name) is None,
        distance_error(TOUCH_ONLY_BITS, name) is None,
        distance_error(0x8000_0000, name) is None,
{
    assert(key32(NEVER_COLLIDES_BITS) == -0x3f80_0000);
    assert(finite32(NEVER_COLLIDES_BITS));
}

/// A pair has a special distance exactly when some given entry names it;
/// pairs that no entry names have none.
pub proof fn lemma_special_pairs_are_those_given(entries: Seq<(u16, u16, u32)>, k: (u16, u16))
    ensures
        distance_map(entries).contains_key(k) <==> exists|i: int|
            0 <= i < entries.len() && pair_key(#[trigger] entries[i]) == k,
    decreases entries.len(),
{
    if entries.len() > 0 {
        let rest = entries.drop_last();
        lemma_special_pairs_are_those_given(rest, k);
        if distance_map(entries).contains_key(k) && pair_key(entries.last()) != k {
            let i = choose|i: int| 0 <= i < rest.len() && pair_key(#[trigger] rest[i]) == k;
            assert(entries[i] == rest[i]);
        }
        if exists|i: int| 0 <= i < entries.len() && pair_key(#[trigger] entries[i]) == k {
            let i = choose|i: int| 0 <= i < entries.len() && pair_key(#[trigger] entries[i]) == k;
            if i < rest.len() {
                assert(rest[i] == entries[i]);
            }
        }
    }
}

/// When no special distance is refused, each is keyed by its own indices
/// and distance: narrowing the indices to 16 bits loses nothing.
pub proof fn lemma_accepted_pairs_keep_their_indices(pairs: Seq<(usize, usize, u32)>, i: int)
    requires
        first_pair_error(pairs) is None,
        0 <= i < pairs.len(),
    ensures
        keyed_pairs(pairs)[i].0 as usize == pairs[i].0,
        keyed_pairs(pairs)[i].1 as usize == pairs[i].1,
        keyed_pairs(pairs)[i].2 == pairs[i].2,
        pairs[i].0 <= 0xffff && pairs[i].1 <= 0xffff,
        distance_error(pairs[i].2, "special distance"@) is None,
    decreases pairs.len(),
{
    if i > 0 {
        lemma_accepted_pairs_keep_their_indices(pairs.drop_first(), i - 1);
        assert(pairs.drop_first()[i - 1] == pairs[i]);
    }
    let a: usize = pairs[i].0;
    let b: usize = pairs[i].1;
    assert(a <= 0xffff ==> (a as u16) as usize == a) by (bit_vector);
    assert(b <= 0xffff ==> (b as u16) as usize == b) by (bit_vector);
}

} // verus!
