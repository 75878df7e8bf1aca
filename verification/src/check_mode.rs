//! How collision checking treats a robot configuration, and the names by
//! which a caller selects it.
use vstd::prelude::*;
use crate::error::ValueError;
use crate::text::{
    ascii_lower, ascii_upper, lemma_ascii_lower_folds_every_capital, lemma_trim_map, lemma_trim_upper, spells,
    to_ascii_lower, trim, trim_end, trim_start, trimmed_chars, white_space,
};

verus! {

/// Whether collision checks stop at the first collision, report all of
/// them, or are skipped.
#[derive(Clone, Copy, Debug, PartialEq, Eq, Structural)]
pub enum CheckMode {
    FirstCollisionOnly,
    AllCollisions,
    NoCheck,
}

/// `-` replaced by `_`, other characters kept.
pub open spec fn dash_to_underscore(c: char) -> char {
    if c == '-' {
        '_'
    } else {
        c
    }
}

/// The form in which a mode name is looked up: trimmed, ASCII letters in
/// lower case, dashes replaced by underscores.
pub open spec fn normalize_mode(s: Seq<char>) -> Seq<char> {
    trim(s).map_values(|c: char| dash_to_underscore(ascii_lower(c)))
}

/// The mode that a normalized name selects, if any.
pub open spec fn mode_for_name(n: Seq<char>) -> Option<CheckMode> {
    if n == "first"@ || n == "first_collision_only"@ {
        Some(CheckMode::FirstCollisionOnly)
    } else if n == "all"@ || n == "all_collisions"@ || n == "all_collsions"@ {
        Some(CheckMode::AllCollisions)
    } else if n == "none"@ || n == "no_check"@ || n == "off"@ {
        Some(CheckMode::NoCheck)
    } else {
        None
    }
}

/// The canonical name of a mode.
pub open spec fn mode_label(mode: CheckMode) -> Seq<char> {
    match mode {
        CheckMode::FirstCollisionOnly => "first_collision_only"@,
        CheckMode::AllCollisions => "all"@,
        CheckMode::NoCheck => "no_check"@,
    }
}

/// Reads a check mode from its name. Surrounding white space, ASCII case
/// and the choice between `-` and `_` do not matter; besides the canonical
/// names, `first`, `all_collisions`, `none` and `off` are understood.
pub fn parse_check_mode(mode: &str) -> (r: Result<CheckMode, ValueError>)
    ensures
        match mode_for_name(normalize_mode(mode@)) {
            Some(m) => r == Ok::<CheckMode, ValueError>(m),
            None => r matches Err(e) && e@
                == "mode must be 'all', 'first_collision_only', or 'no_check'"@,
        },
{
    let trimmed = trimmed_chars(mode);
    let mut normalized: Vec<char> = Vec::new();
    let mut i: usize = 0;
    while i < trimmed.len()
        invariant
            i <= trimmed@.len(),
            trimmed@ == trim(mode@),
            normalized@ == trimmed@.take(i as int).map_values(
                |c: char| dash_to_underscore(ascii_lower(c)),
            ),
        decreases trimmed@.len() - i,
    {
        let lower = to_ascii_lower(trimmed[i]);
        let c = if lower == '-' {
            '_'
        } else {
            lower
        };
        normalized.push(c);
        i = i + 1;
        assert(trimmed@.take(i as int).drop_last() =~= trimmed@.take(i - 1));
    }
    assert(trimmed@.take(i as int) =~= trimmed@);
    if spells(&normalized, "first") || spells(&normalized, "first_collision_only") {
        Ok(CheckMode::FirstCollisionOnly)
    } else if spells(&normalized, "all") || spells(&normalized, "all_collisions") || spells(
        &normalized,
        "all_collsions",
    ) {
        Ok(CheckMode::AllCollisions)
    } else if spells(&normalized, "none") || spells(&normalized, "no_check") || spells(
        &normalized,
        "off",
    ) {
        Ok(CheckMode::NoCheck)
    } else {
        Err(ValueError::new("mode must be 'all', 'first_collision_only', or 'no_check'"))
    }
}

/// The canonical name of a mode.
pub fn check_mode_name(mode: CheckMode) -> (r: &'static str)
    ensures
        r@ == mode_label(mode),
{
    match mode {
        CheckMode::FirstCollisionOnly => "first_collision_only",
        CheckMode::AllCollisions => "all",
        CheckMode::NoCheck => "no_check",
    }
}


proof fn lemma_plain_name_normalizes_to_itself(s: Seq<char>)
    requires
        s.len() > 0,
        forall|i: int| 0 <= i < s.len() ==> ('a' <= #[trigger] s[i] && s[i] <= 'z') || s[i] == '_',
    ensures
        normalize_mode(s) == s,
{
    assert(!white_space(s[0]));
    assert(trim_start(s) == s);
    assert(!white_space(s.last()));
    assert(trim_end(s) == s);
    assert(normalize_mode(s) =~= s);
}

/// Reading back the canonical name of a mode gives that mode:
/// `parse_check_mode(check_mode_name(m))` returns `Ok(m)`.
pub proof fn lemma_mode_name_round_trip(mode: CheckMode)
    ensures
        mode_for_name(normalize_mode(mode_label(mode))) == Some(mode),
{
    reveal_strlit("first");
    reveal_strlit("first_collision_only");
    reveal_strlit("all");
    reveal_strlit("all_collisions");
    reveal_strlit("all_collsions");
    reveal_strlit("none");
    reveal_strlit("no_check");
    reveal_strlit("off");
    lemma_plain_name_normalizes_to_itself(mode_label(mode));
}

proof fn lemma_trim_start_front(s: Seq<char>)
    ensures
        trim_start(s).len() > 0 ==> !white_space(trim_start(s)[0]),
    decreases s.len(),
{
    if s.len() > 0 && white_space(s[0]) {
        lemma_trim_start_front(s.drop_first());
    }
}

proof fn lemma_trim_end_shape(s: Seq<char>)
    ensures
        trim_end(s).len() <= s.len(),
        trim_end(s) == s.subrange(0, trim_end(s).len() as int),
        trim_end(s).len() > 0 ==> !white_space(trim_end(s).last()),
    decreases s.len(),
{
    if s.len() > 0 && white_space(s.last()) {
        lemma_trim_end_shape(s.drop_last());
        let t = trim_end(s.drop_last());
        assert(s.drop_last().subrange(0, t.len() as int) =~= s.subrange(0, t.len() as int));
    } else {
        assert(s.subrange(0, s.len() as int) =~= s);
    }
}

/// Normalizing a mode name twice gives what normalizing it once gives, so
/// a name that is already normalized reads as itself.
pub proof fn lemma_normalize_mode_idempotent(s: Seq<char>)
    ensures
        normalize_mode(normalize_mode(s)) == normalize_mode(s),
        mode_for_name(normalize_mode(normalize_mode(s))) == mode_for_name(normalize_mode(s)),
{
    let u = trim_start(s);
    let t = trim(s);
    lemma_trim_start_front(s);
    lemma_trim_end_shape(u);
    let n = normalize_mode(s);
    assert(n.len() == t.len());
    if t.len() > 0 {
        assert(t[0] == u[0]);
        assert(!white_space(n[0]));
        assert(!white_space(n.last()));
        assert(trim_start(n) == n);
        assert(trim_end(n) == n);
    } else {
        assert(trim_start(n) == n);
        assert(trim_end(n) == n);
    }
    assert(normalize_mode(n) =~= n);
}

/// ASCII case never matters to a mode name: writing any of its letters in
/// upper case normalizes to the same name, so it selects the same mode (or
/// is refused alike).
pub proof fn lemma_mode_name_ignores_case(s: Seq<char>)
    ensures
        normalize_mode(s.map_values(|c: char| ascii_upper(c))) == normalize_mode(s),
        mode_for_name(normalize_mode(s.map_values(|c: char| ascii_upper(c)))) == mode_for_name(
            normalize_mode(s),
        ),
{
    lemma_trim_upper(s);
    let t = trim(s);
    let a = normalize_mode(s.map_values(|c: char| ascii_upper(c)));
    let b = normalize_mode(s);
    assert forall|i: int| 0 <= i < b.len() implies a[i] == b[i] by {
        lemma_ascii_lower_folds_every_capital(t[i]);
    }
    assert(a =~= b);
}

/// Each alias spelled in capitals selects the same mode as in lower case:
/// `FIRST`, `ALL`, `NO-CHECK`, `OFF` and the others.
pub proof fn lemma_capital_aliases(alias: Seq<char>)
    requires
        alias.len() > 0,
        forall|i: int|
            0 <= i < alias.len() ==> ('a' <= #[trigger] alias[i] && alias[i] <= 'z') || alias[i] == '_',
    ensures
        mode_for_name(normalize_mode(alias.map_values(|c: char| ascii_upper(c)))) == mode_for_name(
            alias,
        ),
{
    lemma_mode_name_ignores_case(alias);
    lemma_plain_name_normalizes_to_itself(alias);
}

/// `FIRST` reads as the first-collision-only mode, `ALL` as all collisions,
/// `NO_CHECK` as no check.
pub proof fn lemma_capital_canonical_names()
    ensures
        mode_for_name(normalize_mode("FIRST"@)) == Some(CheckMode::FirstCollisionOnly),
        mode_for_name(normalize_mode("ALL"@)) == Some(CheckMode::AllCollisions),
        mode_for_name(normalize_mode("NO_CHECK"@)) == Some(CheckMode::NoCheck),
{
    reveal_strlit("FIRST");
    reveal_strlit("first");
    reveal_strlit("ALL");
    reveal_strlit("all");
    reveal_strlit("NO_CHECK");
    reveal_strlit("no_check");
    reveal_strlit("first_collision_only");
    reveal_strlit("all_collisions");
    reveal_strlit("all_collsions");
    reveal_strlit("none");
    reveal_strlit("off");
    assert("FIRST"@ =~= "first"@.map_values(|c: char| ascii_upper(c)));
    assert("ALL"@ =~= "all"@.map_values(|c: char| ascii_upper(c)));
    assert("NO_CHECK"@ =~= "no_check"@.map_values(|c: char| ascii_upper(c)));
    lemma_capital_name("FIRST"@, "first"@);
    lemma_capital_name("ALL"@, "all"@);
    lemma_capital_name("NO_CHECK"@, "no_check"@);
    assert(mode_for_name("all"@) == Some(CheckMode::AllCollisions));
    assert(mode_for_name("no_check"@) == Some(CheckMode::NoCheck));
}

proof fn lemma_capital_name(caps: Seq<char>, lower: Seq<char>)
    requires
        lower.len() > 0,
        forall|i: int|
            0 <= i < lower.len() ==> ('a' <= #[trigger] lower[i] && lower[i] <= 'z') || lower[i] == '_',
        caps == lower.map_values(|c: char| ascii_upper(c)),
    ensures
        mode_for_name(normalize_mode(caps)) == mode_for_name(lower),
{
    lemma_capital_aliases(lower);
}

/// `_` written as `-`.
pub open spec fn underscore_to_dash(c: char) -> char {
    if c == '_' {
        '-'
    } else {
        c
    }
}

/// Dashes and underscores are interchangeable in a mode name: writing any
/// of its underscores as dashes selects the same mode.
pub proof fn lemma_mode_name_ignores_dashes(s: Seq<char>)
    ensures
        normalize_mode(s.map_values(|c: char| underscore_to_dash(c))) == normalize_mode(s),
        mode_for_name(normalize_mode(s.map_values(|c: char| underscore_to_dash(c))))
            == mode_for_name(normalize_mode(s)),
{
    let f = |c: char| underscore_to_dash(c);
    assert forall|c: char| #[trigger] white_space(f(c)) == white_space(c) by {}
    lemma_trim_map(s, f);
    let t = trim(s);
    let a = normalize_mode(s.map_values(|c: char| underscore_to_dash(c)));
    let b = normalize_mode(s);
    assert forall|i: int| 0 <= i < b.len() implies a[i] == b[i] by {
        lemma_ascii_lower_folds_every_capital(t[i]);
    }
    assert(a =~= b);
}

} // verus!
