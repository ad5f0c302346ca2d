use std::collections::HashMap;
use vstd::prelude::*;
use vstd::std_specs::hash::spec_hash_map_iter;
use vstd::std_specs::iter::IteratorSpec;

use crate::error::ConfigError;

verus! {

broadcast use vstd::std_specs::hash::group_hash_axioms;

/// Required direction of the prediction in one feature.
#[derive(Debug, Clone, Copy, PartialEq, Eq)]
pub enum Constraint {
    /// Non-decreasing in the feature.
    Positive,
    /// Non-increasing in the feature.
    Negative,
    /// No requirement.
    Unconstrained,
}

/// The constraint that an integer code stands for: -1, 0 and 1 only.
pub open spec fn constraint_of(c: int) -> Option<Constraint> {
    if c == -1 {
        Some(Constraint::Negative)
    } else if c == 0 {
        Some(Constraint::Unconstrained)
    } else if c == 1 {
        Some(Constraint::Positive)
    } else {
        None
    }
}

/// The integer code of a constraint.
pub open spec fn code_of(c: Constraint) -> int {
    match c {
        Constraint::Negative => -1,
        Constraint::Unconstrained => 0,
        Constraint::Positive => 1,
    }
}

/// Every value of the map is a constraint code.
pub open spec fn all_codes_valid(m: Map<usize, i8>) -> bool {
    forall|k: usize| #[trigger] m.contains_key(k) ==> constraint_of(m[k] as int) is Some
}

/// The constraint map that a map of valid codes stands for.
pub open spec fn constraints_of(m: Map<usize, i8>) -> Map<usize, Constraint> {
    m.map_values(|c: i8| constraint_of(c as int)->Some_0)
}

/// The code map of a constraint map.
pub open spec fn codes_of(m: Map<usize, Constraint>) -> Map<usize, i8> {
    m.map_values(|c: Constraint| code_of(c) as i8)
}

pub fn constraint_from_int(c: i32) -> (r: Option<Constraint>)
    ensures
        r == constraint_of(c as int),
{
    if c == -1 {
        Some(Constraint::Negative)
    } else if c == 0 {
        Some(Constraint::Unconstrained)
    } else if c == 1 {
        Some(Constraint::Positive)
    } else {
        None
    }
}

pub fn constraint_to_int(c: Constraint) -> (r: i8)
    ensures
        r as int == code_of(c),
        constraint_of(r as int) == Some(c),
{
    match c {
        Constraint::Negative => -1,
        Constraint::Unconstrained => 0,
        Constraint::Positive => 1,
    }
}

/// Converts feature-to-code pairs into feature-to-constraint pairs, refusing
/// the first code outside {-1, 0, 1} that is met.
pub fn int_map_to_constraint_map(int_map: HashMap<usize, i8>) -> (r: Result<
    HashMap<usize, Constraint>,
    ConfigError,
>)
    ensures
        r is Ok <==> all_codes_valid(int_map@),
        r matches Ok(m) ==> m@ == constraints_of(int_map@),
        r matches Err(e) ==> e matches ConfigError::InvalidConstraint { feature, value } && int_map@.contains_key(feature)
            && int_map@[feature] as int == value as int && constraint_of(value as int) is None,
{
    let mut constraints: HashMap<usize, Constraint> = HashMap::new();
    for (f, c) in it: int_map.iter()
        invariant
            it.seq() == spec_hash_map_iter(&int_map).remaining(),
            forall|k: usize| #[trigger] constraints@.contains_key(k) ==> int_map@.contains_key(k)
                && constraints@[k] == constraint_of(int_map@[k] as int)->Some_0,
            forall|i: int| 0 <= i < it.index() ==> constraints@.contains_key(*(#[trigger] it.seq()[i]).0)
                && constraint_of(*it.seq()[i].1 as int) is Some,
    {
        match constraint_from_int(*c as i32) {
            Some(c_) => {
                constraints.insert(*f, c_);
            },
            None => {
                proof {
                    assert(int_map@.contains_key(*f) && constraint_of(int_map@[*f] as int) is None);
                }
                return Err(ConfigError::InvalidConstraint { feature: *f, value: *c as i32 });
            },
        }
    }
    proof {
        let s = spec_hash_map_iter(&int_map).remaining();
        assert forall|k: usize| #[trigger] int_map@.contains_key(k) implies constraints@.contains_key(k)
            && constraint_of(int_map@[k] as int) is Some by {
            assert(s.contains((&k, &int_map@[k])));
            let i = choose|i: int| 0 <= i < s.len() && s[i] == (&k, &int_map@[k]);
            assert(*s[i].0 == k);
        }
        assert(constraints@ =~= constraints_of(int_map@));
    }
    Ok(constraints)
}

pub fn constraint_map_to_int_map(m: &HashMap<usize, Constraint>) -> (r: HashMap<usize, i8>)
    ensures
        r@ == codes_of(m@),
{
    let mut codes: HashMap<usize, i8> = HashMap::new();
    for (f, c) in it: m.iter()
        invariant
            it.seq() == spec_hash_map_iter(m).remaining(),
            forall|k: usize| #[trigger] codes@.contains_key(k) ==> m@.contains_key(k)
                && codes@[k] as int == code_of(m@[k]),
            forall|i: int| 0 <= i < it.index() ==> codes@.contains_key(*(#[trigger] it.seq()[i]).0),
    {
        codes.insert(*f, constraint_to_int(*c));
    }
    proof {
        let s = spec_hash_map_iter(m).remaining();
        assert forall|k: usize| #[trigger] m@.contains_key(k) implies codes@.contains_key(k) by {
            assert(s.contains((&k, &m@[k])));
            let i = choose|i: int| 0 <= i < s.len() && s[i] == (&k, &m@[k]);
            assert(*s[i].0 == k);
        }
        assert(codes@ =~= codes_of(m@));
    }
    codes
}

} // verus!

verus! {

/// A map of feature codes that holds a code outside {-1, 0, 1} is refused
/// by `int_map_to_constraint_map`.
pub proof fn lemma_invalid_code_rejected(m: Map<usize, i8>, feature: usize)
    requires
        m.contains_key(feature),
        constraint_of(m[feature] as int) is None,
    ensures
        !all_codes_valid(m),
{
}

/// Turning a constraint map into codes and back gives the same map.
pub proof fn lemma_codes_round_trip(m: Map<usize, Constraint>)
    ensures
        all_codes_valid(codes_of(m)),
        constraints_of(codes_of(m)) == m,
{
    assert(constraints_of(codes_of(m)) =~= m);
}

/// Turning valid codes into a constraint map and back gives the same codes.
pub proof fn lemma_constraints_round_trip(m: Map<usize, i8>)
    requires
        all_codes_valid(m),
    ensures
        codes_of(constraints_of(m)) == m,
{
    assert forall|k: usize| #[trigger] m.contains_key(k) implies codes_of(constraints_of(m))[k] == m[k] by {
        assert(constraint_of(m[k] as int) is Some);
    }
    assert(codes_of(constraints_of(m)) =~= m);
}

} // verus!
