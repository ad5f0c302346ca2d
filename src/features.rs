use std::collections::{HashMap, HashSet};
use vstd::prelude::*;
use vstd::utf8::encode_utf8;

use crate::constraint::{constraint_from_int, constraint_of, Constraint};
use crate::error::ConfigError;

verus! {

broadcast use vstd::std_specs::hash::group_hash_axioms;

pub open spec fn is_digit(b: u8) -> bool {
    48 <= b <= 57
}

pub open spec fn all_digits(s: Seq<u8>) -> bool {
    forall|i: int| 0 <= i < s.len() ==> is_digit(#[trigger] s[i])
}

/// The number that a string of decimal digits spells.
pub open spec fn digits_value(s: Seq<u8>) -> int
    decreases s.len(),
{
    if s.len() == 0 {
        0
    } else {
        digits_value(s.drop_last()) * 10 + (s.last() - 48)
    }
}

/// The digits of a decimal numeral, after an optional leading `+`.
pub open spec fn unsigned_part(s: Seq<u8>) -> Seq<u8> {
    if s.len() > 0 && s[0] == 43 {
        s.drop_first()
    } else {
        s
    }
}

/// The `usize` that a decimal numeral spells: an optional `+` followed by at
/// least one digit, and nothing else, with a value that fits.
pub open spec fn decimal_usize(s: Seq<u8>) -> Option<usize> {
    let d = unsigned_part(s);
    if d.len() > 0 && all_digits(d) && digits_value(d) <= usize::MAX {
        Some(digits_value(d) as usize)
    } else {
        None
    }
}

proof fn lemma_digits_value_nonneg(s: Seq<u8>)
    requires
        all_digits(s),
    ensures
        digits_value(s) >= 0,
    decreases s.len(),
{
    if s.len() > 0 {
        lemma_digits_value_nonneg(s.drop_last());
    }
}

/// A prefix of a digit string spells no more than the whole string.
proof fn lemma_prefix_value_le(s: Seq<u8>, k: int)
    requires
        all_digits(s),
        0 <= k <= s.len(),
    ensures
        digits_value(s.subrange(0, k)) <= digits_value(s),
    decreases s.len(),
{
    if k < s.len() {
        let t = s.drop_last();
        lemma_prefix_value_le(t, k);
        assert(t.subrange(0, k) =~= s.subrange(0, k));
        lemma_digits_value_nonneg(t);
    } else {
        assert(s.subrange(0, k) =~= s);
    }
}

/// Reads a feature index written in decimal, as the names of a named list
/// of constraints are.
pub fn parse_feature_index(name: &str) -> (r: Option<usize>)
    ensures
        r == decimal_usize(encode_utf8(name@)),
{
    let b = name.as_bytes();
    let n = b.len();
    let ghost s = b@;
    let mut start: usize = 0;
    if n > 0 && b[0] == 43u8 {
        start = 1;
    }
    let ghost d = unsigned_part(s);
    assert(d =~= s.subrange(start as int, n as int));
    if start == n {
        return None;
    }
    let mut acc: usize = 0;
    let mut i: usize = start;
    assert(s.subrange(start as int, start as int) =~= Seq::<u8>::empty());
    while i < n
        invariant
            start <= i <= n,
            n == s.len(),
            b@ == s,
            s == encode_utf8(name@),
            d == unsigned_part(s),
            d =~= s.subrange(start as int, n as int),
            all_digits(s.subrange(start as int, i as int)),
            acc as int == digits_value(s.subrange(start as int, i as int)),
        decreases n - i,
    {
        let c = b[i];
        if c < 48u8 || c > 57u8 {
            assert(d[i - start as int] == c && !is_digit(d[i - start as int]));
            assert(!all_digits(d));
            return None;
        }
        let ghost next = s.subrange(start as int, i + 1);
        assert(next.drop_last() =~= s.subrange(start as int, i as int));
        assert(all_digits(next));
        assert(d.subrange(0, i + 1 - start) =~= next);
        assert(next.last() == c);
        assert(digits_value(next) == acc * 10 + (c - 48));
        match acc.checked_mul(10) {
            Some(m) => match m.checked_add((c - 48u8) as usize) {
                Some(v) => {
                    acc = v;
                },
                None => {
                    proof {
                        if all_digits(d) {
                            lemma_prefix_value_le(d, i + 1 - start);
                        }
                    }
                    return None;
                },
            },
            None => {
                proof {
                    lemma_digits_value_nonneg(s.subrange(start as int, i as int));
                    if all_digits(d) {
                        lemma_prefix_value_le(d, i + 1 - start);
                    }
                }
                return None;
            },
        }
        i = i + 1;
    }
    assert(d =~= s.subrange(start as int, i as int));
    Some(acc)
}

/// What is wrong with one `(name, code)` entry of a named list of
/// constraints, if anything: a name that is not a feature index, or a code
/// outside {-1, 0, 1}.
pub open spec fn entry_error(name: Seq<char>, value: i32) -> Option<ConfigError> {
    match decimal_usize(encode_utf8(name)) {
        None => Some(ConfigError::InvalidFeatureIndex),
        Some(f) => if constraint_of(value as int) is None {
            Some(ConfigError::InvalidConstraint { feature: f, value })
        } else {
            None
        },
    }
}

pub open spec fn entries_ok(entries: Seq<(String, i32)>) -> bool {
    forall|i: int| 0 <= i < entries.len() ==> (#[trigger] entry_error(entries[i].0@, entries[i].1)) is None
}

/// The constraint map that valid entries give, a later entry for a feature
/// replacing an earlier one.
pub open spec fn named_constraint_map(entries: Seq<(String, i32)>) -> Map<usize, Constraint>
    decreases entries.len(),
{
    if entries.len() == 0 {
        Map::empty()
    } else {
        let e = entries.last();
        named_constraint_map(entries.drop_last()).insert(
            decimal_usize(encode_utf8(e.0@))->Some_0,
            constraint_of(e.1 as int)->Some_0,
        )
    }
}

/// Converts the entries of a named list of constraints (feature index
/// written in decimal, constraint code) into a constraint map, refusing at
/// the first bad entry.
pub fn named_constraints(entries: &Vec<(String, i32)>) -> (r: Result<HashMap<usize, Constraint>, ConfigError>)
    ensures
        r is Ok <==> entries_ok(entries@),
        r matches Ok(m) ==> m@ == named_constraint_map(entries@),
        r matches Err(e) ==> exists|i: int|
            0 <= i < entries@.len() && entries_ok(entries@.subrange(0, i))
                && #[trigger] entry_error(entries@[i].0@, entries@[i].1) == Some(e),
{
    let mut map: HashMap<usize, Constraint> = HashMap::new();
    let mut i: usize = 0;
    assert(entries@.subrange(0, 0) =~= Seq::<(String, i32)>::empty());
    while i < entries.len()
        invariant
            i <= entries@.len(),
            entries_ok(entries@.subrange(0, i as int)),
            map@ == named_constraint_map(entries@.subrange(0, i as int)),
        decreases entries@.len() - i,
    {
        let entry = &entries[i];
        let ghost prefix = entries@.subrange(0, i + 1);
        assert(prefix.drop_last() =~= entries@.subrange(0, i as int));
        assert(prefix.last() == entries@[i as int]);
        match parse_feature_index(entry.0.as_str()) {
            None => {
                proof {
                    assert(entry_error(entries@[i as int].0@, entries@[i as int].1) == Some(
                        ConfigError::InvalidFeatureIndex,
                    ));
                }
                return Err(ConfigError::InvalidFeatureIndex);
            },
            Some(f) => match constraint_from_int(entry.1) {
                Some(c) => {
                    map.insert(f, c);
                },
                None => {
                    proof {
                        assert(entry_error(entries@[i as int].0@, entries@[i as int].1) == Some(
                            ConfigError::InvalidConstraint { feature: f, value: entry.1 },
                        ));
                    }
                    return Err(ConfigError::InvalidConstraint { feature: f, value: entry.1 });
                },
            },
        }
        proof {
            assert forall|j: int| 0 <= j < prefix.len() implies (#[trigger] entry_error(prefix[j].0@, prefix[j].1)) is None by {
                if j < i {
                    assert(prefix[j] == entries@.subrange(0, i as int)[j]);
                }
            }
        }
        i = i + 1;
    }
    assert(entries@.subrange(0, i as int) =~= entries@);
    Ok(map)
}

/// Converts an integer vector of feature indices into a set, refusing a
/// negative index.
pub fn feature_set(values: &Vec<i32>) -> (r: Result<HashSet<usize>, ConfigError>)
    ensures
        r is Ok <==> forall|i: int| 0 <= i < values@.len() ==> #[trigger] values@[i] >= 0,
        r matches Ok(s) ==> forall|f: usize|
            s@.contains(f) <==> exists|i: int| 0 <= i < values@.len() && #[trigger] values@[i] as int == f as int,
        r is Err ==> r == Err::<HashSet<usize>, ConfigError>(ConfigError::InvalidFeatureIndex),
{
    let mut set: HashSet<usize> = HashSet::new();
    let mut i: usize = 0;
    while i < values.len()
        invariant
            i <= values@.len(),
            forall|j: int| 0 <= j < i ==> #[trigger] values@[j] >= 0,
            forall|f: usize|
                set@.contains(f) <==> exists|j: int| 0 <= j < i && #[trigger] values@[j] as int == f as int,
        decreases values@.len() - i,
    {
        let v = values[i];
        if v < 0 {
            return Err(ConfigError::InvalidFeatureIndex);
        }
        set.insert(v as usize);
        proof {
            assert forall|f: usize|
                set@.contains(f) implies exists|j: int| 0 <= j < i + 1 && #[trigger] values@[j] as int == f as int by {
                if f as int != v as int {
                    assert(exists|j: int| 0 <= j < i && #[trigger] values@[j] as int == f as int);
                } else {
                    assert(values@[i as int] as int == f as int);
                }
            }
            assert forall|f: usize|
                (exists|j: int| 0 <= j < i + 1 && #[trigger] values@[j] as int == f as int) implies set@.contains(f) by {
                let j = choose|j: int| 0 <= j < i + 1 && #[trigger] values@[j] as int == f as int;
                if j < i {
                    assert(exists|j: int| 0 <= j < i && #[trigger] values@[j] as int == f as int);
                }
            }
        }
        i = i + 1;
    }
    Ok(set)
}

} // verus!

verus! {

/// A named list of constraints that holds an entry with a code outside
/// {-1, 0, 1}, or a name that is not a feature index, is refused by
/// `named_constraints`.
pub proof fn lemma_bad_entry_rejected(entries: Seq<(String, i32)>, i: int)
    requires
        0 <= i < entries.len(),
        decimal_usize(encode_utf8(entries[i].0@)) is None || constraint_of(entries[i].1 as int) is None,
    ensures
        !entries_ok(entries),
{
    assert(entry_error(entries[i].0@, entries[i].1) is Some);
}

} // verus!
