use std::collections::{HashMap, HashSet};
use vstd::prelude::*;

use crate::constraint::Constraint;
use crate::error::{ConfigError, UnsupportedOperation};
use crate::features::{entries_ok, entry_error, named_constraint_map, named_constraints};
use crate::shape::ShapeError;
use vstd::std_specs::hash::{spec_hash_keys_iter, spec_hash_map_iter};
use vstd::std_specs::iter::IteratorSpec;

verus! {

broadcast use vstd::std_specs::hash::group_hash_axioms;

/// Loss that the engine minimises.
#[derive(Debug, Clone, Copy, PartialEq, Eq)]
pub enum Objective {
    /// Logistic loss, for binary classification.
    LogLoss,
    /// Squared error, for regression.
    SquaredLoss,
    /// Pinball loss at the configured quantile.
    QuantileLoss,
    /// Huber loss whose threshold adapts to the residuals.
    AdaptiveHuberLoss,
    /// Huber loss.
    HuberLoss,
}

/// How the weight of a missing-value node is set during training.
#[derive(Debug, Clone, Copy, PartialEq, Eq)]
pub enum MissingNodeTreatment {
    /// Missing-node weights are computed without any constraint.
    Unconstrained,
    /// The missing node takes its parent's weight.
    AssignToParent,
    /// The missing node takes the weighted average of the leaves below it.
    AverageLeafWeight,
    /// The missing node takes the weighted average of its two siblings.
    AverageNodeWeight,
}

/// Bit pattern of the `f32` value 0.5.
pub const DEFAULT_BUDGET_BITS: u32 = 0x3f00_0000;

/// Bit pattern of the `f32` positive infinity.
pub const F32_INFINITY_BITS: u32 = 0x7f80_0000;

/// Bit pattern of the `f64` value 1.0.
pub const F64_ONE_BITS: u64 = 0x3ff0_0000_0000_0000;

/// Bit pattern of the `f64` quiet NaN that marks a missing value by default.
pub const F64_NAN_BITS: u64 = 0x7ff8_0000_0000_0000;

/// The `f32` whose IEEE-754 bits are `bits` is greater than zero.
///
/// Positive values, infinity included, are exactly the patterns with a clear
/// sign bit and a magnitude between the smallest subnormal and infinity; the
/// patterns above infinity are NaNs.
pub open spec fn f32_positive(bits: u32) -> bool {
    0 < bits <= F32_INFINITY_BITS
}

/// The `f64` whose IEEE-754 bits are `bits` lies strictly between 0 and 1.
///
/// For a clear sign bit the order of the patterns is the order of the values,
/// so the open interval is the open range of patterns between those of 0.0
/// and 1.0.
pub open spec fn f64_in_open_unit(bits: u64) -> bool {
    0 < bits < F64_ONE_BITS
}

/// The quantile target, when set, is a valid probability level.
pub open spec fn quantile_ok(q: Option<u64>) -> bool {
    q matches Some(b) ==> f64_in_open_unit(b)
}

/// The abstract content of a `Config`.
pub ghost struct ConfigView {
    pub objective: Objective,
    pub budget_bits: u32,
    pub max_bin: u16,
    pub num_threads: Option<usize>,
    pub monotone_constraints: Option<Map<usize, Constraint>>,
    pub force_children_to_bound_parent: bool,
    pub missing_bits: u64,
    pub allow_missing_splits: bool,
    pub create_missing_branch: bool,
    pub terminate_missing_features: Set<usize>,
    pub missing_node_treatment: MissingNodeTreatment,
    pub log_iterations: usize,
    pub quantile_bits: Option<u64>,
    pub reset: Option<bool>,
    pub categorical_features: Option<Set<usize>>,
    pub timeout_bits: Option<u32>,
    pub iteration_limit: Option<usize>,
    pub memory_limit_bits: Option<u32>,
    pub stopping_rounds: Option<usize>,
}

impl ConfigView {
    /// The parameters meet the rules that `validate` checks.
    pub open spec fn valid(self) -> bool {
        f32_positive(self.budget_bits) && quantile_ok(self.quantile_bits)
    }

    /// Every feature index that the parameters name: the constrained
    /// features, the features that terminate on missing values, and the
    /// categorical features.
    pub open spec fn features(self) -> Set<usize> {
        let constrained = match self.monotone_constraints {
            Some(m) => m.dom(),
            None => Set::empty(),
        };
        let categorical = match self.categorical_features {
            Some(s) => s,
            None => Set::empty(),
        };
        constrained + self.terminate_missing_features + categorical
    }
}

/// A member of the set that is not below `cols`, if there is one.
fn set_member_at_or_above(s: &HashSet<usize>, cols: usize) -> (r: Option<usize>)
    ensures
        r is None <==> forall|f: usize| #[trigger] s@.contains(f) ==> f < cols,
        r matches Some(f) ==> s@.contains(f) && f >= cols,
{
    for f in it: s.iter()
        invariant
            it.seq() == spec_hash_keys_iter(s).remaining(),
            forall|i: int| 0 <= i < it.index() ==> *#[trigger] it.seq()[i] < cols,
    {
        if *f >= cols {
            proof {
                let q = spec_hash_keys_iter(s).remaining();
                assert(q.unref().to_set().contains(*f)) by {
                    assert(q.unref()[it.index()] == *f);
                }
            }
            return Some(*f);
        }
    }
    proof {
        let q = spec_hash_keys_iter(s).remaining();
        assert forall|f: usize| #[trigger] s@.contains(f) implies f < cols by {
            assert(q.unref().to_set().contains(f));
            let i = choose|i: int| 0 <= i < q.unref().len() && q.unref()[i] == f;
            assert(*q[i] == f);
        }
    }
    None
}

/// A key of the map that is not below `cols`, if there is one.
fn key_at_or_above(m: &HashMap<usize, Constraint>, cols: usize) -> (r: Option<usize>)
    ensures
        r is None <==> forall|f: usize| #[trigger] m@.contains_key(f) ==> f < cols,
        r matches Some(f) ==> m@.contains_key(f) && f >= cols,
{
    for (f, c) in it: m.iter()
        invariant
            it.seq() == spec_hash_map_iter(m).remaining(),
            forall|i: int| 0 <= i < it.index() ==> *(#[trigger] it.seq()[i]).0 < cols,
    {
        if *f >= cols {
            proof {
                assert(m@.contains_key(*f));
            }
            return Some(*f);
        }
    }
    proof {
        let q = spec_hash_map_iter(m).remaining();
        assert forall|f: usize| #[trigger] m@.contains_key(f) implies f < cols by {
            assert(q.contains((&f, &m@[f])));
            let i = choose|i: int| 0 <= i < q.len() && q[i] == (&f, &m@[f]);
            assert(*q[i].0 == f);
        }
    }
    None
}

/// Training and inference parameters of a booster.
///
/// Floating-point parameters are held as their IEEE-754 bit patterns
/// (`f32::to_bits`, `f64::to_bits`); the checks below read them as such.
pub struct Config {
    objective: Objective,
    budget_bits: u32,
    max_bin: u16,
    num_threads: Option<usize>,
    monotone_constraints: Option<HashMap<usize, Constraint>>,
    force_children_to_bound_parent: bool,
    missing_bits: u64,
    allow_missing_splits: bool,
    create_missing_branch: bool,
    terminate_missing_features: HashSet<usize>,
    missing_node_treatment: MissingNodeTreatment,
    log_iterations: usize,
    quantile_bits: Option<u64>,
    reset: Option<bool>,
    categorical_features: Option<HashSet<usize>>,
    timeout_bits: Option<u32>,
    iteration_limit: Option<usize>,
    memory_limit_bits: Option<u32>,
    stopping_rounds: Option<usize>,
}

impl View for Config {
    type V = ConfigView;

    closed spec fn view(&self) -> ConfigView {
        ConfigView {
            objective: self.objective,
            budget_bits: self.budget_bits,
            max_bin: self.max_bin,
            num_threads: self.num_threads,
            monotone_constraints: match self.monotone_constraints {
                Some(m) => Some(m@),
                None => None,
            },
            force_children_to_bound_parent: self.force_children_to_bound_parent,
            missing_bits: self.missing_bits,
            allow_missing_splits: self.allow_missing_splits,
            create_missing_branch: self.create_missing_branch,
            terminate_missing_features: self.terminate_missing_features@,
            missing_node_treatment: self.missing_node_treatment,
            log_iterations: self.log_iterations,
            quantile_bits: self.quantile_bits,
            reset: self.reset,
            categorical_features: match self.categorical_features {
                Some(s) => Some(s@),
                None => None,
            },
            timeout_bits: self.timeout_bits,
            iteration_limit: self.iteration_limit,
            memory_limit_bits: self.memory_limit_bits,
            stopping_rounds: self.stopping_rounds,
        }
    }
}

impl Config {
    /// The engine's defaults: log loss, budget 0.5, 256 bins, NaN as the
    /// missing marker, missing splits allowed, no missing branch, missing
    /// nodes assigned their parent's weight.
    pub fn new() -> (r: Config)
        ensures
            r@ == (ConfigView {
                objective: Objective::LogLoss,
                budget_bits: DEFAULT_BUDGET_BITS,
                max_bin: 256,
                num_threads: None,
                monotone_constraints: None,
                force_children_to_bound_parent: false,
                missing_bits: F64_NAN_BITS,
                allow_missing_splits: true,
                create_missing_branch: false,
                terminate_missing_features: Set::empty(),
                missing_node_treatment: MissingNodeTreatment::AssignToParent,
                log_iterations: 0,
                quantile_bits: None,
                reset: None,
                categorical_features: None,
                timeout_bits: None,
                iteration_limit: None,
                memory_limit_bits: None,
                stopping_rounds: None,
            }),
            r@.valid(),
    {
        Config {
            objective: Objective::LogLoss,
            budget_bits: DEFAULT_BUDGET_BITS,
            max_bin: 256,
            num_threads: None,
            monotone_constraints: None,
            force_children_to_bound_parent: false,
            missing_bits: F64_NAN_BITS,
            allow_missing_splits: true,
            create_missing_branch: false,
            terminate_missing_features: HashSet::new(),
            missing_node_treatment: MissingNodeTreatment::AssignToParent,
            log_iterations: 0,
            quantile_bits: None,
            reset: None,
            categorical_features: None,
            timeout_bits: None,
            iteration_limit: None,
            memory_limit_bits: None,
            stopping_rounds: None,
        }
    }

    pub fn set_objective(&mut self, value: Objective)
        ensures
            final(self)@ == (ConfigView { objective: value, ..old(self)@ }),
    {
        self.objective = value;
    }

    /// Sets the budget from its `f32` bits; a budget that is not positive
    /// is refused and leaves the configuration as it was.
    pub fn set_budget(&mut self, value: u32) -> (r: Result<(), ConfigError>)
        ensures
            f32_positive(value) ==> r is Ok && final(self)@ == (ConfigView { budget_bits: value, ..old(self)@ }),
            !f32_positive(value) ==> r == Err::<(), ConfigError>(ConfigError::NonPositiveBudget)
                && final(self)@ == old(self)@,
    {
        if 0 < value && value <= F32_INFINITY_BITS {
            self.budget_bits = value;
            Ok(())
        } else {
            Err(ConfigError::NonPositiveBudget)
        }
    }

    pub fn set_max_bin(&mut self, value: u16)
        ensures
            final(self)@ == (ConfigView { max_bin: value, ..old(self)@ }),
    {
        self.max_bin = value;
    }

    pub fn set_num_threads(&mut self, value: Option<usize>)
        ensures
            final(self)@ == (ConfigView { num_threads: value, ..old(self)@ }),
    {
        self.num_threads = value;
    }

    pub fn set_monotone_constraint_map(&mut self, value: HashMap<usize, Constraint>)
        ensures
            final(self)@ == (ConfigView { monotone_constraints: Some(value@), ..old(self)@ }),
    {
        self.monotone_constraints = Some(value);
    }

    pub fn set_force_children_to_bound_parent(&mut self, value: bool)
        ensures
            final(self)@ == (ConfigView { force_children_to_bound_parent: value, ..old(self)@ }),
    {
        self.force_children_to_bound_parent = value;
    }

    pub fn set_missing(&mut self, value: u64)
        ensures
            final(self)@ == (ConfigView { missing_bits: value, ..old(self)@ }),
    {
        self.missing_bits = value;
    }

    pub fn set_allow_missing_splits(&mut self, value: bool)
        ensures
            final(self)@ == (ConfigView { allow_missing_splits: value, ..old(self)@ }),
    {
        self.allow_missing_splits = value;
    }

    pub fn set_create_missing_branch(&mut self, value: bool)
        ensures
            final(self)@ == (ConfigView { create_missing_branch: value, ..old(self)@ }),
    {
        self.create_missing_branch = value;
    }

    pub fn set_terminate_missing_features(&mut self, value: HashSet<usize>)
        ensures
            final(self)@ == (ConfigView { terminate_missing_features: (value@), ..old(self)@ }),
    {
        self.terminate_missing_features = value;
    }

    pub fn set_missing_node_treatment(&mut self, value: MissingNodeTreatment)
        ensures
            final(self)@ == (ConfigView { missing_node_treatment: value, ..old(self)@ }),
    {
        self.missing_node_treatment = value;
    }

    pub fn set_log_iterations(&mut self, value: usize)
        ensures
            final(self)@ == (ConfigView { log_iterations: value, ..old(self)@ }),
    {
        self.log_iterations = value;
    }

    /// Sets the quantile target from its `f64` bits; a set value outside the
    /// open interval (0, 1) is refused and leaves the configuration as it was.
    pub fn set_quantile(&mut self, value: Option<u64>) -> (r: Result<(), ConfigError>)
        ensures
            quantile_ok(value) ==> r is Ok && final(self)@ == (ConfigView { quantile_bits: value, ..old(self)@ }),
            !quantile_ok(value) ==> r == Err::<(), ConfigError>(ConfigError::QuantileOutOfRange)
                && final(self)@ == old(self)@,
    {
        match check_quantile(value) {
            Ok(()) => {
                self.quantile_bits = value;
                Ok(())
            },
            Err(e) => Err(e),
        }
    }

    pub fn set_reset(&mut self, value: Option<bool>)
        ensures
            final(self)@ == (ConfigView { reset: value, ..old(self)@ }),
    {
        self.reset = value;
    }

    pub fn set_categorical_features(&mut self, value: Option<HashSet<usize>>)
        ensures
            final(self)@ == (ConfigView { categorical_features: (match value { Some(s) => Some(s@), None => None }), ..old(self)@ }),
    {
        self.categorical_features = value;
    }

    pub fn set_timeout(&mut self, value: Option<u32>)
        ensures
            final(self)@ == (ConfigView { timeout_bits: value, ..old(self)@ }),
    {
        self.timeout_bits = value;
    }

    pub fn set_iteration_limit(&mut self, value: Option<usize>)
        ensures
            final(self)@ == (ConfigView { iteration_limit: value, ..old(self)@ }),
    {
        self.iteration_limit = value;
    }

    pub fn set_memory_limit(&mut self, value: Option<u32>)
        ensures
            final(self)@ == (ConfigView { memory_limit_bits: value, ..old(self)@ }),
    {
        self.memory_limit_bits = value;
    }

    pub fn set_stopping_rounds(&mut self, value: Option<usize>)
        ensures
            final(self)@ == (ConfigView { stopping_rounds: value, ..old(self)@ }),
    {
        self.stopping_rounds = value;
    }

    pub fn objective(&self) -> (r: Objective)
        ensures
            r == self@.objective,
    {
        self.objective
    }

    pub fn budget_bits(&self) -> (r: u32)
        ensures
            r == self@.budget_bits,
    {
        self.budget_bits
    }

    pub fn max_bin(&self) -> (r: u16)
        ensures
            r == self@.max_bin,
    {
        self.max_bin
    }

    pub fn num_threads(&self) -> (r: Option<usize>)
        ensures
            r == self@.num_threads,
    {
        self.num_threads
    }

    pub fn monotone_constraints(&self) -> (r: &Option<HashMap<usize, Constraint>>)
        ensures
            (match *r { Some(m) => Some(m@), None => None }) == self@.monotone_constraints,
    {
        &self.monotone_constraints
    }

    pub fn force_children_to_bound_parent(&self) -> (r: bool)
        ensures
            r == self@.force_children_to_bound_parent,
    {
        self.force_children_to_bound_parent
    }

    pub fn missing_bits(&self) -> (r: u64)
        ensures
            r == self@.missing_bits,
    {
        self.missing_bits
    }

    pub fn allow_missing_splits(&self) -> (r: bool)
        ensures
            r == self@.allow_missing_splits,
    {
        self.allow_missing_splits
    }

    pub fn create_missing_branch(&self) -> (r: bool)
        ensures
            r == self@.create_missing_branch,
    {
        self.create_missing_branch
    }

    pub fn terminate_missing_features(&self) -> (r: &HashSet<usize>)
        ensures
            r@ == self@.terminate_missing_features,
    {
        &self.terminate_missing_features
    }

    pub fn missing_node_treatment(&self) -> (r: MissingNodeTreatment)
        ensures
            r == self@.missing_node_treatment,
    {
        self.missing_node_treatment
    }

    pub fn log_iterations(&self) -> (r: usize)
        ensures
            r == self@.log_iterations,
    {
        self.log_iterations
    }

    pub fn quantile_bits(&self) -> (r: Option<u64>)
        ensures
            r == self@.quantile_bits,
    {
        self.quantile_bits
    }

    pub fn reset(&self) -> (r: Option<bool>)
        ensures
            r == self@.reset,
    {
        self.reset
    }

    pub fn categorical_features(&self) -> (r: &Option<HashSet<usize>>)
        ensures
            (match *r { Some(s) => Some(s@), None => None }) == self@.categorical_features,
    {
        &self.categorical_features
    }

    pub fn timeout_bits(&self) -> (r: Option<u32>)
        ensures
            r == self@.timeout_bits,
    {
        self.timeout_bits
    }

    pub fn iteration_limit(&self) -> (r: Option<usize>)
        ensures
            r == self@.iteration_limit,
    {
        self.iteration_limit
    }

    pub fn memory_limit_bits(&self) -> (r: Option<u32>)
        ensures
            r == self@.memory_limit_bits,
    {
        self.memory_limit_bits
    }

    pub fn stopping_rounds(&self) -> (r: Option<usize>)
        ensures
            r == self@.stopping_rounds,
    {
        self.stopping_rounds
    }

    /// Sets the monotone constraints from the entries of a named list
    /// (feature index written in decimal, constraint code). A list with a bad
    /// name or a code outside {-1, 0, 1} is refused, with the error of its
    /// first bad entry, and leaves the configuration as it was.
    pub fn set_monotone_constraints(&mut self, entries: &Vec<(String, i32)>) -> (r: Result<(), ConfigError>)
        ensures
            r is Ok <==> entries_ok(entries@),
            r is Ok ==> final(self)@ == (ConfigView {
                monotone_constraints: Some(named_constraint_map(entries@)),
                ..old(self)@
            }),
            r is Err ==> final(self)@ == old(self)@,
            r matches Err(e) ==> exists|i: int|
                0 <= i < entries@.len() && entries_ok(entries@.subrange(0, i))
                    && #[trigger] entry_error(entries@[i].0@, entries@[i].1) == Some(e),
    {
        match named_constraints(entries) {
            Ok(m) => {
                self.monotone_constraints = Some(m);
                Ok(())
            },
            Err(e) => Err(e),
        }
    }

    /// Checks that the objective gives class probabilities, as `LogLoss`
    /// alone does.
    pub fn check_predict_proba(&self) -> (r: Result<(), UnsupportedOperation>)
        ensures
            r is Ok <==> self@.objective == Objective::LogLoss,
    {
        match self.objective {
            Objective::LogLoss => Ok(()),
            _ => Err(UnsupportedOperation),
        }
    }

    /// Checks, once the column count of the data is known, that every
    /// feature index the parameters name is below it.
    pub fn check_feature_indices(&self, cols: usize) -> (r: Result<(), ShapeError>)
        ensures
            r is Ok <==> forall|f: usize| #[trigger] self@.features().contains(f) ==> f < cols,
            r matches Err(e) ==> e matches ShapeError::FeatureOutOfRange { feature, cols: c } && c == cols
                && self@.features().contains(feature) && feature >= cols,
    {
        match &self.monotone_constraints {
            Some(m) => {
                match key_at_or_above(m, cols) {
                    Some(f) => {
                        proof {
                            assert(self@.features().contains(f));
                        }
                        return Err(ShapeError::FeatureOutOfRange { feature: f, cols });
                    },
                    None => {},
                }
            },
            None => {},
        }
        match set_member_at_or_above(&self.terminate_missing_features, cols) {
            Some(f) => {
                proof {
                    assert(self@.features().contains(f));
                }
                return Err(ShapeError::FeatureOutOfRange { feature: f, cols });
            },
            None => {},
        }
        match &self.categorical_features {
            Some(s) => {
                match set_member_at_or_above(s, cols) {
                    Some(f) => {
                        proof {
                            assert(self@.features().contains(f));
                        }
                        return Err(ShapeError::FeatureOutOfRange { feature: f, cols });
                    },
                    None => {},
                }
            },
            None => {},
        }
        Ok(())
    }

    /// Checks the whole configuration: the budget must be positive and a set
    /// quantile must lie strictly between 0 and 1.
    pub fn validate(&self) -> (r: Result<(), ConfigError>)
        ensures
            r is Ok <==> self@.valid(),
            !f32_positive(self@.budget_bits) ==> r == Err::<(), ConfigError>(ConfigError::NonPositiveBudget),
            f32_positive(self@.budget_bits) && !quantile_ok(self@.quantile_bits)
                ==> r == Err::<(), ConfigError>(ConfigError::QuantileOutOfRange),
    {
        if !(0 < self.budget_bits && self.budget_bits <= F32_INFINITY_BITS) {
            return Err(ConfigError::NonPositiveBudget);
        }
        check_quantile(self.quantile_bits)
    }
}

fn check_quantile(q: Option<u64>) -> (r: Result<(), ConfigError>)
    ensures
        r is Ok <==> quantile_ok(q),
        r is Err ==> r == Err::<(), ConfigError>(ConfigError::QuantileOutOfRange),
{
    match q {
        Some(b) => {
            if 0 < b && b < F64_ONE_BITS {
                Ok(())
            } else {
                Err(ConfigError::QuantileOutOfRange)
            }
        },
        None => Ok(()),
    }
}

} // verus!
