use std::collections::{HashMap, HashSet};

use perpetual_r::{
    check_calibration_inputs, check_columns, check_feature, check_matrix, check_multi_output_inputs, check_training_inputs, constraint_from_int,
    constraint_map_to_int_map, constraint_to_int, feature_set, flatten_rows, int_map_to_constraint_map,
    metadata_value, named_constraints, parse_feature_index, Config, ConfigError, Constraint,
    KeyNotFound, Lifecycle, MissingNodeTreatment, Objective, ShapeError, Stage, StateError,
    UnsupportedOperation,
};

#[test]
fn constraint_codes_map_to_directions() {
    assert_eq!(constraint_from_int(-1), Some(Constraint::Negative));
    assert_eq!(constraint_from_int(0), Some(Constraint::Unconstrained));
    assert_eq!(constraint_from_int(1), Some(Constraint::Positive));
    assert_eq!(constraint_from_int(2), None);
    assert_eq!(constraint_from_int(-2), None);
    assert_eq!(constraint_to_int(Constraint::Negative), -1);
    assert_eq!(constraint_to_int(Constraint::Unconstrained), 0);
    assert_eq!(constraint_to_int(Constraint::Positive), 1);
}

#[test]
fn int_map_converts_valid_codes() {
    let mut m: HashMap<usize, i8> = HashMap::new();
    m.insert(0, 1);
    m.insert(2, -1);
    m.insert(5, 0);
    let c = int_map_to_constraint_map(m).unwrap();
    assert_eq!(c.len(), 3);
    assert_eq!(c[&0], Constraint::Positive);
    assert_eq!(c[&2], Constraint::Negative);
    assert_eq!(c[&5], Constraint::Unconstrained);
}

#[test]
fn int_map_refuses_out_of_range_code() {
    let mut m: HashMap<usize, i8> = HashMap::new();
    m.insert(3, 2);
    assert_eq!(
        int_map_to_constraint_map(m),
        Err(ConfigError::InvalidConstraint { feature: 3, value: 2 })
    );
    let mut m: HashMap<usize, i8> = HashMap::new();
    m.insert(1, 1);
    m.insert(4, -7);
    assert_eq!(
        int_map_to_constraint_map(m),
        Err(ConfigError::InvalidConstraint { feature: 4, value: -7 })
    );
}

#[test]
fn int_map_empty_is_empty() {
    let m: HashMap<usize, i8> = HashMap::new();
    assert!(int_map_to_constraint_map(m).unwrap().is_empty());
}

#[test]
fn constraint_codes_round_trip() {
    let mut m: HashMap<usize, i8> = HashMap::new();
    m.insert(0, 1);
    m.insert(7, -1);
    m.insert(9, 0);
    let c = int_map_to_constraint_map(m.clone()).unwrap();
    assert_eq!(constraint_map_to_int_map(&c), m);
}

#[test]
fn feature_index_parses_decimal() {
    assert_eq!(parse_feature_index("0"), Some(0));
    assert_eq!(parse_feature_index("42"), Some(42));
    assert_eq!(parse_feature_index("007"), Some(7));
    assert_eq!(parse_feature_index("+7"), Some(7));
    assert_eq!(parse_feature_index(&usize::MAX.to_string()), Some(usize::MAX));
}

#[test]
fn feature_index_refuses_non_numerals() {
    assert_eq!(parse_feature_index(""), None);
    assert_eq!(parse_feature_index("+"), None);
    assert_eq!(parse_feature_index("-1"), None);
    assert_eq!(parse_feature_index("1a"), None);
    assert_eq!(parse_feature_index(" 1"), None);
    assert_eq!(parse_feature_index("x"), None);
    let too_big = format!("{}0", usize::MAX);
    assert_eq!(parse_feature_index(&too_big), None);
}

#[test]
fn feature_index_agrees_with_std_parse() {
    for s in ["0", "12", "+3", "", "+", "-0", "9x", "0012", "18446744073709551616"] {
        assert_eq!(parse_feature_index(s), s.parse::<usize>().ok(), "{}", s);
    }
}

#[test]
fn named_constraints_build_map() {
    let entries = vec![("0".to_string(), 1), ("3".to_string(), -1), ("1".to_string(), 0)];
    let m = named_constraints(&entries).unwrap();
    assert_eq!(m.len(), 3);
    assert_eq!(m[&0], Constraint::Positive);
    assert_eq!(m[&3], Constraint::Negative);
    assert_eq!(m[&1], Constraint::Unconstrained);
}

#[test]
fn named_constraints_later_entry_wins() {
    let entries = vec![("1".to_string(), 1), ("1".to_string(), -1)];
    let m = named_constraints(&entries).unwrap();
    assert_eq!(m.len(), 1);
    assert_eq!(m[&1], Constraint::Negative);
}

#[test]
fn named_constraints_refuse_bad_name() {
    let entries = vec![("0".to_string(), 1), ("age".to_string(), 1)];
    assert_eq!(named_constraints(&entries), Err(ConfigError::InvalidFeatureIndex));
}

#[test]
fn named_constraints_refuse_bad_code() {
    let entries = vec![("2".to_string(), 5), ("x".to_string(), 1)];
    assert_eq!(
        named_constraints(&entries),
        Err(ConfigError::InvalidConstraint { feature: 2, value: 5 })
    );
    let entries = vec![("4".to_string(), 257)];
    assert_eq!(
        named_constraints(&entries),
        Err(ConfigError::InvalidConstraint { feature: 4, value: 257 })
    );
}

#[test]
fn feature_set_collects_indices() {
    let s = feature_set(&vec![3, 1, 3]).unwrap();
    let expected: HashSet<usize> = [1, 3].into_iter().collect();
    assert_eq!(s, expected);
    assert!(feature_set(&vec![]).unwrap().is_empty());
}

#[test]
fn feature_set_refuses_negative() {
    assert_eq!(feature_set(&vec![0, -1]), Err(ConfigError::InvalidFeatureIndex));
}

#[test]
fn config_defaults() {
    let c = Config::new();
    assert_eq!(c.objective(), Objective::LogLoss);
    assert_eq!(f32::from_bits(c.budget_bits()), 0.5);
    assert_eq!(c.max_bin(), 256);
    assert!(f64::from_bits(c.missing_bits()).is_nan());
    assert!(c.allow_missing_splits());
    assert!(!c.create_missing_branch());
    assert_eq!(c.missing_node_treatment(), MissingNodeTreatment::AssignToParent);
    assert_eq!(c.quantile_bits(), None);
    assert!(c.monotone_constraints().is_none());
    assert!(c.terminate_missing_features().is_empty());
    assert_eq!(c.validate(), Ok(()));
}

#[test]
fn budget_must_be_positive() {
    let mut c = Config::new();
    assert_eq!(c.set_budget(0.0f32.to_bits()), Err(ConfigError::NonPositiveBudget));
    assert_eq!(c.set_budget((-0.0f32).to_bits()), Err(ConfigError::NonPositiveBudget));
    assert_eq!(c.set_budget((-1.0f32).to_bits()), Err(ConfigError::NonPositiveBudget));
    assert_eq!(c.set_budget(f32::NAN.to_bits()), Err(ConfigError::NonPositiveBudget));
    assert_eq!(f32::from_bits(c.budget_bits()), 0.5);
    assert_eq!(c.set_budget(0.1f32.to_bits()), Ok(()));
    assert_eq!(f32::from_bits(c.budget_bits()), 0.1);
    assert_eq!(c.set_budget(f32::MIN_POSITIVE.to_bits()), Ok(()));
    assert_eq!(c.validate(), Ok(()));
}

#[test]
fn quantile_must_lie_in_open_unit_interval() {
    let mut c = Config::new();
    assert_eq!(c.set_quantile(Some(0.5f64.to_bits())), Ok(()));
    assert_eq!(c.quantile_bits(), Some(0.5f64.to_bits()));
    assert_eq!(c.set_quantile(Some(1.0f64.to_bits())), Err(ConfigError::QuantileOutOfRange));
    assert_eq!(c.set_quantile(Some(0.0f64.to_bits())), Err(ConfigError::QuantileOutOfRange));
    assert_eq!(c.set_quantile(Some((-0.25f64).to_bits())), Err(ConfigError::QuantileOutOfRange));
    assert_eq!(c.set_quantile(Some(f64::NAN.to_bits())), Err(ConfigError::QuantileOutOfRange));
    assert_eq!(c.quantile_bits(), Some(0.5f64.to_bits()));
    assert_eq!(c.set_quantile(Some(0.999f64.to_bits())), Ok(()));
    assert_eq!(c.set_quantile(None), Ok(()));
    assert_eq!(c.quantile_bits(), None);
}

#[test]
fn setters_store_their_values() {
    let mut c = Config::new();
    c.set_objective(Objective::QuantileLoss);
    c.set_max_bin(63);
    c.set_num_threads(Some(4));
    c.set_force_children_to_bound_parent(true);
    c.set_missing((-999.0f64).to_bits());
    c.set_allow_missing_splits(false);
    c.set_create_missing_branch(true);
    c.set_missing_node_treatment(MissingNodeTreatment::AverageNodeWeight);
    c.set_log_iterations(10);
    c.set_reset(Some(false));
    c.set_timeout(Some(2.5f32.to_bits()));
    c.set_iteration_limit(Some(100));
    c.set_memory_limit(Some(1.0f32.to_bits()));
    c.set_stopping_rounds(Some(3));
    assert_eq!(c.objective(), Objective::QuantileLoss);
    assert_eq!(c.max_bin(), 63);
    assert_eq!(c.num_threads(), Some(4));
    assert!(c.force_children_to_bound_parent());
    assert_eq!(f64::from_bits(c.missing_bits()), -999.0);
    assert!(!c.allow_missing_splits());
    assert!(c.create_missing_branch());
    assert_eq!(c.missing_node_treatment(), MissingNodeTreatment::AverageNodeWeight);
    assert_eq!(c.log_iterations(), 10);
    assert_eq!(c.reset(), Some(false));
    assert_eq!(c.timeout_bits().map(f32::from_bits), Some(2.5));
    assert_eq!(c.iteration_limit(), Some(100));
    assert_eq!(c.memory_limit_bits().map(f32::from_bits), Some(1.0));
    assert_eq!(c.stopping_rounds(), Some(3));
}

#[test]
fn feature_indices_checked_against_columns() {
    let mut c = Config::new();
    assert_eq!(c.check_feature_indices(0), Ok(()));
    let mut m = HashMap::new();
    m.insert(5usize, Constraint::Positive);
    c.set_monotone_constraint_map(m);
    assert_eq!(c.check_feature_indices(4), Err(ShapeError::FeatureOutOfRange { feature: 5, cols: 4 }));
    assert_eq!(c.check_feature_indices(6), Ok(()));
    c.set_terminate_missing_features([2usize].into_iter().collect());
    assert_eq!(c.check_feature_indices(6), Ok(()));
    c.set_categorical_features(Some([7usize].into_iter().collect()));
    assert_eq!(c.check_feature_indices(6), Err(ShapeError::FeatureOutOfRange { feature: 7, cols: 6 }));
    assert_eq!(c.check_feature_indices(8), Ok(()));
    c.set_terminate_missing_features([8usize].into_iter().collect());
    assert_eq!(c.check_feature_indices(8), Err(ShapeError::FeatureOutOfRange { feature: 8, cols: 8 }));
}

#[test]
fn matrix_shape_checks() {
    assert_eq!(check_matrix(12, 3, 4), Ok(()));
    assert_eq!(check_matrix(0, 0, 4), Ok(()));
    assert_eq!(check_matrix(11, 3, 4), Err(ShapeError::DataLength { rows: 3, cols: 4, actual: 11 }));
    assert_eq!(
        check_matrix(0, usize::MAX, 2),
        Err(ShapeError::DataLength { rows: usize::MAX, cols: 2, actual: 0 })
    );
}

#[test]
fn training_input_checks() {
    assert_eq!(check_training_inputs(400, 100, 4, 100, None), Ok(()));
    assert_eq!(check_training_inputs(400, 100, 4, 100, Some(100)), Ok(()));
    assert_eq!(
        check_training_inputs(399, 100, 4, 100, None),
        Err(ShapeError::DataLength { rows: 100, cols: 4, actual: 399 })
    );
    assert_eq!(
        check_training_inputs(400, 100, 4, 99, None),
        Err(ShapeError::LabelLength { rows: 100, outputs: 1, actual: 99 })
    );
    assert_eq!(
        check_training_inputs(400, 100, 4, 100, Some(3)),
        Err(ShapeError::WeightLength { rows: 100, actual: 3 })
    );
}

#[test]
fn multi_output_input_checks() {
    assert_eq!(check_multi_output_inputs(6, 3, 2, 9, 3, None), Ok(()));
    assert_eq!(
        check_multi_output_inputs(6, 3, 2, 3, 3, None),
        Err(ShapeError::LabelLength { rows: 3, outputs: 3, actual: 3 })
    );
    assert_eq!(
        check_multi_output_inputs(6, 3, 2, 9, 3, Some(9)),
        Err(ShapeError::WeightLength { rows: 3, actual: 9 })
    );
}

#[test]
fn metadata_lookup() {
    assert_eq!(metadata_value("k", Some("v".to_string())), Ok("v".to_string()));
    assert_eq!(metadata_value("k", None), Err(KeyNotFound { key: "k".to_string() }));
}

#[test]
fn flatten_rows_is_row_major() {
    let rows = vec![vec![1.0f64, 2.0], vec![3.0, 4.0], vec![5.0, 6.0]];
    assert_eq!(flatten_rows(&rows), Some((vec![1.0, 2.0, 3.0, 4.0, 5.0, 6.0], 3, 2)));
}

#[test]
fn flatten_rows_edge_cases() {
    let empty: Vec<Vec<u8>> = vec![];
    assert_eq!(flatten_rows(&empty), Some((vec![], 0, 0)));
    let ragged = vec![vec![1u8, 2], vec![3]];
    assert_eq!(flatten_rows(&ragged), None);
    let hollow: Vec<Vec<u8>> = vec![vec![], vec![]];
    assert_eq!(flatten_rows(&hollow), Some((vec![], 2, 0)));
}

#[test]
fn lifecycle_requires_fit_before_prune() {
    let mut l = Lifecycle::new();
    assert_eq!(l.require_fitted(), Err(StateError::NotFitted));
    assert_eq!(l.record_prune(), Err(StateError::NotFitted));
    assert_eq!(l.stage, Stage::Unfit);
    l.record_fit();
    assert_eq!(l.require_fitted(), Ok(()));
    assert_eq!(l.record_prune(), Ok(()));
    assert_eq!(l.stage, Stage::Pruned);
    l.record_fit();
    assert_eq!(l.stage, Stage::Fit);
}

#[test]
fn lifecycle_requires_calibration_for_intervals() {
    let mut l = Lifecycle::new();
    assert_eq!(l.require_calibrated(), Err(StateError::NotCalibrated));
    l.record_calibration();
    assert_eq!(l.require_calibrated(), Ok(()));
    assert_eq!(l.stage, Stage::Unfit);
    let r = Lifecycle::restored(true, false);
    assert_eq!(r.stage, Stage::Fit);
    assert_eq!(r.require_calibrated(), Err(StateError::NotCalibrated));
}

#[test]
fn calibration_inputs_need_matching_columns() {
    assert_eq!(check_calibration_inputs(400, 100, 4, 100, None, 80, 20, 4, 20), Ok(()));
    assert_eq!(
        check_calibration_inputs(400, 100, 4, 100, None, 60, 20, 3, 20),
        Err(ShapeError::ColumnMismatch { expected: 4, actual: 3 })
    );
}

#[test]
fn calibration_inputs_length_errors() {
    assert_eq!(
        check_calibration_inputs(400, 100, 4, 99, None, 80, 20, 4, 20),
        Err(ShapeError::LabelLength { rows: 100, outputs: 1, actual: 99 })
    );
    assert_eq!(
        check_calibration_inputs(400, 100, 4, 100, Some(7), 80, 20, 4, 20),
        Err(ShapeError::WeightLength { rows: 100, actual: 7 })
    );
    assert_eq!(
        check_calibration_inputs(400, 100, 4, 100, None, 80, 20, 4, 19),
        Err(ShapeError::LabelLength { rows: 20, outputs: 1, actual: 19 })
    );
    assert_eq!(
        check_calibration_inputs(400, 100, 4, 100, None, 79, 20, 4, 20),
        Err(ShapeError::DataLength { rows: 20, cols: 4, actual: 79 })
    );
}

#[test]
fn prediction_columns_and_features() {
    assert_eq!(check_columns(4, 4), Ok(()));
    assert_eq!(check_columns(3, 4), Err(ShapeError::ColumnMismatch { expected: 4, actual: 3 }));
    assert_eq!(check_feature(3, 4), Ok(()));
    assert_eq!(check_feature(4, 4), Err(ShapeError::FeatureOutOfRange { feature: 4, cols: 4 }));
}

#[test]
fn config_constraint_entries_accepted() {
    let mut c = Config::new();
    let entries = vec![("0".to_string(), 1), ("2".to_string(), -1)];
    assert_eq!(c.set_monotone_constraints(&entries), Ok(()));
    let m = c.monotone_constraints().as_ref().unwrap();
    assert_eq!(m.len(), 2);
    assert_eq!(m[&0], Constraint::Positive);
    assert_eq!(m[&2], Constraint::Negative);
}

#[test]
fn config_constraint_entries_refused_leave_config_unchanged() {
    let mut c = Config::new();
    assert_eq!(c.set_monotone_constraints(&vec![("1".to_string(), 0)]), Ok(()));
    for code in [2, -5, 255, 257, -255] {
        let entries = vec![("0".to_string(), 1), ("3".to_string(), code)];
        assert_eq!(
            c.set_monotone_constraints(&entries),
            Err(ConfigError::InvalidConstraint { feature: 3, value: code })
        );
        let m = c.monotone_constraints().as_ref().unwrap();
        assert_eq!(m.len(), 1);
        assert_eq!(m[&1], Constraint::Unconstrained);
    }
    let entries = vec![("feature".to_string(), 1)];
    assert_eq!(c.set_monotone_constraints(&entries), Err(ConfigError::InvalidFeatureIndex));
    assert_eq!(c.monotone_constraints().as_ref().unwrap().len(), 1);
}

#[test]
fn probabilities_need_log_loss() {
    let mut c = Config::new();
    assert_eq!(c.check_predict_proba(), Ok(()));
    c.set_objective(Objective::SquaredLoss);
    assert_eq!(c.check_predict_proba(), Err(UnsupportedOperation));
    c.set_objective(Objective::QuantileLoss);
    assert_eq!(c.check_predict_proba(), Err(UnsupportedOperation));
}
