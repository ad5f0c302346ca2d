//! Verified core of the R binding to the perpetual gradient-boosting engine.
//!
//! The engine itself trains and predicts on floating-point data; this crate
//! holds the plain-value logic that sits between the host language and the
//! engine: monotone-constraint conversion, configuration validation, and the
//! shape checks that training and prediction inputs must pass.
pub mod config;
pub mod constraint;
pub mod error;
pub mod features;
pub mod lifecycle;
pub mod metadata;
pub mod shape;

pub use constraint::{
    constraint_from_int, constraint_map_to_int_map, constraint_to_int, int_map_to_constraint_map,
    Constraint,
};
pub use error::{ConfigError, UnsupportedOperation};
pub use config::{Config, MissingNodeTreatment, Objective};
pub use shape::{
    check_calibration_inputs, check_columns, check_feature, check_matrix, check_multi_output_inputs,
    check_training_inputs, flatten_rows, ShapeError,
};
pub use features::{feature_set, named_constraints, parse_feature_index};
pub use metadata::{metadata_value, KeyNotFound};
pub use lifecycle::{Lifecycle, Stage, StateError};
