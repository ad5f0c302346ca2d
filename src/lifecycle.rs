use vstd::prelude::*;

verus! {

/// Where a booster stands in its training lifecycle.
#[derive(Debug, Clone, Copy, PartialEq, Eq)]
pub enum Stage {
    /// No tree has been trained yet.
    Unfit,
    /// `fit` has completed at least once.
    Fit,
    /// Trees were pruned after fitting.
    Pruned,
}

/// An operation was asked for before the step it depends on.
#[derive(Debug, PartialEq, Eq)]
pub enum StateError {
    /// The booster has not been fitted.
    NotFitted,
    /// No calibration has been run, so there are no intervals to give.
    NotCalibrated,
}

/// The training stage of a booster and whether it holds calibration results.
#[derive(Debug, Clone, Copy, PartialEq, Eq)]
pub struct Lifecycle {
    pub stage: Stage,
    pub calibrated: bool,
}

impl Lifecycle {
    /// A booster that has not been trained or calibrated.
    pub fn new() -> (r: Lifecycle)
        ensures
            r == (Lifecycle { stage: Stage::Unfit, calibrated: false }),
    {
        Lifecycle { stage: Stage::Unfit, calibrated: false }
    }

    /// The lifecycle of a booster read back from its serialised form.
    pub fn restored(has_trees: bool, calibrated: bool) -> (r: Lifecycle)
        ensures
            r.stage == (if has_trees { Stage::Fit } else { Stage::Unfit }),
            r.calibrated == calibrated,
    {
        Lifecycle { stage: if has_trees { Stage::Fit } else { Stage::Unfit }, calibrated }
    }

    /// Records a completed `fit`.
    pub fn record_fit(&mut self)
        ensures
            final(self).stage == Stage::Fit,
            final(self).calibrated == old(self).calibrated,
    {
        self.stage = Stage::Fit;
    }

    /// Records a completed calibration.
    pub fn record_calibration(&mut self)
        ensures
            final(self).stage == old(self).stage,
            final(self).calibrated,
    {
        self.calibrated = true;
    }

    /// Checks that the booster may be pruned or queried for partial
    /// dependence: it must have been fitted.
    pub fn require_fitted(&self) -> (r: Result<(), StateError>)
        ensures
            r is Ok <==> self.stage != Stage::Unfit,
            r is Err ==> r == Err::<(), StateError>(StateError::NotFitted),
    {
        match self.stage {
            Stage::Unfit => Err(StateError::NotFitted),
            _ => Ok(()),
        }
    }

    /// Records a prune, which is refused before the booster is fitted.
    pub fn record_prune(&mut self) -> (r: Result<(), StateError>)
        ensures
            old(self).stage == Stage::Unfit ==> r == Err::<(), StateError>(StateError::NotFitted)
                && *final(self) == *old(self),
            old(self).stage != Stage::Unfit ==> r is Ok
                && *final(self) == (Lifecycle { stage: Stage::Pruned, ..*old(self) }),
    {
        match self.stage {
            Stage::Unfit => Err(StateError::NotFitted),
            _ => {
                self.stage = Stage::Pruned;
                Ok(())
            },
        }
    }

    /// Checks that prediction intervals can be given: a calibration must
    /// have been run.
    pub fn require_calibrated(&self) -> (r: Result<(), StateError>)
        ensures
            r is Ok <==> self.calibrated,
            r is Err ==> r == Err::<(), StateError>(StateError::NotCalibrated),
    {
        if self.calibrated {
            Ok(())
        } else {
            Err(StateError::NotCalibrated)
        }
    }
}

} // verus!
