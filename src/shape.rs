use vstd::prelude::*;

verus! {

/// Why the inputs of a training or prediction call do not fit together.
#[derive(Debug, PartialEq, Eq)]
pub enum ShapeError {
    /// The flat data buffer does not hold `rows * cols` values.
    DataLength { rows: usize, cols: usize, actual: usize },
    /// The label buffer does not hold `rows * outputs` values.
    LabelLength { rows: usize, outputs: usize, actual: usize },
    /// The sample weights do not hold one value per row.
    WeightLength { rows: usize, actual: usize },
    /// A feature index is not below the data's column count.
    FeatureOutOfRange { feature: usize, cols: usize },
    /// The data has another column count than the data it must match.
    ColumnMismatch { expected: usize, actual: usize },
}

/// The first shape error of a training call, if any: the data buffer is
/// checked first, then the labels, then the weights.
pub open spec fn training_shape_error(
    data_len: usize,
    rows: usize,
    cols: usize,
    labels_len: usize,
    outputs: usize,
    weights_len: Option<usize>,
) -> Option<ShapeError> {
    if data_len as int != rows as int * cols as int {
        Some(ShapeError::DataLength { rows, cols, actual: data_len })
    } else if labels_len as int != rows as int * outputs as int {
        Some(ShapeError::LabelLength { rows, outputs, actual: labels_len })
    } else if weights_len matches Some(w) && w != rows {
        Some(ShapeError::WeightLength { rows, actual: weights_len->Some_0 })
    } else {
        None
    }
}

/// The result that a check returns for an optional error.
pub open spec fn result_of(e: Option<ShapeError>) -> Result<(), ShapeError> {
    match e {
        Some(e) => Err(e),
        None => Ok(()),
    }
}

/// `len` equals `a * b`, computed without overflow.
fn is_product(len: usize, a: usize, b: usize) -> (r: bool)
    ensures
        r <==> len as int == a as int * b as int,
{
    match a.checked_mul(b) {
        Some(p) => p == len,
        None => {
            proof {
                assert(a as int * b as int > usize::MAX);
            }
            false
        },
    }
}

/// Checks that a flat buffer of `len` values is a `rows` by `cols` matrix.
pub fn check_matrix(len: usize, rows: usize, cols: usize) -> (r: Result<(), ShapeError>)
    ensures
        r is Ok <==> len as int == rows as int * cols as int,
        r is Err ==> r == Err::<(), ShapeError>(ShapeError::DataLength { rows, cols, actual: len }),
{
    if is_product(len, rows, cols) {
        Ok(())
    } else {
        Err(ShapeError::DataLength { rows, cols, actual: len })
    }
}

fn check_inputs(
    data_len: usize,
    rows: usize,
    cols: usize,
    labels_len: usize,
    outputs: usize,
    weights_len: Option<usize>,
) -> (r: Result<(), ShapeError>)
    ensures
        r == result_of(training_shape_error(data_len, rows, cols, labels_len, outputs, weights_len)),
{
    if !is_product(data_len, rows, cols) {
        return Err(ShapeError::DataLength { rows, cols, actual: data_len });
    }
    if !is_product(labels_len, rows, outputs) {
        return Err(ShapeError::LabelLength { rows, outputs, actual: labels_len });
    }
    match weights_len {
        Some(w) => {
            if w != rows {
                return Err(ShapeError::WeightLength { rows, actual: w });
            }
        },
        None => {},
    }
    Ok(())
}

/// Checks the inputs of a single-output training call: a `rows` by `cols`
/// data buffer, one label per row, and, when given, one weight per row.
pub fn check_training_inputs(
    data_len: usize,
    rows: usize,
    cols: usize,
    labels_len: usize,
    weights_len: Option<usize>,
) -> (r: Result<(), ShapeError>)
    ensures
        r == result_of(training_shape_error(data_len, rows, cols, labels_len, 1, weights_len)),
{
    check_inputs(data_len, rows, cols, labels_len, 1, weights_len)
}

/// Checks the inputs of a multi-output training call: as for a single
/// output, but with a `rows` by `outputs` label matrix.
pub fn check_multi_output_inputs(
    data_len: usize,
    rows: usize,
    cols: usize,
    labels_len: usize,
    outputs: usize,
    weights_len: Option<usize>,
) -> (r: Result<(), ShapeError>)
    ensures
        r == result_of(training_shape_error(data_len, rows, cols, labels_len, outputs, weights_len)),
{
    check_inputs(data_len, rows, cols, labels_len, outputs, weights_len)
}

/// The first shape error of a calibration call, if any: the training inputs
/// are checked first, then the calibration data and labels, and last that
/// both sets have the same columns.
pub open spec fn calibration_shape_error(
    data_len: usize,
    rows: usize,
    cols: usize,
    labels_len: usize,
    weights_len: Option<usize>,
    cal_len: usize,
    rows_cal: usize,
    cols_cal: usize,
    cal_labels_len: usize,
) -> Option<ShapeError> {
    let train = training_shape_error(data_len, rows, cols, labels_len, 1, weights_len);
    let cal = training_shape_error(cal_len, rows_cal, cols_cal, cal_labels_len, 1, None);
    if train is Some {
        train
    } else if cal is Some {
        cal
    } else if cols_cal != cols {
        Some(ShapeError::ColumnMismatch { expected: cols, actual: cols_cal })
    } else {
        None
    }
}

/// Checks the inputs of a calibration call: the training set as for `fit`,
/// a calibration set with one label per row, and the same column count in
/// both sets.
pub fn check_calibration_inputs(
    data_len: usize,
    rows: usize,
    cols: usize,
    labels_len: usize,
    weights_len: Option<usize>,
    cal_len: usize,
    rows_cal: usize,
    cols_cal: usize,
    cal_labels_len: usize,
) -> (r: Result<(), ShapeError>)
    ensures
        r == result_of(
            calibration_shape_error(
                data_len,
                rows,
                cols,
                labels_len,
                weights_len,
                cal_len,
                rows_cal,
                cols_cal,
                cal_labels_len,
            ),
        ),
{
    match check_inputs(data_len, rows, cols, labels_len, 1, weights_len) {
        Err(e) => {
            return Err(e);
        },
        Ok(()) => {},
    }
    match check_inputs(cal_len, rows_cal, cols_cal, cal_labels_len, 1, None) {
        Err(e) => {
            return Err(e);
        },
        Ok(()) => {},
    }
    if cols_cal != cols {
        return Err(ShapeError::ColumnMismatch { expected: cols, actual: cols_cal });
    }
    Ok(())
}

/// Checks that data to predict on has the column count that the booster was
/// trained with.
pub fn check_columns(cols: usize, trained_cols: usize) -> (r: Result<(), ShapeError>)
    ensures
        r is Ok <==> cols == trained_cols,
        r is Err ==> r == Err::<(), ShapeError>(ShapeError::ColumnMismatch { expected: trained_cols, actual: cols }),
{
    if cols == trained_cols {
        Ok(())
    } else {
        Err(ShapeError::ColumnMismatch { expected: trained_cols, actual: cols })
    }
}

/// Checks that a feature index names a column of data with `cols` columns.
pub fn check_feature(feature: usize, cols: usize) -> (r: Result<(), ShapeError>)
    ensures
        r is Ok <==> feature < cols,
        r is Err ==> r == Err::<(), ShapeError>(ShapeError::FeatureOutOfRange { feature, cols }),
{
    if feature < cols {
        Ok(())
    } else {
        Err(ShapeError::FeatureOutOfRange { feature, cols })
    }
}

/// Every row has `width` entries.
pub open spec fn rows_have_width<T>(rows: Seq<Vec<T>>, width: int) -> bool {
    forall|i: int| 0 <= i < rows.len() ==> (#[trigger] rows[i])@.len() == width
}

proof fn lemma_row_major_index(i: int, j: int, n: int, w: int)
    requires
        0 <= i < n,
        0 <= j < w,
    ensures
        0 <= i * w + j < n * w,
        i * w + j < (i + 1) * w,
        i * w <= i * w + j,
{
    assert(i * w + j < n * w) by (nonlinear_arith)
        requires
            0 <= i < n,
            0 <= j < w,
    ;
    assert((i + 1) * w == i * w + w) by (nonlinear_arith);
    assert(0 <= i * w) by (nonlinear_arith)
        requires
            0 <= i,
            0 <= w,
    ;
}

/// Lays a table of rows out as one row-major buffer, with its row and
/// column counts; a table whose rows differ in length has no such layout.
pub fn flatten_rows<T: Copy>(rows: &Vec<Vec<T>>) -> (r: Option<(Vec<T>, usize, usize)>)
    ensures
        r is Some <==> (rows@.len() == 0 || rows_have_width(rows@, rows@[0]@.len() as int)),
        r matches Some((flat, n, w)) ==> {
            &&& n == rows@.len()
            &&& w as int == if n == 0 { 0 } else { rows@[0]@.len() as int }
            &&& flat@.len() == n as int * w as int
            &&& forall|i: int, j: int|
                0 <= i < n && 0 <= j < w ==> #[trigger] flat@[i * w + j] == rows@[i]@[j]
        },
{
    let n = rows.len();
    if n == 0 {
        return Some((Vec::new(), 0, 0));
    }
    let w = rows[0].len();
    let mut k: usize = 0;
    while k < n
        invariant
            k <= n,
            n == rows@.len(),
            w == rows@[0]@.len(),
            forall|i: int| 0 <= i < k ==> (#[trigger] rows@[i])@.len() == w,
        decreases n - k,
    {
        if rows[k].len() != w {
            return None;
        }
        k = k + 1;
    }
    let mut flat: Vec<T> = Vec::new();
    let mut i: usize = 0;
    while i < n
        invariant
            i <= n,
            n == rows@.len(),
            w == rows@[0]@.len(),
            rows_have_width(rows@, w as int),
            flat@.len() == i as int * w as int,
            forall|a: int, b: int| 0 <= a < i && 0 <= b < w ==> #[trigger] flat@[a * w + b] == rows@[a]@[b],
        decreases n - i,
    {
        let row = &rows[i];
        let mut j: usize = 0;
        while j < w
            invariant
                i < n,
                j <= w,
                n == rows@.len(),
                w == rows@[0]@.len(),
                row@ == rows@[i as int]@,
                row@.len() == w,
                flat@.len() == i as int * w as int + j,
                forall|a: int, b: int| 0 <= a < i && 0 <= b < w ==> #[trigger] flat@[a * w + b] == rows@[a]@[b],
                forall|b: int| 0 <= b < j ==> #[trigger] flat@[i * w + b] == rows@[i as int]@[b],
            decreases w - j,
        {
            let ghost before = flat@;
            flat.push(row[j]);
            proof {
                assert forall|a: int, b: int| 0 <= a < i && 0 <= b < w implies #[trigger] flat@[a * w + b] == rows@[a]@[b] by {
                    lemma_row_major_index(a, b, i as int, w as int);
                    assert(flat@[a * w + b] == before[a * w + b]);
                }
                assert forall|b: int| 0 <= b < j + 1 implies #[trigger] flat@[i * w + b] == rows@[i as int]@[b] by {
                    if b < j {
                        assert(flat@[i * w + b] == before[i * w + b]);
                    }
                }
            }
            j = j + 1;
        }
        proof {
            assert((i + 1) as int * w as int == i as int * w as int + w as int) by (nonlinear_arith);
            assert forall|a: int, b: int| 0 <= a < i + 1 && 0 <= b < w implies #[trigger] flat@[a * w + b] == rows@[a]@[b] by {
                if a == i {
                    assert(flat@[i * w + b] == rows@[i as int]@[b]);
                }
            }
        }
        i = i + 1;
    }
    Some((flat, n, w))
}

} // verus!
