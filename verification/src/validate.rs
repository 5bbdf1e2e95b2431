//! Row validation: comparing the regenerated expected row against the row a
//! read brought back, column by column, and reporting exactly what differed
//! together with the partition key involved.
use vstd::prelude::*;

use crate::value::Value;
use crate::value::row_model;
use crate::value::value_eq;

verus! {

/// Why a read's row failed validation. Every variant carries the partition
/// key of the expected row, so failures can be correlated to the generated
/// row without re-deriving it.
#[derive(Clone, Debug, PartialEq, Eq)]
pub enum ValidationError {
    /// The read returned no row at all.
    MissingRow { partition_key: Value },
    /// The returned row has a different number of columns.
    ColumnCountMismatch { partition_key: Value, expected: usize, actual: usize },
    /// A column differs; `column_index` is the first position that does.
    ColumnMismatch { partition_key: Value, column_index: usize },
}

/// Validates the row a read returned against the regenerated expected row.
/// Succeeds exactly when a row came back with the same columns in the same
/// order; otherwise reports the missing row, the column-count difference, or
/// the first mismatching column, always with the expected partition key.
pub fn validate_row(expected: &Vec<Value>, actual: &Option<Vec<Value>>) -> (r: Result<
    (),
    ValidationError,
>)
    requires
        expected@.len() >= 1,
    ensures
        r is Ok <==> (actual matches Some(a) && row_model(a@) == row_model(expected@)),
        r matches Err(ValidationError::MissingRow { partition_key }) ==> actual is None
            && partition_key@ == expected@[0]@,
        actual is None ==> r matches Err(ValidationError::MissingRow { .. }),
        r matches Err(ValidationError::ColumnCountMismatch { partition_key, expected: e, actual: a })
            ==> (actual matches Some(row) && row@.len() != expected@.len() && e == expected@.len()
            && a == row@.len() && partition_key@ == expected@[0]@),
        r matches Err(ValidationError::ColumnMismatch { partition_key, column_index })
            ==> (actual matches Some(row) && row@.len() == expected@.len() && partition_key@
            == expected@[0]@ && column_index < expected@.len()
            && expected@[column_index as int]@ != row@[column_index as int]@ && forall|j: int|
            0 <= j < column_index ==> expected@[j]@ == row@[j]@),
{
    let row = match actual {
        None => {
            return Err(ValidationError::MissingRow { partition_key: expected[0].duplicate() });
        },
        Some(row) => row,
    };
    if row.len() != expected.len() {
        proof {
            assert(row_model(row@).len() != row_model(expected@).len());
        }
        return Err(
            ValidationError::ColumnCountMismatch {
                partition_key: expected[0].duplicate(),
                expected: expected.len(),
                actual: row.len(),
            },
        );
    }
    let mut i: usize = 0;
    while i < expected.len()
        invariant
            expected@.len() >= 1,
            row@.len() == expected@.len(),
            0 <= i <= expected@.len(),
            forall|j: int| 0 <= j < i ==> expected@[j]@ == row@[j]@,
            actual matches Some(a) && a == *row,
        decreases expected@.len() - i,
    {
        if !value_eq(&expected[i], &row[i]) {
            proof {
                assert(row_model(row@)[i as int] != row_model(expected@)[i as int]);
            }
            return Err(
                ValidationError::ColumnMismatch {
                    partition_key: expected[0].duplicate(),
                    column_index: i,
                },
            );
        }
        i += 1;
    }
    proof {
        assert(row_model(row@) =~= row_model(expected@));
    }
    Ok(())
}

} // verus!
