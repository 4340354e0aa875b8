//! Minimal columnar data model the aggregate engine computes over:
//! declared column types, scalar results, schema fields, numeric column
//! batches with per-row validity, and the engine's error taxonomy.

use vstd::prelude::*;
use vstd::string::StringExecFns;

verus! {

/// Declared type of a column or argument.
#[derive(Clone, Copy, Debug, PartialEq, Eq, Structural)]
pub enum DataType {
    Int8,
    Int16,
    Int32,
    Int64,
    UInt8,
    UInt16,
    UInt32,
    UInt64,
    Float32,
    Float64,
    Boolean,
    Utf8,
    Date32,
}

impl DataType {
    /// The primitive numeric types: every one of them is converted to a
    /// 64-bit float before it reaches a covariance accumulator.
    pub open spec fn spec_is_numeric(self) -> bool {
        match self {
            DataType::Int8
            | DataType::Int16
            | DataType::Int32
            | DataType::Int64
            | DataType::UInt8
            | DataType::UInt16
            | DataType::UInt32
            | DataType::UInt64
            | DataType::Float32
            | DataType::Float64 => true,
            _ => false,
        }
    }

    /// The type's label as diagnostics spell it.
    pub open spec fn spec_label(self) -> Seq<char> {
        match self {
            DataType::Int8 => "Int8"@,
            DataType::Int16 => "Int16"@,
            DataType::Int32 => "Int32"@,
            DataType::Int64 => "Int64"@,
            DataType::UInt8 => "UInt8"@,
            DataType::UInt16 => "UInt16"@,
            DataType::UInt32 => "UInt32"@,
            DataType::UInt64 => "UInt64"@,
            DataType::Float32 => "Float32"@,
            DataType::Float64 => "Float64"@,
            DataType::Boolean => "Boolean"@,
            DataType::Utf8 => "Utf8"@,
            DataType::Date32 => "Date32"@,
        }
    }

    /// The type's label, for diagnostics.
    pub fn label(self) -> (r: &'static str)
        ensures
            r@ == self.spec_label(),
    {
        match self {
            DataType::Int8 => "Int8",
            DataType::Int16 => "Int16",
            DataType::Int32 => "Int32",
            DataType::Int64 => "Int64",
            DataType::UInt8 => "UInt8",
            DataType::UInt16 => "UInt16",
            DataType::UInt32 => "UInt32",
            DataType::UInt64 => "UInt64",
            DataType::Float32 => "Float32",
            DataType::Float64 => "Float64",
            DataType::Boolean => "Boolean",
            DataType::Utf8 => "Utf8",
            DataType::Date32 => "Date32",
        }
    }

    /// Whether values of this type can feed a covariance accumulator.
    pub fn is_numeric(self) -> (r: bool)
        ensures
            r == self.spec_is_numeric(),
    {
        match self {
            DataType::Int8
            | DataType::Int16
            | DataType::Int32
            | DataType::Int64
            | DataType::UInt8
            | DataType::UInt16
            | DataType::UInt32
            | DataType::UInt64
            | DataType::Float32
            | DataType::Float64 => true,
            _ => false,
        }
    }
}

/// A typed scalar produced by an aggregate, or handed to a constructor as
/// a parameter. A `Float64` scalar carries the bit pattern of its value.
#[derive(Clone, Copy, Debug, PartialEq, Eq, Structural)]
pub enum DataValue {
    UInt64(Option<u64>),
    Float64(Option<u64>),
}

/// A named, typed argument of an aggregate function.
#[derive(Clone, Debug)]
pub struct DataField {
    name: String,
    data_type: DataType,
}

impl DataField {
    pub closed spec fn spec_name(&self) -> Seq<char> {
        self.name@
    }

    pub closed spec fn spec_data_type(&self) -> DataType {
        self.data_type
    }

    pub fn new(name: String, data_type: DataType) -> (r: Self)
        ensures
            r.spec_name() == name@,
            r.spec_data_type() == data_type,
    {
        DataField { name, data_type }
    }

    pub fn data_type(&self) -> (r: DataType)
        ensures
            r == self.spec_data_type(),
    {
        self.data_type
    }

    pub fn name(&self) -> (r: &String)
        ensures
            r@ == self.spec_name(),
    {
        &self.name
    }
}

/// The schema an aggregate's nullability is asked about.
pub struct DataSchema {
    pub fields: Vec<DataField>,
}

/// One numeric input column of a batch, already converted to 64-bit float
/// bit patterns: `values[i]` is the bit pattern of row `i`, and
/// `valid[i]` says whether row `i` is present (false means null).
pub struct Series {
    pub values: Vec<u64>,
    pub valid: Vec<bool>,
}

/// How many of the first `n` rows are null.
pub open spec fn spec_null_count(valid: Seq<bool>, n: int) -> int
    decreases n,
{
    if n <= 0 {
        0
    } else {
        spec_null_count(valid, n - 1) + if valid[n - 1] {
            0int
        } else {
            1int
        }
    }
}

/// A column is well formed when each row has a validity flag.
pub open spec fn series_wf(s: Series) -> bool {
    s.values@.len() == s.valid@.len()
}

impl Series {
    /// A column whose every row is present.
    pub fn from_values(values: Vec<u64>) -> (r: Series)
        ensures
            series_wf(r),
            r.values@ == values@,
            forall|i: int| 0 <= i < r.valid@.len() ==> r.valid@[i],
    {
        let n = values.len();
        let mut valid: Vec<bool> = Vec::new();
        let mut i: usize = 0;
        while i < n
            invariant
                i <= n,
                valid@.len() == i,
                forall|j: int| 0 <= j < i ==> valid@[j],
            decreases n - i,
        {
            valid.push(true);
            i = i + 1;
        }
        Series { values, valid }
    }

    /// A column built from rows, a null row carried as `None`; the bit
    /// pattern stored for a null row is zero and is never read.
    pub fn from_options(rows: Vec<Option<u64>>) -> (r: Series)
        ensures
            series_wf(r),
            r.values@.len() == rows@.len(),
            forall|i: int|
                0 <= i < rows@.len() ==> r.valid@[i] == rows@[i] is Some,
            forall|i: int|
                0 <= i < rows@.len() && rows@[i] is Some ==> r.values@[i] == rows@[i]->0,
    {
        let n = rows.len();
        let mut values: Vec<u64> = Vec::new();
        let mut valid: Vec<bool> = Vec::new();
        let mut i: usize = 0;
        while i < n
            invariant
                i <= n,
                n == rows@.len(),
                values@.len() == i,
                valid@.len() == i,
                forall|j: int| 0 <= j < i ==> valid@[j] == rows@[j] is Some,
                forall|j: int| 0 <= j < i && rows@[j] is Some ==> values@[j] == rows@[j]->0,
            decreases n - i,
        {
            match rows[i] {
                Some(v) => {
                    values.push(v);
                    valid.push(true);
                },
                None => {
                    values.push(0);
                    valid.push(false);
                },
            }
            i = i + 1;
        }
        Series { values, valid }
    }

    /// Number of rows in the column.
    pub fn len(&self) -> (r: usize)
        ensures
            r == self.values@.len(),
    {
        self.values.len()
    }

    /// Number of null rows in the column.
    pub fn null_count(&self) -> (r: usize)
        requires
            series_wf(*self),
        ensures
            r == spec_null_count(self.valid@, self.valid@.len() as int),
    {
        let n = self.valid.len();
        let mut count: usize = 0;
        let mut i: usize = 0;
        while i < n
            invariant
                i <= n,
                n == self.valid@.len(),
                count == spec_null_count(self.valid@, i as int),
                count <= i,
            decreases n - i,
        {
            if !self.valid[i] {
                count = count + 1;
            }
            i = i + 1;
        }
        count
    }
}

/// When every one of the first `n` rows is null, the null count is `n`,
/// and conversely.
pub proof fn lemma_null_count_all(valid: Seq<bool>, n: int)
    requires
        0 <= n <= valid.len(),
    ensures
        spec_null_count(valid, n) == n <==> (forall|i: int| 0 <= i < n ==> !valid[i]),
        0 <= spec_null_count(valid, n) <= n,
    decreases n,
{
    if n > 0 {
        lemma_null_count_all(valid, n - 1);
    }
}

/// When no one of the first `n` rows is null, the null count is zero,
/// and conversely.
pub proof fn lemma_null_count_none(valid: Seq<bool>, n: int)
    requires
        0 <= n <= valid.len(),
    ensures
        spec_null_count(valid, n) == 0 <==> (forall|i: int| 0 <= i < n ==> valid[i]),
    decreases n,
{
    if n > 0 {
        lemma_null_count_none(valid, n - 1);
        lemma_null_count_all(valid, n - 1);
        lemma_null_count_all(valid, n);
    }
}

/// The engine's recoverable failures: a construction handed the wrong
/// number of arguments, a construction handed an unsupported pair of
/// argument types, and a serialized state too short to decode.
#[derive(Clone, Copy, Debug, PartialEq, Eq, Structural)]
pub enum ErrorCode {
    NumberArgumentsNotMatch { expected: usize, actual: usize },
    BadDataValueType { left: DataType, right: DataType },
    DecodingError { needed: usize, actual: usize },
}

impl ErrorCode {
    /// The failure's human-readable description; the exact counts and
    /// types sit in the variant's fields.
    pub open spec fn spec_message(self) -> Seq<char> {
        match self {
            ErrorCode::NumberArgumentsNotMatch { .. } => {
                "AggregateCovarianceFunction expects exactly two arguments"@
            },
            ErrorCode::BadDataValueType { left, right } => {
                "AggregateCovarianceFunction does not support type '"@ + left.spec_label()
                    + "' or '"@ + right.spec_label() + "'"@
            },
            ErrorCode::DecodingError { .. } => {
                "Cannot deserialize the aggregation state: the buffer is too short"@
            },
        }
    }

    /// A descriptive message for the failure.
    pub fn message(self) -> (r: String)
        ensures
            r@ == self.spec_message(),
    {
        match self {
            ErrorCode::NumberArgumentsNotMatch { .. } => {
                "AggregateCovarianceFunction expects exactly two arguments".to_owned()
            },
            ErrorCode::BadDataValueType { left, right } => {
                let mut msg = "AggregateCovarianceFunction does not support type '".to_owned();
                msg.append(left.label());
                msg.append("' or '");
                msg.append(right.label());
                msg.append("'");
                msg
            },
            ErrorCode::DecodingError { .. } => {
                "Cannot deserialize the aggregation state: the buffer is too short".to_owned()
            },
        }
    }
}

} // verus!
