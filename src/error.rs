//! Diagnostics: parse errors from the collaborators that read a feed, schema
//! errors on one record, and dataset errors across records.
//!
//! For contracts, a schema error is seen as its fault: a kind and the name of
//! the field it concerns; a dataset error likewise.
use vstd::prelude::*;
use vstd::string::*;

use crate::schemas::Schema;

verus! {

/// The kind of a schema error, as contracts see it.
#[derive(Clone, Copy, Debug, PartialEq, Eq, Structural)]
pub enum SchemaFault {
    Missing,
    Forbidden,
    Invalid,
}

/// The kind of a dataset error, as contracts see it.
#[derive(Clone, Copy, Debug, PartialEq, Eq, Structural)]
pub enum DatasetFault {
    PrimaryKeyNotUnique,
    ForeignKeyNotFound,
    InconsistentValue,
    InvalidCombination,
    MissingValue,
    OverlappingIntervals,
}

/// One frame of context that a caller adds to a parse error.
#[derive(Clone, Debug)]
pub struct ErrorContext(pub String);

/// What went wrong while reading a feed.
#[derive(Clone, Debug)]
pub enum ParseErrorKind {
    /// A pattern could not be compiled.
    Regex(String),
    /// A date or time could not be read.
    Chrono(String),
    /// An integer could not be read.
    ParseInt(String),
    /// A value lies outside its domain.
    InvalidValue(String),
    /// The delimited text could not be read.
    Csv(String),
    /// A file could not be read.
    Io(String),
}

/// An error of a collaborator that reads a feed, with the context frames
/// that callers added, innermost first.
#[derive(Clone, Debug)]
pub struct ParseError {
    pub kind: ParseErrorKind,
    pub context: Vec<ErrorContext>,
}

impl ParseError {
    /// A parse error without context.
    pub fn from_kind(kind: ParseErrorKind) -> (r: ParseError)
        ensures
            r.kind == kind,
            r.context@.len() == 0,
    {
        ParseError { kind, context: Vec::new() }
    }

    /// The same error with one more frame of context.
    pub fn with_context(self, context: ErrorContext) -> (r: ParseError)
        ensures
            r.kind == self.kind,
            r.context@ == self.context@.push(context),
    {
        let mut r = self;
        r.context.push(context);
        r
    }
}

/// What is wrong with one record.
#[derive(Clone, Debug)]
pub enum SchemaValidationErrorKind {
    MissingValue { field_name: String, reason: Option<String> },
    ForbiddenValue { field_name: String, reason: Option<String> },
    InvalidValue { field_name: String, reason: Option<String> },
}

impl SchemaValidationErrorKind {
    /// The kind and the field.
    pub open spec fn fault(&self) -> (SchemaFault, Seq<char>) {
        match self {
            SchemaValidationErrorKind::MissingValue { field_name, .. } => (
                SchemaFault::Missing,
                field_name@,
            ),
            SchemaValidationErrorKind::ForbiddenValue { field_name, .. } => (
                SchemaFault::Forbidden,
                field_name@,
            ),
            SchemaValidationErrorKind::InvalidValue { field_name, .. } => (
                SchemaFault::Invalid,
                field_name@,
            ),
        }
    }
}

/// What is wrong across records of the dataset.
#[derive(Clone, Debug)]
pub enum DatasetValidationErrorKind {
    PrimaryKeyNotUnique { field_name: String, value: String },
    ForeignKeyNotFound { field_name: String, value: String, reference_file_name: String },
    InconsistentValue { field_name: String, value: String, reason: Option<String> },
    InvalidCombination { fields: Vec<String>, reason: Option<String> },
    MissingValue { field_name: String, reason: Option<String> },
    OverlappingIntervals { details: String },
}

impl DatasetValidationErrorKind {
    /// The kind and the field (the first of several fields; none for
    /// overlapping intervals).
    pub open spec fn fault(&self) -> (DatasetFault, Seq<char>) {
        match self {
            DatasetValidationErrorKind::PrimaryKeyNotUnique { field_name, .. } => (
                DatasetFault::PrimaryKeyNotUnique,
                field_name@,
            ),
            DatasetValidationErrorKind::ForeignKeyNotFound { field_name, .. } => (
                DatasetFault::ForeignKeyNotFound,
                field_name@,
            ),
            DatasetValidationErrorKind::InconsistentValue { field_name, .. } => (
                DatasetFault::InconsistentValue,
                field_name@,
            ),
            DatasetValidationErrorKind::InvalidCombination { fields, .. } => (
                DatasetFault::InvalidCombination,
                if fields@.len() > 0 {
                    fields@[0]@
                } else {
                    Seq::empty()
                },
            ),
            DatasetValidationErrorKind::MissingValue { field_name, .. } => (
                DatasetFault::MissingValue,
                field_name@,
            ),
            DatasetValidationErrorKind::OverlappingIntervals { .. } => (
                DatasetFault::OverlappingIntervals,
                Seq::empty(),
            ),
        }
    }
}

/// A record that breaks a rule of its own table.
#[derive(Clone, Debug)]
pub struct SchemaValidationError {
    pub kind: SchemaValidationErrorKind,
    pub schema_instance: Schema,
}

impl SchemaValidationError {
    pub fn new(kind: SchemaValidationErrorKind, schema_instance: Schema) -> (r: Self)
        ensures
            r.kind == kind,
            r.schema_instance == schema_instance,
    {
        SchemaValidationError { kind, schema_instance }
    }

    pub fn new_missing_value(field_name: String, reason: Option<String>, schema_instance: Schema) -> (r: Self)
        ensures
            r.kind == (SchemaValidationErrorKind::MissingValue { field_name, reason }),
            r.schema_instance == schema_instance,
    {
        Self::new(SchemaValidationErrorKind::MissingValue { field_name, reason }, schema_instance)
    }

    pub fn new_forbidden_value(
        field_name: String,
        reason: Option<String>,
        schema_instance: Schema,
    ) -> (r: Self)
        ensures
            r.kind == (SchemaValidationErrorKind::ForbiddenValue { field_name, reason }),
            r.schema_instance == schema_instance,
    {
        Self::new(SchemaValidationErrorKind::ForbiddenValue { field_name, reason }, schema_instance)
    }

    pub fn new_invalid_value(field_name: String, reason: Option<String>, schema_instance: Schema) -> (r: Self)
        ensures
            r.kind == (SchemaValidationErrorKind::InvalidValue { field_name, reason }),
            r.schema_instance == schema_instance,
    {
        Self::new(SchemaValidationErrorKind::InvalidValue { field_name, reason }, schema_instance)
    }
}

/// Records that together break a rule of the dataset.
#[derive(Clone, Debug)]
pub struct DatasetValidationError {
    pub kind: DatasetValidationErrorKind,
    pub schema_instances: Vec<Schema>,
}

impl DatasetValidationError {
    pub fn new(kind: DatasetValidationErrorKind, schema_instances: Vec<Schema>) -> (r: Self)
        ensures
            r.kind == kind,
            r.schema_instances == schema_instances,
    {
        DatasetValidationError { kind, schema_instances }
    }

    pub fn new_primary_key_not_unique(
        field_name: String,
        value: String,
        schema_instances: Vec<Schema>,
    ) -> (r: Self)
        ensures
            r.kind == (DatasetValidationErrorKind::PrimaryKeyNotUnique { field_name, value }),
            r.schema_instances == schema_instances,
    {
        Self::new(DatasetValidationErrorKind::PrimaryKeyNotUnique { field_name, value }, schema_instances)
    }

    pub fn new_foreign_key_not_found(
        field_name: String,
        value: String,
        reference_file_name: String,
        schema_instances: Vec<Schema>,
    ) -> (r: Self)
        ensures
            r.kind == (DatasetValidationErrorKind::ForeignKeyNotFound {
                field_name,
                value,
                reference_file_name,
            }),
            r.schema_instances == schema_instances,
    {
        Self::new(
            DatasetValidationErrorKind::ForeignKeyNotFound { field_name, value, reference_file_name },
            schema_instances,
        )
    }

    pub fn new_inconsistent_value(
        field_name: String,
        value: String,
        reason: Option<String>,
        schema_instances: Vec<Schema>,
    ) -> (r: Self)
        ensures
            r.kind == (DatasetValidationErrorKind::InconsistentValue { field_name, value, reason }),
            r.schema_instances == schema_instances,
    {
        Self::new(
            DatasetValidationErrorKind::InconsistentValue { field_name, value, reason },
            schema_instances,
        )
    }

    pub fn new_invalid_combination(
        fields: Vec<String>,
        reason: Option<String>,
        schema_instances: Vec<Schema>,
    ) -> (r: Self)
        ensures
            r.kind == (DatasetValidationErrorKind::InvalidCombination { fields, reason }),
            r.schema_instances == schema_instances,
    {
        Self::new(DatasetValidationErrorKind::InvalidCombination { fields, reason }, schema_instances)
    }

    pub fn new_missing_value(field_name: String, reason: Option<String>, schema_instances: Vec<Schema>) -> (r: Self)
        ensures
            r.kind == (DatasetValidationErrorKind::MissingValue { field_name, reason }),
            r.schema_instances == schema_instances,
    {
        Self::new(DatasetValidationErrorKind::MissingValue { field_name, reason }, schema_instances)
    }

    pub fn new_overlapping_intervals(details: String, schema_instances: Vec<Schema>) -> (r: Self)
        ensures
            r.kind == (DatasetValidationErrorKind::OverlappingIntervals { details }),
            r.schema_instances == schema_instances,
    {
        Self::new(DatasetValidationErrorKind::OverlappingIntervals { details }, schema_instances)
    }
}

/// Any diagnostic of the library.
#[derive(Clone, Debug)]
pub enum Error {
    ParseError(ParseError),
    SchemaValidationError(SchemaValidationError),
    DatasetValidationError(DatasetValidationError),
}

impl Error {
    /// The fault of a schema error.
    pub open spec fn schema_fault(&self) -> Option<(SchemaFault, Seq<char>)> {
        match self {
            Error::SchemaValidationError(e) => Some(e.kind.fault()),
            _ => None,
        }
    }

    /// The record that a schema error carries.
    pub open spec fn schema_record(&self) -> Option<Schema> {
        match self {
            Error::SchemaValidationError(e) => Some(e.schema_instance),
            _ => None,
        }
    }

    /// The value and the records that a dataset error carries: the offending
    /// value for key and consistency errors, the details for overlapping
    /// intervals, and nothing for missing values and combinations.
    pub open spec fn dataset_payload(&self) -> Option<(Seq<char>, Seq<Schema>)> {
        match self {
            Error::DatasetValidationError(e) => Some(
                (
                    match e.kind {
                        DatasetValidationErrorKind::PrimaryKeyNotUnique { value, .. } => value@,
                        DatasetValidationErrorKind::ForeignKeyNotFound { value, .. } => value@,
                        DatasetValidationErrorKind::InconsistentValue { value, .. } => value@,
                        DatasetValidationErrorKind::OverlappingIntervals { details } => details@,
                        _ => Seq::empty(),
                    },
                    e.schema_instances@,
                ),
            ),
            _ => None,
        }
    }

    /// The fault of a dataset error.
    pub open spec fn dataset_fault(&self) -> Option<(DatasetFault, Seq<char>)> {
        match self {
            Error::DatasetValidationError(e) => Some(e.kind.fault()),
            _ => None,
        }
    }
}

/// `r` succeeds when there is no fault, and otherwise is a schema error with
/// exactly that fault.
pub open spec fn reports_schema_fault(
    r: Result<(), Error>,
    fault: Option<(SchemaFault, Seq<char>)>,
) -> bool {
    match r {
        Ok(_) => fault is None,
        Err(e) => fault is Some && e.schema_fault() == fault,
    }
}

/// When `r` is an error, it is a schema error that carries the record `rec`.
pub open spec fn carries_record(r: Result<(), Error>, rec: Schema) -> bool {
    match r {
        Ok(_) => true,
        Err(e) => e.schema_record() == Some(rec),
    }
}

/// `r` succeeds when there is no fault, and otherwise is a dataset error with
/// exactly that fault.
pub open spec fn reports_dataset_fault(
    r: Result<(), Error>,
    fault: Option<(DatasetFault, Seq<char>)>,
) -> bool {
    match r {
        Ok(_) => fault is None,
        Err(e) => fault is Some && e.dataset_fault() == fault,
    }
}

/// `r` succeeds exactly when the rule holds, and otherwise is a dataset
/// error.
pub open spec fn dataset_outcome(r: Result<(), Error>, holds: bool) -> bool {
    match r {
        Ok(_) => holds,
        Err(e) => !holds && e.dataset_fault() is Some,
    }
}

/// When `r` is an error, it is a dataset error with the fault `f`.
pub open spec fn fails_with(r: Result<(), Error>, f: (DatasetFault, Seq<char>)) -> bool {
    match r {
        Ok(_) => true,
        Err(e) => e.dataset_fault() == Some(f),
    }
}

/// When `r` is an error, it carries the value and records of `payload`.
pub open spec fn carries_payload(r: Result<(), Error>, payload: Option<(Seq<char>, Seq<Schema>)>) -> bool {
    match r {
        Ok(_) => true,
        Err(e) => e.dataset_payload() == payload,
    }
}

/// The single record `rec`, as a vector.
pub fn one(rec: Schema) -> (r: Vec<Schema>)
    ensures
        r@ == seq![rec],
{
    let mut v: Vec<Schema> = Vec::new();
    v.push(rec);
    proof {
        assert(v@ =~= seq![rec]);
    }
    v
}

/// The two records `a` and `b`, as a vector.
pub fn two(a: Schema, b: Schema) -> (r: Vec<Schema>)
    ensures
        r@ == seq![a, b],
{
    let mut v: Vec<Schema> = Vec::new();
    v.push(a);
    v.push(b);
    proof {
        assert(v@ =~= seq![a, b]);
    }
    v
}

/// A schema error with the given fault, reason and record.
pub fn schema_error(fault: SchemaFault, field: &str, reason: &str, instance: Schema) -> (e: Error)
    ensures
        e.schema_fault() == Some((fault, field@)),
        e.schema_record() == Some(instance),
{
    let field_name = String::from_str(field);
    let reason = Some(String::from_str(reason));
    let err = match fault {
        SchemaFault::Missing => SchemaValidationError::new_missing_value(field_name, reason, instance),
        SchemaFault::Forbidden => SchemaValidationError::new_forbidden_value(
            field_name,
            reason,
            instance,
        ),
        SchemaFault::Invalid => SchemaValidationError::new_invalid_value(field_name, reason, instance),
    };
    Error::SchemaValidationError(err)
}

/// A dataset error with the given fault on the given field. `value` is the
/// offending value; `detail` is the reason, or the referenced file for a
/// foreign key.
pub fn dataset_error(
    fault: DatasetFault,
    field: &str,
    value: String,
    detail: &str,
    instances: Vec<Schema>,
) -> (e: Error)
    ensures
        e.dataset_fault() == Some(
            (
                fault,
                if fault == DatasetFault::OverlappingIntervals {
                    Seq::empty()
                } else {
                    field@
                },
            ),
        ),
        e.dataset_payload() == Some(
            (
                if fault == DatasetFault::OverlappingIntervals {
                    detail@
                } else if fault == DatasetFault::MissingValue || fault == DatasetFault::InvalidCombination {
                    Seq::empty()
                } else {
                    value@
                },
                instances@,
            ),
        ),
{
    let field_name = String::from_str(field);
    let detail = String::from_str(detail);
    let err = match fault {
        DatasetFault::PrimaryKeyNotUnique => DatasetValidationError::new_primary_key_not_unique(
            field_name,
            value,
            instances,
        ),
        DatasetFault::ForeignKeyNotFound => DatasetValidationError::new_foreign_key_not_found(
            field_name,
            value,
            detail,
            instances,
        ),
        DatasetFault::InconsistentValue => DatasetValidationError::new_inconsistent_value(
            field_name,
            value,
            Some(detail),
            instances,
        ),
        DatasetFault::InvalidCombination => {
            let mut fields: Vec<String> = Vec::new();
            fields.push(field_name);
            DatasetValidationError::new_invalid_combination(fields, Some(detail), instances)
        },
        DatasetFault::MissingValue => DatasetValidationError::new_missing_value(
            field_name,
            Some(detail),
            instances,
        ),
        DatasetFault::OverlappingIntervals => DatasetValidationError::new_overlapping_intervals(
            detail,
            instances,
        ),
    };
    Error::DatasetValidationError(err)
}

} // verus!
