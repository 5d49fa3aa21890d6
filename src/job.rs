//! Jobs: ordered waypoints read from a table, and the lookup of the table's
//! coordinate columns by header.
use vstd::prelude::*;
use vstd::string::*;

use crate::decimal::{nat_text, push_nat};
use crate::text::{is_space, owned, str_eq};

verus! {

/// One waypoint of a job, in thousandths of a millimetre.
#[derive(Clone, Copy, Debug, PartialEq, Eq, Structural)]
pub struct Step {
    pub x_um: i64,
    pub y_um: i64,
    pub z_um: i64,
}

/// An ordered list of waypoints, never changed once built.
#[derive(Clone, Debug)]
pub struct Job {
    pub filename: String,
    pub steps: Vec<Step>,
    /// Number of waypoints.
    pub row_count: usize,
    /// The first waypoint, for previews.
    pub first_step: Option<Step>,
    /// Notes collected while the job was read.
    pub warnings: Vec<String>,
}

pub open spec fn first_of(steps: Seq<Step>) -> Option<Step> {
    if steps.len() > 0 {
        Some(steps[0])
    } else {
        None
    }
}

impl Job {
    /// A job with no warnings.
    pub fn new(filename: String, steps: Vec<Step>) -> (r: Job)
        ensures
            r.filename@ == filename@,
            r.steps@ == steps@,
            r.row_count == steps@.len(),
            r.first_step == first_of(steps@),
            r.warnings@.len() == 0,
    {
        Job::with_warnings(filename, steps, Vec::new())
    }

    /// A job that carries the warnings collected while it was read.
    pub fn with_warnings(filename: String, steps: Vec<Step>, warnings: Vec<String>) -> (r: Job)
        ensures
            r.filename@ == filename@,
            r.steps@ == steps@,
            r.row_count == steps@.len(),
            r.first_step == first_of(steps@),
            r.warnings@ == warnings@,
    {
        let row_count = steps.len();
        let first_step = if steps.len() > 0 {
            Some(steps[0])
        } else {
            None
        };
        Job { filename, steps, row_count, first_step, warnings }
    }
}

/// Why a job could not be read.
#[derive(Clone, Debug, PartialEq, Eq)]
pub enum JobParseError {
    /// The file could not be read.
    Io(String),
    /// The file is not well-formed comma-separated text.
    Csv(String),
    /// The file has no header row.
    MissingHeader(String),
    /// A required column is missing from the header.
    MissingColumn(String),
    /// A cell is not a number (rows count from 1, header excluded).
    BadNumber { column: String, row: usize, value: String },
    /// The job has more rows than allowed.
    TooManyRows { max: usize, actual: usize },
    /// The job has no data rows.
    EmptyJob,
}

/// The description of a job error.
pub open spec fn error_text(e: JobParseError) -> Seq<char> {
    match e {
        JobParseError::Io(m) => "I/O error: "@ + m@,
        JobParseError::Csv(m) => "CSV error: "@ + m@,
        JobParseError::MissingHeader(m) => "Missing header: "@ + m@,
        JobParseError::MissingColumn(c) => "Missing required column: "@ + c@,
        JobParseError::BadNumber { column, row, value } => "Failed to parse '"@ + value@
            + "' as number in column '"@ + column@ + "' at row "@ + nat_text(row as nat),
        JobParseError::TooManyRows { max, actual } => "Too many rows: "@ + nat_text(actual as nat)
            + " (max: "@ + nat_text(max as nat) + ")"@,
        JobParseError::EmptyJob => "Job file contains no data rows"@,
    }
}

impl JobParseError {
    /// A readable description of the error.
    pub fn message(&self) -> (r: String)
        ensures
            r@ == error_text(*self),
    {
        let mut t: String;
        match self {
            JobParseError::Io(m) => {
                t = owned("I/O error: ");
                t.append(m.as_str());
            },
            JobParseError::Csv(m) => {
                t = owned("CSV error: ");
                t.append(m.as_str());
            },
            JobParseError::MissingHeader(m) => {
                t = owned("Missing header: ");
                t.append(m.as_str());
            },
            JobParseError::MissingColumn(c) => {
                t = owned("Missing required column: ");
                t.append(c.as_str());
            },
            JobParseError::BadNumber { column, row, value } => {
                t = owned("Failed to parse '");
                t.append(value.as_str());
                t.append("' as number in column '");
                t.append(column.as_str());
                t.append("' at row ");
                push_nat(&mut t, *row as u64);
            },
            JobParseError::TooManyRows { max, actual } => {
                t = owned("Too many rows: ");
                push_nat(&mut t, *actual as u64);
                t.append(" (max: ");
                push_nat(&mut t, *max as u64);
                t.append(")");
            },
            JobParseError::EmptyJob => {
                t = owned("Job file contains no data rows");
            },
        }
        t
    }
}

/// How many whitespace characters open `s`.
pub open spec fn lead_spaces(s: Seq<char>) -> nat
    decreases s.len(),
{
    if s.len() > 0 && is_space(s[0]) {
        1 + lead_spaces(s.skip(1))
    } else {
        0
    }
}

/// How many whitespace characters close `s`.
pub open spec fn trail_spaces(s: Seq<char>) -> nat
    decreases s.len(),
{
    if s.len() > 0 && is_space(s.last()) {
        1 + trail_spaces(s.drop_last())
    } else {
        0
    }
}

/// `s` without its leading and trailing whitespace.
pub open spec fn trimmed(s: Seq<char>) -> Seq<char> {
    let a = lead_spaces(s) as int;
    if a == s.len() {
        seq![]
    } else {
        s.subrange(a, s.len() - trail_spaces(s) as int)
    }
}

/// Headers are compared in lower case.
pub uninterp spec fn lower_of(s: Seq<char>) -> Seq<char>;

/// Relies on `str::to_lowercase`: the lower-case form of a text depends on its
/// characters alone.
#[verifier::external_body]
fn lowercase(s: &str) -> (r: String)
    ensures
        r@ == lower_of(s@),
{
    s.to_lowercase()
}

/// Relies on `str::trim`: it removes leading and trailing whitespace, whitespace
/// being what `char::is_whitespace` accepts.
#[verifier::external_body]
fn trim_text(s: &str) -> (r: &str)
    ensures
        r@ == trimmed(s@),
{
    s.trim()
}

/// The characters of each text.
pub open spec fn texts_of(v: Seq<String>) -> Seq<Seq<char>> {
    v.map_values(|n: String| n@)
}

/// Whether a header, trimmed and in lower case, equals one of `names` in lower case.
pub open spec fn header_matches(header: Seq<char>, names: Seq<Seq<char>>) -> bool {
    exists|k: int| 0 <= k < names.len() && lower_of(trimmed(header)) == lower_of(#[trigger] names[k])
}

/// Index of the first header that names one of `names`, ignoring case and
/// surrounding whitespace.
pub fn find_column_index(headers: &Vec<String>, names: &Vec<String>) -> (r: Option<usize>)
    ensures
        r matches Some(i) ==> i < headers.len() && header_matches(
            headers@[i as int]@,
            texts_of(names@),
        ) && forall|j: int| 0 <= j < i ==> !header_matches(
            #[trigger] headers@[j]@,
            texts_of(names@),
        ),
        r is None ==> forall|j: int| 0 <= j < headers.len() ==> !header_matches(
            #[trigger] headers@[j]@,
            texts_of(names@),
        ),
{
    let ghost ns = texts_of(names@);
    let mut i: usize = 0;
    while i < headers.len()
        invariant
            i <= headers.len(),
            ns == texts_of(names@),
            forall|j: int| 0 <= j < i ==> !header_matches(#[trigger] headers@[j]@, ns),
        decreases headers.len() - i,
    {
        let h = lowercase(trim_text(headers[i].as_str()));
        let mut k: usize = 0;
        while k < names.len()
            invariant
                i < headers.len(),
                k <= names.len(),
                ns == texts_of(names@),
                h@ == lower_of(trimmed(headers@[i as int]@)),
                forall|j: int| 0 <= j < i ==> !header_matches(#[trigger] headers@[j]@, ns),
                forall|m: int| 0 <= m < k ==> lower_of(trimmed(headers@[i as int]@)) != lower_of(
                    #[trigger] ns[m],
                ),
            decreases names.len() - k,
        {
            let n = lowercase(names[k].as_str());
            if str_eq(h.as_str(), n.as_str()) {
                assert(lower_of(trimmed(headers@[i as int]@)) == lower_of(ns[k as int]));
                assert(header_matches(headers@[i as int]@, ns));
                return Some(i);
            }
            k = k + 1;
        }
        i = i + 1;
    }
    None
}

} // verus!
