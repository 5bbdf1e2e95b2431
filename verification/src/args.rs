//! The workload-description enums an operator selects on the command line,
//! and the parsers mapping their textual spellings to values. Flag splitting
//! and help output stay at the program's edge; the mappings themselves are
//! the rules pinned here.
use vstd::prelude::*;

verus! {

/// Relies on `str`'s `PartialEq`: two string slices are equal exactly when
/// their character contents are equal.
#[verifier::external_body]
fn str_eq(a: &str, b: &str) -> (r: bool)
    ensures
        r == (a@ == b@),
{
    a == b
}

/// Why a workload-description word was rejected.
#[derive(Clone, Copy, PartialEq, Eq, Structural, Debug)]
pub enum ParseError {
    /// The word was empty where a value is required.
    MissingValue,
    /// The word is not one of the known spellings.
    UnknownValue,
}

/// The operating mode of a run.
#[derive(Clone, Debug, PartialEq, Eq, Structural)]
pub enum Mode {
    Write,
    Read,
    CounterUpdate,
    CounterRead,
    Scan,
}

/// The mode each spelling selects: empty input is missing, any other
/// unlisted word is unknown.
pub open spec fn spec_parse_mode(s: Seq<char>) -> Result<Mode, ParseError> {
    if s == "write"@ {
        Ok(Mode::Write)
    } else if s == "read"@ {
        Ok(Mode::Read)
    } else if s == "counter_update"@ {
        Ok(Mode::CounterUpdate)
    } else if s == "counter_read"@ {
        Ok(Mode::CounterRead)
    } else if s == "scan"@ {
        Ok(Mode::Scan)
    } else if s == ""@ {
        Err(ParseError::MissingValue)
    } else {
        Err(ParseError::UnknownValue)
    }
}

/// Parses an operating mode from its spelling.
pub fn parse_mode(s: &str) -> (r: Result<Mode, ParseError>)
    ensures
        r == spec_parse_mode(s@),
{
    if str_eq(s, "write") {
        Ok(Mode::Write)
    } else if str_eq(s, "read") {
        Ok(Mode::Read)
    } else if str_eq(s, "counter_update") {
        Ok(Mode::CounterUpdate)
    } else if str_eq(s, "counter_read") {
        Ok(Mode::CounterRead)
    } else if str_eq(s, "scan") {
        Ok(Mode::Scan)
    } else if str_eq(s, "") {
        Err(ParseError::MissingValue)
    } else {
        Err(ParseError::UnknownValue)
    }
}

/// The shape of a run's key traversal.
#[derive(Clone, Debug, PartialEq, Eq, Structural)]
pub enum WorkloadType {
    Sequential,
    Uniform,
    Timeseries,
    Scan,
}

/// The workload type each spelling selects: empty input is missing, any
/// other unlisted word is unknown.
pub open spec fn spec_parse_workload(s: Seq<char>) -> Result<WorkloadType, ParseError> {
    if s == "sequential"@ {
        Ok(WorkloadType::Sequential)
    } else if s == "uniform"@ {
        Ok(WorkloadType::Uniform)
    } else if s == "timeseries"@ {
        Ok(WorkloadType::Timeseries)
    } else if s == "scan"@ {
        Ok(WorkloadType::Scan)
    } else if s == ""@ {
        Err(ParseError::MissingValue)
    } else {
        Err(ParseError::UnknownValue)
    }
}

/// Parses a workload type from its spelling.
pub fn parse_workload(s: &str) -> (r: Result<WorkloadType, ParseError>)
    ensures
        r == spec_parse_workload(s@),
{
    if str_eq(s, "sequential") {
        Ok(WorkloadType::Sequential)
    } else if str_eq(s, "uniform") {
        Ok(WorkloadType::Uniform)
    } else if str_eq(s, "timeseries") {
        Ok(WorkloadType::Timeseries)
    } else if str_eq(s, "scan") {
        Ok(WorkloadType::Scan)
    } else if str_eq(s, "") {
        Err(ParseError::MissingValue)
    } else {
        Err(ParseError::UnknownValue)
    }
}

/// The consistency level a run requests of the cluster.
#[derive(Clone, Debug, PartialEq, Eq, Structural)]
pub enum ConsistencyLevel {
    One,
    Two,
    Three,
    Quorum,
    All,
    LocalQuorum,
    EachQuorum,
}

/// The consistency level each spelling selects. `any` is accepted as `All`
/// and `local_one` as `LocalQuorum`, matching the established mapping of the
/// workload's flag surface.
pub open spec fn spec_parse_consistency_level(s: Seq<char>) -> Result<
    ConsistencyLevel,
    ParseError,
> {
    if s == "any"@ {
        Ok(ConsistencyLevel::All)
    } else if s == "one"@ {
        Ok(ConsistencyLevel::One)
    } else if s == "two"@ {
        Ok(ConsistencyLevel::Two)
    } else if s == "three"@ {
        Ok(ConsistencyLevel::Three)
    } else if s == "quorum"@ {
        Ok(ConsistencyLevel::Quorum)
    } else if s == "all"@ {
        Ok(ConsistencyLevel::All)
    } else if s == "local_quorum"@ {
        Ok(ConsistencyLevel::LocalQuorum)
    } else if s == "each_quorum"@ {
        Ok(ConsistencyLevel::EachQuorum)
    } else if s == "local_one"@ {
        Ok(ConsistencyLevel::LocalQuorum)
    } else {
        Err(ParseError::UnknownValue)
    }
}

/// Parses a consistency level from its spelling.
pub fn parse_consistency_level(s: &str) -> (r: Result<ConsistencyLevel, ParseError>)
    ensures
        r == spec_parse_consistency_level(s@),
{
    if str_eq(s, "any") {
        Ok(ConsistencyLevel::All)
    } else if str_eq(s, "one") {
        Ok(ConsistencyLevel::One)
    } else if str_eq(s, "two") {
        Ok(ConsistencyLevel::Two)
    } else if str_eq(s, "three") {
        Ok(ConsistencyLevel::Three)
    } else if str_eq(s, "quorum") {
        Ok(ConsistencyLevel::Quorum)
    } else if str_eq(s, "all") {
        Ok(ConsistencyLevel::All)
    } else if str_eq(s, "local_quorum") {
        Ok(ConsistencyLevel::LocalQuorum)
    } else if str_eq(s, "each_quorum") {
        Ok(ConsistencyLevel::EachQuorum)
    } else if str_eq(s, "local_one") {
        Ok(ConsistencyLevel::LocalQuorum)
    } else {
        Err(ParseError::UnknownValue)
    }
}

} // verus!
