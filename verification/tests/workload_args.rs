use cql_stress::args::ConsistencyLevel;
use cql_stress::args::Mode;
use cql_stress::args::ParseError;
use cql_stress::args::WorkloadType;
use cql_stress::args::parse_consistency_level;
use cql_stress::args::parse_mode;
use cql_stress::args::parse_workload;

#[test]
fn parse_mode_accepts_every_spelling() {
    assert_eq!(parse_mode("write"), Ok(Mode::Write));
    assert_eq!(parse_mode("read"), Ok(Mode::Read));
    assert_eq!(parse_mode("counter_update"), Ok(Mode::CounterUpdate));
    assert_eq!(parse_mode("counter_read"), Ok(Mode::CounterRead));
    assert_eq!(parse_mode("scan"), Ok(Mode::Scan));
}

#[test]
fn parse_mode_rejects_missing_and_unknown() {
    assert_eq!(parse_mode(""), Err(ParseError::MissingValue));
    assert_eq!(parse_mode("wirte"), Err(ParseError::UnknownValue));
    assert_eq!(parse_mode("WRITE"), Err(ParseError::UnknownValue));
}

#[test]
fn parse_workload_accepts_every_spelling() {
    assert_eq!(parse_workload("sequential"), Ok(WorkloadType::Sequential));
    assert_eq!(parse_workload("uniform"), Ok(WorkloadType::Uniform));
    assert_eq!(parse_workload("timeseries"), Ok(WorkloadType::Timeseries));
    assert_eq!(parse_workload("scan"), Ok(WorkloadType::Scan));
}

#[test]
fn parse_workload_rejects_missing_and_unknown() {
    assert_eq!(parse_workload(""), Err(ParseError::MissingValue));
    assert_eq!(parse_workload("zipfian"), Err(ParseError::UnknownValue));
}

#[test]
fn parse_consistency_level_accepts_every_spelling() {
    assert_eq!(parse_consistency_level("any"), Ok(ConsistencyLevel::All));
    assert_eq!(parse_consistency_level("one"), Ok(ConsistencyLevel::One));
    assert_eq!(parse_consistency_level("two"), Ok(ConsistencyLevel::Two));
    assert_eq!(parse_consistency_level("three"), Ok(ConsistencyLevel::Three));
    assert_eq!(parse_consistency_level("quorum"), Ok(ConsistencyLevel::Quorum));
    assert_eq!(parse_consistency_level("all"), Ok(ConsistencyLevel::All));
    assert_eq!(
        parse_consistency_level("local_quorum"),
        Ok(ConsistencyLevel::LocalQuorum)
    );
    assert_eq!(
        parse_consistency_level("each_quorum"),
        Ok(ConsistencyLevel::EachQuorum)
    );
    assert_eq!(
        parse_consistency_level("local_one"),
        Ok(ConsistencyLevel::LocalQuorum)
    );
}

#[test]
fn parse_consistency_level_rejects_unknown() {
    assert_eq!(parse_consistency_level(""), Err(ParseError::UnknownValue));
    assert_eq!(
        parse_consistency_level("serial"),
        Err(ParseError::UnknownValue)
    );
}
