use sqlbridge::batch::Batch;
use sqlbridge::engine::QueryExec;
use sqlbridge::outcome::QueryOutcome;
use sqlbridge::record::CellValue;
use sqlbridge::types::{ColumnReply, SqlType};

#[test]
fn empty_input_is_complete_at_once_with_empty_output() {
    let b = Batch::new(Vec::new());
    assert!(b.is_complete());
    assert!(b.next_query().is_none());
    assert!(b.into_outcomes().is_empty());
}

#[test]
fn queries_are_handed_out_in_input_order() {
    let mut b = Batch::new(vec!["one".to_string(), "two".to_string()]);
    assert!(!b.is_complete());
    assert_eq!(b.next_query(), Some(&"one".to_string()));
    b.record(QueryOutcome::Rows(Vec::new()));
    assert_eq!(b.next_query(), Some(&"two".to_string()));
    b.record(QueryOutcome::Rows(Vec::new()));
    assert!(b.is_complete());
    assert!(b.next_query().is_none());
}

#[test]
fn outcome_count_matches_query_count_in_order() {
    let mut b = Batch::new(vec!["a".to_string(), "b".to_string(), "c".to_string()]);
    b.record(QueryOutcome::Error("first".to_string()));
    b.record(QueryOutcome::Rows(Vec::new()));
    b.record(QueryOutcome::Error("third".to_string()));
    let outcomes = b.into_outcomes();
    assert_eq!(outcomes.len(), 3);
    assert!(matches!(&outcomes[0], QueryOutcome::Error(m) if m == "first"));
    assert!(matches!(&outcomes[1], QueryOutcome::Rows(rows) if rows.is_empty()));
    assert!(matches!(&outcomes[2], QueryOutcome::Error(m) if m == "third"));
}

#[test]
fn a_failing_query_does_not_stop_the_next_one() {
    // Scenario: a division error in the first query, then a working query.
    let mut b = Batch::new(vec!["SELECT 1/0".to_string(), "SELECT 2 AS n".to_string()]);

    let mut first = QueryExec::new(b.next_query().unwrap().clone());
    first.on_prepared(Ok(()));
    first.on_executed(Err("division by zero".to_string()));
    b.record(first.into_outcome());

    // The batch still hands out the second query; it runs over the same
    // session and succeeds with its own outcome.
    let mut second = QueryExec::new(b.next_query().unwrap().clone());
    second.on_prepared(Ok(()));
    second.on_executed(Ok(true));
    second.on_column_count(Ok(1));
    second.on_column(ColumnReply::Known("n".to_string(), SqlType::Integer));
    second.on_fetch(Ok(true));
    second.on_cell(Ok(CellValue::Int(2)));
    second.on_fetch(Ok(false));
    b.record(second.into_outcome());

    let outcomes = b.into_outcomes();
    assert_eq!(outcomes.len(), 2);
    assert!(matches!(
        &outcomes[0],
        QueryOutcome::Error(m) if m == "Can't execute query: division by zero"
    ));
    match &outcomes[1] {
        QueryOutcome::Rows(rows) => {
            assert_eq!(rows.len(), 1);
            assert_eq!(rows[0].entries, vec![("n".to_string(), CellValue::Int(2))]);
        }
        QueryOutcome::Error(m) => panic!("second query should have succeeded, got {}", m),
    }
}
