//! Per-query outcomes and the error messages the engine attaches to them.
//!
//! A query's result is a tagged union: either its ordered list of records or
//! a single error description — never both. Every failure below the
//! request-decoding layer becomes such an error value, so the batch loop is
//! plain iteration with no recovery logic.

use vstd::prelude::*;
use vstd::string::StringExecFns;

use crate::record::{Record, RecordModel};

verus! {

/// The result of executing one query string: its rows, or one error message.
#[derive(Debug)]
pub enum QueryOutcome {
    Rows(Vec<Record>),
    Error(String),
}

/// The mathematical value of a query outcome.
pub ghost enum OutcomeModel {
    Rows(Seq<RecordModel>),
    Error(Seq<char>),
}

impl View for QueryOutcome {
    type V = OutcomeModel;

    open spec fn view(&self) -> OutcomeModel {
        match self {
            QueryOutcome::Rows(rows) => OutcomeModel::Rows(rows.deep_view()),
            QueryOutcome::Error(msg) => OutcomeModel::Error(msg@),
        }
    }
}

impl DeepView for QueryOutcome {
    type V = OutcomeModel;

    open spec fn deep_view(&self) -> OutcomeModel {
        self.view()
    }
}

/// The message of a statement-preparation failure.
pub open spec fn prepare_error_message(detail: Seq<char>) -> Seq<char> {
    "Can't prepare statement: "@ + detail
}

/// The message of an execution failure.
pub open spec fn execute_error_message(detail: Seq<char>) -> Seq<char> {
    "Can't execute query: "@ + detail
}

/// The message of a describe or fetch failure.
pub open spec fn results_error_message(detail: Seq<char>) -> Seq<char> {
    "Can't fetch results: "@ + detail
}

/// The message of a cell-extraction failure.
pub open spec fn data_error_message(detail: Seq<char>) -> Seq<char> {
    "Can't fetch data: "@ + detail
}

/// Prefix a driver failure's text with the preparation-stage message.
pub fn prepare_error(detail: &String) -> (r: String)
    ensures
        r@ == prepare_error_message(detail@),
{
    "Can't prepare statement: ".to_owned().concat(detail.as_str())
}

/// Prefix a driver failure's text with the execution-stage message.
pub fn execute_error(detail: &String) -> (r: String)
    ensures
        r@ == execute_error_message(detail@),
{
    "Can't execute query: ".to_owned().concat(detail.as_str())
}

/// Prefix a driver failure's text with the describe/fetch-stage message.
pub fn results_error(detail: &String) -> (r: String)
    ensures
        r@ == results_error_message(detail@),
{
    "Can't fetch results: ".to_owned().concat(detail.as_str())
}

/// Prefix a driver failure's text with the cell-extraction-stage message.
pub fn data_error(detail: &String) -> (r: String)
    ensures
        r@ == data_error_message(detail@),
{
    "Can't fetch data: ".to_owned().concat(detail.as_str())
}

} // verus!
