//! Rendering of query outcomes as display text, input validation, and
//! request-URL construction.

use crate::flight::{FlightRecord, FlightRecordView, QueryOutcome, QueryOutcomeView};
use vstd::prelude::*;

verus! {

/// An optional field's rendering: its text, or the literal `Unknown`.
pub open spec fn spec_field_or_unknown(f: Option<Seq<char>>) -> Seq<char> {
    match f {
        Some(s) => s,
        None => "Unknown"@,
    }
}

/// The block of `Label: value` lines shown for one flight record.
pub open spec fn spec_record_text(r: FlightRecordView) -> Seq<char> {
    "Flight Number: "@ + r.number + "\n"@ + "Flight IATA: "@ + r.iata + "\n"@ + "Departure: "@
        + spec_field_or_unknown(r.departure) + "\n"@ + "Arrival: "@ + spec_field_or_unknown(
        r.arrival,
    ) + "\n"@ + "Status: "@ + spec_field_or_unknown(r.status) + "\n"@
}

/// The text shown when the submitted IATA code is empty.
pub open spec fn spec_empty_input_text() -> Seq<char> {
    "Please enter a valid IATA code"@
}

/// The text shown for a non-success HTTP status, with the response body
/// where it could be read.
pub open spec fn spec_http_failure_text(body: Option<Seq<char>>) -> Seq<char> {
    match body {
        Some(b) => "Failed to fetch flight data: "@ + b,
        None => "Failed to fetch flight data"@,
    }
}

/// The text shown when the response body did not decode.
pub open spec fn spec_parse_failure_text(e: Seq<char>) -> Seq<char> {
    "Failed to parse flight data: "@ + e
}

/// The text shown when the request itself failed.
pub open spec fn spec_transport_failure_text(e: Seq<char>) -> Seq<char> {
    "Error: "@ + e
}

/// The display text for each query outcome.  An empty result list renders
/// as empty text: no flight information, and no error.
pub open spec fn spec_outcome_text(o: QueryOutcomeView) -> Seq<char> {
    match o {
        QueryOutcomeView::Flight(rec) => spec_record_text(rec),
        QueryOutcomeView::NoData => Seq::<char>::empty(),
        QueryOutcomeView::HttpFailure(body) => spec_http_failure_text(body),
        QueryOutcomeView::ParseFailure(e) => spec_parse_failure_text(e),
        QueryOutcomeView::TransportFailure(e) => spec_transport_failure_text(e),
    }
}

/// Append an optional field's text, or the literal `Unknown`.
fn push_field_or_unknown(out: &mut String, f: &Option<String>)
    ensures
        final(out)@ == old(out)@ + spec_field_or_unknown(crate::flight::opt_view(*f)),
{
    match f {
        Some(s) => out.append(s.as_str()),
        None => out.append("Unknown"),
    }
}

/// Render one flight record as its block of `Label: value` lines.
pub fn record_text(r: &FlightRecord) -> (out: String)
    ensures
        out@ == spec_record_text(r@),
{
    let mut out = String::new();
    out.append("Flight Number: ");
    out.append(r.number.as_str());
    out.append("\n");
    out.append("Flight IATA: ");
    out.append(r.iata.as_str());
    out.append("\n");
    out.append("Departure: ");
    push_field_or_unknown(&mut out, &r.departure);
    out.append("\n");
    out.append("Arrival: ");
    push_field_or_unknown(&mut out, &r.arrival);
    out.append("\n");
    out.append("Status: ");
    push_field_or_unknown(&mut out, &r.status);
    out.append("\n");
    assert(out@ =~= spec_record_text(r@));
    out
}

/// Render the display text for one query outcome.
pub fn outcome_text(o: &QueryOutcome) -> (out: String)
    ensures
        out@ == spec_outcome_text(o@),
{
    match o {
        QueryOutcome::Flight(rec) => record_text(rec),
        QueryOutcome::NoData => String::new(),
        QueryOutcome::HttpFailure(body) => match body {
            Some(b) => {
                let mut out: String = "Failed to fetch flight data: ".to_owned();
                out.append(b.as_str());
                out
            },
            None => "Failed to fetch flight data".to_owned(),
        },
        QueryOutcome::ParseFailure(e) => {
            let mut out: String = "Failed to parse flight data: ".to_owned();
            out.append(e.as_str());
            out
        },
        QueryOutcome::TransportFailure(e) => {
            let mut out: String = "Error: ".to_owned();
            out.append(e.as_str());
            out
        },
    }
}

/// Whether `needle` occurs as a contiguous run somewhere inside `hay`.
pub open spec fn contains_seq(hay: Seq<char>, needle: Seq<char>) -> bool {
    exists|i: int|
        0 <= i && i + needle.len() <= hay.len() && #[trigger] hay.subrange(i, i + needle.len())
            == needle
}

/// Law: a record whose departure airport is missing still renders, with
/// the field shown as the line `Departure: Unknown`.
pub proof fn lemma_missing_departure_renders_unknown(r: FlightRecordView)
    requires
        r.departure is None,
    ensures
        contains_seq(spec_record_text(r), "Departure: Unknown\n"@),
{
    reveal_strlit("Flight Number: ");
    reveal_strlit("\n");
    reveal_strlit("Flight IATA: ");
    reveal_strlit("Departure: ");
    reveal_strlit("Unknown");
    reveal_strlit("Departure: Unknown\n");
    let start: int = 30 + r.number.len() as int + r.iata.len() as int;
    assert(spec_record_text(r).subrange(start, start + 19) =~= "Departure: Unknown\n"@);
}

} // verus!
