//! Data model: one flight record and the possible outcomes of one query.

use vstd::prelude::*;

verus! {

/// One flight's number, route and status, as decoded from one entry of the
/// provider's response list.  A missing optional field renders as the
/// literal text `Unknown` rather than being an error.
pub struct FlightRecord {
    pub number: String,
    pub iata: String,
    pub icao: Option<String>,
    pub departure: Option<String>,
    pub arrival: Option<String>,
    pub status: Option<String>,
}

/// Mathematical image of a `FlightRecord`: every field as a character
/// sequence.
pub struct FlightRecordView {
    pub number: Seq<char>,
    pub iata: Seq<char>,
    pub icao: Option<Seq<char>>,
    pub departure: Option<Seq<char>>,
    pub arrival: Option<Seq<char>>,
    pub status: Option<Seq<char>>,
}

/// The view of an optional string: the character sequence, if present.
pub open spec fn opt_view(o: Option<String>) -> Option<Seq<char>> {
    match o {
        Some(s) => Some(s@),
        None => None,
    }
}

impl View for FlightRecord {
    type V = FlightRecordView;

    open spec fn view(&self) -> FlightRecordView {
        FlightRecordView {
            number: self.number@,
            iata: self.iata@,
            icao: opt_view(self.icao),
            departure: opt_view(self.departure),
            arrival: opt_view(self.arrival),
            status: opt_view(self.status),
        }
    }
}

/// What a single query produced.  Every variant is recoverable: an error is
/// rendered as display text and the polling session goes on.
pub enum QueryOutcome {
    /// A well-formed response whose result list was non-empty; this is its
    /// first record, the only one ever rendered.
    Flight(FlightRecord),
    /// A well-formed response whose result list was empty.
    NoData,
    /// A non-success HTTP status, with the response body where it could be
    /// read.
    HttpFailure(Option<String>),
    /// A response body that did not match the expected JSON shape.
    ParseFailure(String),
    /// A network-level failure: no response was obtained at all.
    TransportFailure(String),
}

/// Mathematical image of a `QueryOutcome`.
pub enum QueryOutcomeView {
    Flight(FlightRecordView),
    NoData,
    HttpFailure(Option<Seq<char>>),
    ParseFailure(Seq<char>),
    TransportFailure(Seq<char>),
}

impl View for QueryOutcome {
    type V = QueryOutcomeView;

    open spec fn view(&self) -> QueryOutcomeView {
        match self {
            QueryOutcome::Flight(rec) => QueryOutcomeView::Flight(rec@),
            QueryOutcome::NoData => QueryOutcomeView::NoData,
            QueryOutcome::HttpFailure(body) => QueryOutcomeView::HttpFailure(opt_view(*body)),
            QueryOutcome::ParseFailure(e) => QueryOutcomeView::ParseFailure(e@),
            QueryOutcome::TransportFailure(e) => QueryOutcomeView::TransportFailure(e@),
        }
    }
}

} // verus!
