use flight_watch::flight::{FlightRecord, QueryOutcome};
use flight_watch::poll::{poll_step, PollState};
use flight_watch::query::{request_url, submit_action, SubmitAction};
use flight_watch::render::{outcome_text, record_text};

fn record(departure: Option<&str>, arrival: Option<&str>, status: Option<&str>) -> FlightRecord {
    FlightRecord {
        number: "100".to_owned(),
        iata: "AA100".to_owned(),
        icao: Some("AAL100".to_owned()),
        departure: departure.map(|s| s.to_owned()),
        arrival: arrival.map(|s| s.to_owned()),
        status: status.map(|s| s.to_owned()),
    }
}

#[test]
fn empty_iata_code_is_rejected() {
    match submit_action("") {
        SubmitAction::Reject(text) => assert_eq!(text, "Please enter a valid IATA code"),
        SubmitAction::Start => panic!("an empty code must not start a session"),
    }
}

#[test]
fn non_empty_iata_code_starts_polling() {
    assert!(matches!(submit_action("LH454"), SubmitAction::Start));
}

#[test]
fn request_url_is_assembled_from_its_parts() {
    let url = request_url("http://api.example.test/v1/flights", "k", "LH454");
    assert_eq!(
        url,
        "http://api.example.test/v1/flights?access_key=k&flight_iata=LH454"
    );
}

#[test]
fn full_record_renders_one_line_per_field() {
    let text = record_text(&record(Some("JFK"), Some("LAX"), Some("scheduled")));
    assert_eq!(
        text,
        "Flight Number: 100\nFlight IATA: AA100\nDeparture: JFK\nArrival: LAX\nStatus: scheduled\n"
    );
}

#[test]
fn missing_departure_renders_unknown() {
    let text = record_text(&record(None, Some("LAX"), Some("scheduled")));
    assert!(text.contains("Departure: Unknown\n"));
    assert_eq!(
        text,
        "Flight Number: 100\nFlight IATA: AA100\nDeparture: Unknown\nArrival: LAX\nStatus: scheduled\n"
    );
}

#[test]
fn missing_arrival_and_status_render_unknown() {
    let text = record_text(&record(Some("JFK"), None, None));
    assert!(text.contains("Arrival: Unknown\n"));
    assert!(text.contains("Status: Unknown\n"));
}

#[test]
fn empty_result_list_renders_no_information() {
    let step = poll_step(&None, &QueryOutcome::NoData);
    assert_eq!(step.display, "");
    assert!(step.notification.is_none());
    assert!(step.previous.is_none());
    assert!(matches!(step.state, PollState::Polling));
}

#[test]
fn http_failure_with_body_renders_the_body() {
    let text = outcome_text(&QueryOutcome::HttpFailure(Some("quota exceeded".to_owned())));
    assert_eq!(text, "Failed to fetch flight data: quota exceeded");
}

#[test]
fn http_failure_without_body_renders_a_plain_message() {
    let text = outcome_text(&QueryOutcome::HttpFailure(None));
    assert_eq!(text, "Failed to fetch flight data");
}

#[test]
fn parse_failure_renders_the_decoder_error() {
    let text = outcome_text(&QueryOutcome::ParseFailure("missing field `data`".to_owned()));
    assert_eq!(text, "Failed to parse flight data: missing field `data`");
}

#[test]
fn identical_statuses_keep_polling() {
    let prev = Some("scheduled".to_owned());
    let outcome = QueryOutcome::Flight(record(Some("JFK"), Some("LAX"), Some("scheduled")));
    let step = poll_step(&prev, &outcome);
    assert!(step.notification.is_none());
    assert_eq!(step.previous, Some("scheduled".to_owned()));
    assert!(matches!(step.state, PollState::Polling));
}

#[test]
fn changed_status_notifies_exactly_once_and_stops() {
    let first = QueryOutcome::Flight(record(Some("JFK"), Some("LAX"), Some("scheduled")));
    let second = QueryOutcome::Flight(record(Some("JFK"), Some("LAX"), Some("active")));

    let step_one = poll_step(&Some("scheduled".to_owned()), &first);
    assert!(step_one.notification.is_none());
    assert!(matches!(step_one.state, PollState::Polling));

    let step_two = poll_step(&step_one.previous, &second);
    assert_eq!(
        step_two.notification,
        Some("Flight status changed to: active".to_owned())
    );
    assert_eq!(step_two.previous, Some("active".to_owned()));
    assert!(matches!(step_two.state, PollState::Stopped));
}

#[test]
fn first_observed_status_counts_as_a_change() {
    let outcome = QueryOutcome::Flight(record(Some("JFK"), Some("LAX"), Some("scheduled")));
    let step = poll_step(&None, &outcome);
    assert_eq!(
        step.notification,
        Some("Flight status changed to: scheduled".to_owned())
    );
    assert_eq!(step.previous, Some("scheduled".to_owned()));
    assert!(matches!(step.state, PollState::Stopped));
}

#[test]
fn status_disappearing_keeps_the_remembered_status() {
    let outcome = QueryOutcome::Flight(record(Some("JFK"), Some("LAX"), None));
    let step = poll_step(&Some("active".to_owned()), &outcome);
    assert!(step.notification.is_none());
    assert_eq!(step.previous, Some("active".to_owned()));
    assert!(matches!(step.state, PollState::Stopped));
}

#[test]
fn transport_failure_keeps_polling() {
    let prev = Some("active".to_owned());
    let outcome = QueryOutcome::TransportFailure("connection refused".to_owned());
    let step = poll_step(&prev, &outcome);
    assert_eq!(step.display, "Error: connection refused");
    assert!(step.display.starts_with("Error:"));
    assert!(step.notification.is_none());
    assert_eq!(step.previous, Some("active".to_owned()));
    assert!(matches!(step.state, PollState::Polling));
}

#[test]
fn record_display_keeps_previous_status_when_unchanged() {
    let prev = Some("landed".to_owned());
    let outcome = QueryOutcome::Flight(record(None, None, Some("landed")));
    let step = poll_step(&prev, &outcome);
    assert_eq!(
        step.display,
        "Flight Number: 100\nFlight IATA: AA100\nDeparture: Unknown\nArrival: Unknown\nStatus: landed\n"
    );
    assert_eq!(step.previous, Some("landed".to_owned()));
    assert!(matches!(step.state, PollState::Polling));
}
