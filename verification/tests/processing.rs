use echo_server_client::processing::classify_enqueue;
use echo_server_client::processing::classify_poll_result;
use echo_server_client::processing::process_request;
use echo_server_client::processing::PollError;
use echo_server_client::processing::Processing;
use echo_server_client::processing::ProcessingError;
use echo_server_client::processing::ProcessingStatus;
use echo_server_client::processing::ProcessingSuccess;

#[test]
fn adding_in_range_succeeds() {
    let r = process_request(&Processing::Add { left: 1, right: 2 });
    assert_eq!(r, Ok(ProcessingSuccess::Add(3)));
}

#[test]
fn subtracting_in_range_succeeds() {
    let r = process_request(&Processing::Sub { left: 1, right: 2 });
    assert_eq!(r, Ok(ProcessingSuccess::Sub(-1)));
}

#[test]
fn adding_past_the_limit_overflows() {
    let r = process_request(&Processing::Add { left: i32::MAX, right: 1 });
    assert_eq!(r, Err(ProcessingError::Overflow));
}

#[test]
fn subtracting_past_the_limit_overflows() {
    let r = process_request(&Processing::Sub { left: i32::MIN, right: 1 });
    assert_eq!(r, Err(ProcessingError::Overflow));
}

#[test]
fn enqueue_statuses() {
    assert_eq!(classify_enqueue(true), ProcessingStatus::Success);
    assert_eq!(classify_enqueue(false), ProcessingStatus::EnqueFailed);
}

#[test]
fn poll_statuses() {
    let (status, value) = classify_poll_result(Ok(Ok(ProcessingSuccess::Add(3))));
    assert_eq!(status, ProcessingStatus::Success);
    assert_eq!(value, Some(3));

    let (status, value) = classify_poll_result(Ok(Ok(ProcessingSuccess::Sub(-1))));
    assert_eq!(status, ProcessingStatus::Success);
    assert_eq!(value, Some(-1));

    let (status, value) = classify_poll_result(Ok(Err(ProcessingError::Overflow)));
    assert_eq!(status, ProcessingStatus::Overflow);
    assert_eq!(value, None);

    let (status, value) = classify_poll_result(Err(PollError::Timeout));
    assert_eq!(status, ProcessingStatus::OtherError);
    assert_eq!(value, None);

    let (status, value) = classify_poll_result(Err(PollError::Disconnected));
    assert_eq!(status, ProcessingStatus::OtherError);
    assert_eq!(value, None);
}
