use firecracker_sdk::agent::{
    connect_step, recv_extend, ConnectOutcome, ConnectStep, MAX_BUFFER_SIZE, RETRY_INTERVAL_MS,
};
use firecracker_sdk::Error;

#[test]
fn connect_ready_when_connected() {
    let step = connect_step(&ConnectOutcome::Connected, 0, 3000);
    assert!(matches!(step, ConnectStep::Ready));
}

#[test]
fn connect_retries_transient_failure_before_timeout() {
    let step = connect_step(
        &ConnectOutcome::Refused("No such file or directory".to_string()),
        2900,
        3000,
    );
    match step {
        ConnectStep::RetryAfterMillis(ms) => assert_eq!(ms, RETRY_INTERVAL_MS),
        _ => panic!("expected a retry"),
    }
}

#[test]
fn connect_times_out_once_elapsed_reaches_timeout() {
    let step = connect_step(
        &ConnectOutcome::Refused("Connection refused".to_string()),
        3000,
        3000,
    );
    match step {
        ConnectStep::Fail(Error::Agent(msg)) => {
            assert_eq!(msg, "Connection timed out: Connection refused");
        }
        _ => panic!("expected a timeout failure"),
    }
}

#[test]
fn connect_other_errors_fail_immediately() {
    let step = connect_step(
        &ConnectOutcome::Failed("Permission denied".to_string()),
        0,
        3000,
    );
    match step {
        ConnectStep::Fail(Error::IO(msg)) => assert_eq!(msg, "Permission denied"),
        _ => panic!("expected an immediate failure"),
    }
}

#[test]
fn recv_zero_read_completes_without_appending() {
    let mut acc: Vec<u8> = b"partial".to_vec();
    let chunk = [0u8; MAX_BUFFER_SIZE];
    let done = recv_extend(&mut acc, &chunk, 0);
    assert!(done);
    assert_eq!(acc, b"partial".to_vec());
}

#[test]
fn recv_short_read_appends_exactly_the_read_bytes_and_completes() {
    let mut acc: Vec<u8> = Vec::new();
    let mut chunk = [0u8; MAX_BUFFER_SIZE];
    chunk[0] = b'a';
    chunk[1] = b'b';
    let done = recv_extend(&mut acc, &chunk, 2);
    assert!(done);
    assert_eq!(acc, b"ab".to_vec());
}

#[test]
fn recv_full_read_continues() {
    let mut acc: Vec<u8> = Vec::new();
    let chunk = [7u8; MAX_BUFFER_SIZE];
    let done = recv_extend(&mut acc, &chunk, MAX_BUFFER_SIZE);
    assert!(!done);
    assert_eq!(acc.len(), MAX_BUFFER_SIZE);
}

#[test]
fn rt_std_test_echo() {
    // A loopback peer echoes the literal bytes back; receiving them through
    // the chunk accumulator yields exactly the sent data, nothing more.
    const DATA: &'static str = "Hello, world!";
    let sent = DATA.as_bytes();

    // The echo peer read `sent` and wrote it back; the agent reads it as
    // one short chunk.
    let mut chunk = [0u8; MAX_BUFFER_SIZE];
    chunk[0..sent.len()].copy_from_slice(sent);
    let mut response: Vec<u8> = Vec::new();
    let done = recv_extend(&mut response, &chunk, sent.len());
    assert!(done);

    assert_eq!(&response[0..DATA.len()], DATA.as_bytes());
    assert_eq!(response, DATA.as_bytes().to_vec());
}
