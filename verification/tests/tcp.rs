use host_probe::error::{ErrorKind, Failure};
use host_probe::tcp::{
    after_connect, response, send_tcp_message, Action, Progress, Stage, Step, TcpRequest,
    READ_BUFFER_SIZE,
};

fn request(address: &str, port: u16, message: serde_json::Value) -> TcpRequest {
    TcpRequest { address: address.to_string(), port, message }
}

fn greeting() -> serde_json::Value {
    let mut fields = serde_json::Map::new();
    fields.insert("cmd".to_string(), serde_json::Value::String("ping".to_string()));
    fields.insert("seq".to_string(), serde_json::Value::Number(serde_json::Number::from(7u64)));
    serde_json::Value::Object(fields)
}

fn done() -> Result<Vec<u8>, String> {
    Ok(Vec::new())
}

fn failed(step: Step, kind: ErrorKind, message: &str) {
    assert_eq!(step, Step::Finish(Err(Failure { kind, message: message.to_string() })));
}

#[test]
fn exchange_starts_by_resolving_host_and_port() {
    let step = send_tcp_message(&request("127.0.0.1", 8080, greeting()), Progress::Start);
    assert_eq!(step, Step::Next(Stage::Resolving, Action::Resolve("127.0.0.1:8080".to_string())));
}

#[test]
fn port_is_written_in_decimal() {
    for (port, text) in [(0u16, "h:0"), (9, "h:9"), (10, "h:10"), (443, "h:443"), (65535, "h:65535")]
    {
        let step = send_tcp_message(&request("h", port, greeting()), Progress::Start);
        assert_eq!(step, Step::Next(Stage::Resolving, Action::Resolve(text.to_string())));
    }
}

#[test]
fn address_is_taken_as_it_stands() {
    let step = send_tcp_message(&request("", 1, greeting()), Progress::Start);
    assert_eq!(step, Step::Next(Stage::Resolving, Action::Resolve(":1".to_string())));
    let step = send_tcp_message(&request("[::1]", 65000, greeting()), Progress::Start);
    assert_eq!(step, Step::Next(Stage::Resolving, Action::Resolve("[::1]:65000".to_string())));
}

#[test]
fn unresolved_address_is_invalid_address() {
    let step = send_tcp_message(
        &request("nowhere", 80, greeting()),
        Progress::After(Stage::Resolving, Err("invalid socket address syntax".to_string())),
    );
    failed(
        step,
        ErrorKind::InvalidAddress,
        "Invalid address or port: invalid socket address syntax",
    );
}

#[test]
fn resolved_address_is_connected_to() {
    let step = send_tcp_message(
        &request("127.0.0.1", 80, greeting()),
        Progress::After(Stage::Resolving, done()),
    );
    assert_eq!(step, Step::Next(Stage::Connecting, Action::Connect));
}

#[test]
fn refused_connection_is_connection_error() {
    let step = send_tcp_message(
        &request("127.0.0.1", 80, greeting()),
        Progress::After(Stage::Connecting, Err("Connection refused (os error 111)".to_string())),
    );
    failed(
        step,
        ErrorKind::ConnectionError,
        "Failed to connect: Connection refused (os error 111)",
    );
}

#[test]
fn message_is_written_as_json_text() {
    let step = send_tcp_message(
        &request("127.0.0.1", 80, greeting()),
        Progress::After(Stage::Connecting, done()),
    );
    let expected = "{\"cmd\":\"ping\",\"seq\":7}".as_bytes().to_vec();
    assert_eq!(step, Step::Next(Stage::Writing, Action::Write(expected)));
}

#[test]
fn json_text_has_no_framing() {
    let cases = [
        (serde_json::Value::Null, "null"),
        (serde_json::Value::Bool(true), "true"),
        (serde_json::Value::String("h\u{e9}llo \"x\"".to_string()), "\"h\u{e9}llo \\\"x\\\"\""),
        (
            serde_json::Value::Array(vec![
                serde_json::Value::Number(serde_json::Number::from(-3i64)),
                serde_json::Value::Null,
            ]),
            "[-3,null]",
        ),
    ];
    for (message, text) in cases {
        let step = send_tcp_message(
            &request("127.0.0.1", 80, message),
            Progress::After(Stage::Connecting, done()),
        );
        assert_eq!(step, Step::Next(Stage::Writing, Action::Write(text.as_bytes().to_vec())));
    }
}

#[test]
fn serialized_text_goes_out_as_utf8_bytes() {
    let step = after_connect(Ok("{\"k\":\"\u{20ac}\"}".to_string()));
    assert_eq!(
        step,
        Step::Next(
            Stage::Writing,
            Action::Write(vec![b'{', b'"', b'k', b'"', b':', b'"', 0xe2, 0x82, 0xac, b'"', b'}'])
        )
    );
}

#[test]
fn failed_serialization_is_serialization_error() {
    let step = after_connect(Err("key must be a string".to_string()));
    failed(
        step,
        ErrorKind::SerializationError,
        "Failed to serialize message: key must be a string",
    );
}

#[test]
fn failed_write_ends_the_exchange() {
    let step = send_tcp_message(
        &request("127.0.0.1", 80, greeting()),
        Progress::After(Stage::Writing, Err("Broken pipe (os error 32)".to_string())),
    );
    failed(step, ErrorKind::IoError, "Failed to send message: Broken pipe (os error 32)");
}

#[test]
fn written_message_is_followed_by_one_bounded_read() {
    let step = send_tcp_message(
        &request("127.0.0.1", 80, greeting()),
        Progress::After(Stage::Writing, done()),
    );
    assert_eq!(step, Step::Next(Stage::Reading, Action::Read(1024)));
    assert_eq!(READ_BUFFER_SIZE, 1024);
}

#[test]
fn failed_read_is_read_error() {
    let step = send_tcp_message(
        &request("127.0.0.1", 80, greeting()),
        Progress::After(Stage::Reading, Err("Connection reset by peer (os error 104)".to_string())),
    );
    failed(
        step,
        ErrorKind::ReadError,
        "Failed to read response: Connection reset by peer (os error 104)",
    );
}

#[test]
fn bytes_read_are_the_response() {
    let step = send_tcp_message(
        &request("127.0.0.1", 80, greeting()),
        Progress::After(Stage::Reading, Ok("pong \u{2713}".as_bytes().to_vec())),
    );
    assert_eq!(step, Step::Finish(Ok("pong \u{2713}".to_string())));
}

#[test]
fn peer_that_closes_at_once_gives_an_empty_response() {
    let step = send_tcp_message(
        &request("127.0.0.1", 80, greeting()),
        Progress::After(Stage::Reading, Ok(Vec::new())),
    );
    assert_eq!(step, Step::Finish(Ok(String::new())));
}

#[test]
fn invalid_bytes_are_replaced() {
    assert_eq!(response(&vec![b'f', 0xff, b'o']), "f\u{fffd}o");
    assert_eq!(response(&vec![0xe2, 0x82]), "\u{fffd}");
    assert_eq!(response(&vec![0xc0, 0x80, b'a']), "\u{fffd}\u{fffd}a");
}

#[test]
fn response_is_cut_at_the_buffer_size() {
    let exact = vec![b'a'; 1024];
    assert_eq!(response(&exact), "a".repeat(1024));
    let longer = vec![b'b'; 1025];
    assert_eq!(response(&longer), "b".repeat(1024));
    let much_longer = vec![b'c'; 5000];
    assert_eq!(response(&much_longer).len(), 1024);
}

#[test]
fn cut_inside_a_character_leaves_a_replacement() {
    let mut bytes = vec![b'x'; 1023];
    bytes.extend_from_slice("\u{e9}".as_bytes());
    assert_eq!(bytes.len(), 1025);
    let mut expected = "x".repeat(1023);
    expected.push('\u{fffd}');
    assert_eq!(response(&bytes), expected);
}

fn echo_exchange(message: serde_json::Value) -> (Vec<u8>, Result<String, Failure>) {
    let request = request("127.0.0.1", 9000, message);
    let mut sent: Vec<u8> = Vec::new();
    let mut progress = Progress::Start;
    for _ in 0..8 {
        match send_tcp_message(&request, progress) {
            Step::Next(stage, Action::Resolve(_)) => progress = Progress::After(stage, done()),
            Step::Next(stage, Action::Connect) => progress = Progress::After(stage, done()),
            Step::Next(stage, Action::Write(payload)) => {
                sent = payload;
                progress = Progress::After(stage, done());
            }
            Step::Next(stage, Action::Read(capacity)) => {
                let n = sent.len().min(capacity);
                progress = Progress::After(stage, Ok(sent[..n].to_vec()));
            }
            Step::Finish(result) => return (sent, result),
        }
    }
    panic!("the exchange did not end");
}

#[test]
fn echo_returns_the_json_text_of_the_message() {
    let (sent, result) = echo_exchange(greeting());
    let text = serde_json::to_string(&greeting()).unwrap();
    assert_eq!(sent, text.as_bytes());
    assert_eq!(result, Ok(text));
}

#[test]
fn echo_of_a_long_message_is_cut_at_the_buffer_size() {
    let message = serde_json::Value::String("z".repeat(3000));
    let (sent, result) = echo_exchange(message);
    assert_eq!(sent.len(), 3002);
    let mut expected = "\"".to_string();
    expected.push_str(&"z".repeat(1023));
    assert_eq!(result, Ok(expected));
}

#[test]
fn steps_follow_each_other_in_one_order() {
    let request = request("10.0.0.1", 1, serde_json::Value::Null);
    let mut stages = Vec::new();
    let mut progress = Progress::Start;
    loop {
        match send_tcp_message(&request, progress) {
            Step::Next(stage, Action::Read(_)) => {
                stages.push(stage);
                progress = Progress::After(stage, Ok(b"ok".to_vec()));
            }
            Step::Next(stage, _) => {
                stages.push(stage);
                progress = Progress::After(stage, done());
            }
            Step::Finish(result) => {
                assert_eq!(result, Ok("ok".to_string()));
                break;
            }
        }
        assert!(stages.len() <= 4);
    }
    assert_eq!(stages, vec![Stage::Resolving, Stage::Connecting, Stage::Writing, Stage::Reading]);
}
