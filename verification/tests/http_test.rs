use amp_client::accounts::Account;
use amp_client::actors::ActorSpec;
use amp_client::http::accept_encoding;
use amp_client::http::accept_payload;
use amp_client::http::accept_status;
use amp_client::http::select_decoding;
use amp_client::http::HTTPError;
use amp_client::http::RequestBody;
use amp_client::Wrapper;

#[test]
fn success_statuses_are_passed_through() {
    assert_eq!(Ok(200), accept_status(200, ""));
    assert_eq!(Ok(202), accept_status(202, ""));
    assert_eq!(Ok(204), accept_status(204, ""));
    assert_eq!(Ok(299), accept_status(299, ""));
}

#[test]
fn non_success_status_yields_status_error() {
    let response = accept_status(404, "{\"message\":\"Not found\"}");
    match response {
        Err(HTTPError::Status(status, body)) => {
            assert_eq!(404, status);
            assert_eq!("{\"message\":\"Not found\"}", body);
        }
        other => panic!("expected a status error, got {:?}", other),
    }

    assert!(matches!(accept_status(199, ""), Err(HTTPError::Status(199, _))));
    assert!(matches!(accept_status(300, ""), Err(HTTPError::Status(300, _))));
    assert!(matches!(accept_status(500, ""), Err(HTTPError::Status(500, _))));
}

#[test]
fn empty_collection_yields_empty_sequence() {
    let decoded: Result<Wrapper<Vec<ActorSpec>>, String> = Ok(Wrapper {
        data: Vec::new(),
        pagination: None,
    });
    let actors = accept_payload(decoded).unwrap();
    assert!(actors.is_empty());
}

#[test]
fn malformed_body_yields_deserialization_error() {
    let body = "definitely { not json";
    let decoded: Result<Wrapper<Account>, String> = match serde_json::from_str::<serde_json::Value>(body) {
        Ok(_) => panic!("this body must not parse"),
        Err(e) => Err(e.to_string()),
    };
    let result = accept_payload(decoded);
    assert!(matches!(result, Err(HTTPError::Deserialization(_))));
}

#[test]
fn enveloped_decoding_is_preferred() {
    let enveloped: Result<Wrapper<u64>, String> =
        Ok(Wrapper { data: 1, pagination: None });
    let bare: Result<u64, String> = Ok(2);
    assert_eq!(Ok(Wrapper { data: 1, pagination: None }), select_decoding(enveloped, bare));
}

#[test]
fn bare_decoding_stands_in_for_a_failed_envelope() {
    let enveloped: Result<Wrapper<u64>, String> = Err("missing field `data`".to_string());
    let bare: Result<u64, String> = Ok(2);
    assert_eq!(Ok(Wrapper { data: 2, pagination: None }), select_decoding(enveloped, bare));
}

#[test]
fn failed_decodings_report_the_envelope_error() {
    let enveloped: Result<Wrapper<u64>, String> = Err("missing field `data`".to_string());
    let bare: Result<u64, String> = Err("invalid type".to_string());
    assert_eq!(
        Err("missing field `data`".to_string()),
        select_decoding(enveloped, bare)
    );
}

#[test]
fn only_the_empty_body_sends_no_content() {
    assert!(!RequestBody::Empty.sends_content());
    assert!(RequestBody::Null.sends_content());
}

#[test]
fn encoded_body_is_passed_through() {
    let encoded: Result<String, String> = Ok("{\"title\":\"Untitled\"}".to_string());
    assert_eq!(Ok("{\"title\":\"Untitled\"}".to_string()), accept_encoding(encoded));
}

#[test]
fn encoding_failure_yields_serialization_error() {
    let encoded: Result<String, String> = Err("the payload cannot be encoded".to_string());
    let result = accept_encoding(encoded);
    match result {
        Err(HTTPError::Serialization(message)) => {
            assert_eq!("the payload cannot be encoded", message);
        }
        other => panic!("expected a serialization error, got {:?}", other),
    }
}
