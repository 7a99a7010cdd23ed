use ddns_sync::error::Lookup;
use ddns_sync::error::SyncError;
use ddns_sync::json::encode_update_body;
use ddns_sync::json::frame_update_body;
use ddns_sync::provider::first_listed_id;
use ddns_sync::provider::record_id_from;
use ddns_sync::provider::update_acknowledged;
use ddns_sync::provider::zone_id_from;
use ddns_sync::provider::Ack;
use ddns_sync::provider::Entry;
use ddns_sync::provider::Listing;
use ddns_sync::provider::Method;
use ddns_sync::provider::Reply;
use ddns_sync::provider::Request;

fn listing(success: bool, ids: &[&str]) -> Reply<Listing> {
    Reply::Body(Listing {
        success,
        result: ids.iter().map(|id| Entry { id: id.to_string() }).collect(),
    })
}

#[test]
fn zone_lookup_lists_the_zones_of_the_domain() {
    let request = Request::zone_lookup("secret", "example.com");
    assert_eq!(request.method, Method::Get);
    assert_eq!(request.url, "https://api.cloudflare.com/client/v4/zones?name=example.com");
    assert_eq!(request.token, "secret");
    assert_eq!(request.body, None);
}

#[test]
fn record_lookup_filters_by_type_and_name() {
    let request = Request::record_lookup("secret", "Z1", "foo.example.com");
    assert_eq!(request.method, Method::Get);
    assert_eq!(
        request.url,
        "https://api.cloudflare.com/client/v4/zones/Z1/dns_records?type=A&name=foo.example.com"
    );
    assert_eq!(request.token, "secret");
    assert_eq!(request.body, None);
}

#[test]
fn record_update_puts_the_new_content() {
    let request = Request::record_update("secret", "Z1", "R1", "foo.example.com", "1.2.3.4").unwrap();
    assert_eq!(request.method, Method::Put);
    assert_eq!(request.url, "https://api.cloudflare.com/client/v4/zones/Z1/dns_records/R1");
    assert_eq!(request.token, "secret");
    assert_eq!(
        request.body.as_deref(),
        Some(r#"{"type":"A","name":"foo.example.com","content":"1.2.3.4","ttl":1,"proxied":false}"#)
    );
}

#[test]
fn every_request_carries_the_token_as_bearer() {
    let requests = [
        Request::zone_lookup("tok-123", "example.com"),
        Request::record_lookup("tok-123", "Z1", "foo.example.com"),
        Request::record_update("tok-123", "Z1", "R1", "foo.example.com", "1.2.3.4").unwrap(),
    ];
    for request in requests {
        assert_eq!(request.authorization(), "Bearer tok-123");
    }
}

#[test]
fn update_body_is_the_documented_object() {
    let body = encode_update_body("foo.example.com", "1.2.3.4").unwrap();
    let value: serde_json::Value = serde_json::from_str(&body).unwrap();
    let object = value.as_object().unwrap();
    assert_eq!(object.len(), 5);
    assert_eq!(object["type"], serde_json::Value::from("A"));
    assert_eq!(object["name"], serde_json::Value::from("foo.example.com"));
    assert_eq!(object["content"], serde_json::Value::from("1.2.3.4"));
    assert_eq!(object["ttl"], serde_json::Value::from(1));
    assert_eq!(object["proxied"], serde_json::Value::from(false));
}

#[test]
fn update_body_quotes_its_texts() {
    let body = encode_update_body("a\"b\\c\n", "tab\there").unwrap();
    assert_eq!(
        body,
        r#"{"type":"A","name":"a\"b\\c\n","content":"tab\there","ttl":1,"proxied":false}"#
    );
    let value: serde_json::Value = serde_json::from_str(&body).unwrap();
    assert_eq!(value["name"], serde_json::Value::from("a\"b\\c\n"));
    assert_eq!(value["content"], serde_json::Value::from("tab\there"));
}

#[test]
fn update_body_is_framed_around_quoted_texts() {
    assert_eq!(
        frame_update_body("\"n\"", "\"c\""),
        r#"{"type":"A","name":"n","content":"c","ttl":1,"proxied":false}"#
    );
    assert_eq!(frame_update_body("", ""), r#"{"type":"A","name":,"content":,"ttl":1,"proxied":false}"#);
}

#[test]
fn zone_lookup_takes_the_first_of_several_zones() {
    assert_eq!(zone_id_from(listing(true, &["Z1", "Z2"]), "example.com"), Ok("Z1".to_string()));
}

#[test]
fn record_lookup_takes_the_first_of_several_records() {
    assert_eq!(
        record_id_from(listing(true, &["R7", "R8", "R9"]), "foo.example.com"),
        Ok("R7".to_string())
    );
    assert_eq!(record_id_from(listing(true, &["only"]), "foo.example.com"), Ok("only".to_string()));
}

#[test]
fn zone_lookup_without_success_or_result_is_not_found() {
    let not_found = || SyncError::NotFound { what: Lookup::Zone, name: "example.com".to_string() };
    assert_eq!(zone_id_from(listing(false, &[]), "example.com"), Err(not_found()));
    assert_eq!(zone_id_from(listing(true, &[]), "example.com"), Err(not_found()));
    assert_eq!(zone_id_from(listing(false, &["Z1"]), "example.com"), Err(not_found()));
}

#[test]
fn record_lookup_without_success_or_result_is_not_found() {
    let not_found =
        || SyncError::NotFound { what: Lookup::Record, name: "foo.example.com".to_string() };
    assert_eq!(record_id_from(listing(false, &[]), "foo.example.com"), Err(not_found()));
    assert_eq!(record_id_from(listing(true, &[]), "foo.example.com"), Err(not_found()));
    assert_eq!(record_id_from(listing(false, &["R1"]), "foo.example.com"), Err(not_found()));
}

#[test]
fn lookup_that_got_no_answer_is_a_transport_error() {
    let reply = Reply::Unreachable("connection refused".to_string());
    assert_eq!(
        first_listed_id(reply, Lookup::Zone, "example.com"),
        Err(SyncError::TransportError { detail: "connection refused".to_string() })
    );
}

#[test]
fn lookup_with_an_unreadable_body_is_a_protocol_error() {
    let reply = Reply::Malformed("expected value at line 1".to_string());
    assert_eq!(
        first_listed_id(reply, Lookup::Record, "foo.example.com"),
        Err(SyncError::ProtocolError { detail: "expected value at line 1".to_string() })
    );
}

#[test]
fn update_answer_gives_the_providers_flag() {
    assert_eq!(update_acknowledged(Reply::Body(Ack { success: true })), Ok(true));
    assert_eq!(update_acknowledged(Reply::Body(Ack { success: false })), Ok(false));
}

#[test]
fn update_that_got_no_readable_answer_is_a_hard_failure() {
    assert_eq!(
        update_acknowledged(Reply::Unreachable("timed out".to_string())),
        Err(SyncError::TransportError { detail: "timed out".to_string() })
    );
    assert_eq!(
        update_acknowledged(Reply::Malformed("not json".to_string())),
        Err(SyncError::ProtocolError { detail: "not json".to_string() })
    );
}

#[test]
fn errors_are_reported_in_one_line_each() {
    assert_eq!(
        SyncError::ConfigError { variable: "CF_API_TOKEN".to_string() }.message(),
        "CF_API_TOKEN is required"
    );
    assert_eq!(
        SyncError::NotFound { what: Lookup::Zone, name: "example.com".to_string() }.message(),
        "Zone not found for domain: example.com"
    );
    assert_eq!(
        SyncError::NotFound { what: Lookup::Record, name: "foo.example.com".to_string() }.message(),
        "DNS record not found for: foo.example.com"
    );
    assert_eq!(
        SyncError::TransportError { detail: "timed out".to_string() }.message(),
        "Network failure: timed out"
    );
    assert_eq!(
        SyncError::ProtocolError { detail: "not json".to_string() }.message(),
        "Unexpected response: not json"
    );
    assert_eq!(SyncError::ProviderRejected.message(), "Failed to update DNS");
}
