use indy_resolver::error::{VdrError, VdrErrorKind};
use indy_resolver::json::{parse_json, JsonValue};
use indy_resolver::request::{Operation, ProtocolVersion, RequestBuilder, TxnType};
use indy_resolver::resolver::{
    dereferencing_result, object_type_label, parse_endpoint_data, parse_ledger_data,
    parse_nym_data, resolution_result, ContentMetadata, PoolResolver, PoolRunnerResolver,
    ResolveAction, ResolveSession, Result as Resolved,
};

fn builder() -> RequestBuilder {
    RequestBuilder::new(ProtocolVersion::Node1_4)
}

fn member<'a>(v: &'a JsonValue, key: &str) -> Option<&'a JsonValue> {
    match v {
        JsonValue::Object(m) => m.iter().rev().find(|(k, _)| k == key).map(|(_, x)| x),
        _ => None,
    }
}

fn text(v: Option<&JsonValue>) -> Option<&str> {
    match v {
        Some(JsonValue::Str(t)) => Some(t.as_str()),
        _ => None,
    }
}

const NYM_REPLY: &str = r#"{"result":{"data":"{\"dest\":\"Dk1fRRTtNazyMuK2cr64wp\",\"verkey\":\"~abc\"}","type":"105"}}"#;
const NYM_REPLY_WITH_DOC: &str = r#"{"result":{"data":"{\"dest\":\"Dk1fRRTtNazyMuK2cr64wp\",\"verkey\":\"~abc\",\"diddoc_content\":{\"service\":[]}}","type":"105"}}"#;
const ATTRIB_REPLY: &str = r#"{"result":{"data":"{\"endpoint\":{\"endpoint\":\"https://agent.example\"}}"}}"#;

#[test]
fn json_is_read_into_plain_values() {
    let v = parse_json(r#"{"a":[1,true,null],"b":"x"}"#).unwrap();
    match member(&v, "a") {
        Some(JsonValue::Array(items)) => {
            assert!(matches!(&items[0], JsonValue::Number(n) if n == "1"));
            assert!(matches!(items[1], JsonValue::Bool(true)));
            assert!(matches!(items[2], JsonValue::Null));
        }
        other => panic!("unexpected {:?}", other),
    }
    assert_eq!(text(member(&v, "b")), Some("x"));
    assert!(parse_json("{").is_none());
}

#[test]
fn ledger_data_is_read_from_result_data() {
    let data = parse_ledger_data(r#"{"result":{"data":{"a":"1"}}}"#).unwrap();
    assert_eq!(text(member(&data, "a")), Some("1"));
}

#[test]
fn empty_or_missing_ledger_data_is_an_error() {
    for reply in [r#"{"result":{"data":null}}"#, r#"{"result":{}}"#, r#"[1]"#] {
        let err = parse_ledger_data(reply).unwrap_err();
        assert_eq!(err.kind, VdrErrorKind::Resolver);
        assert_eq!(err.message, "Empty data in ledger response");
    }
    let err = parse_ledger_data("not json").unwrap_err();
    assert_eq!(err.message, "Could not parse ledger response");
}

#[test]
fn nym_data_is_decoded() {
    let data = parse_ledger_data(NYM_REPLY_WITH_DOC).unwrap();
    let nym = parse_nym_data(data).unwrap();
    assert_eq!(nym.dest, "Dk1fRRTtNazyMuK2cr64wp");
    assert_eq!(nym.verkey.as_deref(), Some("~abc"));
    assert!(nym.diddoc_content.is_some());
    let err = parse_nym_data(JsonValue::Object(vec![])).unwrap_err();
    assert_eq!(err.message, "Could not parse NYM data");
    let no_dest = JsonValue::Str(r#"{"verkey":"~abc"}"#.to_string());
    assert!(parse_nym_data(no_dest).is_err());
}

#[test]
fn endpoint_data_is_decoded() {
    let data = parse_ledger_data(ATTRIB_REPLY).unwrap();
    let e = parse_endpoint_data(data).unwrap();
    assert_eq!(text(member(member(&e, "endpoint").unwrap(), "endpoint")), Some("https://agent.example"));
    let err = parse_endpoint_data(JsonValue::Str("{".to_string())).unwrap_err();
    assert_eq!(err.message, "Could not parse endpoint data");
}

#[test]
fn object_type_labels() {
    assert_eq!(object_type_label(TxnType::GetNym), "NYM");
    assert_eq!(object_type_label(TxnType::GetSchema), "SCHEMA");
    assert_eq!(object_type_label(TxnType::GetCredDef), "CRED_DEF");
    assert_eq!(object_type_label(TxnType::GetRevocRegDef), "REVOC_REG_DEF");
    assert_eq!(object_type_label(TxnType::GetRevocRegDelta), "REVOC_REG_DELTA");
    assert_eq!(object_type_label(TxnType::GetRevocReg), "UNKNOWN");
}

#[test]
fn schema_is_dereferenced_as_content() {
    let url = "did:indy:idunion:Dk1fRRTtNazyMuK2cr64wp/anoncreds/v0/SCHEMA/My%20Schema/1.0";
    let (mut s, req) = ResolveSession::start(url, &builder()).unwrap();
    assert_eq!(req.txn_type, TxnType::GetSchema);
    let reply = r#"{"result":{"data":{"name":"My Schema","version":"1.0"},"seqNo":5}}"#.to_string();
    match s.on_reply(Ok(reply)) {
        ResolveAction::Done(Ok((Resolved::Content(c), meta))) => {
            assert_eq!(text(member(&c, "name")), Some("My Schema"));
            assert_eq!(meta.object_type, "SCHEMA");
            let result = member(&meta.node_response, "result").unwrap();
            assert!(matches!(member(result, "seqNo"), Some(JsonValue::Number(n)) if n == "5"));
            let env = dereferencing_result(Resolved::Content(c), meta);
            assert!(env.dereferencing_metadata.is_none());
            assert!(env.content_stream.is_some());
            assert_eq!(env.content_metadata.unwrap().object_type, "SCHEMA");
        }
        other => panic!("unexpected action {:?}", other),
    }
}

#[test]
fn nym_without_document_asks_for_legacy_endpoint() {
    let (mut s, req) = ResolveSession::start("did:indy:idunion:Dk1fRRTtNazyMuK2cr64wp", &builder()).unwrap();
    assert_eq!(req.txn_type, TxnType::GetNym);
    match s.on_reply(Ok(NYM_REPLY.to_string())) {
        ResolveAction::Send(attrib) => {
            assert_eq!(attrib.txn_type, TxnType::GetAttrib);
            match attrib.operation {
                Operation::GetAttrib { dest, raw } => {
                    assert_eq!(dest, "Dk1fRRTtNazyMuK2cr64wp");
                    assert_eq!(raw, "endpoint");
                }
                other => panic!("unexpected operation {:?}", other),
            }
        }
        other => panic!("unexpected action {:?}", other),
    }
    match s.on_reply(Ok(ATTRIB_REPLY.to_string())) {
        ResolveAction::Done(Ok((Resolved::DidDocument(doc), meta))) => {
            assert_eq!(doc.did(), "did:indy:idunion:Dk1fRRTtNazyMuK2cr64wp");
            assert_eq!(doc.verkey.as_deref(), Some("~abc"));
            assert!(doc.endpoint.is_some());
            assert_eq!(meta.object_type, "NYM");
        }
        other => panic!("unexpected action {:?}", other),
    }
}

#[test]
fn failed_legacy_endpoint_is_dropped() {
    let (mut s, _) = ResolveSession::start("did:indy:idunion:Dk1fRRTtNazyMuK2cr64wp", &builder()).unwrap();
    assert!(matches!(s.on_reply(Ok(NYM_REPLY.to_string())), ResolveAction::Send(_)));
    let pool_error = VdrError { kind: VdrErrorKind::Pool, message: "timeout".to_string() };
    match s.on_reply(Err(pool_error)) {
        ResolveAction::Done(Ok((Resolved::DidDocument(doc), _))) => {
            assert!(doc.endpoint.is_none());
            assert_eq!(doc.verkey.as_deref(), Some("~abc"));
            let env = resolution_result(Resolved::DidDocument(doc), meta_for_test());
            assert!(env.did_document.is_some());
        }
        other => panic!("unexpected action {:?}", other),
    }
}

#[test]
fn unreadable_legacy_endpoint_is_dropped() {
    let (mut s, _) = ResolveSession::start("did:indy:idunion:Dk1fRRTtNazyMuK2cr64wp", &builder()).unwrap();
    assert!(matches!(s.on_reply(Ok(NYM_REPLY.to_string())), ResolveAction::Send(_)));
    match s.on_reply(Ok(r#"{"result":{"data":null}}"#.to_string())) {
        ResolveAction::Done(Ok((Resolved::DidDocument(doc), _))) => assert!(doc.endpoint.is_none()),
        other => panic!("unexpected action {:?}", other),
    }
}

fn meta_for_test() -> ContentMetadata {
    ContentMetadata { node_response: JsonValue::Null, object_type: "NYM".to_string() }
}

#[test]
fn nym_with_document_resolves_at_once() {
    let (mut s, _) = ResolveSession::start("did:indy:idunion:Dk1fRRTtNazyMuK2cr64wp", &builder()).unwrap();
    match s.on_reply(Ok(NYM_REPLY_WITH_DOC.to_string())) {
        ResolveAction::Done(Ok((Resolved::DidDocument(doc), meta))) => {
            assert!(doc.diddoc_content.is_some());
            assert!(doc.endpoint.is_none());
            assert_eq!(doc.id, "Dk1fRRTtNazyMuK2cr64wp");
            assert_eq!(meta.object_type, "NYM");
            let result = member(&meta.node_response, "result").unwrap();
            assert_eq!(text(member(result, "type")), Some("105"));
        }
        other => panic!("unexpected action {:?}", other),
    }
}

#[test]
fn pool_failure_is_passed_on() {
    let (mut s, _) = ResolveSession::start("did:indy:idunion:Dk1fRRTtNazyMuK2cr64wp", &builder()).unwrap();
    let e = VdrError { kind: VdrErrorKind::Pool, message: "no consensus".to_string() };
    match s.on_reply(Err(e)) {
        ResolveAction::Done(Err(err)) => {
            assert_eq!(err.kind, VdrErrorKind::Pool);
            assert_eq!(err.message, "no consensus");
        }
        other => panic!("unexpected action {:?}", other),
    }
}

#[test]
fn empty_ledger_data_fails_resolution() {
    let (mut s, _) = ResolveSession::start("did:indy:idunion:Dk1fRRTtNazyMuK2cr64wp", &builder()).unwrap();
    match s.on_reply(Ok(r#"{"result":{"data":null}}"#.to_string())) {
        ResolveAction::Done(Err(err)) => {
            assert_eq!(err.kind, VdrErrorKind::Resolver);
            assert_eq!(err.message, "Empty data in ledger response");
        }
        other => panic!("unexpected action {:?}", other),
    }
}

#[test]
fn invalid_did_fails_to_start() {
    let err = ResolveSession::start("did:web:example.com", &builder()).unwrap_err();
    assert_eq!(err.kind, VdrErrorKind::Resolver);
    let url = "did:indy:idunion:Dk1fRRTtNazyMuK2cr64wp?versionTime=bad";
    let err = ResolveSession::start(url, &builder()).unwrap_err();
    assert_eq!(err.message, "Could not parse datetime bad");
}

#[test]
fn resolvers_keep_their_pool() {
    let r = PoolResolver::new(7u32);
    assert_eq!(*r.pool(), 7);
    let runner = String::from("runner");
    let rr = PoolRunnerResolver::new(&runner);
    assert_eq!(rr.runner(), "runner");
}

#[test]
fn document_parts_name_the_did_and_endpoint() {
    let (mut s, _) = ResolveSession::start("did:indy:idunion:Dk1fRRTtNazyMuK2cr64wp", &builder()).unwrap();
    assert!(matches!(s.on_reply(Ok(NYM_REPLY.to_string())), ResolveAction::Send(_)));
    match s.on_reply(Ok(ATTRIB_REPLY.to_string())) {
        ResolveAction::Done(Ok((Resolved::DidDocument(doc), _))) => {
            let parts = doc.into_parts();
            assert_eq!(parts.id, "did:indy:idunion:Dk1fRRTtNazyMuK2cr64wp");
            assert_eq!(parts.verification_method_id, "did:indy:idunion:Dk1fRRTtNazyMuK2cr64wp#verkey");
            assert_eq!(parts.service_id, "did:indy:idunion:Dk1fRRTtNazyMuK2cr64wp#did-communication");
            assert_eq!(text(parts.service_endpoint.as_ref()), Some("https://agent.example"));
        }
        other => panic!("unexpected action {:?}", other),
    }
}
