use indy_resolver::did::{DidUrl, QueryParameter};
use indy_resolver::error::VdrErrorKind;
use indy_resolver::request::{
    build_request, build_request_at, map_request, request_times, LedgerObject, Operation,
    ProtocolVersion, RequestBuilder, RequestTimes, TimeArg, TxnType,
};

const BASE: &str = "did:indy:idunion:Dk1fRRTtNazyMuK2cr64wp/anoncreds/v0/REV_REG_ENTRY/104/revocable/a4e25e54";
const REG_ID: &str = "Dk1fRRTtNazyMuK2cr64wp:4:Dk1fRRTtNazyMuK2cr64wp:3:CL:104:revocable:CL_ACCUM:a4e25e54";

fn request_builder() -> RequestBuilder {
    RequestBuilder::new(ProtocolVersion::Node1_4)
}

fn unix_of(datetime: &str) -> i64 {
    time::OffsetDateTime::parse(datetime, &time::format_description::well_known::Rfc3339)
        .unwrap()
        .unix_timestamp()
}

fn now_secs() -> i64 {
    std::time::SystemTime::now()
        .duration_since(std::time::UNIX_EPOCH)
        .unwrap()
        .as_secs() as i64
}

#[test]
fn build_get_revoc_reg_request_from_version_time() {
    let url = format!("{}?versionTime=2020-12-20T19:17:47Z", BASE);
    let did_url = DidUrl::from_str(&url).unwrap();
    let request = build_request(&did_url, &request_builder()).unwrap();
    assert_eq!(request.txn_type, TxnType::GetRevocReg);
    assert_eq!(request.txn_type.code(), "116");
    match request.operation {
        Operation::GetRevocReg { id, timestamp } => {
            assert_eq!(timestamp, unix_of("2020-12-20T19:17:47Z"));
            assert_eq!(id, REG_ID);
        }
        other => panic!("unexpected operation {:?}", other),
    }
}

#[test]
fn build_get_revoc_reg_without_version_time() {
    let now = now_secs();
    let did_url = DidUrl::from_str(BASE).unwrap();
    let request = build_request(&did_url, &request_builder()).unwrap();
    assert_eq!(request.txn_type, TxnType::GetRevocReg);
    match request.operation {
        Operation::GetRevocReg { timestamp, .. } => assert!(timestamp >= now),
        other => panic!("unexpected operation {:?}", other),
    }
}

#[test]
fn build_get_revoc_reg_request_fails_with_unparsable_version_time() {
    let url = format!("{}?versionTime=20201220T19:17:47Z", BASE);
    let did_url = DidUrl::from_str(&url).unwrap();
    let err = build_request(&did_url, &request_builder()).unwrap_err();
    assert_eq!(err.kind, VdrErrorKind::Resolver);
    assert_eq!(err.message, "Could not parse datetime 20201220T19:17:47Z");
}

#[test]
fn build_get_revoc_reg_delta_request_with_from_to() {
    let url = format!(
        "{}?from=2019-12-20T19:17:47Z&to=2020-12-20T19:17:47Z",
        BASE
    );
    let did_url = DidUrl::from_str(&url).unwrap();
    let request = build_request(&did_url, &request_builder()).unwrap();
    assert_eq!(request.txn_type, TxnType::GetRevocRegDelta);
    match request.operation {
        Operation::GetRevocRegDelta { id, from, to } => {
            assert_eq!(id, REG_ID);
            assert_eq!(from, Some(1576869467));
            assert_eq!(to, unix_of("2020-12-20T19:17:47Z"));
        }
        other => panic!("unexpected operation {:?}", other),
    }
}

#[test]
fn build_get_revoc_reg_delta_request_with_from_only() {
    let now = now_secs();
    let url = format!("{}?from=2019-12-20T19:17:47Z", BASE);
    let did_url = DidUrl::from_str(&url).unwrap();
    let request = build_request(&did_url, &request_builder()).unwrap();
    assert_eq!(request.txn_type, TxnType::GetRevocRegDelta);
    match request.operation {
        Operation::GetRevocRegDelta { from, to, .. } => {
            assert_eq!(from, Some(1576869467));
            assert!(to >= now);
        }
        other => panic!("unexpected operation {:?}", other),
    }
}

#[test]
fn build_get_revoc_reg_delta_request_without_parameter() {
    let now = now_secs();
    let url = "did:indy:idunion:Dk1fRRTtNazyMuK2cr64wp/anoncreds/v0/REV_REG_DELTA/104/revocable/a4e25e54";
    let did_url = DidUrl::from_str(url).unwrap();
    let request = build_request(&did_url, &request_builder()).unwrap();
    assert_eq!(request.txn_type, TxnType::GetRevocRegDelta);
    match request.operation {
        Operation::GetRevocRegDelta { from, to, .. } => {
            assert!(from.is_none());
            assert!(to >= now);
        }
        other => panic!("unexpected operation {:?}", other),
    }
}

#[test]
fn build_get_schema_request_with_whitespace() {
    let url = "did:indy:idunion:Dk1fRRTtNazyMuK2cr64wp/anoncreds/v0/SCHEMA/My%20Schema/1.0";
    let did_url = DidUrl::from_str(url).unwrap();
    let request = build_request(&did_url, &request_builder()).unwrap();
    assert_eq!(request.txn_type, TxnType::GetSchema);
    match request.operation {
        Operation::GetSchema { dest, name, version } => {
            assert_eq!(dest, "Dk1fRRTtNazyMuK2cr64wp");
            assert_eq!(name, "My Schema");
            assert_eq!(version, "1.0");
        }
        other => panic!("unexpected operation {:?}", other),
    }
}

#[test]
fn schema_name_with_reserved_characters_is_decoded() {
    let url = "did:indy:idunion:Dk1fRRTtNazyMuK2cr64wp/anoncreds/v0/SCHEMA/a%2Fb%3Fc%26d%20%C3%A9/1.0";
    let did_url = DidUrl::from_str(url).unwrap();
    let request = build_request(&did_url, &request_builder()).unwrap();
    match request.operation {
        Operation::GetSchema { name, .. } => assert_eq!(name, "a/b?c&d é"),
        other => panic!("unexpected operation {:?}", other),
    }
}

#[test]
fn build_get_cred_def_request() {
    let url = "did:indy:sovrin:staging:Dk1fRRTtNazyMuK2cr64wp/anoncreds/v0/CLAIM_DEF/104/default";
    let did_url = DidUrl::from_str(url).unwrap();
    assert_eq!(did_url.namespace, "sovrin:staging");
    let request = build_request(&did_url, &request_builder()).unwrap();
    assert_eq!(request.txn_type, TxnType::GetCredDef);
    match request.operation {
        Operation::GetCredDef { id } => {
            assert_eq!(id, "Dk1fRRTtNazyMuK2cr64wp:3:CL:104:default")
        }
        other => panic!("unexpected operation {:?}", other),
    }
}

#[test]
fn build_get_revoc_reg_def_request() {
    let url = "did:indy:idunion:Dk1fRRTtNazyMuK2cr64wp/anoncreds/v0/REV_REG_DEF/104/revocable/a4e25e54";
    let did_url = DidUrl::from_str(url).unwrap();
    let request = build_request(&did_url, &request_builder()).unwrap();
    assert_eq!(request.txn_type, TxnType::GetRevocRegDef);
    match request.operation {
        Operation::GetRevocRegDef { id } => assert_eq!(id, REG_ID),
        other => panic!("unexpected operation {:?}", other),
    }
}

#[test]
fn build_get_nym_request_with_version() {
    let url = "did:indy:idunion:Dk1fRRTtNazyMuK2cr64wp?versionId=12&versionTime=2020-12-20T19:17:47Z";
    let did_url = DidUrl::from_str(url).unwrap();
    assert!(did_url.path.is_none());
    let request = build_request(&did_url, &request_builder()).unwrap();
    assert_eq!(request.txn_type, TxnType::GetNym);
    assert_eq!(request.protocol_version, ProtocolVersion::Node1_4);
    match request.operation {
        Operation::GetNym { dest, seq_no, timestamp } => {
            assert_eq!(dest, "Dk1fRRTtNazyMuK2cr64wp");
            assert_eq!(seq_no, Some(12));
            assert_eq!(timestamp, Some(unix_of("2020-12-20T19:17:47Z") as u64));
        }
        other => panic!("unexpected operation {:?}", other),
    }
}

#[test]
fn nym_request_ignores_unreadable_version_id() {
    let url = "did:indy:idunion:Dk1fRRTtNazyMuK2cr64wp?versionId=abc";
    let did_url = DidUrl::from_str(url).unwrap();
    let request = build_request(&did_url, &request_builder()).unwrap();
    match request.operation {
        Operation::GetNym { seq_no, timestamp, .. } => {
            assert_eq!(seq_no, None);
            assert_eq!(timestamp, None);
        }
        other => panic!("unexpected operation {:?}", other),
    }
}

#[test]
fn nym_request_refuses_unparsable_version_time() {
    let url = "did:indy:idunion:Dk1fRRTtNazyMuK2cr64wp?versionTime=yesterday";
    let did_url = DidUrl::from_str(url).unwrap();
    let err = build_request(&did_url, &request_builder()).unwrap_err();
    assert_eq!(err.kind, VdrErrorKind::Resolver);
    assert_eq!(err.message, "Could not parse datetime yesterday");
}

#[test]
fn nym_timestamp_before_epoch_keeps_its_bits() {
    let times = RequestTimes {
        version_id: None,
        version_time: TimeArg::At(-1),
        from: TimeArg::Absent,
        to: TimeArg::Absent,
    };
    let did_url = DidUrl::from_str("did:indy:idunion:Dk1fRRTtNazyMuK2cr64wp").unwrap();
    let request = map_request(&did_url, &request_builder(), times, 0).unwrap();
    match request.operation {
        Operation::GetNym { timestamp, .. } => assert_eq!(timestamp, Some(u64::MAX)),
        other => panic!("unexpected operation {:?}", other),
    }
}

#[test]
fn missing_to_takes_the_given_now() {
    let url = format!("{}?from=2019-12-20T19:17:47Z", BASE);
    let did_url = DidUrl::from_str(&url).unwrap();
    let first = build_request_at(&did_url, &request_builder(), 1700000000).unwrap();
    let second = build_request_at(&did_url, &request_builder(), 1700000000).unwrap();
    match (first.operation, second.operation) {
        (
            Operation::GetRevocRegDelta { id: a, from: fa, to: ta },
            Operation::GetRevocRegDelta { id: b, from: fb, to: tb },
        ) => {
            assert_eq!(ta, 1700000000);
            assert_eq!((a, fa, ta), (b, fb, tb));
        }
        other => panic!("unexpected operations {:?}", other),
    }
}

#[test]
fn delta_with_unparsable_to_fails() {
    let url = format!("{}?to=never", BASE);
    let did_url = DidUrl::from_str(&url).unwrap();
    let err = build_request_at(&did_url, &request_builder(), 5).unwrap_err();
    assert_eq!(err.kind, VdrErrorKind::Resolver);
    assert_eq!(err.message, "Could not parse datetime never");
}

#[test]
fn delta_with_unparsable_from_fails() {
    let url = format!("{}?from=never&to=2020-12-20T19:17:47Z", BASE);
    let did_url = DidUrl::from_str(&url).unwrap();
    let err = build_request_at(&did_url, &request_builder(), 5).unwrap_err();
    assert_eq!(err.kind, VdrErrorKind::Resolver);
    assert_eq!(err.message, "Could not parse datetime never");
}

#[test]
fn request_times_reads_the_query() {
    let url = format!("{}?versionId=7&from=2019-12-20T19:17:47Z&to=bad", BASE);
    let did_url = DidUrl::from_str(&url).unwrap();
    let t = request_times(&did_url);
    assert_eq!(t.version_id, Some(7));
    assert_eq!(t.version_time, TimeArg::Absent);
    assert_eq!(t.from, TimeArg::At(1576869467));
    assert_eq!(t.to, TimeArg::Invalid);
}

#[test]
fn unknown_object_kind_is_refused() {
    let url = "did:indy:idunion:Dk1fRRTtNazyMuK2cr64wp/anoncreds/v0/NOPE/1/x";
    let did_url = DidUrl::from_str(url).unwrap();
    let err = build_request(&did_url, &request_builder()).unwrap_err();
    assert_eq!(err.kind, VdrErrorKind::Resolver);
    assert_eq!(err.message, "Invalid DID URL: unknown path");
}

#[test]
fn ledger_object_needs_numeric_seq_no_and_all_fields() {
    let segs = |v: &[&str]| v.iter().map(|s| s.to_string()).collect::<Vec<String>>();
    assert!(LedgerObject::from_segments(&segs(&["anoncreds", "v0", "CLAIM_DEF", "x1", "n"])).is_err());
    assert!(LedgerObject::from_segments(&segs(&["anoncreds", "v0", "REV_REG_DEF", "1", "n"])).is_err());
    assert!(LedgerObject::from_segments(&segs(&["anoncreds", "v1", "SCHEMA", "n", "1.0"])).is_err());
    match LedgerObject::from_segments(&segs(&["anoncreds", "v0", "REV_REG_ENTRY", "9", "n", "t"])).unwrap() {
        LedgerObject::RevRegEntry(r) => {
            assert_eq!(r.schema_seq_no, "9");
            assert_eq!(r.claim_def_name, "n");
            assert_eq!(r.tag, "t");
        }
        other => panic!("unexpected object {:?}", other),
    }
}

#[test]
fn query_keeps_unknown_keys_and_last_value_wins() {
    let url = "did:indy:idunion:Dk1fRRTtNazyMuK2cr64wp?foo=bar&versionId=1&versionId=2";
    let did_url = DidUrl::from_str(url).unwrap();
    assert_eq!(did_url.query.len(), 3);
    assert_eq!(did_url.query[0].key, QueryParameter::Other);
    assert_eq!(did_url.query[0].name, "foo");
    assert_eq!(did_url.query_get(QueryParameter::VersionId).unwrap(), "2");
    assert!(!did_url.has_query(QueryParameter::To));
}

#[test]
fn malformed_did_urls_are_refused() {
    for url in [
        "did:sov:Dk1fRRTtNazyMuK2cr64wp",
        "did:indy:Dk1fRRTtNazyMuK2cr64wp",
        "did:indy:idunion:",
        "did:indy::Dk1fRRTtNazyMuK2cr64wp",
        "did:indy:idunion:Dk1f/anoncreds/v0/SCHEMA/bad%2/1.0",
        "did:indy:idunion:Dk1f/anoncreds/v0/SCHEMA/bad%FF/1.0",
        "did:indy:idunion:Dk1f?versionId",
        "did:ind",
    ] {
        let err = DidUrl::from_str(url).unwrap_err();
        assert_eq!(err.kind, VdrErrorKind::Resolver, "{}", url);
    }
}
