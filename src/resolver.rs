use vstd::prelude::*;

use crate::did::{parse_did_url, DidUrl};
use crate::error::{resolver_error, VdrError, VdrErrorKind};
use crate::json::{json_of, member_in, member_of, member_ref, parse_json, take_member, take_member_in, JsonValue};
use crate::request::{
    build_legacy_endpoint_request, build_request, prepared, request_for, OperationView,
    PreparedRequest, PreparedRequestView, RequestBuilder, TxnType,
};

verus! {

/// What a ledger reply resolved to.
#[derive(Debug)]
pub enum Result {
    DidDocument(DidDocument),
    Content(JsonValue),
}

/// The reply of the node and the kind of object it holds.
#[derive(Debug)]
pub struct ContentMetadata {
    pub node_response: JsonValue,
    pub object_type: String,
}

/// Envelope of a DID resolution.
#[derive(Debug)]
pub struct ResolutionResult {
    pub did_resolution_metadata: Option<String>,
    pub did_document: Option<DidDocument>,
    pub did_document_metadata: Option<ContentMetadata>,
}

/// Envelope of a DID URL dereferencing.
#[derive(Debug)]
pub struct DereferencingResult {
    pub dereferencing_metadata: Option<String>,
    pub content_stream: Option<JsonValue>,
    pub content_metadata: Option<ContentMetadata>,
}

/// The DID document of a NYM: `did:indy:<namespace>:<dest>` with its verkey,
/// the document content stored on the ledger if any, and the endpoint found
/// in a legacy attribute if any.
#[derive(Debug)]
pub struct DidDocument {
    pub namespace: String,
    pub id: String,
    pub verkey: Option<String>,
    pub endpoint: Option<JsonValue>,
    pub diddoc_content: Option<JsonValue>,
}

/// `did:indy:<namespace>:<id>`
pub open spec fn indy_did(namespace: Seq<char>, id: Seq<char>) -> Seq<char> {
    "did:indy:"@ + namespace + ":"@ + id
}

impl DidDocument {
    /// The DID that the document describes.
    pub fn did(&self) -> (r: String)
        ensures
            r@ == indy_did(self.namespace@, self.id@),
    {
        let mut s = String::from_str("did:indy:");
        s.append(self.namespace.as_str());
        s.append(":");
        s.append(self.id.as_str());
        s
    }
}

/// The parts of a DID document as it is rendered: its DID, the id of its
/// verification method and the key, the ledger's stored content when there
/// is some, and the URI of the legacy endpoint when one was read.
#[derive(Debug)]
pub struct DocumentParts {
    pub id: String,
    pub verification_method_id: String,
    pub verkey: Option<String>,
    pub service_id: String,
    pub service_endpoint: Option<JsonValue>,
    pub diddoc_content: Option<JsonValue>,
}

/// The URI inside a legacy endpoint attribute: `endpoint.endpoint`.
pub open spec fn endpoint_uri_of(endpoint: Option<JsonValue>) -> Option<JsonValue> {
    match endpoint {
        Some(e) => match member_of(e, "endpoint"@) {
            Some(inner) => member_of(inner, "endpoint"@),
            None => None,
        },
        None => None,
    }
}

impl DidDocument {
    /// Splits the document into the parts that are rendered.
    pub fn into_parts(self) -> (r: DocumentParts)
        ensures
            r.id@ == indy_did(self.namespace@, self.id@),
            r.verification_method_id@ == indy_did(self.namespace@, self.id@) + "#verkey"@,
            r.verkey == self.verkey,
            r.service_id@ == indy_did(self.namespace@, self.id@) + "#did-communication"@,
            r.service_endpoint == endpoint_uri_of(self.endpoint),
            r.diddoc_content == self.diddoc_content,
    {
        let id = self.did();
        let mut verification_method_id = id.clone();
        verification_method_id.append("#verkey");
        let mut service_id = id.clone();
        service_id.append("#did-communication");
        let service_endpoint = match self.endpoint {
            Some(e) => match take_member(e, "endpoint") {
                Some(inner) => take_member(inner, "endpoint"),
                None => None,
            },
            None => None,
        };
        DocumentParts {
            id,
            verification_method_id,
            verkey: self.verkey,
            service_id,
            service_endpoint,
            diddoc_content: self.diddoc_content,
        }
    }
}

/// The fields of a NYM read that the resolver uses.
#[derive(Debug)]
pub struct NymData {
    pub dest: String,
    pub verkey: Option<String>,
    pub diddoc_content: Option<JsonValue>,
}

/// `result.data` of a ledger reply, or the message of the error: the reply
/// must be JSON, and the data present and not null.
pub open spec fn ledger_data_of(s: Seq<char>) -> core::result::Result<JsonValue, Seq<char>> {
    match json_of(s) {
        None => Err("Could not parse ledger response"@),
        Some(v) => match member_of(v, "result"@) {
            Some(res) => match member_of(res, "data"@) {
                Some(d) => if d is Null {
                    Err("Empty data in ledger response"@)
                } else {
                    Ok(d)
                },
                None => Err("Empty data in ledger response"@),
            },
            None => Err("Empty data in ledger response"@),
        },
    }
}

/// Reads `result.data` of a ledger reply, as `ledger_data_of` says.
pub fn parse_ledger_data(ledger_data: &str) -> (r: core::result::Result<JsonValue, VdrError>)
    ensures
        match (r, ledger_data_of(ledger_data@)) {
            (Ok(x), Ok(d)) => x == d,
            (Err(e), Err(m)) => e.kind == VdrErrorKind::Resolver && e.message@ == m,
            _ => false,
        },
{
    let v = match parse_json(ledger_data) {
        Some(v) => v,
        None => {
            return Err(resolver_error("Could not parse ledger response"));
        },
    };
    let data = match take_member(v, "result") {
        Some(res) => take_member(res, "data"),
        None => None,
    };
    match data {
        Some(JsonValue::Null) => Err(resolver_error("Empty data in ledger response")),
        Some(d) => Ok(d),
        None => Err(resolver_error("Empty data in ledger response")),
    }
}

/// The NYM that GET_NYM data holds: a JSON string whose text is an object
/// with a string `dest`; `verkey` counts where it is a string, and
/// `diddoc_content` where it is not null.
pub open spec fn nym_of(data: JsonValue) -> Option<NymData> {
    match data {
        JsonValue::Str(t) => match json_of(t@) {
            Some(JsonValue::Object(m)) => match member_in(m@, "dest"@) {
                Some(JsonValue::Str(dest)) => Some(
                    NymData {
                        dest: dest,
                        verkey: match member_in(m@, "verkey"@) {
                            Some(JsonValue::Str(k)) => Some(k),
                            _ => None,
                        },
                        diddoc_content: match member_in(m@, "diddoc_content"@) {
                            Some(JsonValue::Null) => None,
                            Some(c) => Some(c),
                            None => None,
                        },
                    },
                ),
                _ => None,
            },
            _ => None,
        },
        _ => None,
    }
}

/// Reads the NYM of GET_NYM data, as `nym_of` says.
pub fn parse_nym_data(data: JsonValue) -> (r: core::result::Result<NymData, VdrError>)
    ensures
        match (r, nym_of(data)) {
            (Ok(n), Some(m)) => n == m,
            (Err(e), None) => e.kind == VdrErrorKind::Resolver && e.message@
                == "Could not parse NYM data"@,
            _ => false,
        },
{
    let text = match data {
        JsonValue::Str(t) => t,
        _ => {
            return Err(resolver_error("Could not parse NYM data"));
        },
    };
    let nym = match parse_json(text.as_str()) {
        Some(JsonValue::Object(m)) => m,
        _ => {
            return Err(resolver_error("Could not parse NYM data"));
        },
    };
    let dest = match member_ref(&nym, "dest") {
        Some(JsonValue::Str(d)) => d.clone(),
        _ => {
            return Err(resolver_error("Could not parse NYM data"));
        },
    };
    let verkey = match member_ref(&nym, "verkey") {
        Some(JsonValue::Str(k)) => Some(k.clone()),
        _ => None,
    };
    let diddoc_content = match take_member_in(nym, "diddoc_content") {
        Some(JsonValue::Null) => None,
        Some(c) => Some(c),
        None => None,
    };
    Ok(NymData { dest, verkey, diddoc_content })
}

/// The endpoint that GET_ATTRIB data holds: a JSON string whose text is JSON.
pub open spec fn endpoint_of(data: JsonValue) -> Option<JsonValue> {
    match data {
        JsonValue::Str(t) => json_of(t@),
        _ => None,
    }
}

/// Reads the endpoint of GET_ATTRIB data, as `endpoint_of` says.
pub fn parse_endpoint_data(data: JsonValue) -> (r: core::result::Result<JsonValue, VdrError>)
    ensures
        match (r, endpoint_of(data)) {
            (Ok(x), Some(e)) => x == e,
            (Err(e), None) => e.kind == VdrErrorKind::Resolver && e.message@
                == "Could not parse endpoint data"@,
            _ => false,
        },
{
    match data {
        JsonValue::Str(t) => match parse_json(t.as_str()) {
            Some(e) => Ok(e),
            None => Err(resolver_error("Could not parse endpoint data")),
        },
        _ => Err(resolver_error("Could not parse endpoint data")),
    }
}

/// The object type reported for a read of type `t`.
pub open spec fn object_type_of(t: TxnType) -> Seq<char> {
    match t {
        TxnType::GetNym => "NYM"@,
        TxnType::GetCredDef => "CRED_DEF"@,
        TxnType::GetSchema => "SCHEMA"@,
        TxnType::GetRevocRegDef => "REVOC_REG_DEF"@,
        TxnType::GetRevocRegDelta => "REVOC_REG_DELTA"@,
        _ => "UNKNOWN"@,
    }
}

pub fn object_type_label(t: TxnType) -> (r: String)
    ensures
        r@ == object_type_of(t),
{
    match t {
        TxnType::GetNym => String::from_str("NYM"),
        TxnType::GetCredDef => String::from_str("CRED_DEF"),
        TxnType::GetSchema => String::from_str("SCHEMA"),
        TxnType::GetRevocRegDef => String::from_str("REVOC_REG_DEF"),
        TxnType::GetRevocRegDelta => String::from_str("REVOC_REG_DELTA"),
        _ => String::from_str("UNKNOWN"),
    }
}

/// The resolution envelope: the DID document when the result is one, and
/// the metadata.
pub fn resolution_result(data: Result, metadata: ContentMetadata) -> (r: ResolutionResult)
    ensures
        r.did_resolution_metadata is None,
        match data {
            Result::DidDocument(doc) => r.did_document == Some(doc),
            Result::Content(_) => r.did_document is None,
        },
        r.did_document_metadata == Some(metadata),
{
    let did_document = match data {
        Result::DidDocument(doc) => Some(doc),
        Result::Content(_) => None,
    };
    ResolutionResult {
        did_resolution_metadata: None,
        did_document,
        did_document_metadata: Some(metadata),
    }
}

/// The dereferencing envelope: the content when the result is content, and
/// the metadata.
pub fn dereferencing_result(data: Result, metadata: ContentMetadata) -> (r: DereferencingResult)
    ensures
        r.dereferencing_metadata is None,
        match data {
            Result::Content(c) => r.content_stream == Some(c),
            Result::DidDocument(_) => r.content_stream is None,
        },
        r.content_metadata == Some(metadata),
{
    let content_stream = match data {
        Result::Content(c) => Some(c),
        Result::DidDocument(_) => None,
    };
    DereferencingResult {
        dereferencing_metadata: None,
        content_stream,
        content_metadata: Some(metadata),
    }
}

/// Where a resolution stands.
#[derive(Debug)]
pub enum ResolvePhase {
    /// The read request for the DID URL is out.
    AwaitingReply,
    /// The NYM had no document content; the legacy endpoint read is out.
    AwaitingEndpoint { nym: NymData, node_response: JsonValue },
    Finished,
}

/// What the driver of a resolution does next.
#[derive(Debug)]
pub enum ResolveAction {
    /// Submit this request and hand its reply to `on_reply`.
    Send(PreparedRequest),
    /// The resolution is over.
    Done(core::result::Result<(Result, ContentMetadata), VdrError>),
}

/// One resolution of a DID or dereferencing of a DID URL, from its read
/// request to the result and its metadata.
#[derive(Debug)]
pub struct ResolveSession {
    pub did_url: DidUrl,
    pub builder: RequestBuilder,
    pub txn_type: TxnType,
    pub phase: ResolvePhase,
}

/// The legacy endpoint read for the DID `id`.
pub open spec fn legacy_request_for(b: RequestBuilder, id: Seq<char>) -> PreparedRequestView {
    prepared(b, OperationView::GetAttrib { dest: id, raw: "endpoint"@ })
}

/// A DID URL that parses and maps to a read request.
pub open spec fn resolvable(did: Seq<char>, b: RequestBuilder) -> bool {
    match parse_did_url(did) {
        Some(u) => request_for(u, b, 0) is Some,
        None => false,
    }
}

/// The resolution ends with a resolver error with this message.
pub open spec fn fails_with_message(action: ResolveAction, message: Seq<char>) -> bool {
    match action {
        ResolveAction::Done(Err(e)) => e.kind == VdrErrorKind::Resolver && e.message@ == message,
        _ => false,
    }
}

/// The resolution ends with this result, and metadata that holds the node's
/// response and the object type of `t`.
pub open spec fn done_with(action: ResolveAction, res: Result, node: JsonValue, t: TxnType) -> bool {
    match action {
        ResolveAction::Done(Ok((r, meta))) => r == res && meta.node_response == node
            && meta.object_type@ == object_type_of(t),
        _ => false,
    }
}

/// The first reply. A pool failure is passed on unchanged. Otherwise the
/// reply's `result.data` is read; a read of any type but GET_NYM ends with
/// that data as content. For GET_NYM the NYM is read from the data: with
/// document content it ends with its DID document at once, without it the
/// legacy endpoint of the DID is asked for.
pub open spec fn reply_step(
    pre: ResolveSession,
    reply: core::result::Result<String, VdrError>,
    action: ResolveAction,
    post: ResolveSession,
) -> bool {
    match reply {
        Err(e) => action == ResolveAction::Done(Err(e)),
        Ok(text) => match ledger_data_of(text@) {
            Err(m) => fails_with_message(action, m),
            Ok(d) => {
                let node = json_of(text@)->Some_0;
                if pre.txn_type is GetNym {
                    match nym_of(d) {
                        None => fails_with_message(action, "Could not parse NYM data"@),
                        Some(n) => if n.diddoc_content is None {
                            &&& action is Send
                            &&& action->Send_0@ == legacy_request_for(pre.builder, pre.did_url.id@)
                            &&& post.phase == (ResolvePhase::AwaitingEndpoint {
                                nym: n,
                                node_response: node,
                            })
                        } else {
                            done_with(
                                action,
                                Result::DidDocument(
                                    DidDocument {
                                        namespace: pre.did_url.namespace,
                                        id: n.dest,
                                        verkey: n.verkey,
                                        endpoint: None,
                                        diddoc_content: n.diddoc_content,
                                    },
                                ),
                                node,
                                TxnType::GetNym,
                            )
                        },
                    }
                } else {
                    done_with(action, Result::Content(d), node, pre.txn_type)
                }
            },
        },
    }
}

/// The endpoint that the legacy read gave: `None` for a pool failure or a
/// reply whose data is missing or not an endpoint.
pub open spec fn endpoint_from_reply(reply: core::result::Result<String, VdrError>) -> Option<JsonValue> {
    match reply {
        Ok(text) => match ledger_data_of(text@) {
            Ok(d) => endpoint_of(d),
            Err(_) => None,
        },
        Err(_) => None,
    }
}

/// The legacy endpoint reply: the resolution ends with the NYM's DID
/// document, with the endpoint attached where one could be read.
pub open spec fn endpoint_step(
    pre: ResolveSession,
    reply: core::result::Result<String, VdrError>,
    action: ResolveAction,
) -> bool {
    match pre.phase {
        ResolvePhase::AwaitingEndpoint { nym, node_response } => done_with(
            action,
            Result::DidDocument(
                DidDocument {
                    namespace: pre.did_url.namespace,
                    id: nym.dest,
                    verkey: nym.verkey,
                    endpoint: endpoint_from_reply(reply),
                    diddoc_content: None,
                },
            ),
            node_response,
            TxnType::GetNym,
        ),
        _ => false,
    }
}

impl ResolveSession {
    /// The legacy endpoint is asked for only while resolving a NYM.
    pub open spec fn wf(&self) -> bool {
        self.phase is AwaitingEndpoint ==> self.txn_type is GetNym
    }

    /// Parses the DID URL and maps it to its read request, which is returned
    /// to be sent; fails exactly when the URL does not parse or maps to no
    /// request.
    pub fn start(did: &str, builder: &RequestBuilder) -> (r: core::result::Result<
        (ResolveSession, PreparedRequest),
        VdrError,
    >)
        ensures
            r is Ok <==> resolvable(did@, *builder),
            r is Ok ==> {
                let (s, req) = r->Ok_0;
                &&& s.wf()
                &&& s.phase is AwaitingReply
                &&& s.txn_type == req.txn_type
                &&& s.builder == *builder
                &&& parse_did_url(did@) == Some(s.did_url@)
                &&& exists|now: i64|
                    #![trigger request_for(s.did_url@, *builder, now)]
                    request_for(s.did_url@, *builder, now) == Some(req@)
            },
            r is Err ==> r->Err_0.kind == VdrErrorKind::Resolver,
    {
        let did_url = match DidUrl::from_str(did) {
            Ok(u) => u,
            Err(e) => {
                return Err(e);
            },
        };
        let request = match build_request(&did_url, builder) {
            Ok(q) => q,
            Err(e) => {
                return Err(e);
            },
        };
        let s = ResolveSession {
            did_url,
            builder: *builder,
            txn_type: request.txn_type,
            phase: ResolvePhase::AwaitingReply,
        };
        Ok((s, request))
    }

    fn metadata(node_response: JsonValue, t: TxnType) -> (r: ContentMetadata)
        ensures
            r.node_response == node_response,
            r.object_type@ == object_type_of(t),
    {
        ContentMetadata { node_response, object_type: object_type_label(t) }
    }

    /// Takes the reply to the last request sent, as `reply_step` and
    /// `endpoint_step` say.
    pub fn on_reply(&mut self, reply: core::result::Result<String, VdrError>) -> (action:
        ResolveAction)
        requires
            old(self).wf(),
        ensures
            final(self).wf(),
            final(self).did_url == old(self).did_url,
            final(self).txn_type == old(self).txn_type,
            final(self).builder == old(self).builder,
            final(self).phase is Finished <==> action is Done,
            old(self).phase is Finished ==> fails_with_message(
                action,
                "Resolution already finished"@,
            ),
            old(self).phase is AwaitingReply ==> reply_step(*old(self), reply, action, *final(self)),
            old(self).phase is AwaitingEndpoint ==> endpoint_step(*old(self), reply, action),
    {
        let mut phase = ResolvePhase::Finished;
        core::mem::swap(&mut phase, &mut self.phase);
        match phase {
            ResolvePhase::Finished => ResolveAction::Done(
                Err(resolver_error("Resolution already finished")),
            ),
            ResolvePhase::AwaitingReply => {
                let text = match reply {
                    Ok(t) => t,
                    Err(e) => {
                        return ResolveAction::Done(Err(e));
                    },
                };
                let data = match parse_ledger_data(text.as_str()) {
                    Ok(d) => d,
                    Err(e) => {
                        return ResolveAction::Done(Err(e));
                    },
                };
                let node_response = match parse_json(text.as_str()) {
                    Some(v) => v,
                    None => {
                        return ResolveAction::Done(
                            Err(resolver_error("Could not parse ledger response")),
                        );
                    },
                };
                match self.txn_type {
                    TxnType::GetNym => {
                        let nym = match parse_nym_data(data) {
                            Ok(n) => n,
                            Err(e) => {
                                return ResolveAction::Done(Err(e));
                            },
                        };
                        if nym.diddoc_content.is_none() {
                            let request = build_legacy_endpoint_request(
                                &self.builder,
                                &self.did_url.id,
                            );
                            self.phase = ResolvePhase::AwaitingEndpoint { nym, node_response };
                            ResolveAction::Send(request)
                        } else {
                            let doc = DidDocument {
                                namespace: self.did_url.namespace.clone(),
                                id: nym.dest,
                                verkey: nym.verkey,
                                endpoint: None,
                                diddoc_content: nym.diddoc_content,
                            };
                            ResolveAction::Done(
                                Ok(
                                    (
                                        Result::DidDocument(doc),
                                        Self::metadata(node_response, TxnType::GetNym),
                                    ),
                                ),
                            )
                        }
                    },
                    t => ResolveAction::Done(
                        Ok((Result::Content(data), Self::metadata(node_response, t))),
                    ),
                }
            },
            ResolvePhase::AwaitingEndpoint { nym, node_response } => {
                let endpoint = match reply {
                    Ok(text) => match parse_ledger_data(text.as_str()) {
                        Ok(data) => match parse_endpoint_data(data) {
                            Ok(e) => Some(e),
                            Err(_) => None,
                        },
                        Err(_) => None,
                    },
                    Err(_) => None,
                };
                let doc = DidDocument {
                    namespace: self.did_url.namespace.clone(),
                    id: nym.dest,
                    verkey: nym.verkey,
                    endpoint,
                    diddoc_content: None,
                };
                ResolveAction::Done(
                    Ok((Result::DidDocument(doc), Self::metadata(node_response, TxnType::GetNym))),
                )
            },
        }
    }
}

/// DID resolver over a pool that answers read requests.
pub struct PoolResolver<T> {
    pool: T,
}

impl<T> PoolResolver<T> {
    pub closed spec fn spec_pool(&self) -> T {
        self.pool
    }

    pub fn new(pool: T) -> (r: PoolResolver<T>)
        ensures
            r.spec_pool() == pool,
    {
        PoolResolver { pool }
    }

    pub fn pool(&self) -> (r: &T)
        ensures
            *r == self.spec_pool(),
    {
        &self.pool
    }
}

/// DID resolver over a pool runner that answers read requests through callbacks.
pub struct PoolRunnerResolver<'a, R> {
    runner: &'a R,
}

impl<'a, R> PoolRunnerResolver<'a, R> {
    pub closed spec fn spec_runner(&self) -> &'a R {
        self.runner
    }

    pub fn new(runner: &'a R) -> (r: PoolRunnerResolver<'a, R>)
        ensures
            r.spec_runner() == runner,
    {
        PoolRunnerResolver { runner }
    }

    pub fn runner(&self) -> (r: &'a R)
        ensures
            r == self.spec_runner(),
    {
        self.runner
    }
}

} // verus!
