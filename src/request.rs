use vstd::prelude::*;

use crate::did::{query_value, texts_of, DidUrl, DidUrlView, QueryParameter};
use crate::error::{resolver_error, VdrError, VdrErrorKind};

verus! {

/// The instant that an RFC 3339 datetime denotes, in seconds since the Unix
/// epoch; `None` where the text is not an RFC 3339 datetime.
pub uninterp spec fn rfc3339_seconds_of(s: Seq<char>) -> Option<i64>;

/// One or more ASCII decimal digits.
pub open spec fn all_digits(s: Seq<char>) -> bool {
    s.len() > 0 && forall|i: int| 0 <= i < s.len() ==> '0' <= #[trigger] s[i] <= '9'
}

/// The value of a string of decimal digits.
pub open spec fn digits_value(s: Seq<char>) -> int
    decreases s.len(),
{
    if s.len() == 0 {
        0
    } else {
        digits_value(s.drop_last()) * 10 + ((s.last() as u32) - ('0' as u32))
    }
}

/// The value of a decimal text as `str::parse::<i32>` reads it: an optional
/// `+` or `-`, then one or more digits; `None` for anything else or a value
/// outside `i32`.
pub open spec fn i32_of(s: Seq<char>) -> Option<i32> {
    let signed = s.len() > 0 && (s[0] == '+' || s[0] == '-');
    let digits = if signed {
        s.subrange(1, s.len() as int)
    } else {
        s
    };
    let v = if signed && s[0] == '-' {
        -digits_value(digits)
    } else {
        digits_value(digits)
    };
    if all_digits(digits) && i32::MIN <= v <= i32::MAX {
        Some(v as i32)
    } else {
        None
    }
}

/// Relies on `time::OffsetDateTime::parse` with the `Rfc3339` format and on
/// `unix_timestamp`: the Unix seconds of the parsed instant, or `None` when
/// parsing fails; the answer depends on the text alone.
#[verifier::external_body]
fn parse_rfc3339(s: &str) -> (r: Option<i64>)
    ensures
        r == rfc3339_seconds_of(s@),
{
    match time::OffsetDateTime::parse(s, &time::format_description::well_known::Rfc3339) {
        Ok(d) => Some(d.unix_timestamp()),
        Err(_) => None,
    }
}

/// Relies on `time::OffsetDateTime::now_utc` and `unix_timestamp`: the
/// current wall-clock time in Unix seconds. Nothing is known of the value.
#[verifier::external_body]
fn now_unix() -> (r: i64) {
    time::OffsetDateTime::now_utc().unix_timestamp()
}

/// Relies on `str::parse::<i32>`: the decimal value, or `None` when the text
/// is not an `i32`; the answer depends on the text alone.
#[verifier::external_body]
fn parse_i32(s: &str) -> (r: Option<i32>)
    ensures
        r == i32_of(s@),
{
    s.parse::<i32>().ok()
}

/// Protocol versions of the ledger's nodes.
#[derive(Clone, Copy, Debug, PartialEq, Eq, Structural)]
pub enum ProtocolVersion {
    Node1_3,
    Node1_4,
}

/// Builds read requests for one protocol version.
#[derive(Clone, Copy, Debug, PartialEq, Eq, Structural)]
pub struct RequestBuilder {
    pub protocol_version: ProtocolVersion,
}

impl RequestBuilder {
    pub fn new(protocol_version: ProtocolVersion) -> (r: RequestBuilder)
        ensures
            r.protocol_version == protocol_version,
    {
        RequestBuilder { protocol_version }
    }
}

/// The ledger read transactions.
#[derive(Clone, Copy, Debug, PartialEq, Eq, Structural)]
pub enum TxnType {
    GetNym,
    GetAttrib,
    GetSchema,
    GetCredDef,
    GetRevocRegDef,
    GetRevocReg,
    GetRevocRegDelta,
}

pub open spec fn txn_code_of(t: TxnType) -> Seq<char> {
    match t {
        TxnType::GetAttrib => "104"@,
        TxnType::GetNym => "105"@,
        TxnType::GetSchema => "107"@,
        TxnType::GetCredDef => "108"@,
        TxnType::GetRevocRegDef => "115"@,
        TxnType::GetRevocReg => "116"@,
        TxnType::GetRevocRegDelta => "117"@,
    }
}

impl TxnType {
    /// The transaction code on the wire.
    pub fn code(&self) -> (r: &'static str)
        ensures
            r@ == txn_code_of(*self),
    {
        match self {
            TxnType::GetAttrib => "104",
            TxnType::GetNym => "105",
            TxnType::GetSchema => "107",
            TxnType::GetCredDef => "108",
            TxnType::GetRevocRegDef => "115",
            TxnType::GetRevocReg => "116",
            TxnType::GetRevocRegDelta => "117",
        }
    }
}

/// The operation of a read request.
#[derive(Clone, Debug)]
pub enum Operation {
    GetNym { dest: String, seq_no: Option<i32>, timestamp: Option<u64> },
    GetAttrib { dest: String, raw: String },
    GetSchema { dest: String, name: String, version: String },
    GetCredDef { id: String },
    GetRevocRegDef { id: String },
    GetRevocReg { id: String, timestamp: i64 },
    GetRevocRegDelta { id: String, from: Option<i64>, to: i64 },
}

pub enum OperationView {
    GetNym { dest: Seq<char>, seq_no: Option<i32>, timestamp: Option<u64> },
    GetAttrib { dest: Seq<char>, raw: Seq<char> },
    GetSchema { dest: Seq<char>, name: Seq<char>, version: Seq<char> },
    GetCredDef { id: Seq<char> },
    GetRevocRegDef { id: Seq<char> },
    GetRevocReg { id: Seq<char>, timestamp: i64 },
    GetRevocRegDelta { id: Seq<char>, from: Option<i64>, to: i64 },
}

impl View for Operation {
    type V = OperationView;

    open spec fn view(&self) -> OperationView {
        match self {
            Operation::GetNym { dest, seq_no, timestamp } => OperationView::GetNym {
                dest: dest@,
                seq_no: *seq_no,
                timestamp: *timestamp,
            },
            Operation::GetAttrib { dest, raw } => OperationView::GetAttrib { dest: dest@, raw: raw@ },
            Operation::GetSchema { dest, name, version } => OperationView::GetSchema {
                dest: dest@,
                name: name@,
                version: version@,
            },
            Operation::GetCredDef { id } => OperationView::GetCredDef { id: id@ },
            Operation::GetRevocRegDef { id } => OperationView::GetRevocRegDef { id: id@ },
            Operation::GetRevocReg { id, timestamp } => OperationView::GetRevocReg {
                id: id@,
                timestamp: *timestamp,
            },
            Operation::GetRevocRegDelta { id, from, to } => OperationView::GetRevocRegDelta {
                id: id@,
                from: *from,
                to: *to,
            },
        }
    }
}

pub open spec fn txn_type_of(op: OperationView) -> TxnType {
    match op {
        OperationView::GetNym { .. } => TxnType::GetNym,
        OperationView::GetAttrib { .. } => TxnType::GetAttrib,
        OperationView::GetSchema { .. } => TxnType::GetSchema,
        OperationView::GetCredDef { .. } => TxnType::GetCredDef,
        OperationView::GetRevocRegDef { .. } => TxnType::GetRevocRegDef,
        OperationView::GetRevocReg { .. } => TxnType::GetRevocReg,
        OperationView::GetRevocRegDelta { .. } => TxnType::GetRevocRegDelta,
    }
}

/// A read request ready for the pool.
#[derive(Clone, Debug)]
pub struct PreparedRequest {
    pub txn_type: TxnType,
    pub protocol_version: ProtocolVersion,
    pub operation: Operation,
}

pub struct PreparedRequestView {
    pub txn_type: TxnType,
    pub protocol_version: ProtocolVersion,
    pub operation: OperationView,
}

impl View for PreparedRequest {
    type V = PreparedRequestView;

    open spec fn view(&self) -> PreparedRequestView {
        PreparedRequestView {
            txn_type: self.txn_type,
            protocol_version: self.protocol_version,
            operation: self.operation@,
        }
    }
}

pub open spec fn prepared(b: RequestBuilder, op: OperationView) -> PreparedRequestView {
    PreparedRequestView { txn_type: txn_type_of(op), protocol_version: b.protocol_version, operation: op }
}

fn prepare(b: &RequestBuilder, op: Operation) -> (r: PreparedRequest)
    ensures
        r@ == prepared(*b, op@),
{
    let txn_type = match &op {
        Operation::GetNym { .. } => TxnType::GetNym,
        Operation::GetAttrib { .. } => TxnType::GetAttrib,
        Operation::GetSchema { .. } => TxnType::GetSchema,
        Operation::GetCredDef { .. } => TxnType::GetCredDef,
        Operation::GetRevocRegDef { .. } => TxnType::GetRevocRegDef,
        Operation::GetRevocReg { .. } => TxnType::GetRevocReg,
        Operation::GetRevocRegDelta { .. } => TxnType::GetRevocRegDelta,
    };
    PreparedRequest { txn_type, protocol_version: b.protocol_version, operation: op }
}

/// GET_ATTRIB request for the raw attribute `raw` of DID `dest`.
pub fn build_get_attrib_request(b: &RequestBuilder, dest: &String, raw: &String) -> (r:
    PreparedRequest)
    ensures
        r@ == prepared(*b, OperationView::GetAttrib { dest: dest@, raw: raw@ }),
{
    prepare(b, Operation::GetAttrib { dest: dest.clone(), raw: raw.clone() })
}

/// GET_ATTRIB request for `endpoint`, the reserved attribute under which
/// older ledgers keep a DID's service endpoint.
pub fn build_legacy_endpoint_request(b: &RequestBuilder, dest: &String) -> (r: PreparedRequest)
    ensures
        r@ == prepared(*b, OperationView::GetAttrib { dest: dest@, raw: "endpoint"@ }),
{
    build_get_attrib_request(b, dest, &String::from_str("endpoint"))
}

/// A revocation registry as named in a DID URL path.
#[derive(Clone, Debug)]
pub struct RevRegRef {
    pub schema_seq_no: String,
    pub claim_def_name: String,
    pub tag: String,
}

/// The ledger object that a DID URL path names.
#[derive(Clone, Debug)]
pub enum LedgerObject {
    Schema { name: String, version: String },
    ClaimDef { schema_seq_no: String, name: String },
    RevRegDef(RevRegRef),
    RevRegEntry(RevRegRef),
    RevRegDelta(RevRegRef),
}

pub enum LedgerObjectView {
    Schema { name: Seq<char>, version: Seq<char> },
    ClaimDef { schema_seq_no: Seq<char>, name: Seq<char> },
    RevRegDef(Seq<char>, Seq<char>, Seq<char>),
    RevRegEntry(Seq<char>, Seq<char>, Seq<char>),
    RevRegDelta(Seq<char>, Seq<char>, Seq<char>),
}

impl View for LedgerObject {
    type V = LedgerObjectView;

    open spec fn view(&self) -> LedgerObjectView {
        match self {
            LedgerObject::Schema { name, version } => LedgerObjectView::Schema {
                name: name@,
                version: version@,
            },
            LedgerObject::ClaimDef { schema_seq_no, name } => LedgerObjectView::ClaimDef {
                schema_seq_no: schema_seq_no@,
                name: name@,
            },
            LedgerObject::RevRegDef(r) => LedgerObjectView::RevRegDef(
                r.schema_seq_no@,
                r.claim_def_name@,
                r.tag@,
            ),
            LedgerObject::RevRegEntry(r) => LedgerObjectView::RevRegEntry(
                r.schema_seq_no@,
                r.claim_def_name@,
                r.tag@,
            ),
            LedgerObject::RevRegDelta(r) => LedgerObjectView::RevRegDelta(
                r.schema_seq_no@,
                r.claim_def_name@,
                r.tag@,
            ),
        }
    }
}

/// A sequence number as written in a path: one or more decimal digits.
pub open spec fn is_seq_no(t: Seq<char>) -> bool {
    t.len() > 0 && forall|i: int| 0 <= i < t.len() ==> '0' <= #[trigger] t[i] <= '9'
}

/// The object named by the path segments
/// `anoncreds/v0/<KIND>/<fields>`, or `None` when they name none.
pub open spec fn ledger_object_of(p: Seq<Seq<char>>) -> Option<LedgerObjectView> {
    if p.len() < 3 || p[0] != "anoncreds"@ || p[1] != "v0"@ {
        None
    } else if p[2] == "SCHEMA"@ && p.len() == 5 {
        Some(LedgerObjectView::Schema { name: p[3], version: p[4] })
    } else if p[2] == "CLAIM_DEF"@ && p.len() == 5 && is_seq_no(p[3]) {
        Some(LedgerObjectView::ClaimDef { schema_seq_no: p[3], name: p[4] })
    } else if p[2] == "REV_REG_DEF"@ && p.len() == 6 && is_seq_no(p[3]) {
        Some(LedgerObjectView::RevRegDef(p[3], p[4], p[5]))
    } else if p[2] == "REV_REG_ENTRY"@ && p.len() == 6 && is_seq_no(p[3]) {
        Some(LedgerObjectView::RevRegEntry(p[3], p[4], p[5]))
    } else if p[2] == "REV_REG_DELTA"@ && p.len() == 6 && is_seq_no(p[3]) {
        Some(LedgerObjectView::RevRegDelta(p[3], p[4], p[5]))
    } else {
        None
    }
}

fn check_seq_no(t: &String) -> (r: bool)
    ensures
        r == is_seq_no(t@),
{
    let s = t.as_str();
    let n = s.unicode_len();
    if n == 0 {
        return false;
    }
    let mut i: usize = 0;
    while i < n
        invariant
            i <= n == t@.len(),
            s@ == t@,
            forall|j: int| 0 <= j < i ==> '0' <= #[trigger] t@[j] <= '9',
        decreases n - i,
    {
        let c = s.get_char(i);
        if c < '0' || c > '9' {
            return false;
        }
        i = i + 1;
    }
    true
}

fn rev_reg_ref(segs: &Vec<String>) -> (r: RevRegRef)
    requires
        segs.len() == 6,
    ensures
        r.schema_seq_no@ == segs[3]@,
        r.claim_def_name@ == segs[4]@,
        r.tag@ == segs[5]@,
{
    RevRegRef {
        schema_seq_no: segs[3].clone(),
        claim_def_name: segs[4].clone(),
        tag: segs[5].clone(),
    }
}

impl LedgerObject {
    /// Reads the object named by decoded path segments; fails with a
    /// `Resolver` error exactly when `ledger_object_of` names none.
    pub fn from_segments(segs: &Vec<String>) -> (r: Result<LedgerObject, VdrError>)
        ensures
            match r {
                Ok(o) => ledger_object_of(texts_of(segs@)) == Some(o@),
                Err(e) => ledger_object_of(texts_of(segs@)) is None && e.kind
                    == VdrErrorKind::Resolver && e.message@ == "Invalid DID URL: unknown path"@,
            },
    {
        let ghost p = texts_of(segs@);
        let n = segs.len();
        if n < 3 || segs[0] != String::from_str("anoncreds") || segs[1] != String::from_str("v0") {
            return Err(resolver_error("Invalid DID URL: unknown path"));
        }
        assert(p[0] == segs[0]@ && p[1] == segs[1]@ && p[2] == segs[2]@);
        let kind = &segs[2];
        if *kind == String::from_str("SCHEMA") && n == 5 {
            assert(p[3] == segs[3]@ && p[4] == segs[4]@);
            return Ok(LedgerObject::Schema { name: segs[3].clone(), version: segs[4].clone() });
        }
        if n < 5 || !check_seq_no(&segs[3]) {
            return Err(resolver_error("Invalid DID URL: unknown path"));
        }
        assert(p[3] == segs[3]@ && p[4] == segs[4]@);
        if *kind == String::from_str("CLAIM_DEF") && n == 5 {
            return Ok(LedgerObject::ClaimDef { schema_seq_no: segs[3].clone(), name: segs[4].clone() });
        }
        if n != 6 {
            return Err(resolver_error("Invalid DID URL: unknown path"));
        }
        assert(p[5] == segs[5]@);
        if *kind == String::from_str("REV_REG_DEF") {
            Ok(LedgerObject::RevRegDef(rev_reg_ref(segs)))
        } else if *kind == String::from_str("REV_REG_ENTRY") {
            Ok(LedgerObject::RevRegEntry(rev_reg_ref(segs)))
        } else if *kind == String::from_str("REV_REG_DELTA") {
            Ok(LedgerObject::RevRegDelta(rev_reg_ref(segs)))
        } else {
            Err(resolver_error("Invalid DID URL: unknown path"))
        }
    }
}

/// `<did>:3:CL:<schema_seq_no>:<name>`
pub open spec fn cred_def_id(did: Seq<char>, seq_no: Seq<char>, name: Seq<char>) -> Seq<char> {
    did + ":3:CL:"@ + seq_no + ":"@ + name
}

/// `<did>:4:<did>:3:CL:<schema_seq_no>:<claim_def_name>:CL_ACCUM:<tag>`
pub open spec fn rev_reg_id(did: Seq<char>, seq_no: Seq<char>, cd_name: Seq<char>, tag: Seq<char>) -> Seq<
    char,
> {
    did + ":4:"@ + cred_def_id(did, seq_no, cd_name) + ":CL_ACCUM:"@ + tag
}

fn make_cred_def_id(did: &String, seq_no: &String, name: &String) -> (r: String)
    ensures
        r@ == cred_def_id(did@, seq_no@, name@),
{
    let mut s = did.clone();
    s.append(":3:CL:");
    s.append(seq_no.as_str());
    s.append(":");
    s.append(name.as_str());
    s
}

fn make_rev_reg_id(did: &String, r: &RevRegRef) -> (id: String)
    ensures
        id@ == rev_reg_id(did@, r.schema_seq_no@, r.claim_def_name@, r.tag@),
{
    let cd = make_cred_def_id(did, &r.schema_seq_no, &r.claim_def_name);
    let mut s = did.clone();
    s.append(":4:");
    s.append(cd.as_str());
    s.append(":CL_ACCUM:");
    s.append(r.tag.as_str());
    assert(s@ =~= rev_reg_id(did@, r.schema_seq_no@, r.claim_def_name@, r.tag@));
    s
}

/// A datetime of the query as read: not given, given but not RFC 3339, or
/// the Unix seconds it denotes.
#[derive(Clone, Copy, Debug, PartialEq, Eq, Structural)]
pub enum TimeArg {
    Absent,
    Invalid,
    At(i64),
}

/// The values of the query that the mapping reads, already parsed.
#[derive(Clone, Copy, Debug, PartialEq, Eq, Structural)]
pub struct RequestTimes {
    /// `versionId` as an integer, when given and readable.
    pub version_id: Option<i32>,
    pub version_time: TimeArg,
    pub from: TimeArg,
    pub to: TimeArg,
}

pub open spec fn time_arg_of(v: Option<Seq<char>>) -> TimeArg {
    match v {
        None => TimeArg::Absent,
        Some(t) => match rfc3339_seconds_of(t) {
            Some(x) => TimeArg::At(x),
            None => TimeArg::Invalid,
        },
    }
}

/// What the query of `d` gives the mapping.
pub open spec fn request_times_of(d: DidUrlView) -> RequestTimes {
    RequestTimes {
        version_id: match query_value(d.query, QueryParameter::VersionId) {
            Some(t) => i32_of(t),
            None => None,
        },
        version_time: time_arg_of(query_value(d.query, QueryParameter::VersionTime)),
        from: time_arg_of(query_value(d.query, QueryParameter::From)),
        to: time_arg_of(query_value(d.query, QueryParameter::To)),
    }
}

fn time_arg(v: Option<&String>) -> (r: TimeArg)
    ensures
        r == time_arg_of(
            match v {
                Some(t) => Some(t@),
                None => None,
            },
        ),
{
    match v {
        None => TimeArg::Absent,
        Some(t) => match parse_rfc3339(t.as_str()) {
            Some(x) => TimeArg::At(x),
            None => TimeArg::Invalid,
        },
    }
}

/// Reads and parses the query values that the mapping needs.
pub fn request_times(did: &DidUrl) -> (r: RequestTimes)
    ensures
        r == request_times_of(did@),
{
    let version_id = match did.query_get(QueryParameter::VersionId) {
        Some(t) => parse_i32(t.as_str()),
        None => None,
    };
    RequestTimes {
        version_id,
        version_time: time_arg(did.query_get(QueryParameter::VersionTime)),
        from: time_arg(did.query_get(QueryParameter::From)),
        to: time_arg(did.query_get(QueryParameter::To)),
    }
}

/// The bits of an `i64` read as a `u64`.
pub open spec fn as_unsigned(x: i64) -> u64 {
    if x >= 0 {
        x as u64
    } else {
        (x + 0x1_0000_0000_0000_0000) as u64
    }
}

fn to_unsigned(x: i64) -> (r: u64)
    ensures
        r == as_unsigned(x),
{
    if x >= 0 {
        x as u64
    } else {
        ((x as i128) + 0x1_0000_0000_0000_0000i128) as u64
    }
}

/// A datetime that defaults to `now` when absent; `None` when it does not parse.
pub open spec fn or_now(t: TimeArg, now: i64) -> Option<i64> {
    match t {
        TimeArg::Absent => Some(now),
        TimeArg::At(x) => Some(x),
        TimeArg::Invalid => None,
    }
}

/// An optional datetime: `Some(None)` when absent, `None` when it does not parse.
pub open spec fn optional_time(t: TimeArg) -> Option<Option<i64>> {
    match t {
        TimeArg::Absent => Some(None),
        TimeArg::At(x) => Some(Some(x)),
        TimeArg::Invalid => None,
    }
}

pub open spec fn delta_op(id: Seq<char>, t: RequestTimes, now: i64) -> Option<OperationView> {
    match (optional_time(t.from), or_now(t.to, now)) {
        (Some(from), Some(to)) => Some(OperationView::GetRevocRegDelta { id: id, from: from, to: to }),
        _ => None,
    }
}

/// The read operation for DID URL `d`, with the query's values `t` and the
/// time `now` for a datetime that is not given; `None` where the path names
/// no ledger object or a datetime that the chosen read uses does not parse.
pub open spec fn operation_for(d: DidUrlView, t: RequestTimes, now: i64) -> Option<OperationView> {
    match d.path {
        None => match optional_time(t.version_time) {
            Some(ts) => Some(
                OperationView::GetNym {
                    dest: d.id,
                    seq_no: t.version_id,
                    timestamp: match ts {
                        Some(x) => Some(as_unsigned(x)),
                        None => None,
                    },
                },
            ),
            None => None,
        },
        Some(p) => match ledger_object_of(p) {
            None => None,
            Some(LedgerObjectView::Schema { name, version }) => Some(
                OperationView::GetSchema { dest: d.id, name: name, version: version },
            ),
            Some(LedgerObjectView::ClaimDef { schema_seq_no, name }) => Some(
                OperationView::GetCredDef { id: cred_def_id(d.id, schema_seq_no, name) },
            ),
            Some(LedgerObjectView::RevRegDef(s, c, g)) => Some(
                OperationView::GetRevocRegDef { id: rev_reg_id(d.id, s, c, g) },
            ),
            Some(LedgerObjectView::RevRegEntry(s, c, g)) => if t.from is Absent && t.to is Absent {
                match or_now(t.version_time, now) {
                    Some(ts) => Some(
                        OperationView::GetRevocReg { id: rev_reg_id(d.id, s, c, g), timestamp: ts },
                    ),
                    None => None,
                }
            } else {
                delta_op(rev_reg_id(d.id, s, c, g), t, now)
            },
            Some(LedgerObjectView::RevRegDelta(s, c, g)) => delta_op(
                rev_reg_id(d.id, s, c, g),
                t,
                now,
            ),
        },
    }
}

/// The text given for `k` in the query, or nothing.
pub open spec fn query_text(d: DidUrlView, k: QueryParameter) -> Seq<char> {
    match query_value(d.query, k) {
        Some(v) => v,
        None => Seq::empty(),
    }
}

pub open spec fn datetime_message(d: DidUrlView, k: QueryParameter) -> Seq<char> {
    "Could not parse datetime "@ + query_text(d, k)
}

/// The message of a delta read that fails: `from` is read first, then `to`.
pub open spec fn delta_message(d: DidUrlView, t: RequestTimes) -> Seq<char> {
    if t.from is Invalid {
        datetime_message(d, QueryParameter::From)
    } else {
        datetime_message(d, QueryParameter::To)
    }
}

/// The message of the error where `operation_for` has no value.
pub open spec fn mapping_message(d: DidUrlView, t: RequestTimes) -> Seq<char> {
    match d.path {
        None => datetime_message(d, QueryParameter::VersionTime),
        Some(p) => match ledger_object_of(p) {
            None => "Invalid DID URL: unknown path"@,
            Some(LedgerObjectView::RevRegEntry(_, _, _)) => if t.from is Absent && t.to is Absent {
                datetime_message(d, QueryParameter::VersionTime)
            } else {
                delta_message(d, t)
            },
            Some(_) => delta_message(d, t),
        },
    }
}

fn datetime_error(did: &DidUrl, k: QueryParameter) -> (r: VdrError)
    ensures
        r.kind == VdrErrorKind::Resolver,
        r.message@ == datetime_message(did@, k),
{
    let mut message = String::from_str("Could not parse datetime ");
    match did.query_get(k) {
        Some(text) => message.append(text.as_str()),
        None => {
            assert(message@ =~= message@ + Seq::<char>::empty());
        },
    }
    VdrError { kind: VdrErrorKind::Resolver, message }
}

fn delta_request(did: &DidUrl, b: &RequestBuilder, id: String, t: RequestTimes, now: i64) -> (r:
    Result<PreparedRequest, VdrError>)
    ensures
        match r {
            Ok(req) => delta_op(id@, t, now) matches Some(op) && req@ == prepared(*b, op),
            Err(e) => delta_op(id@, t, now) is None && e.kind == VdrErrorKind::Resolver
                && e.message@ == delta_message(did@, t),
        },
{
    let from = match t.from {
        TimeArg::Absent => None,
        TimeArg::At(x) => Some(x),
        TimeArg::Invalid => {
            return Err(datetime_error(did, QueryParameter::From));
        },
    };
    let to = match t.to {
        TimeArg::Absent => now,
        TimeArg::At(x) => x,
        TimeArg::Invalid => {
            return Err(datetime_error(did, QueryParameter::To));
        },
    };
    Ok(prepare(b, Operation::GetRevocRegDelta { id, from, to }))
}

/// Maps a DID URL to its read request, given the parsed query values `t`
/// and the time `now` that stands in for a missing `versionTime` or `to`.
/// It fails where the path names no ledger object, or where a datetime that
/// the chosen read uses is given but does not parse.
pub fn map_request(did: &DidUrl, builder: &RequestBuilder, t: RequestTimes, now: i64) -> (r: Result<
    PreparedRequest,
    VdrError,
>)
    ensures
        match r {
            Ok(req) => operation_for(did@, t, now) matches Some(op) && req@ == prepared(
                *builder,
                op,
            ),
            Err(e) => operation_for(did@, t, now) is None && e.kind == VdrErrorKind::Resolver
                && e.message@ == mapping_message(did@, t),
        },
{
    match &did.path {
        None => {
            let timestamp = match t.version_time {
                TimeArg::Absent => None,
                TimeArg::At(x) => Some(to_unsigned(x)),
                TimeArg::Invalid => {
                    return Err(datetime_error(did, QueryParameter::VersionTime));
                },
            };
            Ok(
                prepare(
                    builder,
                    Operation::GetNym { dest: did.id.clone(), seq_no: t.version_id, timestamp },
                ),
            )
        },
        Some(segs) => {
            let obj = match LedgerObject::from_segments(segs) {
                Ok(o) => o,
                Err(e) => {
                    return Err(e);
                },
            };
            match obj {
                LedgerObject::Schema { name, version } => Ok(
                    prepare(builder, Operation::GetSchema { dest: did.id.clone(), name, version }),
                ),
                LedgerObject::ClaimDef { schema_seq_no, name } => Ok(
                    prepare(
                        builder,
                        Operation::GetCredDef {
                            id: make_cred_def_id(&did.id, &schema_seq_no, &name),
                        },
                    ),
                ),
                LedgerObject::RevRegDef(r) => Ok(
                    prepare(builder, Operation::GetRevocRegDef { id: make_rev_reg_id(&did.id, &r) }),
                ),
                LedgerObject::RevRegEntry(r) => {
                    let id = make_rev_reg_id(&did.id, &r);
                    if t.from == TimeArg::Absent && t.to == TimeArg::Absent {
                        let timestamp = match t.version_time {
                            TimeArg::Absent => now,
                            TimeArg::At(x) => x,
                            TimeArg::Invalid => {
                                return Err(datetime_error(did, QueryParameter::VersionTime));
                            },
                        };
                        Ok(prepare(builder, Operation::GetRevocReg { id, timestamp }))
                    } else {
                        delta_request(did, builder, id, t, now)
                    }
                },
                LedgerObject::RevRegDelta(r) => {
                    let id = make_rev_reg_id(&did.id, &r);
                    delta_request(did, builder, id, t, now)
                },
            }
        },
    }
}

/// The request for `did`, with the query read and `now` standing in for a
/// missing `versionTime` or `to`.
pub open spec fn request_for(d: DidUrlView, b: RequestBuilder, now: i64) -> Option<
    PreparedRequestView,
> {
    match operation_for(d, request_times_of(d), now) {
        Some(op) => Some(prepared(b, op)),
        None => None,
    }
}

/// Maps a DID URL to its read request at time `now`.
pub fn build_request_at(did: &DidUrl, builder: &RequestBuilder, now: i64) -> (r: Result<
    PreparedRequest,
    VdrError,
>)
    ensures
        match r {
            Ok(req) => request_for(did@, *builder, now) == Some(req@),
            Err(e) => request_for(did@, *builder, now) is None && e.kind == VdrErrorKind::Resolver
                && e.message@ == mapping_message(did@, request_times_of(did@)),
        },
{
    let t = request_times(did);
    map_request(did, builder, t, now)
}

/// Maps a DID URL to its read request, reading the clock for a missing
/// `versionTime` or `to`.
pub fn build_request(did: &DidUrl, builder: &RequestBuilder) -> (r: Result<
    PreparedRequest,
    VdrError,
>)
    ensures
        exists|now: i64|
            #![trigger request_for(did@, *builder, now)]
            match r {
                Ok(req) => request_for(did@, *builder, now) == Some(req@),
                Err(e) => request_for(did@, *builder, now) is None && e.kind
                    == VdrErrorKind::Resolver && e.message@ == mapping_message(
                    did@,
                    request_times_of(did@),
                ),
            },
        r is Ok <==> request_for(did@, *builder, 0) is Some,
{
    let now = now_unix();
    proof {
        lemma_defined_whatever_the_time(did@, *builder, now, 0);
    }
    build_request_at(did, builder, now)
}

/// Whether a DID URL maps to a request does not depend on the time that
/// stands in for a missing datetime.
pub proof fn lemma_defined_whatever_the_time(d: DidUrlView, b: RequestBuilder, n1: i64, n2: i64)
    ensures
        request_for(d, b, n1) is Some <==> request_for(d, b, n2) is Some,
{
}

/// The mapping is a function of the DID URL, the builder and the time that
/// stands in for a missing datetime: the same inputs give the same request.
pub proof fn lemma_mapping_is_deterministic(
    d: DidUrlView,
    b: RequestBuilder,
    now: i64,
    r1: PreparedRequestView,
    r2: PreparedRequestView,
)
    requires
        request_for(d, b, now) == Some(r1),
        request_for(d, b, now) == Some(r2),
    ensures
        r1 == r2,
{
}

/// Without an explicit `to`, a delta read ends at `now`; without an explicit
/// `versionTime`, an entry read is taken at `now`.
pub proof fn lemma_missing_time_is_now(d: DidUrlView, t: RequestTimes, now: i64)
    ensures
        t.to is Absent ==> match operation_for(d, t, now) {
            Some(OperationView::GetRevocRegDelta { to, .. }) => to == now,
            _ => true,
        },
        t.version_time is Absent ==> match operation_for(d, t, now) {
            Some(OperationView::GetRevocReg { timestamp, .. }) => timestamp == now,
            _ => true,
        },
{
}

} // verus!
