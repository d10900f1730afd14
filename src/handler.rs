//! The HTTP front end over the wallet backend: the route table, the backend
//! call each request leads to, and the reply each outcome leads to.
use vstd::prelude::*;
use crate::encoding::{decimal, to_decimal};
use crate::errors::ApplicationError;
use crate::response::{error_reply, error_status, is_failure, ErrorReply, HttpStatus, Reply, Severity, generate_body};

verus! {

/// Bit pattern of the single-precision fee rate 1.0 sat/vB, used where a
/// request names none.
pub const DEFAULT_FEE_RATE_BITS: u32 = 0x3f80_0000;

/// Amount issued or sent where a request names none.
pub const DEFAULT_AMOUNT: u64 = 1;

/// Precision of an issued asset where the request names none.
pub const DEFAULT_PRECISION: u8 = 0;

/// A fee rate in sat/vB, held as the bit pattern of its single-precision value.
#[derive(Clone, Copy, PartialEq, Eq, Structural, Debug)]
pub struct FeeRate {
    pub bits: u32,
}

/// The fee rate a request names, or the default one.
pub open spec fn fee_or_default(f: Option<FeeRate>) -> FeeRate {
    match f {
        Some(f) => f,
        None => FeeRate { bits: DEFAULT_FEE_RATE_BITS },
    }
}

fn resolve_fee_rate(f: Option<FeeRate>) -> (r: FeeRate)
    ensures
        r == fee_or_default(f),
{
    match f {
        Some(f) => f,
        None => FeeRate { bits: DEFAULT_FEE_RATE_BITS },
    }
}

/// The amount a request names, or the default one.
pub open spec fn amount_or_default(a: Option<u64>) -> u64 {
    match a {
        Some(a) => a,
        None => DEFAULT_AMOUNT,
    }
}

/// The three kinds of asset the backend can issue.
#[derive(Clone, Copy, PartialEq, Eq, Structural, Debug)]
pub enum RGBAssetType {
    NIA,
    CFA,
    UDA,
}

/// The two kinds of invoice the backend can produce.
#[derive(Clone, Copy, PartialEq, Eq, Structural, Debug)]
pub enum RGBInvoiceType {
    BLIND,
    WITNESS,
}

/// What the backend needs to issue an asset.
pub struct RGBAsset {
    pub asset_type: RGBAssetType,
    pub ticker: String,
    pub name: String,
    pub details: Option<String>,
    pub precision: u8,
    pub amounts: Vec<u64>,
    pub filename: Option<String>,
}

/// Body of `POST /assets/issue`.
pub struct IssueAssetRequest {
    pub asset_type: RGBAssetType,
    pub ticker: Option<String>,
    pub name: String,
    pub details: Option<String>,
    pub precision: Option<u8>,
    pub amount: Option<u64>,
    pub filename: Option<String>,
    pub recipient: Option<String>,
    pub fee_rate: Option<FeeRate>,
}

/// Body of `POST /assets/invoice`.
pub struct InvoiceAssetRequest {
    pub invoice_type: RGBInvoiceType,
    pub asset_id: Option<String>,
    pub amount: Option<u64>,
    pub duration_seconds: Option<u32>,
}

/// Body of `POST /assets/:id/send`.
pub struct SendAssetsRequest {
    pub recipient: String,
    pub amount: Option<u64>,
    pub fee_rate: Option<FeeRate>,
}

/// Body of `POST /wallet/prepare-issuance`.
pub struct PrepareIssuanceRequest {
    pub fee_rate: Option<FeeRate>,
}

/// Body of `POST /wallet/send`.
pub struct SendBTCRequest {
    pub address: String,
    pub amount: u64,
    pub fee_rate: FeeRate,
}

/// Why a request body could not be read as the route's payload.
pub struct DecodeError {
    pub message: String,
}

/// One operation of the wallet backend, with its arguments.
pub enum Call {
    GetAddress,
    GetBtcBalance,
    ListUnspents,
    CreateUtxos { fee_rate: FeeRate },
    IssueAssetNia(RGBAsset),
    IssueAssetCfa(RGBAsset),
    IssueAssetUda(RGBAsset),
    Send {
        asset_id: String,
        recipient: String,
        transport_endpoints: bool,
        fee_rate: FeeRate,
        amount: u64,
    },
    SendBtc { address: String, amount: u64, fee_rate: FeeRate },
    ListAssets,
    GetAsset { id: String },
    ListTransfers { asset_id: Option<String> },
    BlindReceive { asset_id: Option<String>, amount: Option<u64>, duration_seconds: Option<u32> },
    WitnessReceive { asset_id: Option<String>, amount: Option<u64>, duration_seconds: Option<u32> },
    Refresh { asset_id: Option<String> },
}

/// An incoming request, with its path parameter and its decoded body.
pub enum Request {
    GetAddress,
    GetBalance,
    Unspents,
    Send(Result<SendBTCRequest, DecodeError>),
    PrepareIssuance(Result<PrepareIssuanceRequest, DecodeError>),
    IssueAsset(Result<IssueAssetRequest, DecodeError>),
    ListAssets,
    ListTransfers,
    GetAsset(String),
    SendAssets(String, Result<SendAssetsRequest, DecodeError>),
    Invoice(Result<InvoiceAssetRequest, DecodeError>),
    Refresh,
}

/// What to do next with a request: call the backend, or answer.
pub enum Step {
    Invoke(Call),
    Respond(Reply),
}

/// The body that failed to decode, if any.
pub open spec fn decode_failure(req: Request) -> Option<DecodeError> {
    match req {
        Request::Send(Err(e)) => Some(e),
        Request::PrepareIssuance(Err(e)) => Some(e),
        Request::IssueAsset(Err(e)) => Some(e),
        Request::SendAssets(_, Err(e)) => Some(e),
        Request::Invoice(Err(e)) => Some(e),
        _ => None,
    }
}

/// The answer to a body that failed to decode: 400 with the decoder's text.
pub open spec fn decode_reply(r: Reply, e: DecodeError) -> bool {
    is_failure(r, HttpStatus::BadRequest, e.message@, Severity::Warn, e.message@)
}

/// Whether `a` is the asset that issuing `p` hands to the backend.
pub open spec fn asset_for(p: IssueAssetRequest, a: RGBAsset) -> bool {
    &&& a.asset_type == p.asset_type
    &&& a.ticker@ == (match p.ticker {
        Some(t) => t@,
        None => Seq::<char>::empty(),
    })
    &&& a.name == p.name
    &&& a.details == p.details
    &&& a.precision == (match p.precision {
        Some(x) => x,
        None => DEFAULT_PRECISION,
    })
    &&& a.amounts@ == seq![amount_or_default(p.amount)]
    &&& a.filename == p.filename
}

/// Whether `c` is the issuance operation for `p`: the one that matches its
/// asset type, with the asset built from it.
pub open spec fn issue_call_for(p: IssueAssetRequest, c: Call) -> bool {
    match c {
        Call::IssueAssetNia(a) => p.asset_type == RGBAssetType::NIA && asset_for(p, a),
        Call::IssueAssetCfa(a) => p.asset_type == RGBAssetType::CFA && asset_for(p, a),
        Call::IssueAssetUda(a) => p.asset_type == RGBAssetType::UDA && asset_for(p, a),
        _ => false,
    }
}

/// Whether `c` is the receive operation for `p`: the one that matches its
/// invoice kind, with its arguments passed on unchanged.
pub open spec fn invoice_call_for(p: InvoiceAssetRequest, c: Call) -> bool {
    match c {
        Call::BlindReceive { asset_id, amount, duration_seconds } => p.invoice_type
            == RGBInvoiceType::BLIND && asset_id == p.asset_id && amount == p.amount
            && duration_seconds == p.duration_seconds,
        Call::WitnessReceive { asset_id, amount, duration_seconds } => p.invoice_type
            == RGBInvoiceType::WITNESS && asset_id == p.asset_id && amount == p.amount
            && duration_seconds == p.duration_seconds,
        _ => false,
    }
}

/// Whether `c` is the asset transfer of `amount` of `asset_id` to `recipient`.
pub open spec fn send_call_for(
    c: Call,
    asset_id: String,
    recipient: String,
    fee_rate: FeeRate,
    amount: u64,
) -> bool {
    c == Call::Send { asset_id, recipient, transport_endpoints: true, fee_rate, amount }
}

/// The step a request leads to, when its body decoded.
pub open spec fn planned(req: Request, s: Step) -> bool {
    match req {
        Request::GetAddress => s == Step::Invoke(Call::GetAddress),
        Request::GetBalance => s == Step::Invoke(Call::GetBtcBalance),
        Request::Unspents => s == Step::Invoke(Call::ListUnspents),
        Request::Send(Ok(p)) => s == Step::Invoke(
            Call::SendBtc { address: p.address, amount: p.amount, fee_rate: p.fee_rate },
        ),
        Request::PrepareIssuance(Ok(p)) => s == Step::Invoke(
            Call::CreateUtxos { fee_rate: fee_or_default(p.fee_rate) },
        ),
        Request::IssueAsset(Ok(p)) => s is Invoke && issue_call_for(p, s->Invoke_0),
        Request::ListAssets => s == Step::Invoke(Call::ListAssets),
        Request::ListTransfers => s == Step::Invoke(Call::ListTransfers { asset_id: None }),
        Request::GetAsset(id) => s == Step::Invoke(Call::GetAsset { id }),
        Request::SendAssets(id, Ok(p)) => s is Invoke && send_call_for(
            s->Invoke_0,
            id,
            p.recipient,
            fee_or_default(p.fee_rate),
            amount_or_default(p.amount),
        ),
        Request::Invoice(Ok(p)) => s is Invoke && invoice_call_for(p, s->Invoke_0),
        Request::Refresh => s == Step::Invoke(Call::Refresh { asset_id: None }),
        _ => false,
    }
}

/// The answer to a body that failed to decode.
pub fn reject_body(e: DecodeError) -> (r: Reply)
    ensures
        decode_reply(r, e),
{
    let body = generate_body(HttpStatus::BadRequest, e.message.as_str());
    let log = e.message.clone();
    Reply::Failure(ErrorReply { status: HttpStatus::BadRequest, body, severity: Severity::Warn, log })
}

/// The issuance operation for `p`, chosen by its asset type.
fn issuance_call(p: IssueAssetRequest) -> (r: Call)
    ensures
        issue_call_for(p, r),
{
    let amount = match p.amount {
        Some(a) => a,
        None => DEFAULT_AMOUNT,
    };
    let ticker = match p.ticker {
        Some(t) => t,
        None => String::new(),
    };
    let precision = match p.precision {
        Some(x) => x,
        None => DEFAULT_PRECISION,
    };
    let contract = RGBAsset {
        asset_type: p.asset_type,
        ticker,
        name: p.name,
        details: p.details,
        precision,
        amounts: vec![amount],
        filename: p.filename,
    };
    assert(contract.amounts@ == seq![amount]);
    assert(contract.ticker@ == (match p.ticker { Some(t) => t@, None => Seq::<char>::empty() }));
    match p.asset_type {
        RGBAssetType::NIA => Call::IssueAssetNia(contract),
        RGBAssetType::CFA => Call::IssueAssetCfa(contract),
        RGBAssetType::UDA => Call::IssueAssetUda(contract),
    }
}

/// The receive operation for `p`, chosen by its invoice kind.
fn receive_call(p: InvoiceAssetRequest) -> (r: Call)
    ensures
        invoice_call_for(p, r),
{
    match p.invoice_type {
        RGBInvoiceType::BLIND => Call::BlindReceive {
            asset_id: p.asset_id,
            amount: p.amount,
            duration_seconds: p.duration_seconds,
        },
        RGBInvoiceType::WITNESS => Call::WitnessReceive {
            asset_id: p.asset_id,
            amount: p.amount,
            duration_seconds: p.duration_seconds,
        },
    }
}

/// The transfer of an asset named in the path.
fn transfer_call(id: String, p: SendAssetsRequest) -> (r: Call)
    ensures
        send_call_for(r, id, p.recipient, fee_or_default(p.fee_rate), amount_or_default(p.amount)),
{
    let amount = match p.amount {
        Some(a) => a,
        None => DEFAULT_AMOUNT,
    };
    Call::Send {
        asset_id: id,
        recipient: p.recipient,
        transport_endpoints: true,
        fee_rate: resolve_fee_rate(p.fee_rate),
        amount,
    }
}

/// `POST /assets/issue`: a body that failed to decode is answered with 400
/// and no backend call; otherwise the issuance matching the asset type is called.
pub fn issue_asset(payload: Result<IssueAssetRequest, DecodeError>) -> (r: Step)
    ensures
        payload is Err ==> r is Respond && decode_reply(r->Respond_0, payload->Err_0),
        payload is Ok ==> r is Invoke && issue_call_for(payload->Ok_0, r->Invoke_0),
{
    match payload {
        Ok(p) => Step::Invoke(issuance_call(p)),
        Err(e) => Step::Respond(reject_body(e)),
    }
}

/// `POST /assets/invoice`: a body that failed to decode is answered with 400
/// and no backend call; otherwise the receive operation matching the invoice
/// kind is called.
pub fn invoice(payload: Result<InvoiceAssetRequest, DecodeError>) -> (r: Step)
    ensures
        payload is Err ==> r is Respond && decode_reply(r->Respond_0, payload->Err_0),
        payload is Ok ==> r is Invoke && invoice_call_for(payload->Ok_0, r->Invoke_0),
{
    match payload {
        Ok(p) => Step::Invoke(receive_call(p)),
        Err(e) => Step::Respond(reject_body(e)),
    }
}

/// `POST /assets/:id/send`: a body that failed to decode is answered with 400
/// and no backend call; otherwise the asset named in the path is sent, with
/// the default amount and fee rate where the body names none.
pub fn send_assets(id: String, payload: Result<SendAssetsRequest, DecodeError>) -> (r: Step)
    ensures
        payload is Err ==> r is Respond && decode_reply(r->Respond_0, payload->Err_0),
        payload is Ok ==> r is Invoke && send_call_for(
            r->Invoke_0,
            id,
            payload->Ok_0.recipient,
            fee_or_default(payload->Ok_0.fee_rate),
            amount_or_default(payload->Ok_0.amount),
        ),
{
    match payload {
        Ok(p) => Step::Invoke(transfer_call(id, p)),
        Err(e) => Step::Respond(reject_body(e)),
    }
}

/// Empty marker type that owns the route table and the request flow.
pub struct RGBHandler;

impl RGBHandler {
    /// The first step of a request: a body that failed to decode is answered
    /// at once, without any backend call; every other request leads to the
    /// one backend operation of its route.
    pub fn begin(req: Request) -> (r: Step)
        ensures
            decode_failure(req) is Some ==> r is Respond && decode_reply(
                r->Respond_0,
                decode_failure(req)->Some_0,
            ),
            decode_failure(req) is None ==> planned(req, r),
    {
        match req {
            Request::GetAddress => Step::Invoke(Call::GetAddress),
            Request::GetBalance => Step::Invoke(Call::GetBtcBalance),
            Request::Unspents => Step::Invoke(Call::ListUnspents),
            Request::Send(Ok(p)) => Step::Invoke(
                Call::SendBtc { address: p.address, amount: p.amount, fee_rate: p.fee_rate },
            ),
            Request::PrepareIssuance(Ok(p)) => Step::Invoke(
                Call::CreateUtxos { fee_rate: resolve_fee_rate(p.fee_rate) },
            ),
            Request::IssueAsset(payload) => issue_asset(payload),
            Request::ListAssets => Step::Invoke(Call::ListAssets),
            Request::ListTransfers => Step::Invoke(Call::ListTransfers { asset_id: None }),
            Request::GetAsset(id) => Step::Invoke(Call::GetAsset { id }),
            Request::SendAssets(id, payload) => send_assets(id, payload),
            Request::Invoice(payload) => invoice(payload),
            Request::Refresh => Step::Invoke(Call::Refresh { asset_id: None }),
            Request::Send(Err(e)) => Step::Respond(reject_body(e)),
            Request::PrepareIssuance(Err(e)) => Step::Respond(reject_body(e)),
        }
    }
}

/// The answer to an operation that returns text shown as is (an address, a
/// transaction id).
pub fn reply_text(r: Result<String, ApplicationError>) -> (out: Reply)
    ensures
        r is Ok ==> out is Text && out->Text_0 == r->Ok_0,
        r is Err ==> error_reply(out, r->Err_0),
{
    match r {
        Ok(s) => Reply::Text(s),
        Err(e) => e.into_response(),
    }
}

/// The answer to an operation that returns a number (a balance, a count of
/// outputs created): its decimal text.
pub fn reply_number(r: Result<u64, ApplicationError>) -> (out: Reply)
    ensures
        r is Ok ==> out is Text && out->Text_0@ == decimal(r->Ok_0 as nat),
        r is Err ==> error_reply(out, r->Err_0),
{
    match r {
        Ok(n) => Reply::Text(to_decimal(n)),
        Err(e) => e.into_response(),
    }
}

/// The answer to an operation that returns a structured value, which is sent
/// as JSON.
pub fn reply_json<T>(r: Result<T, ApplicationError>) -> (out: Reply)
    ensures
        r is Ok ==> out is Json,
        r is Err ==> error_reply(out, r->Err_0),
{
    match r {
        Ok(_) => Reply::Json,
        Err(e) => e.into_response(),
    }
}

/// The answer to a refresh: 204 with no body, or the error's answer.
pub fn refresh(r: Result<(), ApplicationError>) -> (out: Reply)
    ensures
        r is Ok ==> out is NoContent,
        r is Err ==> error_reply(out, r->Err_0),
{
    match r {
        Ok(_) => Reply::NoContent,
        Err(e) => e.into_response(),
    }
}

/// The step after an issuance came back. Without a recipient the asset id is
/// the answer; with one, the new asset is sent to it first. A failed issuance
/// is answered with its error.
pub fn after_issue(p: &IssueAssetRequest, issued: Result<String, ApplicationError>) -> (r: Step)
    ensures
        issued is Err ==> r is Respond && error_reply(r->Respond_0, issued->Err_0),
        issued is Ok && p.recipient is None ==> r is Respond && r->Respond_0 is Text
            && r->Respond_0->Text_0 == issued->Ok_0,
        issued is Ok && p.recipient is Some ==> r is Invoke && send_call_for(
            r->Invoke_0,
            issued->Ok_0,
            p.recipient->Some_0,
            fee_or_default(p.fee_rate),
            amount_or_default(p.amount),
        ),
{
    match issued {
        Err(e) => Step::Respond(e.into_response()),
        Ok(asset_id) => match &p.recipient {
            None => Step::Respond(Reply::Text(asset_id)),
            Some(recipient) => {
                let amount = match p.amount {
                    Some(a) => a,
                    None => DEFAULT_AMOUNT,
                };
                Step::Invoke(
                    Call::Send {
                        asset_id,
                        recipient: recipient.clone(),
                        transport_endpoints: true,
                        fee_rate: resolve_fee_rate(p.fee_rate),
                        amount,
                    },
                )
            },
        },
    }
}

/// The answer once the new asset was sent on: its id, or the send's error.
/// The issuance itself stands either way.
pub fn after_issue_send(asset_id: String, sent: Result<String, ApplicationError>) -> (r: Reply)
    ensures
        sent is Ok ==> r is Text && r->Text_0 == asset_id,
        sent is Err ==> error_reply(r, sent->Err_0),
{
    match sent {
        Ok(_) => Reply::Text(asset_id),
        Err(e) => e.into_response(),
    }
}

/// Issuance dispatch is one to one: each asset type leads to its own
/// operation, and the operation tells the asset type back.
pub proof fn lemma_issue_dispatch(p: IssueAssetRequest, q: IssueAssetRequest, c: Call, d: Call)
    requires
        issue_call_for(p, c),
        issue_call_for(q, d),
    ensures
        (c is IssueAssetNia <==> p.asset_type == RGBAssetType::NIA),
        (c is IssueAssetCfa <==> p.asset_type == RGBAssetType::CFA),
        (c is IssueAssetUda <==> p.asset_type == RGBAssetType::UDA),
        (p.asset_type == q.asset_type <==> (c is IssueAssetNia && d is IssueAssetNia) || (
        c is IssueAssetCfa && d is IssueAssetCfa) || (c is IssueAssetUda && d is IssueAssetUda)),
{
}

/// Invoice dispatch is one to one: each invoice kind leads to its own
/// receive operation.
pub proof fn lemma_invoice_dispatch(p: InvoiceAssetRequest, c: Call)
    requires
        invoice_call_for(p, c),
    ensures
        (c is BlindReceive <==> p.invoice_type == RGBInvoiceType::BLIND),
        (c is WitnessReceive <==> p.invoice_type == RGBInvoiceType::WITNESS),
{
}

/// When an issuance with a recipient succeeds and the send that follows
/// fails, the request is answered with the send's error, not with success;
/// nothing undoes the issuance.
pub proof fn lemma_issue_then_failed_send(
    p: IssueAssetRequest,
    asset_id: String,
    step: Step,
    send_error: ApplicationError,
    r: Reply,
)
    requires
        p.recipient is Some,
        step is Invoke && send_call_for(
            step->Invoke_0,
            asset_id,
            p.recipient->Some_0,
            fee_or_default(p.fee_rate),
            amount_or_default(p.amount),
        ),
        error_reply(r, send_error),
    ensures
        r is Failure,
        r.spec_status() == error_status(send_error),
        r.spec_status() != HttpStatus::Success,
        step->Invoke_0 is Send && step->Invoke_0->Send_asset_id == asset_id,
{
}

/// HTTP methods the service routes.
#[derive(Clone, Copy, PartialEq, Eq, Structural, Debug)]
pub enum Method {
    Get,
    Post,
}

/// The handlers requests are routed to.
#[derive(Clone, Copy, PartialEq, Eq, Structural, Debug)]
pub enum Endpoint {
    ListAssets,
    ListTransfers,
    IssueAsset,
    Invoice,
    GetAsset,
    SendAssets,
    Refresh,
    GetAddress,
    Unspents,
    GetBalance,
    PrepareIssuance,
    Send,
}

/// One line of the route table.
pub struct Route {
    pub method: Method,
    pub path: &'static str,
    pub endpoint: Endpoint,
}

/// The route table, as (method, path, handler).
pub open spec fn route_table() -> Seq<(Method, Seq<char>, Endpoint)> {
    seq![
        (Method::Get, "/assets"@, Endpoint::ListAssets),
        (Method::Get, "/assets/transfers"@, Endpoint::ListTransfers),
        (Method::Post, "/assets/issue"@, Endpoint::IssueAsset),
        (Method::Post, "/assets/invoice"@, Endpoint::Invoice),
        (Method::Get, "/assets/:id"@, Endpoint::GetAsset),
        (Method::Post, "/assets/:id/send"@, Endpoint::SendAssets),
        (Method::Post, "/assets/refresh"@, Endpoint::Refresh),
        (Method::Get, "/wallet/address"@, Endpoint::GetAddress),
        (Method::Get, "/wallet/unspents"@, Endpoint::Unspents),
        (Method::Get, "/wallet/balance"@, Endpoint::GetBalance),
        (Method::Post, "/wallet/prepare-issuance"@, Endpoint::PrepareIssuance),
        (Method::Post, "/wallet/send"@, Endpoint::Send),
    ]
}

pub open spec fn route_view(r: Route) -> (Method, Seq<char>, Endpoint) {
    (r.method, r.path@, r.endpoint)
}

fn route(method: Method, path: &'static str, endpoint: Endpoint) -> (r: Route)
    ensures
        route_view(r) == (method, path@, endpoint),
{
    Route { method, path, endpoint }
}

impl RGBHandler {
    /// Every route the service answers, each with its method and handler.
    pub fn routes() -> (r: Vec<Route>)
        ensures
            r@.map_values(|x: Route| route_view(x)) == route_table(),
    {
        let mut r: Vec<Route> = Vec::new();
        r.push(route(Method::Get, "/assets", Endpoint::ListAssets));
        r.push(route(Method::Get, "/assets/transfers", Endpoint::ListTransfers));
        r.push(route(Method::Post, "/assets/issue", Endpoint::IssueAsset));
        r.push(route(Method::Post, "/assets/invoice", Endpoint::Invoice));
        r.push(route(Method::Get, "/assets/:id", Endpoint::GetAsset));
        r.push(route(Method::Post, "/assets/:id/send", Endpoint::SendAssets));
        r.push(route(Method::Post, "/assets/refresh", Endpoint::Refresh));
        r.push(route(Method::Get, "/wallet/address", Endpoint::GetAddress));
        r.push(route(Method::Get, "/wallet/unspents", Endpoint::Unspents));
        r.push(route(Method::Get, "/wallet/balance", Endpoint::GetBalance));
        r.push(route(Method::Post, "/wallet/prepare-issuance", Endpoint::PrepareIssuance));
        r.push(route(Method::Post, "/wallet/send", Endpoint::Send));
        assert(r@.map_values(|x: Route| route_view(x)) =~= route_table());
        r
    }
}

} // verus!
