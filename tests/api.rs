use rgb_api::encoding::to_decimal;
use rgb_api::errors::{ApplicationError, ConfigError, RGBError, WebServerError};
use rgb_api::handler::{
    after_issue, after_issue_send, invoice, issue_asset, send_assets, refresh, reply_json, reply_number, reply_text, Call,
    DecodeError, Endpoint, FeeRate, InvoiceAssetRequest, IssueAssetRequest, Method,
    PrepareIssuanceRequest, RGBAssetType, RGBHandler, RGBInvoiceType, Request, SendAssetsRequest,
    SendBTCRequest, Step, DEFAULT_FEE_RATE_BITS,
};
use rgb_api::response::{generate_body, HttpStatus, Reply, Severity, INTERNAL_SERVER_ERROR_MSG};

fn issue_request(asset_type: RGBAssetType, recipient: Option<&str>) -> IssueAssetRequest {
    IssueAssetRequest {
        asset_type,
        ticker: None,
        name: "Token".to_string(),
        details: None,
        precision: None,
        amount: None,
        filename: None,
        recipient: recipient.map(|r| r.to_string()),
        fee_rate: None,
    }
}

fn invoice_request(invoice_type: RGBInvoiceType) -> InvoiceAssetRequest {
    InvoiceAssetRequest {
        invoice_type,
        asset_id: Some("rgb:asset".to_string()),
        amount: Some(7),
        duration_seconds: Some(3600),
    }
}

fn masked_body() -> String {
    format!("{{\"status\":\"500\",\"reason\":\"{}\"}}", INTERNAL_SERVER_ERROR_MSG)
}

fn failure(r: &Reply) -> (u16, String, Severity) {
    match r {
        Reply::Failure(e) => (e.status.code(), e.body.clone(), e.severity),
        _ => panic!("expected a failure"),
    }
}

fn text(r: &Reply) -> String {
    match r {
        Reply::Text(s) => s.clone(),
        _ => panic!("expected a text reply"),
    }
}

fn decode_error() -> DecodeError {
    DecodeError { message: "expected value at line 1 column 1".to_string() }
}

#[test]
fn balance_is_answered_as_decimal_text() {
    let r = reply_number(Ok(12345));
    assert_eq!(r.status().code(), 200);
    assert_eq!(text(&r), "12345");
}

#[test]
fn decimal_edges() {
    assert_eq!(to_decimal(0), "0");
    assert_eq!(to_decimal(10), "10");
    assert_eq!(to_decimal(u64::MAX), u64::MAX.to_string());
}

#[test]
fn text_operations_answer_with_the_text() {
    let r = reply_text(Ok("bcrt1qaddress".to_string()));
    assert_eq!(r.status(), HttpStatus::Success);
    assert_eq!(text(&r), "bcrt1qaddress");
}

#[test]
fn structured_values_answer_as_json() {
    let r = reply_json(Ok(vec![1u8, 2, 3]));
    assert!(matches!(r, Reply::Json));
    assert_eq!(r.status().code(), 200);
}

#[test]
fn get_routes_lead_to_their_operations() {
    assert!(matches!(RGBHandler::begin(Request::GetAddress), Step::Invoke(Call::GetAddress)));
    assert!(matches!(RGBHandler::begin(Request::GetBalance), Step::Invoke(Call::GetBtcBalance)));
    assert!(matches!(RGBHandler::begin(Request::Unspents), Step::Invoke(Call::ListUnspents)));
    assert!(matches!(RGBHandler::begin(Request::ListAssets), Step::Invoke(Call::ListAssets)));
    assert!(matches!(
        RGBHandler::begin(Request::ListTransfers),
        Step::Invoke(Call::ListTransfers { asset_id: None })
    ));
    match RGBHandler::begin(Request::GetAsset("rgb:xyz".to_string())) {
        Step::Invoke(Call::GetAsset { id }) => assert_eq!(id, "rgb:xyz"),
        _ => panic!("expected get_asset"),
    }
}

#[test]
fn issuance_dispatches_by_asset_type() {
    let cases = [RGBAssetType::NIA, RGBAssetType::CFA, RGBAssetType::UDA];
    for t in cases {
        let step = RGBHandler::begin(Request::IssueAsset(Ok(issue_request(t, None))));
        let (kind, asset) = match step {
            Step::Invoke(Call::IssueAssetNia(a)) => (RGBAssetType::NIA, a),
            Step::Invoke(Call::IssueAssetCfa(a)) => (RGBAssetType::CFA, a),
            Step::Invoke(Call::IssueAssetUda(a)) => (RGBAssetType::UDA, a),
            _ => panic!("expected an issuance"),
        };
        assert_eq!(kind, t);
        assert_eq!(asset.asset_type, t);
        assert_eq!(asset.ticker, "");
        assert_eq!(asset.name, "Token");
        assert_eq!(asset.precision, 0);
        assert_eq!(asset.amounts, vec![1]);
    }
}

#[test]
fn issuance_keeps_given_fields() {
    let mut p = issue_request(RGBAssetType::CFA, None);
    p.ticker = Some("TKN".to_string());
    p.precision = Some(8);
    p.amount = Some(1000);
    p.details = Some("details".to_string());
    p.filename = Some("media.png".to_string());
    match RGBHandler::begin(Request::IssueAsset(Ok(p))) {
        Step::Invoke(Call::IssueAssetCfa(a)) => {
            assert_eq!(a.ticker, "TKN");
            assert_eq!(a.precision, 8);
            assert_eq!(a.amounts, vec![1000]);
            assert_eq!(a.details.as_deref(), Some("details"));
            assert_eq!(a.filename.as_deref(), Some("media.png"));
        }
        _ => panic!("expected a CFA issuance"),
    }
}

#[test]
fn issuance_without_recipient_answers_asset_id() {
    let p = issue_request(RGBAssetType::NIA, None);
    match after_issue(&p, Ok("rgb:new".to_string())) {
        Step::Respond(r) => assert_eq!(text(&r), "rgb:new"),
        _ => panic!("expected an answer"),
    }
}

#[test]
fn issuance_with_recipient_sends_then_answers() {
    let p = issue_request(RGBAssetType::NIA, Some("utxob:recipient"));
    match after_issue(&p, Ok("rgb:new".to_string())) {
        Step::Invoke(Call::Send { asset_id, recipient, transport_endpoints, fee_rate, amount }) => {
            assert_eq!(asset_id, "rgb:new");
            assert_eq!(recipient, "utxob:recipient");
            assert!(transport_endpoints);
            assert_eq!(fee_rate.bits, 1.0f32.to_bits());
            assert_eq!(amount, 1);
        }
        _ => panic!("expected a send"),
    }
    let r = after_issue_send("rgb:new".to_string(), Ok("txid".to_string()));
    assert_eq!(text(&r), "rgb:new");
}

#[test]
fn failed_send_after_issuance_is_answered_with_send_error() {
    let p = issue_request(RGBAssetType::UDA, Some("utxob:recipient"));
    assert!(matches!(after_issue(&p, Ok("rgb:new".to_string())), Step::Invoke(Call::Send { .. })));
    let err = ApplicationError::RGB(RGBError::Rejected("Insufficient assets".to_string()));
    let r = after_issue_send("rgb:new".to_string(), Err(err));
    let (status, body, _) = failure(&r);
    assert_eq!(status, 400);
    assert_eq!(body, "{\"status\":\"400\",\"reason\":\"Insufficient assets\"}");
    let err = ApplicationError::RGB(RGBError::Online("electrum down".to_string()));
    let r = after_issue_send("rgb:new".to_string(), Err(err));
    assert_eq!(failure(&r).0, 500);
}

#[test]
fn failed_issuance_is_answered_with_its_error() {
    let p = issue_request(RGBAssetType::NIA, Some("utxob:recipient"));
    let err = ApplicationError::RGB(RGBError::Rejected("bad ticker".to_string()));
    match after_issue(&p, Err(err)) {
        Step::Respond(r) => assert_eq!(failure(&r).0, 400),
        _ => panic!("expected an answer"),
    }
}

#[test]
fn invoice_dispatches_by_kind() {
    match RGBHandler::begin(Request::Invoice(Ok(invoice_request(RGBInvoiceType::BLIND)))) {
        Step::Invoke(Call::BlindReceive { asset_id, amount, duration_seconds }) => {
            assert_eq!(asset_id.as_deref(), Some("rgb:asset"));
            assert_eq!(amount, Some(7));
            assert_eq!(duration_seconds, Some(3600));
        }
        _ => panic!("expected blind_receive"),
    }
    match RGBHandler::begin(Request::Invoice(Ok(invoice_request(RGBInvoiceType::WITNESS)))) {
        Step::Invoke(Call::WitnessReceive { asset_id, amount, duration_seconds }) => {
            assert_eq!(asset_id.as_deref(), Some("rgb:asset"));
            assert_eq!(amount, Some(7));
            assert_eq!(duration_seconds, Some(3600));
        }
        _ => panic!("expected witness_receive"),
    }
}

#[test]
fn masked_errors_hide_their_text() {
    for e in [RGBError::Online("node unreachable".to_string()), RGBError::Invoice("no utxos".to_string())] {
        let r = ApplicationError::RGB(e).into_response();
        let (status, body, severity) = failure(&r);
        assert_eq!(status, 500);
        assert_eq!(body, masked_body());
        assert_eq!(severity, Severity::Error);
    }
}

#[test]
fn other_errors_keep_their_text() {
    let r = ApplicationError::RGB(RGBError::Rejected("Unknown asset \"x\"".to_string())).into_response();
    let (status, body, severity) = failure(&r);
    assert_eq!(status, 400);
    assert_eq!(body, "{\"status\":\"400\",\"reason\":\"Unknown asset \\\"x\\\"\"}");
    assert_eq!(severity, Severity::Warn);
}

#[test]
fn non_backend_errors_are_internal() {
    let e = ApplicationError::Config(ConfigError { message: "missing web.addr".to_string() });
    let (status, body, _) = failure(&e.into_response());
    assert_eq!(status, 500);
    assert_eq!(body, masked_body());
    let e = ApplicationError::WebServer(WebServerError::Serve("broken pipe".to_string()));
    assert_eq!(e.message(), "Web Server Error: Serve error: broken pipe");
    assert_eq!(failure(&e.into_response()).0, 500);
}

#[test]
fn error_messages_carry_their_kind() {
    let e = ApplicationError::from(RGBError::Online("timeout".to_string()));
    assert_eq!(e.message(), "RGB Error: timeout");
}

#[test]
fn refresh_answers_no_content() {
    let r = refresh(Ok(()));
    assert!(matches!(r, Reply::NoContent));
    assert_eq!(r.status().code(), 204);
    let r = refresh(Err(ApplicationError::RGB(RGBError::Online("down".to_string()))));
    let (status, body, _) = failure(&r);
    assert_eq!(status, 500);
    assert_eq!(body, masked_body());
    assert!(matches!(RGBHandler::begin(Request::Refresh), Step::Invoke(Call::Refresh { asset_id: None })));
}

#[test]
fn malformed_bodies_never_reach_the_backend() {
    let requests = vec![
        Request::Send(Err(decode_error())),
        Request::PrepareIssuance(Err(decode_error())),
        Request::IssueAsset(Err(decode_error())),
        Request::SendAssets("rgb:a".to_string(), Err(decode_error())),
        Request::Invoice(Err(decode_error())),
    ];
    for req in requests {
        match RGBHandler::begin(req) {
            Step::Respond(r) => {
                let (status, body, _) = failure(&r);
                assert_eq!(status, 400);
                assert_eq!(body, "{\"status\":\"400\",\"reason\":\"expected value at line 1 column 1\"}");
            }
            Step::Invoke(_) => panic!("a malformed body reached the backend"),
        }
    }
}

#[test]
fn wallet_posts_apply_defaults() {
    match RGBHandler::begin(Request::PrepareIssuance(Ok(PrepareIssuanceRequest { fee_rate: None }))) {
        Step::Invoke(Call::CreateUtxos { fee_rate }) => assert_eq!(fee_rate.bits, DEFAULT_FEE_RATE_BITS),
        _ => panic!("expected create_utxos"),
    }
    assert_eq!(DEFAULT_FEE_RATE_BITS, 1.0f32.to_bits());
    let fee = FeeRate { bits: 2.5f32.to_bits() };
    let req = SendBTCRequest { address: "bcrt1q".to_string(), amount: 5000, fee_rate: fee };
    match RGBHandler::begin(Request::Send(Ok(req))) {
        Step::Invoke(Call::SendBtc { address, amount, fee_rate }) => {
            assert_eq!(address, "bcrt1q");
            assert_eq!(amount, 5000);
            assert_eq!(f32::from_bits(fee_rate.bits), 2.5);
        }
        _ => panic!("expected send_btc"),
    }
    let req = SendAssetsRequest { recipient: "utxob:r".to_string(), amount: None, fee_rate: Some(fee) };
    match RGBHandler::begin(Request::SendAssets("rgb:a".to_string(), Ok(req))) {
        Step::Invoke(Call::Send { asset_id, recipient, transport_endpoints, fee_rate, amount }) => {
            assert_eq!(asset_id, "rgb:a");
            assert_eq!(recipient, "utxob:r");
            assert!(transport_endpoints);
            assert_eq!(fee_rate, fee);
            assert_eq!(amount, 1);
        }
        _ => panic!("expected send"),
    }
}

#[test]
fn route_table_lists_every_route() {
    let routes = RGBHandler::routes();
    assert_eq!(routes.len(), 12);
    let find = |m: Method, p: &str| routes.iter().find(|r| r.method == m && r.path == p).map(|r| r.endpoint);
    assert_eq!(find(Method::Get, "/wallet/balance"), Some(Endpoint::GetBalance));
    assert_eq!(find(Method::Post, "/assets/refresh"), Some(Endpoint::Refresh));
    assert_eq!(find(Method::Post, "/assets/:id/send"), Some(Endpoint::SendAssets));
    assert_eq!(find(Method::Get, "/assets/refresh"), None);
}

#[test]
fn error_body_escapes_reason() {
    assert_eq!(generate_body(HttpStatus::BadRequest, "a\nb"), "{\"status\":\"400\",\"reason\":\"a\\nb\"}");
}

#[test]
fn post_handlers_reject_undecodable_bodies() {
    let steps = vec![
        issue_asset(Err(decode_error())),
        invoice(Err(decode_error())),
        send_assets("rgb:a".to_string(), Err(decode_error())),
    ];
    for s in steps {
        match s {
            Step::Respond(r) => assert_eq!(failure(&r).0, 400),
            Step::Invoke(_) => panic!("a malformed body reached the backend"),
        }
    }
    assert!(matches!(issue_asset(Ok(issue_request(RGBAssetType::UDA, None))), Step::Invoke(Call::IssueAssetUda(_))));
    assert!(matches!(invoice(Ok(invoice_request(RGBInvoiceType::WITNESS))), Step::Invoke(Call::WitnessReceive { .. })));
}
