use gateway::codec::{GlobalId, Model, Service};
use gateway::config::Config;
use gateway::context::{elapsed_string, log_line, Context, JWTPayload, Method, OutboundCall};
use gateway::error::{ErrorDetails, Failure, GatewayError};
use gateway::identity::{check_jwt_not_revoked, UserProfile};
use gateway::invoice::{collect_next_order, invoice_orders_request, next_order_id};
use gateway::node::{resolve_node, Node};
use gateway::pagination::{page_count, paginate_entities, paginate_positions, CursorPolicy, PageWindow};
use gateway::warehouse::{get_warehouse, get_warehouses_for_store, try_get_warehouse, WarehouseIdentifier};

fn config() -> Config {
    Config {
        users_url: "http://users:8000".to_string(),
        stores_url: "http://stores:8000".to_string(),
        orders_url: "http://orders:8000".to_string(),
        billing_url: "http://billing:8000".to_string(),
        warehouses_url: "http://warehouses:8000".to_string(),
        delivery_url: "http://delivery:8000".to_string(),
        records_limit: 10,
        call_timeout_ms: 5000,
    }
}

fn context(user: Option<JWTPayload>) -> Context {
    Context {
        user,
        session_id: Some("s-1".to_string()),
        currency: Some("USD".to_string()),
        fiat_currency: None,
        correlation_token: None,
        uuid: "req-uuid".to_string(),
        config: config(),
    }
}

fn header_pairs(ctx_req: &gateway::context::OutboundRequest) -> Vec<(String, String)> {
    ctx_req.headers.iter().map(|h| (h.name.clone(), h.value.clone())).collect()
}

const FAR_FUTURE: i64 = 32_503_680_000;

#[test]
fn expired_identity_is_refused_before_any_call() {
    let ctx = context(Some(JWTPayload { user_id: 5, exp: 100 }));
    let mut issued = 0;
    match ctx.request(Method::Get, "http://users:8000/users/5".to_string(), None) {
        Ok(_) => issued += 1,
        Err(e) => assert!(matches!(e, GatewayError::JwtExpired)),
    }
    assert_eq!(issued, 0);
}

#[test]
fn expiry_is_compared_with_the_given_time() {
    let ctx = context(Some(JWTPayload { user_id: 5, exp: 1000 }));
    let call = || OutboundCall {
        method: Method::Get,
        url: "http://users:8000/users/5".to_string(),
        body: None,
        auth_override: None,
    };
    assert!(matches!(ctx.prepare(call(), true, 1001, true, 0), Err(GatewayError::JwtExpired)));
    assert!(ctx.prepare(call(), true, 1000, true, 0).is_ok());
    assert!(ctx.prepare(call(), false, 1001, true, 0).is_ok());
}

#[test]
fn authenticated_call_carries_context_headers() {
    let ctx = context(Some(JWTPayload { user_id: 5, exp: FAR_FUTURE }));
    let req = ctx
        .request(Method::Post, "http://stores:8000/stores".to_string(), Some("{}".to_string()))
        .ok()
        .unwrap();
    assert_eq!(req.method, Method::Post);
    assert_eq!(req.url, "http://stores:8000/stores");
    assert_eq!(req.body, Some("{}".to_string()));
    assert_eq!(req.correlation, "req-uuid");
    assert_eq!(req.timeout_ms, 5000);
    assert_eq!(
        header_pairs(&req),
        vec![
            ("Authorization".to_string(), "5".to_string()),
            ("Currency".to_string(), "USD".to_string()),
            ("Cookie".to_string(), "UUID=req-uuid; SESSION_ID=s-1".to_string()),
            ("Correlation-Token".to_string(), "req-uuid".to_string()),
        ]
    );
}

#[test]
fn unauthenticated_call_omits_identity_headers() {
    let mut ctx = context(Some(JWTPayload { user_id: 5, exp: 1 }));
    ctx.correlation_token = Some("upstream-token".to_string());
    ctx.fiat_currency = Some("EUR".to_string());
    let req = ctx
        .request_without_auth(Method::Get, "http://stores:8000/categories".to_string(), None)
        .ok()
        .unwrap();
    assert_eq!(req.correlation, "upstream-token");
    assert_eq!(
        header_pairs(&req),
        vec![
            ("Currency".to_string(), "USD".to_string()),
            ("FiatCurrency".to_string(), "EUR".to_string()),
            ("Correlation-Token".to_string(), "upstream-token".to_string()),
        ]
    );
}

#[test]
fn override_identity_is_presented() {
    let ctx = context(None);
    let call = OutboundCall {
        method: Method::Get,
        url: "http://users:8000/users/current".to_string(),
        body: None,
        auth_override: Some(JWTPayload { user_id: 9, exp: 50 }),
    };
    let req = ctx.prepare(call, true, 10, true, 0).ok().unwrap();
    assert_eq!(req.headers[0].name, "Authorization");
    assert_eq!(req.headers[0].value, "9");
}

#[test]
fn malformed_url_is_a_decode_failure() {
    let ctx = context(None);
    match ctx.request(Method::Get, "not a url".to_string(), None) {
        Err(GatewayError::DecodeFailure { reason }) => {
            assert_eq!(reason, "Malformed request url: not a url")
        }
        _ => panic!("decode failure expected"),
    }
    assert!(ctx.request(Method::Get, "http://users:8000/users/1".to_string(), None).is_ok());
}

#[test]
fn fresh_context_has_uuid_fallback() {
    let a = Context::new(None, None, None, None, config(), None);
    let b = Context::new(None, None, None, None, config(), None);
    assert_eq!(a.uuid.len(), 36);
    for (i, c) in a.uuid.chars().enumerate() {
        if [8, 13, 18, 23].contains(&i) {
            assert_eq!(c, '-');
        } else {
            assert!(c.is_ascii_digit() || ('a'..='f').contains(&c));
        }
    }
    assert_eq!(a.uuid.chars().nth(14), Some('4'));
    assert_ne!(a.uuid, b.uuid);
    assert_eq!(a.correlation(), a.uuid);
}

#[test]
fn log_lines_name_url_time_and_key() {
    assert_eq!(elapsed_string(12045), "12.045");
    assert_eq!(elapsed_string(7), "0.007");
    assert_eq!(elapsed_string(1230), "1.230");
    assert_eq!(
        log_line("http://a/b", 1500, "key", None),
        "Request to microservice: http://a/b, elapsed time: 1.500, correlation token: key"
    );
    assert_eq!(
        log_line("http://a/b", 2, "key", Some("boom")),
        "Request to microservice: http://a/b failed with error `boom`, elapsed time: 0.002, correlation token: key"
    );
}

#[test]
fn finishing_writes_one_line_with_own_key() {
    let mut ctx = context(None);
    ctx.correlation_token = Some("tok".to_string());
    let req = ctx.prepare(
        OutboundCall { method: Method::Get, url: "http://x/1".to_string(), body: None, auth_override: None },
        true,
        0,
        true,
        1000,
    );
    let req = req.ok().unwrap();
    let ok = req.finish_at(None, 3250);
    assert!(ok.error.is_none());
    assert_eq!(ok.log_line, "Request to microservice: http://x/1, elapsed time: 2.250, correlation token: tok");
    let failed = req.finish_at(Some(Failure::Status { status: 503, body: None }), 900);
    let env = failed.error.unwrap();
    assert_eq!(env.code, 100);
    assert_eq!(
        failed.log_line,
        "Request to microservice: http://x/1 failed with error `Microservice responded with an error status. (status 503)`, elapsed time: 0.000, correlation token: tok"
    );
}

#[test]
fn two_calls_of_one_context_keep_their_own_lines() {
    let ctx = context(None);
    let call = |u: &str| OutboundCall { method: Method::Get, url: u.to_string(), body: None, auth_override: None };
    let a = ctx.prepare(call("http://x/a"), false, 0, true, 0).ok().unwrap();
    let b = ctx.prepare(call("http://x/b"), false, 0, true, 0).ok().unwrap();
    let la = a.finish_at(Some(Failure::Timeout), 10).log_line;
    let lb = b.finish_at(None, 20).log_line;
    assert!(la.starts_with("Request to microservice: http://x/a failed"));
    assert!(la.ends_with("correlation token: req-uuid"));
    assert_eq!(lb, "Request to microservice: http://x/b, elapsed time: 0.020, correlation token: req-uuid");
}

#[test]
fn page_count_is_clamped() {
    assert_eq!(page_count(None, 10), 10);
    assert_eq!(page_count(Some(3), 10), 3);
    assert_eq!(page_count(Some(50), 10), 10);
    assert_eq!(page_count(Some(-4), 10), 0);
}

#[test]
fn first_page_of_two_with_look_ahead() {
    let w = PageWindow::for_positions(Some(2), None, 10, CursorPolicy::Refuse).ok().unwrap();
    assert_eq!(w, PageWindow { offset: 0, count: 2, after_given: false });
    assert_eq!(w.fetch_count(), 3);
    let c = paginate_positions(&w, vec!["a", "b", "c"]);
    let nodes: Vec<&str> = c.edges.iter().map(|e| e.node).collect();
    assert_eq!(nodes, vec!["a", "b"]);
    assert!(c.page_info.has_next_page);
    assert!(!c.page_info.has_previous_page);
    assert_eq!(c.page_info.start_cursor, Some("0".to_string()));
    assert_eq!(c.page_info.end_cursor, Some("1".to_string()));
}

#[test]
fn exactly_n_items_means_no_next_page() {
    let w = PageWindow { offset: 0, count: 3, after_given: false };
    let c = paginate_entities(&w, Service::Users, Model::User, vec![(1, "u1"), (2, "u2"), (3, "u3")]);
    assert!(!c.page_info.has_next_page);
    assert_eq!(c.edges.len(), 3);
    let c = paginate_entities(&w, Service::Users, Model::User, vec![(1, "u1"), (2, "u2"), (3, "u3"), (4, "u4")]);
    assert!(c.page_info.has_next_page);
    assert_eq!(c.edges.len(), 3);
    assert_eq!(c.edges[2].node, "u3");
}

#[test]
fn empty_page() {
    let w = PageWindow { offset: 0, count: 0, after_given: false };
    let c = paginate_positions::<u8>(&w, vec![]);
    assert!(c.edges.is_empty());
    assert!(!c.page_info.has_next_page);
    assert_eq!(c.page_info.start_cursor, None);
    assert_eq!(c.page_info.end_cursor, None);
}

#[test]
fn entity_cursors_are_stable_and_resume() {
    let w = PageWindow::for_entities(Some(2), None, 10, CursorPolicy::Refuse).ok().unwrap();
    let fetch = || vec![(11, "p11"), (12, "p12"), (13, "p13")];
    let c1 = paginate_entities(&w, Service::Stores, Model::Product, fetch());
    let c2 = paginate_entities(&w, Service::Stores, Model::Product, fetch());
    let k1: Vec<String> = c1.edges.iter().map(|e| e.cursor.clone()).collect();
    let k2: Vec<String> = c2.edges.iter().map(|e| e.cursor.clone()).collect();
    assert_eq!(k1, k2);
    assert_eq!(k1, vec!["stores.product.11".to_string(), "stores.product.12".to_string()]);
    let next = PageWindow::for_entities(Some(2), Some(&k1[1]), 10, CursorPolicy::Refuse).ok().unwrap();
    assert_eq!(next, PageWindow { offset: 12, count: 2, after_given: true });
}

#[test]
fn positional_cursors_continue_after_position() {
    let w = PageWindow::for_positions(Some(2), Some("4"), 10, CursorPolicy::Refuse).ok().unwrap();
    assert_eq!(w, PageWindow { offset: 5, count: 2, after_given: true });
    let c = paginate_positions(&w, vec!["x", "y"]);
    assert!(!c.page_info.has_next_page);
    assert!(c.page_info.has_previous_page);
    assert_eq!(c.edges[0].cursor, "5");
    assert_eq!(c.edges[1].cursor, "6");
}

#[test]
fn malformed_cursors_are_decode_failures() {
    for bad in ["-1", "04", "x", ""].iter() {
        match PageWindow::for_positions(None, Some(bad), 10, CursorPolicy::Refuse) {
            Err(GatewayError::DecodeFailure { reason }) => assert_eq!(reason, format!("Malformed cursor: {}", bad)),
            _ => panic!("decode failure expected for {:?}", bad),
        }
    }
    match PageWindow::for_entities(None, Some("7"), 10, CursorPolicy::Refuse) {
        Err(e) => assert_eq!(e.code(), 300),
        Ok(_) => panic!("decode failure expected"),
    }
    match PageWindow::for_entities(None, Some("users.user.-3"), 10, CursorPolicy::Refuse) {
        Err(GatewayError::DecodeFailure { reason }) => assert_eq!(reason, "Malformed cursor: users.user.-3"),
        _ => panic!("decode failure expected"),
    }
}

#[test]
fn node_resolution() {
    let authed = context(Some(JWTPayload { user_id: 1, exp: FAR_FUTURE }));
    let anon = context(None);
    assert!(matches!(resolve_node(&authed, "0"), Ok(Node::Viewer)));
    match resolve_node(&anon, "0") {
        Err(GatewayError::UpstreamRejected { status, upstream }) => {
            assert_eq!(status, 401);
            assert_eq!(upstream.unwrap().message, "Authentification of Json web token failure");
        }
        _ => panic!("401 expected"),
    }
    assert!(matches!(resolve_node(&anon, "1"), Ok(Node::Query)));
    let id = GlobalId::new(Service::Stores, Model::BaseProduct, 8).encode();
    match resolve_node(&anon, &id) {
        Ok(Node::Entity { id, url }) => {
            assert_eq!(id, GlobalId::new(Service::Stores, Model::BaseProduct, 8));
            assert_eq!(url, "http://stores:8000/base_products/8");
        }
        _ => panic!("entity expected"),
    }
    let order = GlobalId::new(Service::Orders, Model::Order, 8).encode();
    match resolve_node(&anon, &order) {
        Err(e) => {
            assert_eq!(e.code(), 400);
            let env = e.into_envelope();
            assert_eq!(env.message, "Could not get model from orders microservice.");
            match env.details {
                ErrorDetails::Text(t) => assert_eq!(t, "Unknown model"),
                _ => panic!("text details expected"),
            }
        }
        _ => panic!("unknown model expected"),
    }
    match resolve_node(&anon, "2") {
        Err(GatewayError::DecodeFailure { reason }) => assert_eq!(reason, "Malformed identifier: 2"),
        _ => panic!("decode failure expected"),
    }
}

#[test]
fn revocation_check() {
    let jwt = JWTPayload { user_id: 1, exp: 500 };
    assert!(check_jwt_not_revoked(&jwt, Ok(Some(UserProfile { revoke_before: 500 }))).is_ok());
    assert!(matches!(
        check_jwt_not_revoked(&jwt, Ok(Some(UserProfile { revoke_before: 501 }))),
        Err(GatewayError::JwtRevoked)
    ));
    assert!(matches!(check_jwt_not_revoked(&jwt, Ok(None)), Err(GatewayError::IdentityNotFound)));
    assert!(matches!(
        check_jwt_not_revoked(&jwt, Err(GatewayError::TransportFailure { reason: "x".to_string() })),
        Err(GatewayError::TransportFailure { .. })
    ));
    let ctx = context(None);
    assert_eq!(ctx.current_user_url(), "http://users:8000/users/current");
}

#[test]
fn revocation_fetch_is_made_even_for_an_expired_credential() {
    let ctx = context(Some(JWTPayload { user_id: 8, exp: FAR_FUTURE }));
    let expired = JWTPayload { user_id: 3, exp: 1 };
    let req = ctx.revocation_check_request(expired).ok().unwrap();
    assert_eq!(req.method, Method::Get);
    assert_eq!(req.url, "http://users:8000/users/current");
    assert_eq!(req.body, None);
    assert_eq!(
        header_pairs(&req),
        vec![
            ("Authorization".to_string(), "3".to_string()),
            ("Correlation-Token".to_string(), "req-uuid".to_string()),
        ]
    );
    match ctx.prepare_revocation_check(expired, false, 0) {
        Err(GatewayError::DecodeFailure { reason }) => {
            assert_eq!(reason, "Malformed request url: http://users:8000/users/current")
        }
        _ => panic!("decode failure expected"),
    }
}

#[test]
fn unreadable_cursor_restarts_where_the_field_says_so() {
    for bad in ["-1", "04", "x", ""].iter() {
        let w = PageWindow::for_positions(Some(3), Some(bad), 10, CursorPolicy::Restart).ok().unwrap();
        assert_eq!(w, PageWindow { offset: 0, count: 3, after_given: false });
    }
    let w = PageWindow::for_entities(None, Some("users.user.-3"), 10, CursorPolicy::Restart).ok().unwrap();
    assert_eq!(w, PageWindow { offset: 0, count: 10, after_given: false });
    let w = PageWindow::for_entities(None, Some("garbage"), 10, CursorPolicy::Restart).ok().unwrap();
    assert_eq!(w, PageWindow { offset: 0, count: 10, after_given: false });
    let w = PageWindow::for_positions(Some(3), Some("9"), 10, CursorPolicy::Restart).ok().unwrap();
    assert_eq!(w, PageWindow { offset: 10, count: 3, after_given: true });
}

#[test]
fn warehouse_lookups() {
    let ctx = context(Some(JWTPayload { user_id: 1, exp: FAR_FUTURE }));
    let by_slug = WarehouseIdentifier::Slug("main".to_string());
    assert_eq!(
        try_get_warehouse(&ctx, &by_slug).ok().unwrap().url,
        "http://warehouses:8000/warehouses/by-slug/main"
    );
    let by_id = WarehouseIdentifier::Id("a1b2".to_string());
    assert_eq!(
        try_get_warehouse(&ctx, &by_id).ok().unwrap().url,
        "http://warehouses:8000/warehouses/by-id/a1b2"
    );
    assert_eq!(
        get_warehouses_for_store(&ctx, 17).ok().unwrap().url,
        "http://warehouses:8000/warehouses/by-store/17"
    );
    assert_eq!(get_warehouse(&by_id, Ok(Some(3))).ok(), Some(3));
    match get_warehouse::<u8>(&by_id, Ok(None)) {
        Err(e) => {
            assert_eq!(e.code(), 400);
            let env = e.into_envelope();
            assert_eq!(env.code, 400);
            assert_eq!(env.message, "Warehouse not found");
            match env.details {
                ErrorDetails::Text(t) => assert_eq!(t, "warehouse by id: a1b2 not found"),
                _ => panic!("text details expected"),
            }
        }
        Ok(_) => panic!("not found expected"),
    }
}

#[test]
fn invoice_orders() {
    let ctx = context(Some(JWTPayload { user_id: 1, exp: FAR_FUTURE }));
    assert_eq!(
        invoice_orders_request(&ctx, "inv-1").ok().unwrap().url,
        "http://billing:8000/invoices/by-id/inv-1/order_ids"
    );
    let ids = vec!["o1".to_string(), "o2".to_string(), "o3".to_string()];
    assert_eq!(collect_all(&ids, vec![Ok(Some(1)), Ok(Some(2)), Ok(Some(3))]), (Some(vec![1, 2, 3]), 3));
    let (r, looked_up) = collect_all(&ids, vec![Ok(Some(1)), Ok(None), Ok(Some(3))]);
    assert_eq!(r, None);
    assert_eq!(looked_up, 2);
    match collect_next_order(&ids, vec![1], Ok(None)) {
        Err(e) => {
            let env = e.into_envelope();
            assert_eq!(env.code, 100);
            assert_eq!(env.message, "Could not find order id received from invoice in orders.");
            match env.details {
                ErrorDetails::Text(t) => assert_eq!(t, "Order with id: o2 does not exist in orders microservice."),
                _ => panic!("text details expected"),
            }
        }
        Ok(_) => panic!("missing order expected"),
    }
    match collect_next_order::<u8>(&ids, vec![], Err(GatewayError::TransportFailure { reason: "down".to_string() })) {
        Err(GatewayError::TransportFailure { reason }) => assert_eq!(reason, "down"),
        _ => panic!("lookup error expected"),
    }
    assert_eq!(next_order_id(&ids, 0), Some(&"o1".to_string()));
    assert_eq!(next_order_id(&ids, 3), None);
    assert_eq!(collect_all::<u8>(&[], vec![]), (Some(vec![]), 0));
}

/// Drives the collection with canned lookups; gives the orders, if all were found, and how
/// many lookups were made.
fn collect_all<O>(ids: &[String], mut answers: Vec<Result<Option<O>, GatewayError>>) -> (Option<Vec<O>>, usize) {
    let ids = ids.to_vec();
    let mut orders = Vec::new();
    let mut looked_up = 0;
    while next_order_id(&ids, orders.len()).is_some() {
        let answer = answers.remove(0);
        looked_up += 1;
        match collect_next_order(&ids, orders, answer) {
            Ok(v) => orders = v,
            Err(_) => return (None, looked_up),
        }
    }
    (Some(orders), looked_up)
}

#[test]
fn envelope_of_status_failure_in_completion() {
    let ctx = context(None);
    let req = ctx
        .prepare(
            OutboundCall { method: Method::Delete, url: "http://x/9".to_string(), body: None, auth_override: None },
            false,
            0,
            true,
            0,
        )
        .ok()
        .unwrap();
    let done = req.finish_at(Some(Failure::Decode { reason: "bad json".to_string() }), 5);
    let env = done.error.unwrap();
    assert_eq!(env.code, 300);
    match env.details {
        ErrorDetails::Text(t) => assert_eq!(t, "bad json"),
        _ => panic!("text details expected"),
    }
}

#[test]
fn rest_api_client_settings() {
    let mut ctx = context(Some(JWTPayload { user_id: 12, exp: FAR_FUTURE }));
    let c = ctx.get_rest_api_client(Service::Warehouses);
    assert_eq!(c.base_url, "http://warehouses:8000");
    assert_eq!(c.user_id, Some(12));
    assert_eq!(c.headers.len(), 1);
    assert_eq!(c.headers[0].name, "Correlation-Token");
    assert_eq!(c.headers[0].value, "req-uuid");
    ctx.user = None;
    ctx.correlation_token = Some("t".to_string());
    let c = ctx.get_rest_api_client(Service::Orders);
    assert_eq!(c.user_id, None);
    assert_eq!(c.headers[0].value, "t");
}

#[test]
fn store_roles_of_anonymous_and_authenticated_callers() {
    let anon = context(None);
    let p = anon.permissions();
    assert_eq!(p.store_roles_user(), None);
    assert_eq!(p.store_roles::<u8>(None).ok(), Some(vec![]));
    let authed = context(Some(JWTPayload { user_id: 21, exp: FAR_FUTURE }));
    let p = authed.permissions();
    assert_eq!(p.store_roles_user(), Some(21));
    assert_eq!(p.store_roles(Some(Ok(vec![1u8, 2]))).ok(), Some(vec![1, 2]));
    assert!(matches!(
        p.store_roles::<u8>(Some(Err(GatewayError::Unknown { reason: "r".to_string() }))),
        Err(GatewayError::Unknown { .. })
    ));
}
