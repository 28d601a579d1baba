use gateway::codec::{GlobalId, MalformedIdentifier, Model, Service, QUERY_NODE_ID, VIEWER_NODE_ID};
use gateway::error::{
    failure_envelope, map_failure, ErrorCategory, ErrorDetails, Failure, GatewayError, UpstreamMessage,
};
use gateway::text::{chars_of, parse_i32, render_int, render_nat};

#[test]
fn encode_is_dotted_triple() {
    let g = GlobalId::new(Service::Stores, Model::BaseProduct, 42);
    assert_eq!(g.encode(), "stores.base_product.42");
    let n = GlobalId::new(Service::Users, Model::User, -7);
    assert_eq!(n.encode(), "users.user.-7");
}

#[test]
fn decode_round_trips() {
    let ids = [
        GlobalId::new(Service::Users, Model::User, 0),
        GlobalId::new(Service::Stores, Model::Product, 1),
        GlobalId::new(Service::Orders, Model::Order, i32::MAX),
        GlobalId::new(Service::Billing, Model::Invoice, i32::MIN),
        GlobalId::new(Service::Warehouses, Model::Warehouse, -1),
        GlobalId::new(Service::Delivery, Model::Attribute, 1234567),
        GlobalId::new(Service::Stores, Model::Category, 10),
    ];
    for g in ids.iter() {
        assert_eq!(GlobalId::decode(&g.encode()), Ok(*g));
    }
}

#[test]
fn decode_refuses_what_encode_never_makes() {
    let bad = [
        "",
        "users",
        "users.user",
        "users.user.",
        "users.user.007",
        "users.user.-0",
        "users.user.+5",
        "users.user.5.",
        "users.user.2147483648",
        "users.user.-2147483649",
        "Users.user.5",
        "users.person.5",
        "people.user.5",
        "users..5",
        ".user.5",
        "users.user.5x",
        "users.user. 5",
    ];
    for s in bad.iter() {
        assert_eq!(GlobalId::decode(s), Err(MalformedIdentifier), "{}", s);
    }
}

#[test]
fn decode_accepts_extreme_ids() {
    assert_eq!(
        GlobalId::decode("users.user.-2147483648"),
        Ok(GlobalId::new(Service::Users, Model::User, i32::MIN))
    );
    assert_eq!(
        GlobalId::decode("users.user.2147483647"),
        Ok(GlobalId::new(Service::Users, Model::User, i32::MAX))
    );
}

#[test]
fn sentinels_do_not_decode() {
    assert_eq!(GlobalId::decode(VIEWER_NODE_ID), Err(MalformedIdentifier));
    assert_eq!(GlobalId::decode(QUERY_NODE_ID), Err(MalformedIdentifier));
}

#[test]
fn decimal_rendering() {
    assert_eq!(render_nat(0), "0");
    assert_eq!(render_nat(907), "907");
    assert_eq!(render_nat(u128::MAX), "340282366920938463463374607431768211455");
    assert_eq!(render_int(-12), "-12");
    assert_eq!(render_int(i64::MIN), "-9223372036854775808");
}

#[test]
fn decimal_parsing() {
    let cs = chars_of("x-305y");
    assert_eq!(parse_i32(&cs, 1, 5), Some(-305));
    assert_eq!(parse_i32(&cs, 2, 5), Some(305));
    assert_eq!(parse_i32(&cs, 1, 2), None);
    assert_eq!(parse_i32(&cs, 0, 5), None);
}

#[test]
fn upstream_404_maps_to_code_100_with_status() {
    let f = Failure::Status {
        status: 404,
        body: Some(UpstreamMessage { code: 404, message: "Not found".to_string() }),
    };
    assert_eq!(f.category(), ErrorCategory::UpstreamRejected);
    let env = failure_envelope(f);
    assert_eq!(env.code, 100);
    match env.details {
        ErrorDetails::Status { status, upstream } => {
            assert_eq!(status, 404);
            let m = upstream.unwrap();
            assert_eq!(m.code, 404);
            assert_eq!(m.message, "Not found");
        }
        ErrorDetails::Text(_) => panic!("status details expected"),
    }
}

#[test]
fn connect_refused_maps_to_code_200() {
    let env = failure_envelope(Failure::Connect { reason: "connection refused".to_string() });
    assert_eq!(env.code, 200);
    assert_eq!(env.message, "Network error while calling a microservice.");
    match env.details {
        ErrorDetails::Text(t) => assert_eq!(t, "connection refused"),
        _ => panic!("text details expected"),
    }
}

#[test]
fn timeout_maps_to_code_200() {
    let e = map_failure(Failure::Timeout);
    assert_eq!(e.code(), 200);
    match e {
        GatewayError::TransportFailure { reason } => {
            assert_eq!(reason, "The call exceeded its time budget.")
        }
        _ => panic!("transport failure expected"),
    }
}

#[test]
fn decode_mismatch_maps_to_code_300() {
    let env = failure_envelope(Failure::Decode {
        reason: "invalid type: string, expected i32".to_string(),
    });
    assert_eq!(env.code, 300);
}

#[test]
fn unclassified_failure_maps_to_code_400() {
    let env = failure_envelope(Failure::Other { reason: "???".to_string() });
    assert_eq!(env.code, 400);
    assert_eq!(env.message, "Unknown error.");
}

#[test]
fn identity_conditions_have_their_own_codes() {
    let expired = GatewayError::JwtExpired.into_envelope();
    assert_eq!(expired.code, 111);
    assert_eq!(expired.message, "JWT has been expired.");
    let revoked = GatewayError::JwtRevoked.into_envelope();
    assert_eq!(revoked.code, 112);
    assert_eq!(revoked.message, "JWT has been revoked.");
    let missing = GatewayError::IdentityNotFound.into_envelope();
    assert_eq!(missing.code, 100);
    match missing.details {
        ErrorDetails::Text(t) => assert_eq!(t, "User not found."),
        _ => panic!("text details expected"),
    }
}

#[test]
fn category_codes_are_stable() {
    assert_eq!(ErrorCategory::UpstreamRejected.code(), 100);
    assert_eq!(ErrorCategory::TransportFailure.code(), 200);
    assert_eq!(ErrorCategory::DecodeFailure.code(), 300);
    assert_eq!(ErrorCategory::Unknown.code(), 400);
}
