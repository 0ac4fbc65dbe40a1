use borsh::BorshSerialize;
use storefront::auth_token::{
    claims_from_bearer, claims_from_entries, generate_jwt, service_claims, sign, sign_at, sign_with_reading, timestamp_of,
    verify, AuthError, ClaimValue, Claims, TokenData, MAX_CHRONO_SECS,
};
use storefront::clients::{get_clients, TClient};
use storefront::dto::{LoginInput, RegisterInput};
use storefront::error::{ApiError, DbError, Error, ErrorPayload};
use storefront::events::{get_event_name, last_path_segment, publication_of, CreateOrderEvent};
use storefront::gateway::proxy_uri;
use storefront::repository::auth::{signin_outcome, NewUser};
use storefront::repository::cart::{product_ids, CartItem, CartLock};
use storefront::repository::catalog::product_outcome;
use storefront::repository::product::details_outcome;
use storefront::roles::ROLES;
use storefront::schema::{cart_table, migrations, product_table, user_table, ColumnType};
use storefront::settings::{Settings, ENV};
use storefront::validation::{validate_payload, Validate};

#[test]
fn roles_display_and_parse() {
    assert_eq!(ROLES::ADMIN.to_string(), "ADMIN");
    assert_eq!(ROLES::USER.to_string(), "USER");
    assert_eq!(ROLES::from_str("ADMIN"), Ok(ROLES::ADMIN));
    assert_eq!(ROLES::from_str(&ROLES::USER.to_string()), Ok(ROLES::USER));
    assert!(ROLES::from_str("admin").is_err());
}

#[test]
fn env_display_and_from() {
    assert_eq!(ENV::Production.to_string(), "Production");
    assert_eq!(ENV::from("Production"), ENV::Production);
    assert_eq!(ENV::from("production"), ENV::Development);
    assert_eq!(ENV::from(ENV::Development.to_string().as_str()), ENV::Development);
}

#[test]
fn api_error_status_and_message() {
    let e = ApiError::from(Error::WrongCredentials);
    assert_eq!(e.status, 401);
    assert_eq!(e.message().unwrap(), "wrong credentials");
    let e = ApiError::from(Error::DbError(DbError::Custom(String::from("boom"))));
    assert_eq!(e.status, 500);
    assert_eq!(e.message().unwrap(), "Custom Error: boom");
    let invalid = LoginInput { email: String::from("x"), password: String::new() };
    let e = ApiError::from(validate_payload(&invalid).unwrap_err());
    assert_eq!(e.status, 400);
    assert!(e.message().is_none());
    assert!(matches!(e.payload, ErrorPayload::Fields(_)));
    let invalid = RegisterInput {
        email: String::from("x"),
        password: String::from("abc"),
        address: String::new(),
        phone: String::new(),
    };
    assert_eq!(
        validate_payload(&invalid).unwrap_err().to_string(),
        "email: Validation error: email [{\"value\": String(\"x\")}]\npassword: Validation error: length [{\"min\": Number(6), \"value\": String(\"abc\")}]"
    );
    assert_eq!(Error::ProductAlreadyInCart.to_string(), "Product is already in cart");
    assert_eq!(Error::PublishError.to_string(), "error while publishing event");
    assert_eq!(Error::AddProductToCartError.to_string(), "error while adding product to the cart");
}

#[test]
fn auth_error_answers() {
    assert_eq!(AuthError::InvalidToken.into_response(), (400, String::from("Invalid token")));
    assert_eq!(AuthError::WrongCredentials.into_response(), (401, String::from("Wrong credentials")));
    assert_eq!(AuthError::TokenCreation.into_response(), (500, String::from("Token creation error")));
    assert_eq!(AuthError::MissingCredentials.into_response(), (400, String::from("Missing credentials")));
}

#[test]
fn email_and_length_rules() {
    let ok = RegisterInput {
        email: String::from("test@test.com"),
        password: String::from("123456"),
        address: String::from("abc"),
        phone: String::from("123456789"),
    };
    assert!(ok.validate().is_ok());
    let short = RegisterInput { password: String::from("12345"), ..ok.clone() };
    let errs = short.validate().unwrap_err();
    assert_eq!(errs.errors.len(), 1);
    assert_eq!(errs.errors[0].field, "password");
    assert_eq!(errs.errors[0].min, Some(6));
    let six_chars = RegisterInput { password: String::from("ééé123"), ..ok.clone() };
    assert!(six_chars.validate().is_ok());
    let no_at = LoginInput { email: String::from("test.test.com"), password: String::new() };
    assert!(no_at.validate().is_err());
    let empty = LoginInput { email: String::new(), password: String::new() };
    assert!(empty.validate().is_err());
}

#[test]
fn claims_live_a_day() {
    let c = Claims::new(String::from("a@b.co"), 4, String::from("USER")).unwrap();
    assert_eq!(c.exp - c.iat, 86400);
    assert_eq!(c.sub, "a@b.co");
    assert!(c.iat > 1_600_000_000);
    let d = Claims::issued_at(String::from("a@b.co"), 4, String::from("USER"), 100);
    assert_eq!((d.iat, d.exp), (100, 86500));
}

#[test]
fn signed_token_decodes_to_its_claims() {
    let token = sign_at(String::from("a@b.co"), 4, String::from("USER"), 1_700_000_000, "secret");
    assert_eq!(token, sign_at(String::from("a@b.co"), 4, String::from("USER"), 1_700_000_000, "secret"));
    assert_ne!(token, sign_at(String::from("a@b.co"), 4, String::from("USER"), 1_700_000_000, "other"));
    let mut validation = jsonwebtoken::Validation::default();
    validation.validate_exp = false;
    let data = jsonwebtoken::decode::<serde_json::Value>(
        &token,
        &jsonwebtoken::DecodingKey::from_secret(b"secret"),
        &validation,
    )
    .unwrap();
    assert_eq!(data.claims["sub"], "a@b.co");
    assert_eq!(data.claims["user_id"], 4);
    assert_eq!(data.claims["role"], "USER");
    assert_eq!(data.claims["iat"], 1_700_000_000i64);
    assert_eq!(data.claims["exp"], 1_700_086_400i64);
    let payload = token.split('.').nth(1).unwrap();
    let json = String::from_utf8(base64_url_decode(payload)).unwrap();
    assert!(json.starts_with("{\"sub\":\"a@b.co\",\"exp\":1700086400,\"iat\":1700000000"));
    assert!(sign(String::from("a@b.co"), 4, String::from("USER"), "secret").is_ok());
}

#[test]
fn verify_gives_back_signed_claims() {
    let token = sign(String::from("a@b.co"), 4, String::from("USER"), "secret").unwrap();
    let claims = verify(&token, "secret").unwrap();
    assert_eq!((claims.sub.as_str(), claims.user_id, claims.role.as_str()), ("a@b.co", 4, "USER"));
    assert_eq!(claims.exp - claims.iat, 86400);
    assert!(matches!(verify(&token, "other"), Err(Error::JwtError(_))));
    assert!(matches!(verify("not a token", "secret"), Err(Error::JwtError(_))));
    let expired = sign_at(String::from("a@b.co"), 4, String::from("USER"), 1_000_000, "secret");
    assert!(matches!(verify(&expired, "secret"), Err(Error::JwtError(_))));
}

#[test]
fn claims_read_from_decoded_values() {
    let entries = vec![
        (String::from("exp"), ClaimValue::Number(Some(86500))),
        (String::from("iat"), ClaimValue::Number(Some(100))),
        (String::from("role"), ClaimValue::Text(String::from("USER"))),
        (String::from("sub"), ClaimValue::Text(String::from("a@b.co"))),
        (String::from("user_id"), ClaimValue::Number(Some(7))),
    ];
    let c = claims_from_entries(entries.clone()).unwrap();
    assert_eq!((c.exp, c.iat, c.user_id, c.sub.as_str(), c.role.as_str()), (86500, 100, 7, "a@b.co", "USER"));
    let mut too_big = entries.clone();
    too_big[4].1 = ClaimValue::Number(Some(1 << 40));
    assert!(claims_from_entries(too_big).is_err());
    let missing: Vec<(String, ClaimValue)> = entries[..4].to_vec();
    assert!(matches!(claims_from_entries(missing), Err(Error::JwtError(m)) if m == "the token's claims are not the expected claims"));
}

#[test]
fn clock_readings_give_issue_times() {
    assert_eq!(timestamp_of(0, 0), Some(0));
    assert_eq!(timestamp_of(1_700_000_000, 999_999_999), Some(1_700_000_000));
    assert_eq!(timestamp_of(MAX_CHRONO_SECS, 0), Some(MAX_CHRONO_SECS as i64));
    assert_eq!(timestamp_of(MAX_CHRONO_SECS + 1, 0), None);
    let c = Claims::from_reading(String::from("a"), 1, String::from("USER"), Some((100, 5))).unwrap();
    assert_eq!((c.iat, c.exp), (100, 86500));
    assert!(Claims::from_reading(String::from("a"), 1, String::from("USER"), None).is_none());
    let token = sign_with_reading(String::from("a"), 1, String::from("USER"), "secret", Some((1000, 0))).unwrap();
    assert_eq!(token, sign_at(String::from("a"), 1, String::from("USER"), 1000, "secret"));
    assert!(matches!(
        sign_with_reading(String::from("a"), 1, String::from("USER"), "secret", None),
        Err(Error::ClockError)
    ));
}

fn base64_url_decode(s: &str) -> Vec<u8> {
    let alphabet = b"ABCDEFGHIJKLMNOPQRSTUVWXYZabcdefghijklmnopqrstuvwxyz0123456789-_";
    let mut bits: u32 = 0;
    let mut n = 0;
    let mut out = Vec::new();
    for c in s.bytes() {
        let v = alphabet.iter().position(|&a| a == c).unwrap() as u32;
        bits = (bits << 6) | v;
        n += 6;
        if n >= 8 {
            n -= 8;
            out.push((bits >> n) as u8);
            bits &= (1 << n) - 1;
        }
    }
    out
}

#[test]
fn generated_jwt_is_signed_claim_map() {
    let data = TokenData {
        email: String::from("a@b.co"),
        user_id: String::from("4"),
        role: String::from("USER"),
        token: None,
    };
    let token = generate_jwt(data.clone(), "secret");
    let parts: Vec<&str> = token.split('.').collect();
    assert_eq!(parts.len(), 3);
    let json = String::from_utf8(base64_url_decode(parts[1])).unwrap();
    assert_eq!(json, "{\"role\":\"USER\",\"sub\":\"a@b.co\",\"user_id\":\"4\"}");
    assert_ne!(token, generate_jwt(data.clone(), "other"));
    let claims = service_claims(&data);
    assert_eq!(
        claims,
        vec![
            (String::from("sub"), String::from("a@b.co")),
            (String::from("user_id"), String::from("4")),
            (String::from("role"), String::from("USER")),
        ]
    );
}

#[test]
fn event_name_is_last_path_piece() {
    assert_eq!(get_event_name("storefront::events::CreateOrderEvent"), "CreateOrderEvent");
    assert_eq!(get_event_name("Plain"), "Plain");
    assert_eq!(last_path_segment("a:::b"), ":b");
    assert_eq!(last_path_segment("a::"), "");
}

#[test]
fn event_encoding_is_borsh() {
    let event = CreateOrderEvent { user_id: 1, order_request_id: String::from("abc") };
    let bytes = event.serialize().unwrap();
    assert_eq!(bytes, vec![1, 0, 0, 0, 3, 0, 0, 0, b'a', b'b', b'c']);
    let by_crate = (event.user_id, event.order_request_id.clone()).try_to_vec().unwrap();
    assert_eq!(bytes, by_crate);
    let negative = CreateOrderEvent { user_id: -2, order_request_id: String::from("é") };
    assert_eq!(negative.serialize().unwrap(), vec![0xfe, 0xff, 0xff, 0xff, 2, 0, 0, 0, 0xc3, 0xa9]);
    let p = publication_of(&event, "lib::events::CreateOrderEvent").unwrap();
    assert_eq!(p.exchange, "CreateOrderEvent");
    assert_eq!(p.routing_key, "CreateOrderEvent");
    assert_eq!(p.payload, bytes);
}

#[test]
fn order_request_ids_are_fresh_uuids() {
    let a = CartLock::new().unwrap().order_request_id;
    let b = CartLock::new().unwrap().order_request_id;
    assert_eq!(a.len(), 36);
    assert_eq!(&a[8..9], "-");
    assert_eq!(&a[14..15], "4");
    assert_eq!(CartLock::from_bytes([0; 16]).order_request_id, "00000000-0000-4000-8000-000000000000");
    assert_eq!(CartLock::from_bytes([0xff; 16]).order_request_id, "ffffffff-ffff-4fff-bfff-ffffffffffff");
    assert!(["8", "9", "a", "b"].contains(&&a[19..20]));
    assert_ne!(a, b);
}

#[test]
fn repository_outcomes() {
    assert_eq!(signin_outcome(Some(5)).unwrap(), 5);
    match signin_outcome::<i32>(None) {
        Err(DbError::Custom(d)) => assert_eq!(d, "Cannot fund User"),
        _ => panic!(),
    }
    match product_outcome::<i32>(None) {
        Err(DbError::Custom(d)) => assert_eq!(d, "Product not found in DB"),
        _ => panic!(),
    }
    match details_outcome::<i32>(None) {
        Err(DbError::Query(d)) => assert_eq!(d, "Product not found"),
        _ => panic!(),
    }
    let user = NewUser::new(String::from("e"), String::from("p"), String::from("a"), String::from("t"));
    assert_eq!(user.role, "USER");
    let items = vec![
        CartItem { id: 1, user_id: 2, product_id: 10, order_request_id: None },
        CartItem { id: 2, user_id: 2, product_id: 11, order_request_id: None },
    ];
    assert_eq!(product_ids(&items), vec![10, 11]);
}

#[test]
fn client_reports_product() {
    let client = get_clients();
    let details = client.get_product_details(9).unwrap();
    assert_eq!(details.product_id, 9);
    assert_eq!(details.name, "x");
}

#[test]
fn gateway_forwards_to_service() {
    assert_eq!(proxy_uri("authserv", "/auth/login", Some("/auth/login?x=1")), "http://authserv/auth/login?x=1");
    assert_eq!(proxy_uri("inventoryserv", "/inventory", None), "http://inventoryserv/inventory");
}

#[test]
fn config_sources_follow_run_mode() {
    let plan = Settings::config_plan(None);
    assert_eq!(plan.files[1].name, "config/Development");
    assert_eq!(plan.env_override, "Development");
    let plan = Settings::config_plan(Some(String::from("Production")));
    assert_eq!(plan.files[0].name, "config/Default");
    assert!(plan.files[0].required);
    assert_eq!(plan.files[1].name, "config/Production");
    assert!(!plan.files[2].required);
    assert_eq!(plan.env_prefix, "order");
}

#[test]
fn bearer_claims() {
    assert_eq!(claims_from_bearer(None).unwrap_err(), AuthError::InvalidToken);
    assert_eq!(claims_from_bearer(Some(Err(Error::JwtError(String::from("bad"))))).unwrap_err(), AuthError::InvalidToken);
    let c = Claims::issued_at(String::from("a"), 1, String::from("USER"), 0);
    assert_eq!(claims_from_bearer(Some(Ok(c))).unwrap().user_id, 1);
}

#[test]
fn table_definitions() {
    let user = user_table();
    assert_eq!(user.name, "user");
    let names: Vec<&str> = user.columns.iter().map(|c| c.name.as_str()).collect();
    assert_eq!(names, vec!["id", "email", "password", "address", "phone", "created_at", "updated_at"]);
    assert!(user.columns[0].primary_key && user.columns[0].auto_increment);
    assert_eq!(user.columns[0].kind, ColumnType::Integer);
    assert!(user.columns[1].unique && !user.columns[1].nullable);
    assert_eq!(user.columns[6].extra.as_deref(), Some("DEFAULT CURRENT_TIMESTAMP ON UPDATE CURRENT_TIMESTAMP"));

    let cart = cart_table();
    assert_eq!(cart.name, "cart");
    let order = &cart.columns[3];
    assert_eq!(order.name, "order_request_id");
    assert_eq!(order.kind, ColumnType::Uuid);
    assert!(order.nullable);
    assert!(cart.columns.iter().filter(|c| c.primary_key).count() == 1);

    let product = product_table();
    assert_eq!(product.columns[3].kind, ColumnType::Float);
    assert_eq!(product.columns.len(), 6);
    assert_eq!(product.columns[4].name, "created_at");

    let runs: Vec<(String, String)> = migrations().into_iter().map(|m| (m.name, m.table.name)).collect();
    assert_eq!(
        runs,
        vec![
            (String::from("create_user_table"), String::from("user")),
            (String::from("create_product_table"), String::from("product")),
            (String::from("create_cart_table"), String::from("cart")),
        ]
    );
}
