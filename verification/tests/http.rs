use carte_etoile::app::{can_add_points, default_http_listener_host, App};
use carte_etoile::apple::extractors::{
    ApplePass, Auth, DeviceRegistrationPath, Logs, SCHEME,
};
use carte_etoile::db::{Database, DbPassTypeLoyality};
use carte_etoile::error::{DatabaseError, Error, OidcValidationError, Rejection};
use carte_etoile::http::handler::{
    handle_add_points_to_loyality_card, handle_create_pass, handle_get_loyality_pass,
    handle_loyality_card_redeem_bonus, AddPointsToLoyalityCardPathParams,
    GetLoyalityPassPathParams, GetLoyalityPassResponse, JsonBody,
    LoyalityCardRedeemBonusPathParams, DEFAULT_PASS_HOLDER_NAME,
};
use carte_etoile::http::middleware::oidc_auth;
use carte_etoile::http::{ClientError, RequestContext, TokenClaims};
use carte_etoile::image::ImageMaker;
use carte_etoile::wallet::{ISignConfig, PassMaker};

fn app() -> App {
    let maker = PassMaker::new(
        ISignConfig::from_parts(vec![], vec![]),
        "TEAM".to_string(),
        "pass.example.loyalty".to_string(),
        "https://example.org/passes".to_string(),
        "logo.png".to_string(),
        "icon.png".to_string(),
        ImageMaker::new(600, 200),
    )
    .unwrap();
    App::new(maker, Database::new())
}

fn internal() -> ClientError {
    ClientError {
        error_name: "InternalServerError",
        status: 500,
        request_id: None,
        error_details: Some("Something went wrong on our side".to_string()),
        client_message: Some("Something went wrong"),
    }
}

#[test]
fn failures_of_the_service_are_answered_as_internal_errors() {
    assert_eq!(ClientError::new_internal_server_error(), internal());
    let errors = vec![
        Error::Unknown,
        Error::Other("x".to_string()),
        Error::IO("x".to_string()),
        Error::Database(DatabaseError::RowNotFound),
        Error::Database(DatabaseError::UniqueViolation),
        Error::Database(DatabaseError::ForeignKeyViolation),
        Error::Database(DatabaseError::NumericValueOutOfRange),
        Error::DatabaseMigration("x".to_string()),
        Error::OpenSsl("x".to_string()),
        Error::AppleApn("x".to_string()),
        Error::Image("x".to_string()),
        Error::OidcValidate(OidcValidationError::CacheError),
        Error::OidcValidateBuild("x".to_string()),
        Error::Env("x".to_string()),
    ];
    for e in errors {
        assert_eq!(ClientError::from(e), internal());
    }
}

#[test]
fn invalid_identity_tokens_are_answered_with_417() {
    for e in [
        OidcValidationError::ValidationFailed,
        OidcValidationError::MissingKIDToken,
        OidcValidationError::MissingKIDJWKS,
    ] {
        assert_eq!(
            ClientError::from(Error::OidcValidate(e)),
            ClientError {
                error_name: "JwtMissingKidField",
                status: 417,
                request_id: None,
                error_details: Some(
                    "The access token provided does not have the required shape.".to_string()
                ),
                client_message: Some(
                    "The auth token is not valid. Please try to log out and in again."
                ),
            }
        );
    }
}

#[test]
fn errors_of_the_request_are_answered_by_name() {
    assert_eq!(
        ClientError::from(Error::PassNotFound),
        ClientError {
            error_name: "PassNotFound",
            status: 404,
            request_id: None,
            error_details: Some("this pass does not exist".to_string()),
            client_message: Some("the pass you search for does not exist."),
        }
    );
    assert_eq!(
        ClientError::from(Error::InvalidRequest("no such field".to_string())),
        ClientError {
            error_name: "InvalidRequest",
            status: 400,
            request_id: None,
            error_details: Some("no such field".to_string()),
            client_message: None,
        }
    );
    assert_eq!(
        ClientError::from(Error::InvalidAmountOfPoints),
        ClientError {
            error_name: "InvalidAmountOfPoints",
            status: 400,
            request_id: None,
            error_details: Some("the amount of points entered are not valid".to_string()),
            client_message: Some(
                "The amount of points entered are not valid. Are they maybe lower / higher than possible?"
            ),
        }
    );
    assert_eq!(
        ClientError::from(Error::AxumPathRejection(Rejection {
            status: 404,
            body_text: "No paths parameters found".to_string(),
        })),
        ClientError {
            error_name: "PathRejection",
            status: 404,
            request_id: None,
            error_details: Some("No paths parameters found".to_string()),
            client_message: None,
        }
    );
    assert_eq!(
        ClientError::from(Error::AxumJsonRejection(Rejection {
            status: 422,
            body_text: "missing field `pushToken`".to_string(),
        })),
        ClientError {
            error_name: "JsonRejection",
            status: 422,
            request_id: None,
            error_details: Some("missing field `pushToken`".to_string()),
            client_message: None,
        }
    );
    assert_eq!(
        ClientError::from(Error::AxumTypedHeaderRejection("bad header".to_string())),
        ClientError {
            error_name: "HeaderRejection",
            status: 400,
            request_id: None,
            error_details: Some("bad header".to_string()),
            client_message: None,
        }
    );
    assert_eq!(
        ClientError::from(Error::HttpStatus(401)),
        ClientError {
            error_name: "HttpStatus",
            status: 401,
            request_id: None,
            error_details: None,
            client_message: None,
        }
    );
}

#[test]
fn an_answer_can_carry_the_id_of_its_request() {
    let context = RequestContext::new(1_700_000_000_000);
    let answer = ClientError::from(Error::PassNotFound)
        .with_request_id(context.request_id().to_string());
    assert_eq!(answer.request_id.as_deref(), Some(context.request_id()));
    assert_eq!(answer.status, 404);
    assert_eq!(answer.error_name, "PassNotFound");
}

#[test]
fn request_ids_are_fresh_identifiers() {
    let a = RequestContext::new(1_497_624_119_001);
    let b = RequestContext::new(1_497_624_119_001);
    assert_ne!(a.request_id(), b.request_id());
    assert_eq!(a.request_id().len(), 36);
    assert_eq!(a.clone().request_id(), a.request_id());
    let parsed = uuid::Uuid::parse_str(a.request_id()).unwrap();
    assert_eq!(parsed.get_version_num(), 7);
    assert!(a.request_id().starts_with("015cb15a-86d9-7"));
    assert_eq!(parsed.get_timestamp().unwrap().to_unix(), (1_497_624_119, 1_000_000));
    let early = RequestContext::new(-5);
    let parsed = uuid::Uuid::parse_str(early.request_id()).unwrap();
    assert_eq!(parsed.get_timestamp().unwrap().to_unix(), (0, 0));
}

#[test]
fn a_valid_identity_token_lets_its_subject_pass() {
    assert_eq!(oidc_auth(Ok(TokenClaims { sub: "operator-1".to_string() })), Ok("operator-1".to_string()));
    assert_eq!(
        oidc_auth(Err(OidcValidationError::MissingKIDToken)),
        Err(Error::OidcValidate(OidcValidationError::MissingKIDToken))
    );
    assert_eq!(
        oidc_auth(Err(OidcValidationError::CacheError)),
        Err(Error::OidcValidate(OidcValidationError::CacheError))
    );
}

#[test]
fn the_secret_stands_behind_the_scheme() {
    assert_eq!(SCHEME, "ApplePass");
    assert_eq!(ApplePass("ApplePass abc".to_string()).token(), "abc");
    assert_eq!(ApplePass("ApplePass    abc def ".to_string()).token(), "abc def ");
    assert_eq!(ApplePass("ApplePass \t\n x".to_string()).token(), "x");
    assert_eq!(ApplePass("ApplePass ".to_string()).token(), "");
    assert_eq!(ApplePass("applepass \u{e9}t\u{e9}".to_string()).token(), "\u{e9}t\u{e9}");
    assert_eq!(
        ApplePass::decode("ApplePass abc"),
        Some(ApplePass("ApplePass abc".to_string()))
    );
}

#[test]
fn the_authorization_header_is_read_by_its_scheme() {
    assert_eq!(Auth::from_header(Some("ApplePass secret")), Ok(Auth("secret".to_string())));
    assert_eq!(Auth::from_header(Some("applepass secret")), Ok(Auth("secret".to_string())));
    assert_eq!(Auth::from_header(Some("APPLEPASS   secret")), Ok(Auth("secret".to_string())));
    assert_eq!(Auth::from_header(Some("ApplePass ")), Ok(Auth(String::new())));
    let invalid = Err(Error::AxumTypedHeaderRejection(
        "invalid HTTP header (authorization)".to_string(),
    ));
    assert_eq!(Auth::from_header(Some("ApplePass")), invalid);
    assert_eq!(Auth::from_header(Some("ApplePasssecret")), invalid);
    assert_eq!(Auth::from_header(Some("Bearer secret")), invalid);
    assert_eq!(Auth::from_header(Some("ApplePas\u{17f} secret")), invalid);
    assert_eq!(Auth::from_header(Some("")), invalid);
    assert_eq!(Auth::from_header(Some("[pplePass secret")), invalid);
    assert_eq!(
        Auth::from_header(None),
        Err(Error::AxumTypedHeaderRejection(
            "Header of type `authorization` was missing".to_string()
        ))
    );
}

#[test]
fn request_parts_hold_what_they_were_given() {
    let path = DeviceRegistrationPath::from_segments((
        "device".to_string(),
        "template".to_string(),
        "serial".to_string(),
    ));
    assert_eq!(
        path,
        DeviceRegistrationPath {
            device_library_id: "device".to_string(),
            pass_type_id: "template".to_string(),
            serial_number: "serial".to_string(),
        }
    );
    let logs = Logs { logs: vec!["one".to_string()] };
    assert_eq!(logs.logs.len(), 1);
    assert_eq!(default_http_listener_host(), "127.0.0.1:3000");
    assert_eq!(JsonBody::new(7).add_points(), 7);
}

#[test]
fn a_pass_is_issued_with_an_empty_card() {
    let mut app = app();
    let (state, serial) = handle_create_pass(&mut app, 5_000).unwrap();
    assert_eq!(state.serial_number, serial);
    assert_eq!(serial.len(), 36);
    let parsed = uuid::Uuid::parse_str(&serial).unwrap();
    assert_eq!(parsed.get_version_num(), 7);
    assert_eq!(parsed.get_timestamp().unwrap().to_unix(), (5, 0));
    assert_eq!(state.authentication_token.len(), 36);
    assert_ne!(state.authentication_token, serial);
    assert_eq!(state.loyality_pass.pass_holder_name, DEFAULT_PASS_HOLDER_NAME);
    assert_eq!(DEFAULT_PASS_HOLDER_NAME, "Test Name");
    assert_eq!(state.loyality_pass.total_points, 10);
    assert_eq!(state.loyality_pass.current_points, 0);
    assert_eq!(state.loyality_pass.already_redeemed, 0);
    assert_eq!(state.loyality_pass.last_use, None);

    let db = app.database();
    assert_eq!(db.passes().len(), 1);
    assert_eq!(db.passes()[0].serial_number, serial);
    assert_eq!(db.passes()[0].auth_token, state.authentication_token);
    assert_eq!(db.passes()[0].pass_type_id, "pass.example.loyalty");
    assert_eq!(db.passes()[0].created_at, 5_000);
    assert_eq!(db.passes()[0].last_updated_at, 5_000);
    assert_eq!(
        db.loyality()[0],
        DbPassTypeLoyality {
            serial_number: serial.clone(),
            already_redeemed: 0,
            total_points: 10,
            current_points: 0,
            pass_holder_name: "Test Name".to_string(),
            last_used_at: None,
        }
    );

    let (other, other_serial) = app.add_pass("Someone", 5_001).unwrap();
    assert_ne!(other_serial, serial);
    assert_eq!(other.loyality_pass.pass_holder_name, "Someone");
    assert_eq!(app.database().passes().len(), 2);
}

#[test]
fn a_serial_number_is_issued_once() {
    let mut app = app();
    app.add_pass_with("s".to_string(), "a".to_string(), "One", 1).unwrap();
    assert_eq!(
        app.add_pass_with("s".to_string(), "b".to_string(), "Two", 2),
        Err(Error::Database(DatabaseError::UniqueViolation))
    );
    assert_eq!(app.database().passes().len(), 1);
    assert_eq!(app.database().passes()[0].auth_token, "a");
    assert_eq!(app.database().loyality().len(), 1);
    assert_eq!(app.pass_maker().pass_type_identifier(), "pass.example.loyalty");
}

#[test]
fn operators_add_points_within_the_room_of_the_card() {
    let mut app = app();
    app.add_pass_with("s".to_string(), "a".to_string(), "One", 1).unwrap();
    app.apple_device_registration("d", "s", "tok", 2).unwrap();
    let params = AddPointsToLoyalityCardPathParams { serial_number: "s".to_string() };
    let missing = AddPointsToLoyalityCardPathParams { serial_number: "none".to_string() };

    assert_eq!(
        handle_add_points_to_loyality_card(&mut app, &params, &JsonBody::new(4), 10),
        Ok(vec!["tok".to_string()])
    );
    assert_eq!(
        handle_add_points_to_loyality_card(&mut app, &params, &JsonBody::new(0), 11),
        Err(Error::InvalidAmountOfPoints)
    );
    assert_eq!(
        handle_add_points_to_loyality_card(&mut app, &params, &JsonBody::new(7), 12),
        Err(Error::InvalidAmountOfPoints)
    );
    assert_eq!(
        handle_add_points_to_loyality_card(&mut app, &params, &JsonBody::new(u16::MAX), 12),
        Err(Error::InvalidAmountOfPoints)
    );
    assert_eq!(
        handle_add_points_to_loyality_card(&mut app, &missing, &JsonBody::new(1), 13),
        Err(Error::PassNotFound)
    );
    assert_eq!(
        handle_add_points_to_loyality_card(&mut app, &params, &JsonBody::new(6), 14),
        Ok(vec!["tok".to_string()])
    );
    let card = handle_get_loyality_pass(
        &app,
        &GetLoyalityPassPathParams { serial_number: "s".to_string() },
    );
    assert_eq!(
        card,
        Ok(GetLoyalityPassResponse {
            serial_number: "s".to_string(),
            already_redeemed: 0,
            total_points: 10,
            current_points: 10,
            pass_holder_name: "One".to_string(),
            last_used_at: Some(14),
        })
    );
    assert_eq!(
        handle_get_loyality_pass(
            &app,
            &GetLoyalityPassPathParams { serial_number: "none".to_string() }
        ),
        Err(Error::PassNotFound)
    );
}

#[test]
fn operators_redeem_a_full_card_only() {
    let mut app = app();
    app.add_pass_with("s".to_string(), "a".to_string(), "One", 1).unwrap();
    let params = LoyalityCardRedeemBonusPathParams { serial_number: "s".to_string() };
    let missing = LoyalityCardRedeemBonusPathParams { serial_number: "none".to_string() };
    assert_eq!(
        handle_loyality_card_redeem_bonus(&mut app, &params, 5),
        Err(Error::InvalidAmountOfPoints)
    );
    assert_eq!(
        handle_loyality_card_redeem_bonus(&mut app, &missing, 5),
        Err(Error::PassNotFound)
    );
    app.pass_loyality_add_points("s", 10, 6).unwrap();
    assert_eq!(handle_loyality_card_redeem_bonus(&mut app, &params, 7), Ok(Vec::new()));
    let card = app.get_loyality_pass("s").unwrap();
    assert_eq!(card.current_points, 0);
    assert_eq!(card.already_redeemed, 1);
    assert_eq!(card.total_points, 10);
    assert_eq!(card.last_used_at, Some(7));
    assert_eq!(app.database().passes()[0].last_updated_at, 7);
    assert_eq!(app.pass_loyality_redeem_bonus("s", 8), Err(Error::InvalidAmountOfPoints));
}

#[test]
fn points_may_be_added_up_to_the_room_that_is_left() {
    assert!(can_add_points(10, 0, 10));
    assert!(can_add_points(10, 9, 1));
    assert!(!can_add_points(10, 9, 2));
    assert!(!can_add_points(10, 10, 1));
    assert!(!can_add_points(10, 0, 0));
    assert!(can_add_points(10, 0, -1));
    assert!(!can_add_points(i32::MIN, i32::MAX, 1));
    assert!(can_add_points(i32::MAX, i32::MIN, i32::MAX));
}

#[test]
fn a_pass_is_packaged_with_its_card() {
    let mut app = app();
    app.add_pass_with("s".to_string(), "a".to_string(), "One", 1).unwrap();
    app.pass_loyality_add_points("s", 2, 9).unwrap();
    let (state, changed) = app.pass_package("s").unwrap();
    assert_eq!(changed, 9);
    assert_eq!(state.serial_number, "s");
    assert_eq!(state.authentication_token, "a");
    assert_eq!(state.loyality_pass.current_points, 2);
    assert_eq!(state.loyality_pass.last_use, Some(9));
    assert_eq!(app.pass_package("none"), Err(Error::PassNotFound));
}

#[test]
fn a_pass_without_a_card_cannot_be_packaged() {
    let bare = carte_etoile::db::DbPass {
        serial_number: "bare".to_string(),
        pass_type_id: "pass.example.loyalty".to_string(),
        auth_token: "a".to_string(),
        last_updated_at: 1,
        created_at: 1,
        kind: carte_etoile::db::DbPassTypeHelper::Loyality,
    };
    let db = Database::restore(&vec![], &vec![bare], &vec![], &vec![]).unwrap();
    let mut app = app();
    app.reload(db);
    assert_eq!(app.database().passes().len(), 1);
    assert_eq!(
        app.pass_package("bare"),
        Err(Error::Database(DatabaseError::RowNotFound))
    );
    assert_eq!(app.get_loyality_pass("bare"), Err(Error::PassNotFound));
    assert_eq!(app.pass_loyality_add_points("bare", 1, 2), Err(Error::PassNotFound));
    assert_eq!(app.pass_loyality_redeem_bonus("bare", 2), Err(Error::PassNotFound));
}

fn assert_is_v7_text(id: &str, time_digits: &str) {
    let chars: Vec<char> = id.chars().collect();
    assert_eq!(chars.len(), 36, "{id}");
    for (i, c) in chars.iter().enumerate() {
        if [8, 13, 18, 23].contains(&i) {
            assert_eq!(*c, '-', "{id}");
        } else {
            assert!("0123456789abcdef".contains(*c), "{id}");
        }
    }
    assert_eq!(chars[14], '7', "{id}");
    assert!("89ab".contains(chars[19]), "{id}");
    let digits: String = chars[0..8].iter().chain(chars[9..13].iter()).collect();
    assert_eq!(digits, time_digits, "{id}");
}

#[test]
fn an_identifier_is_written_with_its_time_first() {
    assert_is_v7_text(RequestContext::new(0).request_id(), "000000000000");
    assert_is_v7_text(RequestContext::new(-1).request_id(), "000000000000");
    assert_is_v7_text(RequestContext::new(i64::MIN).request_id(), "000000000000");
    assert_is_v7_text(RequestContext::new(1).request_id(), "000000000001");
    assert_is_v7_text(RequestContext::new(999).request_id(), "0000000003e7");
    assert_is_v7_text(RequestContext::new(1_000).request_id(), "0000000003e8");
    assert_is_v7_text(RequestContext::new(0x1f).request_id(), "00000000001f");
    assert_is_v7_text(RequestContext::new(1_497_624_119_001).request_id(), "015cb15a86d9");
    assert_is_v7_text(RequestContext::new(0xffff_ffff_ffff).request_id(), "ffffffffffff");
    assert_is_v7_text(RequestContext::new(0x1_0000_0000_0000).request_id(), "000000000000");
    assert_is_v7_text(RequestContext::new(0x1234_5678_9abc_def0).request_id(), "56789abcdef0");
    assert_is_v7_text(RequestContext::new(i64::MAX).request_id(), "ffffffffffff");
}

#[test]
fn serial_numbers_and_secrets_are_identifiers_of_their_time() {
    let mut app = app();
    let (state, serial) = app.add_pass("Someone", 0x0123_4567_89ab).unwrap();
    assert_is_v7_text(&serial, "0123456789ab");
    assert_is_v7_text(&state.authentication_token, "0123456789ab");
}

fn app_with_card(card: DbPassTypeLoyality) -> App {
    let pass = carte_etoile::db::DbPass {
        serial_number: card.serial_number.clone(),
        pass_type_id: "pass.example.loyalty".to_string(),
        auth_token: "a".to_string(),
        last_updated_at: 1,
        created_at: 1,
        kind: carte_etoile::db::DbPassTypeHelper::Loyality,
    };
    let db = Database::restore(&vec![], &vec![pass], &vec![], &vec![card]).unwrap();
    let mut app = app();
    app.reload(db);
    app
}

fn card(current_points: i32, already_redeemed: i32) -> DbPassTypeLoyality {
    DbPassTypeLoyality {
        serial_number: "s".to_string(),
        already_redeemed,
        total_points: 10,
        current_points,
        pass_holder_name: "One".to_string(),
        last_used_at: None,
    }
}

#[test]
fn a_sum_of_points_outside_the_numbers_of_the_store_is_refused() {
    let mut app = app_with_card(card(i32::MIN, 0));
    assert_eq!(
        app.pass_loyality_add_points("s", -1, 5),
        Err(Error::Database(DatabaseError::NumericValueOutOfRange))
    );
    assert_eq!(app.get_loyality_pass("s"), Ok(card(i32::MIN, 0)));
    assert_eq!(app.database().passes()[0].last_updated_at, 1);
    assert_eq!(app.pass_loyality_add_points("s", 1, 6), Ok(Vec::new()));
    assert_eq!(app.get_loyality_pass("s").unwrap().current_points, i32::MIN + 1);
}

#[test]
fn points_within_the_room_of_the_card_are_always_added() {
    for current in [0, 1, 5, 9] {
        for points in 1..=(10 - current) {
            let mut app = app_with_card(card(current, 0));
            assert_eq!(app.pass_loyality_add_points("s", points, 5), Ok(Vec::new()));
            let after = app.get_loyality_pass("s").unwrap();
            assert_eq!(after.current_points, current + points);
            assert_eq!(after.last_used_at, Some(5));
            assert_eq!(app.database().passes()[0].last_updated_at, 5);
        }
        for points in [0, 11 - current, 12, i32::MAX] {
            let mut app = app_with_card(card(current, 0));
            assert_eq!(
                app.pass_loyality_add_points("s", points, 5),
                Err(Error::InvalidAmountOfPoints)
            );
            assert_eq!(app.get_loyality_pass("s"), Ok(card(current, 0)));
            assert_eq!(app.database().passes()[0].last_updated_at, 1);
        }
    }
}

#[test]
fn a_full_card_is_redeemed_unless_the_count_is_at_its_end() {
    let mut app = app_with_card(card(10, i32::MAX - 1));
    assert_eq!(app.pass_loyality_redeem_bonus("s", 5), Ok(Vec::new()));
    assert_eq!(app.get_loyality_pass("s").unwrap().already_redeemed, i32::MAX);
    assert_eq!(app.get_loyality_pass("s").unwrap().current_points, 0);

    let mut app = app_with_card(card(10, i32::MAX));
    assert_eq!(
        app.pass_loyality_redeem_bonus("s", 5),
        Err(Error::Database(DatabaseError::NumericValueOutOfRange))
    );
    assert_eq!(app.get_loyality_pass("s"), Ok(card(10, i32::MAX)));
    assert_eq!(app.database().passes()[0].last_updated_at, 1);
    assert_eq!(
        handle_loyality_card_redeem_bonus(
            &mut app,
            &LoyalityCardRedeemBonusPathParams { serial_number: "s".to_string() },
            6
        ),
        Err(Error::Database(DatabaseError::NumericValueOutOfRange))
    );

    let mut app = app_with_card(card(9, i32::MAX));
    assert_eq!(app.pass_loyality_redeem_bonus("s", 5), Err(Error::InvalidAmountOfPoints));
}

fn has_white_space_property(c: char) -> bool {
    matches!(
        c as u32,
        0x09..=0x0d
            | 0x20
            | 0x85
            | 0xa0
            | 0x1680
            | 0x2000..=0x200a
            | 0x2028
            | 0x2029
            | 0x202f
            | 0x205f
            | 0x3000
    )
}

#[test]
fn every_character_of_white_space_is_trimmed_and_no_other() {
    let mut trimmed = 0;
    for c in '\0'..=char::MAX {
        let header = format!("ApplePass {c}x");
        let token = ApplePass(header).token().to_string();
        if has_white_space_property(c) {
            assert_eq!(token, "x", "{:x}", c as u32);
            trimmed += 1;
        } else {
            assert_eq!(token, format!("{c}x"), "{:x}", c as u32);
        }
    }
    assert_eq!(trimmed, 25);
}

#[test]
fn white_space_is_trimmed_at_the_start_only() {
    assert_eq!(ApplePass("ApplePass   tok ".to_string()).token(), "tok ");
    assert_eq!(ApplePass("ApplePass \u{3000}\t \u{a0}a b\n".to_string()).token(), "a b\n");
    assert_eq!(ApplePass("ApplePass  \u{2028}\u{85}".to_string()).token(), "");
    assert_eq!(ApplePass("ApplePass \u{200b} x".to_string()).token(), "\u{200b} x");
    assert_eq!(Auth::from_header(Some("ApplePass   tok ")), Ok(Auth("tok ".to_string())));
}
