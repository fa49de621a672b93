use carte_etoile::app::App;
use carte_etoile::apple::extractors::{Auth, DeviceRegistrationPushToken};
use carte_etoile::apple::webhook_server::handler::device_deregistration;
use carte_etoile::apple::webhook_server::handler::device_registration;
use carte_etoile::apple::webhook_server::handler::{
    handle_device_deregistration, handle_device_registration, handle_get_pass,
};
use carte_etoile::apple::webhook_server::middleware::auth::{
    check_pass_auth, PathParams, UNAUTHORIZED,
};
use carte_etoile::db::queries::{
    correct_serial_number_auth_token, insert_device_if_not_exist, pass_registered_for_device,
    push_tokens_from_serial_number,
};
use carte_etoile::db::{Database, DbDevice, DbPass, DbPassTypeHelper, DbPassTypeLoyality};
use carte_etoile::error::{DatabaseError, Error};
use carte_etoile::image::ImageMaker;
use carte_etoile::wallet::{ISignConfig, PassMaker};

const TEMPLATE: &str = "pass.example.loyalty";

fn app() -> App {
    let maker = PassMaker::new(
        ISignConfig::from_parts(vec![1, 2, 3], vec![4, 5, 6]),
        "TEAM".to_string(),
        TEMPLATE.to_string(),
        "https://example.org/passes".to_string(),
        "logo.png".to_string(),
        "icon.png".to_string(),
        ImageMaker::new(600, 200),
    )
    .unwrap();
    App::new(maker, Database::new())
}

fn app_with_passes(passes: &[(&str, &str)]) -> App {
    let mut app = app();
    for (serial, token) in passes {
        app.add_pass_with(serial.to_string(), token.to_string(), "Holder", 1_000).unwrap();
    }
    app
}

fn registration(device: &str, serial: &str) -> device_registration::PathParams {
    device_registration::PathParams {
        device_library_id: device.to_string(),
        serial_number: serial.to_string(),
    }
}

fn deregistration(device: &str, serial: &str) -> device_deregistration::PathParams {
    device_deregistration::PathParams {
        device_library_id: device.to_string(),
        serial_number: serial.to_string(),
    }
}

fn push_token(token: &str) -> DeviceRegistrationPushToken {
    DeviceRegistrationPushToken { push_token: token.to_string() }
}

fn auth(token: &str) -> Auth {
    Auth(token.to_string())
}

#[test]
fn registering_twice_reports_new_then_known() {
    let mut app = app_with_passes(&[("s", "secret")]);
    assert_eq!(app.apple_device_registration("d", "s", "t1", 10), Ok(false));
    assert_eq!(app.apple_device_registration("d", "s", "t2", 20), Ok(true));
    let db = app.database();
    assert_eq!(db.registrations().len(), 1);
    assert_eq!(db.registrations()[0].device_library_id, "d");
    assert_eq!(db.registrations()[0].pass_serial_number, "s");
    assert_eq!(db.registrations()[0].created_at, 10);
    assert_eq!(db.devices().len(), 1);
    assert_eq!(
        db.devices()[0],
        DbDevice {
            device_library_id: "d".to_string(),
            push_token: "t2".to_string(),
            created_at: 10,
            last_updated_at: 20,
        }
    );
}

#[test]
fn registering_for_a_missing_pass_is_refused_and_changes_nothing() {
    let mut app = app();
    assert_eq!(
        app.apple_device_registration("d", "nope", "t", 10),
        Err(Error::Database(DatabaseError::ForeignKeyViolation))
    );
    assert!(app.database().devices().is_empty());
    assert!(app.database().registrations().is_empty());
}

#[test]
fn last_deregistration_removes_the_device() {
    let mut app = app_with_passes(&[("s1", "a"), ("s2", "b")]);
    app.apple_device_registration("d", "s1", "t", 10).unwrap();
    app.apple_device_registration("d", "s2", "t", 11).unwrap();
    assert_eq!(DbDevice::count_of_passes("d", app.database()), 2);

    app.apple_device_unregistration("d", "s1");
    assert_eq!(app.database().devices().len(), 1);
    assert_eq!(DbDevice::count_of_passes("d", app.database()), 1);
    assert!(pass_registered_for_device("d", "s2", app.database()));
    assert!(!pass_registered_for_device("d", "s1", app.database()));

    app.apple_device_unregistration("d", "s2");
    assert!(app.database().devices().is_empty());
    assert!(app.database().registrations().is_empty());
    assert_eq!(DbDevice::count_of_passes("d", app.database()), 0);
}

#[test]
fn deregistration_keeps_the_pass_and_other_devices() {
    let mut app = app_with_passes(&[("s1", "a")]);
    app.apple_device_registration("d1", "s1", "t1", 10).unwrap();
    app.apple_device_registration("d2", "s1", "t2", 11).unwrap();
    app.apple_device_unregistration("d1", "s1");
    assert!(DbPass::pass_exists("s1", app.database()));
    assert_eq!(DbPass::count_of_devices("s1", app.database()), 1);
    assert_eq!(app.notification_targets("s1"), vec!["t2".to_string()]);
    app.apple_device_unregistration("d2", "s1");
    assert!(DbPass::pass_exists("s1", app.database()));
    assert_eq!(DbPass::count_of_devices("s1", app.database()), 0);
}

#[test]
fn deregistering_what_is_not_registered_is_no_error() {
    let mut app = app_with_passes(&[("s1", "a"), ("s2", "b")]);
    app.apple_device_registration("d", "s1", "t", 10).unwrap();
    app.apple_device_unregistration("d", "s2");
    app.apple_device_unregistration("other", "s1");
    assert_eq!(app.database().devices().len(), 1);
    assert!(pass_registered_for_device("d", "s1", app.database()));
}

#[test]
fn authorisation_needs_the_secret_of_that_pass() {
    let app = app_with_passes(&[("s1", "right"), ("s2", "other")]);
    let db = app.database();
    assert!(correct_serial_number_auth_token("s1", "right", db));
    assert!(!correct_serial_number_auth_token("s1", "wrong", db));
    assert!(!correct_serial_number_auth_token("s1", "other", db));
    assert!(!correct_serial_number_auth_token("s1", "", db));
    assert!(!correct_serial_number_auth_token("nonexistent", "right", db));
    assert!(!correct_serial_number_auth_token("nonexistent", "", db));
    assert!(correct_serial_number_auth_token("s2", "other", db));
}

#[test]
fn the_gate_answers_unauthorised_alike_for_missing_and_wrong() {
    let app = app_with_passes(&[("s1", "right")]);
    let s1 = PathParams { serial_number: "s1".to_string() };
    let missing = PathParams { serial_number: "missing".to_string() };
    assert_eq!(check_pass_auth(&app, &s1, &auth("right")), Ok(()));
    assert_eq!(check_pass_auth(&app, &s1, &auth("wrong")), Err(Error::HttpStatus(401)));
    assert_eq!(check_pass_auth(&app, &missing, &auth("right")), Err(Error::HttpStatus(401)));
    assert_eq!(UNAUTHORIZED, 401);
}

#[test]
fn unauthorised_registration_changes_nothing() {
    let mut app = app_with_passes(&[("s1", "right")]);
    let r = handle_device_registration(
        &mut app,
        &registration("d", "s1"),
        &auth("wrong"),
        &push_token("t"),
        10,
    );
    assert_eq!(r, Err(Error::HttpStatus(401)));
    assert!(app.database().devices().is_empty());
    let r = handle_device_registration(
        &mut app,
        &registration("d", "gone"),
        &auth("right"),
        &push_token("t"),
        10,
    );
    assert_eq!(r, Err(Error::HttpStatus(401)));
    assert!(app.database().devices().is_empty());
}

#[test]
fn unauthorised_deregistration_changes_nothing() {
    let mut app = app_with_passes(&[("s1", "right")]);
    app.apple_device_registration("d", "s1", "t", 10).unwrap();
    let r = handle_device_deregistration(&mut app, &deregistration("d", "s1"), &auth("wrong"));
    assert_eq!(r, Err(Error::HttpStatus(401)));
    assert!(pass_registered_for_device("d", "s1", app.database()));
    let r = handle_device_deregistration(&mut app, &deregistration("d", "s1"), &auth("right"));
    assert_eq!(r, Ok(200));
    assert!(!pass_registered_for_device("d", "s1", app.database()));
    assert!(app.database().devices().is_empty());
}

#[test]
fn end_to_end_registration_rotation_and_notification() {
    let mut app = app_with_passes(&[("pass1", "secret")]);
    let first = handle_device_registration(
        &mut app,
        &registration("dev1", "pass1"),
        &auth("secret"),
        &push_token("tok1"),
        10,
    );
    assert_eq!(first, Ok(201));
    let second = handle_device_registration(
        &mut app,
        &registration("dev1", "pass1"),
        &auth("secret"),
        &push_token("tok2"),
        20,
    );
    assert_eq!(second, Ok(200));
    assert_eq!(push_tokens_from_serial_number("pass1", app.database()), vec!["tok2".to_string()]);

    let to_notify = app.pass_loyality_add_points("pass1", 1, 2_000).unwrap();
    assert_eq!(to_notify, vec!["tok2".to_string()]);
    assert_eq!(DbPass::from_serial_number("pass1", app.database()).unwrap().last_updated_at, 2_000);

    let sent = std::cell::RefCell::new(Vec::new());
    let round = app.send_update_pass_notification("pass1", |token: &String| {
        sent.borrow_mut().push(token.clone());
        carte_etoile::apple::apn::PushOutcome::Delivered
    });
    assert_eq!(sent.into_inner(), vec!["tok2".to_string()]);
    assert_eq!(round.len(), 1);
    assert_eq!(round[0].push_token, "tok2");
    assert_eq!(app.database().devices().len(), 1);
}

#[test]
fn the_store_query_registers_in_one_step() {
    let mut db = Database::new();
    DbPass {
        serial_number: "p".to_string(),
        pass_type_id: TEMPLATE.to_string(),
        auth_token: "a".to_string(),
        last_updated_at: 1,
        created_at: 1,
        kind: DbPassTypeHelper::Loyality,
    }
    .insert(&mut db)
    .unwrap();
    assert_eq!(
        insert_device_if_not_exist("d", "t", "missing", 5, &mut db),
        Err(Error::Database(DatabaseError::ForeignKeyViolation))
    );
    assert!(db.devices().is_empty());
    assert_eq!(insert_device_if_not_exist("d", "t", "p", 5, &mut db), Ok(()));
    assert_eq!(db.devices().len(), 1);
    assert_eq!(db.registrations().len(), 1);
    assert_eq!(DbPassTypeLoyality::from_serial_number_optional("p", &db), None);
}

#[test]
fn fetching_a_pass_needs_its_secret() {
    let mut app = app_with_passes(&[("pass1", "secret")]);
    app.pass_loyality_add_points("pass1", 3, 2_000).unwrap();
    let (state, changed) = handle_get_pass(&app, &auth("secret"), "pass1").unwrap();
    assert_eq!(changed, 2_000);
    assert_eq!(state.serial_number, "pass1");
    assert_eq!(state.authentication_token, "secret");
    assert_eq!(state.loyality_pass.current_points, 3);
    assert_eq!(state.loyality_pass.total_points, 10);
    assert_eq!(state.loyality_pass.already_redeemed, 0);
    assert_eq!(state.loyality_pass.pass_holder_name, "Holder");
    assert_eq!(state.loyality_pass.last_use, Some(2_000));
    assert_eq!(handle_get_pass(&app, &auth("nope"), "pass1"), Err(Error::HttpStatus(401)));
    assert_eq!(handle_get_pass(&app, &auth("secret"), "pass2"), Err(Error::HttpStatus(401)));
}
