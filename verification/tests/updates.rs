use carte_etoile::app::App;
use carte_etoile::apple::webhook_server::handler::updatable_passes_list::PathParams;
use carte_etoile::apple::webhook_server::handler::{
    handle_list_updatable_passes, QueryParams, Res,
};
use carte_etoile::db::{Database, DbPass, DbPassTypeHelper, DbPassTypeLoyality};
use carte_etoile::image::ImageMaker;
use carte_etoile::time::later;
use carte_etoile::wallet::{ISignConfig, PassMaker};

const TEMPLATE: &str = "pass.example.loyalty";

fn pass(serial: &str, template: &str, at: i64) -> DbPass {
    DbPass {
        serial_number: serial.to_string(),
        pass_type_id: template.to_string(),
        auth_token: "secret".to_string(),
        last_updated_at: at,
        created_at: at,
        kind: DbPassTypeHelper::Loyality,
    }
}

fn card(serial: &str) -> DbPassTypeLoyality {
    DbPassTypeLoyality {
        serial_number: serial.to_string(),
        already_redeemed: 0,
        total_points: 10,
        current_points: 0,
        pass_holder_name: "Holder".to_string(),
        last_used_at: None,
    }
}

fn app_with(passes: Vec<DbPass>) -> App {
    let maker = PassMaker::new(
        ISignConfig::from_parts(vec![], vec![]),
        "TEAM".to_string(),
        TEMPLATE.to_string(),
        "https://example.org/passes".to_string(),
        "logo.png".to_string(),
        "icon.png".to_string(),
        ImageMaker::new(600, 200),
    )
    .unwrap();
    let cards: Vec<DbPassTypeLoyality> = passes.iter().map(|p| card(&p.serial_number)).collect();
    let db = Database::restore(&Vec::new(), &passes, &Vec::new(), &cards).unwrap();
    App::new(maker, db)
}

fn serials(list: &[&str]) -> Vec<String> {
    list.iter().map(|s| s.to_string()).collect()
}

#[test]
fn later_is_the_maximum() {
    assert_eq!(later(1, 2), 2);
    assert_eq!(later(2, 1), 2);
    assert_eq!(later(-5, -7), -5);
    assert_eq!(later(3, 3), 3);
    assert_eq!(later(i64::MIN, i64::MAX), i64::MAX);
}

#[test]
fn the_watermark_is_the_latest_change_among_the_answer() {
    let mut app = app_with(vec![
        pass("pass1", TEMPLATE, 300),
        pass("pass2", TEMPLATE, 100),
        pass("pass3", TEMPLATE, 200),
    ]);
    for serial in ["pass1", "pass2", "pass3"] {
        app.apple_device_registration("d", serial, "t", 400).unwrap();
    }
    assert_eq!(
        app.apple_updatable_passes(TEMPLATE, "d", None, 1_000),
        (serials(&["pass1", "pass2", "pass3"]), 300)
    );
    assert_eq!(
        app.apple_updatable_passes(TEMPLATE, "d", Some(150), 1_000),
        (serials(&["pass1", "pass3"]), 300)
    );
    assert_eq!(
        app.apple_updatable_passes(TEMPLATE, "d", Some(100), 1_000),
        (serials(&["pass1", "pass2", "pass3"]), 300)
    );
    assert_eq!(
        app.apple_updatable_passes(TEMPLATE, "d", Some(300), 1_000),
        (serials(&["pass1"]), 300)
    );
    assert_eq!(app.apple_updatable_passes(TEMPLATE, "d", Some(301), 1_000), (serials(&[]), 1_000));
}

#[test]
fn the_answer_holds_the_passes_of_that_device_and_template_only() {
    let mut app = app_with(vec![
        pass("mine", TEMPLATE, 10),
        pass("other-template", "pass.example.other", 20),
        pass("not-registered", TEMPLATE, 30),
        pass("theirs", TEMPLATE, 40),
    ]);
    app.apple_device_registration("d", "mine", "t", 50).unwrap();
    app.apple_device_registration("d", "other-template", "t", 50).unwrap();
    app.apple_device_registration("e", "theirs", "u", 50).unwrap();
    assert_eq!(app.apple_updatable_passes(TEMPLATE, "d", None, 99), (serials(&["mine"]), 10));
    assert_eq!(
        app.apple_updatable_passes("pass.example.other", "d", None, 99),
        (serials(&["other-template"]), 20)
    );
    assert_eq!(app.apple_updatable_passes(TEMPLATE, "e", None, 99), (serials(&["theirs"]), 40));
    assert_eq!(app.apple_updatable_passes(TEMPLATE, "nobody", None, 99), (serials(&[]), 99));
    assert_eq!(app.apple_updatable_passes("unknown", "d", None, 99), (serials(&[]), 99));
}

#[test]
fn the_watermark_does_not_go_back_while_passes_change() {
    let mut app = app_with(vec![pass("pass1", TEMPLATE, 100), pass("pass2", TEMPLATE, 200)]);
    app.apple_device_registration("d", "pass1", "t", 250).unwrap();
    app.apple_device_registration("d", "pass2", "t", 250).unwrap();

    let (first, w1) = app.apple_updatable_passes(TEMPLATE, "d", None, 260);
    assert_eq!((first, w1), (serials(&["pass1", "pass2"]), 200));

    app.pass_loyality_add_points("pass1", 1, 300).unwrap();
    let (second, w2) = app.apple_updatable_passes(TEMPLATE, "d", Some(w1), 310);
    assert_eq!((second, w2), (serials(&["pass1", "pass2"]), 300));
    assert!(w2 >= w1);

    app.pass_loyality_add_points("pass2", 2, 400).unwrap();
    let (third, w3) = app.apple_updatable_passes(TEMPLATE, "d", Some(w2), 410);
    assert_eq!((third, w3), (serials(&["pass1", "pass2"]), 400));
    assert!(w3 >= w2);

    app.pass_loyality_add_points("pass2", 2, 500).unwrap();
    let (fourth, w4) = app.apple_updatable_passes(TEMPLATE, "d", Some(401), 510);
    assert_eq!((fourth, w4), (serials(&["pass2"]), 500));
    assert!(w4 >= w3);

    let (fifth, w5) = app.apple_updatable_passes(TEMPLATE, "d", Some(501), 520);
    assert_eq!((fifth, w5), (serials(&[]), 520));
    assert!(w5 >= w4);
}

#[test]
fn a_change_stamped_earlier_does_not_move_the_pass_back() {
    let mut app = app_with(vec![pass("pass1", TEMPLATE, 1_000)]);
    app.pass_loyality_add_points("pass1", 1, 900).unwrap();
    assert_eq!(DbPass::from_serial_number("pass1", app.database()).unwrap().last_updated_at, 1_000);
    app.pass_loyality_add_points("pass1", 1, 1_100).unwrap();
    assert_eq!(DbPass::from_serial_number("pass1", app.database()).unwrap().last_updated_at, 1_100);
}

#[test]
fn the_handler_answers_with_serial_numbers_and_watermark() {
    let mut app = app_with(vec![pass("pass1", TEMPLATE, 100), pass("pass2", TEMPLATE, 200)]);
    app.apple_device_registration("d", "pass1", "t", 250).unwrap();
    app.apple_device_registration("d", "pass2", "t", 250).unwrap();
    let path = PathParams { device_library_id: "d".to_string(), pass_type_id: TEMPLATE.to_string() };
    assert_eq!(
        handle_list_updatable_passes(QueryParams { passes_updated_since: None }, &path, &app, 7),
        Res { serial_numbers: serials(&["pass1", "pass2"]), last_updated: 200 }
    );
    assert_eq!(
        handle_list_updatable_passes(
            QueryParams { passes_updated_since: Some(150) },
            &path,
            &app,
            7
        ),
        Res { serial_numbers: serials(&["pass2"]), last_updated: 200 }
    );
    assert_eq!(
        handle_list_updatable_passes(
            QueryParams { passes_updated_since: Some(201) },
            &path,
            &app,
            7
        ),
        Res { serial_numbers: serials(&[]), last_updated: 7 }
    );
}

#[test]
fn the_store_finds_changed_passes_in_the_order_of_issue() {
    let mut app = app_with(vec![pass("b", TEMPLATE, 5), pass("a", TEMPLATE, 9)]);
    app.apple_device_registration("d", "a", "t", 10).unwrap();
    app.apple_device_registration("d", "b", "t", 11).unwrap();
    let found =
        DbPass::from_pass_type_last_updated_device_library_id(TEMPLATE, Some(5), "d", app.database());
    assert_eq!(found, vec![pass("b", TEMPLATE, 5), pass("a", TEMPLATE, 9)]);
    let found =
        DbPass::from_pass_type_last_updated_device_library_id(TEMPLATE, Some(6), "d", app.database());
    assert_eq!(found, vec![pass("a", TEMPLATE, 9)]);
}
