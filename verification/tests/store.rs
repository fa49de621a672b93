use carte_etoile::db::queries::{
    correct_serial_number_auth_token, insert_device_if_not_exist, pass_registered_for_device,
    push_tokens_from_serial_number,
};
use carte_etoile::db::{
    Database, DbDevice, DbDevicePassRegistration, DbPass, DbPassType, DbPassTypeHelper,
    DbPassTypeLoyality,
};
use carte_etoile::error::{DatabaseError, Error};

fn pass(serial: &str, token: &str, at: i64) -> DbPass {
    DbPass {
        serial_number: serial.to_string(),
        pass_type_id: "pass.example.loyalty".to_string(),
        auth_token: token.to_string(),
        last_updated_at: at,
        created_at: at,
        kind: DbPassTypeHelper::Loyality,
    }
}

#[test]
fn registration_refreshes_the_push_token() {
    let mut db = Database::new();
    pass("pass1", "secret", 10).insert(&mut db).unwrap();
    assert!(!pass_registered_for_device("dev1", "pass1", &db));
    insert_device_if_not_exist("dev1", "tok1", "pass1", 20, &mut db).unwrap();
    assert!(pass_registered_for_device("dev1", "pass1", &db));
    insert_device_if_not_exist("dev1", "tok2", "pass1", 30, &mut db).unwrap();
    assert_eq!(push_tokens_from_serial_number("pass1", &db), vec!["tok2".to_string()]);
    assert!(correct_serial_number_auth_token("pass1", "secret", &db));
    assert!(!correct_serial_number_auth_token("pass1", "wrong", &db));
}

fn card(serial: &str, current: i32) -> DbPassTypeLoyality {
    DbPassTypeLoyality {
        serial_number: serial.to_string(),
        already_redeemed: 0,
        total_points: 10,
        current_points: current,
        pass_holder_name: "Holder".to_string(),
        last_used_at: None,
    }
}

fn device(id: &str, token: &str) -> DbDevice {
    DbDevice {
        device_library_id: id.to_string(),
        push_token: token.to_string(),
        created_at: 1,
        last_updated_at: 2,
    }
}

fn link(device: &str, serial: &str) -> DbDevicePassRegistration {
    DbDevicePassRegistration {
        device_library_id: device.to_string(),
        pass_serial_number: serial.to_string(),
        created_at: 3,
    }
}

fn unique() -> Error {
    Error::Database(DatabaseError::UniqueViolation)
}

fn not_found() -> Error {
    Error::Database(DatabaseError::RowNotFound)
}

#[test]
fn a_new_store_is_empty() {
    let db = Database::new();
    assert!(db.devices().is_empty());
    assert!(db.passes().is_empty());
    assert!(db.registrations().is_empty());
    assert!(db.loyality().is_empty());
    assert!(!DbPass::pass_exists("p", &db));
    assert_eq!(DbPass::count_of_devices("p", &db), 0);
    assert_eq!(DbDevice::count_of_passes("d", &db), 0);
    assert_eq!(push_tokens_from_serial_number("p", &db), Vec::<String>::new());
    assert!(!correct_serial_number_auth_token("p", "", &db));
}

#[test]
fn passes_are_found_by_serial_number() {
    let mut db = Database::new();
    assert_eq!(pass("pass1", "a", 10).insert(&mut db), Ok(()));
    assert_eq!(pass("pass2", "b", 20).insert(&mut db), Ok(()));
    assert_eq!(pass("pass1", "c", 30).insert(&mut db), Err(unique()));
    assert_eq!(db.passes().len(), 2);
    assert!(DbPass::pass_exists("pass1", &db));
    assert!(!DbPass::pass_exists("pass3", &db));
    assert_eq!(DbPass::from_serial_number("pass1", &db), Ok(pass("pass1", "a", 10)));
    assert_eq!(DbPass::from_serial_number("pass3", &db), Err(not_found()));
    assert_eq!(DbPass::from_serial_number_optional("pass2", &db), Some(pass("pass2", "b", 20)));
    assert_eq!(DbPass::from_serial_number_optional("pass3", &db), None);
}

#[test]
fn loyalty_cards_are_found_by_serial_number() {
    let mut db = Database::new();
    pass("pass1", "a", 10).insert(&mut db).unwrap();
    assert_eq!(DbPassTypeHelper::Loyality.from_serial_number("pass1", &db), Err(not_found()));
    assert_eq!(DbPassType::Loyality(card("pass1", 4)).insert(&mut db), Ok(()));
    assert_eq!(card("pass1", 5).insert(&mut db), Err(unique()));
    assert_eq!(DbPassTypeLoyality::from_serial_number("pass1", &db), Ok(card("pass1", 4)));
    assert_eq!(DbPassTypeLoyality::from_serial_number("pass2", &db), Err(not_found()));
    assert_eq!(DbPassTypeLoyality::from_serial_number_optional("pass1", &db), Some(card("pass1", 4)));
    assert_eq!(DbPassTypeLoyality::from_serial_number_optional("pass2", &db), None);
    assert_eq!(
        DbPassTypeHelper::Loyality.from_serial_number("pass1", &db),
        Ok(DbPassType::Loyality(card("pass1", 4)))
    );
    assert_eq!(DbPassTypeHelper::from(DbPassType::Loyality(card("x", 0))), DbPassTypeHelper::Loyality);
}

#[test]
fn points_are_added_and_the_pass_is_stamped() {
    let mut db = Database::new();
    pass("pass1", "a", 10).insert(&mut db).unwrap();
    card("pass1", 4).insert(&mut db).unwrap();
    assert_eq!(DbPassTypeLoyality::add_points("pass1", 3, 50, &mut db), Ok(()));
    let l = DbPassTypeLoyality::from_serial_number("pass1", &db).unwrap();
    assert_eq!((l.current_points, l.last_used_at, l.already_redeemed), (7, Some(50), 0));
    assert_eq!(DbPass::from_serial_number("pass1", &db).unwrap().last_updated_at, 50);
    assert_eq!(DbPass::from_serial_number("pass1", &db).unwrap().created_at, 10);

    assert_eq!(
        DbPassTypeLoyality::add_points("pass1", i32::MAX, 60, &mut db),
        Err(Error::Database(DatabaseError::NumericValueOutOfRange))
    );
    assert_eq!(DbPassTypeLoyality::from_serial_number("pass1", &db).unwrap().current_points, 7);
    assert_eq!(DbPass::from_serial_number("pass1", &db).unwrap().last_updated_at, 50);

    assert_eq!(DbPassTypeLoyality::add_points("none", 1, 70, &mut db), Ok(()));
    assert_eq!(db.loyality().len(), 1);
    assert_eq!(DbPassTypeLoyality::from_serial_number("pass1", &db).unwrap().current_points, 7);
}

#[test]
fn a_card_is_redeemed_and_the_pass_is_stamped() {
    let mut db = Database::new();
    pass("pass1", "a", 10).insert(&mut db).unwrap();
    pass("pass2", "b", 10).insert(&mut db).unwrap();
    card("pass1", 10).insert(&mut db).unwrap();
    card("pass2", 10).insert(&mut db).unwrap();
    DbPassTypeLoyality::redeem_bonus("pass1", 80, &mut db).unwrap();
    let l = DbPassTypeLoyality::from_serial_number("pass1", &db).unwrap();
    assert_eq!((l.current_points, l.already_redeemed, l.last_used_at), (0, 1, Some(80)));
    assert_eq!(l.total_points, 10);
    assert_eq!(DbPass::from_serial_number("pass1", &db).unwrap().last_updated_at, 80);
    assert_eq!(DbPassTypeLoyality::from_serial_number("pass2", &db), Ok(card("pass2", 10)));
    assert_eq!(DbPass::from_serial_number("pass2", &db).unwrap().last_updated_at, 10);
}

#[test]
fn deleting_a_device_takes_its_registrations() {
    let mut db = Database::new();
    pass("pass1", "a", 10).insert(&mut db).unwrap();
    pass("pass2", "b", 10).insert(&mut db).unwrap();
    insert_device_if_not_exist("d1", "t1", "pass1", 20, &mut db).unwrap();
    insert_device_if_not_exist("d1", "t1", "pass2", 21, &mut db).unwrap();
    insert_device_if_not_exist("d2", "t2", "pass1", 22, &mut db).unwrap();
    assert_eq!(DbDevice::count_of_passes("d1", &db), 2);
    assert_eq!(DbPass::count_of_devices("pass1", &db), 2);

    DbDevice::remove_pass("d1", "pass1", &mut db);
    assert_eq!(DbDevice::count_of_passes("d1", &db), 1);
    assert_eq!(db.devices().len(), 2);
    DbDevice::remove_pass("d1", "pass1", &mut db);
    assert_eq!(DbDevice::count_of_passes("d1", &db), 1);

    DbDevice::delete("d1", &mut db);
    assert_eq!(db.devices().len(), 1);
    assert_eq!(db.devices()[0].device_library_id, "d2");
    assert_eq!(db.registrations(), &vec![DbDevicePassRegistration {
        device_library_id: "d2".to_string(),
        pass_serial_number: "pass1".to_string(),
        created_at: 22,
    }]);
    DbDevice::delete("d1", &mut db);
    assert_eq!(db.devices().len(), 1);
}

#[test]
fn deleting_a_pass_takes_its_registrations_and_its_card() {
    let mut db = Database::new();
    pass("pass1", "a", 10).insert(&mut db).unwrap();
    pass("pass2", "b", 10).insert(&mut db).unwrap();
    card("pass1", 1).insert(&mut db).unwrap();
    card("pass2", 2).insert(&mut db).unwrap();
    insert_device_if_not_exist("d1", "t1", "pass1", 20, &mut db).unwrap();
    insert_device_if_not_exist("d1", "t1", "pass2", 21, &mut db).unwrap();
    DbPass::delete("pass1", &mut db);
    assert_eq!(db.passes(), &vec![pass("pass2", "b", 10)]);
    assert_eq!(db.loyality(), &vec![card("pass2", 2)]);
    assert_eq!(db.registrations().len(), 1);
    assert_eq!(db.registrations()[0].pass_serial_number, "pass2");
    assert_eq!(db.devices().len(), 1);
    DbPass::delete("pass1", &mut db);
    assert_eq!(db.passes().len(), 1);
}

#[test]
fn push_tokens_come_in_the_order_of_the_registrations() {
    let mut db = Database::new();
    pass("pass1", "a", 10).insert(&mut db).unwrap();
    pass("pass2", "b", 10).insert(&mut db).unwrap();
    insert_device_if_not_exist("d2", "t2", "pass2", 20, &mut db).unwrap();
    insert_device_if_not_exist("d1", "t1", "pass1", 21, &mut db).unwrap();
    insert_device_if_not_exist("d2", "t2", "pass1", 22, &mut db).unwrap();
    assert_eq!(
        push_tokens_from_serial_number("pass1", &db),
        vec!["t1".to_string(), "t2".to_string()]
    );
    assert_eq!(push_tokens_from_serial_number("pass2", &db), vec!["t2".to_string()]);
    insert_device_if_not_exist("d2", "t2-new", "pass2", 23, &mut db).unwrap();
    assert_eq!(
        push_tokens_from_serial_number("pass1", &db),
        vec!["t1".to_string(), "t2-new".to_string()]
    );
    assert_eq!(db.registrations().len(), 3);
}

#[test]
fn a_store_is_restored_from_valid_rows_only() {
    let devices = vec![device("d1", "t1"), device("d2", "t2")];
    let passes = vec![pass("pass1", "a", 10), pass("pass2", "b", 20)];
    let links = vec![link("d1", "pass1"), link("d2", "pass1"), link("d1", "pass2")];
    let cards = vec![card("pass1", 3), card("pass2", 0)];

    let db = Database::restore(&devices, &passes, &links, &cards).unwrap();
    assert_eq!(db.devices(), &devices);
    assert_eq!(db.passes(), &passes);
    assert_eq!(db.registrations(), &links);
    assert_eq!(db.loyality(), &cards);
    assert_eq!(
        push_tokens_from_serial_number("pass1", &db),
        vec!["t1".to_string(), "t2".to_string()]
    );

    let empty = Database::restore(&vec![], &vec![], &vec![], &vec![]).unwrap();
    assert!(empty.passes().is_empty());

    let twice = vec![device("d1", "t1"), device("d1", "t2")];
    assert_eq!(Database::restore(&twice, &passes, &vec![], &cards).err(), Some(unique()));
    let twice = vec![pass("pass1", "a", 10), pass("pass1", "b", 20)];
    assert_eq!(Database::restore(&devices, &twice, &vec![], &vec![]).err(), Some(unique()));
    let twice = vec![card("pass1", 1), card("pass1", 2)];
    assert_eq!(Database::restore(&devices, &passes, &links, &twice).err(), Some(unique()));
    let twice = vec![link("d1", "pass1"), link("d1", "pass1")];
    assert_eq!(Database::restore(&devices, &passes, &twice, &cards).err(), Some(unique()));

    let dangling = vec![link("d3", "pass1")];
    assert_eq!(
        Database::restore(&devices, &passes, &dangling, &cards).err(),
        Some(Error::Database(DatabaseError::ForeignKeyViolation))
    );
    let dangling = vec![link("d1", "pass3")];
    assert_eq!(
        Database::restore(&devices, &passes, &dangling, &cards).err(),
        Some(Error::Database(DatabaseError::ForeignKeyViolation))
    );
}
