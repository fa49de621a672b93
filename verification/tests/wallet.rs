use carte_etoile::error::Error;
use carte_etoile::image::ImageMaker;
use carte_etoile::wallet::{
    Color, Field, FieldPlace, FieldValue, ISignConfig, LoyalityPass, PassDescription, PassMaker,
    PassState,
};

fn encrypted_key(passphrase: &[u8]) -> (Vec<u8>, Vec<u8>) {
    let rsa = openssl::rsa::Rsa::generate(2048).unwrap();
    let plain = rsa.private_key_to_pem().unwrap();
    let encrypted = rsa
        .private_key_to_pem_passphrase(openssl::symm::Cipher::aes_128_cbc(), passphrase)
        .unwrap();
    (plain, encrypted)
}

#[test]
fn the_signing_key_is_decrypted_with_its_passphrase() {
    let (plain, encrypted) = encrypted_key(b"open sesame");
    assert_ne!(plain, encrypted);
    let config = ISignConfig::new(vec![9, 8, 7], encrypted.clone(), "open sesame").unwrap();
    assert_eq!(config.sign_cert, vec![9, 8, 7]);
    assert_eq!(config.sign_key, plain);
    assert_ne!(config.sign_key, encrypted);
    let copy = config.clone();
    assert_eq!(copy.sign_key, config.sign_key);
}

#[test]
fn a_wrong_passphrase_is_an_error_of_the_decryption() {
    let (_, encrypted) = encrypted_key(b"open sesame");
    match ISignConfig::new(vec![], encrypted, "closed") {
        Err(Error::OpenSsl(_)) => {}
        other => panic!("unexpected: {other:?}"),
    }
}

#[test]
fn what_is_no_key_is_an_error_of_the_decryption() {
    match ISignConfig::new(vec![], b"not a key".to_vec(), "secret") {
        Err(Error::OpenSsl(_)) => {}
        other => panic!("unexpected: {other:?}"),
    }
    match ISignConfig::new(vec![], Vec::new(), "") {
        Err(Error::OpenSsl(_)) => {}
        other => panic!("unexpected: {other:?}"),
    }
}

#[test]
fn a_passphrase_with_a_zero_byte_is_an_invalid_request() {
    let (_, encrypted) = encrypted_key(b"open");
    match ISignConfig::new(vec![], encrypted, "op\0en") {
        Err(Error::InvalidRequest(_)) => {}
        other => panic!("unexpected: {other:?}"),
    }
}

#[test]
fn signing_material_is_kept_as_given() {
    let config = ISignConfig::from_parts(vec![1, 2], vec![3]);
    assert_eq!(config.sign_cert, vec![1, 2]);
    assert_eq!(config.sign_key, vec![3]);
}

#[test]
fn the_template_holds_what_it_was_made_with() {
    let maker = PassMaker::new(
        ISignConfig::from_parts(vec![1], vec![2]),
        "TEAM".to_string(),
        "pass.example.loyalty".to_string(),
        "https://example.org/passes".to_string(),
        "logo.png".to_string(),
        "icon.png".to_string(),
        ImageMaker::new(600, 200),
    )
    .unwrap();
    assert_eq!(maker.pass_type_identifier(), "pass.example.loyalty");
    assert_eq!(maker.team_identifier(), "TEAM");
    assert_eq!(maker.web_service_url(), "https://example.org/passes");
    assert_eq!(maker.logo_path(), "logo.png");
    assert_eq!(maker.icon_path(), "icon.png");
    assert_eq!(maker.sign_config().sign_cert, vec![1]);
    assert_eq!(maker.sign_config().sign_key, vec![2]);
    assert_eq!(*maker.image_maker(), ImageMaker::new(600, 200));
}

#[test]
fn the_state_of_a_pass_is_compared_by_its_fields() {
    let state = |points: i32| PassState {
        serial_number: "s".to_string(),
        authentication_token: "a".to_string(),
        loyality_pass: LoyalityPass {
            already_redeemed: 0,
            total_points: 10,
            current_points: points,
            pass_holder_name: "Holder".to_string(),
            last_use: None,
        },
    };
    assert_eq!(state(1), state(1));
    assert_ne!(state(1), state(2));
}

fn certificate_with_key() -> (Vec<u8>, Vec<u8>) {
    let rsa = openssl::rsa::Rsa::generate(2048).unwrap();
    let key = openssl::pkey::PKey::from_rsa(rsa.clone()).unwrap();
    let mut name = openssl::x509::X509NameBuilder::new().unwrap();
    name.append_entry_by_text("CN", "pass signing").unwrap();
    let name = name.build();
    let mut builder = openssl::x509::X509::builder().unwrap();
    builder.set_version(2).unwrap();
    builder.set_subject_name(&name).unwrap();
    builder.set_issuer_name(&name).unwrap();
    builder.set_pubkey(&key).unwrap();
    builder.set_not_before(&openssl::asn1::Asn1Time::days_from_now(0).unwrap()).unwrap();
    builder.set_not_after(&openssl::asn1::Asn1Time::days_from_now(1).unwrap()).unwrap();
    builder.sign(&key, openssl::hash::MessageDigest::sha256()).unwrap();
    let certificate = builder.build();
    (certificate.to_pem().unwrap(), rsa.private_key_to_pem().unwrap())
}

#[test]
fn the_signing_material_is_parsed_for_the_package() {
    let (certificate, key) = certificate_with_key();
    let config = ISignConfig::from_parts(certificate.clone(), key.clone());
    let parsed = match config.new_sign_config() {
        Ok(parsed) => parsed,
        Err(e) => panic!("unexpected: {e:?}"),
    };
    assert_eq!(parsed.sign_cert.to_pem().unwrap(), certificate);
    assert_eq!(parsed.sign_key.rsa().unwrap().private_key_to_pem().unwrap(), key);
    assert!(parsed.cert.to_pem().unwrap() != certificate);
}

#[test]
fn signing_material_that_is_no_pem_is_refused() {
    let (certificate, key) = certificate_with_key();
    match ISignConfig::from_parts(b"no certificate".to_vec(), key).new_sign_config() {
        Err(Error::OpenSsl(_)) => {}
        Err(e) => panic!("unexpected: {e:?}"),
        Ok(_) => panic!("parsed what is no certificate"),
    }
    match ISignConfig::from_parts(certificate, Vec::new()).new_sign_config() {
        Err(Error::OpenSsl(_)) => {}
        Err(e) => panic!("unexpected: {e:?}"),
        Ok(_) => panic!("parsed what is no key"),
    }
}

fn maker() -> PassMaker {
    PassMaker::new(
        ISignConfig::from_parts(vec![1], vec![2]),
        "TEAM".to_string(),
        "pass.example.loyalty".to_string(),
        "https://example.org/passes".to_string(),
        "logo.png".to_string(),
        "icon.png".to_string(),
        ImageMaker::new(600, 200),
    )
    .unwrap()
}

fn card(last_use: Option<i64>) -> LoyalityPass {
    LoyalityPass {
        already_redeemed: 2,
        total_points: 10,
        current_points: 7,
        pass_holder_name: "Ada".to_string(),
        last_use,
    }
}

fn fields_of_an_unused_card() -> Vec<Field> {
    vec![
        Field {
            place: FieldPlace::Header,
            key: "name",
            label: "Store",
            value: FieldValue::Text("Boulder Bubbletea".to_string()),
        },
        Field {
            place: FieldPlace::Secondary,
            key: "name",
            label: "Dieser Pass gehört",
            value: FieldValue::Text("Ada".to_string()),
        },
        Field {
            place: FieldPlace::Secondary,
            key: "already_redeemed",
            label: "Bereits eingelöst",
            value: FieldValue::Number(2),
        },
        Field {
            place: FieldPlace::Back,
            key: "serial-number",
            label: "Serial Number",
            value: FieldValue::Text("serial".to_string()),
        },
    ]
}

#[test]
fn a_loyalty_pass_is_described_from_the_template_and_the_card() {
    let pass = maker().new_loyality_pass("serial".to_string(), "secret".to_string(), card(None));
    assert_eq!(
        pass,
        PassDescription {
            organization_name: "Boulder Bubbletea",
            description: "Boulder Bubbletea Pass",
            pass_type_identifier: "pass.example.loyalty".to_string(),
            team_identifier: "TEAM".to_string(),
            serial_number: "serial".to_string(),
            label_color: Color { r: 255, g: 255, b: 255 },
            foreground_color: Color { r: 255, g: 255, b: 255 },
            background_color: Color { r: 255, g: 145, b: 160 },
            sharing_prohibited: true,
            fields: fields_of_an_unused_card(),
            barcode_message: "serial".to_string(),
            web_service_url: "https://example.org/passes".to_string(),
            authentication_token: "secret".to_string(),
            total_points: 10,
            current_points: 7,
        }
    );
}

#[test]
fn a_used_card_shows_its_last_use_on_the_back() {
    let pass =
        maker().new_loyality_pass("serial".to_string(), "secret".to_string(), card(Some(1_234)));
    let mut fields = fields_of_an_unused_card();
    fields.push(Field {
        place: FieldPlace::Back,
        key: "last_use",
        label: "Letzte Nutzung",
        value: FieldValue::Time(1_234),
    });
    assert_eq!(pass.fields, fields);
    assert_eq!(pass.barcode_message, "serial");
}
