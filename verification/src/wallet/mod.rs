//! What it takes to make a pass: the signing material, the identifiers of
//! the pass template, and the state of one pass that is to be rendered.

mod description;

pub use description::{
    loyality_fields, loyality_pass_description, Color, Field, FieldPlace, FieldValue,
    FieldValueView, FieldView, PassDescription, PassDescriptionView,
};

use crate::error::Error;
use crate::image::ImageMaker;
use crate::time::Timestamp;
use vstd::prelude::*;
use vstd::string::StringSliceAdditionalSpecFns;

verus! {

/// `openssl::error::ErrorStack`: the errors that OpenSSL reports. Carried
/// through as it is.
#[verifier::external_type_specification]
#[verifier::external_body]
pub struct ExErrorStack(openssl::error::ErrorStack);

/// The PEM text, not encrypted, of the RSA private key that an encrypted
/// PEM text holds under a passphrase: what the decryption yields where it
/// yields anything.
pub uninterp spec fn decrypted_pem_of(sign_key: Seq<u8>, passphrase: Seq<u8>) -> Seq<u8>;

/// Calls `openssl::rsa::Rsa::private_key_from_pem_passphrase`, which reads
/// an RSA private key from encrypted PEM, and on the key that it yields
/// `private_key_to_pem`, which writes the key as PEM that is not encrypted.
/// Whether the two succeed is left open. The text that comes out where they
/// do depends on the encrypted text and the passphrase alone: the contract
/// names it and says no more of it. The first call panics on a passphrase
/// that holds a zero byte and on a text of more than `i32::MAX` bytes: both
/// are excluded.
#[verifier::external_body]
fn decrypted_private_key(sign_key: &Vec<u8>, passphrase: &[u8]) -> (r: Result<
    Vec<u8>,
    openssl::error::ErrorStack,
>)
    requires
        sign_key@.len() <= i32::MAX,
        !passphrase@.contains(0u8),
    ensures
        r is Ok ==> r->Ok_0@ == decrypted_pem_of(sign_key@, passphrase@),
{
    openssl::rsa::Rsa::private_key_from_pem_passphrase(sign_key, passphrase)?.private_key_to_pem()
}

/// `passes::sign::SignConfig`: the parsed certificates and key with which a
/// pass package is signed. Carried through as it is.
#[verifier::external_type_specification]
#[verifier::external_body]
pub struct ExSignConfig(passes::sign::SignConfig);

/// Calls `passes::sign::SignConfig::new` with Apple's G4 certificate as the
/// authority, a signing certificate and its private key, both as PEM. It
/// parses the three with OpenSSL. Nothing is claimed of the result. The
/// parsing panics on a text of more than `i32::MAX` bytes: such texts are
/// excluded.
#[verifier::external_body]
fn g4_sign_config(sign_cert: &Vec<u8>, sign_key: &Vec<u8>) -> (r: Result<
    passes::sign::SignConfig,
    openssl::error::ErrorStack,
>)
    requires
        sign_cert@.len() <= i32::MAX,
        sign_key@.len() <= i32::MAX,
{
    passes::sign::SignConfig::new(passes::sign::WWDR::G4, sign_cert, sign_key)
}

/// The text of an `openssl::error::ErrorStack`, as its `Display` gives it.
/// Nothing is claimed of the text.
#[verifier::external_body]
fn error_stack_text(e: &openssl::error::ErrorStack) -> (text: String) {
    e.to_string()
}

/// The certificate and the private key with which passes are signed.
#[derive(Clone, Debug)]
pub struct ISignConfig {
    pub sign_cert: Vec<u8>,
    pub sign_key: Vec<u8>,
}

/// A key and a passphrase that can be handed to the decryption: the key is
/// not longer than `i32::MAX` bytes and the passphrase holds no zero byte.
pub open spec fn can_be_decrypted(sign_key: Seq<u8>, passphrase: Seq<u8>) -> bool {
    sign_key.len() <= i32::MAX && !passphrase.contains(0u8)
}

/// Whether a zero byte occurs.
fn holds_zero(bytes: &[u8]) -> (b: bool)
    ensures
        b == bytes@.contains(0u8),
{
    let mut i: usize = 0;
    while i < bytes.len()
        invariant
            i <= bytes.len(),
            forall|j: int| 0 <= j < i ==> bytes@[j] != 0u8,
        decreases bytes.len() - i,
    {
        if bytes[i] == 0 {
            return true;
        }
        i += 1;
    }
    false
}

impl ISignConfig {
    /// The signing material from a certificate and an encrypted PEM private
    /// key, which is decrypted with the passphrase. A key or passphrase that
    /// cannot be handed to the decryption is an invalid request; whether the
    /// decryption succeeds is up to it. Where it does, the material holds
    /// the certificate as given and the key as decrypted.
    pub fn new(sign_cert: Vec<u8>, sign_key: Vec<u8>, passphrase: &str) -> (r: Result<Self, Error>)
        ensures
            match r {
                Ok(config) => can_be_decrypted(sign_key@, passphrase.spec_bytes())
                    && config.sign_cert@ == sign_cert@ && config.sign_key@ == decrypted_pem_of(
                    sign_key@,
                    passphrase.spec_bytes(),
                ),
                Err(Error::InvalidRequest(_)) => !can_be_decrypted(
                    sign_key@,
                    passphrase.spec_bytes(),
                ),
                Err(e) => can_be_decrypted(sign_key@, passphrase.spec_bytes()) && e is OpenSsl,
            },
    {
        let secret = passphrase.as_bytes();
        if sign_key.len() > 0x7fff_ffff || holds_zero(secret) {
            return Err(
                Error::InvalidRequest("the signing key or its passphrase is malformed".to_string()),
            );
        }
        match decrypted_private_key(&sign_key, secret) {
            Ok(decrypted) => Ok(Self::from_parts(sign_cert, decrypted)),
            Err(e) => Err(Error::OpenSsl(error_stack_text(&e))),
        }
    }

    /// The certificates and the key as the signing of a pass package takes
    /// them. A certificate or key that cannot be handed to the parsing is an
    /// invalid request; whether the parsing succeeds is up to it.
    pub fn new_sign_config(&self) -> (r: Result<passes::sign::SignConfig, Error>)
        ensures
            match r {
                Ok(_) => self.sign_cert@.len() <= i32::MAX && self.sign_key@.len() <= i32::MAX,
                Err(Error::InvalidRequest(_)) => !(self.sign_cert@.len() <= i32::MAX
                    && self.sign_key@.len() <= i32::MAX),
                Err(e) => self.sign_cert@.len() <= i32::MAX && self.sign_key@.len() <= i32::MAX
                    && e is OpenSsl,
            },
    {
        if self.sign_cert.len() > 0x7fff_ffff || self.sign_key.len() > 0x7fff_ffff {
            return Err(
                Error::InvalidRequest("the signing certificate or its key is too long".to_string()),
            );
        }
        match g4_sign_config(&self.sign_cert, &self.sign_key) {
            Ok(config) => Ok(config),
            Err(e) => Err(Error::OpenSsl(error_stack_text(&e))),
        }
    }

    /// The signing material from a certificate and a decrypted private key.
    pub fn from_parts(sign_cert: Vec<u8>, sign_key: Vec<u8>) -> (config: Self)
        ensures
            config.sign_cert@ == sign_cert@,
            config.sign_key@ == sign_key@,
    {
        ISignConfig { sign_cert, sign_key }
    }
}

/// The loyalty card as it is shown on a pass.
#[derive(Debug, PartialEq, Eq)]
pub struct LoyalityPass {
    pub already_redeemed: i32,
    pub total_points: i32,
    pub current_points: i32,
    pub pass_holder_name: String,
    pub last_use: Option<Timestamp>,
}

/// All that rendering one pass needs to know of it.
#[derive(Debug, PartialEq, Eq)]
pub struct PassState {
    pub serial_number: String,
    pub authentication_token: String,
    pub loyality_pass: LoyalityPass,
}

/// The template from which passes are made.
#[derive(Debug)]
pub struct PassMaker {
    team_identifier: String,
    pass_type_identifier: String,
    i_sign_config: ISignConfig,
    web_service_url: String,
    logo_path: String,
    icon_path: String,
    image_maker: ImageMaker,
}

/// A template as plain values.
pub struct PassTemplate {
    pub team_identifier: Seq<char>,
    pub pass_type_identifier: Seq<char>,
    pub sign_cert: Seq<u8>,
    pub sign_key: Seq<u8>,
    pub web_service_url: Seq<char>,
    pub logo_path: Seq<char>,
    pub icon_path: Seq<char>,
    pub image_maker: ImageMaker,
}

impl View for PassMaker {
    type V = PassTemplate;

    closed spec fn view(&self) -> PassTemplate {
        PassTemplate {
            team_identifier: self.team_identifier@,
            pass_type_identifier: self.pass_type_identifier@,
            sign_cert: self.i_sign_config.sign_cert@,
            sign_key: self.i_sign_config.sign_key@,
            web_service_url: self.web_service_url@,
            logo_path: self.logo_path@,
            icon_path: self.icon_path@,
            image_maker: self.image_maker,
        }
    }
}

impl PassMaker {
    /// The identifier of the template.
    pub closed spec fn template(&self) -> Seq<char> {
        self.pass_type_identifier@
    }

    pub fn new(
        i_sign_config: ISignConfig,
        team_identifier: String,
        pass_type_identifier: String,
        web_service_url: String,
        logo_path: String,
        icon_path: String,
        image_maker: ImageMaker,
    ) -> (r: Result<Self, Error>)
        ensures
            r is Ok,
            r->Ok_0.template() == pass_type_identifier@,
            r->Ok_0@ == (PassTemplate {
                team_identifier: team_identifier@,
                pass_type_identifier: pass_type_identifier@,
                sign_cert: i_sign_config.sign_cert@,
                sign_key: i_sign_config.sign_key@,
                web_service_url: web_service_url@,
                logo_path: logo_path@,
                icon_path: icon_path@,
                image_maker,
            }),
    {
        Ok(
            PassMaker {
                i_sign_config,
                team_identifier,
                pass_type_identifier,
                web_service_url,
                logo_path,
                icon_path,
                image_maker,
            },
        )
    }

    /// The identifier of the template.
    pub fn pass_type_identifier(&self) -> (id: &str)
        ensures
            id@ == self.template(),
            id@ == self@.pass_type_identifier,
    {
        self.pass_type_identifier.as_str()
    }

    /// The identifier of the team that issues the passes.
    pub fn team_identifier(&self) -> (id: &str)
        ensures
            id@ == self@.team_identifier,
    {
        self.team_identifier.as_str()
    }

    /// Where devices reach the web service.
    pub fn web_service_url(&self) -> (url: &str)
        ensures
            url@ == self@.web_service_url,
    {
        self.web_service_url.as_str()
    }

    /// Where the logo of the passes is found.
    pub fn logo_path(&self) -> (path: &str)
        ensures
            path@ == self@.logo_path,
    {
        self.logo_path.as_str()
    }

    /// Where the icon of the passes is found.
    pub fn icon_path(&self) -> (path: &str)
        ensures
            path@ == self@.icon_path,
    {
        self.icon_path.as_str()
    }

    /// The material with which the passes are signed.
    pub fn sign_config(&self) -> (config: &ISignConfig)
        ensures
            config.sign_cert@ == self@.sign_cert,
            config.sign_key@ == self@.sign_key,
    {
        &self.i_sign_config
    }

    /// The layout of the image that shows the points.
    pub fn image_maker(&self) -> (maker: &ImageMaker)
        ensures
            *maker == self@.image_maker,
    {
        &self.image_maker
    }
}

} // verus!
