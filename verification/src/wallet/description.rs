//! What stands on a pass: the description from which a pass is rendered.

use crate::time::Timestamp;
use crate::wallet::{LoyalityPass, PassMaker, PassTemplate};
use vstd::prelude::*;

verus! {

#[derive(Clone, Copy, Debug, PartialEq, Eq, Structural)]
pub struct Color {
    pub r: u8,
    pub g: u8,
    pub b: u8,
}

/// Where on the pass a field stands.
#[derive(Clone, Copy, Debug, PartialEq, Eq, Structural)]
pub enum FieldPlace {
    Header,
    Secondary,
    Back,
}

/// What a field shows: a text, a number, or a point in time, which is shown
/// as a date and a time of medium length.
#[derive(Debug, PartialEq, Eq)]
pub enum FieldValue {
    Text(String),
    Number(i32),
    Time(Timestamp),
}

pub enum FieldValueView {
    Text(Seq<char>),
    Number(int),
    Time(int),
}

impl View for FieldValue {
    type V = FieldValueView;

    open spec fn view(&self) -> FieldValueView {
        match self {
            FieldValue::Text(text) => FieldValueView::Text(text@),
            FieldValue::Number(n) => FieldValueView::Number(*n as int),
            FieldValue::Time(t) => FieldValueView::Time(*t as int),
        }
    }
}

/// One field of a pass.
#[derive(Debug, PartialEq, Eq)]
pub struct Field {
    pub place: FieldPlace,
    pub key: &'static str,
    pub label: &'static str,
    pub value: FieldValue,
}

pub struct FieldView {
    pub place: FieldPlace,
    pub key: Seq<char>,
    pub label: Seq<char>,
    pub value: FieldValueView,
}

impl View for Field {
    type V = FieldView;

    open spec fn view(&self) -> FieldView {
        FieldView { place: self.place, key: self.key@, label: self.label@, value: self.value@ }
    }
}

/// The description of one pass.
#[derive(Debug, PartialEq, Eq)]
pub struct PassDescription {
    pub organization_name: &'static str,
    pub description: &'static str,
    pub pass_type_identifier: String,
    pub team_identifier: String,
    pub serial_number: String,
    pub label_color: Color,
    pub foreground_color: Color,
    pub background_color: Color,
    pub sharing_prohibited: bool,
    pub fields: Vec<Field>,
    /// What the QR code of the pass says.
    pub barcode_message: String,
    pub web_service_url: String,
    pub authentication_token: String,
    /// The number of points that the strip image has room for.
    pub total_points: u32,
    /// The number of points that the strip image shows as earned.
    pub current_points: u32,
}

pub struct PassDescriptionView {
    pub organization_name: Seq<char>,
    pub description: Seq<char>,
    pub pass_type_identifier: Seq<char>,
    pub team_identifier: Seq<char>,
    pub serial_number: Seq<char>,
    pub label_color: Color,
    pub foreground_color: Color,
    pub background_color: Color,
    pub sharing_prohibited: bool,
    pub fields: Seq<FieldView>,
    pub barcode_message: Seq<char>,
    pub web_service_url: Seq<char>,
    pub authentication_token: Seq<char>,
    pub total_points: int,
    pub current_points: int,
}

impl View for PassDescription {
    type V = PassDescriptionView;

    open spec fn view(&self) -> PassDescriptionView {
        PassDescriptionView {
            organization_name: self.organization_name@,
            description: self.description@,
            pass_type_identifier: self.pass_type_identifier@,
            team_identifier: self.team_identifier@,
            serial_number: self.serial_number@,
            label_color: self.label_color,
            foreground_color: self.foreground_color,
            background_color: self.background_color,
            sharing_prohibited: self.sharing_prohibited,
            fields: self.fields@.map_values(|f: Field| f@),
            barcode_message: self.barcode_message@,
            web_service_url: self.web_service_url@,
            authentication_token: self.authentication_token@,
            total_points: self.total_points as int,
            current_points: self.current_points as int,
        }
    }
}

/// The fields of a loyalty pass: the store in the header; the holder and
/// the number of redemptions on the front; the serial number on the back,
/// and behind it the time of the last use, where the card was used.
pub open spec fn loyality_fields(serial_number: Seq<char>, card: LoyalityPass) -> Seq<FieldView> {
    let fields = seq![
        FieldView {
            place: FieldPlace::Header,
            key: "name"@,
            label: "Store"@,
            value: FieldValueView::Text("Boulder Bubbletea"@),
        },
        FieldView {
            place: FieldPlace::Secondary,
            key: "name"@,
            label: "Dieser Pass gehört"@,
            value: FieldValueView::Text(card.pass_holder_name@),
        },
        FieldView {
            place: FieldPlace::Secondary,
            key: "already_redeemed"@,
            label: "Bereits eingelöst"@,
            value: FieldValueView::Number(card.already_redeemed as int),
        },
        FieldView {
            place: FieldPlace::Back,
            key: "serial-number"@,
            label: "Serial Number"@,
            value: FieldValueView::Text(serial_number),
        },
    ];
    match card.last_use {
        Some(last_use) => fields.push(
            FieldView {
                place: FieldPlace::Back,
                key: "last_use"@,
                label: "Letzte Nutzung"@,
                value: FieldValueView::Time(last_use as int),
            },
        ),
        None => fields,
    }
}

/// The description of the loyalty pass with the given serial number and
/// secret, made from a template: white writing on rose, not to be shared,
/// with the serial number as QR code, and with the web service of the
/// template as the place where the pass is updated.
pub open spec fn loyality_pass_description(
    template: PassTemplate,
    serial_number: Seq<char>,
    authentication_token: Seq<char>,
    card: LoyalityPass,
) -> PassDescriptionView {
    PassDescriptionView {
        organization_name: "Boulder Bubbletea"@,
        description: "Boulder Bubbletea Pass"@,
        pass_type_identifier: template.pass_type_identifier,
        team_identifier: template.team_identifier,
        serial_number,
        label_color: Color { r: 255, g: 255, b: 255 },
        foreground_color: Color { r: 255, g: 255, b: 255 },
        background_color: Color { r: 255, g: 145, b: 160 },
        sharing_prohibited: true,
        fields: loyality_fields(serial_number, card),
        barcode_message: serial_number,
        web_service_url: template.web_service_url,
        authentication_token,
        total_points: card.total_points as int,
        current_points: card.current_points as int,
    }
}

impl PassMaker {
    /// Describes the loyalty pass with the given serial number and secret:
    /// see [`loyality_pass_description`]. The points of the card are
    /// numbers of things and so not negative.
    pub fn new_loyality_pass(
        &self,
        serial_number: String,
        authentication_token: String,
        loyality_pass: LoyalityPass,
    ) -> (pass: PassDescription)
        requires
            loyality_pass.total_points >= 0,
            loyality_pass.current_points >= 0,
        ensures
            pass@ == loyality_pass_description(
                self@,
                serial_number@,
                authentication_token@,
                loyality_pass,
            ),
    {
        let white = Color { r: 255, g: 255, b: 255 };
        let mut fields: Vec<Field> = Vec::new();
        fields.push(
            Field {
                place: FieldPlace::Header,
                key: "name",
                label: "Store",
                value: FieldValue::Text("Boulder Bubbletea".to_owned()),
            },
        );
        fields.push(
            Field {
                place: FieldPlace::Secondary,
                key: "name",
                label: "Dieser Pass gehört",
                value: FieldValue::Text(loyality_pass.pass_holder_name.clone()),
            },
        );
        fields.push(
            Field {
                place: FieldPlace::Secondary,
                key: "already_redeemed",
                label: "Bereits eingelöst",
                value: FieldValue::Number(loyality_pass.already_redeemed),
            },
        );
        fields.push(
            Field {
                place: FieldPlace::Back,
                key: "serial-number",
                label: "Serial Number",
                value: FieldValue::Text(serial_number.clone()),
            },
        );
        if let Some(last_use) = loyality_pass.last_use {
            fields.push(
                Field {
                    place: FieldPlace::Back,
                    key: "last_use",
                    label: "Letzte Nutzung",
                    value: FieldValue::Time(last_use),
                },
            );
        }
        assert(fields@.map_values(|f: Field| f@) =~= loyality_fields(
            serial_number@,
            loyality_pass,
        ));
        PassDescription {
            organization_name: "Boulder Bubbletea",
            description: "Boulder Bubbletea Pass",
            pass_type_identifier: self.pass_type_identifier.clone(),
            team_identifier: self.team_identifier.clone(),
            serial_number: serial_number.clone(),
            label_color: white,
            foreground_color: white,
            background_color: Color { r: 255, g: 145, b: 160 },
            sharing_prohibited: true,
            fields,
            barcode_message: serial_number,
            web_service_url: self.web_service_url.clone(),
            authentication_token,
            total_points: loyality_pass.total_points as u32,
            current_points: loyality_pass.current_points as u32,
        }
    }
}

} // verus!
