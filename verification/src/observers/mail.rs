//! The observer that sends a mail for every new listing.
//!
//! This module writes the mail; sending it is the caller's part.

use vstd::prelude::*;
use vstd::string::StringExecFns;
use crate::configuration::ApplicationConfig;
use crate::models::decimal::decimal_digits;
use crate::models::decimal::padded_digits;
use crate::models::decimal::whole_units;
use crate::models::decimal::written;
use crate::models::flat::PropertyDataView;
use crate::models::ContractType;
use crate::models::Decimal;
use crate::models::Property;
use crate::models::PropertyData;
use crate::models::PropertyType;
use crate::text::concat;
use crate::text::concat3;
use crate::text::same;
use num_format::ToFormattedString;

verus! {

pub struct Mail {}

/// A mail to send.
pub struct MailMessage {
    pub to: String,
    pub from: String,
    pub subject: String,
    pub html: String,
}

/// The digits of `n` in groups of three, with commas between the groups.
pub open spec fn grouped_digits(n: nat) -> Seq<char>
    decreases n,
{
    if n < 1000 {
        decimal_digits(n)
    } else {
        grouped_digits(n / 1000) + seq![','] + padded_digits(n % 1000, 3)
    }
}

/// The whole number `value` as it is written for the locale `en`: its digits
/// in groups of three with commas between them, after a `-` where it is
/// negative.
pub open spec fn grouped_en(value: int) -> Seq<char> {
    if value < 0 {
        seq!['-'] + grouped_digits((-value) as nat)
    } else {
        grouped_digits(value as nat)
    }
}

/// Writes a whole number with the separators of the locale `en`.
///
/// Trusted: calls `ToFormattedString::to_formatted_string` of the
/// `num_format` crate with `Locale::en`. For that locale the crate gives the
/// minus sign `-`, the separator `,` and the standard grouping, which is by
/// three digits; the contract states the result accordingly.
#[verifier::external_body]
pub(crate) fn format_en(value: i32) -> (out: String)
    ensures
        out@ == grouped_en(value as int),
{
    value.to_formatted_string(&num_format::Locale::en)
}

/// The whole units of a number, with the separators of the locale `en`.
pub open spec fn units_text(value: Decimal) -> Seq<char> {
    grouped_en(whole_units(value.micros as int))
}

/// Writes the whole units of a number.
pub fn write_units(value: &Decimal) -> (out: String)
    ensures
        out@ == units_text(*value),
{
    format_en(value.units())
}

/// The word for a property type.
pub open spec fn kind_word(kind: PropertyType) -> Seq<char> {
    match kind {
        PropertyType::Flat => "flat"@,
        PropertyType::House => "house"@,
    }
}

/// The word for a contract type.
pub open spec fn contract_word(contract: ContractType) -> Seq<char> {
    match contract {
        ContractType::Buy => "Buying"@,
        ContractType::Rent => "Renting"@,
    }
}

/// Writes the word for a property type.
pub fn write_kind(kind: &PropertyType) -> (r: &'static str)
    ensures
        r@ == kind_word(*kind),
{
    match kind {
        PropertyType::Flat => "flat",
        PropertyType::House => "house",
    }
}

/// Writes the word for a contract type.
pub fn write_contract(contract: &ContractType) -> (r: &'static str)
    ensures
        r@ == contract_word(*contract),
{
    match contract {
        ContractType::Buy => "Buying",
        ContractType::Rent => "Renting",
    }
}

/// The address of a listing's page on the site it comes from; empty for a
/// source that is not known.
pub open spec fn url_of(source: Seq<char>, external_id: Seq<char>) -> Seq<char> {
    if source == "immoscout"@ {
        "http://www.immobilienscout24.de/expose/"@ + external_id
    } else if source == "immowelt"@ {
        "https://www.immowelt.de/expose/"@ + external_id
    } else if source == "sueddeutsche"@ {
        "https://immobilienmarkt.sueddeutsche.de/Wohnungen/mieten/Muenchen/Wohnung/"@ + external_id
            + "?comeFromTL=1"@
    } else if source == "wggesucht"@ {
        "https://www.wg-gesucht.de/"@ + external_id
    } else if source == "wohnungsboerse"@ {
        "https://www.wohnungsboerse.net/immodetail/"@ + external_id
    } else {
        ""@
    }
}

/// The address of a listing's page on the site it comes from.
pub fn get_url(source: &String, external_id: String) -> (r: String)
    ensures
        r@ == url_of(source@, external_id@),
{
    if same(source.as_str(), "immoscout") {
        concat("http://www.immobilienscout24.de/expose/", external_id.as_str())
    } else if same(source.as_str(), "immowelt") {
        concat("https://www.immowelt.de/expose/", external_id.as_str())
    } else if same(source.as_str(), "sueddeutsche") {
        concat3(
            "https://immobilienmarkt.sueddeutsche.de/Wohnungen/mieten/Muenchen/Wohnung/",
            external_id.as_str(),
            "?comeFromTL=1",
        )
    } else if same(source.as_str(), "wggesucht") {
        concat("https://www.wg-gesucht.de/", external_id.as_str())
    } else if same(source.as_str(), "wohnungsboerse") {
        concat("https://www.wohnungsboerse.net/immodetail/", external_id.as_str())
    } else {
        "".to_string()
    }
}

/// The sentence about the plot, where the listing has one.
pub open spec fn plot_sentence(data: PropertyDataView) -> Seq<char> {
    match data.plot_squaremeters {
        Some(plot) => "Plot of land has a size of <b>"@ + units_text(plot) + " sqm</b>.<br />"@,
        None => ""@,
    }
}

/// The text of the mail for a listing with the data `data`.
pub open spec fn mail_text(source: Seq<char>, data: PropertyDataView) -> Seq<char> {
    "Hey guys, found <b>a new "@ + kind_word(data.property_type) + " on "@ + source
        + "</b>!<br /><br />"@ + data.address + "<br />"@ + contract_word(data.contract_type)
        + " the "@ + kind_word(data.property_type) + " costs <b>"@ + units_text(data.price)
        + " €</b>.<br />"@ + "It has <b>"@ + written(data.rooms.micros as int)
        + " rooms</b> and <b>"@ + units_text(data.squaremeters) + " sqm</b>.<br />"@
        + plot_sentence(data) + "<br />"@ + "<a href='"@ + url_of(source, data.externalid)
        + "' target='_blank'>Find more information here ...</a>"@
}

/// Writes the text of the mail for a listing.
pub fn build_message(property: &Property) -> (msg: String)
    requires
        property@.data is Some,
    ensures
        msg@ == mail_text(property@.source, property@.data.unwrap()),
{
    let property_data: &PropertyData = property.data.as_ref().unwrap();
    let url = get_url(&property.source, property_data.externalid.clone());
    let property_type = write_kind(&property_data.property_type);
    let contract_type = write_contract(&property_data.contract_type);
    let mut msg = "Hey guys, found <b>a new ".to_string();
    msg.append(property_type);
    msg.append(" on ");
    msg.append(property.source.as_str());
    msg.append("</b>!<br /><br />");
    msg.append(property_data.address.as_str());
    msg.append("<br />");
    msg.append(contract_type);
    msg.append(" the ");
    msg.append(property_type);
    msg.append(" costs <b>");
    msg.append(write_units(&property_data.price).as_str());
    msg.append(" €</b>.<br />");
    msg.append("It has <b>");
    msg.append(property_data.rooms.to_text().as_str());
    msg.append(" rooms</b> and <b>");
    msg.append(write_units(&property_data.squaremeters).as_str());
    msg.append(" sqm</b>.<br />");
    let ghost before_plot = msg@;
    match property_data.plot_squaremeters {
        Some(plot) => {
            msg.append("Plot of land has a size of <b>");
            msg.append(write_units(&plot).as_str());
            msg.append(" sqm</b>.<br />");
        },
        None => {
            proof {
                reveal_strlit("");
            }
        },
    }
    assert(msg@ =~= before_plot + plot_sentence(property_data@));
    msg.append("<br />");
    msg.append("<a href='");
    msg.append(url.as_str());
    msg.append("' target='_blank'>Find more information here ...</a>");
    msg
}

impl Mail {
    pub fn name(&self) -> (r: String)
        ensures
            r@ == "mail"@,
    {
        "mail".to_string()
    }

    /// The mail to send for a listing: to and from the configured user, with
    /// the title in the subject. `None` for a listing without data, for which
    /// no mail is sent.
    pub fn message(app_config: &ApplicationConfig, property: &Property) -> (r: Option<MailMessage>)
        ensures
            match property@.data {
                Some(data) => r matches Some(mail) && mail.to@ == app_config.mail.username@
                    && mail.from@ == app_config.mail.username@ && mail.subject@
                    == "Found new flat: "@ + data.title && mail.html@ == mail_text(
                    property@.source,
                    data,
                ),
                None => r is None,
            },
    {
        match &property.data {
            Some(data) => Some(
                MailMessage {
                    to: app_config.mail.username.clone(),
                    from: app_config.mail.username.clone(),
                    subject: concat("Found new flat: ", data.title.as_str()),
                    html: build_message(property),
                },
            ),
            None => None,
        }
    }
}

} // verus!
