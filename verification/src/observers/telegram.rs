//! The observer that posts every new listing to a Telegram chat.
//!
//! This module writes the message and the request; sending it is the
//! caller's part.

use vstd::prelude::*;
use vstd::string::StringExecFns;
use crate::configuration::ApplicationConfig;
use crate::models::decimal::written;
use crate::models::flat::PropertyDataView;
use crate::models::Property;
use crate::observers::mail::contract_word;
use crate::observers::mail::kind_word;
use crate::observers::mail::units_text;
use crate::observers::mail::write_contract;
use crate::observers::mail::write_kind;
use crate::observers::mail::write_units;
use crate::pattern::option_view;
use crate::text::concat3;

verus! {

pub struct Telegram {}

/// A call of the method `sendMessage` of the Telegram bot API.
pub struct TelegramRequest {
    /// The address to post to.
    pub url: String,
    pub chat_id: String,
    pub text: String,
    pub parse_mode: String,
}

/// The sentence about the plot, where the listing has one.
pub open spec fn plot_line(data: PropertyDataView) -> Seq<char> {
    match data.plot_squaremeters {
        Some(plot) => "Plot of land has a size of *"@ + units_text(plot) + " sqm*."@,
        None => ""@,
    }
}

/// The message for a listing with the data `data`.
pub open spec fn message_text(source: Seq<char>, data: PropertyDataView) -> Seq<char> {
    "Hey guys, found *a new "@ + kind_word(data.property_type) + " on "@ + source + "*!\n"@
        + data.address + "\n"@ + "["@ + data.title + "]("@ + data.url + ")\n"@ + contract_word(
        data.contract_type,
    ) + " the "@ + kind_word(data.property_type) + " costs *"@ + units_text(data.price)
        + " €*.\n"@ + "It has *"@ + written(data.rooms.micros as int) + " rooms* and *"@
        + units_text(data.squaremeters) + " sqm*.\n"@ + plot_line(data)
}

impl Telegram {
    pub fn name(&self) -> (r: String)
        ensures
            r@ == "telegram"@,
    {
        "telegram".to_string()
    }

    /// The message to post for a listing; `None` for a listing without
    /// data, for which nothing is posted.
    pub fn message(property: &Property) -> (r: Option<String>)
        ensures
            option_view(r) == match property@.data {
                Some(data) => Some(message_text(property@.source, data)),
                None => None,
            },
    {
        match &property.data {
            Some(property_data) => {
                let property_type = write_kind(&property_data.property_type);
                let contract_type = write_contract(&property_data.contract_type);
                let mut msg = "Hey guys, found *a new ".to_string();
                msg.append(property_type);
                msg.append(" on ");
                msg.append(property.source.as_str());
                msg.append("*!\n");
                msg.append(property_data.address.as_str());
                msg.append("\n");
                msg.append("[");
                msg.append(property_data.title.as_str());
                msg.append("](");
                msg.append(property_data.url.as_str());
                msg.append(")\n");
                msg.append(contract_type);
                msg.append(" the ");
                msg.append(property_type);
                msg.append(" costs *");
                msg.append(write_units(&property_data.price).as_str());
                msg.append(" €*.\n");
                msg.append("It has *");
                msg.append(property_data.rooms.to_text().as_str());
                msg.append(" rooms* and *");
                msg.append(write_units(&property_data.squaremeters).as_str());
                msg.append(" sqm*.\n");
                let ghost before_plot = msg@;
                match property_data.plot_squaremeters {
                    Some(plot) => {
                        msg.append("Plot of land has a size of *");
                        msg.append(write_units(&plot).as_str());
                        msg.append(" sqm*.");
                    },
                    None => {
                        proof {
                            reveal_strlit("");
                        }
                    },
                }
                assert(msg@ =~= before_plot + plot_line(property_data@));
                Some(msg)
            },
            None => None,
        }
    }

    /// The request that posts `msg` to the configured chat.
    pub fn request(app_config: &ApplicationConfig, msg: String) -> (r: TelegramRequest)
        ensures
            r.url@ == "https://api.telegram.org/bot"@ + app_config.telegram.api_key@
                + "/sendMessage"@,
            r.chat_id@ == app_config.telegram.chat_id@,
            r.text@ == msg@,
            r.parse_mode@ == "Markdown"@,
    {
        TelegramRequest {
            url: concat3(
                "https://api.telegram.org/bot",
                app_config.telegram.api_key.as_str(),
                "/sendMessage",
            ),
            chat_id: app_config.telegram.chat_id.clone(),
            text: msg,
            parse_mode: "Markdown".to_string(),
        }
    }
}

} // verus!
