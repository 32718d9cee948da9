//! The delivery client's judgement: what the answer to a POST means for the log.

use crate::log::{entry_view, Level, LogEntry, LogEntryView};
use vstd::prelude::*;
use vstd::string::*;

verus! {

/// How the delivery of one request ended.
#[derive(Debug, PartialEq, Eq)]
pub enum Delivery {
    /// The service answered: the status code, the status as the client prints it, and
    /// the body of the answer, or `None` where the body could not be read.
    Response { code: u16, status: String, body: Option<String> },
    /// No answer arrived; `error` says what went wrong in transport.
    Failed { error: String },
}

/// What a `Delivery` holds.
pub enum DeliveryView {
    Response { code: u16, status: Seq<char>, body: Option<Seq<char>> },
    Failed { error: Seq<char> },
}

impl View for Delivery {
    type V = DeliveryView;

    open spec fn view(&self) -> DeliveryView {
        match self {
            Delivery::Response { code, status, body } => DeliveryView::Response {
                code: *code,
                status: status@,
                body: body.deep_view(),
            },
            Delivery::Failed { error } => DeliveryView::Failed { error: error@ },
        }
    }
}

impl Clone for Delivery {
    fn clone(&self) -> (copy: Delivery)
        ensures
            copy@ == self@,
    {
        match self {
            Delivery::Response { code, status, body } => Delivery::Response {
                code: *code,
                status: status.clone(),
                body: match body {
                    Some(text) => Some(text.clone()),
                    None => None,
                },
            },
            Delivery::Failed { error } => Delivery::Failed { error: error.clone() },
        }
    }
}

/// Whether a status code is one of the success codes, 200 to 299.
pub open spec fn is_success(code: u16) -> bool {
    200 <= code < 300
}

/// The body as it is logged: the text that was read, or a note that none could be read.
pub open spec fn logged_body(body: Option<Seq<char>>) -> Seq<char> {
    match body {
        Some(text) => text,
        None => "Failed to retrieve response body"@,
    }
}

/// The entry that a delivery leaves in the log: none after a success code, a `Severe`
/// entry with status, address and body after any other code, and a `Severe` entry with
/// the error after a transport failure.
pub open spec fn delivery_entry(url: Seq<char>, delivery: DeliveryView) -> Option<LogEntryView> {
    match delivery {
        DeliveryView::Response { code, status, body } => if is_success(code) {
            None
        } else {
            Some(
                LogEntryView {
                    level: Level::Severe,
                    message: "Received non-success status from POST request: "@ + status
                        + ". URL: "@ + url + ", Response body: "@ + logged_body(body),
                },
            )
        },
        DeliveryView::Failed { error } => Some(
            LogEntryView {
                level: Level::Severe,
                message: "Failed to send POST request: "@ + error,
            },
        ),
    }
}

/// Judges the end of a delivery to `url`. A failure is logged and has no other effect:
/// nothing is sent again.
pub fn delivery_log(url: &str, delivery: &Delivery) -> (entry: Option<LogEntry>)
    ensures
        entry_view(entry) == delivery_entry(url@, delivery@),
{
    match delivery {
        Delivery::Response { code, status, body } => {
            if 200 <= *code && *code < 300 {
                None
            } else {
                let mut message = String::from_str(
                    "Received non-success status from POST request: ",
                );
                message.append(status.as_str());
                message.append(". URL: ");
                message.append(url);
                message.append(", Response body: ");
                match body {
                    Some(text) => message.append(text.as_str()),
                    None => message.append("Failed to retrieve response body"),
                }
                Some(LogEntry { level: Level::Severe, message })
            }
        },
        Delivery::Failed { error } => {
            let mut message = String::from_str("Failed to send POST request: ");
            message.append(error.as_str());
            Some(LogEntry { level: Level::Severe, message })
        },
    }
}

} // verus!
