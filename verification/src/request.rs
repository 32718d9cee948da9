//! The notification builder: from one eligible event to a request for the mailing
//! service, or to the reason why none is sent.

use crate::address::{email_syntax_valid, is_valid_address};
use crate::docs::{texts, ReenewalToggledDoc, RenewalView, SaleDoc, SaleView};
use crate::expiry::{expiry_field, expiry_value, render_utc_timestamp, utc_timestamp_text};
use crate::log::{Level, LogEntry, LogEntryView};
use vstd::prelude::*;
use vstd::string::*;

verus! {

/// Where the mailing service listens and the credential it asks for.
#[derive(Debug, PartialEq, Eq)]
pub struct EmailConfig {
    pub base_url: String,
    pub api_key: String,
}

/// What an `EmailConfig` holds.
pub struct EmailConfigView {
    pub base_url: Seq<char>,
    pub api_key: Seq<char>,
}

impl View for EmailConfig {
    type V = EmailConfigView;

    open spec fn view(&self) -> EmailConfigView {
        EmailConfigView { base_url: self.base_url@, api_key: self.api_key@ }
    }
}

/// A request that is ready to be sent by HTTP POST: the address with its query, and the
/// value of the `Authorization` header.
#[derive(Debug, PartialEq, Eq)]
pub struct Notification {
    pub url: String,
    pub authorization: String,
}

/// What a `Notification` holds.
pub struct NotificationView {
    pub url: Seq<char>,
    pub authorization: Seq<char>,
}

impl View for Notification {
    type V = NotificationView;

    open spec fn view(&self) -> NotificationView {
        NotificationView { url: self.url@, authorization: self.authorization@ }
    }
}

/// What the builder decided for one event.
#[derive(Debug, PartialEq, Eq)]
pub enum Outcome {
    /// The request to deliver.
    Send(Notification),
    /// Nothing is delivered; the entry says why.
    Skip(LogEntry),
}

/// What an `Outcome` holds.
pub enum OutcomeView {
    Send(NotificationView),
    Skip(LogEntryView),
}

impl View for Outcome {
    type V = OutcomeView;

    open spec fn view(&self) -> OutcomeView {
        match self {
            Outcome::Send(notification) => OutcomeView::Send(notification@),
            Outcome::Skip(entry) => OutcomeView::Skip(entry@),
        }
    }
}

/// One `groups[]` parameter for every tag, in the order of the tags.
pub open spec fn group_params(tags: Seq<Seq<char>>) -> Seq<Seq<char>> {
    tags.map_values(|tag: Seq<char>| "groups[]="@ + tag)
}

/// The parameters written one after another with `&` between them.
pub open spec fn joined(params: Seq<Seq<char>>) -> Seq<char>
    decreases params.len(),
{
    if params.len() == 0 {
        Seq::empty()
    } else if params.len() == 1 {
        params[0]
    } else {
        joined(params.drop_last()) + "&"@ + params.last()
    }
}

/// The address of a request: the base address, then `email`, `fields[name]` and the
/// field of the event kind, whose label includes its `&` and `=`, then `&` and the group
/// parameters.
pub open spec fn notification_url(
    base_url: Seq<char>,
    email: Seq<char>,
    domain: Seq<char>,
    label: Seq<char>,
    value: Seq<char>,
    tags: Seq<Seq<char>>,
) -> Seq<char> {
    base_url + "?email="@ + email + "&fields[name]="@ + domain + label + value + "&"@ + joined(
        group_params(tags),
    )
}

/// The value of the `Authorization` header for a credential.
pub open spec fn bearer(api_key: Seq<char>) -> Seq<char> {
    "Bearer "@ + api_key
}

/// The entry that reports a contact address of wrong syntax.
pub open spec fn invalid_address_entry(email: Seq<char>) -> LogEntryView {
    LogEntryView { level: Level::Local, message: "email "@ + email + " is not valid"@ }
}

/// What is decided for an event whose contact address is `email`: a request where the
/// address is valid, and otherwise no request and a `Local` entry.
pub open spec fn decision(
    conf: EmailConfigView,
    address_ok: bool,
    email: Seq<char>,
    domain: Seq<char>,
    label: Seq<char>,
    value: Seq<char>,
    tags: Seq<Seq<char>>,
) -> OutcomeView {
    if address_ok {
        OutcomeView::Send(
            NotificationView {
                url: notification_url(conf.base_url, email, domain, label, value, tags),
                authorization: bearer(conf.api_key),
            },
        )
    } else {
        OutcomeView::Skip(invalid_address_entry(email))
    }
}

/// What is decided for a sale, given whether its contact address is valid and how its
/// expiry was rendered.
pub open spec fn sale_decision(
    conf: EmailConfigView,
    sale: SaleView,
    address_ok: bool,
    rendered: Option<Seq<char>>,
) -> OutcomeView {
    decision(
        conf,
        address_ok,
        sale.metadata[0].email,
        sale.domain,
        "&fields[expiry]="@,
        expiry_value(rendered),
        sale.same_tx_groups,
    )
}

/// What is decided for a renewal toggle, given whether its contact address is valid.
pub open spec fn renewal_decision(
    conf: EmailConfigView,
    renewal: RenewalView,
    address_ok: bool,
) -> OutcomeView {
    decision(
        conf,
        address_ok,
        renewal.metadata[0].email,
        renewal.domain,
        "&fields[renewer]="@,
        renewal.renewer,
        renewal.same_tx_groups,
    )
}

/// What the engine decides for a sale: the contact address is checked by
/// `email_syntax_valid` and the expiry is rendered by `utc_timestamp_text`.
pub open spec fn sale_outcome(conf: EmailConfigView, sale: SaleView) -> OutcomeView {
    sale_decision(
        conf,
        sale,
        email_syntax_valid(sale.metadata[0].email),
        utc_timestamp_text(sale.expiry),
    )
}

/// What the engine decides for a renewal toggle: the contact address is checked by
/// `email_syntax_valid`.
pub open spec fn renewal_outcome(conf: EmailConfigView, renewal: RenewalView) -> OutcomeView {
    renewal_decision(conf, renewal, email_syntax_valid(renewal.metadata[0].email))
}

/// Writes the group parameters of a request, `groups[]=` and the tag for every tag,
/// with `&` between them.
pub fn group_query(tags: &Vec<String>) -> (query: String)
    ensures
        query@ == joined(group_params(texts(tags@))),
{
    let mut query = String::new();
    let mut i: usize = 0;
    while i < tags.len()
        invariant
            i <= tags@.len(),
            query@ == joined(group_params(texts(tags@.take(i as int)))),
        decreases tags@.len() - i,
    {
        let mut param = String::from_str("groups[]=");
        param.append(tags[i].as_str());
        let ghost before = query@;
        if i > 0 {
            query.append("&");
        }
        query.append(param.as_str());
        proof {
            let shorter = group_params(texts(tags@.take(i as int)));
            let longer = group_params(texts(tags@.take(i as int + 1)));
            assert(longer.len() == i + 1);
            assert(longer.last() == param@);
            assert(longer.drop_last() =~= shorter);
            if i == 0 {
                assert(query@ =~= param@);
            }
        }
        i = i + 1;
    }
    proof {
        assert(tags@.take(tags@.len() as int) =~= tags@);
    }
    query
}

/// Builds the request of an event from its parts.
pub fn build_notification(
    conf: &EmailConfig,
    email: &str,
    domain: &str,
    label: &str,
    value: &str,
    tags: &Vec<String>,
) -> (notification: Notification)
    ensures
        notification@ == (NotificationView {
            url: notification_url(conf@.base_url, email@, domain@, label@, value@, texts(tags@)),
            authorization: bearer(conf@.api_key),
        }),
{
    let mut url = conf.base_url.clone();
    url.append("?email=");
    url.append(email);
    url.append("&fields[name]=");
    url.append(domain);
    url.append(label);
    url.append(value);
    url.append("&");
    let groups = group_query(tags);
    url.append(groups.as_str());
    let mut authorization = String::from_str("Bearer ");
    authorization.append(conf.api_key.as_str());
    Notification { url, authorization }
}

/// Builds the entry that reports a contact address of wrong syntax.
pub fn invalid_address(email: &str) -> (entry: LogEntry)
    ensures
        entry@ == invalid_address_entry(email@),
{
    let mut message = String::from_str("email ");
    message.append(email);
    message.append(" is not valid");
    LogEntry { level: Level::Local, message }
}

/// Decides what happens to a sale whose contact address was checked and whose expiry
/// was rendered: a request where the address is valid, a `Local` entry where it is not.
pub fn sale_outcome_from(
    conf: &EmailConfig,
    sale: &SaleDoc,
    address_ok: bool,
    rendered: Option<String>,
) -> (outcome: Outcome)
    requires
        sale.metadata@.len() > 0,
    ensures
        outcome@ == sale_decision(conf@, sale@, address_ok, rendered.deep_view()),
{
    let email = sale.metadata[0].email.as_str();
    if address_ok {
        let value = expiry_field(rendered);
        Outcome::Send(
            build_notification(
                conf,
                email,
                sale.domain.as_str(),
                "&fields[expiry]=",
                value.as_str(),
                &sale.same_tx_groups,
            ),
        )
    } else {
        Outcome::Skip(invalid_address(email))
    }
}

/// Decides what happens to a renewal toggle whose contact address was checked.
pub fn renewal_outcome_from(
    conf: &EmailConfig,
    renewal: &ReenewalToggledDoc,
    address_ok: bool,
) -> (outcome: Outcome)
    requires
        renewal.metadata@.len() > 0,
    ensures
        outcome@ == renewal_decision(conf@, renewal@, address_ok),
{
    let email = renewal.metadata[0].email.as_str();
    if address_ok {
        Outcome::Send(
            build_notification(
                conf,
                email,
                renewal.domain.as_str(),
                "&fields[renewer]=",
                renewal.renewer.as_str(),
                &renewal.same_tx_groups,
            ),
        )
    } else {
        Outcome::Skip(invalid_address(email))
    }
}

/// Checks the contact address of a sale, the email of its first metadata record, and
/// builds the request that announces the sale; an address of wrong syntax gives no
/// request.
pub fn process_sale(conf: &EmailConfig, sale: &SaleDoc) -> (outcome: Outcome)
    requires
        sale.metadata@.len() > 0,
    ensures
        outcome@ == sale_outcome(conf@, sale@),
{
    let address_ok = is_valid_address(sale.metadata[0].email.as_str());
    let rendered = if address_ok {
        render_utc_timestamp(sale.expiry)
    } else {
        None
    };
    sale_outcome_from(conf, sale, address_ok, rendered)
}

/// Checks the contact address of a renewal toggle and builds the request that announces
/// it; an address of wrong syntax gives no request.
pub fn process_toggle_renewal(conf: &EmailConfig, renewal: &ReenewalToggledDoc) -> (outcome:
    Outcome)
    requires
        renewal.metadata@.len() > 0,
    ensures
        outcome@ == renewal_outcome(conf@, renewal@),
{
    let address_ok = is_valid_address(renewal.metadata[0].email.as_str());
    renewal_outcome_from(conf, renewal, address_ok)
}

} // verus!
