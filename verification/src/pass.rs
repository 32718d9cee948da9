//! One pass over the events of a kind: every resolved event is visited once, its
//! request is delivered where it has one, and at the end every visited event is marked.

use crate::delivery::{delivery_entry, delivery_log, Delivery, DeliveryView};
use crate::docs::{
    copy_strings, lemma_map_push, renewal_views, sale_views, texts, ReenewalToggledDoc,
    RenewalView, SaleDoc, SaleView,
};
use crate::log::{severe_entry, undecodable, unreadable, LogEntry, LogEntryView};
use crate::plan::{marker_batch, EventKind};
use crate::request::{
    process_sale, process_toggle_renewal, renewal_outcome, sale_outcome, EmailConfig,
    EmailConfigView, Notification, NotificationView, Outcome, OutcomeView,
};
use crate::store::{
    after_pass, renewal_filter, resolved_renewals, resolved_sales, sale_filter, Store, StoreView,
};
use vstd::prelude::*;

verus! {

/// The answers of the mailing service to the requests of one pass: `replies` in the order
/// of the requests, and `otherwise` for every request after them.
#[derive(Debug, PartialEq, Eq)]
pub struct Mailbox {
    pub replies: Vec<Delivery>,
    pub otherwise: Delivery,
}

/// What a `Mailbox` holds.
pub struct MailboxView {
    pub replies: Seq<DeliveryView>,
    pub otherwise: DeliveryView,
}

impl View for Mailbox {
    type V = MailboxView;

    open spec fn view(&self) -> MailboxView {
        MailboxView {
            replies: self.replies@.map_values(|d: Delivery| d@),
            otherwise: self.otherwise@,
        }
    }
}

/// The answer to the request with number `n`, counted from zero.
pub open spec fn reply_to(mailbox: MailboxView, n: int) -> DeliveryView {
    if 0 <= n < mailbox.replies.len() {
        mailbox.replies[n]
    } else {
        mailbox.otherwise
    }
}

impl Mailbox {
    /// The answer to the request with number `n`, counted from zero.
    pub fn reply(&self, n: usize) -> (delivery: &Delivery)
        ensures
            delivery@ == reply_to(self@, n as int),
    {
        if n < self.replies.len() {
            &self.replies[n]
        } else {
            &self.otherwise
        }
    }
}

/// What a pass did: the requests it sent, what it logged, and the keys of the events it
/// visited, each in the order of the events.
#[derive(Debug, PartialEq, Eq)]
pub struct PassReport {
    pub posts: Vec<Notification>,
    pub log: Vec<LogEntry>,
    pub visited: Vec<String>,
}

/// What a `PassReport` holds.
pub struct PassReportView {
    pub posts: Seq<NotificationView>,
    pub log: Seq<LogEntryView>,
    pub visited: Seq<Seq<char>>,
}

impl View for PassReport {
    type V = PassReportView;

    open spec fn view(&self) -> PassReportView {
        PassReportView {
            posts: self.posts@.map_values(|n: Notification| n@),
            log: self.log@.map_values(|e: LogEntry| e@),
            visited: texts(self.visited@),
        }
    }
}

/// One visited event: the key by which it is marked, and what was decided for it.
pub struct Visit {
    pub key: Seq<char>,
    pub outcome: OutcomeView,
}

/// The report of a pass that has visited nothing.
pub open spec fn no_report() -> PassReportView {
    PassReportView { posts: Seq::empty(), log: Seq::empty(), visited: Seq::empty() }
}

/// What the delivery of a request adds to the log: nothing, or one entry.
pub open spec fn delivery_entries(url: Seq<char>, delivery: DeliveryView) -> Seq<LogEntryView> {
    match delivery_entry(url, delivery) {
        Some(entry) => seq![entry],
        None => Seq::empty(),
    }
}

/// The report after an outcome was carried out. A request is sent and answered by the
/// mailbox, and a failure is logged; a skipped event is logged. The visited keys stay.
pub open spec fn carried_out(
    report: PassReportView,
    outcome: OutcomeView,
    mailbox: MailboxView,
) -> PassReportView {
    match outcome {
        OutcomeView::Send(notification) => PassReportView {
            posts: report.posts.push(notification),
            log: report.log + delivery_entries(
                notification.url,
                reply_to(mailbox, report.posts.len() as int),
            ),
            visited: report.visited,
        },
        OutcomeView::Skip(entry) => PassReportView {
            posts: report.posts,
            log: report.log.push(entry),
            visited: report.visited,
        },
    }
}

/// The report after one more visit: the outcome is carried out, and the key is recorded
/// whatever the outcome was.
pub open spec fn visit(report: PassReportView, event: Visit, mailbox: MailboxView) -> PassReportView {
    PassReportView {
        visited: report.visited.push(event.key),
        ..carried_out(report, event.outcome, mailbox)
    }
}

/// The report of a pass that makes the visits in their order.
pub open spec fn trace(visits: Seq<Visit>, mailbox: MailboxView) -> PassReportView
    decreases visits.len(),
{
    if visits.len() == 0 {
        no_report()
    } else {
        visit(trace(visits.drop_last(), mailbox), visits.last(), mailbox)
    }
}

/// The visit of a sale: it is marked by its `meta_hash`.
pub open spec fn sale_visit(conf: EmailConfigView) -> spec_fn(SaleView) -> Visit {
    |sale: SaleView| Visit { key: sale.meta_hash, outcome: sale_outcome(conf, sale) }
}

/// The visit of a renewal toggle: it is marked by its `tx_hash`.
pub open spec fn renewal_visit(conf: EmailConfigView) -> spec_fn(RenewalView) -> Visit {
    |renewal: RenewalView|
        Visit { key: renewal.tx_hash, outcome: renewal_outcome(conf, renewal) }
}

/// The report of a pass over the sales of a store.
pub open spec fn sale_pass(
    conf: EmailConfigView,
    store: StoreView,
    mailbox: MailboxView,
) -> PassReportView {
    trace(resolved_sales(store).map_values(sale_visit(conf)), mailbox)
}

/// The report of a pass over the renewal toggles of a store.
pub open spec fn renewal_pass(
    conf: EmailConfigView,
    store: StoreView,
    mailbox: MailboxView,
) -> PassReportView {
    trace(resolved_renewals(store).map_values(renewal_visit(conf)), mailbox)
}

/// A pass that visits one more event continues the pass over the events before it.
pub proof fn lemma_trace_push(visits: Seq<Visit>, last: Visit, mailbox: MailboxView)
    ensures
        trace(visits.push(last), mailbox) == visit(trace(visits, mailbox), last, mailbox),
{
    assert(visits.push(last).drop_last() =~= visits);
}

/// Every resolved sale has at least one metadata record.
pub proof fn lemma_resolved_sales_have_metadata(store: StoreView, k: int)
    requires
        0 <= k < resolved_sales(store).len(),
    ensures
        resolved_sales(store)[k].metadata.len() > 0,
{
    store.sales.lemma_filter_pred(sale_filter(store), k);
}

/// Every resolved renewal toggle has at least one metadata record.
pub proof fn lemma_resolved_renewals_have_metadata(store: StoreView, k: int)
    requires
        0 <= k < resolved_renewals(store).len(),
    ensures
        resolved_renewals(store)[k].metadata.len() > 0,
{
    store.auto_renew_updates.lemma_filter_pred(renewal_filter(store), k);
}

impl PassReport {
    /// The report of a pass that has visited nothing.
    pub fn new() -> (report: PassReport)
        ensures
            report@ == no_report(),
    {
        let report = PassReport { posts: Vec::new(), log: Vec::new(), visited: Vec::new() };
        proof {
            assert(report@.posts =~= Seq::empty());
            assert(report@.log =~= Seq::empty());
            assert(report@.visited =~= Seq::empty());
        }
        report
    }

    /// Carries out what was decided for one event. Its request, if it has one, counts as
    /// sent and is answered by the mailbox; a failed delivery is logged and changes nothing
    /// else.
    pub fn record(&mut self, outcome: Outcome, mailbox: &Mailbox)
        ensures
            final(self)@ == carried_out(old(self)@, outcome@, mailbox@),
    {
        let ghost posts = self.posts@;
        let ghost log = self.log@;
        match outcome {
            Outcome::Send(notification) => {
                let delivery = mailbox.reply(self.posts.len());
                let entry = delivery_log(notification.url.as_str(), delivery);
                match entry {
                    Some(e) => {
                        self.log.push(e);
                        proof {
                            lemma_map_push(log, e, |e: LogEntry| e@);
                            assert(self@.log =~= old(self)@.log + seq![e@]);
                        }
                    },
                    None => {
                        proof {
                            assert(self@.log =~= old(self)@.log + Seq::empty());
                        }
                    },
                }
                self.posts.push(notification);
                proof {
                    lemma_map_push(posts, notification, |n: Notification| n@);
                }
            },
            Outcome::Skip(entry) => {
                self.log.push(entry);
                proof {
                    lemma_map_push(log, entry, |e: LogEntry| e@);
                }
            },
        }
    }
}

/// Visits one resolved sale: decides its outcome and records its `meta_hash` among the
/// visited keys, whatever the outcome is.
pub fn visit_sale(conf: &EmailConfig, sale: &SaleDoc, visited: &mut Vec<String>) -> (outcome:
    Outcome)
    requires
        sale.metadata@.len() > 0,
    ensures
        outcome@ == sale_outcome(conf@, sale@),
        texts(final(visited)@) == texts(old(visited)@).push(sale@.meta_hash),
{
    let outcome = process_sale(conf, sale);
    let ghost before = visited@;
    visited.push(sale.meta_hash.clone());
    proof {
        lemma_map_push(before, visited@.last(), |s: String| s@);
    }
    outcome
}

/// Visits one resolved renewal toggle: decides its outcome and records its `tx_hash`
/// among the visited keys, whatever the outcome is.
pub fn visit_renewal(
    conf: &EmailConfig,
    renewal: &ReenewalToggledDoc,
    visited: &mut Vec<String>,
) -> (outcome: Outcome)
    requires
        renewal.metadata@.len() > 0,
    ensures
        outcome@ == renewal_outcome(conf@, renewal@),
        texts(final(visited)@) == texts(old(visited)@).push(renewal@.tx_hash),
{
    let outcome = process_toggle_renewal(conf, renewal);
    let ghost before = visited@;
    visited.push(renewal.tx_hash.clone());
    proof {
        lemma_map_push(before, visited@.last(), |s: String| s@);
    }
    outcome
}

/// What the store handed out at one step of reading the resolved events.
#[derive(Debug, PartialEq, Eq)]
pub enum Fetched<D> {
    /// A resolved event.
    Document(D),
    /// A joined document that has not the shape of an event; the text says why.
    Undecodable(String),
    /// A failure of the store itself; the text says what failed.
    Unreadable(String),
}

/// The outcome of a step that met a failure: nothing is delivered, and a `Severe` entry
/// holds the prefix and the error.
pub open spec fn read_failure(error_prefix: Seq<char>, error: Seq<char>) -> OutcomeView {
    OutcomeView::Skip(severe_entry(error_prefix, error))
}

/// Takes one step of a pass over sales. A resolved sale is visited. A document that does
/// not decode is logged as `Severe` and left unmarked, so that a later pass meets it
/// again. A failure of the store is logged as `Severe` and ends the reading. The second
/// result tells whether reading goes on.
pub fn sale_step(conf: &EmailConfig, fetched: &Fetched<SaleDoc>, visited: &mut Vec<String>) -> (step:
    (Outcome, bool))
    requires
        fetched matches Fetched::Document(sale) ==> sale.metadata@.len() > 0,
    ensures
        match fetched {
            Fetched::Document(sale) => {
                &&& step.0@ == sale_outcome(conf@, sale@)
                &&& step.1
                &&& texts(final(visited)@) == texts(old(visited)@).push(sale@.meta_hash)
            },
            Fetched::Undecodable(error) => {
                &&& step.0@ == read_failure("Error parsing doc: "@, error@)
                &&& step.1
                &&& final(visited)@ == old(visited)@
            },
            Fetched::Unreadable(error) => {
                &&& step.0@ == read_failure("Error while processing: "@, error@)
                &&& !step.1
                &&& final(visited)@ == old(visited)@
            },
        },
{
    match fetched {
        Fetched::Document(sale) => (visit_sale(conf, sale, visited), true),
        Fetched::Undecodable(error) => (Outcome::Skip(undecodable(error.as_str())), true),
        Fetched::Unreadable(error) => (Outcome::Skip(unreadable(error.as_str())), false),
    }
}

/// Takes one step of a pass over renewal toggles. A resolved toggle is visited. A
/// document that does not decode is logged as `Severe` and left unmarked, so that a later
/// pass meets it again. A failure of the store is logged as `Severe` and ends the
/// reading. The second result tells whether reading goes on.
pub fn renewal_step(
    conf: &EmailConfig,
    fetched: &Fetched<ReenewalToggledDoc>,
    visited: &mut Vec<String>,
) -> (step: (Outcome, bool))
    requires
        fetched matches Fetched::Document(renewal) ==> renewal.metadata@.len() > 0,
    ensures
        match fetched {
            Fetched::Document(renewal) => {
                &&& step.0@ == renewal_outcome(conf@, renewal@)
                &&& step.1
                &&& texts(final(visited)@) == texts(old(visited)@).push(renewal@.tx_hash)
            },
            Fetched::Undecodable(error) => {
                &&& step.0@ == read_failure("Error parsing doc: "@, error@)
                &&& step.1
                &&& final(visited)@ == old(visited)@
            },
            Fetched::Unreadable(error) => {
                &&& step.0@ == read_failure("Error while processing: "@, error@)
                &&& !step.1
                &&& final(visited)@ == old(visited)@
            },
        },
{
    match fetched {
        Fetched::Document(renewal) => (visit_renewal(conf, renewal, visited), true),
        Fetched::Undecodable(error) => (Outcome::Skip(undecodable(error.as_str())), true),
        Fetched::Unreadable(error) => (Outcome::Skip(unreadable(error.as_str())), false),
    }
}

/// Runs one pass over the sales of `db`: resolves the eligible sales, visits each, and
/// then marks every visited sale by its `meta_hash`, in one batch. The markers do not
/// depend on what the mailbox answered, nor on whether a request was sent at all.
pub fn process_purchase_data(conf: &EmailConfig, db: &mut Store, mailbox: &Mailbox) -> (report:
    PassReport)
    ensures
        report@ == sale_pass(conf@, old(db)@, mailbox@),
        final(db)@ == after_pass(old(db)@, EventKind::Sale, report@.visited),
{
    let docs = db.resolve_sales();
    let mut report = PassReport::new();
    let mut i: usize = 0;
    proof {
        assert(sale_views(docs@.take(0)).map_values(sale_visit(conf@)) =~= Seq::empty());
    }
    while i < docs.len()
        invariant
            i <= docs@.len(),
            sale_views(docs@) == resolved_sales(db@),
            report@ == trace(
                sale_views(docs@.take(i as int)).map_values(sale_visit(conf@)),
                mailbox@,
            ),
        decreases docs@.len() - i,
    {
        let doc = &docs[i];
        proof {
            let seen = docs@.take(i as int);
            lemma_resolved_sales_have_metadata(db@, i as int);
            assert(sale_views(docs@)[i as int] == doc@);
            assert(docs@.take(i as int + 1) =~= seen.push(*doc));
            lemma_map_push(seen, *doc, |d: SaleDoc| d@);
            lemma_map_push(sale_views(seen), doc@, sale_visit(conf@));
            lemma_trace_push(
                sale_views(seen).map_values(sale_visit(conf@)),
                sale_visit(conf@)(doc@),
                mailbox@,
            );
        }
        let outcome = visit_sale(conf, doc, &mut report.visited);
        report.record(outcome, mailbox);
        i = i + 1;
    }
    proof {
        assert(docs@.take(docs@.len() as int) =~= docs@);
    }
    match marker_batch(EventKind::Sale, copy_strings(&report.visited)) {
        Some(batch) => db.insert_markers(batch),
        None => {
            proof {
                assert(report@.visited =~= Seq::empty());
                assert(db@.processed + report@.visited =~= db@.processed);
            }
        },
    }
    report
}

/// Runs one pass over the renewal toggles of `db`: resolves the eligible toggles, visits
/// each, and then marks every visited toggle by its `tx_hash`, in one batch. The markers
/// do not depend on what the mailbox answered, nor on whether a request was sent at all.
pub fn process_auto_renew_data(conf: &EmailConfig, db: &mut Store, mailbox: &Mailbox) -> (report:
    PassReport)
    ensures
        report@ == renewal_pass(conf@, old(db)@, mailbox@),
        final(db)@ == after_pass(old(db)@, EventKind::Renewal, report@.visited),
{
    let docs = db.resolve_renewals();
    let mut report = PassReport::new();
    let mut i: usize = 0;
    proof {
        assert(renewal_views(docs@.take(0)).map_values(renewal_visit(conf@)) =~= Seq::empty());
    }
    while i < docs.len()
        invariant
            i <= docs@.len(),
            renewal_views(docs@) == resolved_renewals(db@),
            report@ == trace(
                renewal_views(docs@.take(i as int)).map_values(renewal_visit(conf@)),
                mailbox@,
            ),
        decreases docs@.len() - i,
    {
        let doc = &docs[i];
        proof {
            let seen = docs@.take(i as int);
            lemma_resolved_renewals_have_metadata(db@, i as int);
            assert(renewal_views(docs@)[i as int] == doc@);
            assert(docs@.take(i as int + 1) =~= seen.push(*doc));
            lemma_map_push(seen, *doc, |d: ReenewalToggledDoc| d@);
            lemma_map_push(renewal_views(seen), doc@, renewal_visit(conf@));
            lemma_trace_push(
                renewal_views(seen).map_values(renewal_visit(conf@)),
                renewal_visit(conf@)(doc@),
                mailbox@,
            );
        }
        let outcome = visit_renewal(conf, doc, &mut report.visited);
        report.record(outcome, mailbox);
        i = i + 1;
    }
    proof {
        assert(docs@.take(docs@.len() as int) =~= docs@);
    }
    match marker_batch(EventKind::Renewal, copy_strings(&report.visited)) {
        Some(batch) => db.insert_markers(batch),
        None => {
            proof {
                assert(report@.visited =~= Seq::empty());
                assert(db@.ar_processed + report@.visited =~= db@.ar_processed);
            }
        },
    }
    report
}

} // verus!
