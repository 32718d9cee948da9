//! What holds of every pass: which events are resolved, that each is marked once and
//! never resolved again, and that marking depends neither on the contact address nor on
//! the delivery.

use crate::address::email_syntax_valid;
use crate::docs::{RenewalView, SaleView};
use crate::pass::{
    no_report, renewal_pass, renewal_visit, sale_pass, sale_visit, trace, MailboxView, Visit,
};
use crate::plan::EventKind;
use crate::request::{
    group_params, joined, renewal_outcome, sale_outcome, EmailConfigView, NotificationView,
};
use crate::store::{
    after_pass, has_tx_hash, join_renewal, join_sale, lemma_filter_push, renewal_eligible,
    renewal_filter, resolved_renewals, resolved_sales, sale_eligible, sale_filter, tags_of,
    StoreView,
};
use vstd::prelude::*;

verus! {

/// The key of a visit.
pub open spec fn key_of() -> spec_fn(Visit) -> Seq<char> {
    |v: Visit| v.key
}

/// The test that a visit sends a request.
pub open spec fn is_send() -> spec_fn(Visit) -> bool {
    |v: Visit| v.outcome is Send
}

/// The request of a visit that sends one.
pub open spec fn request_of() -> spec_fn(Visit) -> NotificationView {
    |v: Visit| v.outcome->Send_0
}

/// The requests of the visits that send one, in the order of the visits.
pub open spec fn requests(visits: Seq<Visit>) -> Seq<NotificationView> {
    visits.filter(is_send()).map_values(request_of())
}

/// The `meta_hash` of a sale.
pub open spec fn sale_key() -> spec_fn(SaleView) -> Seq<char> {
    |sale: SaleView| sale.meta_hash
}

/// The `tx_hash` of a renewal toggle.
pub open spec fn renewal_key() -> spec_fn(RenewalView) -> Seq<char> {
    |renewal: RenewalView| renewal.tx_hash
}

/// The test that a marker is the marker of `key`.
pub open spec fn is_key(key: Seq<char>) -> spec_fn(Seq<char>) -> bool {
    |marker: Seq<char>| marker == key
}

/// How many markers `key` has.
pub open spec fn marker_count(markers: Seq<Seq<char>>, key: Seq<char>) -> nat {
    markers.filter(is_key(key)).len()
}

/// Whether no two keys of a sequence are equal.
pub open spec fn distinct(keys: Seq<Seq<char>>) -> bool {
    forall|i: int, j: int| 0 <= i < j < keys.len() ==> keys[i] != keys[j]
}

/// A test that no element passes keeps nothing.
pub proof fn lemma_filter_none<A>(s: Seq<A>, pred: spec_fn(A) -> bool)
    requires
        forall|i: int| 0 <= i < s.len() ==> !pred(s[i]),
    ensures
        s.filter(pred) == Seq::<A>::empty(),
    decreases s.len(),
{
    reveal(Seq::filter);
    if s.len() > 0 {
        lemma_filter_none(s.drop_last(), pred);
    }
}

/// Among distinct keys, each is found exactly once.
pub proof fn lemma_distinct_count(keys: Seq<Seq<char>>, k: int)
    requires
        distinct(keys),
        0 <= k < keys.len(),
    ensures
        marker_count(keys, keys[k]) == 1,
    decreases keys.len(),
{
    let front = keys.drop_last();
    assert(keys =~= front.push(keys.last()));
    lemma_filter_push(front, keys.last(), is_key(keys[k]));
    if k == keys.len() - 1 {
        lemma_filter_none(front, is_key(keys[k]));
    } else {
        lemma_distinct_count(front, k);
    }
}

/// A pass records the key of every visit, in order, whatever was decided for the event
/// and whatever the mailbox answered; and it sends exactly the requests of the visits
/// that have one.
pub proof fn lemma_trace(visits: Seq<Visit>, mailbox: MailboxView)
    ensures
        trace(visits, mailbox).visited == visits.map_values(key_of()),
        trace(visits, mailbox).posts == requests(visits),
    decreases visits.len(),
{
    reveal(Seq::filter);
    if visits.len() == 0 {
        assert(trace(visits, mailbox).visited =~= visits.map_values(key_of()));
        assert(trace(visits, mailbox).posts =~= requests(visits));
    } else {
        let front = visits.drop_last();
        lemma_trace(front, mailbox);
        assert(visits =~= front.push(visits.last()));
        lemma_filter_push(front, visits.last(), is_send());
        assert(trace(visits, mailbox).visited =~= visits.map_values(key_of()));
        assert(trace(visits, mailbox).posts =~= requests(visits));
    }
}

/// Eligibility of sales: a sale of the store is among the resolved sales, joined with its
/// metadata and tags, if and only if it has at least one metadata record and its
/// `meta_hash` has no marker.
pub proof fn law_sale_eligibility(store: StoreView, sale: SaleView)
    requires
        store.sales.contains(sale),
    ensures
        resolved_sales(store).contains(join_sale(store, sale)) <==> sale_eligible(store, sale),
{
    let kept = store.sales.filter(sale_filter(store));
    let resolved = resolved_sales(store);
    if sale_eligible(store, sale) {
        let i = choose|i: int| 0 <= i < store.sales.len() && store.sales[i] == sale;
        store.sales.lemma_filter_contains(sale_filter(store), i);
        let k = choose|k: int| 0 <= k < kept.len() && kept[k] == sale;
        assert(resolved[k] == join_sale(store, sale));
    }
    if resolved.contains(join_sale(store, sale)) {
        let k = choose|k: int| 0 <= k < resolved.len() && resolved[k] == join_sale(store, sale);
        store.sales.lemma_filter_pred(sale_filter(store), k);
        assert(join_sale(store, kept[k]).meta_hash == join_sale(store, sale).meta_hash);
    }
}

/// Eligibility of renewal toggles: a toggle of the store is among the resolved toggles,
/// joined with its metadata and tags, if and only if it has at least one metadata record
/// and its `tx_hash` has no marker.
pub proof fn law_renewal_eligibility(store: StoreView, renewal: RenewalView)
    requires
        store.auto_renew_updates.contains(renewal),
    ensures
        resolved_renewals(store).contains(join_renewal(store, renewal)) <==> renewal_eligible(
            store,
            renewal,
        ),
{
    let kept = store.auto_renew_updates.filter(renewal_filter(store));
    let resolved = resolved_renewals(store);
    if renewal_eligible(store, renewal) {
        let i = choose|i: int|
            0 <= i < store.auto_renew_updates.len() && store.auto_renew_updates[i] == renewal;
        store.auto_renew_updates.lemma_filter_contains(renewal_filter(store), i);
        let k = choose|k: int| 0 <= k < kept.len() && kept[k] == renewal;
        assert(resolved[k] == join_renewal(store, renewal));
    }
    if resolved.contains(join_renewal(store, renewal)) {
        let k = choose|k: int|
            0 <= k < resolved.len() && resolved[k] == join_renewal(store, renewal);
        store.auto_renew_updates.lemma_filter_pred(renewal_filter(store), k);
        assert(join_renewal(store, kept[k]).meta_hash == join_renewal(store, renewal).meta_hash);
        assert(join_renewal(store, kept[k]).tx_hash == join_renewal(store, renewal).tx_hash);
    }
}

/// Unconditional marking of sales: a pass marks every resolved sale by its `meta_hash`,
/// in order, for every configuration and every mailbox: neither a contact address of
/// wrong syntax nor a failed delivery keeps a sale from being marked.
pub proof fn law_sale_pass_marks_all(conf: EmailConfigView, store: StoreView, mailbox: MailboxView)
    ensures
        sale_pass(conf, store, mailbox).visited == resolved_sales(store).map_values(sale_key()),
{
    let visits = resolved_sales(store).map_values(sale_visit(conf));
    lemma_trace(visits, mailbox);
    assert(visits.map_values(key_of()) =~= resolved_sales(store).map_values(sale_key()));
}

/// Unconditional marking of renewal toggles: a pass marks every resolved toggle by its
/// `tx_hash`, in order, for every configuration and every mailbox.
pub proof fn law_renewal_pass_marks_all(
    conf: EmailConfigView,
    store: StoreView,
    mailbox: MailboxView,
)
    ensures
        renewal_pass(conf, store, mailbox).visited == resolved_renewals(store).map_values(
            renewal_key(),
        ),
{
    let visits = resolved_renewals(store).map_values(renewal_visit(conf));
    lemma_trace(visits, mailbox);
    assert(visits.map_values(key_of()) =~= resolved_renewals(store).map_values(renewal_key()));
}

/// Marking does not depend on delivery: two passes that differ only in what the mailbox
/// answers visit the same events, mark the same keys and send the same requests.
pub proof fn law_marking_ignores_delivery(
    visits: Seq<Visit>,
    first: MailboxView,
    second: MailboxView,
)
    ensures
        trace(visits, first).visited == trace(visits, second).visited,
        trace(visits, first).posts == trace(visits, second).posts,
{
    lemma_trace(visits, first);
    lemma_trace(visits, second);
}

/// Convergence of sales: after a pass has marked what it visited, no sale is resolved
/// any more, so that a second pass, whatever its mailbox, visits nothing, sends nothing
/// and logs nothing.
pub proof fn law_sale_pass_converges(
    conf: EmailConfigView,
    store: StoreView,
    mailbox: MailboxView,
    next: MailboxView,
)
    ensures
        resolved_sales(
            after_pass(store, EventKind::Sale, sale_pass(conf, store, mailbox).visited),
        ) == Seq::<SaleView>::empty(),
        sale_pass(
            conf,
            after_pass(store, EventKind::Sale, sale_pass(conf, store, mailbox).visited),
            next,
        ) == no_report(),
{
    let visited = sale_pass(conf, store, mailbox).visited;
    let after = after_pass(store, EventKind::Sale, visited);
    let kept = store.sales.filter(sale_filter(store));
    law_sale_pass_marks_all(conf, store, mailbox);
    assert forall|i: int| 0 <= i < after.sales.len() implies !sale_filter(after)(
        after.sales[i],
    ) by {
        let sale = store.sales[i];
        if sale_eligible(store, sale) {
            store.sales.lemma_filter_contains(sale_filter(store), i);
            let k = choose|k: int| 0 <= k < kept.len() && kept[k] == sale;
            assert(visited[k] == sale.meta_hash);
            assert(after.processed[store.processed.len() + k] == sale.meta_hash);
        } else if store.processed.contains(sale.meta_hash) {
            let m = choose|m: int| 0 <= m < store.processed.len() && store.processed[m] == sale.meta_hash;
            assert(after.processed[m] == sale.meta_hash);
        }
    }
    lemma_filter_none(after.sales, sale_filter(after));
    assert(resolved_sales(after) =~= Seq::<SaleView>::empty());
    assert(resolved_sales(after).map_values(sale_visit(conf)) =~= Seq::<Visit>::empty());
}

/// Convergence of renewal toggles: after a pass has marked what it visited, no toggle is
/// resolved any more, so that a second pass, whatever its mailbox, visits nothing, sends
/// nothing and logs nothing.
pub proof fn law_renewal_pass_converges(
    conf: EmailConfigView,
    store: StoreView,
    mailbox: MailboxView,
    next: MailboxView,
)
    ensures
        resolved_renewals(
            after_pass(store, EventKind::Renewal, renewal_pass(conf, store, mailbox).visited),
        ) == Seq::<RenewalView>::empty(),
        renewal_pass(
            conf,
            after_pass(store, EventKind::Renewal, renewal_pass(conf, store, mailbox).visited),
            next,
        ) == no_report(),
{
    let visited = renewal_pass(conf, store, mailbox).visited;
    let after = after_pass(store, EventKind::Renewal, visited);
    let kept = store.auto_renew_updates.filter(renewal_filter(store));
    law_renewal_pass_marks_all(conf, store, mailbox);
    assert forall|i: int| 0 <= i < after.auto_renew_updates.len() implies !renewal_filter(after)(
        after.auto_renew_updates[i],
    ) by {
        let renewal = store.auto_renew_updates[i];
        if renewal_eligible(store, renewal) {
            store.auto_renew_updates.lemma_filter_contains(renewal_filter(store), i);
            let k = choose|k: int| 0 <= k < kept.len() && kept[k] == renewal;
            assert(visited[k] == renewal.tx_hash);
            assert(after.ar_processed[store.ar_processed.len() + k] == renewal.tx_hash);
        } else if store.ar_processed.contains(renewal.tx_hash) {
            let m = choose|m: int|
                0 <= m < store.ar_processed.len() && store.ar_processed[m] == renewal.tx_hash;
            assert(after.ar_processed[m] == renewal.tx_hash);
        }
    }
    lemma_filter_none(after.auto_renew_updates, renewal_filter(after));
    assert(resolved_renewals(after) =~= Seq::<RenewalView>::empty());
    assert(resolved_renewals(after).map_values(renewal_visit(conf)) =~= Seq::<Visit>::empty());
}

/// At-most-once marking of sales: where no two resolved sales share a `meta_hash`, every
/// sale that a pass visited has exactly one marker after the pass.
pub proof fn law_sale_marked_once(
    conf: EmailConfigView,
    store: StoreView,
    mailbox: MailboxView,
    k: int,
)
    requires
        0 <= k < resolved_sales(store).len(),
        distinct(resolved_sales(store).map_values(sale_key())),
    ensures
        marker_count(
            after_pass(store, EventKind::Sale, sale_pass(conf, store, mailbox).visited).processed,
            resolved_sales(store)[k].meta_hash,
        ) == 1,
{
    let visited = sale_pass(conf, store, mailbox).visited;
    let key = resolved_sales(store)[k].meta_hash;
    law_sale_pass_marks_all(conf, store, mailbox);
    store.sales.lemma_filter_pred(sale_filter(store), k);
    assert(!store.processed.contains(key));
    lemma_filter_none(store.processed, is_key(key));
    lemma_distinct_count(visited, k);
    Seq::filter_distributes_over_add(store.processed, visited, is_key(key));
    assert(Seq::<Seq<char>>::empty() + visited.filter(is_key(key)) =~= visited.filter(is_key(key)));
}

/// At-most-once marking of renewal toggles: where no two resolved toggles share a
/// `tx_hash`, every toggle that a pass visited has exactly one marker after the pass.
pub proof fn law_renewal_marked_once(
    conf: EmailConfigView,
    store: StoreView,
    mailbox: MailboxView,
    k: int,
)
    requires
        0 <= k < resolved_renewals(store).len(),
        distinct(resolved_renewals(store).map_values(renewal_key())),
    ensures
        marker_count(
            after_pass(
                store,
                EventKind::Renewal,
                renewal_pass(conf, store, mailbox).visited,
            ).ar_processed,
            resolved_renewals(store)[k].tx_hash,
        ) == 1,
{
    let visited = renewal_pass(conf, store, mailbox).visited;
    let key = resolved_renewals(store)[k].tx_hash;
    law_renewal_pass_marks_all(conf, store, mailbox);
    store.auto_renew_updates.lemma_filter_pred(renewal_filter(store), k);
    assert(!store.ar_processed.contains(key));
    lemma_filter_none(store.ar_processed, is_key(key));
    lemma_distinct_count(visited, k);
    Seq::filter_distributes_over_add(store.ar_processed, visited, is_key(key));
    assert(Seq::<Seq<char>>::empty() + visited.filter(is_key(key)) =~= visited.filter(is_key(key)));
}

/// Invalid-address suppression for sales: a resolved sale whose contact address has wrong
/// syntax gets no request, and is marked all the same; the requests of the pass are those
/// of the sales that have one.
pub proof fn law_sale_invalid_address(
    conf: EmailConfigView,
    store: StoreView,
    mailbox: MailboxView,
    k: int,
)
    requires
        0 <= k < resolved_sales(store).len(),
        !email_syntax_valid(resolved_sales(store)[k].metadata[0].email),
    ensures
        sale_outcome(conf, resolved_sales(store)[k]) is Skip,
        sale_pass(conf, store, mailbox).visited[k] == resolved_sales(store)[k].meta_hash,
        sale_pass(conf, store, mailbox).posts == requests(
            resolved_sales(store).map_values(sale_visit(conf)),
        ),
{
    law_sale_pass_marks_all(conf, store, mailbox);
    lemma_trace(resolved_sales(store).map_values(sale_visit(conf)), mailbox);
}

/// Invalid-address suppression for renewal toggles: a resolved toggle whose contact
/// address has wrong syntax gets no request, and is marked all the same; the requests of
/// the pass are those of the toggles that have one.
pub proof fn law_renewal_invalid_address(
    conf: EmailConfigView,
    store: StoreView,
    mailbox: MailboxView,
    k: int,
)
    requires
        0 <= k < resolved_renewals(store).len(),
        !email_syntax_valid(resolved_renewals(store)[k].metadata[0].email),
    ensures
        renewal_outcome(conf, resolved_renewals(store)[k]) is Skip,
        renewal_pass(conf, store, mailbox).visited[k] == resolved_renewals(store)[k].tx_hash,
        renewal_pass(conf, store, mailbox).posts == requests(
            resolved_renewals(store).map_values(renewal_visit(conf)),
        ),
{
    law_renewal_pass_marks_all(conf, store, mailbox);
    lemma_trace(resolved_renewals(store).map_values(renewal_visit(conf)), mailbox);
}

/// Group-tag projection: a request carries one `groups[]` parameter for every group
/// association of the event's transaction, in the order of the associations, and none
/// where there is no association.
pub proof fn law_group_projection(store: StoreView, tx_hash: Seq<char>)
    ensures
        group_params(tags_of(store.email_groups, tx_hash)).len() == store.email_groups.filter(
            has_tx_hash(tx_hash),
        ).len(),
        forall|i: int|
            0 <= i < store.email_groups.filter(has_tx_hash(tx_hash)).len() ==> #[trigger] group_params(
                tags_of(store.email_groups, tx_hash),
            )[i] == "groups[]="@ + store.email_groups.filter(has_tx_hash(tx_hash))[i].group,
        store.email_groups.filter(has_tx_hash(tx_hash)).len() == 0 ==> joined(
            group_params(tags_of(store.email_groups, tx_hash)),
        ) == Seq::<char>::empty(),
{
}

} // verus!
