use sale_actions::delivery::Delivery;
use sale_actions::docs::{GroupDoc, MetadataDoc, ReenewalToggledDoc, SaleDoc};
use sale_actions::log::{Level, LogEntry};
use sale_actions::pass::{
    process_auto_renew_data, process_purchase_data, renewal_step, sale_step, visit_renewal,
    visit_sale, Fetched, Mailbox, PassReport,
};
use sale_actions::request::{EmailConfig, Notification, Outcome};
use sale_actions::store::Store;

fn conf() -> EmailConfig {
    EmailConfig { base_url: "https://mail.example/sub".to_string(), api_key: "key".to_string() }
}

fn metadata(meta_hash: &str, email: &str) -> MetadataDoc {
    MetadataDoc {
        meta_hash: meta_hash.to_string(),
        email: email.to_string(),
        tax_state: "none".to_string(),
        salt: "s".to_string(),
    }
}

fn sale(tx_hash: &str, meta_hash: &str, domain: &str, expiry: i64) -> SaleDoc {
    SaleDoc {
        tx_hash: tx_hash.to_string(),
        meta_hash: meta_hash.to_string(),
        domain: domain.to_string(),
        price_bits: 1.0f64.to_bits(),
        payer: "0x1".to_string(),
        timestamp: 1690000000,
        expiry,
        auto: false,
        sponsor: None,
        sponsor_comm_bits: None,
        metadata: vec![],
        same_tx_groups: vec![],
    }
}

fn renewal(tx_hash: &str, meta_hash: &str, domain: &str) -> ReenewalToggledDoc {
    ReenewalToggledDoc {
        tx_hash: tx_hash.to_string(),
        meta_hash: meta_hash.to_string(),
        domain: domain.to_string(),
        renewer: "0xabc".to_string(),
        allowance: "1000".to_string(),
        metadata: vec![],
        same_tx_groups: vec![],
    }
}

fn group(tx_hash: &str, tag: &str) -> GroupDoc {
    GroupDoc { tx_hash: tx_hash.to_string(), group: tag.to_string() }
}

fn empty_store() -> Store {
    Store {
        sales: vec![],
        auto_renew_updates: vec![],
        metadata: vec![],
        processed: vec![],
        ar_processed: vec![],
        email_groups: vec![],
    }
}

fn ok() -> Delivery {
    Delivery::Response { code: 200, status: "200 OK".to_string(), body: Some("".to_string()) }
}

fn always_ok() -> Mailbox {
    Mailbox { replies: vec![], otherwise: ok() }
}

fn keys(v: &[&str]) -> Vec<String> {
    v.iter().map(|k| k.to_string()).collect()
}

#[test]
fn one_sale_is_announced_once_and_never_again() {
    let mut store = empty_store();
    store.sales.push(sale("T1", "M1", "example", 1700000000));
    store.metadata.push(metadata("M1", "a@b.com"));
    store.email_groups.push(group("T1", "vip"));

    let first = process_purchase_data(&conf(), &mut store, &always_ok());
    assert_eq!(
        first.posts,
        vec![Notification {
            url: "https://mail.example/sub?email=a@b.com&fields[name]=example&fields[expiry]=2023-11-14 22:13:20&groups[]=vip".to_string(),
            authorization: "Bearer key".to_string(),
        }]
    );
    assert_eq!(first.log, vec![]);
    assert_eq!(first.visited, keys(&["M1"]));
    assert_eq!(store.processed, keys(&["M1"]));

    let second = process_purchase_data(&conf(), &mut store, &always_ok());
    assert_eq!(second, PassReport { posts: vec![], log: vec![], visited: vec![] });
    assert_eq!(store.processed, keys(&["M1"]));
}

#[test]
fn a_failed_delivery_is_logged_and_the_event_is_marked_all_the_same() {
    let mut store = empty_store();
    store.sales.push(sale("T1", "M1", "example", 1700000000));
    store.metadata.push(metadata("M1", "a@b.com"));
    let mailbox = Mailbox {
        replies: vec![Delivery::Response {
            code: 503,
            status: "503 Service Unavailable".to_string(),
            body: Some("try later".to_string()),
        }],
        otherwise: ok(),
    };
    let report = process_purchase_data(&conf(), &mut store, &mailbox);
    assert_eq!(report.posts.len(), 1);
    assert_eq!(
        report.log,
        vec![LogEntry {
            level: Level::Severe,
            message: "Received non-success status from POST request: 503 Service Unavailable. URL: https://mail.example/sub?email=a@b.com&fields[name]=example&fields[expiry]=2023-11-14 22:13:20&, Response body: try later".to_string(),
        }]
    );
    assert_eq!(store.processed, keys(&["M1"]));
    let again = process_purchase_data(&conf(), &mut store, &mailbox);
    assert_eq!(again.posts, vec![]);
    assert_eq!(again.visited, Vec::<String>::new());
}

#[test]
fn a_transport_failure_is_logged_and_the_event_is_marked_all_the_same() {
    let mut store = empty_store();
    store.auto_renew_updates.push(renewal("T1", "M1", "example"));
    store.metadata.push(metadata("M1", "a@b.com"));
    let mailbox =
        Mailbox { replies: vec![], otherwise: Delivery::Failed { error: "timed out".to_string() } };
    let report = process_auto_renew_data(&conf(), &mut store, &mailbox);
    assert_eq!(report.posts.len(), 1);
    assert_eq!(
        report.log,
        vec![LogEntry {
            level: Level::Severe,
            message: "Failed to send POST request: timed out".to_string(),
        }]
    );
    assert_eq!(store.ar_processed, keys(&["T1"]));
    assert_eq!(store.processed, Vec::<String>::new());
}

#[test]
fn marking_is_the_same_for_every_mailbox() {
    let build = || {
        let mut store = empty_store();
        store.sales.push(sale("T1", "M1", "one", 1));
        store.sales.push(sale("T2", "M2", "two", 2));
        store.sales.push(sale("T3", "M3", "three", 3));
        store.metadata.push(metadata("M1", "a@b.com"));
        store.metadata.push(metadata("M2", "broken"));
        store.metadata.push(metadata("M3", "c@b.com"));
        store
    };
    let mut calm = build();
    let mut stormy = build();
    let failing = Mailbox {
        replies: vec![Delivery::Failed { error: "reset".to_string() }],
        otherwise: Delivery::Response { code: 400, status: "400 Bad Request".to_string(), body: None },
    };
    let first = process_purchase_data(&conf(), &mut calm, &always_ok());
    let second = process_purchase_data(&conf(), &mut stormy, &failing);
    assert_eq!(first.visited, keys(&["M1", "M2", "M3"]));
    assert_eq!(second.visited, first.visited);
    assert_eq!(second.posts, first.posts);
    assert_eq!(calm.processed, stormy.processed);
    assert_eq!(first.log.len(), 1);
    assert_eq!(second.log.len(), 3);
}

#[test]
fn an_invalid_address_sends_nothing_and_is_marked() {
    let mut store = empty_store();
    store.sales.push(sale("T1", "M1", "example", 1700000000));
    store.metadata.push(metadata("M1", "not an address"));
    let report = process_purchase_data(&conf(), &mut store, &always_ok());
    assert_eq!(report.posts, vec![]);
    assert_eq!(
        report.log,
        vec![LogEntry {
            level: Level::Local,
            message: "email not an address is not valid".to_string(),
        }]
    );
    assert_eq!(report.visited, keys(&["M1"]));
    assert_eq!(store.processed, keys(&["M1"]));
    let again = process_purchase_data(&conf(), &mut store, &always_ok());
    assert_eq!(again.visited, Vec::<String>::new());
    assert_eq!(again.log, vec![]);
}

#[test]
fn replies_are_matched_to_requests_and_not_to_events() {
    let mut store = empty_store();
    store.sales.push(sale("T1", "M1", "one", 1));
    store.sales.push(sale("T2", "M2", "two", 2));
    store.metadata.push(metadata("M1", "broken"));
    store.metadata.push(metadata("M2", "b@b.com"));
    let mailbox = Mailbox {
        replies: vec![Delivery::Failed { error: "first request".to_string() }],
        otherwise: ok(),
    };
    let report = process_purchase_data(&conf(), &mut store, &mailbox);
    assert_eq!(report.posts.len(), 1);
    assert_eq!(
        report.log,
        vec![
            LogEntry { level: Level::Local, message: "email broken is not valid".to_string() },
            LogEntry {
                level: Level::Severe,
                message: "Failed to send POST request: first request".to_string(),
            },
        ]
    );
}

#[test]
fn every_visited_event_has_one_marker_after_the_pass() {
    let mut store = empty_store();
    for i in 0..5 {
        store.sales.push(sale(&format!("T{}", i), &format!("M{}", i), "d", 0));
        store.metadata.push(metadata(&format!("M{}", i), "a@b.com"));
    }
    store.processed.push("M3".to_string());
    let report = process_purchase_data(&conf(), &mut store, &always_ok());
    assert_eq!(report.visited, keys(&["M0", "M1", "M2", "M4"]));
    for key in &report.visited {
        assert_eq!(store.processed.iter().filter(|m| *m == key).count(), 1);
    }
    assert_eq!(store.processed, keys(&["M3", "M0", "M1", "M2", "M4"]));
}

#[test]
fn two_sales_with_one_key_are_both_visited_and_marked_twice() {
    let mut store = empty_store();
    store.sales.push(sale("T1", "M1", "one", 0));
    store.sales.push(sale("T2", "M1", "two", 0));
    store.metadata.push(metadata("M1", "a@b.com"));
    let report = process_purchase_data(&conf(), &mut store, &always_ok());
    assert_eq!(report.posts.len(), 2);
    assert_eq!(store.processed, keys(&["M1", "M1"]));
    let again = process_purchase_data(&conf(), &mut store, &always_ok());
    assert_eq!(again.posts, vec![]);
}

#[test]
fn an_event_without_metadata_waits_for_a_later_pass() {
    let mut store = empty_store();
    store.sales.push(sale("T1", "M1", "example", 0));
    let report = process_purchase_data(&conf(), &mut store, &always_ok());
    assert_eq!(report, PassReport { posts: vec![], log: vec![], visited: vec![] });
    assert_eq!(store.processed, Vec::<String>::new());
    store.metadata.push(metadata("M1", "a@b.com"));
    let report = process_purchase_data(&conf(), &mut store, &always_ok());
    assert_eq!(report.posts.len(), 1);
    assert_eq!(store.processed, keys(&["M1"]));
}

#[test]
fn a_renewal_pass_announces_the_renewer_and_marks_by_tx_hash() {
    let mut store = empty_store();
    store.auto_renew_updates.push(renewal("T1", "M1", "example"));
    store.auto_renew_updates.push(renewal("T2", "M1", "second"));
    store.metadata.push(metadata("M1", "a@b.com"));
    store.email_groups.push(group("T2", "auto"));
    store.email_groups.push(group("T2", "vip"));
    let report = process_auto_renew_data(&conf(), &mut store, &always_ok());
    assert_eq!(
        report.posts,
        vec![
            Notification {
                url: "https://mail.example/sub?email=a@b.com&fields[name]=example&fields[renewer]=0xabc&".to_string(),
                authorization: "Bearer key".to_string(),
            },
            Notification {
                url: "https://mail.example/sub?email=a@b.com&fields[name]=second&fields[renewer]=0xabc&groups[]=auto&groups[]=vip".to_string(),
                authorization: "Bearer key".to_string(),
            },
        ]
    );
    assert_eq!(store.ar_processed, keys(&["T1", "T2"]));
    assert_eq!(store.processed, Vec::<String>::new());
    let again = process_auto_renew_data(&conf(), &mut store, &always_ok());
    assert_eq!(again, PassReport { posts: vec![], log: vec![], visited: vec![] });
}

#[test]
fn the_two_kinds_do_not_mark_each_other() {
    let mut store = empty_store();
    store.sales.push(sale("T1", "M1", "sold", 0));
    store.auto_renew_updates.push(renewal("T1", "M1", "renewed"));
    store.metadata.push(metadata("M1", "a@b.com"));
    let sales = process_purchase_data(&conf(), &mut store, &always_ok());
    assert_eq!(sales.visited, keys(&["M1"]));
    let renewals = process_auto_renew_data(&conf(), &mut store, &always_ok());
    assert_eq!(renewals.visited, keys(&["T1"]));
    assert_eq!(store.processed, keys(&["M1"]));
    assert_eq!(store.ar_processed, keys(&["T1"]));
}

#[test]
fn record_carries_out_one_outcome() {
    let mut report = PassReport::new();
    assert_eq!(report, PassReport { posts: vec![], log: vec![], visited: vec![] });
    let request = Notification { url: "u".to_string(), authorization: "Bearer k".to_string() };
    let mailbox = Mailbox {
        replies: vec![ok(), Delivery::Failed { error: "late".to_string() }],
        otherwise: ok(),
    };
    report.record(
        Outcome::Send(Notification { url: "u".to_string(), authorization: "Bearer k".to_string() }),
        &mailbox,
    );
    assert_eq!(report.posts, vec![request]);
    assert_eq!(report.log, vec![]);
    report.record(
        Outcome::Skip(LogEntry { level: Level::Local, message: "skipped".to_string() }),
        &mailbox,
    );
    report.record(
        Outcome::Send(Notification { url: "v".to_string(), authorization: "Bearer k".to_string() }),
        &mailbox,
    );
    assert_eq!(report.posts.len(), 2);
    assert_eq!(report.visited, Vec::<String>::new());
    assert_eq!(
        report.log,
        vec![
            LogEntry { level: Level::Local, message: "skipped".to_string() },
            LogEntry { level: Level::Severe, message: "Failed to send POST request: late".to_string() },
        ]
    );
    assert_eq!(mailbox.reply(0), &ok());
    assert_eq!(mailbox.reply(1), &Delivery::Failed { error: "late".to_string() });
    assert_eq!(mailbox.reply(2), &ok());
    assert_eq!(mailbox.reply(usize::MAX), &ok());
}

#[test]
fn a_visit_records_the_key_whatever_the_outcome() {
    let mut visited = vec!["M0".to_string()];
    let mut good = sale("T1", "M1", "example", 1700000000);
    good.metadata.push(metadata("M1", "a@b.com"));
    good.same_tx_groups.push("vip".to_string());
    let outcome = visit_sale(&conf(), &good, &mut visited);
    assert_eq!(
        outcome,
        Outcome::Send(Notification {
            url: "https://mail.example/sub?email=a@b.com&fields[name]=example&fields[expiry]=2023-11-14 22:13:20&groups[]=vip".to_string(),
            authorization: "Bearer key".to_string(),
        })
    );
    let mut bad = sale("T2", "M2", "example", 1700000000);
    bad.metadata.push(metadata("M2", "nobody"));
    let outcome = visit_sale(&conf(), &bad, &mut visited);
    assert!(matches!(outcome, Outcome::Skip(_)));
    assert_eq!(visited, keys(&["M0", "M1", "M2"]));

    let mut visited = vec![];
    let mut toggle = renewal("T3", "M3", "example");
    toggle.metadata.push(metadata("M3", "nobody"));
    assert!(matches!(visit_renewal(&conf(), &toggle, &mut visited), Outcome::Skip(_)));
    toggle.metadata[0].email = "a@b.com".to_string();
    assert!(matches!(visit_renewal(&conf(), &toggle, &mut visited), Outcome::Send(_)));
    assert_eq!(visited, keys(&["T3", "T3"]));
}

#[test]
fn a_document_that_does_not_decode_is_logged_and_not_marked() {
    let mut visited = keys(&["M0"]);
    let fetched = Fetched::Undecodable("missing field `domain`".to_string());
    let (outcome, go_on) = sale_step(&conf(), &fetched, &mut visited);
    assert_eq!(
        outcome,
        Outcome::Skip(LogEntry {
            level: Level::Severe,
            message: "Error parsing doc: missing field `domain`".to_string(),
        })
    );
    assert!(go_on);
    assert_eq!(visited, keys(&["M0"]));
    let fetched = Fetched::Undecodable("invalid type".to_string());
    let (outcome, go_on) = renewal_step(&conf(), &fetched, &mut visited);
    assert_eq!(
        outcome,
        Outcome::Skip(LogEntry {
            level: Level::Severe,
            message: "Error parsing doc: invalid type".to_string(),
        })
    );
    assert!(go_on);
    assert_eq!(visited, keys(&["M0"]));
}

#[test]
fn a_failure_of_the_store_is_logged_and_ends_the_reading() {
    let mut visited = keys(&["M0"]);
    let fetched = Fetched::Unreadable("connection lost".to_string());
    let (outcome, go_on) = sale_step(&conf(), &fetched, &mut visited);
    assert_eq!(
        outcome,
        Outcome::Skip(LogEntry {
            level: Level::Severe,
            message: "Error while processing: connection lost".to_string(),
        })
    );
    assert!(!go_on);
    assert_eq!(visited, keys(&["M0"]));
    let fetched = Fetched::Unreadable("connection lost".to_string());
    let (outcome, go_on) = renewal_step(&conf(), &fetched, &mut visited);
    assert!(matches!(outcome, Outcome::Skip(_)));
    assert!(!go_on);
    assert_eq!(visited, keys(&["M0"]));
}

#[test]
fn a_fetched_document_is_visited() {
    let mut visited = vec![];
    let mut doc = sale("T1", "M1", "example", 0);
    doc.metadata.push(metadata("M1", "a@b.com"));
    let (outcome, go_on) = sale_step(&conf(), &Fetched::Document(doc), &mut visited);
    assert_eq!(
        outcome,
        Outcome::Send(Notification {
            url: "https://mail.example/sub?email=a@b.com&fields[name]=example&fields[expiry]=1970-01-01 00:00:00&".to_string(),
            authorization: "Bearer key".to_string(),
        })
    );
    assert!(go_on);
    assert_eq!(visited, keys(&["M1"]));
    let mut toggle = renewal("T2", "M2", "example");
    toggle.metadata.push(metadata("M2", "@"));
    let (outcome, go_on) = renewal_step(&conf(), &Fetched::Document(toggle), &mut visited);
    assert_eq!(
        outcome,
        Outcome::Skip(LogEntry { level: Level::Local, message: "email @ is not valid".to_string() })
    );
    assert!(go_on);
    assert_eq!(visited, keys(&["M1", "T2"]));
}
