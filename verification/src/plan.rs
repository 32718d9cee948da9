//! What the engine asks of the store for each kind of event: where the events lie, how
//! the eligible ones are found, and where their markers go.

use vstd::prelude::*;

verus! {

/// The two kinds of event that are announced.
#[derive(Debug, Clone, Copy, PartialEq, Eq)]
pub enum EventKind {
    Sale,
    Renewal,
}

/// One stage of the query that resolves the eligible events.
#[derive(Debug, Clone, Copy, PartialEq, Eq)]
pub enum Stage {
    /// Left join: to every document, under `into`, the documents of the collection `from`
    /// whose `foreign_field` equals the document's `local_field`.
    Lookup {
        from: &'static str,
        local_field: &'static str,
        foreign_field: &'static str,
        into: &'static str,
    },
    /// Keeps the documents whose list `field` is not empty.
    KeepNonEmpty { field: &'static str },
    /// Keeps the documents whose list `field` is empty.
    KeepEmpty { field: &'static str },
    /// Replaces the list `field` by the values found under `path` in its documents.
    Pluck { field: &'static str, path: &'static str },
}

/// The collection that holds the events of a kind.
pub open spec fn source_collection(kind: EventKind) -> &'static str {
    match kind {
        EventKind::Sale => "sales",
        EventKind::Renewal => "auto_renew_updates",
    }
}

/// The collection that holds the markers of a kind.
pub open spec fn marker_collection(kind: EventKind) -> &'static str {
    match kind {
        EventKind::Sale => "processed",
        EventKind::Renewal => "ar_processed",
    }
}

/// The field by which an event of a kind is marked and found again.
pub open spec fn dedup_field(kind: EventKind) -> &'static str {
    match kind {
        EventKind::Sale => "meta_hash",
        EventKind::Renewal => "tx_hash",
    }
}

/// The query for a kind, as one plan of six stages: join the metadata and keep the events
/// that have some, join the markers and keep the events that have none, join the group
/// associations and keep their tags.
pub open spec fn eligibility_stages(kind: EventKind) -> Seq<Stage> {
    seq![
        Stage::Lookup {
            from: "metadata",
            local_field: "meta_hash",
            foreign_field: "meta_hash",
            into: "metadata",
        },
        Stage::KeepNonEmpty { field: "metadata" },
        Stage::Lookup {
            from: marker_collection(kind),
            local_field: dedup_field(kind),
            foreign_field: dedup_field(kind),
            into: "processed_doc",
        },
        Stage::KeepEmpty { field: "processed_doc" },
        Stage::Lookup {
            from: "email_groups",
            local_field: "tx_hash",
            foreign_field: "tx_hash",
            into: "same_tx_groups",
        },
        Stage::Pluck { field: "same_tx_groups", path: "$same_tx_groups.group" },
    ]
}

impl EventKind {
    /// The collection that holds the events of this kind.
    pub fn source(self) -> (name: &'static str)
        ensures
            name == source_collection(self),
    {
        match self {
            EventKind::Sale => "sales",
            EventKind::Renewal => "auto_renew_updates",
        }
    }

    /// The collection that holds the markers of this kind.
    pub fn markers(self) -> (name: &'static str)
        ensures
            name == marker_collection(self),
    {
        match self {
            EventKind::Sale => "processed",
            EventKind::Renewal => "ar_processed",
        }
    }

    /// The field by which an event of this kind is marked and found again.
    pub fn key_field(self) -> (name: &'static str)
        ensures
            name == dedup_field(self),
    {
        match self {
            EventKind::Sale => "meta_hash",
            EventKind::Renewal => "tx_hash",
        }
    }
}

/// Writes the query that resolves the eligible events of a kind. The three joins stand in
/// one plan, so that the store decides eligibility in a single round.
pub fn eligibility_pipeline(kind: EventKind) -> (plan: Vec<Stage>)
    ensures
        plan@ == eligibility_stages(kind),
{
    let mut plan: Vec<Stage> = Vec::new();
    plan.push(
        Stage::Lookup {
            from: "metadata",
            local_field: "meta_hash",
            foreign_field: "meta_hash",
            into: "metadata",
        },
    );
    plan.push(Stage::KeepNonEmpty { field: "metadata" });
    plan.push(
        Stage::Lookup {
            from: kind.markers(),
            local_field: kind.key_field(),
            foreign_field: kind.key_field(),
            into: "processed_doc",
        },
    );
    plan.push(Stage::KeepEmpty { field: "processed_doc" });
    plan.push(
        Stage::Lookup {
            from: "email_groups",
            local_field: "tx_hash",
            foreign_field: "tx_hash",
            into: "same_tx_groups",
        },
    );
    plan.push(Stage::Pluck { field: "same_tx_groups", path: "$same_tx_groups.group" });
    proof {
        assert(plan@ =~= eligibility_stages(kind));
    }
    plan
}

/// The markers that one pass writes, in one bulk insert.
#[derive(Debug, PartialEq, Eq)]
pub struct MarkerBatch {
    pub kind: EventKind,
    pub keys: Vec<String>,
}

/// Closes a pass: the keys of all visited events become one batch of markers, whether or
/// not their delivery succeeded. A pass that visited nothing writes nothing.
pub fn marker_batch(kind: EventKind, visited: Vec<String>) -> (batch: Option<MarkerBatch>)
    ensures
        visited@.len() == 0 ==> batch is None,
        visited@.len() > 0 ==> batch == Some(MarkerBatch { kind, keys: visited }),
{
    if visited.len() == 0 {
        None
    } else {
        Some(MarkerBatch { kind, keys: visited })
    }
}

} // verus!
