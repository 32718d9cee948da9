//! The store as the engine sees it: six collections, and the rule that decides which
//! events a pass resolves.

use crate::docs::{
    group_views, lemma_map_push, metadata_views, renewal_views, sale_views, texts, GroupDoc,
    GroupView, MetadataDoc, MetadataView, ReenewalToggledDoc, RenewalView, SaleDoc, SaleView,
};
use crate::plan::{EventKind, MarkerBatch};
use vstd::prelude::*;

verus! {

/// The collections that a pass reads and the two that it writes.
#[derive(Debug, PartialEq, Eq)]
pub struct Store {
    /// The sale events.
    pub sales: Vec<SaleDoc>,
    /// The renewal-toggle events.
    pub auto_renew_updates: Vec<ReenewalToggledDoc>,
    /// The metadata records.
    pub metadata: Vec<MetadataDoc>,
    /// The markers of sales: the `meta_hash` of every sale that was visited.
    pub processed: Vec<String>,
    /// The markers of renewal toggles: the `tx_hash` of every toggle that was visited.
    pub ar_processed: Vec<String>,
    /// The group associations.
    pub email_groups: Vec<GroupDoc>,
}

/// What a `Store` holds.
pub struct StoreView {
    pub sales: Seq<SaleView>,
    pub auto_renew_updates: Seq<RenewalView>,
    pub metadata: Seq<MetadataView>,
    pub processed: Seq<Seq<char>>,
    pub ar_processed: Seq<Seq<char>>,
    pub email_groups: Seq<GroupView>,
}

impl View for Store {
    type V = StoreView;

    open spec fn view(&self) -> StoreView {
        StoreView {
            sales: sale_views(self.sales@),
            auto_renew_updates: renewal_views(self.auto_renew_updates@),
            metadata: metadata_views(self.metadata@),
            processed: texts(self.processed@),
            ar_processed: texts(self.ar_processed@),
            email_groups: group_views(self.email_groups@),
        }
    }
}

/// The test that a metadata record belongs to `meta_hash`.
pub open spec fn has_meta_hash(meta_hash: Seq<char>) -> spec_fn(MetadataView) -> bool {
    |m: MetadataView| m.meta_hash == meta_hash
}

/// The test that a group association belongs to `tx_hash`.
pub open spec fn has_tx_hash(tx_hash: Seq<char>) -> spec_fn(GroupView) -> bool {
    |g: GroupView| g.tx_hash == tx_hash
}

/// The tag of a group association.
pub open spec fn tag_of() -> spec_fn(GroupView) -> Seq<char> {
    |g: GroupView| g.group
}

/// The metadata records that share `meta_hash`, in the order of the collection.
pub open spec fn metadata_of(metadata: Seq<MetadataView>, meta_hash: Seq<char>) -> Seq<
    MetadataView,
> {
    metadata.filter(has_meta_hash(meta_hash))
}

/// The group tags recorded for `tx_hash`, in the order of the collection.
pub open spec fn tags_of(groups: Seq<GroupView>, tx_hash: Seq<char>) -> Seq<Seq<char>> {
    groups.filter(has_tx_hash(tx_hash)).map_values(tag_of())
}

/// Whether an event is eligible: it has at least one metadata record, and its key, `key`,
/// has no marker among `markers`.
pub open spec fn eligible(
    metadata: Seq<MetadataView>,
    markers: Seq<Seq<char>>,
    meta_hash: Seq<char>,
    key: Seq<char>,
) -> bool {
    metadata_of(metadata, meta_hash).len() > 0 && !markers.contains(key)
}

/// Whether a sale is eligible in a store. A sale is marked by its `meta_hash`.
pub open spec fn sale_eligible(store: StoreView, sale: SaleView) -> bool {
    eligible(store.metadata, store.processed, sale.meta_hash, sale.meta_hash)
}

/// Whether a renewal toggle is eligible in a store. A toggle is marked by its `tx_hash`.
pub open spec fn renewal_eligible(store: StoreView, renewal: RenewalView) -> bool {
    eligible(store.metadata, store.ar_processed, renewal.meta_hash, renewal.tx_hash)
}

/// A sale with what the store joins to it.
pub open spec fn join_sale(store: StoreView, sale: SaleView) -> SaleView {
    SaleView {
        metadata: metadata_of(store.metadata, sale.meta_hash),
        same_tx_groups: tags_of(store.email_groups, sale.tx_hash),
        ..sale
    }
}

/// A renewal toggle with what the store joins to it.
pub open spec fn join_renewal(store: StoreView, renewal: RenewalView) -> RenewalView {
    RenewalView {
        metadata: metadata_of(store.metadata, renewal.meta_hash),
        same_tx_groups: tags_of(store.email_groups, renewal.tx_hash),
        ..renewal
    }
}

/// The test that a sale is eligible in `store`.
pub open spec fn sale_filter(store: StoreView) -> spec_fn(SaleView) -> bool {
    |sale: SaleView| sale_eligible(store, sale)
}

/// The join of a sale in `store`.
pub open spec fn sale_joiner(store: StoreView) -> spec_fn(SaleView) -> SaleView {
    |sale: SaleView| join_sale(store, sale)
}

/// The test that a renewal toggle is eligible in `store`.
pub open spec fn renewal_filter(store: StoreView) -> spec_fn(RenewalView) -> bool {
    |renewal: RenewalView| renewal_eligible(store, renewal)
}

/// The join of a renewal toggle in `store`.
pub open spec fn renewal_joiner(store: StoreView) -> spec_fn(RenewalView) -> RenewalView {
    |renewal: RenewalView| join_renewal(store, renewal)
}

/// The sales that a pass resolves: the eligible ones, joined, in the order of the
/// collection.
pub open spec fn resolved_sales(store: StoreView) -> Seq<SaleView> {
    store.sales.filter(sale_filter(store)).map_values(sale_joiner(store))
}

/// The renewal toggles that a pass resolves: the eligible ones, joined, in the order of
/// the collection.
pub open spec fn resolved_renewals(store: StoreView) -> Seq<RenewalView> {
    store.auto_renew_updates.filter(renewal_filter(store)).map_values(renewal_joiner(store))
}

/// Filtering a sequence that ends in `last` filters what stands before it and keeps
/// `last` where it passes the test.
pub proof fn lemma_filter_push<A>(s: Seq<A>, last: A, pred: spec_fn(A) -> bool)
    ensures
        s.push(last).filter(pred) == if pred(last) {
            s.filter(pred).push(last)
        } else {
            s.filter(pred)
        },
{
    reveal(Seq::filter);
    assert(s.push(last).drop_last() =~= s);
}

/// Collects the metadata records that share `meta_hash`.
pub fn find_metadata(metadata: &Vec<MetadataDoc>, meta_hash: &String) -> (found: Vec<
    MetadataDoc,
>)
    ensures
        metadata_views(found@) == metadata_of(metadata_views(metadata@), meta_hash@),
{
    let mut found: Vec<MetadataDoc> = Vec::new();
    let mut i: usize = 0;
    proof {
        reveal(Seq::filter);
        assert(metadata@.take(0) =~= Seq::empty());
        assert(metadata_views(found@) =~= Seq::empty());
        assert(metadata_views(metadata@.take(0)) =~= Seq::empty());
    }
    while i < metadata.len()
        invariant
            i <= metadata@.len(),
            metadata_views(found@) == metadata_of(
                metadata_views(metadata@.take(i as int)),
                meta_hash@,
            ),
        decreases metadata@.len() - i,
    {
        let ghost before = found@;
        let ghost view_of = |m: MetadataDoc| m@;
        let ghost seen = metadata@.take(i as int);
        proof {
            assert(metadata@.take(i as int + 1) =~= seen.push(metadata@[i as int]));
            lemma_map_push(seen, metadata@[i as int], view_of);
            lemma_filter_push(metadata_views(seen), metadata@[i as int]@, has_meta_hash(meta_hash@));
        }
        if metadata[i].meta_hash == *meta_hash {
            found.push(metadata[i].clone());
            proof {
                lemma_map_push(before, found@.last(), view_of);
            }
        }
        i = i + 1;
    }
    proof {
        assert(metadata@.take(metadata@.len() as int) =~= metadata@);
    }
    found
}

/// Tells whether `key` is among the markers.
pub fn is_marked(markers: &Vec<String>, key: &String) -> (marked: bool)
    ensures
        marked == texts(markers@).contains(key@),
{
    let mut i: usize = 0;
    while i < markers.len()
        invariant
            i <= markers@.len(),
            forall|j: int| 0 <= j < i ==> texts(markers@)[j] != key@,
        decreases markers@.len() - i,
    {
        if markers[i] == *key {
            proof {
                assert(texts(markers@)[i as int] == key@);
            }
            return true;
        }
        i = i + 1;
    }
    false
}

/// Collects the group tags recorded for `tx_hash`.
pub fn find_tags(groups: &Vec<GroupDoc>, tx_hash: &String) -> (tags: Vec<String>)
    ensures
        texts(tags@) == tags_of(group_views(groups@), tx_hash@),
{
    let mut tags: Vec<String> = Vec::new();
    let mut i: usize = 0;
    proof {
        reveal(Seq::filter);
        assert(groups@.take(0) =~= Seq::empty());
        assert(group_views(groups@.take(0)) =~= Seq::empty());
        assert(texts(tags@) =~= tags_of(group_views(groups@.take(0)), tx_hash@));
    }
    while i < groups.len()
        invariant
            i <= groups@.len(),
            texts(tags@) == tags_of(group_views(groups@.take(i as int)), tx_hash@),
        decreases groups@.len() - i,
    {
        let ghost before = tags@;
        let ghost seen = groups@.take(i as int);
        proof {
            assert(groups@.take(i as int + 1) =~= seen.push(groups@[i as int]));
            lemma_map_push(seen, groups@[i as int], |g: GroupDoc| g@);
            lemma_filter_push(group_views(seen), groups@[i as int]@, has_tx_hash(tx_hash@));
            lemma_map_push(
                group_views(seen).filter(has_tx_hash(tx_hash@)),
                groups@[i as int]@,
                tag_of(),
            );
        }
        if groups[i].tx_hash == *tx_hash {
            tags.push(groups[i].group.clone());
            proof {
                lemma_map_push(before, tags@.last(), |s: String| s@);
            }
        }
        i = i + 1;
    }
    proof {
        assert(groups@.take(groups@.len() as int) =~= groups@);
    }
    tags
}

/// The store after a pass of a kind has marked `visited`: the keys stand behind the
/// markers of that kind, and nothing else has changed.
pub open spec fn after_pass(store: StoreView, kind: EventKind, visited: Seq<Seq<char>>) -> StoreView {
    match kind {
        EventKind::Sale => StoreView { processed: store.processed + visited, ..store },
        EventKind::Renewal => StoreView { ar_processed: store.ar_processed + visited, ..store },
    }
}

impl Store {
    /// Resolves the eligible sales: those that have metadata and no marker, each with its
    /// metadata records and its group tags.
    pub fn resolve_sales(&self) -> (docs: Vec<SaleDoc>)
        ensures
            sale_views(docs@) == resolved_sales(self@),
    {
        let mut docs: Vec<SaleDoc> = Vec::new();
        let mut i: usize = 0;
        proof {
            reveal(Seq::filter);
            assert(self.sales@.take(0) =~= Seq::empty());
            assert(sale_views(self.sales@.take(0)) =~= Seq::empty());
            assert(sale_views(docs@) =~= Seq::<SaleView>::empty().filter(
                sale_filter(self@),
            ).map_values(sale_joiner(self@)));
        }
        while i < self.sales.len()
            invariant
                i <= self.sales@.len(),
                sale_views(docs@) == sale_views(self.sales@.take(i as int)).filter(
                    sale_filter(self@),
                ).map_values(sale_joiner(self@)),
            decreases self.sales@.len() - i,
        {
            let row = &self.sales[i];
            let ghost before = docs@;
            let ghost seen = self.sales@.take(i as int);
            proof {
                assert(self.sales@.take(i as int + 1) =~= seen.push(*row));
                lemma_map_push(seen, *row, |d: SaleDoc| d@);
                lemma_filter_push(sale_views(seen), row@, sale_filter(self@));
                lemma_map_push(
                    sale_views(seen).filter(sale_filter(self@)),
                    row@,
                    sale_joiner(self@),
                );
            }
            let found = find_metadata(&self.metadata, &row.meta_hash);
            if found.len() > 0 && !is_marked(&self.processed, &row.meta_hash) {
                let tags = find_tags(&self.email_groups, &row.tx_hash);
                docs.push(row.joined(found, tags));
                proof {
                    lemma_map_push(before, docs@.last(), |d: SaleDoc| d@);
                }
            }
            i = i + 1;
        }
        proof {
            assert(self.sales@.take(self.sales@.len() as int) =~= self.sales@);
        }
        docs
    }

    /// Resolves the eligible renewal toggles: those that have metadata and no marker, each
    /// with its metadata records and its group tags.
    pub fn resolve_renewals(&self) -> (docs: Vec<ReenewalToggledDoc>)
        ensures
            renewal_views(docs@) == resolved_renewals(self@),
    {
        let mut docs: Vec<ReenewalToggledDoc> = Vec::new();
        let mut i: usize = 0;
        proof {
            reveal(Seq::filter);
            assert(self.auto_renew_updates@.take(0) =~= Seq::empty());
            assert(renewal_views(self.auto_renew_updates@.take(0)) =~= Seq::empty());
            assert(renewal_views(docs@) =~= Seq::<RenewalView>::empty().filter(
                renewal_filter(self@),
            ).map_values(renewal_joiner(self@)));
        }
        while i < self.auto_renew_updates.len()
            invariant
                i <= self.auto_renew_updates@.len(),
                renewal_views(docs@) == renewal_views(
                    self.auto_renew_updates@.take(i as int),
                ).filter(renewal_filter(self@)).map_values(renewal_joiner(self@)),
            decreases self.auto_renew_updates@.len() - i,
        {
            let row = &self.auto_renew_updates[i];
            let ghost before = docs@;
            let ghost seen = self.auto_renew_updates@.take(i as int);
            proof {
                assert(self.auto_renew_updates@.take(i as int + 1) =~= seen.push(*row));
                lemma_map_push(seen, *row, |d: ReenewalToggledDoc| d@);
                lemma_filter_push(renewal_views(seen), row@, renewal_filter(self@));
                lemma_map_push(
                    renewal_views(seen).filter(renewal_filter(self@)),
                    row@,
                    renewal_joiner(self@),
                );
            }
            let found = find_metadata(&self.metadata, &row.meta_hash);
            if found.len() > 0 && !is_marked(&self.ar_processed, &row.tx_hash) {
                let tags = find_tags(&self.email_groups, &row.tx_hash);
                docs.push(row.joined(found, tags));
                proof {
                    lemma_map_push(before, docs@.last(), |d: ReenewalToggledDoc| d@);
                }
            }
            i = i + 1;
        }
        proof {
            assert(self.auto_renew_updates@.take(self.auto_renew_updates@.len() as int)
                =~= self.auto_renew_updates@);
        }
        docs
    }

    /// Writes a batch of markers: its keys are added, in their order, behind the markers of
    /// its kind.
    pub fn insert_markers(&mut self, batch: MarkerBatch)
        ensures
            final(self)@ == after_pass(old(self)@, batch.kind, texts(batch.keys@)),
    {
        let mut keys = batch.keys;
        match batch.kind {
            EventKind::Sale => {
                let ghost before = self.processed@;
                self.processed.append(&mut keys);
                proof {
                    assert(texts(before + batch.keys@) =~= texts(before) + texts(batch.keys@));
                }
            },
            EventKind::Renewal => {
                let ghost before = self.ar_processed@;
                self.ar_processed.append(&mut keys);
                proof {
                    assert(texts(before + batch.keys@) =~= texts(before) + texts(batch.keys@));
                }
            },
        }
    }
}

} // verus!
