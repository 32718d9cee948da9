//! The documents that the engine reads: metadata records, sale events, renewal-toggle
//! events and group associations, each with its mathematical view.

use vstd::prelude::*;

verus! {

/// The characters of every string of a sequence, in order.
pub open spec fn texts(strings: Seq<String>) -> Seq<Seq<char>> {
    strings.map_values(|s: String| s@)
}

/// Mapping a sequence that ends in `last` maps what stands before it and then `last`.
pub proof fn lemma_map_push<A, B>(s: Seq<A>, last: A, f: spec_fn(A) -> B)
    ensures
        s.push(last).map_values(f) == s.map_values(f).push(f(last)),
{
    assert(s.push(last).map_values(f) =~= s.map_values(f).push(f(last)));
}

/// Copies a list of strings.
pub fn copy_strings(strings: &Vec<String>) -> (copy: Vec<String>)
    ensures
        texts(copy@) == texts(strings@),
{
    let mut copy: Vec<String> = Vec::new();
    let mut i: usize = 0;
    while i < strings.len()
        invariant
            i <= strings@.len(),
            texts(copy@) == texts(strings@.take(i as int)),
        decreases strings@.len() - i,
    {
        let ghost before = copy@;
        copy.push(strings[i].clone());
        proof {
            let f = |s: String| s@;
            assert(strings@.take(i as int + 1) =~= strings@.take(i as int).push(strings@[i as int]));
            lemma_map_push(before, copy@.last(), f);
            lemma_map_push(strings@.take(i as int), strings@[i as int], f);
        }
        i = i + 1;
    }
    proof {
        assert(strings@.take(strings@.len() as int) =~= strings@);
    }
    copy
}

/// Contact details that a buyer left for a purchase, found by their `meta_hash`.
#[derive(Debug, PartialEq, Eq)]
pub struct MetadataDoc {
    pub meta_hash: String,
    pub email: String,
    pub tax_state: String,
    pub salt: String,
}

/// What a `MetadataDoc` holds.
pub struct MetadataView {
    pub meta_hash: Seq<char>,
    pub email: Seq<char>,
    pub tax_state: Seq<char>,
    pub salt: Seq<char>,
}

impl View for MetadataDoc {
    type V = MetadataView;

    open spec fn view(&self) -> MetadataView {
        MetadataView {
            meta_hash: self.meta_hash@,
            email: self.email@,
            tax_state: self.tax_state@,
            salt: self.salt@,
        }
    }
}

impl Clone for MetadataDoc {
    fn clone(&self) -> (copy: MetadataDoc)
        ensures
            copy@ == self@,
    {
        MetadataDoc {
            meta_hash: self.meta_hash.clone(),
            email: self.email.clone(),
            tax_state: self.tax_state.clone(),
            salt: self.salt.clone(),
        }
    }
}

/// The views of a sequence of metadata records, in order.
pub open spec fn metadata_views(records: Seq<MetadataDoc>) -> Seq<MetadataView> {
    records.map_values(|m: MetadataDoc| m@)
}

/// Copies a list of metadata records.
pub fn copy_metadata(records: &Vec<MetadataDoc>) -> (copy: Vec<MetadataDoc>)
    ensures
        metadata_views(copy@) == metadata_views(records@),
{
    let mut copy: Vec<MetadataDoc> = Vec::new();
    let mut i: usize = 0;
    while i < records.len()
        invariant
            i <= records@.len(),
            metadata_views(copy@) == metadata_views(records@.take(i as int)),
        decreases records@.len() - i,
    {
        let ghost before = copy@;
        copy.push(records[i].clone());
        proof {
            let f = |m: MetadataDoc| m@;
            assert(records@.take(i as int + 1) =~= records@.take(i as int).push(records@[i as int]));
            lemma_map_push(before, copy@.last(), f);
            lemma_map_push(records@.take(i as int), records@[i as int], f);
        }
        i = i + 1;
    }
    proof {
        assert(records@.take(records@.len() as int) =~= records@);
    }
    copy
}

/// A sale of a domain, together with what the store joined to it: the metadata records
/// that share its `meta_hash` and the group tags recorded for its transaction.
///
/// `price_bits` and `sponsor_comm_bits` hold the IEEE 754 bit patterns of the stored
/// floating-point amounts; the engine carries them and never computes with them.
#[derive(Debug, PartialEq, Eq)]
pub struct SaleDoc {
    pub tx_hash: String,
    pub meta_hash: String,
    pub domain: String,
    pub price_bits: u64,
    pub payer: String,
    pub timestamp: i64,
    pub expiry: i64,
    pub auto: bool,
    pub sponsor: Option<String>,
    pub sponsor_comm_bits: Option<u64>,
    pub metadata: Vec<MetadataDoc>,
    pub same_tx_groups: Vec<String>,
}

/// What a `SaleDoc` holds.
pub struct SaleView {
    pub tx_hash: Seq<char>,
    pub meta_hash: Seq<char>,
    pub domain: Seq<char>,
    pub price_bits: u64,
    pub payer: Seq<char>,
    pub timestamp: i64,
    pub expiry: i64,
    pub auto: bool,
    pub sponsor: Option<Seq<char>>,
    pub sponsor_comm_bits: Option<u64>,
    pub metadata: Seq<MetadataView>,
    pub same_tx_groups: Seq<Seq<char>>,
}

impl View for SaleDoc {
    type V = SaleView;

    open spec fn view(&self) -> SaleView {
        SaleView {
            tx_hash: self.tx_hash@,
            meta_hash: self.meta_hash@,
            domain: self.domain@,
            price_bits: self.price_bits,
            payer: self.payer@,
            timestamp: self.timestamp,
            expiry: self.expiry,
            auto: self.auto,
            sponsor: match self.sponsor {
                Some(s) => Some(s@),
                None => None,
            },
            sponsor_comm_bits: self.sponsor_comm_bits,
            metadata: metadata_views(self.metadata@),
            same_tx_groups: texts(self.same_tx_groups@),
        }
    }
}

impl Clone for SaleDoc {
    fn clone(&self) -> (copy: SaleDoc)
        ensures
            copy@ == self@,
    {
        SaleDoc {
            tx_hash: self.tx_hash.clone(),
            meta_hash: self.meta_hash.clone(),
            domain: self.domain.clone(),
            price_bits: self.price_bits,
            payer: self.payer.clone(),
            timestamp: self.timestamp,
            expiry: self.expiry,
            auto: self.auto,
            sponsor: match &self.sponsor {
                Some(s) => Some(s.clone()),
                None => None,
            },
            sponsor_comm_bits: self.sponsor_comm_bits,
            metadata: copy_metadata(&self.metadata),
            same_tx_groups: copy_strings(&self.same_tx_groups),
        }
    }
}

impl SaleDoc {
    /// This sale with `metadata` and `same_tx_groups` in place of what it had joined.
    pub fn joined(&self, metadata: Vec<MetadataDoc>, same_tx_groups: Vec<String>) -> (doc: SaleDoc)
        ensures
            doc@ == (SaleView {
                metadata: metadata_views(metadata@),
                same_tx_groups: texts(same_tx_groups@),
                ..self@
            }),
    {
        SaleDoc {
            tx_hash: self.tx_hash.clone(),
            meta_hash: self.meta_hash.clone(),
            domain: self.domain.clone(),
            price_bits: self.price_bits,
            payer: self.payer.clone(),
            timestamp: self.timestamp,
            expiry: self.expiry,
            auto: self.auto,
            sponsor: match &self.sponsor {
                Some(s) => Some(s.clone()),
                None => None,
            },
            sponsor_comm_bits: self.sponsor_comm_bits,
            metadata,
            same_tx_groups,
        }
    }
}

/// The views of a sequence of sale events, in order.
pub open spec fn sale_views(docs: Seq<SaleDoc>) -> Seq<SaleView> {
    docs.map_values(|d: SaleDoc| d@)
}

/// A switch of a domain's auto-renewal, together with what the store joined to it.
#[derive(Debug, PartialEq, Eq)]
pub struct ReenewalToggledDoc {
    pub tx_hash: String,
    pub meta_hash: String,
    pub domain: String,
    pub renewer: String,
    pub allowance: String,
    pub metadata: Vec<MetadataDoc>,
    pub same_tx_groups: Vec<String>,
}

/// What a `ReenewalToggledDoc` holds.
pub struct RenewalView {
    pub tx_hash: Seq<char>,
    pub meta_hash: Seq<char>,
    pub domain: Seq<char>,
    pub renewer: Seq<char>,
    pub allowance: Seq<char>,
    pub metadata: Seq<MetadataView>,
    pub same_tx_groups: Seq<Seq<char>>,
}

impl View for ReenewalToggledDoc {
    type V = RenewalView;

    open spec fn view(&self) -> RenewalView {
        RenewalView {
            tx_hash: self.tx_hash@,
            meta_hash: self.meta_hash@,
            domain: self.domain@,
            renewer: self.renewer@,
            allowance: self.allowance@,
            metadata: metadata_views(self.metadata@),
            same_tx_groups: texts(self.same_tx_groups@),
        }
    }
}

impl Clone for ReenewalToggledDoc {
    fn clone(&self) -> (copy: ReenewalToggledDoc)
        ensures
            copy@ == self@,
    {
        ReenewalToggledDoc {
            tx_hash: self.tx_hash.clone(),
            meta_hash: self.meta_hash.clone(),
            domain: self.domain.clone(),
            renewer: self.renewer.clone(),
            allowance: self.allowance.clone(),
            metadata: copy_metadata(&self.metadata),
            same_tx_groups: copy_strings(&self.same_tx_groups),
        }
    }
}

impl ReenewalToggledDoc {
    /// This toggle with `metadata` and `same_tx_groups` in place of what it had joined.
    pub fn joined(&self, metadata: Vec<MetadataDoc>, same_tx_groups: Vec<String>) -> (doc:
        ReenewalToggledDoc)
        ensures
            doc@ == (RenewalView {
                metadata: metadata_views(metadata@),
                same_tx_groups: texts(same_tx_groups@),
                ..self@
            }),
    {
        ReenewalToggledDoc {
            tx_hash: self.tx_hash.clone(),
            meta_hash: self.meta_hash.clone(),
            domain: self.domain.clone(),
            renewer: self.renewer.clone(),
            allowance: self.allowance.clone(),
            metadata,
            same_tx_groups,
        }
    }
}

/// The views of a sequence of renewal-toggle events, in order.
pub open spec fn renewal_views(docs: Seq<ReenewalToggledDoc>) -> Seq<RenewalView> {
    docs.map_values(|d: ReenewalToggledDoc| d@)
}

/// The association of a transaction with one group tag of the mailing service.
#[derive(Debug, PartialEq, Eq)]
pub struct GroupDoc {
    pub tx_hash: String,
    pub group: String,
}

/// What a `GroupDoc` holds.
pub struct GroupView {
    pub tx_hash: Seq<char>,
    pub group: Seq<char>,
}

impl View for GroupDoc {
    type V = GroupView;

    open spec fn view(&self) -> GroupView {
        GroupView { tx_hash: self.tx_hash@, group: self.group@ }
    }
}

impl Clone for GroupDoc {
    fn clone(&self) -> (copy: GroupDoc)
        ensures
            copy@ == self@,
    {
        GroupDoc { tx_hash: self.tx_hash.clone(), group: self.group.clone() }
    }
}

/// The views of a sequence of group associations, in order.
pub open spec fn group_views(docs: Seq<GroupDoc>) -> Seq<GroupView> {
    docs.map_values(|g: GroupDoc| g@)
}

} // verus!
