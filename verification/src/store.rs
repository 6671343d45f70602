//! Write semantics of the document store, and an in-memory store that
//! realises them.
//!
//! `spec_apply` is the meaning of one planned write: an insert appends a
//! document unconditionally, an upsert rewrites the body of the first
//! document matching the write's target and key, or creates one when none
//! matches. `MemStore` is an executable store with exactly these semantics,
//! against which whole ingestion runs can be replayed and checked.

use vstd::prelude::*;

use crate::route::{WriteMode, WriteOp, WriteOpView};

verus! {

/// One persisted document: its location, its upsert key, its body as
/// canonical JSON text, and the creation timestamp it was inserted with.
/// A document created as the fallback of an upsert carries no timestamp,
/// because the update operation sets only body fields.
pub struct StoredDoc {
    pub namespace: String,
    pub collection: String,
    pub cap_id: String,
    pub params: String,
    pub created_at: Option<i64>,
}

/// The mathematical content of a `StoredDoc`.
pub ghost struct StoredDocView {
    pub namespace: Seq<char>,
    pub collection: Seq<char>,
    pub cap_id: Seq<char>,
    pub params: Seq<char>,
    pub created_at: Option<i64>,
}

impl View for StoredDoc {
    type V = StoredDocView;

    open spec fn view(&self) -> StoredDocView {
        StoredDocView {
            namespace: self.namespace@,
            collection: self.collection@,
            cap_id: self.cap_id@,
            params: self.params@,
            created_at: self.created_at,
        }
    }
}

impl DeepView for StoredDoc {
    type V = StoredDocView;

    open spec fn deep_view(&self) -> StoredDocView {
        self@
    }
}

/// Whether a stored document lives in the target collection of a write and
/// carries the write's upsert key.
pub open spec fn doc_matches(d: StoredDocView, op: WriteOpView) -> bool {
    d.namespace == op.namespace && d.collection == op.collection && d.cap_id == op.cap_id
}

/// The index of the first stored document a write matches, if any.
pub open spec fn spec_find_match(docs: Seq<StoredDocView>, op: WriteOpView) -> Option<int>
    decreases docs.len(),
{
    if docs.len() == 0 {
        None
    } else if doc_matches(docs[0], op) {
        Some(0)
    } else {
        match spec_find_match(docs.drop_first(), op) {
            Some(i) => Some(i + 1),
            None => None,
        }
    }
}

/// The document an insert write creates.
pub open spec fn inserted_doc(op: WriteOpView) -> StoredDocView {
    StoredDocView {
        namespace: op.namespace,
        collection: op.collection,
        cap_id: op.cap_id,
        params: op.params,
        created_at: Some(op.created_at),
    }
}

/// The document an upsert write creates when nothing matches its key.
pub open spec fn upserted_doc(op: WriteOpView) -> StoredDocView {
    StoredDocView {
        namespace: op.namespace,
        collection: op.collection,
        cap_id: op.cap_id,
        params: op.params,
        created_at: None,
    }
}

/// What one planned write does to the store's documents.
pub open spec fn spec_apply(docs: Seq<StoredDocView>, op: WriteOpView) -> Seq<StoredDocView> {
    if op.mode == WriteMode::Insert {
        docs.push(inserted_doc(op))
    } else {
        match spec_find_match(docs, op) {
            Some(i) => docs.update(i, StoredDocView { params: op.params, ..docs[i] }),
            None => docs.push(upserted_doc(op)),
        }
    }
}

proof fn lemma_find_match_characterization(docs: Seq<StoredDocView>, op: WriteOpView)
    ensures
        match spec_find_match(docs, op) {
            None => forall|j: int| 0 <= j < docs.len() ==> !doc_matches(docs[j], op),
            Some(i) => 0 <= i < docs.len() && doc_matches(docs[i], op) && (forall|j: int|
                0 <= j < i ==> !doc_matches(docs[j], op)),
        },
    decreases docs.len(),
{
    if docs.len() > 0 && !doc_matches(docs[0], op) {
        lemma_find_match_characterization(docs.drop_first(), op);
        assert(forall|j: int|
            1 <= j < docs.len() ==> docs[j] == docs.drop_first()[j - 1]);
    }
}

proof fn lemma_find_match_at(docs: Seq<StoredDocView>, op: WriteOpView, i: int)
    requires
        0 <= i < docs.len(),
        doc_matches(docs[i], op),
        forall|j: int| 0 <= j < i ==> !doc_matches(docs[j], op),
    ensures
        spec_find_match(docs, op) == Some(i),
    decreases docs.len(),
{
    if i > 0 {
        assert(forall|j: int|
            1 <= j < docs.len() ==> docs[j] == docs.drop_first()[j - 1]);
        lemma_find_match_at(docs.drop_first(), op, i - 1);
    }
}

proof fn lemma_find_match_absent(docs: Seq<StoredDocView>, op: WriteOpView)
    requires
        forall|j: int| 0 <= j < docs.len() ==> !doc_matches(docs[j], op),
    ensures
        spec_find_match(docs, op) == None::<int>,
    decreases docs.len(),
{
    if docs.len() > 0 {
        assert(forall|j: int|
            1 <= j < docs.len() ==> docs[j] == docs.drop_first()[j - 1]);
        lemma_find_match_absent(docs.drop_first(), op);
    }
}

/// An insert appends exactly one document — the write's body with its
/// creation timestamp — and leaves every existing document unchanged, even
/// when a document with the same key is already present.
pub proof fn lemma_insert_appends(docs: Seq<StoredDocView>, op: WriteOpView)
    requires
        op.mode == WriteMode::Insert,
    ensures
        spec_apply(docs, op).len() == docs.len() + 1,
        forall|j: int| 0 <= j < docs.len() ==> spec_apply(docs, op)[j] == docs[j],
        spec_apply(docs, op)[docs.len() as int] == inserted_doc(op),
{
}

/// An upsert whose key matches the document at index `i` (and none before
/// it) rewrites that document's body in place: the count is unchanged, the
/// matched document keeps its location, key and timestamp, and every other
/// document is untouched. No second document with the key is created.
pub proof fn lemma_upsert_replaces(docs: Seq<StoredDocView>, op: WriteOpView, i: int)
    requires
        op.mode == WriteMode::Upsert,
        spec_find_match(docs, op) == Some(i),
    ensures
        0 <= i < docs.len(),
        doc_matches(docs[i], op),
        forall|j: int| 0 <= j < i ==> !doc_matches(docs[j], op),
        spec_apply(docs, op).len() == docs.len(),
        spec_apply(docs, op)[i].params == op.params,
        spec_apply(docs, op)[i].namespace == docs[i].namespace,
        spec_apply(docs, op)[i].collection == docs[i].collection,
        spec_apply(docs, op)[i].cap_id == docs[i].cap_id,
        spec_apply(docs, op)[i].created_at == docs[i].created_at,
        forall|j: int| 0 <= j < docs.len() && j != i ==> spec_apply(docs, op)[j] == docs[j],
{
    lemma_find_match_characterization(docs, op);
}

/// An upsert whose key matches no stored document creates exactly one — the
/// write's body without a creation timestamp — and leaves every existing
/// document unchanged.
pub proof fn lemma_upsert_creates(docs: Seq<StoredDocView>, op: WriteOpView)
    requires
        op.mode == WriteMode::Upsert,
        spec_find_match(docs, op) == None::<int>,
    ensures
        forall|j: int| 0 <= j < docs.len() ==> !doc_matches(docs[j], op),
        spec_apply(docs, op).len() == docs.len() + 1,
        forall|j: int| 0 <= j < docs.len() ==> spec_apply(docs, op)[j] == docs[j],
        spec_apply(docs, op)[docs.len() as int] == upserted_doc(op),
{
    lemma_find_match_characterization(docs, op);
}

/// An in-memory document store with exactly the write semantics of
/// `spec_apply`.
pub struct MemStore {
    docs: Vec<StoredDoc>,
}

impl View for MemStore {
    type V = Seq<StoredDocView>;

    closed spec fn view(&self) -> Seq<StoredDocView> {
        self.docs.deep_view()
    }
}

impl MemStore {
    /// An empty store.
    pub fn new() -> (r: MemStore)
        ensures
            r@ == Seq::<StoredDocView>::empty(),
    {
        let r = MemStore { docs: Vec::new() };
        proof {
            assert(r@ =~= Seq::<StoredDocView>::empty());
        }
        r
    }

    /// How many documents the store holds.
    pub fn len(&self) -> (r: usize)
        ensures
            r == self@.len(),
    {
        self.docs.len()
    }

    /// The document at index `i`, in insertion order.
    pub fn get(&self, i: usize) -> (d: &StoredDoc)
        requires
            i < self@.len(),
        ensures
            d@ == self@[i as int],
    {
        &self.docs[i]
    }

    /// Apply one planned write to the store.
    pub fn apply(&mut self, op: &WriteOp)
        ensures
            final(self)@ == spec_apply(old(self)@, op@),
    {
        if let WriteMode::Insert = op.mode {
            let doc = StoredDoc {
                namespace: op.namespace.clone(),
                collection: op.collection.clone(),
                cap_id: op.cap_id.clone(),
                params: op.params.clone(),
                created_at: Some(op.created_at),
            };
            self.docs.push(doc);
            proof {
                assert(self@ =~= spec_apply(old(self)@, op@));
            }
            return;
        }
        let n = self.docs.len();
        let mut i: usize = 0;
        while i < n
            invariant
                n == self.docs.len(),
                0 <= i <= n,
                *self == *old(self),
                op@.mode == WriteMode::Upsert,
                forall|j: int| 0 <= j < i ==> !doc_matches(self@[j], op@),
            decreases n - i,
        {
            let d = &self.docs[i];
            if d.namespace.eq(&op.namespace) && d.collection.eq(&op.collection) && d.cap_id.eq(
                &op.cap_id,
            ) {
                proof {
                    assert(doc_matches(self@[i as int], op@));
                    lemma_find_match_at(self@, op@, i as int);
                }
                let replaced = StoredDoc {
                    namespace: self.docs[i].namespace.clone(),
                    collection: self.docs[i].collection.clone(),
                    cap_id: self.docs[i].cap_id.clone(),
                    params: op.params.clone(),
                    created_at: self.docs[i].created_at,
                };
                self.docs.set(i, replaced);
                proof {
                    assert(self@ =~= spec_apply(old(self)@, op@));
                }
                return;
            }
            i = i + 1;
        }
        proof {
            lemma_find_match_absent(self@, op@);
        }
        let doc = StoredDoc {
            namespace: op.namespace.clone(),
            collection: op.collection.clone(),
            cap_id: op.cap_id.clone(),
            params: op.params.clone(),
            created_at: None,
        };
        self.docs.push(doc);
        proof {
            assert(self@ =~= spec_apply(old(self)@, op@));
        }
    }
}

} // verus!
