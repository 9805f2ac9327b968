use vstd::prelude::*;
use crate::digest::next_content;
use crate::meta::{merge_changed, merged, MetaView};
use crate::page::PageView;
use crate::plan::{next_record, upsert_changed};

verus! {

/// Law: an upsert is idempotent.  After one upsert of an update has been
/// realized — the stored content is `next_content` of what was stored, the
/// stored record is `next_record` of what was stored — a second upsert of
/// the same update reports no change and leaves both the stored content and
/// the stored record exactly as they are, whatever identity a second
/// creation would have drawn.
pub proof fn lemma_upsert_idempotent(
    stored_content: Option<Seq<char>>,
    stored_meta: Option<MetaView>,
    p: PageView,
    identity: Seq<char>,
    identity2: Seq<char>,
)
    requires
        stored_meta is None ==> p.title is Some,
    ensures
        ({
            let content1 = next_content(stored_content, p.content);
            let record1 = next_record(stored_meta, p, identity);
            &&& !upsert_changed(content1, Option::Some(record1), p)
            &&& next_content(content1, p.content) == content1
            &&& next_record(Option::Some(record1), p, identity2) == record1
        }),
{
    let record1 = next_record(stored_meta, p, identity);
    assert(!merge_changed(record1, p));
    assert(merged(record1, p) =~= record1);
}

/// The record that a whole history of merges, applied oldest first, leaves
/// behind.
pub open spec fn merged_all(m: MetaView, updates: Seq<PageView>) -> MetaView
    decreases updates.len(),
{
    if updates.len() == 0 {
        m
    } else {
        merged(merged_all(m, updates.drop_last()), updates.last())
    }
}

/// Law: the identity assigned at creation is immutable.  However many
/// merges a record goes through, and whatever fields they change, the
/// identity is the one the record was created with.
pub proof fn lemma_identity_immutable(m: MetaView, updates: Seq<PageView>)
    ensures
        merged_all(m, updates).uuid == m.uuid,
    decreases updates.len(),
{
    if updates.len() > 0 {
        lemma_identity_immutable(m, updates.drop_last());
    }
}

} // verus!
