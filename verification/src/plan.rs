use vstd::prelude::*;
use crate::digest::{content_changed, detect_content_change, next_content};
use crate::errors::UpsertError;
use crate::meta::{merge_changed, merged, synthesized, Meta, MetaView};
use crate::page::{opt_view, Page, PageView};
use crate::paths::seg_views;
use crate::tree::Locator;

verus! {

/// The state an upsert found: whether each strict ancestor (nearest the
/// root first) already has a metadata record, the entry's stored content if
/// its content artifact exists, and its stored metadata record if one
/// exists.
pub struct Observed {
    pub ancestors_have_meta: Vec<bool>,
    pub content: Option<String>,
    pub meta: Option<Meta>,
}

/// The view of an optional record.
pub open spec fn opt_meta_view(o: Option<Meta>) -> Option<MetaView> {
    match o {
        Option::Some(m) => Option::Some(m@),
        Option::None => Option::None,
    }
}

/// What an upsert decides to write: a metadata record for each strict
/// ancestor that lacks one (aligned with the locator's ancestors, `None`
/// where one already exists — an existing ancestor record is never touched),
/// the content to store if it differs, the entry's reconciled metadata
/// record, whether to persist it, and whether anything changed at all.
pub struct UpsertPlan {
    pub section_creates: Vec<Option<Meta>>,
    pub content_write: Option<String>,
    pub record: Meta,
    pub write_record: bool,
    pub changed: bool,
}

/// The metadata record a section bootstrap creates: the ancestor's leaf
/// name as every title, empty descriptions, the default weight, a fresh
/// identity.
pub open spec fn section_record(name: Seq<char>, identity: Seq<char>) -> MetaView {
    MetaView {
        title: name,
        meta_title: name,
        section_title: name,
        short_description: Seq::empty(),
        page_description: Seq::empty(),
        meta_description: Seq::empty(),
        weight: 1,
        uuid: identity,
    }
}

/// The record an upsert stores: the merge where a record exists, the
/// synthesized record (under the given fresh identity) where none does.
pub open spec fn next_record(
    stored: Option<MetaView>,
    p: PageView,
    identity: Seq<char>,
) -> MetaView {
    match stored {
        Option::Some(m) => merged(m, p),
        Option::None => synthesized(p, identity),
    }
}

/// Whether an upsert's metadata step counts as a change: creation always
/// does, a merge exactly where some field differs.
pub open spec fn record_changed(stored: Option<MetaView>, p: PageView) -> bool {
    match stored {
        Option::Some(m) => merge_changed(m, p),
        Option::None => true,
    }
}

/// Whether an upsert reports a change at all: the content differs or the
/// metadata step changed something.
pub open spec fn upsert_changed(
    stored_content: Option<Seq<char>>,
    stored_meta: Option<MetaView>,
    p: PageView,
) -> bool {
    content_changed(stored_content, p.content) || record_changed(stored_meta, p)
}

/// Reconcile one entry: decide, from what is stored, everything an upsert
/// of the given update writes.  Nothing is decided that depends on more
/// than the observed state and the update, so a caller that performs
/// exactly the returned writes realizes the upsert.  Fails exactly where a
/// record must be created and the update supplies no title; a failed upsert
/// plans no write at all.
pub fn plan_upsert(loc: &Locator, page: Page, obs: Observed) -> (r: Result<
    UpsertPlan,
    UpsertError,
>)
    requires
        loc.segments@.len() > 0,
        obs.ancestors_have_meta@.len() == loc.segments@.len() - 1,
    ensures
        (r is Err) <==> (obs.meta is None && page@.title is None),
        r matches Err(e) ==> e is MissingRequiredField,
        r matches Ok(plan) ==> ({
            let p = page@;
            let segs = seg_views(loc.segments@);
            let stored_content = opt_view(obs.content);
            let stored_meta = opt_meta_view(obs.meta);
            &&& plan.section_creates@.len() == obs.ancestors_have_meta@.len()
            &&& forall|i: int|
                0 <= i < plan.section_creates@.len() && obs.ancestors_have_meta@[i]
                    ==> #[trigger] plan.section_creates@[i] is None
            &&& forall|i: int|
                0 <= i < plan.section_creates@.len() && !obs.ancestors_have_meta@[i] ==> (
                #[trigger] plan.section_creates@[i] matches Some(m) && m@ == section_record(
                    segs[i],
                    m@.uuid,
                ) && m@.uuid.len() == 36)
            &&& opt_view(plan.content_write) == (if content_changed(stored_content, p.content) {
                p.content
            } else {
                Option::<Seq<char>>::None
            })
            &&& (match opt_view(plan.content_write) {
                Option::Some(w) => Option::Some(w),
                Option::None => stored_content,
            }) == next_content(stored_content, p.content)
            &&& plan.record@ == next_record(stored_meta, p, plan.record@.uuid)
            &&& stored_meta is None ==> plan.record@.uuid.len() == 36
            &&& plan.changed == upsert_changed(stored_content, stored_meta, p)
            &&& plan.write_record == plan.changed
        }),
{
    let Observed { ancestors_have_meta, content: stored_content, meta: stored_meta } = obs;

    let mut section_creates: Vec<Option<Meta>> = Vec::new();
    let mut i: usize = 0;
    while i < ancestors_have_meta.len()
        invariant
            ancestors_have_meta@.len() == loc.segments@.len() - 1,
            i <= ancestors_have_meta@.len(),
            section_creates@.len() == i,
            forall|j: int|
                0 <= j < i && ancestors_have_meta@[j]
                    ==> #[trigger] section_creates@[j] is None,
            forall|j: int|
                0 <= j < i && !ancestors_have_meta@[j] ==> (
                #[trigger] section_creates@[j] matches Some(m) && m@ == section_record(
                    seg_views(loc.segments@)[j],
                    m@.uuid,
                ) && m@.uuid.len() == 36),
        decreases ancestors_have_meta@.len() - i,
    {
        if ancestors_have_meta[i] {
            section_creates.push(None);
        } else {
            let name = loc.segments[i].clone();
            let ghost name_view = name@;
            match Page::new().with_title(name).into_new_record() {
                Ok(m) => {
                    proof {
                        assert(m@ =~= section_record(name_view, m@.uuid));
                    }
                    section_creates.push(Some(m));
                },
                Err(_) => {
                    // unreachable: a bootstrap update always supplies a title
                    proof {
                        assert(false);
                    }
                },
            }
        }
        i += 1;
    }

    let ghost p0 = page@;
    let Page {
        title,
        meta_title,
        meta_description,
        short_description,
        page_description,
        section_title,
        content,
        weight,
    } = page;
    let rest = Page {
        title,
        meta_title,
        meta_description,
        short_description,
        page_description,
        section_title,
        content: None,
        weight,
    };
    proof {
        assert(rest@ =~= (PageView { content: Option::None, ..p0 }));
    }

    let content_differs = detect_content_change(&stored_content, &content);
    let content_write = if content_differs {
        content
    } else {
        None
    };

    let ghost stored_meta0 = opt_meta_view(stored_meta);
    let (record, record_differs): (Meta, bool) = match stored_meta {
        Some(m) => {
            let ghost m0 = m@;
            let (rec, ch) = m.apply(rest);
            proof {
                assert(merged(m0, rest@) =~= merged(m0, p0));
                assert(merge_changed(m0, rest@) == merge_changed(m0, p0));
            }
            (rec, ch)
        },
        None => {
            match rest.into_new_record() {
                Ok(rec) => {
                    proof {
                        assert(synthesized(rest@, rec@.uuid) =~= synthesized(p0, rec@.uuid));
                    }
                    (rec, true)
                },
                Err(e) => {
                    return Err(e);
                },
            }
        },
    };

    let changed = content_differs || record_differs;
    Ok(
        UpsertPlan {
            section_creates,
            content_write,
            record,
            write_record: changed,
            changed,
        },
    )
}

} // verus!
