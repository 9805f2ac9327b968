use vstd::prelude::*;
use crate::errors::UpsertError;
use crate::page::{opt_view, Page, PageView};

verus! {

/// The weight a record gets when the update never supplied one.
pub const DEFAULT_WEIGHT: i32 = 1;

/// The complete, persisted metadata record of one entry.  Every string field
/// is always present once a record exists; absence only exists in the
/// transient `Page` update.  The identity is assigned once, at creation, and
/// is never altered by any later merge.
#[derive(Debug, Clone, PartialEq, Eq)]
pub struct Meta {
    pub title: String,
    pub meta_title: String,
    pub section_title: String,
    pub short_description: String,
    pub page_description: String,
    pub meta_description: String,
    pub weight: i32,
    pub uuid: String,
}

/// The mathematical value of a `Meta`: each field as a character sequence,
/// the weight as an integer.
#[verifier::ext_equal]
pub struct MetaView {
    pub title: Seq<char>,
    pub meta_title: Seq<char>,
    pub section_title: Seq<char>,
    pub short_description: Seq<char>,
    pub page_description: Seq<char>,
    pub meta_description: Seq<char>,
    pub weight: int,
    pub uuid: Seq<char>,
}

impl View for Meta {
    type V = MetaView;

    open spec fn view(&self) -> MetaView {
        MetaView {
            title: self.title@,
            meta_title: self.meta_title@,
            section_title: self.section_title@,
            short_description: self.short_description@,
            page_description: self.page_description@,
            meta_description: self.meta_description@,
            weight: self.weight as int,
            uuid: self.uuid@,
        }
    }
}

/// The value a merged field takes: the supplied one if the update supplies
/// one, else the stored one.
pub open spec fn pick(stored: Seq<char>, update: Option<Seq<char>>) -> Seq<char> {
    match update {
        Option::Some(v) => v,
        Option::None => stored,
    }
}

/// Whether a merge marks a field changed: the update supplies a value and it
/// differs from the stored one.
pub open spec fn differs(stored: Seq<char>, update: Option<Seq<char>>) -> bool {
    match update {
        Option::Some(v) => v != stored,
        Option::None => false,
    }
}

/// The record a merge produces: each field independently taken from the
/// update where supplied, kept otherwise; the identity always carried over
/// unmodified.  The update's content plays no part here.
pub open spec fn merged(m: MetaView, p: PageView) -> MetaView {
    MetaView {
        title: pick(m.title, p.title),
        meta_title: pick(m.meta_title, p.meta_title),
        section_title: pick(m.section_title, p.section_title),
        short_description: pick(m.short_description, p.short_description),
        page_description: pick(m.page_description, p.page_description),
        meta_description: pick(m.meta_description, p.meta_description),
        weight: match p.weight {
            Option::Some(w) => w,
            Option::None => m.weight,
        },
        uuid: m.uuid,
    }
}

/// Whether a merge changes anything: the disjunction of the per-field flags.
pub open spec fn merge_changed(m: MetaView, p: PageView) -> bool {
    ||| differs(m.title, p.title)
    ||| differs(m.meta_title, p.meta_title)
    ||| differs(m.section_title, p.section_title)
    ||| differs(m.short_description, p.short_description)
    ||| differs(m.page_description, p.page_description)
    ||| differs(m.meta_description, p.meta_description)
    ||| (p.weight matches Option::Some(w) && w != m.weight)
}

/// An optional value, or a default where absent.
pub open spec fn or_default(v: Option<Seq<char>>, d: Seq<char>) -> Seq<char> {
    match v {
        Option::Some(s) => s,
        Option::None => d,
    }
}

/// The record created from an update with no prior record, given the
/// freshly allocated identity.  The titles default to the supplied title,
/// the descriptions to the (post-default) short description, the weight to
/// one.  Meaningful only when the update supplies a title.
pub open spec fn synthesized(p: PageView, identity: Seq<char>) -> MetaView
    recommends
        p.title is Some,
{
    let title = p.title->0;
    let short_description = or_default(p.short_description, Seq::empty());
    MetaView {
        title: title,
        meta_title: or_default(p.meta_title, title),
        section_title: or_default(p.section_title, title),
        short_description: short_description,
        page_description: or_default(p.page_description, short_description),
        meta_description: or_default(p.meta_description, short_description),
        weight: match p.weight {
            Option::Some(w) => w,
            Option::None => DEFAULT_WEIGHT as int,
        },
        uuid: identity,
    }
}

/// One merged field together with its changed flag.
fn pick_field(stored: String, update: Option<String>) -> (r: (String, bool))
    ensures
        r.0@ == pick(stored@, opt_view(update)),
        r.1 == differs(stored@, opt_view(update)),
{
    match update {
        Some(v) => {
            let changed = !(v == stored);
            (v, changed)
        },
        None => (stored, false),
    }
}

/// Relies on `uuid::Uuid::new_v4` and its `Display` form: a freshly drawn
/// random identity, rendered as the 36-character hyphenated text form.
/// Nothing relates two calls: each may return a different value.
#[verifier::external_body]
fn fresh_identity() -> (r: String)
    ensures
        r@.len() == 36,
{
    uuid::Uuid::new_v4().to_string()
}

impl Meta {
    /// Merge a partial update into this record, field by field: a supplied
    /// field is adopted and marked changed exactly where it differs, an
    /// omitted field keeps the stored value, and the identity is carried
    /// over unmodified.  Returns the merged record and whether any field
    /// changed.
    pub fn apply(self, page: Page) -> (r: (Meta, bool))
        ensures
            r.0@ == merged(self@, page@),
            r.1 == merge_changed(self@, page@),
    {
        let ghost m0 = self@;
        let ghost p0 = page@;
        let Meta {
            title,
            meta_title,
            section_title,
            short_description,
            page_description,
            meta_description,
            weight,
            uuid,
        } = self;

        let (title, title_changed) = pick_field(title, page.title);
        let (meta_title, meta_title_changed) = pick_field(meta_title, page.meta_title);
        let (section_title, section_title_changed) = pick_field(
            section_title,
            page.section_title,
        );
        let (short_description, short_description_changed) = pick_field(
            short_description,
            page.short_description,
        );
        let (page_description, page_description_changed) = pick_field(
            page_description,
            page.page_description,
        );
        let (meta_description, meta_description_changed) = pick_field(
            meta_description,
            page.meta_description,
        );
        let (weight, weight_changed) = match page.weight {
            Some(w) => (w, w != weight),
            None => (weight, false),
        };

        let updated = title_changed || meta_title_changed || section_title_changed
            || short_description_changed || page_description_changed
            || meta_description_changed || weight_changed;

        let record = Meta {
            title,
            meta_title,
            section_title,
            short_description,
            page_description,
            meta_description,
            weight,
            uuid,
        };
        proof {
            assert(record@ =~= merged(m0, p0));
        }
        (record, updated)
    }
}

impl Page {
    /// Build the record a first-time creation produces, from this update and
    /// an already-allocated identity: the title is required, the remaining
    /// fields fall back to their creation defaults.
    pub fn into_record(self, identity: String) -> (r: Result<Meta, UpsertError>)
        ensures
            self@.title is Some ==> (r matches Ok(m) && m@ == synthesized(self@, identity@)),
            self@.title is None ==> (r matches Err(e) && e is MissingRequiredField),
    {
        let ghost p0 = self@;
        let title = match self.title {
            Some(t) => t,
            None => {
                return Err(UpsertError::MissingRequiredField);
            },
        };
        let meta_title = match self.meta_title {
            Some(v) => v,
            None => title.clone(),
        };
        let section_title = match self.section_title {
            Some(v) => v,
            None => title.clone(),
        };
        let short_description = match self.short_description {
            Some(v) => v,
            None => String::new(),
        };
        let page_description = match self.page_description {
            Some(v) => v,
            None => short_description.clone(),
        };
        let meta_description = match self.meta_description {
            Some(v) => v,
            None => short_description.clone(),
        };
        let weight = match self.weight {
            Some(w) => w,
            None => DEFAULT_WEIGHT,
        };
        let record = Meta {
            title,
            meta_title,
            section_title,
            short_description,
            page_description,
            meta_description,
            weight,
            uuid: identity,
        };
        proof {
            assert(record@ =~= synthesized(p0, identity@));
        }
        Ok(record)
    }

    /// Build the record a first-time creation produces, allocating a fresh
    /// identity for it.  Fails exactly when the update supplies no title.
    pub fn into_new_record(self) -> (r: Result<Meta, UpsertError>)
        ensures
            self@.title is Some ==> (r matches Ok(m) && m@ == synthesized(self@, m@.uuid)
                && m@.uuid.len() == 36),
            self@.title is None ==> (r matches Err(e) && e is MissingRequiredField),
    {
        let identity = fresh_identity();
        self.into_record(identity)
    }
}

} // verus!
