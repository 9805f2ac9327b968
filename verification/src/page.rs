use vstd::prelude::*;

verus! {

/// A partial page update: the caller's intent for one entry.  Every field is
/// independently present or absent; an absent field means "leave the stored
/// value unchanged if a record exists, else apply the creation default".
pub struct Page {
    pub title: Option<String>,
    pub meta_title: Option<String>,
    pub meta_description: Option<String>,
    pub short_description: Option<String>,
    pub page_description: Option<String>,
    pub section_title: Option<String>,
    pub content: Option<String>,
    pub weight: Option<i32>,
}

/// The mathematical value of a `Page`: each optional field as an optional
/// character sequence, the weight as an optional integer.
#[verifier::ext_equal]
pub struct PageView {
    pub title: Option<Seq<char>>,
    pub meta_title: Option<Seq<char>>,
    pub meta_description: Option<Seq<char>>,
    pub short_description: Option<Seq<char>>,
    pub page_description: Option<Seq<char>>,
    pub section_title: Option<Seq<char>>,
    pub content: Option<Seq<char>>,
    pub weight: Option<int>,
}

/// The view of an optional string.
pub open spec fn opt_view(o: Option<String>) -> Option<Seq<char>> {
    match o {
        Option::Some(s) => Option::Some(s@),
        Option::None => Option::None,
    }
}

impl View for Page {
    type V = PageView;

    open spec fn view(&self) -> PageView {
        PageView {
            title: opt_view(self.title),
            meta_title: opt_view(self.meta_title),
            meta_description: opt_view(self.meta_description),
            short_description: opt_view(self.short_description),
            page_description: opt_view(self.page_description),
            section_title: opt_view(self.section_title),
            content: opt_view(self.content),
            weight: match self.weight {
                Option::Some(w) => Option::Some(w as int),
                Option::None => Option::None,
            },
        }
    }
}

/// The update that supplies nothing at all.
pub open spec fn empty_page() -> PageView {
    PageView {
        title: Option::None,
        meta_title: Option::None,
        meta_description: Option::None,
        short_description: Option::None,
        page_description: Option::None,
        section_title: Option::None,
        content: Option::None,
        weight: Option::None,
    }
}

impl Page {
    /// An update that supplies no field.
    pub fn new() -> (p: Page)
        ensures
            p@ == empty_page(),
    {
        Page {
            title: None,
            meta_title: None,
            section_title: None,
            meta_description: None,
            short_description: None,
            page_description: None,
            content: None,
            weight: None,
        }
    }

    /// Supply the title.
    pub fn with_title(self, title: String) -> (p: Page)
        ensures
            p@ == (PageView { title: Option::Some(title@), ..self@ }),
    {
        Page { title: Some(title), ..self }
    }

    /// Supply the meta title.
    pub fn with_meta_title(self, meta_title: String) -> (p: Page)
        ensures
            p@ == (PageView { meta_title: Option::Some(meta_title@), ..self@ }),
    {
        Page { meta_title: Some(meta_title), ..self }
    }

    /// Supply the section title.
    pub fn with_section_title(self, section_title: String) -> (p: Page)
        ensures
            p@ == (PageView { section_title: Option::Some(section_title@), ..self@ }),
    {
        Page { section_title: Some(section_title), ..self }
    }

    /// Supply the short description.
    pub fn with_short_description(self, short_description: String) -> (p: Page)
        ensures
            p@ == (PageView {
                short_description: Option::Some(short_description@),
                ..self@
            }),
    {
        Page { short_description: Some(short_description), ..self }
    }

    /// Supply the page description.
    pub fn with_page_description(self, page_description: String) -> (p: Page)
        ensures
            p@ == (PageView {
                page_description: Option::Some(page_description@),
                ..self@
            }),
    {
        Page { page_description: Some(page_description), ..self }
    }

    /// Supply the content.
    pub fn with_content(self, content: String) -> (p: Page)
        ensures
            p@ == (PageView { content: Option::Some(content@), ..self@ }),
    {
        Page { content: Some(content), ..self }
    }

    /// Supply the weight.
    pub fn with_weight(self, weight: i32) -> (p: Page)
        ensures
            p@ == (PageView { weight: Option::Some(weight as int), ..self@ }),
    {
        Page { weight: Some(weight), ..self }
    }
}

} // verus!
