use vstd::prelude::*;

use url::Url;

use crate::text::same_text;

verus! {

/// Represents a tag object.
#[derive(Clone, Debug, PartialEq, Eq)]
pub struct Tag {
    pub id: usize,
    pub count: usize,
    pub description: String,
    pub link: Url,
    pub name: String,
    pub slug: String,
    pub taxonomy: TagTaxonomy,
}

/// The taxonomy that a tag belongs to.
#[derive(Clone, Copy, Debug, PartialEq, Eq, Structural)]
pub enum TagTaxonomy {
    Category,
    PostTag,
    NavMenu,
    LinkCategory,
    PostFormat,
}

impl TagTaxonomy {
    /// The text that stands for this value in the API's JSON.
    pub open spec fn text(self) -> Seq<char> {
        match self {
            TagTaxonomy::Category => "category"@,
            TagTaxonomy::PostTag => "post_tag"@,
            TagTaxonomy::NavMenu => "nav_menu"@,
            TagTaxonomy::LinkCategory => "link_category"@,
            TagTaxonomy::PostFormat => "post_format"@,
        }
    }

    /// The text that stands for this value in the API's JSON.
    pub fn as_text(&self) -> (r: &'static str)
        ensures
            r@ == self.text(),
    {
        match self {
            TagTaxonomy::Category => "category",
            TagTaxonomy::PostTag => "post_tag",
            TagTaxonomy::NavMenu => "nav_menu",
            TagTaxonomy::LinkCategory => "link_category",
            TagTaxonomy::PostFormat => "post_format",
        }
    }

    /// Different values stand for different texts.
    pub proof fn lemma_text_injective(a: TagTaxonomy, b: TagTaxonomy)
        ensures
            a.text() == b.text() ==> a == b,
    {
        reveal_strlit("category");
        reveal_strlit("post_tag");
        reveal_strlit("nav_menu");
        reveal_strlit("link_category");
        reveal_strlit("post_format");
        if a.text() == b.text() {
            assert(a.text()[0] == b.text()[0]);
            assert(a.text()[1] == b.text()[1]);
            assert(a.text()[2] == b.text()[2]);
            assert(a.text().len() == b.text().len());
        }
    }

    /// The value that `s` stands for; `None` for any text outside the
    /// known set, which is refused rather than mapped to a default.
    pub fn from_text(s: &str) -> (r: Option<TagTaxonomy>)
        ensures
            match r {
                Some(v) => s@ == v.text(),
                None => forall|v: TagTaxonomy| s@ != v.text(),
            },
    {
        if same_text(s, "category") {
            Some(TagTaxonomy::Category)
        } else if same_text(s, "post_tag") {
            Some(TagTaxonomy::PostTag)
        } else if same_text(s, "nav_menu") {
            Some(TagTaxonomy::NavMenu)
        } else if same_text(s, "link_category") {
            Some(TagTaxonomy::LinkCategory)
        } else if same_text(s, "post_format") {
            Some(TagTaxonomy::PostFormat)
        } else {
            assert forall|v: TagTaxonomy| s@ != v.text() by {
                match v {
                    TagTaxonomy::Category => {},
                    TagTaxonomy::PostTag => {},
                    TagTaxonomy::NavMenu => {},
                    TagTaxonomy::LinkCategory => {},
                    TagTaxonomy::PostFormat => {},
                }
            }
            None
        }
    }
}
} // verus!
