use wordpress::data::category::CategoryTaxonomy;
use wordpress::data::post::{CommentStatus, Format, PingStatus, Status};
use wordpress::data::tag::TagTaxonomy;

#[test]
fn status_texts() {
    assert_eq!(Status::from_text("publish"), Some(Status::Publish));
    assert_eq!(Status::from_text("future"), Some(Status::Future));
    assert_eq!(Status::from_text("draft"), Some(Status::Draft));
    assert_eq!(Status::from_text("pending"), Some(Status::Pending));
    assert_eq!(Status::from_text("private"), Some(Status::Private));
    assert_eq!(Status::Private.as_text(), "private");
}

#[test]
fn unknown_status_is_refused() {
    assert_eq!(Status::from_text("archived"), None);
    assert_eq!(Status::from_text("Publish"), None);
    assert_eq!(Status::from_text(""), None);
}

#[test]
fn format_texts_round_trip() {
    let all = [
        Format::Standard,
        Format::Aside,
        Format::Chat,
        Format::Gallery,
        Format::Link,
        Format::Image,
        Format::Quote,
        Format::Status,
        Format::Video,
        Format::Audio,
    ];
    for f in all {
        assert_eq!(Format::from_text(f.as_text()), Some(f));
    }
    assert_eq!(Format::from_text("podcast"), None);
}

#[test]
fn comment_and_ping_status() {
    assert_eq!(CommentStatus::from_text("open"), Some(CommentStatus::Open));
    assert_eq!(CommentStatus::from_text("closed"), Some(CommentStatus::Closed));
    assert_eq!(PingStatus::Closed.as_text(), "closed");
    assert_eq!(PingStatus::from_text("maybe"), None);
}

#[test]
fn taxonomies_use_snake_case() {
    assert_eq!(TagTaxonomy::from_text("post_tag"), Some(TagTaxonomy::PostTag));
    assert_eq!(TagTaxonomy::LinkCategory.as_text(), "link_category");
    assert_eq!(CategoryTaxonomy::from_text("nav_menu"), Some(CategoryTaxonomy::NavMenu));
    assert_eq!(CategoryTaxonomy::PostFormat.as_text(), "post_format");
    assert_eq!(CategoryTaxonomy::from_text("PostTag"), None);
}
