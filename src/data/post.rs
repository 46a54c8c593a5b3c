use vstd::prelude::*;

use chrono::NaiveDateTime;
use url::Url;

use crate::text::same_text;

verus! {

/// Represents a post object.
///
/// `date` and `modified` are the site's local wall-clock times; `date_gmt`
/// and `modified_gmt` are the UTC wall-clock times of the same instants,
/// as the API sends them, without a zone suffix.
#[derive(Clone, Debug, PartialEq, Eq)]
pub struct Post {
    pub date: Option<NaiveDateTime>,
    pub date_gmt: Option<NaiveDateTime>,
    pub guid: Guid,
    pub id: isize,
    pub link: Url,
    pub modified: NaiveDateTime,
    pub modified_gmt: NaiveDateTime,
    pub slug: String,
    pub status: Status,
    pub kind: String,
    pub title: Title,
    pub content: Content,
    pub author: isize,
    pub excerpt: Excerpt,
    pub featured_media: isize,
    pub comment_status: CommentStatus,
    pub ping_status: PingStatus,
    pub format: Format,
    pub sticky: bool,
    pub template: String,
    pub categories: Vec<isize>,
    pub tags: Vec<isize>,
}

/// Represents the object in a post's `guid` field.
#[derive(Clone, Debug, PartialEq, Eq)]
pub struct Guid {
    pub rendered: String,
}

/// Represents the object in a post's `title` field.
#[derive(Clone, Debug, PartialEq, Eq)]
pub struct Title {
    pub rendered: String,
}

/// Represents the object in a post's `content` field.
#[derive(Clone, Debug, PartialEq, Eq)]
pub struct Content {
    pub rendered: String,
    pub protected: bool,
}

/// Represents the object in a post's `excerpt` field.
#[derive(Clone, Debug, PartialEq, Eq)]
pub struct Excerpt {
    pub rendered: String,
    pub protected: bool,
}

/// Represents a post's `status` field.
#[derive(Clone, Copy, Debug, PartialEq, Eq, Structural)]
pub enum Status {
    Publish,
    Future,
    Draft,
    Pending,
    Private,
}

impl Status {
    /// The text that stands for this value in the API's JSON.
    pub open spec fn text(self) -> Seq<char> {
        match self {
            Status::Publish => "publish"@,
            Status::Future => "future"@,
            Status::Draft => "draft"@,
            Status::Pending => "pending"@,
            Status::Private => "private"@,
        }
    }

    /// The text that stands for this value in the API's JSON.
    pub fn as_text(&self) -> (r: &'static str)
        ensures
            r@ == self.text(),
    {
        match self {
            Status::Publish => "publish",
            Status::Future => "future",
            Status::Draft => "draft",
            Status::Pending => "pending",
            Status::Private => "private",
        }
    }

    /// Different values stand for different texts.
    pub proof fn lemma_text_injective(a: Status, b: Status)
        ensures
            a.text() == b.text() ==> a == b,
    {
        reveal_strlit("publish");
        reveal_strlit("future");
        reveal_strlit("draft");
        reveal_strlit("pending");
        reveal_strlit("private");
        if a.text() == b.text() {
            assert(a.text()[0] == b.text()[0]);
            assert(a.text()[1] == b.text()[1]);
            assert(a.text()[2] == b.text()[2]);
            assert(a.text().len() == b.text().len());
        }
    }

    /// The value that `s` stands for; `None` for any text outside the
    /// known set, which is refused rather than mapped to a default.
    pub fn from_text(s: &str) -> (r: Option<Status>)
        ensures
            match r {
                Some(v) => s@ == v.text(),
                None => forall|v: Status| s@ != v.text(),
            },
    {
        if same_text(s, "publish") {
            Some(Status::Publish)
        } else if same_text(s, "future") {
            Some(Status::Future)
        } else if same_text(s, "draft") {
            Some(Status::Draft)
        } else if same_text(s, "pending") {
            Some(Status::Pending)
        } else if same_text(s, "private") {
            Some(Status::Private)
        } else {
            assert forall|v: Status| s@ != v.text() by {
                match v {
                    Status::Publish => {},
                    Status::Future => {},
                    Status::Draft => {},
                    Status::Pending => {},
                    Status::Private => {},
                }
            }
            None
        }
    }
}

/// Represents a post's `comment_status` field.
#[derive(Clone, Copy, Debug, PartialEq, Eq, Structural)]
pub enum CommentStatus {
    Open,
    Closed,
}

impl CommentStatus {
    /// The text that stands for this value in the API's JSON.
    pub open spec fn text(self) -> Seq<char> {
        match self {
            CommentStatus::Open => "open"@,
            CommentStatus::Closed => "closed"@,
        }
    }

    /// The text that stands for this value in the API's JSON.
    pub fn as_text(&self) -> (r: &'static str)
        ensures
            r@ == self.text(),
    {
        match self {
            CommentStatus::Open => "open",
            CommentStatus::Closed => "closed",
        }
    }

    /// Different values stand for different texts.
    pub proof fn lemma_text_injective(a: CommentStatus, b: CommentStatus)
        ensures
            a.text() == b.text() ==> a == b,
    {
        reveal_strlit("open");
        reveal_strlit("closed");
        if a.text() == b.text() {
            assert(a.text()[0] == b.text()[0]);
            assert(a.text()[1] == b.text()[1]);
            assert(a.text()[2] == b.text()[2]);
            assert(a.text().len() == b.text().len());
        }
    }

    /// The value that `s` stands for; `None` for any text outside the
    /// known set, which is refused rather than mapped to a default.
    pub fn from_text(s: &str) -> (r: Option<CommentStatus>)
        ensures
            match r {
                Some(v) => s@ == v.text(),
                None => forall|v: CommentStatus| s@ != v.text(),
            },
    {
        if same_text(s, "open") {
            Some(CommentStatus::Open)
        } else if same_text(s, "closed") {
            Some(CommentStatus::Closed)
        } else {
            assert forall|v: CommentStatus| s@ != v.text() by {
                match v {
                    CommentStatus::Open => {},
                    CommentStatus::Closed => {},
                }
            }
            None
        }
    }
}

/// Represents a post's `ping_status` field.
#[derive(Clone, Copy, Debug, PartialEq, Eq, Structural)]
pub enum PingStatus {
    Open,
    Closed,
}

impl PingStatus {
    /// The text that stands for this value in the API's JSON.
    pub open spec fn text(self) -> Seq<char> {
        match self {
            PingStatus::Open => "open"@,
            PingStatus::Closed => "closed"@,
        }
    }

    /// The text that stands for this value in the API's JSON.
    pub fn as_text(&self) -> (r: &'static str)
        ensures
            r@ == self.text(),
    {
        match self {
            PingStatus::Open => "open",
            PingStatus::Closed => "closed",
        }
    }

    /// Different values stand for different texts.
    pub proof fn lemma_text_injective(a: PingStatus, b: PingStatus)
        ensures
            a.text() == b.text() ==> a == b,
    {
        reveal_strlit("open");
        reveal_strlit("closed");
        if a.text() == b.text() {
            assert(a.text()[0] == b.text()[0]);
            assert(a.text()[1] == b.text()[1]);
            assert(a.text()[2] == b.text()[2]);
            assert(a.text().len() == b.text().len());
        }
    }

    /// The value that `s` stands for; `None` for any text outside the
    /// known set, which is refused rather than mapped to a default.
    pub fn from_text(s: &str) -> (r: Option<PingStatus>)
        ensures
            match r {
                Some(v) => s@ == v.text(),
                None => forall|v: PingStatus| s@ != v.text(),
            },
    {
        if same_text(s, "open") {
            Some(PingStatus::Open)
        } else if same_text(s, "closed") {
            Some(PingStatus::Closed)
        } else {
            assert forall|v: PingStatus| s@ != v.text() by {
                match v {
                    PingStatus::Open => {},
                    PingStatus::Closed => {},
                }
            }
            None
        }
    }
}

/// Represents a post's `format` field.
#[derive(Clone, Copy, Debug, PartialEq, Eq, Structural)]
pub enum Format {
    Standard,
    Aside,
    Chat,
    Gallery,
    Link,
    Image,
    Quote,
    Status,
    Video,
    Audio,
}

impl Format {
    /// The text that stands for this value in the API's JSON.
    pub open spec fn text(self) -> Seq<char> {
        match self {
            Format::Standard => "standard"@,
            Format::Aside => "aside"@,
            Format::Chat => "chat"@,
            Format::Gallery => "gallery"@,
            Format::Link => "link"@,
            Format::Image => "image"@,
            Format::Quote => "quote"@,
            Format::Status => "status"@,
            Format::Video => "video"@,
            Format::Audio => "audio"@,
        }
    }

    /// The text that stands for this value in the API's JSON.
    pub fn as_text(&self) -> (r: &'static str)
        ensures
            r@ == self.text(),
    {
        match self {
            Format::Standard => "standard",
            Format::Aside => "aside",
            Format::Chat => "chat",
            Format::Gallery => "gallery",
            Format::Link => "link",
            Format::Image => "image",
            Format::Quote => "quote",
            Format::Status => "status",
            Format::Video => "video",
            Format::Audio => "audio",
        }
    }

    /// Different values stand for different texts.
    pub proof fn lemma_text_injective(a: Format, b: Format)
        ensures
            a.text() == b.text() ==> a == b,
    {
        reveal_strlit("standard");
        reveal_strlit("aside");
        reveal_strlit("chat");
        reveal_strlit("gallery");
        reveal_strlit("link");
        reveal_strlit("image");
        reveal_strlit("quote");
        reveal_strlit("status");
        reveal_strlit("video");
        reveal_strlit("audio");
        if a.text() == b.text() {
            assert(a.text()[0] == b.text()[0]);
            assert(a.text()[1] == b.text()[1]);
            assert(a.text()[2] == b.text()[2]);
            assert(a.text().len() == b.text().len());
        }
    }

    /// The value that `s` stands for; `None` for any text outside the
    /// known set, which is refused rather than mapped to a default.
    pub fn from_text(s: &str) -> (r: Option<Format>)
        ensures
            match r {
                Some(v) => s@ == v.text(),
                None => forall|v: Format| s@ != v.text(),
            },
    {
        if same_text(s, "standard") {
            Some(Format::Standard)
        } else if same_text(s, "aside") {
            Some(Format::Aside)
        } else if same_text(s, "chat") {
            Some(Format::Chat)
        } else if same_text(s, "gallery") {
            Some(Format::Gallery)
        } else if same_text(s, "link") {
            Some(Format::Link)
        } else if same_text(s, "image") {
            Some(Format::Image)
        } else if same_text(s, "quote") {
            Some(Format::Quote)
        } else if same_text(s, "status") {
            Some(Format::Status)
        } else if same_text(s, "video") {
            Some(Format::Video)
        } else if same_text(s, "audio") {
            Some(Format::Audio)
        } else {
            assert forall|v: Format| s@ != v.text() by {
                match v {
                    Format::Standard => {},
                    Format::Aside => {},
                    Format::Chat => {},
                    Format::Gallery => {},
                    Format::Link => {},
                    Format::Image => {},
                    Format::Quote => {},
                    Format::Status => {},
                    Format::Video => {},
                    Format::Audio => {},
                }
            }
            None
        }
    }
}

} // verus!
