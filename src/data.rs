/// The `Category` type and its related types.
pub mod category;
/// The `Post` type and its related types.
pub mod post;
/// The `Tag` type and its related types.
pub mod tag;

pub use self::category::Category;
pub use self::post::Post;
pub use self::tag::Tag;
