//! Multi-select menus.
pub mod conversation;
pub mod user;

pub use self::conversation::Conversation;
pub use self::user::User;
