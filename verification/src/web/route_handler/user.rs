//! The endpoints about a user's public profile.

pub mod get_avatar_in_gravatar;
pub mod get_user_info_by_gravatar;

pub use get_avatar_in_gravatar::get_avatar_in_gravatar;
pub use get_user_info_by_gravatar::get_user_info_by_gravatar;
