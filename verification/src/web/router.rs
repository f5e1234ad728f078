//! Where the endpoints are mounted.

use vstd::prelude::*;

verus! {

/// The path under which the user endpoints are nested.
pub const USER_SCOPE: &'static str = "/user";

/// The path of the avatar endpoint, below `USER_SCOPE`.
pub const GET_AVATAR_IN_GRAVATAR: &'static str = "/get_avatar_in_gravatar";

/// The path of the profile endpoint, below `USER_SCOPE`.
pub const GET_USER_INFO_BY_GRAVATAR: &'static str = "/get_user_info_by_gravatar";

} // verus!
