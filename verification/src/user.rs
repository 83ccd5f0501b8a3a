//! The user as the agent sees them.

use vstd::prelude::*;

verus! {

/// What the agent knows of a chat-platform user.
#[derive(Debug)]
pub struct UserInfo {
    /// The platform's numeric user id.
    pub id: u64,
    /// The account name.
    pub username: String,
    /// A per-guild nickname, when one is known.
    pub nickname: Option<String>,
    /// Where the avatar image lives, when one is set.
    pub avatar_url: Option<String>,
    /// Whether the account is a bot.
    pub is_bot: bool,
}

impl UserInfo {
    /// The same user with the given nickname recorded.
    pub fn with_nickname(self, nickname: String) -> (r: UserInfo)
        ensures
            r.nickname matches Some(n) && n@ == nickname@,
            r.id == self.id,
            r.username@ == self.username@,
            r.avatar_url == self.avatar_url,
            r.is_bot == self.is_bot,
    {
        UserInfo { nickname: Some(nickname), ..self }
    }
}

} // verus!
