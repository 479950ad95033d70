//! The result of a successful login.

use vstd::prelude::*;

verus! {

/// What a server hands out when it accepts a login. The negotiation carries
/// it through unread.
#[derive(Debug)]
pub struct Session {
    /// The token that authorises later requests.
    pub access_token: String,
    /// The user that was logged in.
    pub user_id: String,
    /// The device that the login was made as.
    pub device_id: String,
}

/// The mathematical value of a [`Session`].
pub struct SessionView {
    pub access_token: Seq<char>,
    pub user_id: Seq<char>,
    pub device_id: Seq<char>,
}

impl View for Session {
    type V = SessionView;

    open spec fn view(&self) -> SessionView {
        SessionView {
            access_token: self.access_token@,
            user_id: self.user_id@,
            device_id: self.device_id@,
        }
    }
}

impl DeepView for Session {
    type V = SessionView;

    open spec fn deep_view(&self) -> SessionView {
        self@
    }
}

impl Clone for Session {
    fn clone(&self) -> (copy: Session)
        ensures
            copy@ == self@,
    {
        Session {
            access_token: self.access_token.clone(),
            user_id: self.user_id.clone(),
            device_id: self.device_id.clone(),
        }
    }
}

} // verus!
