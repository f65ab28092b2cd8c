//! The bearer credentials of one target.
use vstd::prelude::*;

verus! {

/// What a successful login returns. The credentials are replaced as a whole
/// by each login and never changed in part.
#[derive(Debug)]
pub struct AuthData {
    pub access_token: String,
    pub refresh_token: String,
    pub msg: String,
}

/// Mathematical value of [`AuthData`].
pub struct AuthDataView {
    pub access_token: Seq<char>,
    pub refresh_token: Seq<char>,
    pub msg: Seq<char>,
}

impl AuthDataView {
    /// Credentials are empty where any of the three fields is.
    pub open spec fn is_empty(self) -> bool {
        self.access_token.len() == 0 || self.refresh_token.len() == 0 || self.msg.len() == 0
    }
}

impl View for AuthData {
    type V = AuthDataView;

    open spec fn view(&self) -> AuthDataView {
        AuthDataView {
            access_token: self.access_token@,
            refresh_token: self.refresh_token@,
            msg: self.msg@,
        }
    }
}

impl Clone for AuthData {
    fn clone(&self) -> (r: Self)
        ensures
            r@ == self@,
    {
        AuthData {
            access_token: self.access_token.clone(),
            refresh_token: self.refresh_token.clone(),
            msg: self.msg.clone(),
        }
    }
}

impl AuthData {
    /// The credentials before the first login: every field is empty.
    pub fn new() -> (r: AuthData)
        ensures
            r@ == (AuthDataView {
                access_token: Seq::empty(),
                refresh_token: Seq::empty(),
                msg: Seq::empty(),
            }),
    {
        AuthData { access_token: String::new(), refresh_token: String::new(), msg: String::new() }
    }

    /// Tells whether any of the three fields is empty.
    pub fn is_empty(&self) -> (r: bool)
        ensures
            r == self@.is_empty(),
    {
        self.access_token.as_str().is_empty() || self.refresh_token.as_str().is_empty()
            || self.msg.as_str().is_empty()
    }
}

} // verus!
