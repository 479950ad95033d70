//! The choices a user can be offered.

use vstd::prelude::*;
use vstd::string::*;
use vstd::std_specs::cmp::PartialEqSpecImpl;
use crate::provider::{IdentityProvider, IdentityProviderView};

verus! {

/// One way of logging in that can be put before a user.
#[derive(Debug)]
pub enum LoginChoice {
    /// Login with username and password.
    Password,
    /// Login with single sign-on, leaving the provider to the server.
    GenericSso,
    /// Login with single sign-on through a specific identity provider.
    SsoVia(IdentityProvider),
}

/// The mathematical value of a [`LoginChoice`].
pub enum ChoiceView {
    Password,
    GenericSso,
    SsoVia(IdentityProviderView),
}

impl View for LoginChoice {
    type V = ChoiceView;

    open spec fn view(&self) -> ChoiceView {
        match self {
            LoginChoice::Password => ChoiceView::Password,
            LoginChoice::GenericSso => ChoiceView::GenericSso,
            LoginChoice::SsoVia(provider) => ChoiceView::SsoVia(provider@),
        }
    }
}

impl DeepView for LoginChoice {
    type V = ChoiceView;

    open spec fn deep_view(&self) -> ChoiceView {
        self@
    }
}

impl ChoiceView {
    /// The text a user reads for this choice.
    pub open spec fn label(self) -> Seq<char> {
        match self {
            ChoiceView::Password => "Username and password"@,
            ChoiceView::GenericSso => "SSO"@,
            ChoiceView::SsoVia(provider) => "SSO via "@ + provider.name,
        }
    }

    /// Two choices are the same when they are of the same kind and, for
    /// single sign-on through a provider, name the same issuer.
    pub open spec fn same_choice(self, other: ChoiceView) -> bool {
        match (self, other) {
            (ChoiceView::Password, ChoiceView::Password) => true,
            (ChoiceView::GenericSso, ChoiceView::GenericSso) => true,
            (ChoiceView::SsoVia(mine), ChoiceView::SsoVia(theirs)) => mine.same_issuer(theirs),
            _ => false,
        }
    }
}

impl LoginChoice {
    /// The human-readable label of this choice.
    pub fn label(&self) -> (text: String)
        ensures
            text@ == self@.label(),
    {
        match self {
            LoginChoice::Password => "Username and password".to_owned(),
            LoginChoice::GenericSso => "SSO".to_owned(),
            LoginChoice::SsoVia(provider) => {
                let mut text = "SSO via ".to_owned();
                text.append(provider.name.as_str());
                text
            },
        }
    }
}

impl Clone for LoginChoice {
    fn clone(&self) -> (copy: LoginChoice)
        ensures
            copy@ == self@,
    {
        match self {
            LoginChoice::Password => LoginChoice::Password,
            LoginChoice::GenericSso => LoginChoice::GenericSso,
            LoginChoice::SsoVia(provider) => LoginChoice::SsoVia(provider.clone()),
        }
    }
}

impl PartialEq for LoginChoice {
    fn eq(&self, other: &LoginChoice) -> (equal: bool) {
        match (self, other) {
            (LoginChoice::Password, LoginChoice::Password) => true,
            (LoginChoice::GenericSso, LoginChoice::GenericSso) => true,
            (LoginChoice::SsoVia(mine), LoginChoice::SsoVia(theirs)) => mine == theirs,
            _ => false,
        }
    }
}

impl PartialEqSpecImpl for LoginChoice {
    open spec fn obeys_eq_spec() -> bool {
        true
    }

    open spec fn eq_spec(&self, other: &LoginChoice) -> bool {
        self@.same_choice(other@)
    }
}

} // verus!
