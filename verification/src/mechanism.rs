//! Authentication mechanisms as a server advertises them.

use vstd::prelude::*;
use crate::provider::{IdentityProvider, IdentityProviderView};

verus! {

/// One authentication method that a server reports supporting.
#[derive(Debug)]
pub enum AdvertisedMechanism {
    /// Identifier and secret.
    Password,
    /// Single sign-on, through any of the listed providers; an empty list
    /// means the server runs the redirect without a provider hint.
    SingleSignOn { providers: Vec<IdentityProvider> },
    /// Token login: the second leg of single sign-on, never a first step.
    Token,
    /// A mechanism this client does not know, kept by the name the server
    /// gave it.
    Unknown(String),
}

/// The mathematical value of an [`AdvertisedMechanism`].
pub enum MechanismView {
    Password,
    SingleSignOn { providers: Seq<IdentityProviderView> },
    Token,
    Unknown(Seq<char>),
}

impl View for AdvertisedMechanism {
    type V = MechanismView;

    open spec fn view(&self) -> MechanismView {
        match self {
            AdvertisedMechanism::Password => MechanismView::Password,
            AdvertisedMechanism::SingleSignOn { providers } => MechanismView::SingleSignOn {
                providers: providers.deep_view(),
            },
            AdvertisedMechanism::Token => MechanismView::Token,
            AdvertisedMechanism::Unknown(name) => MechanismView::Unknown(name@),
        }
    }
}

impl DeepView for AdvertisedMechanism {
    type V = MechanismView;

    open spec fn deep_view(&self) -> MechanismView {
        self@
    }
}

impl MechanismView {
    /// Single sign-on advertised without any identity provider.
    pub open spec fn is_bare_sso(self) -> bool {
        self matches MechanismView::SingleSignOn { providers } && providers.len() == 0
    }

    /// A mechanism that can never be offered as a first step.
    pub open spec fn is_never_offered(self) -> bool {
        self is Token || self is Unknown
    }
}

} // verus!
