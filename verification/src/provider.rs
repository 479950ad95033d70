//! Identity providers: third parties that can assert a user's identity for
//! single sign-on.

use vstd::prelude::*;
use vstd::std_specs::cmp::PartialEqSpecImpl;

verus! {

/// A third-party single sign-on issuer, as a server lists it.
#[derive(Debug)]
pub struct IdentityProvider {
    /// The identifier the server knows the provider by.
    pub id: String,
    /// The name shown to a user.
    pub name: String,
    /// Where the provider's icon can be fetched, if it has one.
    pub icon: Option<String>,
}

/// The mathematical value of an [`IdentityProvider`].
pub struct IdentityProviderView {
    pub id: Seq<char>,
    pub name: Seq<char>,
    pub icon: Option<Seq<char>>,
}

impl View for IdentityProvider {
    type V = IdentityProviderView;

    open spec fn view(&self) -> IdentityProviderView {
        IdentityProviderView {
            id: self.id@,
            name: self.name@,
            icon: match self.icon {
                Some(icon) => Some(icon@),
                None => None,
            },
        }
    }
}

impl DeepView for IdentityProvider {
    type V = IdentityProviderView;

    open spec fn deep_view(&self) -> IdentityProviderView {
        self@
    }
}

impl IdentityProviderView {
    /// Two providers are the same issuer when their identifiers agree;
    /// name and icon are presentation only.
    pub open spec fn same_issuer(self, other: IdentityProviderView) -> bool {
        self.id == other.id
    }
}

impl IdentityProvider {
    /// A provider with the given identifier and display name, and no icon.
    pub fn new(id: String, name: String) -> (provider: IdentityProvider)
        ensures
            provider@ == (IdentityProviderView { id: id@, name: name@, icon: None }),
    {
        IdentityProvider { id, name, icon: None }
    }
}

impl Clone for IdentityProvider {
    fn clone(&self) -> (copy: IdentityProvider)
        ensures
            copy@ == self@,
    {
        let icon = match &self.icon {
            Some(icon) => Some(icon.clone()),
            None => None,
        };
        IdentityProvider { id: self.id.clone(), name: self.name.clone(), icon }
    }
}

impl PartialEq for IdentityProvider {
    fn eq(&self, other: &IdentityProvider) -> (equal: bool) {
        self.id == other.id
    }
}

impl PartialEqSpecImpl for IdentityProvider {
    open spec fn obeys_eq_spec() -> bool {
        true
    }

    open spec fn eq_spec(&self, other: &IdentityProvider) -> bool {
        self@.same_issuer(other@)
    }
}

} // verus!
