//! The resolver: from the mechanisms a server advertises to the choices a
//! user can be offered.

use vstd::prelude::*;
use crate::choice::{ChoiceView, LoginChoice};
use crate::mechanism::{AdvertisedMechanism, MechanismView};
use crate::provider::{IdentityProvider, IdentityProviderView};

verus! {

/// The choices that one advertised mechanism gives rise to, in order.
///
/// A password mechanism offers the password choice. Single sign-on offers
/// one choice per listed provider, in the order listed, or the generic
/// choice when no provider is listed. Token login and unknown mechanisms
/// offer nothing.
pub open spec fn offered_by(mechanism: MechanismView) -> Seq<ChoiceView> {
    match mechanism {
        MechanismView::Password => seq![ChoiceView::Password],
        MechanismView::SingleSignOn { providers } => if providers.len() == 0 {
            seq![ChoiceView::GenericSso]
        } else {
            sso_choices(providers)
        },
        MechanismView::Token => Seq::empty(),
        MechanismView::Unknown(_) => Seq::empty(),
    }
}

/// One single sign-on choice per provider, in the providers' order.
pub open spec fn sso_choices(providers: Seq<IdentityProviderView>) -> Seq<ChoiceView> {
    providers.map_values(|provider: IdentityProviderView| ChoiceView::SsoVia(provider))
}

/// The choices that a list of advertised mechanisms resolves to: what each
/// mechanism offers, one after the other in the order of the list.
pub open spec fn resolved(mechanisms: Seq<MechanismView>) -> Seq<ChoiceView> {
    mechanisms.flat_map(|mechanism: MechanismView| offered_by(mechanism))
}

/// Resolving one more mechanism appends what that mechanism offers.
pub proof fn lemma_resolved_push(mechanisms: Seq<MechanismView>, mechanism: MechanismView)
    ensures
        resolved(mechanisms.push(mechanism)) == resolved(mechanisms) + offered_by(mechanism),
{
    mechanisms.lemma_flat_map_push(|m: MechanismView| offered_by(m), mechanism);
}

/// No mechanisms resolve to no choices.
pub proof fn lemma_resolved_empty()
    ensures
        resolved(Seq::<MechanismView>::empty()) == Seq::<ChoiceView>::empty(),
{
    assert(Seq::<MechanismView>::empty().map_values(|m: MechanismView| offered_by(m))
        =~= Seq::<Seq<ChoiceView>>::empty());
}

/// A list of one mechanism resolves to what that mechanism offers.
pub proof fn lemma_resolved_single(mechanism: MechanismView)
    ensures
        resolved(seq![mechanism]) == offered_by(mechanism),
{
    lemma_resolved_empty();
    lemma_resolved_push(Seq::empty(), mechanism);
    assert(Seq::<MechanismView>::empty().push(mechanism) =~= seq![mechanism]);
}

/// Resolution preserves the input order: the choices of a list followed by
/// another are the choices of the first followed by the choices of the
/// second.
pub proof fn lemma_resolved_concat(first: Seq<MechanismView>, second: Seq<MechanismView>)
    ensures
        resolved(first + second) == resolved(first) + resolved(second),
    decreases second.len(),
{
    if second.len() == 0 {
        lemma_resolved_empty();
        assert(first + second =~= first);
        assert(second =~= Seq::empty());
    } else {
        let front = second.drop_last();
        let last = second.last();
        lemma_resolved_concat(first, front);
        lemma_resolved_push(first + front, last);
        lemma_resolved_push(front, last);
        assert((first + front).push(last) =~= first + second);
        assert(front.push(last) =~= second);
    }
}

/// Token login and unknown mechanisms never produce a choice: a list that
/// holds nothing else, whatever its length and order, resolves to nothing.
pub proof fn lemma_never_offered_resolve_to_nothing(mechanisms: Seq<MechanismView>)
    requires
        forall|i: int| 0 <= i < mechanisms.len() ==> (#[trigger] mechanisms[i]).is_never_offered(),
    ensures
        resolved(mechanisms) == Seq::<ChoiceView>::empty(),
    decreases mechanisms.len(),
{
    if mechanisms.len() == 0 {
        lemma_resolved_empty();
        assert(mechanisms =~= Seq::empty());
    } else {
        let front = mechanisms.drop_last();
        let last = mechanisms.last();
        lemma_never_offered_resolve_to_nothing(front);
        lemma_resolved_push(front, last);
        assert(front.push(last) =~= mechanisms);
    }
}

/// Token login and unknown mechanisms contribute nothing wherever they
/// stand: taking every such entry out of a list leaves its choices as they
/// were.
pub proof fn lemma_never_offered_are_skipped(mechanisms: Seq<MechanismView>)
    ensures
        resolved(mechanisms) == resolved(
            mechanisms.filter(|m: MechanismView| !m.is_never_offered()),
        ),
    decreases mechanisms.len(),
{
    let kept = |m: MechanismView| !m.is_never_offered();
    if mechanisms.len() == 0 {
        assert(mechanisms.filter(kept) =~= mechanisms) by {
            mechanisms.lemma_filter_len(kept);
        }
    } else {
        let front = mechanisms.drop_last();
        let last = mechanisms.last();
        lemma_never_offered_are_skipped(front);
        lemma_resolved_push(front, last);
        front.lemma_filter_push(last, kept);
        assert(front.push(last) =~= mechanisms);
        if kept(last) {
            lemma_resolved_push(front.filter(kept), last);
        }
    }
}

/// The generic single sign-on choice appears once for every single sign-on
/// entry advertised without providers, and not otherwise. So it appears
/// exactly once if and only if exactly one such entry is advertised.
pub proof fn lemma_generic_sso_count(mechanisms: Seq<MechanismView>)
    ensures
        resolved(mechanisms).filter(|c: ChoiceView| c is GenericSso).len() == mechanisms.filter(
            |m: MechanismView| m.is_bare_sso(),
        ).len(),
    decreases mechanisms.len(),
{
    let generic = |c: ChoiceView| c is GenericSso;
    let bare = |m: MechanismView| m.is_bare_sso();
    if mechanisms.len() == 0 {
        lemma_resolved_empty();
        assert(mechanisms =~= Seq::empty());
        Seq::<ChoiceView>::empty().lemma_filter_len(generic);
        mechanisms.lemma_filter_len(bare);
    } else {
        let front = mechanisms.drop_last();
        let last = mechanisms.last();
        lemma_generic_sso_count(front);
        lemma_resolved_push(front, last);
        assert(front.push(last) =~= mechanisms);
        front.lemma_filter_push(last, bare);
        Seq::filter_distributes_over_add(resolved(front), offered_by(last), generic);
        lemma_generic_in_offer(last);
    }
}

/// What one mechanism offers holds the generic single sign-on choice once
/// if the mechanism is single sign-on without providers, and never
/// otherwise.
pub proof fn lemma_generic_in_offer(mechanism: MechanismView)
    ensures
        offered_by(mechanism).filter(|c: ChoiceView| c is GenericSso).len() == (if mechanism.is_bare_sso() {
            1nat
        } else {
            0nat
        }),
{
    let generic = |c: ChoiceView| c is GenericSso;
    let offer = offered_by(mechanism);
    if mechanism.is_bare_sso() {
        assert(offer =~= Seq::<ChoiceView>::empty().push(ChoiceView::GenericSso));
        Seq::<ChoiceView>::empty().lemma_filter_push(ChoiceView::GenericSso, generic);
        Seq::<ChoiceView>::empty().lemma_filter_len(generic);
    } else {
        assert forall|i: int| 0 <= i < offer.len() implies !generic(#[trigger] offer[i]) by {}
        offer.lemma_all_neg_filter_empty(generic);
    }
}

/// Converts an advertised mechanism list into the login choices to offer.
///
/// Each mechanism is visited once, in input order. Repeated entries are not
/// merged: every entry contributes what it offers. An empty result is a
/// valid outcome, not an error.
pub fn resolve(mechanisms: &Vec<AdvertisedMechanism>) -> (choices: Vec<LoginChoice>)
    ensures
        choices.deep_view() == resolved(mechanisms.deep_view()),
{
    let mut choices: Vec<LoginChoice> = Vec::new();
    let mut at: usize = 0;
    proof {
        assert(mechanisms.deep_view().take(0) =~= Seq::empty());
        assert(choices.deep_view() =~= Seq::empty());
    }
    while at < mechanisms.len()
        invariant
            at <= mechanisms.len(),
            choices.deep_view() == resolved(mechanisms.deep_view().take(at as int)),
        decreases mechanisms.len() - at,
    {
        let ghost before = choices.deep_view();
        let ghost mechanism = mechanisms.deep_view()[at as int];
        match &mechanisms[at] {
            AdvertisedMechanism::Password => {
                choices.push(LoginChoice::Password);
                assert(choices.deep_view() =~= before + offered_by(mechanism));
            },
            AdvertisedMechanism::SingleSignOn { providers } => {
                if providers.len() == 0 {
                    choices.push(LoginChoice::GenericSso);
                    assert(choices.deep_view() =~= before + offered_by(mechanism));
                } else {
                    extend_with_providers(&mut choices, providers);
                }
            },
            AdvertisedMechanism::Token => {
                assert(choices.deep_view() =~= before + offered_by(mechanism));
            },
            AdvertisedMechanism::Unknown(_) => {
                assert(choices.deep_view() =~= before + offered_by(mechanism));
            },
        }
        proof {
            let seen = mechanisms.deep_view().take(at as int);
            lemma_resolved_push(seen, mechanism);
            assert(mechanisms.deep_view().take(at as int + 1) =~= seen.push(mechanism));
        }
        at += 1;
    }
    proof {
        assert(mechanisms.deep_view().take(at as int) =~= mechanisms.deep_view());
    }
    choices
}

/// Appends one single sign-on choice per provider, in the providers' order.
fn extend_with_providers(choices: &mut Vec<LoginChoice>, providers: &Vec<IdentityProvider>)
    ensures
        final(choices).deep_view() == old(choices).deep_view() + sso_choices(
            providers.deep_view(),
        ),
{
    let mut at: usize = 0;
    proof {
        assert(choices.deep_view() =~= old(choices).deep_view() + sso_choices(
            providers.deep_view().take(0),
        ));
    }
    while at < providers.len()
        invariant
            at <= providers.len(),
            choices.deep_view() == old(choices).deep_view() + sso_choices(
                providers.deep_view().take(at as int),
            ),
        decreases providers.len() - at,
    {
        let ghost before = choices.deep_view();
        choices.push(LoginChoice::SsoVia(providers[at].clone()));
        proof {
            let listed = providers.deep_view();
            assert(choices.deep_view() =~= before.push(ChoiceView::SsoVia(listed[at as int])));
            assert(sso_choices(listed.take(at as int + 1)) =~= sso_choices(
                listed.take(at as int),
            ).push(ChoiceView::SsoVia(listed[at as int])));
        }
        at += 1;
    }
    proof {
        assert(providers.deep_view().take(at as int) =~= providers.deep_view());
    }
}

} // verus!
