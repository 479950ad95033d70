//! Login-method negotiation for a federated chat homeserver.
//!
//! A server advertises the authentication mechanisms it supports. The
//! resolver turns that list into the choices a user can be offered, the
//! dispatcher walks one chosen mechanism through its exchange with the
//! server and the credentials provider, and the negotiation ties both
//! together as a state machine.
//!
//! Nothing here performs I/O: the caller performs each [`Request`] and hands
//! the [`Reply`] back.

pub mod choice;
pub mod dispatcher;
pub mod error;
pub mod mechanism;
pub mod negotiation;
pub mod provider;
pub mod resolver;
pub mod session;

pub use choice::{ChoiceView, LoginChoice};
pub use dispatcher::{Progress, ProgressView, Reply, ReplyView, Request, RequestView};
pub use error::LoginError;
pub use mechanism::{AdvertisedMechanism, MechanismView};
pub use negotiation::{login, Negotiation, NegotiationView};
pub use provider::{IdentityProvider, IdentityProviderView};
pub use resolver::resolve;
pub use session::{Session, SessionView};
