use vstd::prelude::*;

pub mod authorize;
pub mod listener;
pub mod playback;
pub mod query;
pub mod text;

verus! {

/// The ways a run of the authorization flow can fail. Each one ends the run.
#[derive(Debug, Clone, Copy, PartialEq, Eq, Structural)]
pub enum AuthError {
    /// A required setting is missing or the redirect URI is not an absolute URL.
    Config,
    /// The callback port could not be bound.
    Bind,
    /// The callback arrived without a usable authorization code.
    AuthFlow,
    /// The provider rejected the code or answered with an unusable body.
    TokenExchange,
    /// The playback query failed.
    Api,
    /// The provider reported a kind of playing item that is neither a track nor an episode.
    UnsupportedItem,
}

} // verus!
