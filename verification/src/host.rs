use vstd::prelude::*;

verus! {

/// One turn of a chat transcript, as exchanged with the hosting shell.
#[derive(Debug, Clone, PartialEq, Eq)]
pub struct ChatMessage {
    /// Who spoke: a role name such as `user` or `assistant`.
    pub role: String,
    /// What was said.
    pub content: String,
}

/// An authorization-code exchange request, as the hosting shell hands it
/// to its token endpoint.
#[derive(Debug, Clone, PartialEq, Eq)]
pub struct TokenRequest {
    /// The authorization code received on the callback.
    pub code: String,
    /// Which identity provider issued it.
    pub provider: String,
    /// The redirect URI the code was issued for.
    pub redirect_uri: String,
}

/// What a token endpoint answers with.
#[derive(Debug, Clone, PartialEq, Eq)]
pub struct TokenResponse {
    /// The bearer token.
    pub access_token: String,
    /// A refresh token, when the provider grants one.
    pub refresh_token: Option<String>,
    /// Seconds until the access token expires, when stated.
    pub expires_in: Option<u64>,
    /// The token type, normally `Bearer`.
    pub token_type: String,
}

/// A peer of the hosting shell's local-network discovery.
#[derive(Debug, Clone, PartialEq, Eq)]
pub struct P2PPeer {
    /// Stable peer identifier.
    pub id: String,
    /// Human-readable peer name.
    pub name: String,
    /// The peer's address on the local network.
    pub ip: String,
    /// The port its sync endpoint listens on.
    pub port: u16,
    /// Whether the peer answered recently.
    pub is_online: bool,
}

/// One entry of a remote directory listing.
#[derive(Debug, Clone, PartialEq, Eq)]
pub struct RemoteFile {
    /// Entry name.
    pub name: String,
    /// Full remote path.
    pub path: String,
    /// Either `file` or `directory`.
    pub file_type: String,
    /// Size in bytes.
    pub size: u64,
    /// Modification time, in seconds since the epoch.
    pub modified: u64,
}

/// One frame of a streamed response: a piece of text, and whether the
/// response is complete.
#[derive(Debug, Clone, PartialEq, Eq)]
pub struct StreamToken {
    /// The text of this frame.
    pub token: String,
    /// True on the final frame.
    pub is_complete: bool,
}

/// Authentication flows awaiting their callback, keyed by the `state`
/// value that protects each against forgery.
#[derive(Clone)]
pub struct OAuthState {
    pending_requests: Vec<(String, String)>,
}

impl OAuthState {
    /// The pending flows, as state-value/code pairs.
    pub closed spec fn pending(&self) -> Seq<(String, String)> {
        self.pending_requests@
    }

    /// A fresh tracker with no pending flow.
    pub fn new() -> (r: OAuthState)
        ensures
            r.pending() == Seq::<(String, String)>::empty(),
    {
        OAuthState { pending_requests: Vec::new() }
    }
}

} // verus!
