use vstd::prelude::*;
use crate::AuthError;
use crate::text::{join_with, joined, views};

verus! {

/// The item that is playing.
pub enum PlayableItem {
    /// A music track; `artists` are in the order the provider lists them.
    Track { name: String, artists: Vec<String>, url: Option<String> },
    /// A podcast episode of the show `show`.
    Episode { name: String, show: String, url: Option<String> },
}

/// What the provider reports as currently playing.
pub struct PlaybackState {
    pub is_playing: bool,
    pub item: Option<PlayableItem>,
}

/// An access token obtained from the token endpoint.
pub struct AccessToken {
    pub value: String,
    /// Seconds until the token expires, where the provider says so.
    pub expires_in: Option<u64>,
}

/// The canonical URL as printed: empty where the provider gave none.
pub open spec fn url_text(url: Option<String>) -> Seq<char> {
    match url {
        Some(u) => u@,
        None => Seq::empty(),
    }
}

/// The lines printed for a playback report.
pub open spec fn playback_lines(state: Option<PlaybackState>) -> Seq<Seq<char>> {
    match state {
        Some(s) => if !s.is_playing {
            seq!["Nothing is currently playing."@]
        } else {
            match s.item {
                None => seq!["No track or episode found."@],
                Some(PlayableItem::Track { name, artists, url }) => seq![
                    "Now playing: "@ + joined(views(artists@), ", "@) + " \u{2014} "@ + name@,
                    "Listen here: "@ + url_text(url),
                ],
                Some(PlayableItem::Episode { name, show, url }) => seq![
                    "Now playing episode: "@ + name@ + " \u{2014} "@ + show@,
                    "Listen here: "@ + url_text(url),
                ],
            }
        },
        None => seq!["Nothing is currently playing."@],
    }
}

fn listen_line(url: &Option<String>) -> (r: String)
    ensures
        r@ == "Listen here: "@ + url_text(*url),
{
    let mut line = String::from_str("Listen here: ");
    match url {
        Some(u) => line.append(u.as_str()),
        None => {
            proof { reveal_strlit(""); }
            assert(line@ =~= "Listen here: "@ + url_text(*url));
        },
    }
    line
}

/// The lines that report `state` to the user.
pub fn format_playback(state: &Option<PlaybackState>) -> (r: Vec<String>)
    ensures
        views(r@) == playback_lines(*state),
{
    let mut out: Vec<String> = Vec::new();
    match state {
        Some(s) if s.is_playing => {
            match &s.item {
                None => {
                    out.push(String::from_str("No track or episode found."));
                },
                Some(PlayableItem::Track { name, artists, url }) => {
                    let mut line = String::from_str("Now playing: ");
                    let who = join_with(artists, ", ");
                    line.append(who.as_str());
                    line.append(" \u{2014} ");
                    line.append(name.as_str());
                    out.push(line);
                    out.push(listen_line(url));
                },
                Some(PlayableItem::Episode { name, show, url }) => {
                    let mut line = String::from_str("Now playing episode: ");
                    line.append(name.as_str());
                    line.append(" \u{2014} ");
                    line.append(show.as_str());
                    out.push(line);
                    out.push(listen_line(url));
                },
            }
        },
        _ => {
            out.push(String::from_str("Nothing is currently playing."));
        },
    }
    assert(views(out@) =~= playback_lines(*state));
    out
}

/// Formatting depends on the reported state alone: two reports that agree give the
/// same lines, so formatting one report twice prints the same thing twice.
pub proof fn lemma_format_repeatable(a: Option<PlaybackState>, b: Option<PlaybackState>)
    requires
        a == b,
    ensures
        playback_lines(a) == playback_lines(b),
{
}

/// A `2xx` HTTP status.
pub open spec fn is_success(status: u16) -> bool {
    200 <= status <= 299
}

/// The outcome of the token request: a success status with an access token in the
/// body gives that token; anything else is a token-exchange error.
pub fn token_from_response(status: u16, access_token: Option<String>, expires_in: Option<u64>) -> (r:
    Result<AccessToken, AuthError>)
    ensures
        match r {
            Ok(t) => is_success(status) && access_token == Some(t.value) && t.expires_in
                == expires_in,
            Err(e) => e == AuthError::TokenExchange && (!is_success(status)
                || access_token is None),
        },
{
    if 200 <= status && status <= 299 {
        match access_token {
            Some(value) => Ok(AccessToken { value, expires_in }),
            None => Err(AuthError::TokenExchange),
        }
    } else {
        Err(AuthError::TokenExchange)
    }
}

/// The outcome of the playback query: `204 No Content` means nothing is playing,
/// another success status carries the reported state, any other status is an API error.
pub fn playback_from_response(status: u16, reported: Option<PlaybackState>) -> (r: Result<
    Option<PlaybackState>,
    AuthError,
>)
    ensures
        match r {
            Ok(s) => is_success(status) && (if status == 204 { s is None } else { s == reported }),
            Err(e) => e == AuthError::Api && !is_success(status),
        },
{
    if status == 204 {
        Ok(None)
    } else if 200 <= status && status <= 299 {
        Ok(reported)
    } else {
        Err(AuthError::Api)
    }
}

} // verus!
