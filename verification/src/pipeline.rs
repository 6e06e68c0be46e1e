//! The per-message pipeline: what to do with one inbound message.
//!
//! The flow is strictly linear — match, optionally probe the redirect, fetch
//! metadata, fetch media, reply — and every step that decides something is a
//! function here, from plain values to plain values. The surrounding
//! application performs the network calls between the steps and hands each
//! outcome back as a plain value (`None` standing for a transport failure),
//! so every decision is verified and the application keeps none of its own.

use vstd::prelude::*;
use vstd::string::StringExecFns;

use crate::matcher::desktop_at;
use crate::matcher::find_desktop_id;
use crate::matcher::find_mobile_url;
use crate::matcher::is_first_desktop_id;
use crate::matcher::is_first_mobile_url;
use crate::matcher::lemma_first_desktop_id_unique;
use crate::matcher::lemma_first_mobile_url_unique;
use crate::matcher::mobile_at;
use crate::tiktok::avatar_url_of;
use crate::tiktok::metadata_accepts;
use crate::tiktok::record_of;
use crate::tiktok::ApiResponse;
use crate::tiktok::Tiktok;

verus! {

/// The failure kinds of one message's pipeline. None of them stops the
/// process; the dispatcher reports the failure on the triggering message and
/// goes on serving events. A message without a recognizable link is not a
/// failure and produces nothing at all.
#[derive(Clone, Copy, Debug, PartialEq, Eq, Structural)]
pub enum PipelineError {
    /// The redirect probe failed, its answer carried no usable `Location`
    /// header, or the header held no desktop-form link.
    RedirectFailure,
    /// The metadata fetch failed, the envelope did not decode, its entry list
    /// was empty, or the returned id did not match the requested one.
    MetadataFailure,
    /// The media fetch failed or returned no payload.
    MediaFetchFailure,
    /// Suppressing the original embed or sending the reply failed.
    ReplyFailure,
}

/// What the dispatcher does first with a message text: nothing, a redirect
/// probe of a short-form link, or a metadata fetch for an extracted id.
#[derive(Debug)]
pub enum MessageAction {
    /// No link of either form: take no action, perform no call.
    Ignore,
    /// A short-form link was found; probe it, without following redirects,
    /// for its `Location` header.
    ProbeRedirect(String),
    /// A desktop-form link was found; fetch metadata for this video id.
    FetchMetadata(String),
}

/// The action `r` is the one the text calls for: ignore exactly when neither
/// form occurs; probe the leftmost short-form link when one occurs; otherwise
/// fetch metadata for the id of the leftmost desktop-form link.
pub open spec fn action_matches(text: Seq<char>, r: MessageAction) -> bool {
    match r {
        MessageAction::Ignore => (forall|i: int| desktop_at(text, i) is None) && (forall|i: int|
            mobile_at(text, i) is None),
        MessageAction::ProbeRedirect(url) => is_first_mobile_url(text, url@),
        MessageAction::FetchMetadata(id) => (forall|i: int| mobile_at(text, i) is None)
            && is_first_desktop_id(text, id@),
    }
}

/// Decide what to do with one inbound message text. Short-form links take
/// precedence: their redirect target is where the desktop-form id is read.
pub fn examine_message(text: &str) -> (r: MessageAction)
    ensures
        action_matches(text@, r),
{
    match find_mobile_url(text) {
        Some(url) => MessageAction::ProbeRedirect(url),
        None => match find_desktop_id(text) {
            Some(id) => MessageAction::FetchMetadata(id),
            None => MessageAction::Ignore,
        },
    }
}

/// Read the redirect probe's outcome: the `Location` header of the first hop,
/// or `None` when the probe failed or the header was missing or unreadable.
/// Succeeds with the id of the leftmost desktop-form link of the header
/// value; anything else is a redirect failure.
pub fn resolve_redirect(location: Option<String>) -> (r: Result<String, PipelineError>)
    ensures
        match r {
            Ok(id) => location matches Some(l) && is_first_desktop_id(l@, id@),
            Err(e) => e == PipelineError::RedirectFailure && match location {
                Some(l) => forall|i: int| desktop_at(l@, i) is None,
                None => true,
            },
        },
{
    match location {
        Some(l) => match find_desktop_id(l.as_str()) {
            Some(id) => Ok(id),
            None => Err(PipelineError::RedirectFailure),
        },
        None => Err(PipelineError::RedirectFailure),
    }
}

/// The metadata endpoint URL for one video id: the fixed feed path on the
/// configured host, parameterized only by the id.
pub open spec fn feed_url_of(host: Seq<char>, id: Seq<char>) -> Seq<char> {
    "https://"@ + host + "/aweme/v1/feed/?aweme_id="@ + id
}

/// Build the metadata request URL. The feed host is configuration — the
/// unofficial API's host changes — so it is an argument, not a constant.
pub fn feed_url(host: &str, id: &str) -> (r: String)
    ensures
        r@ == feed_url_of(host@, id@),
{
    let mut r = String::from_str("https://");
    r.append(host);
    r.append("/aweme/v1/feed/?aweme_id=");
    r.append(id);
    r
}

/// Read the metadata fetch's outcome: the decoded envelope, or `None` when
/// the fetch or the decode failed. A failed fetch, and an envelope the
/// validation refuses, are both metadata failures; no record is ever built
/// from mismatched data.
pub fn process_metadata(id: &String, response: Option<ApiResponse>) -> (r: Result<
    Tiktok,
    PipelineError,
>)
    ensures
        match r {
            Ok(t) => response matches Some(resp) && metadata_accepts(id@, resp) && record_of(
                t,
                resp.aweme_list@[0],
            ),
            Err(e) => e == PipelineError::MetadataFailure && match response {
                Some(resp) => !metadata_accepts(id@, resp),
                None => true,
            },
        },
{
    match response {
        Some(resp) => Tiktok::from(id, resp),
        None => Err(PipelineError::MetadataFailure),
    }
}

/// Read the media fetch's outcome: the full buffered payload, or `None` when
/// the fetch failed or answered with a non-success status.
pub fn process_media(fetched: Option<Vec<u8>>) -> (r: Result<Vec<u8>, PipelineError>)
    ensures
        match r {
            Ok(b) => fetched matches Some(f) && b@ == f@,
            Err(e) => e == PipelineError::MediaFetchFailure && fetched is None,
        },
{
    match fetched {
        Some(f) => Ok(f),
        None => Err(PipelineError::MediaFetchFailure),
    }
}

/// Accent color of the reply embed.
pub const EMBED_COLOR: u32 = 0xF82054;

/// The attachment's file name: the video id with the media extension.
pub open spec fn file_name_of(id: Seq<char>) -> Seq<char> {
    id + ".mp4"@
}

/// The embed's author line: display name followed by the handle.
pub open spec fn author_display_of(name: Seq<char>, username: Seq<char>) -> Seq<char> {
    name + " (@"@ + username + ")"@
}

/// The link behind the embed's author line: the author's profile URL.
pub open spec fn author_link_of(username: Seq<char>) -> Seq<char> {
    "https://tiktok.com/@"@ + username
}

/// The rich embed of the reply: author block, description, the three
/// engagement counts, and the fixed accent color.
pub struct ReplyEmbed {
    pub author_name: String,
    pub author_url: String,
    pub author_icon_url: String,
    pub description: String,
    pub likes: u32,
    pub comments: u32,
    pub views: u32,
    pub color: u32,
}

/// The one reply the pipeline sends: the buffered media as a named file, the
/// embed, and the three platform-side flags the send must carry.
pub struct Reply {
    pub file_name: String,
    pub file_data: Vec<u8>,
    pub embed: ReplyEmbed,
    /// The reply is threaded onto the triggering message.
    pub reply_to_original: bool,
    /// Mention notifications are suppressed.
    pub suppress_notifications: bool,
    /// The platform's own auto-embed on the triggering message is suppressed.
    pub suppress_original_embed: bool,
}

/// The reply `r` is exactly the one owed for id `id`, record `t` and media
/// payload `media`.
pub open spec fn reply_composed(r: Reply, id: Seq<char>, t: Tiktok, media: Seq<u8>) -> bool {
    r.file_name@ == file_name_of(id) && r.file_data@ == media && r.embed.author_name@
        == author_display_of(t.author.name@, t.author.username@) && r.embed.author_url@
        == author_link_of(t.author.username@) && r.embed.author_icon_url@ == avatar_url_of(
        t.author.avatar_uri@,
    ) && r.embed.description@ == t.description@ && r.embed.likes == t.statistics.likes
        && r.embed.comments == t.statistics.comments && r.embed.views == t.statistics.views
        && r.embed.color == EMBED_COLOR && r.reply_to_original && r.suppress_notifications
        && r.suppress_original_embed
}

/// Compose the one reply for a resolved video: the media payload as
/// `<id>.mp4`, the embed carrying author, description and counts, threaded
/// onto the original message with mentions suppressed, and the original
/// message's own embed suppressed.
pub fn compose_reply(id: &String, tiktok: &Tiktok, media: Vec<u8>) -> (r: Reply)
    ensures
        reply_composed(r, id@, *tiktok, media@),
{
    let mut file_name = id.clone();
    file_name.append(".mp4");
    let mut author_name = tiktok.author.name.clone();
    author_name.append(" (@");
    author_name.append(tiktok.author.username.as_str());
    author_name.append(")");
    let mut author_url = String::from_str("https://tiktok.com/@");
    author_url.append(tiktok.author.username.as_str());
    let embed = ReplyEmbed {
        author_name,
        author_url,
        author_icon_url: tiktok.author.avatar_url(),
        description: tiktok.description.clone(),
        likes: tiktok.statistics.likes,
        comments: tiktok.statistics.comments,
        views: tiktok.statistics.views,
        color: EMBED_COLOR,
    };
    Reply {
        file_name,
        file_data: media,
        embed,
        reply_to_original: true,
        suppress_notifications: true,
        suppress_original_embed: true,
    }
}

/// The fixed reaction placed on the triggering message when the pipeline
/// fails after a link was recognized: the sole user-visible failure feedback.
pub fn failure_reaction() -> (r: String)
    ensures
        r@ == "\u{274C}"@,
{
    String::from_str("\u{274C}")
}

/// Two actions are the same plan: same kind, same URL or id.
pub open spec fn same_plan(r1: MessageAction, r2: MessageAction) -> bool {
    match (r1, r2) {
        (MessageAction::Ignore, MessageAction::Ignore) => true,
        (MessageAction::ProbeRedirect(u1), MessageAction::ProbeRedirect(u2)) => u1@ == u2@,
        (MessageAction::FetchMetadata(i1), MessageAction::FetchMetadata(i2)) => i1@ == i2@,
        _ => false,
    }
}

proof fn lemma_first_desktop_is_somewhere(s: Seq<char>, id: Seq<char>)
    requires
        is_first_desktop_id(s, id),
    ensures
        exists|i: int| #![trigger desktop_at(s, i)] desktop_at(s, i) is Some,
{
    let i = choose|i: int|
        #![trigger desktop_at(s, i)]
        desktop_at(s, i) == Some(id) && (forall|j: int| 0 <= j < i ==> desktop_at(s, j) is None);
    assert(desktop_at(s, i) is Some);
}

proof fn lemma_first_mobile_is_somewhere(s: Seq<char>, url: Seq<char>)
    requires
        is_first_mobile_url(s, url),
    ensures
        exists|i: int| #![trigger mobile_at(s, i)] mobile_at(s, i) is Some,
{
    let i = choose|i: int|
        #![trigger mobile_at(s, i)]
        mobile_at(s, i) == Some(url) && (forall|j: int| 0 <= j < i ==> mobile_at(s, j) is None);
    assert(mobile_at(s, i) is Some);
}

/// The pipeline holds no state across messages: two messages with equal
/// texts are planned independently and identically, so resending the same
/// text again simply produces a second, independent attempt of the same
/// actions — nothing is deduplicated.
pub proof fn lemma_equal_texts_same_plan(text: Seq<char>, r1: MessageAction, r2: MessageAction)
    requires
        action_matches(text, r1),
        action_matches(text, r2),
    ensures
        same_plan(r1, r2),
{
    match (r1, r2) {
        (MessageAction::Ignore, MessageAction::Ignore) => {},
        (MessageAction::ProbeRedirect(u1), MessageAction::ProbeRedirect(u2)) => {
            lemma_first_mobile_url_unique(text, u1@, u2@);
        },
        (MessageAction::FetchMetadata(i1), MessageAction::FetchMetadata(i2)) => {
            lemma_first_desktop_id_unique(text, i1@, i2@);
        },
        (MessageAction::Ignore, MessageAction::ProbeRedirect(u)) => {
            lemma_first_mobile_is_somewhere(text, u@);
        },
        (MessageAction::Ignore, MessageAction::FetchMetadata(id)) => {
            lemma_first_desktop_is_somewhere(text, id@);
        },
        (MessageAction::ProbeRedirect(u), MessageAction::Ignore) => {
            lemma_first_mobile_is_somewhere(text, u@);
        },
        (MessageAction::ProbeRedirect(u), MessageAction::FetchMetadata(_)) => {
            lemma_first_mobile_is_somewhere(text, u@);
        },
        (MessageAction::FetchMetadata(_), MessageAction::ProbeRedirect(u)) => {
            lemma_first_mobile_is_somewhere(text, u@);
        },
        (MessageAction::FetchMetadata(id), MessageAction::Ignore) => {
            lemma_first_desktop_is_somewhere(text, id@);
        },
    }
}

} // verus!
