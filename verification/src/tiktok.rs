//! The resolved video record and the metadata envelope it is read from.
//!
//! The envelope mirrors, as plain values, the JSON structure returned by the
//! feed API; the surrounding application decodes the wire bytes and hands the
//! envelope in. Building a [`Tiktok`] from it validates the envelope: the
//! entry list must be non-empty, the first entry's id must equal the
//! requested id exactly, and the entry must carry at least one playable URL.

use vstd::prelude::*;
use vstd::string::StringExecFns;

use crate::pipeline::PipelineError;

verus! {

/// Engagement counts for one video, taken verbatim from the metadata
/// envelope at reply time.
#[derive(Clone, Copy, Debug, PartialEq, Eq, Structural)]
pub struct VideoStatistics {
    pub likes: u32,
    pub comments: u32,
    pub views: u32,
}

/// The video's author: display name, handle, and the avatar URI fragment the
/// full avatar URL is derived from.
#[derive(Debug)]
pub struct VideoAuthor {
    pub name: String,
    pub username: String,
    pub avatar_uri: String,
}

/// The fixed CDN template with `uri` substituted in: the author's full avatar
/// URL. A derived value, never stored.
pub open spec fn avatar_url_of(uri: Seq<char>) -> Seq<char> {
    "https://p16-amd-va.tiktokcdn.com/origin/"@ + uri + ".jpeg"@
}

impl VideoAuthor {
    /// The author's avatar URL, derived from the stored URI fragment.
    pub fn avatar_url(&self) -> (r: String)
        ensures
            r@ == avatar_url_of(self.avatar_uri@),
    {
        let mut r = String::from_str("https://p16-amd-va.tiktokcdn.com/origin/");
        r.append(self.avatar_uri.as_str());
        r.append(".jpeg");
        r
    }
}

/// The resolved video: description, direct media URL, author and statistics.
/// Built once per successful metadata call and immutable thereafter.
#[derive(Debug)]
pub struct Tiktok {
    pub description: String,
    pub video_url: String,
    pub author: VideoAuthor,
    pub statistics: VideoStatistics,
}

/// The list of playable URLs of one envelope entry.
pub struct PlayAddr {
    pub url_list: Vec<String>,
}

/// The video block of one envelope entry.
pub struct ApiVideo {
    pub play_addr: PlayAddr,
}

/// One entry of the metadata envelope.
pub struct Aweme {
    pub id: String,
    pub desc: String,
    pub author: VideoAuthor,
    pub video: ApiVideo,
    pub statistics: VideoStatistics,
}

/// The decoded metadata envelope: a list of video entries.
pub struct ApiResponse {
    pub aweme_list: Vec<Aweme>,
}

/// The envelope is acceptable for the requested id: it has a first entry,
/// that entry's id equals the requested id, and the entry has a playable URL.
pub open spec fn metadata_accepts(id: Seq<char>, r: ApiResponse) -> bool {
    r.aweme_list@.len() > 0 && r.aweme_list@[0].id@ == id
        && r.aweme_list@[0].video.play_addr.url_list@.len() > 0
}

/// Both values describe the same author.
pub open spec fn author_preserved(a: VideoAuthor, b: VideoAuthor) -> bool {
    a.name@ == b.name@ && a.username@ == b.username@ && a.avatar_uri@ == b.avatar_uri@
}

/// The record `t` carries exactly the data of envelope entry `a`: its
/// description, its first playable URL, its author and its statistics.
pub open spec fn record_of(t: Tiktok, a: Aweme) -> bool {
    t.description@ == a.desc@ && t.video_url@ == a.video.play_addr.url_list@[0]@
        && author_preserved(t.author, a.author) && t.statistics == a.statistics
}

impl Tiktok {
    /// Validate the decoded metadata envelope against the requested id and
    /// build the video record from its first entry. Fails, with a metadata
    /// failure and never a fault, when the entry list is empty, when the
    /// first entry's id differs from the requested one, or when the first
    /// entry has no playable URL.
    pub fn from(id: &String, response: ApiResponse) -> (r: Result<Tiktok, PipelineError>)
        ensures
            match r {
                Ok(t) => metadata_accepts(id@, response) && record_of(
                    t,
                    response.aweme_list@[0],
                ),
                Err(e) => e == PipelineError::MetadataFailure && !metadata_accepts(
                    id@,
                    response,
                ),
            },
    {
        let mut list = response.aweme_list;
        if list.len() == 0 {
            return Err(PipelineError::MetadataFailure);
        }
        let aweme = list.remove(0);
        if !(aweme.id == *id) {
            return Err(PipelineError::MetadataFailure);
        }
        let Aweme { id: _, desc, author, video, statistics } = aweme;
        let ApiVideo { play_addr } = video;
        let PlayAddr { mut url_list } = play_addr;
        if url_list.len() == 0 {
            return Err(PipelineError::MetadataFailure);
        }
        let video_url = url_list.remove(0);
        Ok(Tiktok { description: desc, video_url, author, statistics })
    }
}

} // verus!
