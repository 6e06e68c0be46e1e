use tiktok_re_embed::pipeline::compose_reply;
use tiktok_re_embed::pipeline::examine_message;
use tiktok_re_embed::pipeline::failure_reaction;
use tiktok_re_embed::pipeline::feed_url;
use tiktok_re_embed::pipeline::process_media;
use tiktok_re_embed::pipeline::process_metadata;
use tiktok_re_embed::pipeline::resolve_redirect;
use tiktok_re_embed::pipeline::MessageAction;
use tiktok_re_embed::pipeline::PipelineError;
use tiktok_re_embed::pipeline::EMBED_COLOR;
use tiktok_re_embed::tiktok::ApiResponse;
use tiktok_re_embed::tiktok::ApiVideo;
use tiktok_re_embed::tiktok::Aweme;
use tiktok_re_embed::tiktok::PlayAddr;
use tiktok_re_embed::tiktok::Tiktok;
use tiktok_re_embed::tiktok::VideoAuthor;
use tiktok_re_embed::tiktok::VideoStatistics;

fn envelope(id: &str) -> ApiResponse {
    ApiResponse {
        aweme_list: vec![Aweme {
            id: String::from(id),
            desc: String::from("a very good video"),
            author: VideoAuthor {
                name: String::from("Some User"),
                username: String::from("someuser"),
                avatar_uri: String::from("abc123"),
            },
            video: ApiVideo {
                play_addr: PlayAddr {
                    url_list: vec![
                        String::from("https://cdn.example/play.mp4"),
                        String::from("https://cdn.example/play-alt.mp4"),
                    ],
                },
            },
            statistics: VideoStatistics { likes: 10, comments: 2, views: 300 },
        }],
    }
}

#[test]
fn plain_text_is_ignored() {
    let action = examine_message("just chatting, nothing to see");
    assert!(matches!(action, MessageAction::Ignore));
}

#[test]
fn desktop_link_plans_metadata_fetch() {
    let action =
        examine_message("check this out https://www.tiktok.com/@someuser/video/7123456789012345678");
    match action {
        MessageAction::FetchMetadata(id) => assert_eq!(id, "7123456789012345678"),
        _ => panic!("expected a metadata fetch"),
    }
}

#[test]
fn short_link_plans_redirect_probe() {
    let action = examine_message("https://vt.tiktok.com/ZSabcd1234/");
    match action {
        MessageAction::ProbeRedirect(url) => assert_eq!(url, "https://vt.tiktok.com/ZSabcd1234"),
        _ => panic!("expected a redirect probe"),
    }
}

#[test]
fn short_link_takes_precedence_over_desktop_link() {
    let action =
        examine_message("https://tiktok.com/v/1 then https://vm.tiktok.com/Zx9");
    match action {
        MessageAction::ProbeRedirect(url) => assert_eq!(url, "https://vm.tiktok.com/Zx9"),
        _ => panic!("expected a redirect probe"),
    }
}

#[test]
fn redirect_location_yields_target_id() {
    let r = resolve_redirect(Some(String::from("https://www.tiktok.com/@x/video/999")));
    assert_eq!(r.unwrap(), "999");
}

#[test]
fn missing_location_is_redirect_failure() {
    let r = resolve_redirect(None);
    assert_eq!(r.unwrap_err(), PipelineError::RedirectFailure);
}

#[test]
fn location_without_video_link_is_redirect_failure() {
    let r = resolve_redirect(Some(String::from("https://www.example.com/gone")));
    assert_eq!(r.unwrap_err(), PipelineError::RedirectFailure);
}

#[test]
fn metadata_envelope_builds_record() {
    let id = String::from("7123456789012345678");
    let t = process_metadata(&id, Some(envelope("7123456789012345678"))).unwrap();
    assert_eq!(t.description, "a very good video");
    assert_eq!(t.video_url, "https://cdn.example/play.mp4");
    assert_eq!(t.author.name, "Some User");
    assert_eq!(t.author.username, "someuser");
    assert_eq!(t.author.avatar_uri, "abc123");
    assert_eq!(t.statistics, VideoStatistics { likes: 10, comments: 2, views: 300 });
}

#[test]
fn metadata_id_mismatch_is_metadata_failure() {
    let id = String::from("222");
    let r = process_metadata(&id, Some(envelope("111")));
    assert_eq!(r.unwrap_err(), PipelineError::MetadataFailure);
}

#[test]
fn metadata_empty_list_is_metadata_failure() {
    let id = String::from("1");
    let r = process_metadata(&id, Some(ApiResponse { aweme_list: vec![] }));
    assert_eq!(r.unwrap_err(), PipelineError::MetadataFailure);
}

#[test]
fn metadata_without_play_urls_is_metadata_failure() {
    let id = String::from("7");
    let mut resp = envelope("7");
    resp.aweme_list[0].video.play_addr.url_list.clear();
    let r = process_metadata(&id, Some(resp));
    assert_eq!(r.unwrap_err(), PipelineError::MetadataFailure);
}

#[test]
fn failed_metadata_fetch_is_metadata_failure() {
    let id = String::from("7");
    let r = process_metadata(&id, None);
    assert_eq!(r.unwrap_err(), PipelineError::MetadataFailure);
}

#[test]
fn media_payload_passes_through_unchanged() {
    let bytes = vec![0u8, 159, 146, 150];
    let out = process_media(Some(bytes.clone())).unwrap();
    assert_eq!(out, bytes);
}

#[test]
fn failed_media_fetch_is_media_failure() {
    let r = process_media(None);
    assert_eq!(r.unwrap_err(), PipelineError::MediaFetchFailure);
}

#[test]
fn avatar_url_uses_cdn_template() {
    let author = VideoAuthor {
        name: String::from("Some User"),
        username: String::from("someuser"),
        avatar_uri: String::from("abc123"),
    };
    assert_eq!(author.avatar_url(), "https://p16-amd-va.tiktokcdn.com/origin/abc123.jpeg");
}

#[test]
fn feed_url_is_host_path_and_id() {
    assert_eq!(
        feed_url("api22-normal-c-useast2a.tiktokv.com", "7123456789012345678"),
        "https://api22-normal-c-useast2a.tiktokv.com/aweme/v1/feed/?aweme_id=7123456789012345678"
    );
}

#[test]
fn failure_reaction_is_the_fixed_cross() {
    assert_eq!(failure_reaction(), "\u{274C}");
}

#[test]
fn reply_carries_file_embed_and_flags() {
    let id = String::from("7123456789012345678");
    let t = process_metadata(&id, Some(envelope("7123456789012345678"))).unwrap();
    let media = vec![1u8, 2, 3, 4];
    let reply = compose_reply(&id, &t, media.clone());
    assert_eq!(reply.file_name, "7123456789012345678.mp4");
    assert_eq!(reply.file_data, media);
    assert_eq!(reply.embed.author_name, "Some User (@someuser)");
    assert_eq!(reply.embed.author_url, "https://tiktok.com/@someuser");
    assert_eq!(
        reply.embed.author_icon_url,
        "https://p16-amd-va.tiktokcdn.com/origin/abc123.jpeg"
    );
    assert_eq!(reply.embed.description, "a very good video");
    assert_eq!(reply.embed.likes, 10);
    assert_eq!(reply.embed.comments, 2);
    assert_eq!(reply.embed.views, 300);
    assert_eq!(reply.embed.color, 0xF82054);
    assert_eq!(reply.embed.color, EMBED_COLOR);
    assert!(reply.reply_to_original);
    assert!(reply.suppress_notifications);
    assert!(reply.suppress_original_embed);
}

fn run_pipeline(text: &str) -> Option<(String, Tiktok, Vec<u8>)> {
    let id = match examine_message(text) {
        MessageAction::Ignore => return None,
        MessageAction::ProbeRedirect(url) => {
            // The probe's answer is modelled here: the short link redirects to
            // a desktop-form URL.
            assert_eq!(url, "https://vt.tiktok.com/ZSabcd1234");
            resolve_redirect(Some(String::from("https://www.tiktok.com/@x/video/999"))).unwrap()
        }
        MessageAction::FetchMetadata(id) => id,
    };
    let record = process_metadata(&id, Some(envelope(id.as_str()))).unwrap();
    let media = process_media(Some(vec![9u8, 9, 9])).unwrap();
    Some((id.clone(), record, media))
}

#[test]
fn end_to_end_desktop_message() {
    let (id, record, media) =
        run_pipeline("check this out https://www.tiktok.com/@someuser/video/7123456789012345678")
            .unwrap();
    assert_eq!(id, "7123456789012345678");
    let reply = compose_reply(&id, &record, media);
    assert_eq!(reply.file_name, "7123456789012345678.mp4");
    assert_eq!(reply.embed.author_name, "Some User (@someuser)");
    assert_eq!(reply.embed.author_url, "https://tiktok.com/@someuser");
}

#[test]
fn end_to_end_short_message() {
    let (id, record, media) = run_pipeline("https://vt.tiktok.com/ZSabcd1234/").unwrap();
    assert_eq!(id, "999");
    let reply = compose_reply(&id, &record, media);
    assert_eq!(reply.file_name, "999.mp4");
    assert_eq!(reply.embed.color, 0xF82054);
}

#[test]
fn metadata_server_error_aborts_without_reply() {
    // The metadata fetch answers with a server error; the application hands
    // in no envelope, the pipeline reports the failure, and the fixed
    // reaction is what the user sees. No record exists, so no reply can be
    // composed, and later messages are unaffected.
    let id = String::from("7123456789012345678");
    let r = process_metadata(&id, None);
    assert_eq!(r.unwrap_err(), PipelineError::MetadataFailure);
    assert_eq!(failure_reaction(), "\u{274C}");
    assert!(run_pipeline("https://tiktok.com/v/1").is_some());
}

#[test]
fn resending_the_same_text_replies_twice_identically() {
    let text = "again https://www.tiktok.com/@someuser/video/4242";
    let (id1, record1, media1) = run_pipeline(text).unwrap();
    let (id2, record2, media2) = run_pipeline(text).unwrap();
    assert_eq!(id1, id2);
    let reply1 = compose_reply(&id1, &record1, media1);
    let reply2 = compose_reply(&id2, &record2, media2);
    assert_eq!(reply1.file_name, reply2.file_name);
    assert_eq!(reply1.file_data, reply2.file_data);
    assert_eq!(reply1.embed.author_name, reply2.embed.author_name);
    assert_eq!(reply1.embed.description, reply2.embed.description);
}
