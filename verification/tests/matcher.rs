use tiktok_re_embed::matcher::find_desktop_id;
use tiktok_re_embed::matcher::find_mobile_url;

#[test]
fn desktop_embed_form() {
    let id = find_desktop_id("https://www.tiktok.com/embed/12345").unwrap();
    assert_eq!(id, "12345");
}

#[test]
fn desktop_profile_form() {
    let id = find_desktop_id("https://www.tiktok.com/@someuser/video/7123456789012345678").unwrap();
    assert_eq!(id, "7123456789012345678");
}

#[test]
fn desktop_v_form() {
    let id = find_desktop_id("http://m.tiktok.com/v/999").unwrap();
    assert_eq!(id, "999");
}

#[test]
fn desktop_without_subdomain() {
    let id = find_desktop_id("https://tiktok.com/v/42").unwrap();
    assert_eq!(id, "42");
}

#[test]
fn desktop_id_independent_of_subdomain() {
    let forms = [
        "https://www.tiktok.com/@user/video/555",
        "https://m.tiktok.com/@user/video/555",
        "https://tiktok.com/@user/video/555",
    ];
    for text in forms {
        assert_eq!(find_desktop_id(text).unwrap(), "555");
    }
}

#[test]
fn desktop_link_inside_surrounding_text() {
    let id = find_desktop_id(
        "check this out https://www.tiktok.com/@someuser/video/7123456789012345678",
    )
    .unwrap();
    assert_eq!(id, "7123456789012345678");
}

#[test]
fn desktop_digit_run_stops_at_first_non_digit() {
    let id = find_desktop_id("https://www.tiktok.com/@u/video/123abc").unwrap();
    assert_eq!(id, "123");
}

#[test]
fn desktop_handle_with_dots_and_dashes() {
    let id = find_desktop_id("https://www.tiktok.com/@a.b-c_d/video/77").unwrap();
    assert_eq!(id, "77");
}

#[test]
fn desktop_leftmost_link_wins() {
    let id = find_desktop_id("https://tiktok.com/v/1 and https://tiktok.com/v/2").unwrap();
    assert_eq!(id, "1");
}

#[test]
fn desktop_rejects_plain_text() {
    assert!(find_desktop_id("hello world, no links here").is_none());
}

#[test]
fn desktop_rejects_other_hosts_and_shapes() {
    assert!(find_desktop_id("https://example.com/v/123").is_none());
    assert!(find_desktop_id("https://www.tiktok.com/video/123").is_none());
    assert!(find_desktop_id("https://www.tiktok.com/@user/video/").is_none());
    assert!(find_desktop_id("https://www.tiktok.com/@/video/123").is_none());
    assert!(find_desktop_id("ftp://www.tiktok.com/v/123").is_none());
    assert!(find_desktop_id("www.tiktok.com/v/123").is_none());
}

#[test]
fn desktop_does_not_match_short_form() {
    assert!(find_desktop_id("https://vt.tiktok.com/ZSabcd1234/").is_none());
}

#[test]
fn mobile_vt_form_keeps_whole_url() {
    let url = find_mobile_url("https://vt.tiktok.com/ZSabcd1234/").unwrap();
    assert_eq!(url, "https://vt.tiktok.com/ZSabcd1234");
}

#[test]
fn mobile_vm_form() {
    let url = find_mobile_url("look http://vm.tiktok.com/XYZ_9 wow").unwrap();
    assert_eq!(url, "http://vm.tiktok.com/XYZ_9");
}

#[test]
fn mobile_rejects_desktop_form() {
    assert!(find_mobile_url("https://www.tiktok.com/@someuser/video/7123").is_none());
}

#[test]
fn mobile_rejects_empty_code_and_other_subdomains() {
    assert!(find_mobile_url("https://vt.tiktok.com/").is_none());
    assert!(find_mobile_url("https://vx.tiktok.com/abc").is_none());
    assert!(find_mobile_url("no links at all").is_none());
}

#[test]
fn mobile_leftmost_link_wins() {
    let url = find_mobile_url("https://vm.tiktok.com/a https://vt.tiktok.com/b").unwrap();
    assert_eq!(url, "https://vm.tiktok.com/a");
}
