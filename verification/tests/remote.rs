//! Behaviour of the remote source's verified half: the status mapping and
//! the request paths.

use pluralcache::models::Member;
use pluralcache::origin_api::{
    classify_status, group_members_path, group_path, member_groups_path,
    member_guild_settings_path, member_path, message_path, response_result,
    system_active_switch_path, system_autoproxy_path, system_groups_path,
    system_guild_settings_path, system_members_path, system_path, system_settings_path,
    system_switches_path, switch_path, u64_to_string, HttpOutcome, StatusClass,
};
use pluralcache::provider::ProviderResult;

fn member(id: &str, name: &str) -> Member {
    Member {
        id: id.to_string(),
        uuid: format!("uuid-{id}"),
        name: name.to_string(),
        display_name: None,
        color: None,
        birthday: None,
        pronouns: None,
        avatar_url: None,
        banner: None,
        description: None,
        created: None,
        proxy_tags: vec![],
        keep_proxy: false,
        privacy: None,
    }
}

#[test]
fn transport_failure_is_inconclusive() {
    let r = response_result::<Member>(HttpOutcome::NoResponse);
    assert_eq!(r, ProviderResult::Failed);
}

#[test]
fn server_errors_and_bad_request_are_inconclusive() {
    for status in [500u16, 503, 599, 400] {
        // Even a decodable body does not rescue an error status.
        let r = response_result(HttpOutcome::Response(status, Some(member("m1", "Alex"))));
        assert_eq!(r, ProviderResult::Failed, "status {status}");
    }
}

#[test]
fn not_found_is_authoritative_absence() {
    // A missing member comes back as a 404.
    let r = response_result::<Member>(HttpOutcome::Response(404, None));
    assert_eq!(r, ProviderResult::NotFound);
}

#[test]
fn auth_statuses_are_rejections() {
    for status in [401u16, 403] {
        let r = response_result::<Member>(HttpOutcome::Response(status, None));
        assert_eq!(r, ProviderResult::Unauthorized, "status {status}");
    }
}

#[test]
fn decoded_body_is_success() {
    let m = member("m1", "Alex");
    let r = response_result(HttpOutcome::Response(200, Some(m.clone())));
    assert_eq!(r, ProviderResult::Success(m));
}

#[test]
fn undecodable_body_is_inconclusive() {
    let r = response_result::<Member>(HttpOutcome::Response(200, None));
    assert_eq!(r, ProviderResult::Failed);
}

#[test]
fn unusual_statuses_are_judged_by_their_body() {
    let m = member("m1", "Alex");
    assert_eq!(
        response_result(HttpOutcome::Response(302, Some(m.clone()))),
        ProviderResult::Success(m)
    );
    assert_eq!(
        response_result::<Member>(HttpOutcome::Response(418, None)),
        ProviderResult::Failed
    );
}

#[test]
fn status_classes_match_the_mapping_table() {
    assert_eq!(classify_status(500), StatusClass::Failed);
    assert_eq!(classify_status(599), StatusClass::Failed);
    assert_eq!(classify_status(400), StatusClass::Failed);
    assert_eq!(classify_status(404), StatusClass::NotFound);
    assert_eq!(classify_status(401), StatusClass::Unauthorized);
    assert_eq!(classify_status(403), StatusClass::Unauthorized);
    assert_eq!(classify_status(200), StatusClass::TryBody);
    assert_eq!(classify_status(201), StatusClass::TryBody);
    assert_eq!(classify_status(600), StatusClass::TryBody);
}

#[test]
fn request_paths_match_the_endpoint_table() {
    assert_eq!(system_path("sys"), "/systems/sys");
    assert_eq!(system_settings_path("sys"), "/systems/sys/settings");
    assert_eq!(
        system_guild_settings_path("sys", "gld"),
        "/systems/sys/guilds/gld/settings"
    );
    assert_eq!(system_autoproxy_path("sys"), "/systems/sys/autoproxy");
    assert_eq!(system_members_path("sys"), "/systems/sys/members");
    assert_eq!(member_path("mem"), "/members/mem");
    assert_eq!(member_groups_path("mem"), "/members/mem/groups");
    assert_eq!(
        member_guild_settings_path("mem", "gld"),
        "/members/mem/guilds/gld/settings"
    );
    assert_eq!(
        system_groups_path("sys", true),
        "/systems/sys/groups?with_member=true"
    );
    assert_eq!(
        system_groups_path("sys", false),
        "/systems/sys/groups?with_member=false"
    );
    assert_eq!(group_path("grp"), "/groups/grp");
    assert_eq!(group_members_path("grp"), "/groups/grp/members");
    assert_eq!(
        system_switches_path("sys", "2021-01-01T00:00:00Z", 105),
        "/systems/sys/switches?before=2021-01-01T00:00:00Z&limit=105"
    );
    assert_eq!(
        system_active_switch_path("sys", "sw"),
        "/systems/sys/switches/sw/active"
    );
    assert_eq!(switch_path("sys", "sw"), "/systems/sys/switches/sw");
    assert_eq!(message_path("msg"), "/messages/msg");
}

#[test]
fn decimal_formatting_is_exact() {
    assert_eq!(u64_to_string(0), "0");
    assert_eq!(u64_to_string(7), "7");
    assert_eq!(u64_to_string(10), "10");
    assert_eq!(u64_to_string(105), "105");
    assert_eq!(u64_to_string(18446744073709551615), "18446744073709551615");
}
