use submerge::server::config::{parse_u16, parse_usize, AppConfig, EnvValues};
use submerge::server::error::{ApiError, Rejection};
use submerge::server::routes::clash_config::{
    check_template, default_template, effective_template, DEFAULT_TEMPLATE,
};
use submerge::server::routes::combineds::{
    group_members, member_placeholders, plan_rename, valid_combined_name,
};
use submerge::server::routes::config::{
    base64_enabled, base64_setting, check_password_change, config_dto,
};
use submerge::server::routes::is_unique_violation;
use submerge::server::routes::preview::{check_preview_query, PreviewFilter, PreviewQuery};
use submerge::server::routes::sources::{
    check_new_source, parse_kind, read_body, refresh_plan, refresh_report, updated_source,
    SourceDto, UpdateSource,
};
use submerge::server::service::ReadPlan;
use submerge::server::routes::stats::{count_protocols, total_sources};
use submerge::server::routes::subscribe::{parse_format, provider_url, valid_v2ray_format, OutputFormat};
use submerge::server::service::SourceKind;
use submerge::server::web_assets::{mime_for, static_route, trim_leading_slashes, StaticRoute};

#[test]
fn default_template_matches_published_meta_shape() {
    let tpl = default_template();
    assert!(!tpl.contains("proxy-providers:"));
    assert!(!tpl.contains("proxy-groups:"));
    for rule in [
        "RULE-SET,geosite-google,节点选择",
        "RULE-SET,geosite-youtube,节点选择",
        "RULE-SET,geosite-nodeseek,节点选择",
        "RULE-SET,geosite-cn,DIRECT",
        "RULE-SET,geoip-cn,DIRECT",
        "MATCH,节点选择",
    ] {
        assert!(tpl.contains(rule), "missing rule: {rule}");
    }
    assert!(tpl.trim_end().ends_with("MATCH,节点选择"));
}

#[test]
fn template_checks() {
    assert!(check_template(DEFAULT_TEMPLATE).is_ok());
    assert!(check_template("mixed-port: 7890\nmode: rule").is_ok());
    let e = check_template("- a\n- b").unwrap_err();
    assert_eq!(e.status, 400);
    assert_eq!(e.message, "template must be a YAML mapping");
    let e = check_template(": : :").unwrap_err();
    assert!(e.message.starts_with("invalid YAML: "), "{}", e.message);
    assert_eq!(effective_template(None), DEFAULT_TEMPLATE);
    assert_eq!(effective_template(Some("a: 1".into())), "a: 1");
}

#[test]
fn error_constructors() {
    let e = ApiError::internal("boom");
    assert_eq!((e.status, e.code, e.message.as_str()), (500, "internal_error", "boom"));
    let e = ApiError::not_found("x");
    assert_eq!((e.status, e.code), (404, "not_found"));
    let e = ApiError::bad_gateway("x");
    assert_eq!((e.status, e.code), (502, "bad_gateway"));
    let e = ApiError::rejected(Rejection::Json, 415, "Expected request with `Content-Type: application/json`");
    assert_eq!((e.status, e.code), (415, "invalid_json"));
    assert_eq!(ApiError::rejected(Rejection::Path, 400, "x").code, "invalid_path");
    assert_eq!(ApiError::rejected(Rejection::Query, 400, "x").code, "invalid_query");
}

#[test]
fn combined_names() {
    assert!(valid_combined_name("my-sub"));
    assert!(valid_combined_name("grp_1"));
    assert!(!valid_combined_name("bad name!"));
    assert!(!valid_combined_name(""));
    assert!(!valid_combined_name("组合"));
}

#[test]
fn placeholders_for_members() {
    assert_eq!(member_placeholders(1), "?");
    assert_eq!(member_placeholders(3), "?,?,?");
}

#[test]
fn grouping_members_by_combined() {
    let rows = vec![
        (1, "home".to_string(), "t1".to_string()),
        (2, "work".to_string(), "t2".to_string()),
        (3, "empty".to_string(), "t3".to_string()),
    ];
    let pairs = vec![(1, 4), (1, 7), (2, 4)];
    let out = group_members(rows, &pairs);
    assert_eq!(out.len(), 3);
    assert_eq!(out[0].name, "home");
    assert_eq!(out[0].source_ids, vec![4, 7]);
    assert_eq!(out[1].source_ids, vec![4]);
    assert!(out[2].source_ids.is_empty());
    assert_eq!(out[2].created_at, "t3");
}

#[test]
fn renames() {
    let p = plan_rename(None, "grp".into()).unwrap();
    assert_eq!((p.name.as_str(), p.write), ("grp", false));
    let p = plan_rename(Some("grp".into()), "grp".into()).unwrap();
    assert!(!p.write);
    let p = plan_rename(Some("renamed-sub".into()), "grp".into()).unwrap();
    assert_eq!((p.name.as_str(), p.write), ("renamed-sub", true));
    let e = plan_rename(Some("bad name!".into()), "grp".into()).unwrap_err();
    assert_eq!(e.message, "combined name must match [A-Za-z0-9-_]");
}

#[test]
fn unique_violations() {
    assert!(is_unique_violation(Some("UNIQUE constraint failed: combined_subs.name")));
    assert!(!is_unique_violation(Some("FOREIGN KEY constraint failed")));
    assert!(!is_unique_violation(None));
}

#[test]
fn v2ray_output_setting() {
    assert!(base64_enabled(None));
    assert!(base64_enabled(Some("1")));
    assert!(!base64_enabled(Some("0")));
    assert!(base64_enabled(Some("false")));
    assert_eq!(base64_setting(true), "1");
    assert_eq!(base64_setting(false), "0");
    assert_eq!(base64_enabled(Some(base64_setting(false))), false);
}

#[test]
fn password_change_checks() {
    assert_eq!(
        check_password_change(false, "new-password").unwrap_err().message,
        "old password is incorrect"
    );
    assert_eq!(
        check_password_change(true, "short").unwrap_err().message,
        "password must be at least 8 characters"
    );
    assert!(check_password_change(true, "new-password").is_ok());
}

#[test]
fn config_answer() {
    let d = config_dto(Some("admin".into()), None).unwrap();
    assert_eq!(d.username, "admin");
    assert!(d.v2ray_base64);
    assert!(!config_dto(Some("admin".into()), Some("0")).unwrap().v2ray_base64);
    let e = config_dto(None, None).unwrap_err();
    assert_eq!((e.status, e.message.as_str()), (500, "no admin user"));
}

#[test]
fn preview_queries() {
    let q = |c: Option<&str>, k: Option<&str>| PreviewQuery {
        combined: c.map(String::from),
        kind: k.map(String::from),
    };
    assert_eq!(check_preview_query(q(None, None)).unwrap(), PreviewFilter::All);
    assert_eq!(
        check_preview_query(q(Some("grp"), None)).unwrap(),
        PreviewFilter::Combined("grp".into())
    );
    assert_eq!(
        check_preview_query(q(None, Some("single"))).unwrap(),
        PreviewFilter::Kind(SourceKind::Single)
    );
    assert_eq!(
        check_preview_query(q(None, Some("bogus"))).unwrap_err().message,
        "kind must be 'single' or 'remote'"
    );
    assert_eq!(
        check_preview_query(q(Some("grp"), Some("single"))).unwrap_err().message,
        "kind and combined are mutually exclusive"
    );
}

#[test]
fn source_checks() {
    assert_eq!(check_new_source("u", "n", None).unwrap(), SourceKind::Remote);
    assert_eq!(check_new_source("u", "n", Some("single")).unwrap(), SourceKind::Single);
    assert_eq!(
        check_new_source("", "n", Some("bogus")).unwrap_err().message,
        "url and name required"
    );
    assert_eq!(
        check_new_source("u", "n", Some("bogus")).unwrap_err().message,
        "kind must be 'single' or 'remote'"
    );
    assert!(parse_kind(Some("Remote")).is_err());
}

#[test]
fn source_updates() {
    let existing = SourceDto {
        id: 7,
        url: "https://x/sub".into(),
        name: "s".into(),
        kind: "remote".into(),
        enabled: true,
        created_at: "t".into(),
    };
    let d = updated_source(
        existing.clone(),
        UpdateSource { url: None, name: Some("s2".into()), kind: Some("single".into()), enabled: Some(false) },
    )
    .unwrap();
    assert_eq!((d.id, d.url.as_str(), d.name.as_str(), d.kind.as_str(), d.enabled), (7, "https://x/sub", "s2", "single", false));
    assert_eq!(d.created_at, "t");
    let e = updated_source(
        existing,
        UpdateSource { url: None, name: None, kind: Some("bogus".into()), enabled: None },
    )
    .unwrap_err();
    assert_eq!(e.status, 400);
}

#[test]
fn refresh_reports() {
    let r = refresh_report("empty-src".into(), Ok(0));
    assert!(!r.ok);
    assert_eq!(r.reason.as_deref(), Some("no nodes parsed"));
    assert_eq!(r.node_count, None);
    let r = refresh_report("s".into(), Ok(3));
    assert!(r.ok);
    assert_eq!(r.node_count, Some(3));
    let r = refresh_report("s".into(), Err("request failed: x".into()));
    assert!(!r.ok);
    assert_eq!(r.reason.as_deref(), Some("request failed: x"));
}

#[test]
fn fetched_bodies() {
    assert_eq!(read_body(200, "200 OK", b"ss://a").unwrap(), "ss://a");
    assert_eq!(read_body(404, "404 Not Found", b"x").unwrap_err(), "http status 404 Not Found");
    assert_eq!(read_body(200, "200 OK", &[0xff, 0xfe]).unwrap_err(), "body is not valid utf-8");
    let big = vec![b'a'; 16 * 1024 * 1024 + 5];
    assert_eq!(read_body(200, "200 OK", &big).unwrap().len(), 16 * 1024 * 1024);
}

#[test]
fn protocol_counts() {
    let ps: Vec<String> = ["vmess", "ss", "vmess", "trojan", "vmess"].iter().map(|s| s.to_string()).collect();
    let mut t = count_protocols(&ps);
    t.sort();
    assert_eq!(
        t,
        vec![("ss".to_string(), 1), ("trojan".to_string(), 1), ("vmess".to_string(), 3)]
    );
    assert!(count_protocols(&vec![]).is_empty());
    assert_eq!(total_sources(&vec![2, 3]), 5);
    assert_eq!(total_sources(&vec![]), 0);
}

#[test]
fn output_formats() {
    assert_eq!(parse_format(None).unwrap(), OutputFormat::Clash);
    assert_eq!(parse_format(Some("clash")).unwrap(), OutputFormat::Clash);
    assert_eq!(parse_format(Some("YAML")).unwrap(), OutputFormat::Clash);
    assert_eq!(parse_format(Some("V2Ray")).unwrap(), OutputFormat::V2ray);
    assert_eq!(parse_format(Some("base64")).unwrap(), OutputFormat::V2ray);
    assert_eq!(parse_format(Some("singbox")).unwrap(), OutputFormat::Singbox);
    assert_eq!(parse_format(Some("bogus")).unwrap_err().message, "unsupported format");
    assert!(valid_v2ray_format("V2R"));
    assert!(!valid_v2ray_format("clash"));
}

#[test]
fn provider_urls() {
    assert_eq!(
        provider_url(Some("example.com"), "grp").unwrap(),
        "http://example.com/subscribe/grp?format=v2ray"
    );
    assert_eq!(provider_url(None, "grp").unwrap_err().status, 400);
}

#[test]
fn static_routes() {
    assert_eq!(trim_leading_slashes("//admin/x"), "admin/x");
    assert_eq!(trim_leading_slashes("/"), "");
    assert_eq!(static_route("api/nonexistent", None), StaticRoute::ApiNotFound);
    assert_eq!(static_route("sub%61scribe/x", Some("subscribe/x")), StaticRoute::ApiNotFound);
    assert_eq!(static_route("", None), StaticRoute::File("index.html".into()));
    assert_eq!(static_route("assets/app.js", None), StaticRoute::File("assets/app.js".into()));
    assert_eq!(static_route("a/../../etc", None), StaticRoute::Forbidden);
    assert_eq!(mime_for("index.html"), "text/html");
    assert_eq!(mime_for("x.unknownext"), "application/octet-stream");
}

#[test]
fn settings_from_environment() {
    let none = EnvValues {
        port: None,
        database_path: None,
        concurrency: None,
        timeout_secs: None,
        max_nodes: None,
        web_dist: None,
        session_ttl_days: None,
    };
    let c = AppConfig::from_values(none.clone());
    assert_eq!(c.port, 8080);
    assert_eq!(c.db_path, "./submerge.db");
    assert_eq!(c.concurrency, 8);
    assert_eq!(c.timeout_secs, 15);
    assert_eq!(c.max_nodes, 2000);
    assert_eq!(c.web_dist, "./web/dist");
    assert_eq!(c.session_ttl_days, 30);
    let c = AppConfig::from_values(EnvValues {
        port: Some("9000".into()),
        concurrency: Some("x".into()),
        session_ttl_days: Some("0".into()),
        database_path: Some("/data/db".into()),
        ..none
    });
    assert_eq!(c.port, 9000);
    assert_eq!(c.concurrency, 8);
    assert_eq!(c.session_ttl_days, 0);
    assert_eq!(c.db_path, "/data/db");
}

#[test]
fn number_parsing_like_std() {
    for s in ["0", "+7", "65535", "65536", "-1", "", "+", "1 ", "007", "99999999999999999999"] {
        assert_eq!(parse_u16(s), s.parse::<u16>().ok(), "{s:?}");
        assert_eq!(parse_usize(s), s.parse::<usize>().ok(), "{s:?}");
    }
}

#[test]
fn repeated_id_gets_members_once() {
    let rows = vec![(5, "a".to_string(), "t".to_string()), (5, "a".to_string(), "t".to_string())];
    let out = group_members(rows, &vec![(5, 1), (6, 2), (5, 3)]);
    assert_eq!(out[0].source_ids, vec![1, 3]);
    assert!(out[1].source_ids.is_empty());
}

#[test]
fn refresh_reads_single_sources_locally() {
    let mut s = SourceDto {
        id: 1,
        url: "ss://node".to_string(),
        name: "n".to_string(),
        kind: "single".to_string(),
        enabled: true,
        created_at: "now".to_string(),
    };
    assert_eq!(refresh_plan(&s), ReadPlan::Parse("ss://node".to_string()));
    s.kind = "remote".to_string();
    assert_eq!(refresh_plan(&s), ReadPlan::Fetch("ss://node".to_string()));
    s.kind = "other".to_string();
    assert_eq!(refresh_plan(&s), ReadPlan::Fetch("ss://node".to_string()));
}
