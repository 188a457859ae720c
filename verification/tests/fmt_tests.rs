use submerge::web_core::fmt::{
    kind_label, next_toast_id, proto_class, subscribe_path, toast_class, toast_icon, ToastIdCounter,
    ToastKind,
};

#[test]
fn proto_class_known_protocols() {
    assert_eq!(proto_class("ss"), "proto-0");
    assert_eq!(proto_class("ssr"), "proto-0");
    assert_eq!(proto_class("vmess"), "proto-1");
    assert_eq!(proto_class("vless"), "proto-1");
    assert_eq!(proto_class("trojan"), "proto-2");
    assert_eq!(proto_class("hysteria"), "proto-3");
    assert_eq!(proto_class("hysteria2"), "proto-3");
    assert_eq!(proto_class("tuic"), "proto-4");
}

#[test]
fn proto_class_fallback() {
    assert_eq!(proto_class("wireguard"), "proto-5");
    assert_eq!(proto_class(""), "proto-5");
}

#[test]
fn kind_label_branches() {
    assert_eq!(kind_label("single"), "单条");
    assert_eq!(kind_label("remote"), "远程");
    assert_eq!(kind_label("unknown"), "远程");
}

#[test]
fn subscribe_path_builds() {
    assert_eq!(
        subscribe_path("home", "v2ray"),
        "/subscribe/home?format=v2ray"
    );
    assert_eq!(
        subscribe_path("my sub", "v2ray"),
        "/subscribe/my sub?format=v2ray"
    );
}

#[test]
fn toast_mappings() {
    assert_eq!(toast_icon(ToastKind::Success), "check");
    assert_eq!(toast_icon(ToastKind::Error), "alert");
    assert_eq!(toast_icon(ToastKind::Info), "config");
    assert_eq!(toast_class(ToastKind::Success), "success");
    assert_eq!(toast_class(ToastKind::Error), "error");
    assert_eq!(toast_class(ToastKind::Info), "info");
}

#[test]
fn toast_ids_monotonic() {
    let mut ids = ToastIdCounter::new();
    let a = next_toast_id(&mut ids);
    let b = next_toast_id(&mut ids);
    assert_eq!(b, a + 1);
}

#[test]
fn toast_ids_start_at_one() {
    let mut ids = ToastIdCounter::new();
    assert_eq!(next_toast_id(&mut ids), 1);
    assert_eq!(next_toast_id(&mut ids), 2);
    assert_eq!(next_toast_id(&mut ids), 3);
}
