//! Display mappings of the admin UI: protocol colours, source kind labels,
//! subscription paths, toast icons and classes, toast ids.
use vstd::prelude::*;

use crate::text::str_eq;

verus! {

/// The kind of a toast message; the text comes from the caller.
#[derive(Debug, Clone, Copy, PartialEq, Eq, Structural)]
pub enum ToastKind {
    Success,
    Error,
    Info,
}

/// Icon name of a toast kind.
pub open spec fn toast_icon_of(kind: ToastKind) -> Seq<char> {
    match kind {
        ToastKind::Success => "check"@,
        ToastKind::Error => "alert"@,
        ToastKind::Info => "config"@,
    }
}

/// Style class of a toast kind.
pub open spec fn toast_class_of(kind: ToastKind) -> Seq<char> {
    match kind {
        ToastKind::Success => "success"@,
        ToastKind::Error => "error"@,
        ToastKind::Info => "info"@,
    }
}

/// Colour class of a protocol: protocols of one family share a colour.
pub open spec fn proto_class_of(p: Seq<char>) -> Seq<char> {
    if p == "ss"@ || p == "ssr"@ {
        "proto-0"@
    } else if p == "vmess"@ || p == "vless"@ {
        "proto-1"@
    } else if p == "trojan"@ {
        "proto-2"@
    } else if p == "hysteria"@ || p == "hysteria2"@ {
        "proto-3"@
    } else if p == "tuic"@ {
        "proto-4"@
    } else {
        "proto-5"@
    }
}

/// Label of a source kind: `single` is a single node, anything else remote.
pub open spec fn kind_label_of(kind: Seq<char>) -> Seq<char> {
    if kind == "single"@ {
        "单条"@
    } else {
        "远程"@
    }
}

/// Path of a combined subscription in a format, without origin and without
/// URL encoding.
pub open spec fn subscribe_path_of(name: Seq<char>, fmt: Seq<char>) -> Seq<char> {
    "/subscribe/"@ + name + "?format="@ + fmt
}

/// Icon name of a toast kind.
pub fn toast_icon(kind: ToastKind) -> (r: &'static str)
    ensures
        r@ == toast_icon_of(kind),
{
    match kind {
        ToastKind::Success => "check",
        ToastKind::Error => "alert",
        ToastKind::Info => "config",
    }
}

/// Style class of a toast kind.
pub fn toast_class(kind: ToastKind) -> (r: &'static str)
    ensures
        r@ == toast_class_of(kind),
{
    match kind {
        ToastKind::Success => "success",
        ToastKind::Error => "error",
        ToastKind::Info => "info",
    }
}

/// Colour class of a protocol.
pub fn proto_class(protocol: &str) -> (r: &'static str)
    ensures
        r@ == proto_class_of(protocol@),
{
    if str_eq(protocol, "ss") || str_eq(protocol, "ssr") {
        "proto-0"
    } else if str_eq(protocol, "vmess") || str_eq(protocol, "vless") {
        "proto-1"
    } else if str_eq(protocol, "trojan") {
        "proto-2"
    } else if str_eq(protocol, "hysteria") || str_eq(protocol, "hysteria2") {
        "proto-3"
    } else if str_eq(protocol, "tuic") {
        "proto-4"
    } else {
        "proto-5"
    }
}

/// Label of a source kind.
pub fn kind_label(kind: &str) -> (r: &'static str)
    ensures
        r@ == kind_label_of(kind@),
{
    if str_eq(kind, "single") {
        "单条"
    } else {
        "远程"
    }
}

/// Path of a combined subscription in a format.
pub fn subscribe_path(name: &str, fmt: &str) -> (r: String)
    ensures
        r@ == subscribe_path_of(name@, fmt@),
{
    let mut r = String::from_str("/subscribe/");
    r.append(name);
    r.append("?format=");
    r.append(fmt);
    r
}

/// Source of toast ids: hands out 1, 2, 3, ... in turn.
pub struct ToastIdCounter {
    next: u64,
}

impl View for ToastIdCounter {
    type V = nat;

    /// The id that the next call hands out.
    closed spec fn view(&self) -> nat {
        self.next as nat
    }
}

impl ToastIdCounter {
    /// A counter whose first id is 1.
    pub fn new() -> (r: Self)
        ensures
            r@ == 1,
    {
        ToastIdCounter { next: 1 }
    }
}

/// Hands out the next toast id: each call gives the id after the previous one.
pub fn next_toast_id(counter: &mut ToastIdCounter) -> (id: u64)
    requires
        old(counter)@ < u64::MAX,
    ensures
        id == old(counter)@,
        final(counter)@ == old(counter)@ + 1,
{
    let v = counter.next;
    counter.next = v + 1;
    v
}

} // verus!
