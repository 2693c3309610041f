use focus_unit::interfaces::{
    interface_names, unit_kind_of, UnitKind, SD_INTERFACE_SCOPE, SD_INTERFACE_SERVICE,
};

const DOC: &str = r#"<!DOCTYPE node PUBLIC "-//freedesktop//DTD D-BUS Object Introspection 1.0//EN"
 "http://www.freedesktop.org/standards/dbus/1.0/introspect.dtd">
<node>
 <interface name="org.freedesktop.DBus.Peer">
  <method name="Ping"/>
 </interface>
 <interface name="org.freedesktop.systemd1.Unit">
  <property name="Id" type="s" access="read"/>
 </interface>
 <interface name="org.freedesktop.systemd1.Scope">
  <property name="MemoryCurrent" type="t" access="read"/>
 </interface>
</node>
"#;

fn names(list: &[&str]) -> Vec<String> {
    list.iter().map(|s| s.to_string()).collect()
}

#[test]
fn interface_names_in_document_order() {
    assert_eq!(
        interface_names(DOC),
        Some(names(&[
            "org.freedesktop.DBus.Peer",
            "org.freedesktop.systemd1.Unit",
            "org.freedesktop.systemd1.Scope",
        ]))
    );
}

#[test]
fn interface_names_of_unreadable_document() {
    assert_eq!(interface_names("<node><interface name=\"a\">"), None);
    assert_eq!(interface_names("not xml at all"), None);
}

#[test]
fn interface_names_of_empty_node() {
    assert_eq!(interface_names("<node></node>"), Some(vec![]));
}

#[test]
fn kind_of_service_unit() {
    let v = names(&["org.freedesktop.DBus.Properties", "org.freedesktop.systemd1.Unit", SD_INTERFACE_SERVICE]);
    assert_eq!(unit_kind_of(&v), Some(UnitKind::Service));
}

#[test]
fn kind_of_scope_unit() {
    let v = names(&["org.freedesktop.systemd1.Unit", SD_INTERFACE_SCOPE]);
    assert_eq!(unit_kind_of(&v), Some(UnitKind::Scope));
}

#[test]
fn kind_of_other_unit() {
    let v = names(&["org.freedesktop.systemd1.Unit", "org.freedesktop.systemd1.Socket"]);
    assert_eq!(unit_kind_of(&v), None);
    assert_eq!(unit_kind_of(&vec![]), None);
}

#[test]
fn kind_first_listed_wins() {
    let v = names(&[SD_INTERFACE_SCOPE, SD_INTERFACE_SERVICE]);
    assert_eq!(unit_kind_of(&v), Some(UnitKind::Scope));
    let w = names(&[SD_INTERFACE_SERVICE, SD_INTERFACE_SCOPE]);
    assert_eq!(unit_kind_of(&w), Some(UnitKind::Service));
}

#[test]
fn kind_needs_exact_name() {
    let v = names(&["org.freedesktop.systemd1.Services", "org.freedesktop.systemd1.scope"]);
    assert_eq!(unit_kind_of(&v), None);
}
