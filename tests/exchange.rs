use focus_unit::interfaces::UnitKind;
use focus_unit::query::{advance, start, step_for_interfaces, Answer, Query, Step, UnitError, UnitInfo};

fn doc(interfaces: &[&str]) -> String {
    let mut s = String::from("<node>");
    for i in interfaces {
        s.push_str(&format!("<interface name=\"{}\"></interface>", i));
    }
    s.push_str("</node>");
    s
}

fn ask(step: Step) -> Query {
    match step {
        Step::Ask(q) => q,
        Step::Finished(r) => panic!("finished early: {:?}", r),
    }
}

#[test]
fn service_unit_end_to_end() {
    let q = ask(start(4321));
    assert_eq!(q, Query::UnitByPid(4321));
    let q = ask(advance(q, Answer::Path("/unit/42".to_string())));
    assert_eq!(q, Query::Introspect("/unit/42".to_string()));
    let xml = doc(&["org.freedesktop.systemd1.Service", "org.freedesktop.systemd1.Unit"]);
    let q = ask(advance(q, Answer::Xml(xml)));
    assert_eq!(q, Query::Memory { kind: UnitKind::Service, path: "/unit/42".to_string() });
    let q = ask(advance(q, Answer::Memory(10485760)));
    assert_eq!(q, Query::Id { path: "/unit/42".to_string(), memory_bytes: 10485760 });
    let done = advance(q, Answer::Id("app.service".to_string()));
    assert_eq!(
        done,
        Step::Finished(Ok(UnitInfo { id: "app.service".to_string(), memory_bytes: 10485760 }))
    );
}

#[test]
fn scope_unit_end_to_end() {
    let q = ask(advance(ask(start(77)), Answer::Path("/org/freedesktop/systemd1/unit/s".to_string())));
    let xml = doc(&["org.freedesktop.systemd1.Unit", "org.freedesktop.systemd1.Scope"]);
    let q = ask(advance(q, Answer::Xml(xml)));
    assert_eq!(
        q,
        Query::Memory { kind: UnitKind::Scope, path: "/org/freedesktop/systemd1/unit/s".to_string() }
    );
    let q = ask(advance(q, Answer::Memory(0)));
    let done = advance(q, Answer::Id("session-2.scope".to_string()));
    assert_eq!(
        done,
        Step::Finished(Ok(UnitInfo { id: "session-2.scope".to_string(), memory_bytes: 0 }))
    );
}

#[test]
fn memory_is_reported_exactly() {
    let q = Query::Id { path: "/u".to_string(), memory_bytes: u64::MAX };
    assert_eq!(
        advance(q, Answer::Id("x.service".to_string())),
        Step::Finished(Ok(UnitInfo { id: "x.service".to_string(), memory_bytes: u64::MAX }))
    );
}

#[test]
fn pid_without_unit() {
    let q = ask(start(9999));
    assert_eq!(advance(q, Answer::Failed), Step::Finished(Err(UnitError::NoOwningUnit)));
}

#[test]
fn unsupported_unit_type() {
    let q = Query::Introspect("/unit/sock".to_string());
    let xml = doc(&["org.freedesktop.systemd1.Unit", "org.freedesktop.systemd1.Socket"]);
    assert_eq!(advance(q, Answer::Xml(xml)), Step::Finished(Err(UnitError::UnsupportedUnitType)));
}

#[test]
fn unreadable_introspection() {
    let q = Query::Introspect("/unit/42".to_string());
    assert_eq!(
        advance(q, Answer::Xml("<node><interface".to_string())),
        Step::Finished(Err(UnitError::TransportFailure))
    );
    let q = Query::Introspect("/unit/42".to_string());
    assert_eq!(advance(q, Answer::Failed), Step::Finished(Err(UnitError::TransportFailure)));
}

#[test]
fn property_reads_that_fail() {
    let q = Query::Memory { kind: UnitKind::Service, path: "/u".to_string() };
    assert_eq!(advance(q, Answer::Failed), Step::Finished(Err(UnitError::PropertyReadFailure)));
    let q = Query::Id { path: "/u".to_string(), memory_bytes: 5 };
    assert_eq!(advance(q, Answer::Failed), Step::Finished(Err(UnitError::PropertyReadFailure)));
}

#[test]
fn answer_of_wrong_shape() {
    assert_eq!(
        advance(Query::UnitByPid(1), Answer::Memory(3)),
        Step::Finished(Err(UnitError::TransportFailure))
    );
    assert_eq!(
        advance(Query::Memory { kind: UnitKind::Scope, path: "/u".to_string() }, Answer::Id("a".to_string())),
        Step::Finished(Err(UnitError::TransportFailure))
    );
    assert_eq!(
        advance(Query::Id { path: "/u".to_string(), memory_bytes: 1 }, Answer::Path("/v".to_string())),
        Step::Finished(Err(UnitError::TransportFailure))
    );
}

#[test]
fn step_for_listed_interfaces() {
    let v = vec!["org.freedesktop.systemd1.Unit".to_string(), "org.freedesktop.systemd1.Scope".to_string()];
    assert_eq!(
        step_for_interfaces("/p".to_string(), &v),
        Step::Ask(Query::Memory { kind: UnitKind::Scope, path: "/p".to_string() })
    );
    let none: Vec<String> = vec!["org.freedesktop.systemd1.Unit".to_string()];
    assert_eq!(
        step_for_interfaces("/p".to_string(), &none),
        Step::Finished(Err(UnitError::UnsupportedUnitType))
    );
}
