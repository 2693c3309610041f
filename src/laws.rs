//! What the exchange yields for each kind of unit and each failure.

use crate::interfaces::{
    first_kind, introspected_interfaces, kind_of_interface, lemma_no_kind, lemma_single_kind,
    UnitKind, SD_INTERFACE_SCOPE, SD_INTERFACE_SERVICE,
};
use crate::query::{next_step, run, Answer, Query, Step, UnitError, UnitInfo};
use vstd::prelude::*;

verus! {

/// A process owned by a service unit: once the manager names the unit's
/// object and its introspection lists the service interface and not the scope
/// interface, the memory counter is read through the service interface, and
/// the exchange ends with the unit's id and exactly the counter that was read.
pub proof fn lemma_service_unit(
    pid: u32,
    path: String,
    xml: String,
    names: Seq<Seq<char>>,
    memory_bytes: u64,
    id: String,
)
    requires
        introspected_interfaces(xml@) == Some(names),
        names.contains(SD_INTERFACE_SERVICE@),
        !names.contains(SD_INTERFACE_SCOPE@),
    ensures
        run(Query::UnitByPid(pid), seq![Answer::Path(path), Answer::Xml(xml)]) == Step::Ask(
            Query::Memory { kind: UnitKind::Service, path },
        ),
        run(
            Query::UnitByPid(pid),
            seq![Answer::Path(path), Answer::Xml(xml), Answer::Memory(memory_bytes), Answer::Id(id)],
        ) == Step::Finished(Ok(UnitInfo { id, memory_bytes })),
{
    let w = choose|i: int| 0 <= i < names.len() && names[i] == SD_INTERFACE_SERVICE@;
    assert(kind_of_interface(names[w]) == Some(UnitKind::Service));
    assert forall|i: int| 0 <= i < names.len() implies kind_of_interface(#[trigger] names[i])
        != Some(UnitKind::Scope) by {
        assert(names[i] != SD_INTERFACE_SCOPE@);
    }
    lemma_single_kind(names, UnitKind::Service, UnitKind::Scope);
    lemma_unit_of_kind(pid, path, xml, names, UnitKind::Service, memory_bytes, id);
}

/// A process owned by a scope unit: the same as for a service unit, through
/// the scope interface.
pub proof fn lemma_scope_unit(
    pid: u32,
    path: String,
    xml: String,
    names: Seq<Seq<char>>,
    memory_bytes: u64,
    id: String,
)
    requires
        introspected_interfaces(xml@) == Some(names),
        names.contains(SD_INTERFACE_SCOPE@),
        !names.contains(SD_INTERFACE_SERVICE@),
    ensures
        run(Query::UnitByPid(pid), seq![Answer::Path(path), Answer::Xml(xml)]) == Step::Ask(
            Query::Memory { kind: UnitKind::Scope, path },
        ),
        run(
            Query::UnitByPid(pid),
            seq![Answer::Path(path), Answer::Xml(xml), Answer::Memory(memory_bytes), Answer::Id(id)],
        ) == Step::Finished(Ok(UnitInfo { id, memory_bytes })),
{
    let w = choose|i: int| 0 <= i < names.len() && names[i] == SD_INTERFACE_SCOPE@;
    assert(names[w] != SD_INTERFACE_SERVICE@);
    assert(kind_of_interface(names[w]) == Some(UnitKind::Scope));
    assert forall|i: int| 0 <= i < names.len() implies kind_of_interface(#[trigger] names[i])
        != Some(UnitKind::Service) by {
        assert(names[i] != SD_INTERFACE_SERVICE@);
    }
    lemma_single_kind(names, UnitKind::Scope, UnitKind::Service);
    lemma_unit_of_kind(pid, path, xml, names, UnitKind::Scope, memory_bytes, id);
}

proof fn lemma_unit_of_kind(
    pid: u32,
    path: String,
    xml: String,
    names: Seq<Seq<char>>,
    kind: UnitKind,
    memory_bytes: u64,
    id: String,
)
    requires
        introspected_interfaces(xml@) == Some(names),
        first_kind(names) == Some(kind),
    ensures
        run(Query::UnitByPid(pid), seq![Answer::Path(path), Answer::Xml(xml)]) == Step::Ask(
            Query::Memory { kind, path },
        ),
        run(
            Query::UnitByPid(pid),
            seq![Answer::Path(path), Answer::Xml(xml), Answer::Memory(memory_bytes), Answer::Id(id)],
        ) == Step::Finished(Ok(UnitInfo { id, memory_bytes })),
{
    let two = seq![Answer::Path(path), Answer::Xml(xml)];
    let four = seq![Answer::Path(path), Answer::Xml(xml), Answer::Memory(memory_bytes), Answer::Id(id)];
    let q1 = Query::Introspect(path);
    let q2 = Query::Memory { kind, path };
    let q3 = Query::Id { path, memory_bytes };
    assert(two.drop_first() =~= seq![Answer::Xml(xml)]);
    assert(two.drop_first().drop_first() =~= Seq::<Answer>::empty());
    assert(run(q2, Seq::<Answer>::empty()) == Step::Ask(q2));
    assert(run(q1, seq![Answer::Xml(xml)]) == Step::Ask(q2));
    let f3 = seq![Answer::Id(id)];
    let f2 = seq![Answer::Memory(memory_bytes), Answer::Id(id)];
    let f1 = seq![Answer::Xml(xml), Answer::Memory(memory_bytes), Answer::Id(id)];
    assert(four.drop_first() =~= f1);
    assert(f1.drop_first() =~= f2);
    assert(f2.drop_first() =~= f3);
    assert(run(q3, f3) == Step::Finished(Ok(UnitInfo { id, memory_bytes })));
    assert(run(q2, f2) == run(q3, f3));
    assert(run(q1, f1) == run(q2, f2));
}

/// A unit whose object lists neither the service nor the scope interface is
/// not supported: the exchange ends in that error, whatever answers follow,
/// and no unit information comes out.
pub proof fn lemma_unsupported_unit(
    pid: u32,
    path: String,
    xml: String,
    names: Seq<Seq<char>>,
    rest: Seq<Answer>,
)
    requires
        introspected_interfaces(xml@) == Some(names),
        !names.contains(SD_INTERFACE_SERVICE@),
        !names.contains(SD_INTERFACE_SCOPE@),
    ensures
        run(Query::UnitByPid(pid), seq![Answer::Path(path), Answer::Xml(xml)] + rest)
            == Step::Finished(Err::<UnitInfo, UnitError>(UnitError::UnsupportedUnitType)),
{
    assert forall|i: int| 0 <= i < names.len() implies kind_of_interface(#[trigger] names[i])
        == None::<UnitKind> by {
        assert(names[i] != SD_INTERFACE_SERVICE@);
        assert(names[i] != SD_INTERFACE_SCOPE@);
    }
    lemma_no_kind(names);
    let all = seq![Answer::Path(path), Answer::Xml(xml)] + rest;
    let q1 = Query::Introspect(path);
    assert(all[0] == Answer::Path(path));
    assert(all.drop_first()[0] == Answer::Xml(xml));
    assert(next_step(q1, Answer::Xml(xml)) == Step::Finished(
        Err::<UnitInfo, UnitError>(UnitError::UnsupportedUnitType),
    ));
    assert(all.drop_first().len() > 0);
    assert(run(q1, all.drop_first()) == Step::Finished(
        Err::<UnitInfo, UnitError>(UnitError::UnsupportedUnitType),
    ));
}

/// A process that no unit owns: the exchange ends in that error at the
/// manager's reply, whatever answers follow.
pub proof fn lemma_no_owning_unit(pid: u32, rest: Seq<Answer>)
    ensures
        run(Query::UnitByPid(pid), seq![Answer::Failed] + rest) == Step::Finished(
            Err::<UnitInfo, UnitError>(UnitError::NoOwningUnit),
        ),
{
    let all = seq![Answer::Failed] + rest;
    assert(all[0] == Answer::Failed);
}

} // verus!
