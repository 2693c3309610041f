//! Telling a unit's kind from the interfaces its bus object implements.

use std::str::FromStr;
use vstd::prelude::*;

verus! {

/// Interface of service units; carries the `MemoryCurrent` property.
pub const SD_INTERFACE_SERVICE: &'static str = "org.freedesktop.systemd1.Service";

/// Interface of scope units; carries the `MemoryCurrent` property.
pub const SD_INTERFACE_SCOPE: &'static str = "org.freedesktop.systemd1.Scope";

/// The two kinds of unit that keep live memory accounting.
#[derive(Clone, Copy, Debug, PartialEq, Eq, Structural)]
pub enum UnitKind {
    Service,
    Scope,
}

/// The kind that one interface name stands for, if any.
pub open spec fn kind_of_interface(name: Seq<char>) -> Option<UnitKind> {
    if name == SD_INTERFACE_SERVICE@ {
        Some(UnitKind::Service)
    } else if name == SD_INTERFACE_SCOPE@ {
        Some(UnitKind::Scope)
    } else {
        None
    }
}

/// The kind given by the first interface, in the order listed, that names one.
pub open spec fn first_kind(names: Seq<Seq<char>>) -> Option<UnitKind>
    decreases names.len(),
{
    if names.len() == 0 {
        None
    } else {
        match kind_of_interface(names[0]) {
            Some(k) => Some(k),
            None => first_kind(names.drop_first()),
        }
    }
}

/// The names of the `<interface>` elements directly under the root `<node>`
/// of an introspection document, in document order, or `None` where the
/// document cannot be read.
pub uninterp spec fn introspected_interfaces(xml: Seq<char>) -> Option<Seq<Seq<char>>>;

pub open spec fn names_view(v: Seq<String>) -> Seq<Seq<char>> {
    v.map_values(|s: String| s@)
}

pub open spec fn xml_result_view(r: Result<Vec<String>, serde_xml_rs::Error>) -> Option<
    Seq<Seq<char>>,
> {
    match r {
        Ok(v) => Some(names_view(v@)),
        Err(_) => None,
    }
}

/// Relies on `zbus::xml::Node::from_str` (a serde-xml-rs deserialisation) and
/// `Node::interfaces`, which yields the `<interface>` elements in document
/// order; the names are a function of the document alone.
#[verifier::external_body]
fn parse_interface_names(xml: &str) -> (r: Result<Vec<String>, serde_xml_rs::Error>)
    ensures
        xml_result_view(r) == introspected_interfaces(xml@),
{
    let node = zbus::xml::Node::from_str(xml)?;
    Ok(node.interfaces().iter().map(|i| i.name().to_string()).collect())
}

#[verifier::external_type_specification]
#[verifier::external_body]
pub struct ExXmlError(serde_xml_rs::Error);

/// The interface names listed in an introspection document, or `None` where
/// the document cannot be read.
pub fn interface_names(xml: &str) -> (r: Option<Vec<String>>)
    ensures
        match r {
            Some(v) => introspected_interfaces(xml@) == Some(names_view(v@)),
            None => introspected_interfaces(xml@) == None::<Seq<Seq<char>>>,
        },
{
    match parse_interface_names(xml) {
        Ok(v) => Some(v),
        Err(_) => None,
    }
}

/// The kind of a unit whose object implements `names`: the first interface
/// that is the service or the scope interface decides.
pub fn unit_kind_of(names: &Vec<String>) -> (r: Option<UnitKind>)
    ensures
        r == first_kind(names_view(names@)),
{
    let service = SD_INTERFACE_SERVICE.to_owned();
    let scope = SD_INTERFACE_SCOPE.to_owned();
    let ghost all = names_view(names@);
    let mut i: usize = 0;
    assert(all.subrange(0, all.len() as int) =~= all);
    while i < names.len()
        invariant
            i <= names@.len(),
            all == names_view(names@),
            service@ == SD_INTERFACE_SERVICE@,
            scope@ == SD_INTERFACE_SCOPE@,
            first_kind(all) == first_kind(all.subrange(i as int, all.len() as int)),
        decreases names@.len() - i,
    {
        let ghost rest = all.subrange(i as int, all.len() as int);
        assert(rest[0] == names@[i as int]@);
        assert(rest.drop_first() =~= all.subrange(i + 1, all.len() as int));
        if names[i] == service {
            return Some(UnitKind::Service);
        }
        if names[i] == scope {
            return Some(UnitKind::Scope);
        }
        i = i + 1;
    }
    None
}

/// A list that holds the service interface and not the scope interface
/// gives the service kind; the same with the two exchanged.
pub proof fn lemma_single_kind(names: Seq<Seq<char>>, k: UnitKind, other: UnitKind)
    requires
        k != other,
        exists|i: int| 0 <= i < names.len() && kind_of_interface(#[trigger] names[i]) == Some(k),
        forall|i: int|
            0 <= i < names.len() ==> kind_of_interface(#[trigger] names[i]) != Some(other),
    ensures
        first_kind(names) == Some(k),
    decreases names.len(),
{
    let w = choose|i: int| 0 <= i < names.len() && kind_of_interface(#[trigger] names[i]) == Some(k);
    match kind_of_interface(names[0]) {
        Some(j) => {
            assert(j == k) by {
                match j {
                    UnitKind::Service => {},
                    UnitKind::Scope => {},
                }
            }
        },
        None => {
            let rest = names.drop_first();
            assert(rest[w - 1] == names[w]);
            assert forall|i: int| 0 <= i < rest.len() implies kind_of_interface(#[trigger] rest[i])
                != Some(other) by {
                assert(rest[i] == names[i + 1]);
            }
            lemma_single_kind(rest, k, other);
        },
    }
}

/// A list in which no name is the service or the scope interface gives no kind.
pub proof fn lemma_no_kind(names: Seq<Seq<char>>)
    requires
        forall|i: int| 0 <= i < names.len() ==> kind_of_interface(#[trigger] names[i]) == None::<UnitKind>,
    ensures
        first_kind(names) == None::<UnitKind>,
    decreases names.len(),
{
    if names.len() > 0 {
        let rest = names.drop_first();
        assert forall|i: int| 0 <= i < rest.len() implies kind_of_interface(#[trigger] rest[i])
            == None::<UnitKind> by {
            assert(rest[i] == names[i + 1]);
        }
        lemma_no_kind(rest);
    }
}

} // verus!
