//! The members of a dependency: services, or bindings of services, stored as
//! ordered member rows.

use vstd::prelude::*;

use crate::ids::{Uuid, contains_id};
use crate::mapping::{uuid_hyphenated, uuid_text};

verus! {

/// What a dependency links: services, or bindings (each of one service).
#[derive(Debug)]
pub enum DependencyMembers {
    Services { service_ids: Vec<Uuid> },
    Bindings { binding_ids: Vec<Uuid> },
}

/// One stored member row of a dependency.
#[derive(Clone, Copy, Debug, PartialEq, Eq, Structural)]
pub struct MemberRow {
    pub dependency_id: Uuid,
    pub service_id: Uuid,
    pub binding_id: Option<Uuid>,
    pub position: usize,
}

/// `s` with later repeats removed, first occurrences kept in order.
pub open spec fn first_occurrences(s: Seq<Uuid>) -> Seq<Uuid>
    decreases s.len(),
{
    if s.len() == 0 {
        Seq::empty()
    } else {
        let r = first_occurrences(s.drop_last());
        if s.drop_last().contains(s.last()) {
            r
        } else {
            r.push(s.last())
        }
    }
}

proof fn lemma_first_occurrences_contains(s: Seq<Uuid>, x: Uuid)
    ensures
        first_occurrences(s).contains(x) <==> s.contains(x),
    decreases s.len(),
{
    if s.len() > 0 {
        lemma_first_occurrences_contains(s.drop_last(), x);
        if s.last() == x {
            assert(s[s.len() - 1] == x);
        }
        if s.drop_last().contains(x) {
            let i = choose|i: int| 0 <= i < s.drop_last().len() && s.drop_last()[i] == x;
            assert(s[i] == x);
        }
        if s.contains(x) && s.last() != x {
            let i = choose|i: int| 0 <= i < s.len() && s[i] == x;
            assert(s.drop_last()[i] == x);
        }
        let r = first_occurrences(s.drop_last());
        if !s.drop_last().contains(s.last()) {
            if r.push(s.last()).contains(x) && x != s.last() {
                let i = choose|i: int| 0 <= i < r.push(s.last()).len() && r.push(s.last())[i] == x;
                assert(r[i] == x);
            }
            if r.contains(x) {
                let i = choose|i: int| 0 <= i < r.len() && r[i] == x;
                assert(r.push(s.last())[i] == x);
            }
            if x == s.last() {
                assert(r.push(s.last())[r.len() as int] == x);
            }
        }
    }
}

/// The rows that store `members` for `dependency`: distinct services in
/// first-seen order, or bindings in order with the service each belongs to.
pub open spec fn rows_of_services(dependency: Uuid, ids: Seq<Uuid>) -> Seq<MemberRow> {
    Seq::new(
        first_occurrences(ids).len(),
        |i: int| MemberRow { dependency_id: dependency, service_id: first_occurrences(ids)[i], binding_id: None, position: i as usize },
    )
}

pub open spec fn rows_of_bindings(dependency: Uuid, ids: Seq<Uuid>, services: Seq<Uuid>) -> Seq<MemberRow> {
    Seq::new(
        ids.len(),
        |i: int| MemberRow { dependency_id: dependency, service_id: services[i], binding_id: Some(ids[i]), position: i as usize },
    )
}

/// The first binding whose service could not be found, if any.
pub open spec fn first_missing(services: Seq<Option<Uuid>>) -> Option<int> {
    if exists|i: int| 0 <= i < services.len() && services[i] is None {
        Some(choose|i: int| 0 <= i < services.len() && services[i] is None && forall|j: int| 0 <= j < i ==> services[j] is Some)
    } else {
        None
    }
}

/// The member rows of a dependency. For services, repeats are dropped and
/// positions count the distinct services. For bindings, `binding_services`
/// holds the service each binding belongs to (`None` when the binding is
/// missing, which refuses the whole set, naming the first missing binding).
pub fn member_rows(dependency: Uuid, members: &DependencyMembers, binding_services: &Vec<Option<Uuid>>) -> (r: Result<Vec<MemberRow>, String>)
    requires
        members matches DependencyMembers::Bindings { binding_ids } ==> binding_services@.len() == binding_ids@.len(),
    ensures
        match *members {
            DependencyMembers::Services { service_ids } => r matches Ok(rows) && rows@ == rows_of_services(dependency, service_ids@),
            DependencyMembers::Bindings { binding_ids } => match first_missing(binding_services@) {
                Some(i) => r matches Err(m) && m@ == "Binding "@ + uuid_hyphenated(binding_ids@[i].value) + " not found"@,
                None => r matches Ok(rows) && rows@ == rows_of_bindings(
                    dependency,
                    binding_ids@,
                    binding_services@.map_values(|s: Option<Uuid>| s->0),
                ),
            },
        },
{
    match members {
        DependencyMembers::Services { service_ids } => {
            let mut seen: Vec<Uuid> = Vec::new();
            let mut rows: Vec<MemberRow> = Vec::new();
            let mut i: usize = 0;
            while i < service_ids.len()
                invariant
                    i <= service_ids@.len(),
                    seen@ == first_occurrences(service_ids@.take(i as int)),
                    rows@ == rows_of_services(dependency, service_ids@.take(i as int)),
                    seen@.len() < usize::MAX - i || i <= service_ids@.len(),
                decreases service_ids@.len() - i,
            {
                let id = service_ids[i];
                proof {
                    assert(service_ids@.take(i + 1).drop_last() =~= service_ids@.take(i as int));
                    assert(service_ids@.take(i + 1).last() == id);
                    lemma_first_occurrences_contains(service_ids@.take(i as int), id);
                    lemma_first_occurrences_len(service_ids@.take(i as int));
                }
                if !contains_id(&seen, id) {
                    let position = seen.len();
                    seen.push(id);
                    rows.push(MemberRow { dependency_id: dependency, service_id: id, binding_id: None, position });
                    proof {
                        assert(rows@ =~= rows_of_services(dependency, service_ids@.take(i + 1)));
                    }
                } else {
                    proof {
                        assert(rows@ =~= rows_of_services(dependency, service_ids@.take(i + 1)));
                    }
                }
                i = i + 1;
            }
            proof {
                assert(service_ids@.take(i as int) =~= service_ids@);
            }
            Ok(rows)
        },
        DependencyMembers::Bindings { binding_ids } => {
            let mut rows: Vec<MemberRow> = Vec::new();
            let mut i: usize = 0;
            while i < binding_ids.len()
                invariant
                    i <= binding_ids@.len(),
                    binding_services@.len() == binding_ids@.len(),
                    match *members {
                        DependencyMembers::Bindings { binding_ids: b } => b == *binding_ids,
                        _ => false,
                    },
                    forall|j: int| 0 <= j < i ==> (#[trigger] binding_services@[j]) is Some,
                    rows@ == rows_of_bindings(dependency, binding_ids@, binding_services@.map_values(|s: Option<Uuid>| s->0)).take(
                        i as int,
                    ),
                decreases binding_ids@.len() - i,
            {
                match binding_services[i] {
                    Some(service_id) => {
                        rows.push(MemberRow { dependency_id: dependency, service_id, binding_id: Some(binding_ids[i]), position: i });
                        proof {
                            assert(rows@ =~= rows_of_bindings(
                                dependency,
                                binding_ids@,
                                binding_services@.map_values(|s: Option<Uuid>| s->0),
                            ).take(i + 1));
                        }
                    },
                    None => {
                        proof {
                            assert(binding_services@[i as int] is None);
                            let k = choose|k: int|
                                0 <= k < binding_services@.len() && binding_services@[k] is None && forall|j: int|
                                    0 <= j < k ==> binding_services@[j] is Some;
                            assert(0 <= i < binding_services@.len() && binding_services@[i as int] is None && forall|j: int|
                                0 <= j < i ==> binding_services@[j] is Some);
                            if k < i {
                                assert(binding_services@[k] is Some);
                            }
                            if k > i {
                                assert(binding_services@[i as int] is Some);
                            }
                        }
                        let mut m = crate::text::join2("Binding ", uuid_text(binding_ids[i]).as_str());
                        m.append(" not found");
                        return Err(m);
                    },
                }
                i = i + 1;
            }
            proof {
                assert(rows@ =~= rows_of_bindings(dependency, binding_ids@, binding_services@.map_values(|s: Option<Uuid>| s->0)));
                assert(!(exists|j: int| 0 <= j < binding_services@.len() && binding_services@[j] is None));
            }
            Ok(rows)
        },
    }
}

proof fn lemma_first_occurrences_len(s: Seq<Uuid>)
    ensures
        first_occurrences(s).len() <= s.len(),
    decreases s.len(),
{
    if s.len() > 0 {
        lemma_first_occurrences_len(s.drop_last());
    }
}

/// The members a dependency's rows describe, in the variant the dependency
/// already has: the rows' services, or the rows' bindings.
pub fn hydrate_members(variant: &DependencyMembers, rows: &Vec<MemberRow>) -> (r: DependencyMembers)
    ensures
        match *variant {
            DependencyMembers::Services { .. } => r matches DependencyMembers::Services { service_ids } && service_ids@
                == rows@.map_values(|m: MemberRow| m.service_id),
            DependencyMembers::Bindings { .. } => r matches DependencyMembers::Bindings { binding_ids } && binding_ids@
                == bound_ids(rows@),
        },
{
    match variant {
        DependencyMembers::Services { .. } => {
            let mut ids: Vec<Uuid> = Vec::new();
            let mut i: usize = 0;
            while i < rows.len()
                invariant
                    i <= rows@.len(),
                    ids@ == rows@.take(i as int).map_values(|m: MemberRow| m.service_id),
                decreases rows@.len() - i,
            {
                ids.push(rows[i].service_id);
                proof {
                    assert(rows@.take(i + 1).map_values(|m: MemberRow| m.service_id) =~= rows@.take(i as int).map_values(
                        |m: MemberRow| m.service_id,
                    ).push(rows@[i as int].service_id));
                }
                i = i + 1;
            }
            proof {
                assert(rows@.take(i as int) =~= rows@);
            }
            DependencyMembers::Services { service_ids: ids }
        },
        DependencyMembers::Bindings { .. } => {
            let mut ids: Vec<Uuid> = Vec::new();
            let mut i: usize = 0;
            while i < rows.len()
                invariant
                    i <= rows@.len(),
                    ids@ == bound_ids(rows@.take(i as int)),
                decreases rows@.len() - i,
            {
                proof {
                    assert(rows@.take(i + 1).drop_last() =~= rows@.take(i as int));
                }
                if let Some(b) = rows[i].binding_id {
                    ids.push(b);
                }
                i = i + 1;
            }
            proof {
                assert(rows@.take(i as int) =~= rows@);
            }
            DependencyMembers::Bindings { binding_ids: ids }
        },
    }
}

/// The binding ids the rows carry, in order.
pub open spec fn bound_ids(rows: Seq<MemberRow>) -> Seq<Uuid>
    decreases rows.len(),
{
    if rows.len() == 0 {
        Seq::empty()
    } else {
        let r = bound_ids(rows.drop_last());
        match rows.last().binding_id {
            Some(b) => r.push(b),
            None => r,
        }
    }
}

/// Which kind of member a dependency lists.
#[derive(Clone, Copy, Debug, PartialEq, Eq, Structural)]
pub enum MemberKind {
    Service,
    Binding,
}

impl MemberKind {
    pub open spec fn name(self) -> Seq<char> {
        match self {
            MemberKind::Service => "service"@,
            MemberKind::Binding => "binding"@,
        }
    }

    pub open spec fn title(self) -> Seq<char> {
        match self {
            MemberKind::Service => "Service"@,
            MemberKind::Binding => "Binding"@,
        }
    }
}

/// The first member that is missing or on another network than the
/// dependency, with the message refusing it.
pub open spec fn member_problem(kind: MemberKind, dependency_network: Uuid, ids: Seq<Uuid>, networks: Seq<Option<Uuid>>) -> Option<Seq<char>>
    decreases ids.len(),
{
    if ids.len() == 0 || networks.len() == 0 {
        None
    } else {
        match networks[0] {
            None => Some(kind.title() + " "@ + uuid_hyphenated(ids[0].value) + " not found"@),
            Some(n) => if n != dependency_network {
                Some(
                    "Dependency is on network "@ + uuid_hyphenated(dependency_network.value) + ", can't add "@ + kind.name()
                        + " on network "@ + uuid_hyphenated(n.value),
                )
            } else {
                member_problem(kind, dependency_network, ids.drop_first(), networks.drop_first())
            },
        }
    }
}

/// Refuse a dependency whose members are missing or on another network:
/// `networks` holds, for each member id, the network it is on (`None` when it
/// does not exist); the first problem, in order, is reported.
pub fn check_member_networks(kind: MemberKind, dependency_network: Uuid, ids: &Vec<Uuid>, networks: &Vec<Option<Uuid>>) -> (r: Result<(), String>)
    requires
        ids@.len() == networks@.len(),
    ensures
        match (r, member_problem(kind, dependency_network, ids@, networks@)) {
            (Ok(_), None) => true,
            (Err(m), Some(p)) => m@ == p,
            _ => false,
        },
{
    let mut i: usize = 0;
    proof {
        assert(ids@.skip(0) =~= ids@);
        assert(networks@.skip(0) =~= networks@);
    }
    while i < ids.len()
        invariant
            i <= ids@.len(),
            ids@.len() == networks@.len(),
            member_problem(kind, dependency_network, ids@, networks@) == member_problem(
                kind,
                dependency_network,
                ids@.skip(i as int),
                networks@.skip(i as int),
            ),
        decreases ids@.len() - i,
    {
        proof {
            assert(ids@.skip(i as int)[0] == ids@[i as int]);
            assert(networks@.skip(i as int)[0] == networks@[i as int]);
            assert(ids@.skip(i as int).drop_first() =~= ids@.skip(i + 1));
            assert(networks@.skip(i as int).drop_first() =~= networks@.skip(i + 1));
        }
        let title = match kind {
            MemberKind::Service => "Service ",
            MemberKind::Binding => "Binding ",
        };
        let name = match kind {
            MemberKind::Service => "service",
            MemberKind::Binding => "binding",
        };
        proof {
            reveal_strlit("Service ");
            reveal_strlit("Binding ");
            reveal_strlit("Service");
            reveal_strlit("Binding");
            reveal_strlit(" ");
            assert(title@ == kind.title() + " "@);
        }
        match networks[i] {
            None => {
                let mut m = crate::text::join2(title, uuid_text(ids[i]).as_str());
                m.append(" not found");
                return Err(m);
            },
            Some(n) => {
                if n != dependency_network {
                    let mut m = crate::text::join2("Dependency is on network ", uuid_text(dependency_network).as_str());
                    m.append(", can't add ");
                    m.append(name);
                    m.append(" on network ");
                    m.append(uuid_text(n).as_str());
                    return Err(m);
                }
            },
        }
        i = i + 1;
    }
    proof {
        assert(ids@.skip(i as int).len() == 0);
    }
    Ok(())
}

} // verus!
