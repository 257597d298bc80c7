//! From users, domains and interface names to the entries of the two master
//! tables: one access entry and one registration entry per combination.
//!
//! The tables are ordered by user, then by domain, then by interface name, so
//! that the entry of the combination `(user, domain, interface_name)`, each
//! given by its place in its list, stands at place
//! `(user * domains + domain) * interface_names + interface_name`.

use crate::acl::{
    MasterAccessControlEntry, MasterAccessControlEntryView, MasterRegistrationControlEntry,
    MasterRegistrationControlEntryView,
};
use vstd::arithmetic::div_mod::{
    lemma_div_pos_is_pos, lemma_fundamental_div_mod, lemma_fundamental_div_mod_converse,
    lemma_mod_bound,
};
use vstd::prelude::*;

verus! {

/// The place in a table of the entry for the given combination.
pub open spec fn entry_place(
    user: int,
    domain: int,
    interface_name: int,
    domains: nat,
    interface_names: nat,
) -> int {
    (user * domains + domain) * interface_names + interface_name
}

/// The place in its list of the user whose entry stands at `place`.
pub open spec fn user_at(place: int, domains: nat, interface_names: nat) -> int {
    (place / (interface_names as int)) / (domains as int)
}

/// The place in its list of the domain whose entry stands at `place`.
pub open spec fn domain_at(place: int, domains: nat, interface_names: nat) -> int {
    (place / (interface_names as int)) % (domains as int)
}

/// The place in its list of the interface name whose entry stands at `place`.
pub open spec fn interface_name_at(place: int, interface_names: nat) -> int {
    place % (interface_names as int)
}

/// The number of combinations.
pub open spec fn combinations(users: nat, domains: nat, interface_names: nat) -> nat {
    users * domains * interface_names
}

/// The access entry that stands at `place` of the table for the given names.
pub open spec fn access_entry_at(
    users: Seq<Seq<char>>,
    domains: Seq<Seq<char>>,
    interface_names: Seq<Seq<char>>,
    place: int,
) -> MasterAccessControlEntryView {
    MasterAccessControlEntryView::with_defaults(
        users[user_at(place, domains.len(), interface_names.len())],
        domains[domain_at(place, domains.len(), interface_names.len())],
        interface_names[interface_name_at(place, interface_names.len())],
    )
}

/// The registration entry that stands at `place` of the table for the given
/// names.
pub open spec fn registration_entry_at(
    users: Seq<Seq<char>>,
    domains: Seq<Seq<char>>,
    interface_names: Seq<Seq<char>>,
    place: int,
) -> MasterRegistrationControlEntryView {
    MasterRegistrationControlEntryView::with_defaults(
        users[user_at(place, domains.len(), interface_names.len())],
        domains[domain_at(place, domains.len(), interface_names.len())],
        interface_names[interface_name_at(place, interface_names.len())],
    )
}

/// The master access table for the given names: an entry per combination.
pub open spec fn access_table(
    users: Seq<Seq<char>>,
    domains: Seq<Seq<char>>,
    interface_names: Seq<Seq<char>>,
) -> Seq<MasterAccessControlEntryView> {
    Seq::new(
        combinations(users.len(), domains.len(), interface_names.len()),
        |place: int| access_entry_at(users, domains, interface_names, place),
    )
}

/// The master registration table for the given names: an entry per
/// combination.
pub open spec fn registration_table(
    users: Seq<Seq<char>>,
    domains: Seq<Seq<char>>,
    interface_names: Seq<Seq<char>>,
) -> Seq<MasterRegistrationControlEntryView> {
    Seq::new(
        combinations(users.len(), domains.len(), interface_names.len()),
        |place: int| registration_entry_at(users, domains, interface_names, place),
    )
}

/// The place of a combination determines the combination, and lies within
/// the table.
pub proof fn lemma_entry_place(
    user: int,
    domain: int,
    interface_name: int,
    users: nat,
    domains: nat,
    interface_names: nat,
)
    requires
        0 <= user < users,
        0 <= domain < domains,
        0 <= interface_name < interface_names,
    ensures
        0 <= entry_place(user, domain, interface_name, domains, interface_names) < combinations(
            users,
            domains,
            interface_names,
        ),
        user_at(
            entry_place(user, domain, interface_name, domains, interface_names),
            domains,
            interface_names,
        ) == user,
        domain_at(
            entry_place(user, domain, interface_name, domains, interface_names),
            domains,
            interface_names,
        ) == domain,
        interface_name_at(
            entry_place(user, domain, interface_name, domains, interface_names),
            interface_names,
        ) == interface_name,
{
    let row = user * domains + domain;
    let place = row * interface_names + interface_name;
    lemma_fundamental_div_mod_converse(place, interface_names as int, row, interface_name);
    lemma_fundamental_div_mod_converse(row, domains as int, user, domain);
    assert(0 <= row) by (nonlinear_arith)
        requires
            0 <= user,
            0 <= domain,
            row == user * domains + domain,
    ;
    assert(0 <= place) by (nonlinear_arith)
        requires
            0 <= row,
            0 <= interface_name,
            place == row * interface_names + interface_name,
    ;
    assert(row + 1 <= users * domains) by (nonlinear_arith)
        requires
            0 <= user < users,
            0 <= domain < domains,
            row == user * domains + domain,
    ;
    assert(place < users * domains * interface_names) by (nonlinear_arith)
        requires
            row + 1 <= users * domains,
            0 <= interface_name < interface_names,
            place == row * interface_names + interface_name,
    ;
}

/// Every place of a table is the place of one combination: the user, the
/// domain and the interface name found for it exist, and their combination
/// stands there.
pub proof fn lemma_place_of_entry(place: int, users: nat, domains: nat, interface_names: nat)
    requires
        0 <= place < combinations(users, domains, interface_names),
    ensures
        0 <= user_at(place, domains, interface_names) < users,
        0 <= domain_at(place, domains, interface_names) < domains,
        0 <= interface_name_at(place, interface_names) < interface_names,
        entry_place(
            user_at(place, domains, interface_names),
            domain_at(place, domains, interface_names),
            interface_name_at(place, interface_names),
            domains,
            interface_names,
        ) == place,
{
    let d = domains as int;
    let i = interface_names as int;
    assert(d > 0 && i > 0) by (nonlinear_arith)
        requires
            0 < users * d * i,
            d >= 0,
            i >= 0,
    ;
    let row = place / i;
    lemma_fundamental_div_mod(place, i);
    lemma_mod_bound(place, i);
    lemma_div_pos_is_pos(place, i);
    assert(row < users * d) by (nonlinear_arith)
        requires
            place == i * row + place % i,
            0 <= place % i,
            place < users * d * i,
            i > 0,
    ;
    let user = row / d;
    lemma_fundamental_div_mod(row, d);
    lemma_mod_bound(row, d);
    lemma_div_pos_is_pos(row, d);
    assert(user < users) by (nonlinear_arith)
        requires
            row == d * user + row % d,
            0 <= row % d,
            row < users * d,
            d > 0,
    ;
    assert((user * d + row % d) * i + place % i == place) by (nonlinear_arith)
        requires
            row == d * user + row % d,
            place == i * row + place % i,
    ;
}

/// Whether the two lists are the first `count` entries of the tables for the
/// given names.
spec fn are_first_entries(
    list_of_acl: Seq<MasterAccessControlEntry>,
    list_of_rcl: Seq<MasterRegistrationControlEntry>,
    users: Seq<Seq<char>>,
    domains: Seq<Seq<char>>,
    interface_names: Seq<Seq<char>>,
    count: int,
) -> bool {
    &&& list_of_acl.len() == count
    &&& list_of_rcl.len() == count
    &&& forall|place: int|
        0 <= place < count ==> (#[trigger] list_of_acl[place])@ == access_entry_at(
            users,
            domains,
            interface_names,
            place,
        )
    &&& forall|place: int|
        0 <= place < count ==> (#[trigger] list_of_rcl[place])@ == registration_entry_at(
            users,
            domains,
            interface_names,
            place,
        )
}

/// Generates the two master tables for the given names: for every user,
/// every domain and every interface name, in this order, one access entry
/// and one registration entry.
#[verifier::loop_isolation(false)]
pub fn expand(
    users: &Vec<String>,
    domains: &Vec<String>,
    interface_names: &Vec<String>,
) -> (tables: (Vec<MasterAccessControlEntry>, Vec<MasterRegistrationControlEntry>))
    ensures
        tables.0.deep_view() == access_table(
            users.deep_view(),
            domains.deep_view(),
            interface_names.deep_view(),
        ),
        tables.1.deep_view() == registration_table(
            users.deep_view(),
            domains.deep_view(),
            interface_names.deep_view(),
        ),
        tables.0@.len() == users@.len() * domains@.len() * interface_names@.len(),
        tables.1@.len() == tables.0@.len(),
{
    let ghost all_users = users.deep_view();
    let ghost all_domains = domains.deep_view();
    let ghost all_interface_names = interface_names.deep_view();
    let ghost domain_count = domains@.len();
    let ghost interface_name_count = interface_names@.len();
    let mut list_of_acl: Vec<MasterAccessControlEntry> = Vec::new();
    let mut list_of_rcl: Vec<MasterRegistrationControlEntry> = Vec::new();
    let mut user: usize = 0;
    assert(entry_place(0, 0, 0, domain_count, interface_name_count) == 0) by (nonlinear_arith);
    while user < users.len()
        invariant
            user <= users@.len(),
            are_first_entries(
                list_of_acl@,
                list_of_rcl@,
                all_users,
                all_domains,
                all_interface_names,
                entry_place(user as int, 0, 0, domain_count, interface_name_count),
            ),
        decreases users@.len() - user,
    {
        let mut domain: usize = 0;
        while domain < domains.len()
            invariant
                domain <= domains@.len(),
                are_first_entries(
                    list_of_acl@,
                    list_of_rcl@,
                    all_users,
                    all_domains,
                    all_interface_names,
                    entry_place(user as int, domain as int, 0, domain_count, interface_name_count),
                ),
            decreases domains@.len() - domain,
        {
            let mut interface_name: usize = 0;
            while interface_name < interface_names.len()
                invariant
                    interface_name <= interface_names@.len(),
                    are_first_entries(
                        list_of_acl@,
                        list_of_rcl@,
                        all_users,
                        all_domains,
                        all_interface_names,
                        entry_place(
                            user as int,
                            domain as int,
                            interface_name as int,
                            domain_count,
                            interface_name_count,
                        ),
                    ),
                decreases interface_names@.len() - interface_name,
            {
                proof {
                    lemma_entry_place(
                        user as int,
                        domain as int,
                        interface_name as int,
                        users@.len(),
                        domain_count,
                        interface_name_count,
                    );
                }
                let acl = MasterAccessControlEntry::new(
                    &users[user],
                    &domains[domain],
                    &interface_names[interface_name],
                );
                list_of_acl.push(acl);
                let rcl = MasterRegistrationControlEntry::new(
                    &users[user],
                    &domains[domain],
                    &interface_names[interface_name],
                );
                list_of_rcl.push(rcl);
                interface_name += 1;
            }
            assert(entry_place(
                user as int,
                domain as int,
                interface_name_count as int,
                domain_count,
                interface_name_count,
            ) == entry_place(user as int, domain + 1, 0, domain_count, interface_name_count))
                by (nonlinear_arith);
            domain += 1;
        }
        assert(entry_place(user as int, domain_count as int, 0, domain_count, interface_name_count)
            == entry_place(user + 1, 0, 0, domain_count, interface_name_count))
            by (nonlinear_arith);
        user += 1;
    }
    assert(entry_place(users@.len() as int, 0, 0, domain_count, interface_name_count)
        == users@.len() * domain_count * interface_name_count) by (nonlinear_arith);
    (list_of_acl, list_of_rcl)
}

} // verus!
