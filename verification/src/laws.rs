//! What holds of every generation, stated over the models of the names, the
//! tables and the store, and proved once for all inputs.

use crate::acl::{
    AccessStoreView, MasterAccessControlEntryView, MasterRegistrationControlEntryView,
};
use crate::expander::{
    access_table, domain_at, entry_place, interface_name_at, lemma_entry_place,
    lemma_place_of_entry, registration_table, user_at,
};
use crate::generator::{is_generated, store_for};
use crate::resolver::{
    is_resolution, lemma_resolution_holds_raw_names, lemma_resolution_without_rounds,
    random_rounds, Options,
};
use vstd::prelude::*;

verus! {

/// Both master tables hold one entry per combination of a user, a resolved
/// domain and a resolved interface name: as many as the product of the three
/// counts. This holds of empty lists as well, which give empty tables.
pub proof fn lemma_one_entry_per_combination(
    users: Seq<Seq<char>>,
    domains: Seq<Seq<char>>,
    interface_names: Seq<Seq<char>>,
)
    ensures
        access_table(users, domains, interface_names).len() == users.len() * domains.len()
            * interface_names.len(),
        registration_table(users, domains, interface_names).len() == access_table(
            users,
            domains,
            interface_names,
        ).len(),
{
}

/// The tables are ordered by user, then by domain, then by interface name:
/// the entries of the combination of user `user`, domain `domain` and
/// interface name `interface_name` stand at the place that counts the
/// combinations before it, and name these three.
pub proof fn lemma_entry_of_combination(
    users: Seq<Seq<char>>,
    domains: Seq<Seq<char>>,
    interface_names: Seq<Seq<char>>,
    user: int,
    domain: int,
    interface_name: int,
)
    requires
        0 <= user < users.len(),
        0 <= domain < domains.len(),
        0 <= interface_name < interface_names.len(),
    ensures
        0 <= entry_place(user, domain, interface_name, domains.len(), interface_names.len())
            < access_table(users, domains, interface_names).len(),
        access_table(users, domains, interface_names)[entry_place(
            user,
            domain,
            interface_name,
            domains.len(),
            interface_names.len(),
        )] == MasterAccessControlEntryView::with_defaults(
            users[user],
            domains[domain],
            interface_names[interface_name],
        ),
        registration_table(users, domains, interface_names)[entry_place(
            user,
            domain,
            interface_name,
            domains.len(),
            interface_names.len(),
        )] == MasterRegistrationControlEntryView::with_defaults(
            users[user],
            domains[domain],
            interface_names[interface_name],
        ),
{
    lemma_entry_place(
        user,
        domain,
        interface_name,
        users.len(),
        domains.len(),
        interface_names.len(),
    );
}

/// Nothing is invented: the entries at every place of the tables name a user,
/// a domain and an interface name that the lists hold, and both tables name
/// the same three there.
pub proof fn lemma_entries_name_listed_names(
    users: Seq<Seq<char>>,
    domains: Seq<Seq<char>>,
    interface_names: Seq<Seq<char>>,
    place: int,
)
    requires
        0 <= place < access_table(users, domains, interface_names).len(),
    ensures
        users.contains(access_table(users, domains, interface_names)[place].uid),
        domains.contains(access_table(users, domains, interface_names)[place].domain),
        interface_names.contains(
            access_table(users, domains, interface_names)[place].interface_name,
        ),
        registration_table(users, domains, interface_names)[place].uid == access_table(
            users,
            domains,
            interface_names,
        )[place].uid,
        registration_table(users, domains, interface_names)[place].domain == access_table(
            users,
            domains,
            interface_names,
        )[place].domain,
        registration_table(users, domains, interface_names)[place].interface_name
            == access_table(users, domains, interface_names)[place].interface_name,
{
    lemma_place_of_entry(place, users.len(), domains.len(), interface_names.len());
    let user = user_at(place, domains.len(), interface_names.len());
    let domain = domain_at(place, domains.len(), interface_names.len());
    let interface_name = interface_name_at(place, interface_names.len());
    assert(access_table(users, domains, interface_names)[place].uid == users[user]);
    assert(access_table(users, domains, interface_names)[place].domain == domains[domain]);
    assert(access_table(users, domains, interface_names)[place].interface_name
        == interface_names[interface_name]);
}

/// With wildcards, random entries and exact matches all switched off, no name
/// is resolved and no entry is generated, whoever the users are.
pub proof fn lemma_closed_gates_give_nothing(
    random_iterations: nat,
    users: Seq<Seq<char>>,
    raw_domains: Seq<Seq<char>>,
    raw_interface_names: Seq<Seq<char>>,
    domains: Seq<Seq<char>>,
    interface_names: Seq<Seq<char>>,
)
    requires
        is_resolution(
            false,
            random_rounds(false, false, random_iterations),
            false,
            raw_domains,
            domains,
        ),
        is_resolution(
            false,
            random_rounds(false, false, random_iterations),
            false,
            raw_interface_names,
            interface_names,
        ),
    ensures
        domains == Seq::<Seq<char>>::empty(),
        interface_names == Seq::<Seq<char>>::empty(),
        access_table(users, domains, interface_names).len() == 0,
        registration_table(users, domains, interface_names).len() == 0,
{
    lemma_resolution_without_rounds(false, false, raw_domains, domains);
    lemma_resolution_without_rounds(false, false, raw_interface_names, interface_names);
    assert(users.len() * 0 * 0 == 0) by (nonlinear_arith);
}

/// A store generated from options with all three gates closed has empty
/// master tables.
pub proof fn lemma_closed_gates_give_empty_store(options: Options, store: AccessStoreView)
    requires
        !options.use_wildcards,
        !options.random_entries,
        !options.include_exact_match,
        is_generated(&options, store),
    ensures
        store.master_access_table.len() == 0,
        store.master_registration_table.len() == 0,
{
    let (domains, interface_names) = choose|
        domains: Seq<Seq<char>>,
        interface_names: Seq<Seq<char>>,
    |
        {
            &&& is_resolution(
                options.use_wildcards,
                options.rounds(),
                options.include_exact_match,
                options.domains.deep_view(),
                domains,
            )
            &&& is_resolution(
                options.use_wildcards,
                options.rounds(),
                options.include_exact_match,
                options.interface_names.deep_view(),
                interface_names,
            )
            &&& store == #[trigger] store_for(options.users.deep_view(), domains, interface_names)
        };
    lemma_closed_gates_give_nothing(
        options.random_iterations as nat,
        options.users.deep_view(),
        options.domains.deep_view(),
        options.interface_names.deep_view(),
        domains,
        interface_names,
    );
}

/// With wildcards and without random entries, the resolved names are the
/// wildcard `*` alone, followed by the raw names where exact matches are
/// included.
pub proof fn lemma_wildcard_without_random_entries(
    include_exact_match: bool,
    random_iterations: nat,
    raw: Seq<Seq<char>>,
    resolved: Seq<Seq<char>>,
)
    requires
        is_resolution(
            true,
            random_rounds(true, false, random_iterations),
            include_exact_match,
            raw,
            resolved,
        ),
    ensures
        "*"@ == seq!['*'],
        !include_exact_match ==> resolved == seq!["*"@],
        include_exact_match ==> resolved == seq!["*"@] + raw,
{
    reveal_strlit("*");
    lemma_resolution_without_rounds(true, include_exact_match, raw, resolved);
}

/// Where exact matches are included, every raw name is among the resolved
/// names, as it is, whatever the other gates and the random rounds add.
pub proof fn lemma_exact_match_passes_through(
    use_wildcards: bool,
    random_entries: bool,
    random_iterations: nat,
    raw: Seq<Seq<char>>,
    resolved: Seq<Seq<char>>,
)
    requires
        is_resolution(
            use_wildcards,
            random_rounds(use_wildcards, random_entries, random_iterations),
            true,
            raw,
            resolved,
        ),
    ensures
        forall|j: int| 0 <= j < raw.len() ==> resolved.contains(#[trigger] raw[j]),
{
    lemma_resolution_holds_raw_names(
        use_wildcards,
        random_rounds(use_wildcards, random_entries, random_iterations),
        raw,
        resolved,
    );
}

/// Every access entry of a table has the operation `*`, the consumer
/// permission `YES` and the possible consumer permissions `YES` and `NO`;
/// every registration entry has the provider permission `YES` and the
/// possible provider permissions `YES` and `NO`. Both require the trust level
/// `HIGH`, the only possible one, also for changes, and carry the tag of
/// their schema.
pub proof fn lemma_fixed_fields(
    users: Seq<Seq<char>>,
    domains: Seq<Seq<char>>,
    interface_names: Seq<Seq<char>>,
)
    ensures
        forall|place: int|
            #![trigger access_table(users, domains, interface_names)[place]]
            0 <= place < access_table(users, domains, interface_names).len() ==> {
                let entry = access_table(users, domains, interface_names)[place];
                &&& entry.has_defaults()
                &&& entry.type_tag == "joynr.infrastructure.DacTypes.MasterAccessControlEntry"@
                &&& entry.operation == "*"@
                &&& entry.default_consumer_permission == "YES"@
                &&& entry.possible_consumer_permissions == seq!["YES"@, "NO"@]
                &&& entry.default_required_trust_level == "HIGH"@
                &&& entry.possible_required_trust_levels == seq!["HIGH"@]
                &&& entry.default_required_control_entry_change_trust_level == "HIGH"@
                &&& entry.possible_required_control_entry_change_trust_levels == seq!["HIGH"@]
            },
        forall|place: int|
            #![trigger registration_table(users, domains, interface_names)[place]]
            0 <= place < registration_table(users, domains, interface_names).len() ==> {
                let entry = registration_table(users, domains, interface_names)[place];
                &&& entry.has_defaults()
                &&& entry.type_tag
                    == "joynr.infrastructure.DacTypes.MasterRegistrationControlEntry"@
                &&& entry.default_provider_permission == "YES"@
                &&& entry.possible_provider_permissions == seq!["YES"@, "NO"@]
                &&& entry.default_required_trust_level == "HIGH"@
                &&& entry.possible_required_trust_levels == seq!["HIGH"@]
                &&& entry.default_required_control_entry_change_trust_level == "HIGH"@
                &&& entry.possible_required_control_entry_change_trust_levels == seq!["HIGH"@]
            },
{
}

} // verus!
