//! The whole generation: resolve the names, expand them into entries, and
//! wrap the entries into a store.

use crate::acl::{AccessStore, AccessStoreView};
use crate::expander::{access_table, expand, registration_table};
use crate::resolver::{
    all_cut_safe, all_long_enough, is_rejection, is_resolution, plain_resolution, resolve, Options,
    ResolveError, ResolvedNames,
};
use vstd::prelude::*;

verus! {

/// The store for the given users and resolved names: the two master tables
/// of all their combinations.
pub open spec fn store_for(
    users: Seq<Seq<char>>,
    domains: Seq<Seq<char>>,
    interface_names: Seq<Seq<char>>,
) -> AccessStoreView {
    AccessStoreView::of_master_tables(
        access_table(users, domains, interface_names),
        registration_table(users, domains, interface_names),
    )
}

/// Whether `store` may be generated from `options`: it is the store for the
/// users and for some resolution of the raw domains and interface names.
pub open spec fn is_generated(options: &Options, store: AccessStoreView) -> bool {
    exists|domains: Seq<Seq<char>>, interface_names: Seq<Seq<char>>|
        {
            &&& is_resolution(
                options.use_wildcards,
                options.rounds(),
                options.include_exact_match,
                options.domains.deep_view(),
                domains,
            )
            &&& is_resolution(
                options.use_wildcards,
                options.rounds(),
                options.include_exact_match,
                options.interface_names.deep_view(),
                interface_names,
            )
            &&& store == #[trigger] store_for(options.users.deep_view(), domains, interface_names)
        }
}

/// Builds the store for `users` and the resolved `names`.
pub fn build_store(users: &Vec<String>, names: &ResolvedNames) -> (store: AccessStore)
    ensures
        store@ == store_for(
            users.deep_view(),
            names.domains.deep_view(),
            names.interface_names.deep_view(),
        ),
{
    let tables = expand(users, &names.domains, &names.interface_names);
    AccessStore::new(tables.0, tables.1)
}

/// Generates the store that `options` describe.
///
/// The names are resolved as [`resolve`] does, and rejected as it rejects
/// them. Without random rounds the store is determined by the options; with
/// them, it is the store for the users and one of the possible resolutions.
pub fn generate(options: &Options) -> (outcome: Result<AccessStore, ResolveError>)
    ensures
        match outcome {
            Ok(store) => {
                &&& is_generated(options, store@)
                &&& store@.master_registration_table.len() == store@.master_access_table.len()
            },
            Err(error) => is_rejection(options, error),
        },
        options.rounds() == 0 ==> (outcome matches Ok(store) && store@ == store_for(
            options.users.deep_view(),
            plain_resolution(
                options.use_wildcards,
                options.include_exact_match,
                options.domains.deep_view(),
            ),
            plain_resolution(
                options.use_wildcards,
                options.include_exact_match,
                options.interface_names.deep_view(),
            ),
        )),
        (outcome matches Err(error) && error is TooShort) <==> (options.rounds() > 0 && !(
            all_long_enough(options.domains.deep_view())
                && all_long_enough(options.interface_names.deep_view())
        )),
        all_cut_safe(options.domains.deep_view()) && all_cut_safe(
            options.interface_names.deep_view(),
        ) ==> !(outcome matches Err(error) && error is SplitCharacter),
        !options.use_wildcards && !options.include_exact_match ==> (outcome matches Ok(store)
            && store@.master_access_table.len() == 0 && store@.master_registration_table.len()
            == 0),
{
    match resolve(options) {
        Ok(names) => {
            let store = build_store(&options.users, &names);
            assert(store@ == store_for(
                options.users.deep_view(),
                names.domains.deep_view(),
                names.interface_names.deep_view(),
            ));
            proof {
                if names.domains@.len() == 0 {
                    let users = options.users@.len();
                    let interface_names = names.interface_names@.len();
                    assert(users * 0 * interface_names == 0) by (nonlinear_arith);
                }
            }
            Ok(store)
        },
        Err(error) => Err(error),
    }
}

} // verus!
