//! The entries of a permission store and the store itself.
//!
//! Every entry names a user, a domain and an interface, and carries the same
//! fixed trust levels and permissions. The mathematical model of an entry is
//! its view: a record of character sequences, one per field.

use vstd::prelude::*;

verus! {

/// Schema tag of a master access control entry.
pub const ACCESS_ENTRY_TYPE_NAME: &'static str =
    "joynr.infrastructure.DacTypes.MasterAccessControlEntry";

/// Schema tag of a master registration control entry.
pub const REGISTRATION_ENTRY_TYPE_NAME: &'static str =
    "joynr.infrastructure.DacTypes.MasterRegistrationControlEntry";

/// The only trust level that generated entries use.
pub const TRUST_LEVEL_HIGH: &'static str = "HIGH";

/// The operation of every access entry: any operation.
pub const OPERATION_ANY: &'static str = "*";

/// Permission granted.
pub const PERMISSION_YES: &'static str = "YES";

/// Permission denied.
pub const PERMISSION_NO: &'static str = "NO";

/// The trust levels an entry may require: only the high one.
pub open spec fn trust_levels() -> Seq<Seq<char>> {
    seq![TRUST_LEVEL_HIGH@]
}

/// The permissions an entry may take: granted, then denied.
pub open spec fn permissions() -> Seq<Seq<char>> {
    seq![PERMISSION_YES@, PERMISSION_NO@]
}

/// What a master access control entry holds, field by field.
pub struct MasterAccessControlEntryView {
    pub type_tag: Seq<char>,
    pub uid: Seq<char>,
    pub domain: Seq<char>,
    pub interface_name: Seq<char>,
    pub default_required_trust_level: Seq<char>,
    pub possible_required_trust_levels: Seq<Seq<char>>,
    pub default_required_control_entry_change_trust_level: Seq<char>,
    pub possible_required_control_entry_change_trust_levels: Seq<Seq<char>>,
    pub operation: Seq<char>,
    pub default_consumer_permission: Seq<char>,
    pub possible_consumer_permissions: Seq<Seq<char>>,
}

impl MasterAccessControlEntryView {
    /// The access entry for a user, a domain and an interface: the three
    /// names beside the fixed trust levels, operation and permissions.
    pub open spec fn with_defaults(
        uid: Seq<char>,
        domain: Seq<char>,
        interface_name: Seq<char>,
    ) -> Self {
        MasterAccessControlEntryView {
            type_tag: ACCESS_ENTRY_TYPE_NAME@,
            uid,
            domain,
            interface_name,
            default_required_trust_level: TRUST_LEVEL_HIGH@,
            possible_required_trust_levels: trust_levels(),
            default_required_control_entry_change_trust_level: TRUST_LEVEL_HIGH@,
            possible_required_control_entry_change_trust_levels: trust_levels(),
            operation: OPERATION_ANY@,
            default_consumer_permission: PERMISSION_YES@,
            possible_consumer_permissions: permissions(),
        }
    }

    /// True when every field but the three names has its fixed value.
    pub open spec fn has_defaults(self) -> bool {
        self == Self::with_defaults(self.uid, self.domain, self.interface_name)
    }
}

/// What a master registration control entry holds, field by field.
pub struct MasterRegistrationControlEntryView {
    pub type_tag: Seq<char>,
    pub uid: Seq<char>,
    pub domain: Seq<char>,
    pub interface_name: Seq<char>,
    pub default_required_trust_level: Seq<char>,
    pub possible_required_trust_levels: Seq<Seq<char>>,
    pub default_required_control_entry_change_trust_level: Seq<char>,
    pub possible_required_control_entry_change_trust_levels: Seq<Seq<char>>,
    pub default_provider_permission: Seq<char>,
    pub possible_provider_permissions: Seq<Seq<char>>,
}

impl MasterRegistrationControlEntryView {
    /// The registration entry for a user, a domain and an interface: the
    /// three names beside the fixed trust levels and permissions.
    pub open spec fn with_defaults(
        uid: Seq<char>,
        domain: Seq<char>,
        interface_name: Seq<char>,
    ) -> Self {
        MasterRegistrationControlEntryView {
            type_tag: REGISTRATION_ENTRY_TYPE_NAME@,
            uid,
            domain,
            interface_name,
            default_required_trust_level: TRUST_LEVEL_HIGH@,
            possible_required_trust_levels: trust_levels(),
            default_required_control_entry_change_trust_level: TRUST_LEVEL_HIGH@,
            possible_required_control_entry_change_trust_levels: trust_levels(),
            default_provider_permission: PERMISSION_YES@,
            possible_provider_permissions: permissions(),
        }
    }

    /// True when every field but the three names has its fixed value.
    pub open spec fn has_defaults(self) -> bool {
        self == Self::with_defaults(self.uid, self.domain, self.interface_name)
    }
}

/// A list holding the high trust level alone.
fn high_only() -> (levels: Vec<String>)
    ensures
        levels.deep_view() == trust_levels(),
{
    vec![TRUST_LEVEL_HIGH.to_string()]
}

/// A list holding the two permissions, granted first.
fn yes_and_no() -> (list: Vec<String>)
    ensures
        list.deep_view() == permissions(),
{
    vec![PERMISSION_YES.to_string(), PERMISSION_NO.to_string()]
}

/// Grants consumers of one interface in one domain access for one user.
#[derive(Debug)]
pub struct MasterAccessControlEntry {
    type_tag: String,
    uid: String,
    domain: String,
    interface_name: String,
    default_required_trust_level: String,
    possible_required_trust_levels: Vec<String>,
    default_required_control_entry_change_trust_level: String,
    possible_required_control_entry_change_trust_levels: Vec<String>,
    operation: String,
    default_consumer_permission: String,
    possible_consumer_permissions: Vec<String>,
}

impl View for MasterAccessControlEntry {
    type V = MasterAccessControlEntryView;

    closed spec fn view(&self) -> MasterAccessControlEntryView {
        MasterAccessControlEntryView {
            type_tag: self.type_tag@,
            uid: self.uid@,
            domain: self.domain@,
            interface_name: self.interface_name@,
            default_required_trust_level: self.default_required_trust_level@,
            possible_required_trust_levels: self.possible_required_trust_levels.deep_view(),
            default_required_control_entry_change_trust_level:
                self.default_required_control_entry_change_trust_level@,
            possible_required_control_entry_change_trust_levels:
                self.possible_required_control_entry_change_trust_levels.deep_view(),
            operation: self.operation@,
            default_consumer_permission: self.default_consumer_permission@,
            possible_consumer_permissions: self.possible_consumer_permissions.deep_view(),
        }
    }
}

impl DeepView for MasterAccessControlEntry {
    type V = MasterAccessControlEntryView;

    open spec fn deep_view(&self) -> MasterAccessControlEntryView {
        self@
    }
}

impl MasterAccessControlEntry {
    /// Every entry in existence carries the fixed values.
    #[verifier::type_invariant]
    spec fn carries_defaults(&self) -> bool {
        self@.has_defaults()
    }

    /// Builds the access entry for a user, a domain and an interface.
    pub fn new(
        in_uid: &String,
        in_domain: &String,
        in_interface_name: &String,
    ) -> (entry: MasterAccessControlEntry)
        ensures
            entry@ == MasterAccessControlEntryView::with_defaults(
                in_uid@,
                in_domain@,
                in_interface_name@,
            ),
    {
        MasterAccessControlEntry {
            type_tag: ACCESS_ENTRY_TYPE_NAME.to_string(),
            uid: in_uid.clone(),
            domain: in_domain.clone(),
            interface_name: in_interface_name.clone(),
            default_required_trust_level: TRUST_LEVEL_HIGH.to_string(),
            possible_required_trust_levels: high_only(),
            default_required_control_entry_change_trust_level: TRUST_LEVEL_HIGH.to_string(),
            possible_required_control_entry_change_trust_levels: high_only(),
            operation: OPERATION_ANY.to_string(),
            default_consumer_permission: PERMISSION_YES.to_string(),
            possible_consumer_permissions: yes_and_no(),
        }
    }

    /// The tag of the entry's schema.
    pub fn type_tag(&self) -> (tag: &String)
        ensures
            tag@ == self@.type_tag,
            tag@ == ACCESS_ENTRY_TYPE_NAME@,
    {
        proof {
            use_type_invariant(self);
        }
        &self.type_tag
    }

    /// The user that the entry is for.
    pub fn uid(&self) -> (uid: &String)
        ensures
            uid@ == self@.uid,
    {
        &self.uid
    }

    /// The domain that the entry is for.
    pub fn domain(&self) -> (domain: &String)
        ensures
            domain@ == self@.domain,
    {
        &self.domain
    }

    /// The interface that the entry is for.
    pub fn interface_name(&self) -> (interface_name: &String)
        ensures
            interface_name@ == self@.interface_name,
    {
        &self.interface_name
    }

    /// The trust level that the entry requires: the high one.
    pub fn default_required_trust_level(&self) -> (level: &String)
        ensures
            level@ == self@.default_required_trust_level,
            level@ == TRUST_LEVEL_HIGH@,
    {
        proof {
            use_type_invariant(self);
        }
        &self.default_required_trust_level
    }

    /// The trust levels that the entry may require: the high one alone.
    pub fn possible_required_trust_levels(&self) -> (levels: &Vec<String>)
        ensures
            levels.deep_view() == self@.possible_required_trust_levels,
            levels.deep_view() == trust_levels(),
    {
        proof {
            use_type_invariant(self);
        }
        &self.possible_required_trust_levels
    }

    /// The trust level that a change of the entry requires: the high one.
    pub fn default_required_control_entry_change_trust_level(&self) -> (level: &String)
        ensures
            level@ == self@.default_required_control_entry_change_trust_level,
            level@ == TRUST_LEVEL_HIGH@,
    {
        proof {
            use_type_invariant(self);
        }
        &self.default_required_control_entry_change_trust_level
    }

    /// The trust levels that a change of the entry may require: the high one
    /// alone.
    pub fn possible_required_control_entry_change_trust_levels(&self) -> (levels: &Vec<String>)
        ensures
            levels.deep_view() == self@.possible_required_control_entry_change_trust_levels,
            levels.deep_view() == trust_levels(),
    {
        proof {
            use_type_invariant(self);
        }
        &self.possible_required_control_entry_change_trust_levels
    }

    /// The operation that the entry covers: any.
    pub fn operation(&self) -> (operation: &String)
        ensures
            operation@ == self@.operation,
            operation@ == OPERATION_ANY@,
    {
        proof {
            use_type_invariant(self);
        }
        &self.operation
    }

    /// The permission that consumers have: granted.
    pub fn default_consumer_permission(&self) -> (permission: &String)
        ensures
            permission@ == self@.default_consumer_permission,
            permission@ == PERMISSION_YES@,
    {
        proof {
            use_type_invariant(self);
        }
        &self.default_consumer_permission
    }

    /// The permissions that consumers may have: granted or denied.
    pub fn possible_consumer_permissions(&self) -> (list: &Vec<String>)
        ensures
            list.deep_view() == self@.possible_consumer_permissions,
            list.deep_view() == permissions(),
    {
        proof {
            use_type_invariant(self);
        }
        &self.possible_consumer_permissions
    }
}

/// Lets providers of one interface in one domain register for one user.
#[derive(Debug)]
pub struct MasterRegistrationControlEntry {
    type_tag: String,
    uid: String,
    domain: String,
    interface_name: String,
    default_required_trust_level: String,
    possible_required_trust_levels: Vec<String>,
    default_required_control_entry_change_trust_level: String,
    possible_required_control_entry_change_trust_levels: Vec<String>,
    default_provider_permission: String,
    possible_provider_permissions: Vec<String>,
}

impl View for MasterRegistrationControlEntry {
    type V = MasterRegistrationControlEntryView;

    closed spec fn view(&self) -> MasterRegistrationControlEntryView {
        MasterRegistrationControlEntryView {
            type_tag: self.type_tag@,
            uid: self.uid@,
            domain: self.domain@,
            interface_name: self.interface_name@,
            default_required_trust_level: self.default_required_trust_level@,
            possible_required_trust_levels: self.possible_required_trust_levels.deep_view(),
            default_required_control_entry_change_trust_level:
                self.default_required_control_entry_change_trust_level@,
            possible_required_control_entry_change_trust_levels:
                self.possible_required_control_entry_change_trust_levels.deep_view(),
            default_provider_permission: self.default_provider_permission@,
            possible_provider_permissions: self.possible_provider_permissions.deep_view(),
        }
    }
}

impl DeepView for MasterRegistrationControlEntry {
    type V = MasterRegistrationControlEntryView;

    open spec fn deep_view(&self) -> MasterRegistrationControlEntryView {
        self@
    }
}

impl MasterRegistrationControlEntry {
    /// Every entry in existence carries the fixed values.
    #[verifier::type_invariant]
    spec fn carries_defaults(&self) -> bool {
        self@.has_defaults()
    }

    /// Builds the registration entry for a user, a domain and an interface.
    pub fn new(
        in_uid: &String,
        in_domain: &String,
        in_interface_name: &String,
    ) -> (entry: MasterRegistrationControlEntry)
        ensures
            entry@ == MasterRegistrationControlEntryView::with_defaults(
                in_uid@,
                in_domain@,
                in_interface_name@,
            ),
    {
        MasterRegistrationControlEntry {
            type_tag: REGISTRATION_ENTRY_TYPE_NAME.to_string(),
            uid: in_uid.clone(),
            domain: in_domain.clone(),
            interface_name: in_interface_name.clone(),
            default_required_trust_level: TRUST_LEVEL_HIGH.to_string(),
            possible_required_trust_levels: high_only(),
            default_required_control_entry_change_trust_level: TRUST_LEVEL_HIGH.to_string(),
            possible_required_control_entry_change_trust_levels: high_only(),
            default_provider_permission: PERMISSION_YES.to_string(),
            possible_provider_permissions: yes_and_no(),
        }
    }

    /// The tag of the entry's schema.
    pub fn type_tag(&self) -> (tag: &String)
        ensures
            tag@ == self@.type_tag,
            tag@ == REGISTRATION_ENTRY_TYPE_NAME@,
    {
        proof {
            use_type_invariant(self);
        }
        &self.type_tag
    }

    /// The user that the entry is for.
    pub fn uid(&self) -> (uid: &String)
        ensures
            uid@ == self@.uid,
    {
        &self.uid
    }

    /// The domain that the entry is for.
    pub fn domain(&self) -> (domain: &String)
        ensures
            domain@ == self@.domain,
    {
        &self.domain
    }

    /// The interface that the entry is for.
    pub fn interface_name(&self) -> (interface_name: &String)
        ensures
            interface_name@ == self@.interface_name,
    {
        &self.interface_name
    }

    /// The trust level that the entry requires: the high one.
    pub fn default_required_trust_level(&self) -> (level: &String)
        ensures
            level@ == self@.default_required_trust_level,
            level@ == TRUST_LEVEL_HIGH@,
    {
        proof {
            use_type_invariant(self);
        }
        &self.default_required_trust_level
    }

    /// The trust levels that the entry may require: the high one alone.
    pub fn possible_required_trust_levels(&self) -> (levels: &Vec<String>)
        ensures
            levels.deep_view() == self@.possible_required_trust_levels,
            levels.deep_view() == trust_levels(),
    {
        proof {
            use_type_invariant(self);
        }
        &self.possible_required_trust_levels
    }

    /// The trust level that a change of the entry requires: the high one.
    pub fn default_required_control_entry_change_trust_level(&self) -> (level: &String)
        ensures
            level@ == self@.default_required_control_entry_change_trust_level,
            level@ == TRUST_LEVEL_HIGH@,
    {
        proof {
            use_type_invariant(self);
        }
        &self.default_required_control_entry_change_trust_level
    }

    /// The trust levels that a change of the entry may require: the high one
    /// alone.
    pub fn possible_required_control_entry_change_trust_levels(&self) -> (levels: &Vec<String>)
        ensures
            levels.deep_view() == self@.possible_required_control_entry_change_trust_levels,
            levels.deep_view() == trust_levels(),
    {
        proof {
            use_type_invariant(self);
        }
        &self.possible_required_control_entry_change_trust_levels
    }

    /// The permission that providers have: granted.
    pub fn default_provider_permission(&self) -> (permission: &String)
        ensures
            permission@ == self@.default_provider_permission,
            permission@ == PERMISSION_YES@,
    {
        proof {
            use_type_invariant(self);
        }
        &self.default_provider_permission
    }

    /// The permissions that providers may have: granted or denied.
    pub fn possible_provider_permissions(&self) -> (list: &Vec<String>)
        ensures
            list.deep_view() == self@.possible_provider_permissions,
            list.deep_view() == permissions(),
    {
        proof {
            use_type_invariant(self);
        }
        &self.possible_provider_permissions
    }
}

/// What a store holds: the two master tables and four tables that stay empty.
pub struct AccessStoreView {
    pub master_access_table: Seq<MasterAccessControlEntryView>,
    pub master_registration_table: Seq<MasterRegistrationControlEntryView>,
    pub mediator_access_table: Seq<Seq<char>>,
    pub mediator_registration_table: Seq<Seq<char>>,
    pub owner_access_table: Seq<Seq<char>>,
    pub owner_registration_table: Seq<Seq<char>>,
}

impl AccessStoreView {
    /// The store of the given master tables; its other tables are empty.
    pub open spec fn of_master_tables(
        access: Seq<MasterAccessControlEntryView>,
        registration: Seq<MasterRegistrationControlEntryView>,
    ) -> Self {
        AccessStoreView {
            master_access_table: access,
            master_registration_table: registration,
            mediator_access_table: Seq::empty(),
            mediator_registration_table: Seq::empty(),
            owner_access_table: Seq::empty(),
            owner_registration_table: Seq::empty(),
        }
    }
}

/// The document that the permission system reads: the master tables, and the
/// mediator and owner tables, which it expects and which are never filled.
pub struct AccessStore {
    pub master_access_table: Vec<MasterAccessControlEntry>,
    pub master_registration_table: Vec<MasterRegistrationControlEntry>,
    mediator_access_table: Vec<String>,
    mediator_registration_table: Vec<String>,
    owner_access_table: Vec<String>,
    owner_registration_table: Vec<String>,
}

impl View for AccessStore {
    type V = AccessStoreView;

    closed spec fn view(&self) -> AccessStoreView {
        AccessStoreView {
            master_access_table: self.master_access_table.deep_view(),
            master_registration_table: self.master_registration_table.deep_view(),
            mediator_access_table: self.mediator_access_table.deep_view(),
            mediator_registration_table: self.mediator_registration_table.deep_view(),
            owner_access_table: self.owner_access_table.deep_view(),
            owner_registration_table: self.owner_registration_table.deep_view(),
        }
    }
}

impl AccessStore {
    /// Wraps the two master tables into a store, entries and order untouched.
    pub fn new(
        aces: Vec<MasterAccessControlEntry>,
        rces: Vec<MasterRegistrationControlEntry>,
    ) -> (store: AccessStore)
        ensures
            store@ == AccessStoreView::of_master_tables(aces.deep_view(), rces.deep_view()),
    {
        let store = AccessStore {
            master_access_table: aces,
            master_registration_table: rces,
            mediator_access_table: Vec::new(),
            mediator_registration_table: Vec::new(),
            owner_access_table: Vec::new(),
            owner_registration_table: Vec::new(),
        };
        assert(store.mediator_access_table.deep_view() =~= Seq::<Seq<char>>::empty());
        assert(store.mediator_registration_table.deep_view() =~= Seq::<Seq<char>>::empty());
        assert(store.owner_access_table.deep_view() =~= Seq::<Seq<char>>::empty());
        assert(store.owner_registration_table.deep_view() =~= Seq::<Seq<char>>::empty());
        store
    }

    /// The mediator access table, which is empty in every store built here.
    pub fn mediator_access_table(&self) -> (table: &Vec<String>)
        ensures
            table.deep_view() == self@.mediator_access_table,
    {
        &self.mediator_access_table
    }

    /// The mediator registration table, which is empty in every store built
    /// here.
    pub fn mediator_registration_table(&self) -> (table: &Vec<String>)
        ensures
            table.deep_view() == self@.mediator_registration_table,
    {
        &self.mediator_registration_table
    }

    /// The owner access table, which is empty in every store built here.
    pub fn owner_access_table(&self) -> (table: &Vec<String>)
        ensures
            table.deep_view() == self@.owner_access_table,
    {
        &self.owner_access_table
    }

    /// The owner registration table, which is empty in every store built
    /// here.
    pub fn owner_registration_table(&self) -> (table: &Vec<String>)
        ensures
            table.deep_view() == self@.owner_registration_table,
    {
        &self.owner_registration_table
    }
}

} // verus!
