use acl_template_generator::acl::{
    AccessStore, MasterAccessControlEntry, MasterRegistrationControlEntry,
};

fn s(text: &str) -> String {
    text.to_string()
}

#[test]
fn access_entry_keeps_the_three_names() {
    let entry = MasterAccessControlEntry::new(&s("alice"), &s("domainA"), &s("ifaceA"));
    assert_eq!(entry.uid(), "alice");
    assert_eq!(entry.domain(), "domainA");
    assert_eq!(entry.interface_name(), "ifaceA");
}

#[test]
fn access_entry_has_fixed_fields() {
    let entry = MasterAccessControlEntry::new(&s("bob"), &s("d"), &s("i"));
    assert_eq!(
        entry.type_tag(),
        "joynr.infrastructure.DacTypes.MasterAccessControlEntry"
    );
    assert_eq!(entry.default_required_trust_level(), "HIGH");
    assert_eq!(entry.possible_required_trust_levels(), &vec![s("HIGH")]);
    assert_eq!(
        entry.default_required_control_entry_change_trust_level(),
        "HIGH"
    );
    assert_eq!(
        entry.possible_required_control_entry_change_trust_levels(),
        &vec![s("HIGH")]
    );
    assert_eq!(entry.operation(), "*");
    assert_eq!(entry.default_consumer_permission(), "YES");
    assert_eq!(
        entry.possible_consumer_permissions(),
        &vec![s("YES"), s("NO")]
    );
}

#[test]
fn registration_entry_keeps_the_three_names() {
    let entry = MasterRegistrationControlEntry::new(&s("alice"), &s("domainA"), &s("ifaceA"));
    assert_eq!(entry.uid(), "alice");
    assert_eq!(entry.domain(), "domainA");
    assert_eq!(entry.interface_name(), "ifaceA");
}

#[test]
fn registration_entry_has_fixed_fields() {
    let entry = MasterRegistrationControlEntry::new(&s("bob"), &s("d"), &s("i"));
    assert_eq!(
        entry.type_tag(),
        "joynr.infrastructure.DacTypes.MasterRegistrationControlEntry"
    );
    assert_eq!(entry.default_required_trust_level(), "HIGH");
    assert_eq!(entry.possible_required_trust_levels(), &vec![s("HIGH")]);
    assert_eq!(
        entry.default_required_control_entry_change_trust_level(),
        "HIGH"
    );
    assert_eq!(
        entry.possible_required_control_entry_change_trust_levels(),
        &vec![s("HIGH")]
    );
    assert_eq!(entry.default_provider_permission(), "YES");
    assert_eq!(
        entry.possible_provider_permissions(),
        &vec![s("YES"), s("NO")]
    );
}

#[test]
fn entries_accept_empty_and_non_ascii_names() {
    let entry = MasterAccessControlEntry::new(&s(""), &s("dömäin"), &s("*"));
    assert_eq!(entry.uid(), "");
    assert_eq!(entry.domain(), "dömäin");
    assert_eq!(entry.interface_name(), "*");
    assert_eq!(entry.operation(), "*");
}

#[test]
fn entries_can_be_printed_for_debugging() {
    let entry = MasterRegistrationControlEntry::new(&s("carol"), &s("d"), &s("i"));
    let text = format!("{:?}", entry);
    assert!(text.contains("carol"));
    assert!(text.contains("MasterRegistrationControlEntry"));
}

#[test]
fn store_keeps_master_tables_in_order() {
    let aces = vec![
        MasterAccessControlEntry::new(&s("u1"), &s("d1"), &s("i1")),
        MasterAccessControlEntry::new(&s("u2"), &s("d2"), &s("i2")),
    ];
    let rces = vec![MasterRegistrationControlEntry::new(&s("u3"), &s("d3"), &s("i3"))];
    let store = AccessStore::new(aces, rces);
    assert_eq!(store.master_access_table.len(), 2);
    assert_eq!(store.master_access_table[0].uid(), "u1");
    assert_eq!(store.master_access_table[1].uid(), "u2");
    assert_eq!(store.master_access_table[1].interface_name(), "i2");
    assert_eq!(store.master_registration_table.len(), 1);
    assert_eq!(store.master_registration_table[0].domain(), "d3");
}

#[test]
fn store_placeholder_tables_are_empty() {
    let aces = vec![MasterAccessControlEntry::new(&s("u"), &s("d"), &s("i"))];
    let rces = vec![MasterRegistrationControlEntry::new(&s("u"), &s("d"), &s("i"))];
    let store = AccessStore::new(aces, rces);
    assert!(store.mediator_access_table().is_empty());
    assert!(store.mediator_registration_table().is_empty());
    assert!(store.owner_access_table().is_empty());
    assert!(store.owner_registration_table().is_empty());
}

#[test]
fn store_of_nothing_is_empty() {
    let store = AccessStore::new(Vec::new(), Vec::new());
    assert!(store.master_access_table.is_empty());
    assert!(store.master_registration_table.is_empty());
}
