use acl_template_generator::names::{byte_length, create_string, try_create_string, WILDCARD};
use acl_template_generator::resolver::{
    find_too_short, resolve, NameKind, Options, ResolveError,
};

fn s(text: &str) -> String {
    text.to_string()
}

fn list(names: &[&str]) -> Vec<String> {
    names.iter().map(|name| name.to_string()).collect()
}

fn options(
    use_wildcards: bool,
    random_entries: bool,
    include_exact_match: bool,
    random_iterations: usize,
    domains: &[&str],
    interface_names: &[&str],
) -> Options {
    Options {
        use_wildcards,
        random_entries,
        include_exact_match,
        random_iterations,
        users: list(&["alice"]),
        domains: list(domains),
        interface_names: list(interface_names),
    }
}

#[test]
fn wildcard_is_a_star() {
    assert_eq!(WILDCARD, "*");
}

#[test]
fn create_string_without_wildcard_copies_the_name() {
    assert_eq!(create_string(false, &s("domain"), 3), "domain");
    assert_eq!(create_string(false, &s("domain"), 0), "domain");
    assert_eq!(create_string(false, &s(""), 0), "");
}

#[test]
fn create_string_without_wildcard_ignores_the_index() {
    assert_eq!(create_string(false, &s("domain"), 100), "domain");
    assert_eq!(create_string(false, &s("é"), 1), "é");
}

#[test]
fn create_string_with_wildcard_cuts_and_appends_a_star() {
    assert_eq!(create_string(true, &s("domain"), 3), "dom*");
    assert_eq!(create_string(true, &s("domain"), 1), "d*");
    assert_eq!(create_string(true, &s("a.b.c"), 4), "a.b.*");
}

#[test]
fn create_string_with_wildcard_at_the_ends() {
    assert_eq!(create_string(true, &s("domain"), 0), "*");
    assert_eq!(create_string(true, &s("domain"), 6), "domain*");
    assert_eq!(create_string(true, &s(""), 0), "*");
}

#[test]
fn create_string_counts_bytes_not_characters() {
    assert_eq!(create_string(true, &s("aé-b"), 1), "a*");
    assert_eq!(create_string(true, &s("aé-b"), 3), "aé*");
    assert_eq!(create_string(true, &s("aé-b"), 4), "aé-*");
}

#[test]
fn try_create_string_agrees_with_create_string_at_cut_points() {
    assert_eq!(try_create_string(true, &s("domain"), 3), Some(s("dom*")));
    assert_eq!(try_create_string(true, &s("domain"), 0), Some(s("*")));
    assert_eq!(try_create_string(true, &s("domain"), 6), Some(s("domain*")));
    assert_eq!(try_create_string(true, &s("aé-b"), 3), Some(s("aé*")));
    assert_eq!(try_create_string(false, &s("domain"), 3), Some(s("domain")));
}

#[test]
fn try_create_string_refuses_a_cut_inside_a_character() {
    assert_eq!(try_create_string(true, &s("aé-b"), 2), None);
    assert_eq!(try_create_string(true, &s("€"), 1), None);
    assert_eq!(try_create_string(true, &s("€"), 2), None);
}

#[test]
fn try_create_string_refuses_a_cut_past_the_end() {
    assert_eq!(try_create_string(true, &s("domain"), 7), None);
    assert_eq!(try_create_string(true, &s(""), 1), None);
}

#[test]
fn try_create_string_without_wildcard_never_refuses() {
    assert_eq!(try_create_string(false, &s("aé-b"), 2), Some(s("aé-b")));
    assert_eq!(try_create_string(false, &s("domain"), 7), Some(s("domain")));
}

#[test]
fn byte_length_counts_bytes() {
    assert_eq!(byte_length(&s("")), 0);
    assert_eq!(byte_length(&s("a")), 1);
    assert_eq!(byte_length(&s("domain")), 6);
    assert_eq!(byte_length(&s("é")), 2);
    assert_eq!(byte_length(&s("€a")), 4);
}

#[test]
fn find_too_short_reports_the_first_short_name() {
    assert_eq!(find_too_short(&list(&["ab", "c", "", "de"])), Some(1));
    assert_eq!(find_too_short(&list(&["", "c"])), Some(0));
    assert_eq!(find_too_short(&list(&["ab", "cd", "e"])), Some(2));
}

#[test]
fn find_too_short_accepts_names_of_two_bytes() {
    assert_eq!(find_too_short(&list(&["ab", "é", "domain"])), None);
    assert_eq!(find_too_short(&list(&[])), None);
}

#[test]
fn closed_gates_resolve_to_nothing() {
    let names = resolve(&options(false, false, false, 10, &["d1", "d2"], &["i1"])).unwrap();
    assert!(names.domains.is_empty());
    assert!(names.interface_names.is_empty());
}

#[test]
fn random_entries_alone_have_no_effect() {
    let names = resolve(&options(false, true, false, 10, &["d1", "d2"], &["i1"])).unwrap();
    assert!(names.domains.is_empty());
    assert!(names.interface_names.is_empty());
    let names = resolve(&options(false, true, true, 10, &["d1", "d2"], &["i1"])).unwrap();
    assert_eq!(names.domains, list(&["d1", "d2"]));
    assert_eq!(names.interface_names, list(&["i1"]));
}

#[test]
fn random_entries_alone_accept_short_names() {
    let names = resolve(&options(false, true, true, 10, &["d", ""], &["i"])).unwrap();
    assert_eq!(names.domains, list(&["d", ""]));
    assert_eq!(names.interface_names, list(&["i"]));
}

#[test]
fn wildcard_alone_resolves_to_a_star() {
    let names = resolve(&options(true, false, false, 10, &["d1", "d2"], &["i1"])).unwrap();
    assert_eq!(names.domains, list(&["*"]));
    assert_eq!(names.interface_names, list(&["*"]));
}

#[test]
fn wildcard_alone_needs_no_raw_names() {
    let names = resolve(&options(true, false, false, 10, &[], &[])).unwrap();
    assert_eq!(names.domains, list(&["*"]));
    assert_eq!(names.interface_names, list(&["*"]));
}

#[test]
fn wildcard_with_exact_match_puts_the_star_first() {
    let names = resolve(&options(true, false, true, 10, &["d1", "d2"], &["i1"])).unwrap();
    assert_eq!(names.domains, list(&["*", "d1", "d2"]));
    assert_eq!(names.interface_names, list(&["*", "i1"]));
}

#[test]
fn exact_match_passes_raw_names_through() {
    let names = resolve(&options(false, false, true, 10, &["d1", "d2"], &["i1", "i2", "i3"]))
        .unwrap();
    assert_eq!(names.domains, list(&["d1", "d2"]));
    assert_eq!(names.interface_names, list(&["i1", "i2", "i3"]));
}

#[test]
fn exact_match_keeps_duplicates_case_and_order() {
    let names = resolve(&options(false, false, true, 0, &["b", "A", "b", "a"], &["x", "x"]))
        .unwrap();
    assert_eq!(names.domains, list(&["b", "A", "b", "a"]));
    assert_eq!(names.interface_names, list(&["x", "x"]));
}

#[test]
fn exact_match_passes_through_beside_random_rounds() {
    let raw_domains = ["domainA", "domainB"];
    let raw_interfaces = ["iface.one", "iface.two", "iface.three"];
    let names = resolve(&options(true, true, true, 7, &raw_domains, &raw_interfaces)).unwrap();
    for raw in raw_domains.iter() {
        assert!(names.domains.iter().any(|name| name == raw));
    }
    for raw in raw_interfaces.iter() {
        assert!(names.interface_names.iter().any(|name| name == raw));
    }
    assert_eq!(names.domains[names.domains.len() - 2..], list(&raw_domains)[..]);
    assert_eq!(
        names.interface_names[names.interface_names.len() - 3..],
        list(&raw_interfaces)[..]
    );
}

#[test]
fn random_rounds_add_one_name_per_raw_name_and_round() {
    let names = resolve(&options(true, true, false, 10, &["domainA", "domainB"], &["ifaceA"]))
        .unwrap();
    assert_eq!(names.domains.len(), 1 + 10 * 2);
    assert_eq!(names.interface_names.len(), 1 + 10 * 1);
    assert_eq!(names.domains[0], "*");
    assert_eq!(names.interface_names[0], "*");
    let names = resolve(&options(true, true, true, 3, &["domainA", "domainB"], &["ifaceA"]))
        .unwrap();
    assert_eq!(names.domains.len(), 1 + 3 * 2 + 2);
    assert_eq!(names.interface_names.len(), 1 + 3 * 1 + 1);
}

#[test]
fn zero_random_rounds_add_nothing() {
    let names = resolve(&options(true, true, true, 0, &["domainA"], &["ifaceA"])).unwrap();
    assert_eq!(names.domains, list(&["*", "domainA"]));
    assert_eq!(names.interface_names, list(&["*", "ifaceA"]));
}

#[test]
fn zero_random_rounds_accept_short_names() {
    let names = resolve(&options(true, true, true, 0, &["d", ""], &["i"])).unwrap();
    assert_eq!(names.domains, list(&["*", "d", ""]));
    assert_eq!(names.interface_names, list(&["*", "i"]));
}

fn is_variant_of(raw: &str, name: &str) -> bool {
    if name == raw {
        return true;
    }
    match name.strip_suffix('*') {
        Some(front) => front.len() + 1 < raw.len() && raw.starts_with(front),
        None => false,
    }
}

#[test]
fn random_names_are_variants_of_their_raw_names_round_by_round() {
    let raw = ["domainA", "other.domain", "xy"];
    let names = resolve(&options(true, true, false, 50, &raw, &["ifaceA"])).unwrap();
    for round in 0..50 {
        for (j, base) in raw.iter().enumerate() {
            let name = &names.domains[1 + round * raw.len() + j];
            assert!(is_variant_of(base, name), "{} from {}", name, base);
        }
    }
}

#[test]
fn random_cut_of_a_two_byte_name_is_at_its_start() {
    let names = resolve(&options(true, true, false, 300, &["ab"], &["cd"])).unwrap();
    for name in names.domains[1..].iter() {
        assert!(name == "ab" || name == "*", "{}", name);
    }
    for name in names.interface_names[1..].iter() {
        assert!(name == "cd" || name == "*", "{}", name);
    }
}

#[test]
fn random_cuts_stay_in_front_of_the_last_byte() {
    let names = resolve(&options(true, true, false, 2000, &["abcdef"], &["uvwxyz"])).unwrap();
    let allowed = ["abcdef", "*", "a*", "ab*", "abc*", "abcd*"];
    let mut seen = vec![false; allowed.len()];
    for name in names.domains[1..].iter() {
        let place = allowed.iter().position(|form| form == name);
        assert!(place.is_some(), "{}", name);
        seen[place.unwrap()] = true;
    }
    assert!(seen.iter().all(|form| *form));
    assert!(names.interface_names[1..].iter().all(|name| name != "uvwxy*"));
    assert!(names.interface_names[1..].iter().any(|name| name == "uvwx*"));
}

#[test]
fn about_half_of_the_random_names_are_full_names() {
    let names = resolve(&options(true, true, false, 2000, &["domainA"], &["ifaceA"])).unwrap();
    let full = names.domains[1..].iter().filter(|name| *name == "domainA").count();
    let cut = names.domains[1..].iter().filter(|name| name.ends_with('*')).count();
    assert_eq!(full + cut, 2000);
    assert!(700 < full && full < 1300, "{}", full);
}

#[test]
fn random_names_of_ascii_never_fail() {
    for _ in 0..20 {
        let outcome = resolve(&options(
            true,
            true,
            true,
            25,
            &["io.joynr.domain", "ab", "a b c"],
            &["vehicle/Radio", "~~"],
        ));
        assert!(outcome.is_ok());
    }
}

#[test]
fn random_names_cut_between_characters_of_two_bytes() {
    let names = resolve(&options(true, true, false, 200, &["aé"], &["bö"])).unwrap();
    for name in names.domains[1..].iter() {
        assert!(name == "aé" || name == "*" || name == "a*", "{}", name);
    }
    assert!(names.domains[1..].iter().any(|name| name == "a*"));
}

#[test]
fn short_domain_is_rejected_where_rounds_take_place() {
    let outcome = resolve(&options(true, true, false, 1, &["domainA", "d", ""], &["ifaceA"]));
    assert_eq!(
        outcome.err(),
        Some(ResolveError::TooShort { kind: NameKind::Domain, index: 1 })
    );
}

#[test]
fn empty_domain_is_rejected_where_rounds_take_place() {
    let outcome = resolve(&options(true, true, true, 5, &[""], &["ifaceA"]));
    assert_eq!(
        outcome.err(),
        Some(ResolveError::TooShort { kind: NameKind::Domain, index: 0 })
    );
}

#[test]
fn short_interface_name_is_rejected_where_rounds_take_place() {
    let outcome = resolve(&options(true, true, false, 1, &["domainA"], &["ifaceA", "ab", "i"]));
    assert_eq!(
        outcome.err(),
        Some(ResolveError::TooShort { kind: NameKind::InterfaceName, index: 2 })
    );
}

#[test]
fn short_domain_is_reported_before_short_interface_name() {
    let outcome = resolve(&options(true, true, false, 1, &["domainA", "d"], &["i"]));
    assert_eq!(
        outcome.err(),
        Some(ResolveError::TooShort { kind: NameKind::Domain, index: 1 })
    );
}

#[test]
fn cut_inside_a_character_is_reported_for_a_domain() {
    let outcome = resolve(&options(true, true, false, 400, &["domainA", "€"], &["ifaceA"]));
    assert_eq!(
        outcome.err(),
        Some(ResolveError::SplitCharacter { kind: NameKind::Domain, index: 1 })
    );
}

#[test]
fn cut_inside_a_character_is_reported_for_an_interface_name() {
    let outcome = resolve(&options(true, true, false, 400, &["domainA"], &["éé"]));
    assert_eq!(
        outcome.err(),
        Some(ResolveError::SplitCharacter { kind: NameKind::InterfaceName, index: 0 })
    );
}

#[test]
fn errors_can_be_compared_copied_and_printed() {
    let error = ResolveError::TooShort { kind: NameKind::Domain, index: 3 };
    let copy = error;
    assert_eq!(error, copy);
    assert_ne!(error, ResolveError::TooShort { kind: NameKind::InterfaceName, index: 3 });
    assert_ne!(error, ResolveError::SplitCharacter { kind: NameKind::Domain, index: 3 });
    assert!(format!("{:?}", error).contains("TooShort"));
}
