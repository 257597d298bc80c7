//! From the raw domains and interface names to the names that entries are
//! generated for.
//!
//! Three gates, each open or closed, add names to a list: the wildcard gate
//! adds `*`; the random gate, which opens only beside the wildcard gate, adds
//! rounds of names derived at random from the raw names; the exact-match
//! gate adds the raw names themselves. Nothing is sorted, folded or dropped.

use crate::names::{
    byte_len, byte_length, derived_name, is_cut_point, is_cut_safe, is_random_cut,
    is_random_variant, lemma_ascii_is_cut_safe, try_create_string, WILDCARD,
};
use crate::random::{random_flag, random_index};
use vstd::arithmetic::div_mod::lemma_fundamental_div_mod_converse;
use vstd::prelude::*;
use vstd::utf8::*;

verus! {

/// What to generate entries for, and which names to derive on the way.
#[derive(Debug)]
pub struct Options {
    /// Adds the wildcard name to the domains and to the interface names.
    pub use_wildcards: bool,
    /// Adds random rounds; takes effect only beside `use_wildcards`.
    pub random_entries: bool,
    /// Adds the raw domains and interface names as they are.
    pub include_exact_match: bool,
    /// The number of random rounds.
    pub random_iterations: usize,
    /// The users, each of which gets an entry per domain and interface name.
    pub users: Vec<String>,
    /// The raw domains.
    pub domains: Vec<String>,
    /// The raw interface names.
    pub interface_names: Vec<String>,
}

/// The number of random rounds that take place: as many as asked for where
/// wildcards are used and random entries are wanted, none elsewhere.
pub open spec fn random_rounds(
    use_wildcards: bool,
    random_entries: bool,
    random_iterations: nat,
) -> nat {
    if use_wildcards && random_entries {
        random_iterations
    } else {
        0
    }
}

impl Options {
    /// The number of random rounds that these options ask for.
    pub open spec fn rounds(&self) -> nat {
        random_rounds(self.use_wildcards, self.random_entries, self.random_iterations as nat)
    }
}

/// The names that entries are generated for.
#[derive(Debug)]
pub struct ResolvedNames {
    /// The resolved domains.
    pub domains: Vec<String>,
    /// The resolved interface names.
    pub interface_names: Vec<String>,
}

/// The list that a rejected name stands in.
#[derive(Debug, Clone, Copy, PartialEq, Eq, Structural)]
pub enum NameKind {
    Domain,
    InterfaceName,
}

/// Why no names could be resolved.
#[derive(Debug, Clone, Copy, PartialEq, Eq, Structural)]
pub enum ResolveError {
    /// Random rounds were asked for and the name at `index` has fewer than
    /// two bytes, so that there is no place to cut it.
    TooShort { kind: NameKind, index: usize },
    /// A random cut of the name at `index` fell inside a character.
    SplitCharacter { kind: NameKind, index: usize },
}

/// The names that the wildcard gate contributes.
pub open spec fn wildcard_part(use_wildcards: bool) -> Seq<Seq<char>> {
    if use_wildcards {
        seq![WILDCARD@]
    } else {
        Seq::empty()
    }
}

/// The names that the exact-match gate contributes.
pub open spec fn exact_part(include_exact_match: bool, raw: Seq<Seq<char>>) -> Seq<Seq<char>> {
    if include_exact_match {
        raw
    } else {
        Seq::empty()
    }
}

/// Whether `round` is one random round over `raw`: one name per raw name, in
/// order, each a random variant of its raw name.
pub open spec fn is_random_round(raw: Seq<Seq<char>>, round: Seq<Seq<char>>) -> bool {
    &&& round.len() == raw.len()
    &&& forall|j: int| 0 <= j < raw.len() ==> is_random_variant(raw[j], #[trigger] round[j])
}

/// Whether `part` is what `rounds` random rounds over `raw` may contribute:
/// round after round, one random variant per raw name.
pub open spec fn is_random_part(raw: Seq<Seq<char>>, rounds: nat, part: Seq<Seq<char>>) -> bool {
    &&& part.len() == rounds * raw.len()
    &&& forall|k: int|
        0 <= k < part.len() ==> is_random_variant(raw[k % (raw.len() as int)], #[trigger] part[k])
}

/// Whether `resolved` is a resolution of `raw`: the wildcard where that gate
/// is open, then `rounds` random rounds, then the raw names where the
/// exact-match gate is open.
pub open spec fn is_resolution(
    use_wildcards: bool,
    rounds: nat,
    include_exact_match: bool,
    raw: Seq<Seq<char>>,
    resolved: Seq<Seq<char>>,
) -> bool {
    let head = wildcard_part(use_wildcards);
    let tail = exact_part(include_exact_match, raw);
    let start = head.len() as int;
    let end = start + rounds * raw.len();
    &&& resolved.len() == end + tail.len()
    &&& resolved.take(start) =~= head
    &&& is_random_part(raw, rounds, resolved.subrange(start, end))
    &&& resolved.skip(end) =~= tail
}

/// The resolution where no random round takes place: the wildcard where that
/// gate is open, then the raw names where the exact-match gate is open.
pub open spec fn plain_resolution(
    use_wildcards: bool,
    include_exact_match: bool,
    raw: Seq<Seq<char>>,
) -> Seq<Seq<char>> {
    wildcard_part(use_wildcards) + exact_part(include_exact_match, raw)
}

/// Whether every name of `raw` is long enough for a random cut: two bytes
/// at least.
pub open spec fn all_long_enough(raw: Seq<Seq<char>>) -> bool {
    forall|j: int| 0 <= j < raw.len() ==> byte_len(#[trigger] raw[j]) >= 2
}

/// Whether `index` is the place of the first name of `raw` that is too short
/// for a random cut.
pub open spec fn is_first_too_short(raw: Seq<Seq<char>>, index: int) -> bool {
    &&& 0 <= index < raw.len()
    &&& byte_len(raw[index]) < 2
    &&& all_long_enough(raw.take(index))
}

/// Whether every name of `raw` can take any cut that may be drawn for it.
pub open spec fn all_cut_safe(raw: Seq<Seq<char>>) -> bool {
    forall|j: int| 0 <= j < raw.len() ==> is_cut_safe(#[trigger] raw[j])
}

/// Whether `error` is a reason to reject `options`.
///
/// Names are rejected only where random rounds take place. A name that is
/// too short is reported by the first such place, domains before interface
/// names. A split character is reported only where all names are long
/// enough, for a name that some cut does split.
pub open spec fn is_rejection(options: &Options, error: ResolveError) -> bool {
    let domains = options.domains.deep_view();
    let interface_names = options.interface_names.deep_view();
    &&& options.rounds() > 0
    &&& match error {
        ResolveError::TooShort { kind: NameKind::Domain, index } => is_first_too_short(
            domains,
            index as int,
        ),
        ResolveError::TooShort { kind: NameKind::InterfaceName, index } => {
            &&& all_long_enough(domains)
            &&& is_first_too_short(interface_names, index as int)
        },
        ResolveError::SplitCharacter { kind: NameKind::Domain, index } => {
            &&& all_long_enough(domains)
            &&& all_long_enough(interface_names)
            &&& index < domains.len()
            &&& !is_cut_safe(domains[index as int])
        },
        ResolveError::SplitCharacter { kind: NameKind::InterfaceName, index } => {
            &&& all_long_enough(domains)
            &&& all_long_enough(interface_names)
            &&& index < interface_names.len()
            &&& !is_cut_safe(interface_names[index as int])
        },
    }
}

/// Finds the first of `names` that is too short for a random cut.
pub fn find_too_short(names: &Vec<String>) -> (found: Option<usize>)
    ensures
        match found {
            Some(index) => is_first_too_short(names.deep_view(), index as int),
            None => all_long_enough(names.deep_view()),
        },
{
    let mut index: usize = 0;
    while index < names.len()
        invariant
            index <= names.len(),
            all_long_enough(names.deep_view().take(index as int)),
        decreases names.len() - index,
    {
        if byte_length(&names[index]) < 2 {
            return Some(index);
        }
        proof {
            let raw = names.deep_view();
            assert forall|j: int| 0 <= j < index + 1 implies byte_len(
                #[trigger] raw.take(index + 1)[j],
            ) >= 2 by {
                if j < index {
                    assert(raw.take(index as int)[j] == raw[j]);
                }
            }
        }
        index += 1;
    }
    assert(names.deep_view().take(index as int) =~= names.deep_view());
    None
}

/// Draws one random round over `raw` and appends it to `resolved`.
///
/// The round fails at the first name whose cut fell inside a character while
/// the wildcard form was drawn, and reports the place of that name.
fn push_random_round(
    raw: &Vec<String>,
    resolved: &mut Vec<String>,
) -> (outcome: Result<(), usize>)
    requires
        all_long_enough(raw.deep_view()),
    ensures
        match outcome {
            Ok(_) => {
                &&& final(resolved)@.len() == old(resolved)@.len() + raw@.len()
                &&& final(resolved).deep_view().take(old(resolved)@.len() as int) =~= old(
                    resolved,
                ).deep_view()
                &&& is_random_round(
                    raw.deep_view(),
                    final(resolved).deep_view().skip(old(resolved)@.len() as int),
                )
            },
            Err(index) => index < raw@.len() && !is_cut_safe(raw.deep_view()[index as int]),
        },
{
    let ghost before = resolved.deep_view();
    let mut j: usize = 0;
    while j < raw.len()
        invariant
            j <= raw@.len(),
            all_long_enough(raw.deep_view()),
            resolved@.len() == before.len() + j,
            resolved.deep_view().take(before.len() as int) =~= before,
            forall|k: int|
                0 <= k < j ==> is_random_variant(
                    raw.deep_view()[k],
                    #[trigger] resolved.deep_view()[before.len() + k],
                ),
        decreases raw@.len() - j,
    {
        let base = &raw[j];
        let ghost so_far = resolved.deep_view();
        assert(base@ == raw.deep_view()[j as int]);
        let add_wildcard = random_flag();
        let cut = random_index(0, byte_length(base) - 1);
        match try_create_string(add_wildcard, base, cut) {
            Some(name) => {
                proof {
                    if !add_wildcard {
                        encode_utf8_valid_utf8(base@);
                        assert(name@ == derived_name(false, base@, 0));
                    }
                }
                resolved.push(name);
                assert(resolved.deep_view() =~= so_far.push(name@));
            },
            None => {
                assert(is_random_cut(base@, cut as int) && !is_cut_point(base@, cut as int));
                return Err(j);
            },
        }
        j += 1;
    }
    proof {
        let round = resolved.deep_view().skip(before.len() as int);
        assert forall|k: int| 0 <= k < raw@.len() implies is_random_variant(
            raw.deep_view()[k],
            #[trigger] round[k],
        ) by {
            assert(round[k] == resolved.deep_view()[before.len() + k]);
        }
    }
    Ok(())
}

/// Appends a copy of every name of `raw` to `resolved`, in order.
fn push_exact(raw: &Vec<String>, resolved: &mut Vec<String>)
    ensures
        final(resolved).deep_view() =~= old(resolved).deep_view() + raw.deep_view(),
{
    let ghost before = resolved.deep_view();
    let mut j: usize = 0;
    while j < raw.len()
        invariant
            j <= raw@.len(),
            resolved.deep_view() =~= before + raw.deep_view().take(j as int),
        decreases raw@.len() - j,
    {
        let ghost so_far = resolved.deep_view();
        let name = raw[j].clone();
        resolved.push(name);
        assert(resolved.deep_view() =~= so_far.push(name@));
        j += 1;
    }
}

/// Resolves the raw domains and interface names of `options` into the names
/// that entries are generated for.
///
/// Each list is resolved alike: the wildcard if wildcards are used; then, if
/// random entries are asked for as well, one random variant of every raw
/// name per round; then the raw names if exact matches are included.
///
/// Where random rounds take place, every raw name needs two bytes at least,
/// and the first that has fewer is reported. A round also fails when a cut
/// falls inside a character; names whose cuts all fall between characters,
/// such as names in ASCII, never fail so.
pub fn resolve(options: &Options) -> (outcome: Result<ResolvedNames, ResolveError>)
    ensures
        match outcome {
            Ok(names) => {
                &&& is_resolution(
                    options.use_wildcards,
                    options.rounds(),
                    options.include_exact_match,
                    options.domains.deep_view(),
                    names.domains.deep_view(),
                )
                &&& is_resolution(
                    options.use_wildcards,
                    options.rounds(),
                    options.include_exact_match,
                    options.interface_names.deep_view(),
                    names.interface_names.deep_view(),
                )
            },
            Err(error) => is_rejection(options, error),
        },
        options.rounds() == 0 ==> (outcome matches Ok(names) && names.domains.deep_view()
            == plain_resolution(
            options.use_wildcards,
            options.include_exact_match,
            options.domains.deep_view(),
        ) && names.interface_names.deep_view() == plain_resolution(
            options.use_wildcards,
            options.include_exact_match,
            options.interface_names.deep_view(),
        )),
        (outcome matches Err(error) && error is TooShort) <==> (options.rounds() > 0 && !(
            all_long_enough(options.domains.deep_view())
                && all_long_enough(options.interface_names.deep_view())
        )),
        all_cut_safe(options.domains.deep_view()) && all_cut_safe(
            options.interface_names.deep_view(),
        ) ==> !(outcome matches Err(error) && error is SplitCharacter),
        !options.use_wildcards && !options.include_exact_match ==> (outcome matches Ok(names)
            && names.domains@.len() == 0 && names.interface_names@.len() == 0),
        options.include_exact_match ==> (outcome matches Ok(names) ==> {
            &&& forall|j: int|
                0 <= j < options.domains@.len() ==> names.domains.deep_view().contains(
                    #[trigger] options.domains.deep_view()[j],
                )
            &&& forall|j: int|
                0 <= j < options.interface_names@.len()
                    ==> names.interface_names.deep_view().contains(
                    #[trigger] options.interface_names.deep_view()[j],
                )
        }),
{
    let mut domains: Vec<String> = Vec::new();
    let mut interface_names: Vec<String> = Vec::new();
    let ghost mut drawn_domains: Seq<Seq<char>> = Seq::empty();
    let ghost mut drawn_interface_names: Seq<Seq<char>> = Seq::empty();
    if options.use_wildcards {
        domains.push(WILDCARD.to_string());
        interface_names.push(WILDCARD.to_string());
        if options.random_entries && options.random_iterations > 0 {
            if let Some(index) = find_too_short(&options.domains) {
                return Err(ResolveError::TooShort { kind: NameKind::Domain, index });
            }
            if let Some(index) = find_too_short(&options.interface_names) {
                return Err(ResolveError::TooShort { kind: NameKind::InterfaceName, index });
            }
            let mut round: usize = 0;
            while round < options.random_iterations
                invariant
                    round <= options.random_iterations,
                    options.rounds() == options.random_iterations,
                    all_long_enough(options.domains.deep_view()),
                    all_long_enough(options.interface_names.deep_view()),
                    domains.deep_view() =~= wildcard_part(true) + drawn_domains,
                    interface_names.deep_view() =~= wildcard_part(true) + drawn_interface_names,
                    is_random_part(options.domains.deep_view(), round as nat, drawn_domains),
                    is_random_part(
                        options.interface_names.deep_view(),
                        round as nat,
                        drawn_interface_names,
                    ),
                decreases options.random_iterations - round,
            {
                let ghost domains_before = domains.deep_view();
                let ghost interface_names_before = interface_names.deep_view();
                match push_random_round(&options.domains, &mut domains) {
                    Ok(_) => {},
                    Err(index) => {
                        return Err(ResolveError::SplitCharacter { kind: NameKind::Domain, index });
                    },
                }
                match push_random_round(&options.interface_names, &mut interface_names) {
                    Ok(_) => {},
                    Err(index) => {
                        return Err(
                            ResolveError::SplitCharacter { kind: NameKind::InterfaceName, index },
                        );
                    },
                }
                proof {
                    let domain_round = domains.deep_view().skip(domains_before.len() as int);
                    let interface_name_round = interface_names.deep_view().skip(
                        interface_names_before.len() as int,
                    );
                    assert(domains.deep_view() =~= domains.deep_view().take(
                        domains_before.len() as int,
                    ) + domain_round);
                    assert(interface_names.deep_view() =~= interface_names.deep_view().take(
                        interface_names_before.len() as int,
                    ) + interface_name_round);
                    lemma_random_part_grows(
                        options.domains.deep_view(),
                        round as nat,
                        drawn_domains,
                        domain_round,
                    );
                    lemma_random_part_grows(
                        options.interface_names.deep_view(),
                        round as nat,
                        drawn_interface_names,
                        interface_name_round,
                    );
                    drawn_domains = drawn_domains + domain_round;
                    drawn_interface_names = drawn_interface_names + interface_name_round;
                }
                round += 1;
            }
        }
    }
    assert(is_random_part(options.domains.deep_view(), options.rounds(), drawn_domains));
    assert(is_random_part(
        options.interface_names.deep_view(),
        options.rounds(),
        drawn_interface_names,
    ));
    if options.include_exact_match {
        push_exact(&options.domains, &mut domains);
        push_exact(&options.interface_names, &mut interface_names);
    }
    proof {
        assert(domains.deep_view() =~= wildcard_part(options.use_wildcards) + drawn_domains
            + exact_part(options.include_exact_match, options.domains.deep_view()));
        assert(interface_names.deep_view() =~= wildcard_part(options.use_wildcards)
            + drawn_interface_names + exact_part(
            options.include_exact_match,
            options.interface_names.deep_view(),
        ));
        lemma_parts_make_resolution(
            options.use_wildcards,
            options.rounds(),
            options.include_exact_match,
            options.domains.deep_view(),
            drawn_domains,
        );
        lemma_parts_make_resolution(
            options.use_wildcards,
            options.rounds(),
            options.include_exact_match,
            options.interface_names.deep_view(),
            drawn_interface_names,
        );
        if options.include_exact_match {
            lemma_resolution_holds_raw_names(
                options.use_wildcards,
                options.rounds(),
                options.domains.deep_view(),
                domains.deep_view(),
            );
            lemma_resolution_holds_raw_names(
                options.use_wildcards,
                options.rounds(),
                options.interface_names.deep_view(),
                interface_names.deep_view(),
            );
        }
        if options.rounds() == 0 {
            lemma_resolution_without_rounds(
                options.use_wildcards,
                options.include_exact_match,
                options.domains.deep_view(),
                domains.deep_view(),
            );
            lemma_resolution_without_rounds(
                options.use_wildcards,
                options.include_exact_match,
                options.interface_names.deep_view(),
                interface_names.deep_view(),
            );
        }
    }
    Ok(ResolvedNames { domains, interface_names })
}

/// One more round at the end of a random part gives a random part.
proof fn lemma_random_part_grows(
    raw: Seq<Seq<char>>,
    rounds: nat,
    part: Seq<Seq<char>>,
    round: Seq<Seq<char>>,
)
    requires
        is_random_part(raw, rounds, part),
        is_random_round(raw, round),
    ensures
        is_random_part(raw, rounds + 1, part + round),
{
    let n = raw.len() as int;
    let longer = part + round;
    assert((rounds + 1) * n == rounds * n + n) by (nonlinear_arith);
    assert forall|k: int| 0 <= k < longer.len() implies is_random_variant(
        raw[k % n],
        #[trigger] longer[k],
    ) by {
        if k < part.len() {
            assert(longer[k] == part[k]);
        } else {
            let j = k - part.len();
            lemma_fundamental_div_mod_converse(k, n, rounds as int, j);
            assert(longer[k] == round[j]);
        }
    }
}

/// Gluing the wildcard part, a random part and the exact part gives a resolution.
proof fn lemma_parts_make_resolution(
    use_wildcards: bool,
    rounds: nat,
    include_exact_match: bool,
    raw: Seq<Seq<char>>,
    drawn: Seq<Seq<char>>,
)
    requires
        is_random_part(raw, rounds, drawn),
    ensures
        is_resolution(
            use_wildcards,
            rounds,
            include_exact_match,
            raw,
            wildcard_part(use_wildcards) + drawn + exact_part(include_exact_match, raw),
        ),
{
    let head = wildcard_part(use_wildcards);
    let tail = exact_part(include_exact_match, raw);
    let start = head.len() as int;
    let end = start + rounds * raw.len();
    assert((head + drawn + tail).subrange(start, end) =~= drawn);
}

/// Without random rounds there is one resolution, the plain one.
pub proof fn lemma_resolution_without_rounds(
    use_wildcards: bool,
    include_exact_match: bool,
    raw: Seq<Seq<char>>,
    resolved: Seq<Seq<char>>,
)
    ensures
        is_resolution(use_wildcards, 0, include_exact_match, raw, resolved) <==> resolved
            == plain_resolution(use_wildcards, include_exact_match, raw),
{
    let head = wildcard_part(use_wildcards);
    let plain = plain_resolution(use_wildcards, include_exact_match, raw);
    assert(0 * raw.len() == 0);
    if is_resolution(use_wildcards, 0, include_exact_match, raw, resolved) {
        assert(resolved =~= resolved.take(head.len() as int) + resolved.skip(head.len() as int));
        assert(resolved =~= plain);
    }
}

/// Where the exact-match gate is open, every raw name is among the resolved
/// names.
pub proof fn lemma_resolution_holds_raw_names(
    use_wildcards: bool,
    rounds: nat,
    raw: Seq<Seq<char>>,
    resolved: Seq<Seq<char>>,
)
    requires
        is_resolution(use_wildcards, rounds, true, raw, resolved),
    ensures
        forall|j: int| 0 <= j < raw.len() ==> resolved.contains(#[trigger] raw[j]),
{
    let tail_start = resolved.len() - raw.len();
    assert forall|j: int| 0 <= j < raw.len() implies resolved.contains(#[trigger] raw[j]) by {
        assert(resolved[tail_start + j] == resolved.skip(tail_start)[j]);
    }
}

/// Names of ASCII characters can take every cut that may be drawn for them.
pub proof fn lemma_ascii_names_are_cut_safe(raw: Seq<Seq<char>>)
    requires
        forall|j: int| 0 <= j < raw.len() ==> is_ascii_chars(#[trigger] raw[j]),
    ensures
        all_cut_safe(raw),
{
    assert forall|j: int| 0 <= j < raw.len() implies is_cut_safe(#[trigger] raw[j]) by {
        lemma_ascii_is_cut_safe(raw[j]);
    }
}

} // verus!
