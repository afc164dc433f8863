//! The registry of generators: what all the packages of a project's
//! dependency closure offer, in the order in which the packages were resolved.
use crate::errors::DiscoveryError;
use crate::errors::DiscoveryFailure;
use crate::errors::SelectionError;
use crate::gen::Descriptor;
use crate::gen::Generator;
use crate::manifest::all_named;
use crate::manifest::lemma_manifest_generators_have_names;
use crate::manifest::manifest_outcomes;
use crate::manifest::outcome_view;
use crate::manifest::outcomes_view;
use crate::manifest::parse_manifest;
use crate::text::same_text;
use vstd::prelude::*;

verus! {

/// One package of the dependency closure, with the text of its generator
/// manifest where it has one.
#[derive(Debug)]
pub struct Package {
    /// The root directory of the package.
    pub crate_path: String,
    /// The text of the manifest file; `None` where there is no such file.
    pub manifest: Option<String>,
}

/// What a `Package` holds.
pub ghost struct PackageView {
    pub crate_path: Seq<char>,
    pub manifest: Option<Seq<char>>,
}

impl View for Package {
    type V = PackageView;

    open spec fn view(&self) -> PackageView {
        PackageView {
            crate_path: self.crate_path@,
            manifest: match self.manifest {
                Some(text) => Some(text@),
                None => None,
            },
        }
    }
}

/// What the packages hold, in order.
pub open spec fn packages_view(packages: Seq<Package>) -> Seq<PackageView> {
    Seq::new(packages.len(), |i: int| packages[i]@)
}

/// What was resolved: the packages, or the resolver's complaint.
pub open spec fn resolution_view(resolution: Result<Vec<Package>, String>) -> Result<
    Seq<PackageView>,
    Seq<char>,
> {
    match resolution {
        Ok(packages) => Ok(packages_view(packages@)),
        Err(complaint) => Err(complaint@),
    }
}

/// The results of all the manifests, package after package.
pub open spec fn packages_outcomes(packages: Seq<PackageView>) -> Seq<
    Result<Descriptor, DiscoveryFailure>,
>
    decreases packages.len(),
{
    if packages.len() == 0 {
        Seq::empty()
    } else {
        packages_outcomes(packages.drop_last()) + manifest_outcomes(
            packages.last().crate_path,
            packages.last().manifest,
        )
    }
}

/// What discovery yields: the results of all the manifests in the order of
/// the packages, or, where the dependency closure could not be resolved, that
/// failure alone.
pub open spec fn discovery(resolution: Result<Seq<PackageView>, Seq<char>>) -> Seq<
    Result<Descriptor, DiscoveryFailure>,
> {
    match resolution {
        Ok(packages) => packages_outcomes(packages),
        Err(complaint) => seq![Err(DiscoveryFailure::Resolution { message: complaint })],
    }
}

/// A project none of whose packages has a generator manifest offers nothing.
pub proof fn lemma_no_manifest_nothing_found(packages: Seq<PackageView>)
    requires
        forall|i: int| 0 <= i < packages.len() ==> packages[i].manifest is None,
    ensures
        discovery(Ok(packages)) == Seq::<Result<Descriptor, DiscoveryFailure>>::empty(),
    decreases packages.len(),
{
    if packages.len() > 0 {
        lemma_no_manifest_nothing_found(packages.drop_last());
        assert(packages_outcomes(packages) =~= Seq::empty());
    }
}

/// Where the dependency closure cannot be resolved, discovery yields that
/// one failure and nothing else.
pub proof fn lemma_failed_resolution_alone(complaint: Seq<char>)
    ensures
        discovery(Err(complaint)).len() == 1,
        discovery(Err(complaint))[0] == Err::<Descriptor, DiscoveryFailure>(
            DiscoveryFailure::Resolution { message: complaint },
        ),
{
}

/// Discovery yields the results of the packages before `n`, then those of
/// the packages from `n` on: the order of the packages is the order of what
/// they offer.
pub proof fn lemma_discovery_in_package_order(packages: Seq<PackageView>, n: int)
    requires
        0 <= n <= packages.len(),
    ensures
        packages_outcomes(packages) == packages_outcomes(packages.take(n)) + packages_outcomes(
            packages.skip(n),
        ),
    decreases packages.len(),
{
    if n == packages.len() {
        assert(packages.take(n) =~= packages);
        assert(packages.skip(n) =~= Seq::empty());
        assert(packages_outcomes(packages) =~= packages_outcomes(packages) + Seq::empty());
    } else {
        lemma_discovery_in_package_order(packages.drop_last(), n);
        assert(packages.drop_last().take(n) =~= packages.take(n));
        assert(packages.drop_last().skip(n) =~= packages.skip(n).drop_last());
        assert(packages.skip(n).last() == packages.last());
        let last = manifest_outcomes(packages.last().crate_path, packages.last().manifest);
        assert((packages_outcomes(packages.take(n)) + packages_outcomes(
            packages.skip(n).drop_last(),
        )) + last =~= packages_outcomes(packages.take(n)) + (packages_outcomes(
            packages.skip(n).drop_last(),
        ) + last));
    }
}

/// Every generator that discovery yields has a name.
pub proof fn lemma_discovered_generators_have_names(
    resolution: Result<Seq<PackageView>, Seq<char>>,
)
    ensures
        all_named(discovery(resolution)),
    decreases
        match resolution {
            Ok(packages) => packages.len(),
            Err(_) => 0,
        },
{
    match resolution {
        Ok(packages) => {
            if packages.len() > 0 {
                lemma_discovered_generators_have_names(Ok(packages.drop_last()));
                lemma_manifest_generators_have_names(
                    packages.last().crate_path,
                    packages.last().manifest,
                );
            }
        },
        Err(_) => {},
    }
}

/// The view of results put end to end is the views put end to end.
pub proof fn lemma_outcomes_view_add(
    first: Seq<Result<Generator, DiscoveryError>>,
    second: Seq<Result<Generator, DiscoveryError>>,
)
    ensures
        outcomes_view(first + second) == outcomes_view(first) + outcomes_view(second),
{
    assert(outcomes_view(first + second) =~= outcomes_view(first) + outcomes_view(second));
}

/// Finds every generator that the resolved packages offer. A manifest or a
/// record that cannot be used becomes a failure in its place and hides
/// nothing else.
pub fn find_all(resolution: Result<Vec<Package>, String>) -> (outcomes: Vec<
    Result<Generator, DiscoveryError>,
>)
    ensures
        outcomes_view(outcomes@) == discovery(resolution_view(resolution)),
{
    let mut outcomes: Vec<Result<Generator, DiscoveryError>> = Vec::new();
    match resolution {
        Err(complaint) => {
            outcomes.push(Err(DiscoveryError::Resolution { message: complaint }));
            assert(outcomes_view(outcomes@) =~= discovery(resolution_view(resolution)));
        },
        Ok(packages) => {
            let ghost all = packages_view(packages@);
            let mut i: usize = 0;
            assert(all.take(0) =~= Seq::empty());
            assert(outcomes_view(outcomes@) =~= Seq::empty());
            while i < packages.len()
                invariant
                    i <= packages.len(),
                    all == packages_view(packages@),
                    outcomes_view(outcomes@) == packages_outcomes(all.take(i as int)),
                decreases packages.len() - i,
            {
                let package = &packages[i];
                let content = match &package.manifest {
                    Some(text) => Some(text.as_str()),
                    None => None,
                };
                let mut found = parse_manifest(package.crate_path.as_str(), content);
                proof {
                    lemma_outcomes_view_add(outcomes@, found@);
                    assert(all.take(i + 1).drop_last() =~= all.take(i as int));
                    assert(all.take(i + 1).last() == packages@[i as int]@);
                }
                outcomes.append(&mut found);
                i += 1;
            }
            assert(all.take(i as int) =~= all);
        },
    }
    outcomes
}

/// Whether a result is a generator of the given name.
pub open spec fn is_named(outcome: Result<Descriptor, DiscoveryFailure>, name: Seq<char>) -> bool {
    outcome is Ok && outcome->Ok_0.name == name
}

/// Chooses the generator of the given name among the results of discovery.
/// The position of the generator comes back where exactly one result has the
/// name; failures among the results never match.
pub fn select(outcomes: &Vec<Result<Generator, DiscoveryError>>, gen_id: &str) -> (choice: Result<
    usize,
    SelectionError,
>)
    ensures
        match choice {
            Ok(position) => {
                &&& position < outcomes@.len()
                &&& is_named(outcome_view(outcomes@[position as int]), gen_id@)
                &&& forall|j: int|
                    0 <= j < outcomes@.len() && j != position ==> !is_named(
                        outcome_view(#[trigger] outcomes@[j]),
                        gen_id@,
                    )
            },
            Err(SelectionError::NotFound) => forall|j: int|
                0 <= j < outcomes@.len() ==> !is_named(
                    outcome_view(#[trigger] outcomes@[j]),
                    gen_id@,
                ),
            Err(SelectionError::Ambiguous) => exists|j: int, k: int|
                0 <= j < k < outcomes@.len() && is_named(
                    outcome_view(#[trigger] outcomes@[j]),
                    gen_id@,
                ) && is_named(outcome_view(#[trigger] outcomes@[k]), gen_id@),
        },
{
    let mut choice: Result<usize, SelectionError> = Err(SelectionError::NotFound);
    let mut i: usize = 0;
    while i < outcomes.len()
        invariant
            i <= outcomes.len(),
            match choice {
                Ok(position) => {
                    &&& position < i
                    &&& is_named(outcome_view(outcomes@[position as int]), gen_id@)
                    &&& forall|j: int|
                        0 <= j < i && j != position ==> !is_named(
                            outcome_view(#[trigger] outcomes@[j]),
                            gen_id@,
                        )
                },
                Err(SelectionError::NotFound) => forall|j: int|
                    0 <= j < i ==> !is_named(outcome_view(#[trigger] outcomes@[j]), gen_id@),
                Err(SelectionError::Ambiguous) => false,
            },
        decreases outcomes.len() - i,
    {
        let named = match &outcomes[i] {
            Ok(generator) => same_text(generator.name.as_str(), gen_id),
            Err(_) => false,
        };
        assert(named == is_named(outcome_view(outcomes@[i as int]), gen_id@));
        if named {
            match choice {
                Ok(position) => {
                    assert(is_named(outcome_view(outcomes@[position as int]), gen_id@)
                        && is_named(outcome_view(outcomes@[i as int]), gen_id@));
                    return Err(SelectionError::Ambiguous);
                },
                Err(_) => {
                    choice = Ok(i);
                },
            }
        }
        i += 1;
    }
    choice
}

/// One line of the listing of what was discovered.
#[derive(Debug)]
pub enum ListLine {
    /// The name of a generator, for the standard output.
    Name(String),
    /// The report of a failure, for the standard error.
    Failure(String),
}

/// What a `ListLine` holds.
pub ghost enum ListEntry {
    Name(Seq<char>),
    Failure(Seq<char>),
}

impl View for ListLine {
    type V = ListEntry;

    open spec fn view(&self) -> ListEntry {
        match self {
            ListLine::Name(text) => ListEntry::Name(text@),
            ListLine::Failure(text) => ListEntry::Failure(text@),
        }
    }
}

/// The line that lists one result: the name of the generator, or the message
/// of the failure.
pub open spec fn list_entry(outcome: Result<Descriptor, DiscoveryFailure>) -> ListEntry {
    match outcome {
        Ok(descriptor) => ListEntry::Name(descriptor.name),
        Err(failure) => ListEntry::Failure(failure.message()),
    }
}

/// Lists what was discovered: one line for each result, in the order of the
/// results.
pub fn listing(outcomes: &Vec<Result<Generator, DiscoveryError>>) -> (lines: Vec<ListLine>)
    ensures
        lines@.len() == outcomes@.len(),
        forall|i: int|
            0 <= i < outcomes@.len() ==> (#[trigger] lines@[i])@ == list_entry(
                outcome_view(outcomes@[i]),
            ),
{
    let mut lines: Vec<ListLine> = Vec::new();
    let mut i: usize = 0;
    while i < outcomes.len()
        invariant
            i <= outcomes.len(),
            lines@.len() == i,
            forall|j: int|
                0 <= j < i ==> (#[trigger] lines@[j])@ == list_entry(outcome_view(outcomes@[j])),
        decreases outcomes.len() - i,
    {
        let line = match &outcomes[i] {
            Ok(generator) => ListLine::Name(generator.name.clone()),
            Err(error) => ListLine::Failure(error.message()),
        };
        lines.push(line);
        i += 1;
    }
    lines
}

} // verus!
