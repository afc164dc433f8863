//! The generator manifest of one package: a sequence of records, each naming
//! a generator and the callable that makes it.
use crate::document::lemma_list_view;
use crate::document::load_documents;
use crate::document::trees;
use crate::document::yaml_stream;
use crate::document::documents_view;
use crate::document::Node;
use crate::document::Tree;
use crate::errors::DiscoveryError;
use crate::errors::DiscoveryFailure;
use crate::errors::FieldProblem;
use crate::errors::RecordField;
use crate::gen::Descriptor;
use crate::gen::Generator;
use vstd::prelude::*;

verus! {

/// The name of the manifest file in the root directory of a package.
pub const MANIFEST_FILE: &'static str = "cargo_generators.yaml";

/// What one result of discovery holds.
pub open spec fn outcome_view(outcome: Result<Generator, DiscoveryError>) -> Result<
    Descriptor,
    DiscoveryFailure,
> {
    match outcome {
        Ok(generator) => Ok(generator@),
        Err(error) => Err(error@),
    }
}

/// What a sequence of results of discovery holds.
pub open spec fn outcomes_view(outcomes: Seq<Result<Generator, DiscoveryError>>) -> Seq<
    Result<Descriptor, DiscoveryFailure>,
> {
    Seq::new(outcomes.len(), |i: int| outcome_view(outcomes[i]))
}

/// The failure of the record at `index` for want of a usable `field`.
pub open spec fn record_failure(
    crate_path: Seq<char>,
    index: nat,
    field: RecordField,
    problem: FieldProblem,
) -> Result<Descriptor, DiscoveryFailure> {
    Err(DiscoveryFailure::ManifestRecord { crate_path, index, field, problem })
}

/// What the record at position `index` of the manifest of the package at
/// `crate_path` gives: a descriptor with the texts of its `name` and `factory`
/// as they stand, or the first field that cannot be used: one that is
/// missing or holds no text, or a name without a character.
pub open spec fn record_outcome(crate_path: Seq<char>, index: nat, record: Tree) -> Result<
    Descriptor,
    DiscoveryFailure,
> {
    match record.field("name"@) {
        None => record_failure(crate_path, index, RecordField::Name, FieldProblem::Missing),
        Some(Tree::Text(name)) => if name.len() == 0 {
            record_failure(crate_path, index, RecordField::Name, FieldProblem::Empty)
        } else {
            match record.field("factory"@) {
                None => record_failure(
                    crate_path,
                    index,
                    RecordField::Factory,
                    FieldProblem::Missing,
                ),
                Some(Tree::Text(factory)) => Ok(Descriptor { name, crate_path, factory }),
                Some(_) => record_failure(
                    crate_path,
                    index,
                    RecordField::Factory,
                    FieldProblem::NotAString,
                ),
            }
        },
        Some(_) => record_failure(crate_path, index, RecordField::Name, FieldProblem::NotAString),
    }
}

/// One result for each record, in the order of the records.
pub open spec fn records_outcomes(crate_path: Seq<char>, records: Seq<Tree>) -> Seq<
    Result<Descriptor, DiscoveryFailure>,
> {
    Seq::new(records.len(), |i: int| record_outcome(crate_path, i as nat, records[i]))
}

/// The one failure that stands for a whole manifest.
pub open spec fn syntax_failure(crate_path: Seq<char>, message: Seq<char>) -> Seq<
    Result<Descriptor, DiscoveryFailure>,
> {
    seq![Err(DiscoveryFailure::ManifestSyntax { crate_path, message })]
}

/// What a manifest gives once its text was read as a stream of documents:
/// the complaint of the reader as one failure; one failure where the first
/// document is no list; else one result for each item of that list.
pub open spec fn stream_outcomes(crate_path: Seq<char>, read: Result<Seq<Tree>, Seq<char>>) -> Seq<
    Result<Descriptor, DiscoveryFailure>,
> {
    match read {
        Err(complaint) => syntax_failure(crate_path, complaint),
        Ok(documents) => if documents.len() > 0 && documents[0] is List {
            records_outcomes(crate_path, documents[0]->List_0)
        } else {
            syntax_failure(crate_path, "not an array"@)
        },
    }
}

/// What the manifest of the package at `crate_path` gives: nothing where the
/// package has none, else what its text gives.
pub open spec fn manifest_outcomes(crate_path: Seq<char>, content: Option<Seq<char>>) -> Seq<
    Result<Descriptor, DiscoveryFailure>,
> {
    match content {
        None => Seq::empty(),
        Some(text) => stream_outcomes(crate_path, yaml_stream(text)),
    }
}

/// Whether a record holds a text of at least one character under `name` and
/// a text under `factory`.
pub open spec fn well_formed(record: Tree) -> bool {
    &&& record.field("name"@) is Some
    &&& record.field("name"@)->Some_0 is Text
    &&& record.field("name"@)->Some_0->Text_0.len() > 0
    &&& record.field("factory"@) is Some
    &&& record.field("factory"@)->Some_0 is Text
}

/// How many of the results are generators.
pub open spec fn successes(outcomes: Seq<Result<Descriptor, DiscoveryFailure>>) -> nat
    decreases outcomes.len(),
{
    if outcomes.len() == 0 {
        0
    } else {
        successes(outcomes.drop_last()) + if outcomes.last() is Ok {
            1nat
        } else {
            0nat
        }
    }
}

/// How many of the results are failures.
pub open spec fn failures(outcomes: Seq<Result<Descriptor, DiscoveryFailure>>) -> nat
    decreases outcomes.len(),
{
    if outcomes.len() == 0 {
        0
    } else {
        failures(outcomes.drop_last()) + if outcomes.last() is Err {
            1nat
        } else {
            0nat
        }
    }
}

/// A well-formed record gives a descriptor with exactly the texts that it
/// holds under `name` and `factory`, and the path of its package; nothing is
/// trimmed or rewritten.
pub proof fn lemma_record_round_trip(crate_path: Seq<char>, index: nat, record: Tree)
    requires
        well_formed(record),
    ensures
        record_outcome(crate_path, index, record) == Ok::<Descriptor, DiscoveryFailure>(
            Descriptor {
                name: record.field("name"@)->Some_0->Text_0,
                crate_path,
                factory: record.field("factory"@)->Some_0->Text_0,
            },
        ),
{
}

/// Every generator that a record gives has a name.
pub proof fn lemma_generators_have_names(crate_path: Seq<char>, index: nat, record: Tree)
    requires
        record_outcome(crate_path, index, record) is Ok,
    ensures
        record_outcome(crate_path, index, record)->Ok_0.name.len() > 0,
        record_outcome(crate_path, index, record)->Ok_0.crate_path == crate_path,
{
}

/// Whether every generator among the results has a name.
pub open spec fn all_named(outcomes: Seq<Result<Descriptor, DiscoveryFailure>>) -> bool {
    forall|i: int|
        0 <= i < outcomes.len() && (#[trigger] outcomes[i]) is Ok ==> outcomes[i]->Ok_0.name.len()
            > 0
}

/// Every generator that a manifest gives has a name.
pub proof fn lemma_manifest_generators_have_names(
    crate_path: Seq<char>,
    content: Option<Seq<char>>,
)
    ensures
        all_named(manifest_outcomes(crate_path, content)),
{
    let outcomes = manifest_outcomes(crate_path, content);
    assert forall|i: int| 0 <= i < outcomes.len() && (#[trigger] outcomes[i]) is Ok implies
        outcomes[i]->Ok_0.name.len() > 0 by {
        let read = yaml_stream(content->Some_0);
        let records = read->Ok_0[0]->List_0;
        lemma_generators_have_names(crate_path, i as nat, records[i]);
    }
}

/// A record gives a generator exactly when it is well formed, whatever the
/// other records of the manifest are.
pub proof fn lemma_record_alone(crate_path: Seq<char>, records: Seq<Tree>, i: int)
    requires
        0 <= i < records.len(),
    ensures
        records_outcomes(crate_path, records).len() == records.len(),
        records_outcomes(crate_path, records)[i] is Ok <==> well_formed(records[i]),
        records_outcomes(crate_path, records)[i] == record_outcome(
            crate_path,
            i as nat,
            records[i],
        ),
{
}

/// A manifest that is a list gives one result for each of its records, in
/// their order, whatever is wrong with any of them.
pub proof fn lemma_one_result_per_record(
    crate_path: Seq<char>,
    documents: Seq<Tree>,
    records: Seq<Tree>,
)
    requires
        documents.len() > 0,
        documents[0] == Tree::List(records),
    ensures
        stream_outcomes(crate_path, Ok(documents)).len() == records.len(),
        forall|i: int|
            0 <= i < records.len() ==> #[trigger] stream_outcomes(crate_path, Ok(documents))[i]
                == record_outcome(crate_path, i as nat, records[i]),
{
}

/// Every result is either a generator or a failure.
pub proof fn lemma_successes_and_failures(outcomes: Seq<Result<Descriptor, DiscoveryFailure>>)
    ensures
        successes(outcomes) + failures(outcomes) == outcomes.len(),
    decreases outcomes.len(),
{
    if outcomes.len() > 0 {
        lemma_successes_and_failures(outcomes.drop_last());
    }
}

proof fn lemma_no_failures(outcomes: Seq<Result<Descriptor, DiscoveryFailure>>)
    requires
        forall|i: int| 0 <= i < outcomes.len() ==> outcomes[i] is Ok,
    ensures
        failures(outcomes) == 0,
    decreases outcomes.len(),
{
    if outcomes.len() > 0 {
        lemma_no_failures(outcomes.drop_last());
    }
}

proof fn lemma_one_failure(outcomes: Seq<Result<Descriptor, DiscoveryFailure>>, k: int)
    requires
        0 <= k < outcomes.len(),
        forall|i: int| 0 <= i < outcomes.len() ==> (outcomes[i] is Err <==> i == k),
    ensures
        failures(outcomes) == 1,
    decreases outcomes.len(),
{
    if k == outcomes.len() - 1 {
        lemma_no_failures(outcomes.drop_last());
    } else {
        lemma_one_failure(outcomes.drop_last(), k);
    }
}

/// A manifest of N records of which exactly one, the one at `k`, is not well
/// formed gives N results: N - 1 generators and one failure, which stands at
/// `k`.
pub proof fn lemma_one_malformed_record(
    crate_path: Seq<char>,
    documents: Seq<Tree>,
    records: Seq<Tree>,
    k: int,
)
    requires
        documents.len() > 0,
        documents[0] == Tree::List(records),
        0 <= k < records.len(),
        forall|i: int| 0 <= i < records.len() ==> (well_formed(records[i]) <==> i != k),
    ensures
        stream_outcomes(crate_path, Ok(documents)).len() == records.len(),
        successes(stream_outcomes(crate_path, Ok(documents))) == records.len() - 1,
        failures(stream_outcomes(crate_path, Ok(documents))) == 1,
        stream_outcomes(crate_path, Ok(documents))[k] is Err,
{
    let outcomes = stream_outcomes(crate_path, Ok(documents));
    assert(outcomes == records_outcomes(crate_path, records));
    assert forall|i: int| 0 <= i < outcomes.len() implies (outcomes[i] is Err <==> i == k) by {
        lemma_record_alone(crate_path, records, i);
    }
    lemma_one_failure(outcomes, k);
    lemma_successes_and_failures(outcomes);
}

fn field_failure(crate_path: &str, index: usize, field: RecordField, problem: FieldProblem) -> (outcome:
    Result<Generator, DiscoveryError>)
    ensures
        outcome_view(outcome) == record_failure(crate_path@, index as nat, field, problem),
{
    Err(DiscoveryError::ManifestRecord { crate_path: crate_path.to_string(), index, field, problem })
}

/// Reads one record of a manifest.
pub fn parse_record(crate_path: &str, index: usize, record: &Node) -> (outcome: Result<
    Generator,
    DiscoveryError,
>)
    ensures
        outcome_view(outcome) == record_outcome(crate_path@, index as nat, record@),
{
    match record.field("name") {
        None => field_failure(crate_path, index, RecordField::Name, FieldProblem::Missing),
        Some(Node::Text(name)) => if name.as_str().is_empty() {
            field_failure(crate_path, index, RecordField::Name, FieldProblem::Empty)
        } else {
            match record.field("factory") {
                None => field_failure(
                    crate_path,
                    index,
                    RecordField::Factory,
                    FieldProblem::Missing,
                ),
                Some(Node::Text(factory)) => Ok(
                    Generator::new(name.clone(), crate_path.to_string(), factory.clone()),
                ),
                Some(_) => field_failure(
                    crate_path,
                    index,
                    RecordField::Factory,
                    FieldProblem::NotAString,
                ),
            }
        },
        Some(_) => field_failure(crate_path, index, RecordField::Name, FieldProblem::NotAString),
    }
}

/// Reads every record of a manifest. A record that cannot be used takes
/// nothing from the others.
pub fn parse_records(crate_path: &str, records: &Vec<Node>) -> (outcomes: Vec<
    Result<Generator, DiscoveryError>,
>)
    ensures
        outcomes_view(outcomes@) == records_outcomes(crate_path@, trees(records@)),
{
    let mut outcomes: Vec<Result<Generator, DiscoveryError>> = Vec::new();
    let mut i: usize = 0;
    while i < records.len()
        invariant
            i <= records.len(),
            outcomes@.len() == i,
            forall|j: int|
                0 <= j < i ==> outcome_view(#[trigger] outcomes@[j]) == record_outcome(
                    crate_path@,
                    j as nat,
                    records@[j]@,
                ),
        decreases records.len() - i,
    {
        let outcome = parse_record(crate_path, i, &records[i]);
        outcomes.push(outcome);
        i += 1;
    }
    assert(outcomes_view(outcomes@) =~= records_outcomes(crate_path@, trees(records@)));
    outcomes
}

fn whole_failure(crate_path: &str, message: String) -> (outcomes: Vec<
    Result<Generator, DiscoveryError>,
>)
    ensures
        outcomes_view(outcomes@) == syntax_failure(crate_path@, message@),
{
    let mut outcomes: Vec<Result<Generator, DiscoveryError>> = Vec::new();
    outcomes.push(
        Err(DiscoveryError::ManifestSyntax { crate_path: crate_path.to_string(), message }),
    );
    assert(outcomes_view(outcomes@) =~= syntax_failure(crate_path@, message@));
    outcomes
}

/// Turns what was read from the text of a manifest into results.
pub fn parse_documents(crate_path: &str, read: Result<Vec<Node>, String>) -> (outcomes: Vec<
    Result<Generator, DiscoveryError>,
>)
    ensures
        outcomes_view(outcomes@) == stream_outcomes(crate_path@, documents_view(read)),
{
    match read {
        Err(complaint) => whole_failure(crate_path, complaint),
        Ok(documents) => {
            if documents.len() > 0 {
                match &documents[0] {
                    Node::List(records) => {
                        proof {
                            lemma_list_view(documents@[0]);
                        }
                        return parse_records(crate_path, records);
                    },
                    _ => {},
                }
            }
            whole_failure(crate_path, "not an array".to_string())
        },
    }
}

/// Reads the manifest of the package at `crate_path`. `content` is the text
/// of the manifest file, or `None` where the package has no such file.
pub fn parse_manifest(crate_path: &str, content: Option<&str>) -> (outcomes: Vec<
    Result<Generator, DiscoveryError>,
>)
    ensures
        outcomes_view(outcomes@) == manifest_outcomes(
            crate_path@,
            match content {
                Some(text) => Some(text@),
                None => None,
            },
        ),
{
    match content {
        None => {
            let outcomes: Vec<Result<Generator, DiscoveryError>> = Vec::new();
            assert(outcomes_view(outcomes@) =~= Seq::empty());
            outcomes
        },
        Some(text) => parse_documents(crate_path, load_documents(text)),
    }
}

} // verus!
