//! The packages of a project's dependency closure, as the resolver reports
//! them: a document that lists the packages, each with the path of its
//! package manifest.
use crate::document::documents_view;
use crate::document::lemma_list_view;
use crate::document::trees;
use crate::document::Node;
use crate::document::Tree;
use vstd::prelude::*;

verus! {

/// The path of the package manifest of a reported package.
pub open spec fn manifest_path_of(package: Tree) -> Option<Seq<char>> {
    match package.field("manifest_path"@) {
        Some(Tree::Text(path)) => Some(path),
        _ => None,
    }
}

/// The packages that a report lists: the list under `packages` in the first
/// document.
pub open spec fn reported_packages(read: Result<Seq<Tree>, Seq<char>>) -> Option<Seq<Tree>> {
    match read {
        Ok(documents) => if documents.len() > 0 {
            match documents[0].field("packages"@) {
                Some(Tree::List(packages)) => Some(packages),
                _ => None,
            }
        } else {
            None
        },
        Err(_) => None,
    }
}

/// The complaint about a report that cannot be used: the reader's own where
/// the report could not be read, else what was looked for in vain.
pub open spec fn report_complaint(read: Result<Seq<Tree>, Seq<char>>) -> Seq<char> {
    match read {
        Err(complaint) => complaint,
        Ok(_) => if reported_packages(read) is None {
            "the resolver's report lists no packages"@
        } else {
            "a package in the resolver's report has no manifest path"@
        },
    }
}

/// What a report of the resolver gives: the manifest path of each package in
/// the order of the report, or, where the report cannot be read, lists no
/// packages or lists a package without such a path, the complaint.
pub open spec fn located(read: Result<Seq<Tree>, Seq<char>>) -> Result<Seq<Seq<char>>, Seq<char>> {
    match reported_packages(read) {
        Some(packages) => if forall|i: int|
            0 <= i < packages.len() ==> manifest_path_of(#[trigger] packages[i]) is Some {
            Ok(Seq::new(packages.len(), |i: int| manifest_path_of(packages[i])->Some_0))
        } else {
            Err(report_complaint(read))
        },
        None => Err(report_complaint(read)),
    }
}

/// What the result of `manifest_paths` holds.
pub open spec fn located_view(found: Result<Vec<String>, String>) -> Result<
    Seq<Seq<char>>,
    Seq<char>,
> {
    match found {
        Ok(paths) => Ok(crate::text::texts(paths@)),
        Err(complaint) => Err(complaint@),
    }
}

/// Takes the manifest path of every package out of what was read from the
/// report of the resolver.
pub fn manifest_paths(read: Result<Vec<Node>, String>) -> (found: Result<Vec<String>, String>)
    ensures
        located_view(found) == located(documents_view(read)),
{
    let documents = match read {
        Ok(documents) => documents,
        Err(complaint) => {
            return Err(complaint);
        },
    };
    if documents.len() == 0 {
        return Err("the resolver's report lists no packages".to_string());
    }
    let packages = match documents[0].field("packages") {
        Some(Node::List(packages)) => {
            proof {
                lemma_list_view(Node::List(*packages));
            }
            packages
        },
        _ => {
            return Err("the resolver's report lists no packages".to_string());
        },
    };
    let ghost listed = trees(packages@);
    assert(reported_packages(documents_view(read)) == Some(listed));
    let mut paths: Vec<String> = Vec::new();
    let mut i: usize = 0;
    while i < packages.len()
        invariant
            i <= packages.len(),
            listed == trees(packages@),
            reported_packages(documents_view(read)) == Some(listed),
            read is Ok,
            paths@.len() == i,
            forall|j: int| 0 <= j < i ==> manifest_path_of(#[trigger] listed[j]) == Some(paths@[j]@),
        decreases packages.len() - i,
    {
        match packages[i].field("manifest_path") {
            Some(Node::Text(path)) => {
                paths.push(path.clone());
            },
            _ => {
                assert(listed[i as int] == packages@[i as int]@);
                assert(manifest_path_of(listed[i as int]) is None);
                return Err("a package in the resolver's report has no manifest path".to_string());
            },
        }
        i += 1;
    }
    assert(crate::text::texts(paths@) =~= Seq::new(
        listed.len(),
        |i: int| manifest_path_of(listed[i])->Some_0,
    ));
    Ok(paths)
}

} // verus!
