//! The titles of the sample company are unique.

use crate::geometry::Point;
use crate::graph::sample_nodes_on;
use vstd::prelude::*;

verus! {

/// Whether no two nodes have the same title.
pub open spec fn unique_titles(nodes: Seq<(Seq<char>, i32, i32)>) -> bool {
    forall|i: int, j: int| 0 <= i < j < nodes.len() ==> nodes[i].0 != nodes[j].0
}

/// The titles of the sample company, node by node.
pub open spec fn sample_titles() -> Seq<Seq<char>> {
    seq![
        "Security Union"@,
        "Recruiters"@,
        "Data Annotation"@,
        "Customers"@,
        "ERP"@,
        "AV Testing"@,
        "Recruiter 1"@,
        "Recruiter 2"@,
        "Recruiter 3"@,
        "Recruiter 4"@,
        "Recruiter 5"@,
        "Data Annotation 1"@,
        "Data Annotation 2"@,
        "Data Annotation 3"@,
        "Data Annotation 4"@,
        "Data Annotation 5"@,
        "Data Annotation 6"@,
        "Customer 1"@,
        "Customer 2"@,
        "Customer 3"@,
        "Customer 4"@,
        "Customer 5"@,
        "Customer 6"@,
        "Customer 7"@,
        "Customer 8"@,
        "Customer 9"@,
        "Customer 10"@,
        "ERP 1"@,
        "ERP 2"@,
        "ERP 3"@,
        "ERP 4"@,
        "AV Testing 1"@,
        "AV Testing 2"@,
        "AV Testing 3"@,
    ]
}

proof fn lemma_sample_titles_listed(area_ring: Seq<Point>, member_rings: Seq<Vec<Point>>)
    ensures
        sample_nodes_on(area_ring, member_rings).len() == 34,
        forall|i: int| 0 <= i < 34 ==> (#[trigger] sample_nodes_on(area_ring, member_rings)[i]).0 == sample_titles()[i],
{
}

/// What tells the titles of the sample company apart: the length of a title
/// and its last character.
spec fn mark(title: Seq<char>) -> (nat, char) {
    (title.len(), title.last())
}

spec fn sample_marks() -> Seq<(nat, char)> {
    seq![
        (14nat, 'n'),
        (10nat, 's'),
        (15nat, 'n'),
        (9nat, 's'),
        (3nat, 'P'),
        (10nat, 'g'),
        (11nat, '1'),
        (11nat, '2'),
        (11nat, '3'),
        (11nat, '4'),
        (11nat, '5'),
        (17nat, '1'),
        (17nat, '2'),
        (17nat, '3'),
        (17nat, '4'),
        (17nat, '5'),
        (17nat, '6'),
        (10nat, '1'),
        (10nat, '2'),
        (10nat, '3'),
        (10nat, '4'),
        (10nat, '5'),
        (10nat, '6'),
        (10nat, '7'),
        (10nat, '8'),
        (10nat, '9'),
        (11nat, '0'),
        (5nat, '1'),
        (5nat, '2'),
        (5nat, '3'),
        (5nat, '4'),
        (12nat, '1'),
        (12nat, '2'),
        (12nat, '3'),
    ]
}

proof fn lemma_sample_marks_listed()
    ensures
        forall|i: int| 0 <= i < 34 ==> mark(#[trigger] sample_titles()[i]) == sample_marks()[i],
{
    reveal_strlit("Security Union");
    assert(mark("Security Union"@) == (14nat, 'n'));
    reveal_strlit("Recruiters");
    assert(mark("Recruiters"@) == (10nat, 's'));
    reveal_strlit("Data Annotation");
    assert(mark("Data Annotation"@) == (15nat, 'n'));
    reveal_strlit("Customers");
    assert(mark("Customers"@) == (9nat, 's'));
    reveal_strlit("ERP");
    assert(mark("ERP"@) == (3nat, 'P'));
    reveal_strlit("AV Testing");
    assert(mark("AV Testing"@) == (10nat, 'g'));
    reveal_strlit("Recruiter 1");
    assert(mark("Recruiter 1"@) == (11nat, '1'));
    reveal_strlit("Recruiter 2");
    assert(mark("Recruiter 2"@) == (11nat, '2'));
    reveal_strlit("Recruiter 3");
    assert(mark("Recruiter 3"@) == (11nat, '3'));
    reveal_strlit("Recruiter 4");
    assert(mark("Recruiter 4"@) == (11nat, '4'));
    reveal_strlit("Recruiter 5");
    assert(mark("Recruiter 5"@) == (11nat, '5'));
    reveal_strlit("Data Annotation 1");
    assert(mark("Data Annotation 1"@) == (17nat, '1'));
    reveal_strlit("Data Annotation 2");
    assert(mark("Data Annotation 2"@) == (17nat, '2'));
    reveal_strlit("Data Annotation 3");
    assert(mark("Data Annotation 3"@) == (17nat, '3'));
    reveal_strlit("Data Annotation 4");
    assert(mark("Data Annotation 4"@) == (17nat, '4'));
    reveal_strlit("Data Annotation 5");
    assert(mark("Data Annotation 5"@) == (17nat, '5'));
    reveal_strlit("Data Annotation 6");
    assert(mark("Data Annotation 6"@) == (17nat, '6'));
    reveal_strlit("Customer 1");
    assert(mark("Customer 1"@) == (10nat, '1'));
    reveal_strlit("Customer 2");
    assert(mark("Customer 2"@) == (10nat, '2'));
    reveal_strlit("Customer 3");
    assert(mark("Customer 3"@) == (10nat, '3'));
    reveal_strlit("Customer 4");
    assert(mark("Customer 4"@) == (10nat, '4'));
    reveal_strlit("Customer 5");
    assert(mark("Customer 5"@) == (10nat, '5'));
    reveal_strlit("Customer 6");
    assert(mark("Customer 6"@) == (10nat, '6'));
    reveal_strlit("Customer 7");
    assert(mark("Customer 7"@) == (10nat, '7'));
    reveal_strlit("Customer 8");
    assert(mark("Customer 8"@) == (10nat, '8'));
    reveal_strlit("Customer 9");
    assert(mark("Customer 9"@) == (10nat, '9'));
    reveal_strlit("Customer 10");
    assert(mark("Customer 10"@) == (11nat, '0'));
    reveal_strlit("ERP 1");
    assert(mark("ERP 1"@) == (5nat, '1'));
    reveal_strlit("ERP 2");
    assert(mark("ERP 2"@) == (5nat, '2'));
    reveal_strlit("ERP 3");
    assert(mark("ERP 3"@) == (5nat, '3'));
    reveal_strlit("ERP 4");
    assert(mark("ERP 4"@) == (5nat, '4'));
    reveal_strlit("AV Testing 1");
    assert(mark("AV Testing 1"@) == (12nat, '1'));
    reveal_strlit("AV Testing 2");
    assert(mark("AV Testing 2"@) == (12nat, '2'));
    reveal_strlit("AV Testing 3");
    assert(mark("AV Testing 3"@) == (12nat, '3'));
}

proof fn lemma_sample_marks_differ()
    ensures
        forall|i: int, j: int| 0 <= i < j < 34 ==> sample_marks()[i] != sample_marks()[j],
{
}

proof fn lemma_sample_titles_differ()
    ensures
        forall|i: int, j: int| 0 <= i < j < 34 ==> sample_titles()[i] != sample_titles()[j],
{
    lemma_sample_marks_listed();
    lemma_sample_marks_differ();
    assert forall|i: int, j: int| 0 <= i < j < 34 implies sample_titles()[i] != sample_titles()[j] by {
        assert(mark(sample_titles()[i]) == sample_marks()[i]);
        assert(mark(sample_titles()[j]) == sample_marks()[j]);
    }
}

/// No two nodes of the sample company have the same title, wherever they are
/// placed.
pub proof fn lemma_sample_titles_unique(area_ring: Seq<Point>, member_rings: Seq<Vec<Point>>)
    ensures
        unique_titles(sample_nodes_on(area_ring, member_rings)),
{
    lemma_sample_titles_listed(area_ring, member_rings);
    lemma_sample_titles_differ();
}

} // verus!
