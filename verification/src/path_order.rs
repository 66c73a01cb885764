//! The order of paths: component by component, names byte by byte.

use crate::paths::{Part, PathPart, StorePath};
use vstd::prelude::*;

verus! {

/// Whether `left` comes strictly before `right` in lexicographic order.
pub open spec fn bytes_before(left: Seq<u8>, right: Seq<u8>) -> bool
    decreases left.len(),
{
    if right.len() == 0 {
        false
    } else if left.len() == 0 {
        true
    } else if left[0] != right[0] {
        left[0] < right[0]
    } else {
        bytes_before(left.skip(1), right.skip(1))
    }
}

/// The place of a kind of component among the others.
pub open spec fn part_rank(part: Part) -> int {
    match part {
        Part::Root => 0,
        Part::Current => 1,
        Part::Parent => 2,
        Part::Name(_) => 3,
    }
}

pub open spec fn part_before(left: Part, right: Part) -> bool {
    match (left, right) {
        (Part::Name(l), Part::Name(r)) => bytes_before(l, r),
        _ => part_rank(left) < part_rank(right),
    }
}

/// Whether the path `left` comes strictly before the path `right`.
pub open spec fn parts_before(left: Seq<Part>, right: Seq<Part>) -> bool
    decreases left.len(),
{
    if right.len() == 0 {
        false
    } else if left.len() == 0 {
        true
    } else if left[0] != right[0] {
        part_before(left[0], right[0])
    } else {
        parts_before(left.skip(1), right.skip(1))
    }
}

pub proof fn bytes_order_is_total(left: Seq<u8>, right: Seq<u8>)
    ensures
        !(bytes_before(left, right) && bytes_before(right, left)),
        left == right ==> !bytes_before(left, right),
        left == right || bytes_before(left, right) || bytes_before(right, left),
    decreases left.len(),
{
    if left.len() > 0 && right.len() > 0 && left[0] == right[0] {
        bytes_order_is_total(left.skip(1), right.skip(1));
        if left.skip(1) == right.skip(1) {
            assert(left =~= seq![left[0]] + left.skip(1));
            assert(right =~= seq![right[0]] + right.skip(1));
        }
    } else if left.len() == 0 && right.len() == 0 {
        assert(left =~= right);
    }
}

pub proof fn bytes_order_is_transitive(first: Seq<u8>, second: Seq<u8>, third: Seq<u8>)
    requires
        bytes_before(first, second),
        bytes_before(second, third),
    ensures
        bytes_before(first, third),
    decreases first.len(),
{
    if first.len() > 0 && first[0] == second[0] && second[0] == third[0] {
        bytes_order_is_transitive(first.skip(1), second.skip(1), third.skip(1));
    }
}

proof fn part_order(left: Part, right: Part)
    ensures
        !(part_before(left, right) && part_before(right, left)),
        left == right ==> !part_before(left, right),
        left == right || part_before(left, right) || part_before(right, left),
{
    match (left, right) {
        (Part::Name(l), Part::Name(r)) => bytes_order_is_total(l, r),
        _ => {},
    }
}

proof fn part_order_is_transitive(first: Part, second: Part, third: Part)
    requires
        part_before(first, second),
        part_before(second, third),
    ensures
        part_before(first, third),
{
    match (first, second, third) {
        (Part::Name(f), Part::Name(s), Part::Name(t)) => bytes_order_is_transitive(f, s, t),
        _ => {},
    }
}

/// Of two different paths exactly one comes before the other.
pub proof fn path_order_is_total(left: Seq<Part>, right: Seq<Part>)
    ensures
        !(parts_before(left, right) && parts_before(right, left)),
        left == right ==> !parts_before(left, right),
        left == right || parts_before(left, right) || parts_before(right, left),
    decreases left.len(),
{
    if left.len() > 0 && right.len() > 0 {
        if left[0] == right[0] {
            path_order_is_total(left.skip(1), right.skip(1));
            if left.skip(1) == right.skip(1) {
                assert(left =~= seq![left[0]] + left.skip(1));
                assert(right =~= seq![right[0]] + right.skip(1));
            }
        } else {
            part_order(left[0], right[0]);
        }
    } else if left.len() == 0 && right.len() == 0 {
        assert(left =~= right);
    }
}

pub proof fn path_order_is_transitive(first: Seq<Part>, second: Seq<Part>, third: Seq<Part>)
    requires
        parts_before(first, second),
        parts_before(second, third),
    ensures
        parts_before(first, third),
    decreases first.len(),
{
    if first.len() > 0 {
        if first[0] == second[0] && second[0] == third[0] {
            path_order_is_transitive(first.skip(1), second.skip(1), third.skip(1));
        } else if first[0] != second[0] && second[0] != third[0] {
            part_order_is_transitive(first[0], second[0], third[0]);
            part_order(first[0], third[0]);
        }
    }
}

pub fn is_bytes_before(left: &Vec<u8>, right: &Vec<u8>) -> (answer: bool)
    ensures
        answer == bytes_before(left@, right@),
{
    let mut at: usize = 0;
    assert(left@.skip(0) =~= left@);
    assert(right@.skip(0) =~= right@);
    while at < left.len() && at < right.len() && left[at] == right[at]
        invariant
            at <= left@.len(),
            at <= right@.len(),
            bytes_before(left@, right@) == bytes_before(left@.skip(at as int), right@.skip(at as int)),
        decreases left@.len() - at,
    {
        assert(left@.skip(at as int).skip(1) =~= left@.skip(at + 1));
        assert(right@.skip(at as int).skip(1) =~= right@.skip(at + 1));
        at += 1;
    }
    if at == right.len() {
        false
    } else if at == left.len() {
        true
    } else {
        left[at] < right[at]
    }
}

fn is_part_before(left: &PathPart, right: &PathPart) -> (answer: bool)
    ensures
        answer == part_before(left@, right@),
{
    match (left, right) {
        (PathPart::Name(l), PathPart::Name(r)) => is_bytes_before(l, r),
        (PathPart::Name(_), _) => false,
        (_, PathPart::Name(_)) => true,
        (PathPart::Parent, _) => false,
        (_, PathPart::Parent) => true,
        (PathPart::Current, _) => false,
        (_, PathPart::Current) => true,
        (PathPart::Root, PathPart::Root) => false,
    }
}

/// Whether the path `left` comes strictly before the path `right`.
pub fn is_before(left: &StorePath, right: &StorePath) -> (answer: bool)
    ensures
        answer == parts_before(left@, right@),
{
    let mut at: usize = 0;
    assert(left@.skip(0) =~= left@);
    assert(right@.skip(0) =~= right@);
    while at < left.depth() && at < right.depth()
        invariant
            at <= left@.len(),
            at <= right@.len(),
            parts_before(left@, right@) == parts_before(left@.skip(at as int), right@.skip(at as int)),
        decreases left@.len() - at,
    {
        let ghost l = left@.skip(at as int);
        let ghost r = right@.skip(at as int);
        assert(l[0] == left@[at as int] && r[0] == right@[at as int]);
        proof {
            part_order(l[0], r[0]);
        }
        if is_part_before(left.part(at), right.part(at)) {
            return true;
        }
        if is_part_before(right.part(at), left.part(at)) {
            return false;
        }
        assert(l.skip(1) =~= left@.skip(at + 1));
        assert(r.skip(1) =~= right@.skip(at + 1));
        at += 1;
    }
    at < right.depth()
}

/// A byte string comes before another exactly where it is a proper beginning of it, or where it has
/// the smaller byte at the first place at which they differ.
pub proof fn the_first_difference_decides(left: Seq<u8>, right: Seq<u8>, at: int)
    requires
        0 <= at <= left.len(),
        at <= right.len(),
        forall|i: int| 0 <= i < at ==> left[i] == right[i],
    ensures
        at == left.len() && at < right.len() ==> bytes_before(left, right) && !bytes_before(right, left),
        at == left.len() && at == right.len() ==> !bytes_before(left, right) && !bytes_before(
            right,
            left,
        ),
        at < left.len() && at < right.len() && left[at] != right[at] ==> (bytes_before(left, right)
            <==> left[at] < right[at]),
    decreases at,
{
    if at > 0 {
        let l = left.skip(1);
        let r = right.skip(1);
        assert(left[0] == right[0]);
        assert forall|i: int| 0 <= i < at - 1 implies l[i] == r[i] by {
            assert(left[i + 1] == right[i + 1]);
        }
        the_first_difference_decides(l, r, at - 1);
    }
}

/// Of two paths that first differ in one component, that one decides: the root comes first, then the
/// current directory, then the parent, then names, which go by their bytes.
pub proof fn the_first_component_decides(left: Seq<Part>, right: Seq<Part>, at: int)
    requires
        0 <= at <= left.len(),
        at <= right.len(),
        forall|i: int| 0 <= i < at ==> left[i] == right[i],
    ensures
        at == left.len() && at < right.len() ==> parts_before(left, right),
        at == right.len() ==> !parts_before(left, right),
        at < left.len() && at < right.len() ==> match (left[at], right[at]) {
            (Part::Name(l), Part::Name(r)) => l != r ==> (parts_before(left, right) <==> bytes_before(
                l,
                r,
            )),
            (Part::Root, Part::Root) => true,
            (Part::Root, _) => parts_before(left, right),
            (Part::Current, Part::Parent) => parts_before(left, right),
            (_, Part::Name(_)) => parts_before(left, right),
            (Part::Name(_), _) => !parts_before(left, right),
            (_, Part::Root) => !parts_before(left, right),
            (Part::Parent, Part::Current) => !parts_before(left, right),
            _ => true,
        },
    decreases at,
{
    if at > 0 {
        let l = left.skip(1);
        let r = right.skip(1);
        assert(left[0] == right[0]);
        assert forall|i: int| 0 <= i < at - 1 implies l[i] == r[i] by {
            assert(left[i + 1] == right[i + 1]);
        }
        the_first_component_decides(l, r, at - 1);
    }
}

} // verus!
