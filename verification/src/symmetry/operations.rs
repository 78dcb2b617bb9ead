//! The tables of symmetry operations and the assembly of orbits.
//!
//! Two tables map a group number to a list of affine operations: the full
//! list of a group's symmetry operations, and the shorter list of its
//! generators. How an operation acts on a point is arithmetic on
//! coordinates, which is the caller's part: the caller fetches the
//! operations of a group, computes the images of a seed point under them,
//! and hands the images back to have the orbit made of them.

use crate::symmetry::group::SpaceGroup;
use crate::symmetry::identifier::IntoSpaceGroupNumber;
use crate::symmetry::orbit::{is_orbit_of, Orbit};
use crate::symmetry::point::{Matrix4, Point3};
use vstd::prelude::*;

verus! {

/// A map from group numbers to lists of operations: what both tables are
/// made of.
struct OperationTable {
    slots: Vec<Option<Vec<Matrix4>>>,
}

impl View for OperationTable {
    type V = Map<u8, Seq<Matrix4>>;

    closed spec fn view(&self) -> Map<u8, Seq<Matrix4>> {
        Map::new(
            |n: u8| n < self.slots@.len() && self.slots@[n as int] is Some,
            |n: u8| self.slots@[n as int]->0@,
        )
    }
}

/// All the points of a list of lists, in order.
pub open spec fn all_points(lists: Seq<Vec<Point3>>) -> Seq<Point3> {
    lists.map_values(|list: Vec<Point3>| list@).flatten()
}

impl OperationTable {
    /// The invariant of a table: it has a place for every group number.
    spec fn wf(&self) -> bool {
        self.slots@.len() == 256
    }

    /// The operations that the table holds for the group that `id` names in
    /// `groups`, if `id` names a group and the table has an entry for it.
    spec fn operations_for<N: IntoSpaceGroupNumber>(
        &self,
        groups: &SpaceGroup,
        id: &N,
    ) -> Option<Seq<Matrix4>> {
        match id.number_in(groups) {
            Some(n) => if self@.contains_key(n) {
                Some(self@[n])
            } else {
                None
            },
            None => None,
        }
    }

    /// The table without entries.
    fn new() -> (table: OperationTable)
        ensures
            table.wf(),
            table@ == Map::<u8, Seq<Matrix4>>::empty(),
    {
        let mut slots: Vec<Option<Vec<Matrix4>>> = Vec::new();
        let mut i: usize = 0;
        while i < 256
            invariant
                i <= 256,
                slots@.len() == i,
                forall|k: int| 0 <= k < i ==> slots@[k] is None,
            decreases 256 - i,
        {
            slots.push(None);
            i += 1;
        }
        let table = OperationTable { slots };
        assert(table@ =~= Map::<u8, Seq<Matrix4>>::empty());
        table
    }

    /// Sets the operations of group `number`, in place of those that the
    /// table held for it, if any.
    fn insert(&mut self, number: u8, operations: Vec<Matrix4>)
        requires
            old(self).wf(),
        ensures
            final(self).wf(),
            final(self)@ == old(self)@.insert(number, operations@),
    {
        self.slots.set(number as usize, Some(operations));
        assert(self@ =~= old(self)@.insert(number, operations@));
    }

    /// The operations of group `number`.
    fn lookup(&self, number: u8) -> (operations: Option<&Vec<Matrix4>>)
        requires
            self.wf(),
        ensures
            match operations {
                Some(list) => self@.contains_key(number) && list@ == self@[number],
                None => !self@.contains_key(number),
            },
    {
        self.slots[number as usize].as_ref()
    }

    /// The operations of the group that `id` names.
    fn get<N: IntoSpaceGroupNumber>(&self, groups: &SpaceGroup, id: N) -> (operations: Option<
        &Vec<Matrix4>,
    >)
        requires
            self.wf(),
            groups.wf(),
        ensures
            match operations {
                Some(list) => self.operations_for(groups, &id) == Some(list@),
                None => self.operations_for(groups, &id) is None,
            },
    {
        match id.into_space_group_number(groups) {
            Some(number) => self.lookup(number),
            None => None,
        }
    }

    /// Every entry of the table, by ascending group number.
    fn get_all(&self) -> (entries: Vec<(u8, &Vec<Matrix4>)>)
        requires
            self.wf(),
        ensures
            forall|i: int, j: int| 0 <= i < j < entries@.len() ==> entries@[i].0 < entries@[j].0,
            forall|i: int|
                0 <= i < entries@.len() ==> self@.contains_key(#[trigger] entries@[i].0)
                    && entries@[i].1@ == self@[entries@[i].0],
            forall|n: u8|
                self@.contains_key(n) ==> exists|i: int|
                    0 <= i < entries@.len() && #[trigger] entries@[i].0 == n,
    {
        let mut entries: Vec<(u8, &Vec<Matrix4>)> = Vec::new();
        let mut number: usize = 0;
        while number < 256
            invariant
                self.wf(),
                number <= 256,
                forall|i: int| 0 <= i < entries@.len() ==> (#[trigger] entries@[i]).0 < number,
                forall|i: int, j: int|
                    0 <= i < j < entries@.len() ==> entries@[i].0 < entries@[j].0,
                forall|i: int|
                    0 <= i < entries@.len() ==> self@.contains_key(#[trigger] entries@[i].0)
                        && entries@[i].1@ == self@[entries@[i].0],
                forall|n: u8|
                    n < number && self@.contains_key(n) ==> exists|i: int|
                        0 <= i < entries@.len() && #[trigger] entries@[i].0 == n,
            decreases 256 - number,
        {
            let ghost before = entries@;
            match self.lookup(number as u8) {
                Some(list) => {
                    entries.push((number as u8, list));
                    assert forall|n: u8| n < number + 1 && self@.contains_key(n) implies exists|
                        i: int,
                    |
                        0 <= i < entries@.len() && #[trigger] entries@[i].0 == n by {
                        if n < number {
                            let i = choose|i: int| 0 <= i < before.len() && #[trigger] before[i].0 == n;
                            assert(entries@[i].0 == n);
                        } else {
                            assert(entries@[before.len() as int].0 == n);
                        }
                    }
                },
                None => {},
            }
            number += 1;
        }
        entries
    }

    /// The orbit made of the images of one seed point under the operations
    /// of the group that `id` names: the images without repetition, by
    /// ascending key. Gives nothing if `id` names no group or the table has
    /// no operations for it.
    fn orbit_of_images<N: IntoSpaceGroupNumber>(
        &self,
        groups: &SpaceGroup,
        id: N,
        images: &Vec<Point3>,
    ) -> (orbit: Option<Vec<Point3>>)
        requires
            self.wf(),
            groups.wf(),
        ensures
            orbit is Some <==> self.operations_for(groups, &id) is Some,
            orbit matches Some(points) ==> is_orbit_of(points@, images@),
    {
        match self.get(groups, id) {
            Some(_) => {
                let orbit = Orbit::from_points(images);
                Some(orbit.into_values())
            },
            None => None,
        }
    }

    /// The orbit made of the images of several seed points, `images[i]`
    /// being those of the i-th seed: all the images without repetition, by
    /// ascending key. Gives nothing if `id` names no group, or if there is a
    /// seed and the table has no operations for the group.
    fn orbit_of_all_images<N: IntoSpaceGroupNumber>(
        &self,
        groups: &SpaceGroup,
        id: N,
        images: &Vec<Vec<Point3>>,
    ) -> (orbit: Option<Vec<Point3>>)
        requires
            self.wf(),
            groups.wf(),
        ensures
            orbit is Some <==> id.number_in(groups) is Some && (images@.len() == 0
                || self.operations_for(groups, &id) is Some),
            orbit matches Some(points) ==> is_orbit_of(points@, all_points(images@)),
    {
        let number = match id.into_space_group_number(groups) {
            Some(number) => number,
            None => {
                return None;
            },
        };
        let mut merged = Orbit::new();
        let mut i: usize = 0;
        assert(images@.take(0) =~= Seq::<Vec<Point3>>::empty());
        while i < images.len()
            invariant
                self.wf(),
                groups.wf(),
                merged.wf(),
                i <= images@.len(),
                id.number_in(groups) == Some(number),
                number.number_in(groups) == Some(number),
                i > 0 ==> self@.contains_key(number),
                is_orbit_of(merged@, all_points(images@.take(i as int))),
            decreases images@.len() - i,
        {
            let ghost before = merged@;
            let ghost seen = all_points(images@.take(i as int));
            let part = match self.orbit_of_images(groups, number, &images[i]) {
                Some(part) => part,
                None => {
                    return None;
                },
            };
            merged.extend(&part);
            proof {
                let lists = images@.take(i as int).map_values(|list: Vec<Point3>| list@);
                assert(images@.take(i + 1).map_values(|list: Vec<Point3>| list@) =~= lists.push(
                    images@[i as int]@,
                ));
                lists.lemma_flatten_push(images@[i as int]@);
                let next = all_points(images@.take(i + 1));
                assert(next =~= seen + images@[i as int]@);
                assert forall|p: Point3| merged@.contains(p) <==> next.contains(p) by {
                    lemma_concat_contains(before, part@, p);
                    lemma_concat_contains(seen, images@[i as int]@, p);
                }
            }
            i += 1;
        }
        assert(images@.take(images@.len() as int) =~= images@);
        Some(merged.into_values())
    }
}

/// A point occurs in `a + b` exactly when it occurs in `a` or in `b`.
proof fn lemma_concat_contains(a: Seq<Point3>, b: Seq<Point3>, p: Point3)
    ensures
        (a + b).contains(p) <==> (a.contains(p) || b.contains(p)),
{
    if (a + b).contains(p) {
        let i = choose|i: int| 0 <= i < (a + b).len() && (a + b)[i] == p;
        if i < a.len() {
            assert(a[i] == p);
        } else {
            assert(b[i - a.len()] == p);
        }
    }
    if a.contains(p) {
        let i = choose|i: int| 0 <= i < a.len() && a[i] == p;
        assert((a + b)[i] == p);
    }
    if b.contains(p) {
        let i = choose|i: int| 0 <= i < b.len() && b[i] == p;
        assert((a + b)[i + a.len()] == p);
    }
}

/// The table of generators of each space group: a short list of operations from which the others follow.
pub struct SpaceGroupGenerators {
    table: OperationTable,
}

impl View for SpaceGroupGenerators {
    type V = Map<u8, Seq<Matrix4>>;

    closed spec fn view(&self) -> Map<u8, Seq<Matrix4>> {
        self.table@
    }
}

impl SpaceGroupGenerators {
    /// The invariant of the table.
    pub closed spec fn wf(&self) -> bool {
        self.table.wf()
    }

    /// The generators that the table holds for the group that `id` names in
    /// `groups`, if `id` names a group and the table has an entry for it.
    pub open spec fn operations_for<N: IntoSpaceGroupNumber>(
        &self,
        groups: &SpaceGroup,
        id: &N,
    ) -> Option<Seq<Matrix4>> {
        match id.number_in(groups) {
            Some(n) => if self@.contains_key(n) {
                Some(self@[n])
            } else {
                None
            },
            None => None,
        }
    }

    /// The table without entries.
    pub fn new() -> (table: SpaceGroupGenerators)
        ensures
            table.wf(),
            table@ == Map::<u8, Seq<Matrix4>>::empty(),
    {
        SpaceGroupGenerators { table: OperationTable::new() }
    }

    /// Sets the generators of group `number`, in place of those that the table
    /// held for it, if any.
    pub fn insert(&mut self, number: u8, operations: Vec<Matrix4>)
        requires
            old(self).wf(),
        ensures
            final(self).wf(),
            final(self)@ == old(self)@.insert(number, operations@),
    {
        self.table.insert(number, operations);
    }

    /// The generators of the group that `space_group_number` names. Gives
    /// nothing if it names no group of `groups` or the table has no entry
    /// for the group.
    pub fn get<N: IntoSpaceGroupNumber>(&self, groups: &SpaceGroup, space_group_number: N) -> (operations:
        Option<&Vec<Matrix4>>)
        requires
            self.wf(),
            groups.wf(),
        ensures
            match operations {
                Some(list) => self.operations_for(groups, &space_group_number) == Some(list@),
                None => self.operations_for(groups, &space_group_number) is None,
            },
    {
        self.table.get(groups, space_group_number)
    }

    /// Every entry of the table, by ascending group number.
    pub fn get_all(&self) -> (entries: Vec<(u8, &Vec<Matrix4>)>)
        requires
            self.wf(),
        ensures
            forall|i: int, j: int| 0 <= i < j < entries@.len() ==> entries@[i].0 < entries@[j].0,
            forall|i: int|
                0 <= i < entries@.len() ==> self@.contains_key(#[trigger] entries@[i].0)
                    && entries@[i].1@ == self@[entries@[i].0],
            forall|n: u8|
                self@.contains_key(n) ==> exists|i: int|
                    0 <= i < entries@.len() && #[trigger] entries@[i].0 == n,
    {
        self.table.get_all()
    }

    /// The symmetry-equivalent points of one seed point, made of `images`:
    /// the images of the seed under the generators of the group, as the
    /// caller computed them. The result holds every image once, by ascending
    /// key. Gives nothing if `space_group_number` names no group of `groups`
    /// or the table has no entry for the group.
    pub fn generate_symmetry_equivalent_points_from_point<N: IntoSpaceGroupNumber>(
        &self,
        groups: &SpaceGroup,
        space_group_number: N,
        images: &Vec<Point3>,
    ) -> (orbit: Option<Vec<Point3>>)
        requires
            self.wf(),
            groups.wf(),
        ensures
            orbit is Some <==> self.operations_for(groups, &space_group_number) is Some,
            orbit matches Some(points) ==> is_orbit_of(points@, images@),
    {
        self.table.orbit_of_images(groups, space_group_number, images)
    }

    /// The symmetry-equivalent points of several seed points, `images[i]`
    /// being the images of the i-th seed. The group is resolved once; the
    /// orbit of each seed is made on its own, and all are merged into one
    /// that holds every image once, by ascending key. Gives nothing if
    /// `space_group_number` names no group of `groups`, or if there is a seed
    /// and the table has no entry for the group.
    pub fn generate_symmetry_equivalent_points_from_points<N: IntoSpaceGroupNumber>(
        &self,
        groups: &SpaceGroup,
        space_group_number: N,
        images: &Vec<Vec<Point3>>,
    ) -> (orbit: Option<Vec<Point3>>)
        requires
            self.wf(),
            groups.wf(),
        ensures
            orbit is Some <==> space_group_number.number_in(groups) is Some && (images@.len() == 0
                || self.operations_for(groups, &space_group_number) is Some),
            orbit matches Some(points) ==> is_orbit_of(points@, all_points(images@)),
    {
        self.table.orbit_of_all_images(groups, space_group_number, images)
    }
}

/// The table of symmetry operations of each space group, in full.
pub struct SpaceGroupSymmetryOperations {
    table: OperationTable,
}

impl View for SpaceGroupSymmetryOperations {
    type V = Map<u8, Seq<Matrix4>>;

    closed spec fn view(&self) -> Map<u8, Seq<Matrix4>> {
        self.table@
    }
}

impl SpaceGroupSymmetryOperations {
    /// The invariant of the table.
    pub closed spec fn wf(&self) -> bool {
        self.table.wf()
    }

    /// The symmetry operations that the table holds for the group that `id` names in
    /// `groups`, if `id` names a group and the table has an entry for it.
    pub open spec fn operations_for<N: IntoSpaceGroupNumber>(
        &self,
        groups: &SpaceGroup,
        id: &N,
    ) -> Option<Seq<Matrix4>> {
        match id.number_in(groups) {
            Some(n) => if self@.contains_key(n) {
                Some(self@[n])
            } else {
                None
            },
            None => None,
        }
    }

    /// The table without entries.
    pub fn new() -> (table: SpaceGroupSymmetryOperations)
        ensures
            table.wf(),
            table@ == Map::<u8, Seq<Matrix4>>::empty(),
    {
        SpaceGroupSymmetryOperations { table: OperationTable::new() }
    }

    /// Sets the symmetry operations of group `number`, in place of those that the table
    /// held for it, if any.
    pub fn insert(&mut self, number: u8, operations: Vec<Matrix4>)
        requires
            old(self).wf(),
        ensures
            final(self).wf(),
            final(self)@ == old(self)@.insert(number, operations@),
    {
        self.table.insert(number, operations);
    }

    /// The symmetry operations of the group that `space_group_number` names. Gives
    /// nothing if it names no group of `groups` or the table has no entry
    /// for the group.
    pub fn get<N: IntoSpaceGroupNumber>(&self, groups: &SpaceGroup, space_group_number: N) -> (operations:
        Option<&Vec<Matrix4>>)
        requires
            self.wf(),
            groups.wf(),
        ensures
            match operations {
                Some(list) => self.operations_for(groups, &space_group_number) == Some(list@),
                None => self.operations_for(groups, &space_group_number) is None,
            },
    {
        self.table.get(groups, space_group_number)
    }

    /// Every entry of the table, by ascending group number.
    pub fn get_all(&self) -> (entries: Vec<(u8, &Vec<Matrix4>)>)
        requires
            self.wf(),
        ensures
            forall|i: int, j: int| 0 <= i < j < entries@.len() ==> entries@[i].0 < entries@[j].0,
            forall|i: int|
                0 <= i < entries@.len() ==> self@.contains_key(#[trigger] entries@[i].0)
                    && entries@[i].1@ == self@[entries@[i].0],
            forall|n: u8|
                self@.contains_key(n) ==> exists|i: int|
                    0 <= i < entries@.len() && #[trigger] entries@[i].0 == n,
    {
        self.table.get_all()
    }

    /// The symmetry-equivalent points of one seed point, made of `images`:
    /// the images of the seed under the symmetry operations of the group, as the
    /// caller computed them. The result holds every image once, by ascending
    /// key. Gives nothing if `space_group_number` names no group of `groups`
    /// or the table has no entry for the group.
    pub fn generate_symmetry_equivalent_points_from_point<N: IntoSpaceGroupNumber>(
        &self,
        groups: &SpaceGroup,
        space_group_number: N,
        images: &Vec<Point3>,
    ) -> (orbit: Option<Vec<Point3>>)
        requires
            self.wf(),
            groups.wf(),
        ensures
            orbit is Some <==> self.operations_for(groups, &space_group_number) is Some,
            orbit matches Some(points) ==> is_orbit_of(points@, images@),
    {
        self.table.orbit_of_images(groups, space_group_number, images)
    }

    /// The symmetry-equivalent points of several seed points, `images[i]`
    /// being the images of the i-th seed. The group is resolved once; the
    /// orbit of each seed is made on its own, and all are merged into one
    /// that holds every image once, by ascending key. Gives nothing if
    /// `space_group_number` names no group of `groups`, or if there is a seed
    /// and the table has no entry for the group.
    pub fn generate_symmetry_equivalent_points_from_points<N: IntoSpaceGroupNumber>(
        &self,
        groups: &SpaceGroup,
        space_group_number: N,
        images: &Vec<Vec<Point3>>,
    ) -> (orbit: Option<Vec<Point3>>)
        requires
            self.wf(),
            groups.wf(),
        ensures
            orbit is Some <==> space_group_number.number_in(groups) is Some && (images@.len() == 0
                || self.operations_for(groups, &space_group_number) is Some),
            orbit matches Some(points) ==> is_orbit_of(points@, all_points(images@)),
    {
        self.table.orbit_of_all_images(groups, space_group_number, images)
    }
}

} // verus!
