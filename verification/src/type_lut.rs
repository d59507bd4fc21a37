//! The type lookup table: the types a unit needs from its host, and the slots
//! into which the host binds their handles.

use crate::type_id::TypeId;
use vstd::prelude::*;

verus! {

/// The types a unit refers to through its host, each paired by position with
/// its name and with the slot that holds the bound handle. Identities and
/// names are fixed when the unit is built; the host writes the slots when it
/// links the unit, and again each time it relinks it.
#[derive(Debug)]
pub struct TypeLut<'a> {
    /// Where the identities of the required types start.
    pub type_ids: &'a [TypeId<'a>],
    /// Where the slots start; the handle bound to entry `i` is in slot `i`.
    pub type_handles: Vec<usize>,
    /// Where the names of the required types start.
    pub type_names: &'a [&'a str],
    /// How many entries the table has.
    pub num_entries: u32,
}

impl<'a> TypeLut<'a> {
    /// Whether each of the three arrays holds as many entries as the count
    /// says.
    pub open spec fn wf(&self) -> bool {
        &&& self.num_entries as int <= self.type_ids@.len()
        &&& self.num_entries as int <= self.type_handles@.len()
        &&& self.num_entries as int <= self.type_names@.len()
    }

    /// Tests whether each of the three arrays holds as many entries as the
    /// count says.
    pub fn is_wf(&self) -> (ok: bool)
        ensures
            ok == self.wf(),
    {
        let n = self.num_entries as usize;
        n <= self.type_ids.len() && n <= self.type_handles.len() && n <= self.type_names.len()
    }

    /// The slots of the table's entries, in order.
    pub open spec fn handles(&self) -> Seq<usize> {
        self.type_handles@.take(self.num_entries as int)
    }

    /// The identities of the table's entries, in order.
    pub open spec fn ids(&self) -> Seq<TypeId<'a>> {
        self.type_ids@.take(self.num_entries as int)
    }

    /// The names of the table's entries, in order.
    pub open spec fn names(&self) -> Seq<&'a str> {
        self.type_names@.take(self.num_entries as int)
    }

    /// The entries of the table: each identity with the slot that binds it
    /// and with its name.
    pub open spec fn entries(&self) -> Seq<(TypeId<'a>, usize, &'a str)> {
        Seq::new(
            self.num_entries as nat,
            |i: int| (self.type_ids@[i], self.type_handles@[i], self.type_names@[i]),
        )
    }

    /// What slot `idx` holds, or `None` past the last entry.
    pub open spec fn handle(&self, idx: int) -> Option<usize> {
        if 0 <= idx < self.num_entries {
            Some(self.type_handles@[idx])
        } else {
            None
        }
    }

    /// A table over all of the three arrays, if they have the same length and
    /// the entries can be counted in 32 bits.
    pub fn new(
        type_ids: &'a [TypeId<'a>],
        type_handles: Vec<usize>,
        type_names: &'a [&'a str],
    ) -> (table: Option<Self>)
        ensures
            table is Some <==> type_ids@.len() == type_handles@.len() && type_handles@.len()
                == type_names@.len() && type_handles@.len() <= u32::MAX,
            table is Some ==> {
                let table = table.unwrap();
                &&& table.type_ids == type_ids
                &&& table.type_handles == type_handles
                &&& table.type_names == type_names
                &&& table.num_entries == type_handles@.len()
                &&& table.wf()
                &&& table.ids() == type_ids@
                &&& table.handles() == type_handles@
                &&& table.names() == type_names@
            },
    {
        if type_ids.len() == type_handles.len() && type_handles.len() == type_names.len()
            && type_handles.len() <= u32::MAX as usize {
            let num_entries = type_handles.len() as u32;
            Some(TypeLut { type_ids, type_handles, type_names, num_entries })
        } else {
            None
        }
    }

    /// Every entry of the table, in order: the identity, a reference to the
    /// slot that binds it, and the name.
    pub fn iter(&self) -> (entries: Vec<(&TypeId<'a>, &usize, &'a str)>)
        requires
            self.wf(),
        ensures
            entries@.len() == self.num_entries,
            forall|i: int|
                0 <= i < entries@.len() ==> (
                    *(#[trigger] entries@[i]).0,
                    *entries@[i].1,
                    entries@[i].2,
                ) == self.entries()[i],
    {
        let n = self.num_entries as usize;
        let mut entries: Vec<(&TypeId<'a>, &usize, &'a str)> = Vec::new();
        let mut i: usize = 0;
        while i < n
            invariant
                self.wf(),
                n == self.num_entries,
                i <= n,
                entries@.len() == i,
                forall|k: int|
                    0 <= k < i ==> (*(#[trigger] entries@[k]).0, *entries@[k].1, entries@[k].2)
                        == self.entries()[k],
            decreases n - i,
        {
            entries.push((&self.type_ids[i], &self.type_handles[i], self.type_names[i]));
            i += 1;
        }
        entries
    }

    /// Every entry of the table, in order, for the host to bind: the
    /// identity, a mutable reference to the slot that binds it, and the name.
    /// What is written through the reference of entry `i` ends up in slot `i`.
    pub fn iter_mut(&mut self) -> (entries: Vec<(&TypeId<'a>, &mut usize, &'a str)>)
        requires
            old(self).wf(),
        ensures
            entries@.len() == old(self).num_entries,
            forall|i: int|
                0 <= i < entries@.len() ==> (
                    *(#[trigger] entries@[i]).0,
                    *entries@[i].1,
                    entries@[i].2,
                ) == old(self).entries()[i],
            final(self).type_handles@ == Seq::new(entries@.len(), |i: int| *final(entries@[i].1))
                + old(self).type_handles@.skip(old(self).num_entries as int),
            final(self).type_ids == old(self).type_ids,
            final(self).type_names == old(self).type_names,
            final(self).num_entries == old(self).num_entries,
    {
        let n = self.num_entries as usize;
        let type_ids = self.type_ids;
        let type_names = self.type_names;
        let (head, tail) = self.type_handles.as_mut_slice().split_at_mut(n);
        let mut rest: &mut [usize] = head;
        let ghost bound: Seq<usize> = final(rest)@;
        let mut entries: Vec<(&TypeId<'a>, &mut usize, &'a str)> = Vec::new();
        let mut i: usize = 0;
        while i < n
            invariant
                i <= n,
                n <= type_ids@.len(),
                n <= type_names@.len(),
                n <= old(self).type_handles@.len(),
                n == old(self).num_entries,
                type_ids == old(self).type_ids,
                type_names == old(self).type_names,
                rest@ == old(self).type_handles@.subrange(i as int, n as int),
                entries@.len() == i,
                forall|k: int|
                    0 <= k < i ==> (*(#[trigger] entries@[k]).0, *entries@[k].1, entries@[k].2)
                        == old(self).entries()[k],
                bound == Seq::new(i as nat, |k: int| *final(entries@[k].1)) + final(rest)@,
            decreases n - i,
        {
            let (first, others) = rest.split_at_mut(1);
            match first.first_mut() {
                Some(slot) => {
                    entries.push((&type_ids[i], slot, type_names[i]));
                },
                None => {},
            }
            rest = others;
            i += 1;
            assert(bound =~= Seq::new(i as nat, |k: int| *final(entries@[k].1)) + final(rest)@);
        }
        assert(bound =~= Seq::new(i as nat, |k: int| *final(entries@[k].1)));
        entries
    }

    /// The slots of the table's entries, for the host to write the bound
    /// handles. A count of zero gives an empty slice.
    pub fn type_handles_mut(&mut self) -> (slots: &mut [usize])
        requires
            old(self).wf(),
        ensures
            slots@ == old(self).handles(),
            final(self).type_handles@ == final(slots)@ + old(self).type_handles@.skip(
                old(self).num_entries as int,
            ),
            final(self).type_ids == old(self).type_ids,
            final(self).type_names == old(self).type_names,
            final(self).num_entries == old(self).num_entries,
    {
        let n = self.num_entries as usize;
        let (head, tail) = self.type_handles.as_mut_slice().split_at_mut(n);
        head
    }

    /// The identities of the table's entries, in order. A count of zero gives
    /// an empty slice.
    pub fn type_ids(&self) -> (ids: &'a [TypeId<'a>])
        requires
            self.wf(),
        ensures
            ids@ == self.ids(),
    {
        vstd::slice::slice_subrange(self.type_ids, 0, self.num_entries as usize)
    }

    /// What slot `idx` holds, for a caller that knows the index is in range.
    pub fn get_type_handle_unchecked(&self, idx: u32) -> (handle: usize)
        requires
            self.wf(),
            idx < self.num_entries,
        ensures
            self.handle(idx as int) == Some(handle),
    {
        self.type_handles[idx as usize]
    }

    /// What slot `idx` holds, or `None` where the index is past the last
    /// entry.
    pub fn get_type_handle(&self, idx: u32) -> (handle: Option<usize>)
        requires
            self.wf(),
        ensures
            handle == self.handle(idx as int),
    {
        if idx < self.num_entries {
            Some(self.get_type_handle_unchecked(idx))
        } else {
            None
        }
    }

    /// Slot `idx`, for a caller that knows the index is in range. What is
    /// written through the reference ends up in the slot.
    pub fn get_type_handle_unchecked_mut(&mut self, idx: u32) -> (slot: &mut usize)
        requires
            old(self).wf(),
            idx < old(self).num_entries,
        ensures
            old(self).handle(idx as int) == Some(*slot),
            final(self).type_handles@ == old(self).type_handles@.update(idx as int, *final(slot)),
            final(self).type_ids == old(self).type_ids,
            final(self).type_names == old(self).type_names,
            final(self).num_entries == old(self).num_entries,
    {
        &mut self.type_handles[idx as usize]
    }

    /// Slot `idx`, or `None` where the index is past the last entry. What is
    /// written through the reference ends up in the slot; with `None` the
    /// table is left as it was.
    pub fn get_type_handle_mut(&mut self, idx: u32) -> (slot: Option<&mut usize>)
        requires
            old(self).wf(),
        ensures
            slot is Some <==> idx < old(self).num_entries,
            slot is Some ==> old(self).handle(idx as int) == Some(*slot.unwrap()),
            slot is Some ==> final(self).type_handles@ == old(self).type_handles@.update(
                idx as int,
                *final(slot.unwrap()),
            ),
            slot is None ==> final(self).type_handles@ == old(self).type_handles@,
            final(self).type_ids == old(self).type_ids,
            final(self).type_names == old(self).type_names,
            final(self).num_entries == old(self).num_entries,
    {
        if idx < self.num_entries {
            Some(self.get_type_handle_unchecked_mut(idx))
        } else {
            None
        }
    }

    /// The names of the table's entries, in order. A count of zero gives an
    /// empty slice.
    pub fn type_names(&self) -> (names: &'a [&'a str])
        requires
            self.wf(),
        ensures
            names@ == self.names(),
    {
        vstd::slice::slice_subrange(self.type_names, 0, self.num_entries as usize)
    }
}

/// Identity `i`, slot `i` and name `i` belong to entry `i` for every index
/// below the count, and no slot is found at the count or past it.
pub proof fn lemma_handles_pair_with_types(table: TypeLut<'_>, idx: int)
    requires
        table.wf(),
        0 <= idx,
    ensures
        idx < table.num_entries ==> {
            &&& table.handle(idx) == Some(table.entries()[idx].1)
            &&& table.handles()[idx] == table.entries()[idx].1
            &&& table.ids()[idx] == table.entries()[idx].0
            &&& table.names()[idx] == table.entries()[idx].2
        },
        idx >= table.num_entries ==> table.handle(idx) is None,
        table.handles().len() == table.num_entries,
        table.ids().len() == table.num_entries,
        table.names().len() == table.num_entries,
        table.entries().len() == table.num_entries,
{
}

} // verus!
