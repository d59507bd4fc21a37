//! The dispatch table: the functions a unit needs from its host, and the
//! slots into which the host binds their addresses.

use crate::function_info::FunctionPrototype;
use vstd::prelude::*;

verus! {

/// The functions a unit calls through its host, each paired by position with
/// the slot that holds the bound address. The prototypes are fixed when the
/// unit is built; the host writes the slots when it links the unit, and again
/// each time it relinks it.
#[derive(Debug)]
pub struct DispatchTable<'a> {
    /// Where the prototypes of the required functions start.
    pub prototypes: &'a [FunctionPrototype<'a>],
    /// Where the slots start; the address bound to entry `i` is in slot `i`.
    pub fn_ptrs: Vec<usize>,
    /// How many entries the table has.
    pub num_entries: u32,
}

impl<'a> DispatchTable<'a> {
    /// Whether both arrays hold as many entries as the count says.
    pub open spec fn wf(&self) -> bool {
        &&& self.num_entries as int <= self.prototypes@.len()
        &&& self.num_entries as int <= self.fn_ptrs@.len()
    }

    /// Whether the table and the prototype of each of its entries are well
    /// formed.
    pub open spec fn valid(&self) -> bool {
        &&& self.wf()
        &&& forall|i: int| 0 <= i < self.num_entries ==> (#[trigger] self.prototypes@[i]).wf()
    }

    /// Tests whether both arrays hold as many entries as the count says.
    pub fn is_wf(&self) -> (ok: bool)
        ensures
            ok == self.wf(),
    {
        let n = self.num_entries as usize;
        n <= self.prototypes.len() && n <= self.fn_ptrs.len()
    }

    /// Tests whether the table and the prototype of each of its entries are
    /// well formed.
    pub fn is_valid(&self) -> (ok: bool)
        ensures
            ok == self.valid(),
    {
        if !self.is_wf() {
            return false;
        }
        let n = self.num_entries as usize;
        let mut i: usize = 0;
        while i < n
            invariant
                self.wf(),
                n == self.num_entries,
                i <= n,
                forall|k: int| 0 <= k < i ==> (#[trigger] self.prototypes@[k]).wf(),
            decreases n - i,
        {
            if !self.prototypes[i].is_wf() {
                return false;
            }
            i += 1;
        }
        true
    }

    /// The slots of the table's entries, in order.
    pub open spec fn slots(&self) -> Seq<usize> {
        self.fn_ptrs@.take(self.num_entries as int)
    }

    /// The prototypes of the table's entries, in order.
    pub open spec fn required(&self) -> Seq<FunctionPrototype<'a>> {
        self.prototypes@.take(self.num_entries as int)
    }

    /// The entries of the table: each slot with the prototype it binds.
    pub open spec fn entries(&self) -> Seq<(usize, FunctionPrototype<'a>)> {
        Seq::new(self.num_entries as nat, |i: int| (self.fn_ptrs@[i], self.prototypes@[i]))
    }

    /// What slot `idx` holds, or `None` past the last entry.
    pub open spec fn slot(&self, idx: int) -> Option<usize> {
        if 0 <= idx < self.num_entries {
            Some(self.fn_ptrs@[idx])
        } else {
            None
        }
    }

    /// A table over all of `prototypes` and `fn_ptrs`, if there are as many of
    /// the one as of the other and they can be counted in 32 bits.
    pub fn new(prototypes: &'a [FunctionPrototype<'a>], fn_ptrs: Vec<usize>) -> (table: Option<
        Self,
    >)
        ensures
            table is Some <==> prototypes@.len() == fn_ptrs@.len() && fn_ptrs@.len() <= u32::MAX,
            table is Some ==> {
                let table = table.unwrap();
                &&& table.prototypes == prototypes
                &&& table.fn_ptrs == fn_ptrs
                &&& table.num_entries == fn_ptrs@.len()
                &&& table.wf()
                &&& table.slots() == fn_ptrs@
                &&& table.required() == prototypes@
            },
    {
        if prototypes.len() == fn_ptrs.len() && fn_ptrs.len() <= u32::MAX as usize {
            let num_entries = fn_ptrs.len() as u32;
            Some(DispatchTable { prototypes, fn_ptrs, num_entries })
        } else {
            None
        }
    }

    /// Every entry of the table, in order: a reference to the slot, and the
    /// prototype that the slot binds.
    pub fn iter(&self) -> (entries: Vec<(&usize, &FunctionPrototype<'a>)>)
        requires
            self.wf(),
        ensures
            entries@.len() == self.num_entries,
            forall|i: int|
                0 <= i < entries@.len() ==> (*(#[trigger] entries@[i]).0, *entries@[i].1)
                    == self.entries()[i],
    {
        let n = self.num_entries as usize;
        let mut entries: Vec<(&usize, &FunctionPrototype<'a>)> = Vec::new();
        let mut i: usize = 0;
        while i < n
            invariant
                self.wf(),
                n == self.num_entries,
                i <= n,
                entries@.len() == i,
                forall|k: int|
                    0 <= k < i ==> (*(#[trigger] entries@[k]).0, *entries@[k].1)
                        == self.entries()[k],
            decreases n - i,
        {
            entries.push((&self.fn_ptrs[i], &self.prototypes[i]));
            i += 1;
        }
        entries
    }

    /// Every entry of the table, in order, for the host to bind: a mutable
    /// reference to the slot, and the prototype that the slot binds. What is
    /// written through the reference of entry `i` ends up in slot `i`.
    pub fn iter_mut(&mut self) -> (entries: Vec<(&mut usize, &FunctionPrototype<'a>)>)
        requires
            old(self).wf(),
        ensures
            entries@.len() == old(self).num_entries,
            forall|i: int|
                0 <= i < entries@.len() ==> (*(#[trigger] entries@[i]).0, *entries@[i].1)
                    == old(self).entries()[i],
            final(self).fn_ptrs@ == Seq::new(entries@.len(), |i: int| *final(entries@[i].0))
                + old(self).fn_ptrs@.skip(old(self).num_entries as int),
            final(self).prototypes == old(self).prototypes,
            final(self).num_entries == old(self).num_entries,
    {
        let n = self.num_entries as usize;
        let prototypes = self.prototypes;
        let (head, tail) = self.fn_ptrs.as_mut_slice().split_at_mut(n);
        let mut rest: &mut [usize] = head;
        let ghost bound: Seq<usize> = final(rest)@;
        let mut entries: Vec<(&mut usize, &FunctionPrototype<'a>)> = Vec::new();
        let mut i: usize = 0;
        while i < n
            invariant
                i <= n,
                n <= prototypes@.len(),
                n <= old(self).fn_ptrs@.len(),
                n == old(self).num_entries,
                prototypes == old(self).prototypes,
                rest@ == old(self).fn_ptrs@.subrange(i as int, n as int),
                entries@.len() == i,
                forall|k: int|
                    0 <= k < i ==> (*(#[trigger] entries@[k]).0, *entries@[k].1)
                        == old(self).entries()[k],
                bound == Seq::new(i as nat, |k: int| *final(entries@[k].0)) + final(rest)@,
            decreases n - i,
        {
            let (first, others) = rest.split_at_mut(1);
            match first.first_mut() {
                Some(slot) => {
                    entries.push((slot, &prototypes[i]));
                },
                None => {},
            }
            rest = others;
            i += 1;
            assert(bound =~= Seq::new(i as nat, |k: int| *final(entries@[k].0)) + final(rest)@);
        }
        assert(bound =~= Seq::new(i as nat, |k: int| *final(entries@[k].0)));
        entries
    }

    /// The slots of the table's entries, for the host to write the bound
    /// addresses. A count of zero gives an empty slice.
    pub fn ptrs_mut(&mut self) -> (slots: &mut [usize])
        requires
            old(self).wf(),
        ensures
            slots@ == old(self).slots(),
            final(self).fn_ptrs@ == final(slots)@ + old(self).fn_ptrs@.skip(
                old(self).num_entries as int,
            ),
            final(self).prototypes == old(self).prototypes,
            final(self).num_entries == old(self).num_entries,
    {
        let n = self.num_entries as usize;
        let (head, tail) = self.fn_ptrs.as_mut_slice().split_at_mut(n);
        head
    }

    /// The prototypes of the table's entries, in order. A count of zero gives
    /// an empty slice.
    pub fn prototypes(&self) -> (prototypes: &'a [FunctionPrototype<'a>])
        requires
            self.wf(),
        ensures
            prototypes@ == self.required(),
    {
        vstd::slice::slice_subrange(self.prototypes, 0, self.num_entries as usize)
    }

    /// What slot `idx` holds, for a caller that knows the index is in range.
    pub fn get_ptr_unchecked(&self, idx: u32) -> (ptr: usize)
        requires
            self.wf(),
            idx < self.num_entries,
        ensures
            self.slot(idx as int) == Some(ptr),
    {
        self.fn_ptrs[idx as usize]
    }

    /// What slot `idx` holds, or `None` where the index is past the last
    /// entry.
    pub fn get_ptr(&self, idx: u32) -> (ptr: Option<usize>)
        requires
            self.wf(),
        ensures
            ptr == self.slot(idx as int),
    {
        if idx < self.num_entries {
            Some(self.get_ptr_unchecked(idx))
        } else {
            None
        }
    }

    /// Slot `idx`, for a caller that knows the index is in range. What is
    /// written through the reference ends up in the slot.
    pub fn get_ptr_unchecked_mut(&mut self, idx: u32) -> (slot: &mut usize)
        requires
            old(self).wf(),
            idx < old(self).num_entries,
        ensures
            old(self).slot(idx as int) == Some(*slot),
            final(self).fn_ptrs@ == old(self).fn_ptrs@.update(idx as int, *final(slot)),
            final(self).prototypes == old(self).prototypes,
            final(self).num_entries == old(self).num_entries,
    {
        &mut self.fn_ptrs[idx as usize]
    }

    /// Slot `idx`, or `None` where the index is past the last entry. What is
    /// written through the reference ends up in the slot; with `None` the
    /// table is left as it was.
    pub fn get_ptr_mut(&mut self, idx: u32) -> (slot: Option<&mut usize>)
        requires
            old(self).wf(),
        ensures
            slot is Some <==> idx < old(self).num_entries,
            slot is Some ==> old(self).slot(idx as int) == Some(*slot.unwrap()),
            slot is Some ==> final(self).fn_ptrs@ == old(self).fn_ptrs@.update(
                idx as int,
                *final(slot.unwrap()),
            ),
            slot is None ==> final(self).fn_ptrs@ == old(self).fn_ptrs@,
            final(self).prototypes == old(self).prototypes,
            final(self).num_entries == old(self).num_entries,
    {
        if idx < self.num_entries {
            Some(self.get_ptr_unchecked_mut(idx))
        } else {
            None
        }
    }
}

/// Slot `i` and prototype `i` belong to entry `i` for every index below the
/// count, and no slot is found at the count or past it.
pub proof fn lemma_slots_pair_with_prototypes(table: DispatchTable<'_>, idx: int)
    requires
        table.wf(),
        0 <= idx,
    ensures
        idx < table.num_entries ==> {
            &&& table.slot(idx) == Some(table.entries()[idx].0)
            &&& table.slots()[idx] == table.entries()[idx].0
            &&& table.required()[idx] == table.entries()[idx].1
        },
        idx >= table.num_entries ==> table.slot(idx) is None,
        table.slots().len() == table.num_entries,
        table.required().len() == table.num_entries,
        table.entries().len() == table.num_entries,
{
}

} // verus!
