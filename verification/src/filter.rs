//! Instrumentation filters.
//!
//! A filter decides whether one parameter (a guest address, or a paging
//! identifier) is in scope for instrumentation. [`QemuFilterList`] wraps any
//! concrete filter as an allow-list, a deny-list, or no restriction at all.
//! The two concrete filters are an ordered collection of half-open address
//! ranges and a set of physical page identifiers.

use std::collections::HashSet;
use vstd::prelude::*;

use crate::emu::{GuestAddr, GuestPhysAddr};

verus! {

broadcast use vstd::std_specs::hash::group_hash_axioms;

/// The capability of deciding whether one parameter is allowed, i.e. in
/// scope for instrumentation. Evaluation is pure: `allowed` returns exactly
/// what the mathematical predicate [`IsFilter::spec_allowed`] says.
pub trait IsFilter: Sized {
    /// The kind of parameter this filter judges.
    type FilterParameter;

    /// What this filter allows, as a mathematical predicate.
    spec fn spec_allowed(&self, filter_parameter: Self::FilterParameter) -> bool;

    /// Decide whether `filter_parameter` is allowed.
    fn allowed(&self, filter_parameter: Self::FilterParameter) -> (r: bool)
        ensures
            r == self.spec_allowed(filter_parameter),
    ;
}

/// A filter list: wraps a concrete filter as an allow-list or a deny-list,
/// or places no restriction at all.
#[derive(Clone)]
pub enum QemuFilterList<T: IsFilter + Clone> {
    /// Allow exactly what the inner filter allows.
    AllowList(T),
    /// Allow exactly what the inner filter does not allow.
    DenyList(T),
    /// Allow everything.
    Unrestricted,
}

impl<T: IsFilter + Clone> IsFilter for QemuFilterList<T> {
    type FilterParameter = T::FilterParameter;

    open spec fn spec_allowed(&self, filter_parameter: T::FilterParameter) -> bool {
        match self {
            QemuFilterList::AllowList(allow_list) => allow_list.spec_allowed(filter_parameter),
            QemuFilterList::DenyList(deny_list) => !deny_list.spec_allowed(filter_parameter),
            QemuFilterList::Unrestricted => true,
        }
    }

    fn allowed(&self, filter_parameter: T::FilterParameter) -> (r: bool) {
        match self {
            QemuFilterList::AllowList(allow_list) => allow_list.allowed(filter_parameter),
            QemuFilterList::DenyList(deny_list) => !deny_list.allowed(filter_parameter),
            QemuFilterList::Unrestricted => true,
        }
    }
}

/// An allow-list admits exactly what its inner filter admits: for every
/// filter `f` and every parameter `p`, `AllowList(f)` allows `p` if and only
/// if `f` allows `p`.
pub proof fn lemma_allow_list_allowed<T: IsFilter + Clone>(f: T, p: T::FilterParameter)
    ensures
        QemuFilterList::AllowList(f).spec_allowed(p) == f.spec_allowed(p),
{
}

/// A deny-list admits exactly what its inner filter rejects: for every
/// filter `f` and every parameter `p`, `DenyList(f)` allows `p` if and only
/// if `f` does not allow `p`.
pub proof fn lemma_deny_list_allowed<T: IsFilter + Clone>(f: T, p: T::FilterParameter)
    ensures
        QemuFilterList::DenyList(f).spec_allowed(p) == !f.spec_allowed(p),
{
}

/// An unrestricted filter list admits every parameter, boundary values
/// included.
pub proof fn lemma_unrestricted_allowed<T: IsFilter + Clone>(p: T::FilterParameter)
    ensures
        QemuFilterList::<T>::Unrestricted.spec_allowed(p),
{
}

/// A half-open range `[start, end)` of guest addresses.
#[derive(Clone, Copy)]
pub struct AddressRange {
    /// Inclusive lower bound.
    pub start: GuestAddr,
    /// Exclusive upper bound.
    pub end: GuestAddr,
}

impl AddressRange {
    /// Whether `addr` lies in this range, as a mathematical predicate: the
    /// lower bound is inclusive, the upper bound exclusive.
    pub open spec fn spec_contains(&self, addr: GuestAddr) -> bool {
        self.start <= addr < self.end
    }

    /// Decide whether `addr` lies in `[self.start, self.end)`.
    pub fn contains(&self, addr: GuestAddr) -> (r: bool)
        ensures
            r == self.spec_contains(addr),
    {
        self.start <= addr && addr < self.end
    }
}

/// An ordered collection of address ranges is a filter: an address is
/// allowed if and only if some range contains it. Any hit accepts; there is
/// no priority among the ranges.
impl IsFilter for Vec<AddressRange> {
    type FilterParameter = GuestAddr;

    open spec fn spec_allowed(&self, addr: GuestAddr) -> bool {
        exists|i: int| 0 <= i < self@.len() && (#[trigger] self@[i]).spec_contains(addr)
    }

    fn allowed(&self, addr: GuestAddr) -> (r: bool) {
        let mut i: usize = 0;
        while i < self.len()
            invariant
                i <= self@.len(),
                forall|j: int| 0 <= j < i ==> !(#[trigger] self@[j]).spec_contains(addr),
            decreases self@.len() - i,
        {
            if self[i].contains(addr) {
                return true;
            }
            i = i + 1;
        }
        false
    }
}

/// A set of physical page identifiers is a filter over optional paging
/// identifiers: `Some(id)` is allowed if and only if the set holds `id`, and
/// `None` is never allowed — an address with no resolvable paging identifier
/// is never implicitly in scope.
impl IsFilter for HashSet<GuestPhysAddr> {
    type FilterParameter = Option<GuestPhysAddr>;

    open spec fn spec_allowed(&self, paging_id: Option<GuestPhysAddr>) -> bool {
        match paging_id {
            Option::Some(pid) => self@.contains(pid),
            Option::None => false,
        }
    }

    fn allowed(&self, paging_id: Option<GuestPhysAddr>) -> (r: bool) {
        match paging_id {
            Option::Some(pid) => self.contains(&pid),
            Option::None => false,
        }
    }
}

/// Filter over guest addresses, scoped by half-open address ranges.
pub type QemuInstrumentationAddressRangeFilter = QemuFilterList<Vec<AddressRange>>;

/// Filter over memory-paging identifiers, scoped by a set of physical pages.
pub type QemuInstrumentationPagingFilter = QemuFilterList<HashSet<GuestPhysAddr>>;

/// A filter whose parameter is a guest address.
pub trait IsAddressFilter: IsFilter<FilterParameter = GuestAddr> {
}

impl IsAddressFilter for QemuInstrumentationAddressRangeFilter {
}

/// A filter whose parameter is an optional memory-paging identifier.
pub trait IsPagingFilter: IsFilter<FilterParameter = Option<GuestPhysAddr>> {
}

impl IsPagingFilter for QemuInstrumentationPagingFilter {
}

} // verus!
