//! The ordered stack of named variable bindings used while a script runs.

use crate::dynamic::{AccessMode, Dynamic, Variant};
use crate::parse_error::ParseErrorType;
use smallvec::SmallVec;
use vstd::prelude::*;

verus! {

/// Inline storage for the values of a scope's bindings.
#[verifier::external_body]
pub struct ValueStack {
    inner: SmallVec<[Dynamic; 16]>,
}

/// The values held by a [`ValueStack`], in order.
pub uninterp spec fn stack_items(v: ValueStack) -> Seq<Dynamic>;

/// Relies on `SmallVec::new`: the new vector is empty.
#[verifier::external_body]
fn stack_new() -> (r: ValueStack)
    ensures
        stack_items(r) == Seq::<Dynamic>::empty(),
{
    ValueStack { inner: SmallVec::new() }
}

/// Relies on `SmallVec::len`: the number of items held.
#[verifier::external_body]
fn stack_len(v: &ValueStack) -> (r: usize)
    ensures
        r == stack_items(*v).len(),
{
    v.inner.len()
}

/// Relies on `SmallVec::push`: appends one item at the end. Growing the
/// storage panics on capacity overflow, which this bound keeps away.
#[verifier::external_body]
fn stack_push(v: &mut ValueStack, item: Dynamic)
    requires
        stack_items(*old(v)).len() < u32::MAX,
    ensures
        stack_items(*final(v)) == stack_items(*old(v)).push(item),
{
    v.inner.push(item)
}

/// Relies on `SmallVec::truncate`: keeps the first `len` items, or all of
/// them when there are no more than `len`.
#[verifier::external_body]
fn stack_truncate(v: &mut ValueStack, len: usize)
    ensures
        stack_items(*final(v)) == if len < stack_items(*old(v)).len() {
            stack_items(*old(v)).subrange(0, len as int)
        } else {
            stack_items(*old(v))
        },
{
    v.inner.truncate(len)
}

/// Relies on indexing a `SmallVec` through its slice: the item at `index`.
#[verifier::external_body]
fn stack_get(v: &ValueStack, index: usize) -> (r: &Dynamic)
    requires
        index < stack_items(*v).len(),
    ensures
        *r == stack_items(*v)[index as int],
{
    &v.inner[index]
}

/// Relies on mutable indexing of a `SmallVec` through its slice: an exclusive
/// view of the item at `index`, written back in place.
#[verifier::external_body]
fn stack_get_mut(v: &mut ValueStack, index: usize) -> (r: &mut Dynamic)
    requires
        index < stack_items(*old(v)).len(),
    ensures
        *r == stack_items(*old(v))[index as int],
        stack_items(*final(v)) == stack_items(*old(v)).update(index as int, *final(r)),
{
    &mut v.inner[index]
}

/// Where the last binding named `name` stands among `names`, if any.
pub open spec fn last_index(names: Seq<Seq<char>>, name: Seq<char>) -> Option<int>
    decreases names.len(),
{
    if names.len() == 0 {
        None
    } else if names.last() == name {
        Some(names.len() - 1)
    } else {
        last_index(names.drop_last(), name)
    }
}

/// The value of the last binding named `name`, given the bindings' names and
/// values.
pub open spec fn lookup_in(names: Seq<Seq<char>>, values: Seq<Dynamic>, name: Seq<char>) -> Option<
    Dynamic,
> {
    match last_index(names, name) {
        Some(i) => Some(values[i]),
        None => None,
    }
}

/// The binding at `i` is not shadowed: no later binding has its name.
pub open spec fn is_visible(names: Seq<Seq<char>>, i: int) -> bool {
    forall|j: int| i < j < names.len() ==> names[j] != names[i]
}

/// The positions, in increasing order, of the bindings among the first `k`
/// that are not shadowed in `names`.
pub open spec fn visible_indices(names: Seq<Seq<char>>, k: nat) -> Seq<int>
    decreases k,
{
    if k == 0 {
        Seq::empty()
    } else if is_visible(names, k - 1) {
        visible_indices(names, (k - 1) as nat).push(k - 1)
    } else {
        visible_indices(names, (k - 1) as nat)
    }
}

/// The ordered stack of named bindings used while a script runs.
///
/// A name is looked up from the most recent binding backwards, so a new
/// binding shadows older ones of the same name, and rewinding the stack
/// uncovers them again.
/// Relies on `SmallVec::into_vec`: the same items, in order, in a `Vec`.
#[verifier::external_body]
fn stack_into_vec(v: ValueStack) -> (r: Vec<Dynamic>)
    ensures
        r@ == stack_items(v),
{
    v.inner.into_vec()
}

pub struct Scope {
    /// The current value of each binding.
    values: ValueStack,
    /// The name and the aliases of each binding.
    names: Vec<(String, Vec<String>)>,
}

impl Scope {
    /// The values and the names are two sequences of one length, which is at
    /// most `u32::MAX`.
    pub closed spec fn wf(&self) -> bool {
        &&& stack_items(self.values).len() == self.names@.len()
        &&& self.names@.len() <= u32::MAX
    }

    /// The names of the bindings, oldest first.
    pub closed spec fn names_view(&self) -> Seq<Seq<char>> {
        self.names@.map_values(|e: (String, Vec<String>)| e.0@)
    }

    /// The values of the bindings, oldest first.
    pub closed spec fn values_view(&self) -> Seq<Dynamic> {
        stack_items(self.values)
    }

    /// The aliases of each binding, oldest first.
    pub closed spec fn aliases_view(&self) -> Seq<Seq<Seq<char>>> {
        self.names@.map_values(|e: (String, Vec<String>)| e.1@.map_values(|a: String| a@))
    }

    pub open spec fn spec_len(&self) -> nat {
        self.names_view().len()
    }

    /// The value of the most recent binding named `name`.
    pub open spec fn lookup(&self, name: Seq<char>) -> Option<Dynamic> {
        lookup_in(self.names_view(), self.values_view(), name)
    }

    /// An empty scope.
    pub fn new() -> (r: Scope)
        ensures
            r.wf(),
            r.names_view() == Seq::<Seq<char>>::empty(),
            r.values_view() == Seq::<Dynamic>::empty(),
            r.aliases_view() == Seq::<Seq<Seq<char>>>::empty(),
    {
        let r = Scope { values: stack_new(), names: Vec::new() };
        assert(r.names_view() =~= Seq::<Seq<char>>::empty());
        assert(r.aliases_view() =~= Seq::<Seq<Seq<char>>>::empty());
        r
    }

    /// Remove every binding.
    pub fn clear(&mut self) -> (r: &mut Self)
        requires
            old(self).wf(),
        ensures
            *final(self) == *final(r),
            r.wf(),
            r.names_view() == Seq::<Seq<char>>::empty(),
            r.values_view() == Seq::<Dynamic>::empty(),
            r.aliases_view() == Seq::<Seq<Seq<char>>>::empty(),
    {
        self.rewind(0);
        self
    }

    /// The number of bindings.
    pub fn len(&self) -> (r: usize)
        requires
            self.wf(),
        ensures
            r == self.spec_len(),
    {
        stack_len(&self.values)
    }

    pub fn is_empty(&self) -> (r: bool)
        requires
            self.wf(),
        ensures
            r == (self.spec_len() == 0),
    {
        self.len() == 0
    }

    /// Add a writable binding of a host value.
    pub fn push<T: Variant>(&mut self, name: &str, value: T) -> (r: &mut Self)
        requires
            old(self).wf(),
            old(self).spec_len() < u32::MAX,
        ensures
            *final(self) == *final(r),
            r.wf(),
            r.names_view() == old(self).names_view().push(name@),
            r.values_view() == old(self).values_view().push(
                Dynamic { value: value.spec_to_union(), access: AccessMode::ReadWrite },
            ),
            r.aliases_view() == old(self).aliases_view().push(Seq::empty()),
    {
        self.push_dynamic_value(name, AccessMode::ReadWrite, Dynamic::from(value));
        self
    }

    /// Add a binding of a dynamic value, with the value's own access mode.
    pub fn push_dynamic(&mut self, name: &str, value: Dynamic) -> (r: &mut Self)
        requires
            old(self).wf(),
            old(self).spec_len() < u32::MAX,
        ensures
            *final(self) == *final(r),
            r.wf(),
            r.names_view() == old(self).names_view().push(name@),
            r.values_view() == old(self).values_view().push(value),
            r.aliases_view() == old(self).aliases_view().push(Seq::empty()),
    {
        let access = value.access_mode();
        self.push_dynamic_value(name, access, value);
        proof {
            assert(value == (Dynamic { value: value.value, access }));
        }
        self
    }

    /// Add a constant binding of a host value; it can never be assigned to.
    pub fn push_constant<T: Variant>(&mut self, name: &str, value: T) -> (r: &mut Self)
        requires
            old(self).wf(),
            old(self).spec_len() < u32::MAX,
        ensures
            *final(self) == *final(r),
            r.wf(),
            r.names_view() == old(self).names_view().push(name@),
            r.values_view() == old(self).values_view().push(
                Dynamic { value: value.spec_to_union(), access: AccessMode::ReadOnly },
            ),
            r.aliases_view() == old(self).aliases_view().push(Seq::empty()),
    {
        self.push_dynamic_value(name, AccessMode::ReadOnly, Dynamic::from(value));
        self
    }

    /// Add a constant binding of a dynamic value.
    pub fn push_constant_dynamic(&mut self, name: &str, value: Dynamic) -> (r: &mut Self)
        requires
            old(self).wf(),
            old(self).spec_len() < u32::MAX,
        ensures
            *final(self) == *final(r),
            r.wf(),
            r.names_view() == old(self).names_view().push(name@),
            r.values_view() == old(self).values_view().push(
                Dynamic { value: value.value, access: AccessMode::ReadOnly },
            ),
            r.aliases_view() == old(self).aliases_view().push(Seq::empty()),
    {
        self.push_dynamic_value(name, AccessMode::ReadOnly, value);
        self
    }

    /// Add a binding whose access mode is `access`, whatever the value's was.
    pub fn push_dynamic_value(&mut self, name: &str, access: AccessMode, value: Dynamic) -> (r: &mut Self)
        requires
            old(self).wf(),
            old(self).spec_len() < u32::MAX,
        ensures
            *final(self) == *final(r),
            r.wf(),
            r.names_view() == old(self).names_view().push(name@),
            r.values_view() == old(self).values_view().push(
                Dynamic { value: value.value, access },
            ),
            r.aliases_view() == old(self).aliases_view().push(Seq::empty()),
    {
        let mut value = value;
        value.set_access_mode(access);
        let ghost old_names = self.names@;
        let entry = (name.to_owned(), Vec::new());
        self.names.push(entry);
        stack_push(&mut self.values, value);
        proof {
            assert(self.names@ == old_names.push(entry));
            assert(entry.1@.map_values(|a: String| a@) =~= Seq::<Seq<char>>::empty());
            assert(self.names_view() =~= old(self).names_view().push(name@));
            assert(self.aliases_view() =~= old(self).aliases_view().push(Seq::empty()));
        }
        self
    }

    /// Keep the first `size` bindings and drop the rest; nothing happens when
    /// there are no more than `size`.
    pub fn rewind(&mut self, size: usize) -> (r: &mut Self)
        requires
            old(self).wf(),
        ensures
            *final(self) == *final(r),
            r.wf(),
            r.names_view() == if size < old(self).spec_len() {
                old(self).names_view().subrange(0, size as int)
            } else {
                old(self).names_view()
            },
            r.values_view() == if size < old(self).spec_len() {
                old(self).values_view().subrange(0, size as int)
            } else {
                old(self).values_view()
            },
            r.aliases_view() == if size < old(self).spec_len() {
                old(self).aliases_view().subrange(0, size as int)
            } else {
                old(self).aliases_view()
            },
    {
        self.names.truncate(size);
        stack_truncate(&mut self.values, size);
        proof {
            if size < old(self).spec_len() {
                assert(self.names_view() =~= old(self).names_view().subrange(0, size as int));
                assert(self.aliases_view() =~= old(self).aliases_view().subrange(0, size as int));
            } else {
                assert(self.names_view() =~= old(self).names_view());
                assert(self.aliases_view() =~= old(self).aliases_view());
            }
        }
        self
    }

    /// Whether some binding is named `name`.
    pub fn contains(&self, name: &str) -> (r: bool)
        requires
            self.wf(),
        ensures
            r == self.names_view().contains(name@),
    {
        proof {
            lemma_last_index(self.names_view(), name@);
        }
        self.get_index(name).is_some()
    }

    /// The position and access mode of the most recent binding named `name`.
    pub fn get_index(&self, name: &str) -> (r: Option<(usize, AccessMode)>)
        requires
            self.wf(),
        ensures
            match last_index(self.names_view(), name@) {
                Some(i) => r matches Some((k, a)) && k as int == i && a
                    == self.values_view()[i].access,
                None => r is None,
            },
    {
        let key = name.to_owned();
        let mut i = self.names.len();
        proof {
            assert(self.names_view().subrange(0, i as int) =~= self.names_view());
        }
        while i > 0
            invariant
                self.wf(),
                i <= self.names@.len(),
                key@ == name@,
                last_index(self.names_view(), name@) == last_index(
                    self.names_view().subrange(0, i as int),
                    name@,
                ),
            decreases i,
        {
            let ghost sub = self.names_view().subrange(0, i as int);
            if self.names[i - 1].0 == key {
                let access = stack_get(&self.values, i - 1).access_mode();
                return Some((i - 1, access));
            }
            proof {
                assert(sub.drop_last() =~= self.names_view().subrange(0, i - 1));
            }
            i -= 1;
        }
        proof {
            assert(self.names_view().subrange(0, 0) =~= Seq::<Seq<char>>::empty());
        }
        None
    }

    /// The value of the most recent binding named `name`, read as a `T`;
    /// `None` when there is no such binding or it holds another type.
    pub fn get_value<T: Variant>(&self, name: &str) -> (r: Option<T>)
        requires
            self.wf(),
        ensures
            r == match self.lookup(name@) {
                Some(v) => T::spec_from_union(v.value),
                None => None,
            },
    {
        proof {
            lemma_last_index(self.names_view(), name@);
        }
        match self.get_index(name) {
            Some((index, _)) => {
                stack_get(&self.values, index).try_cast::<T>()
            },
            None => None,
        }
    }

    /// Assign to the most recent binding named `name`, or add a writable
    /// binding when there is none. A constant is never changed: assigning to
    /// one is an error and leaves the scope as it was.
    pub fn set_value<T: Variant>(&mut self, name: &str, value: T) -> (r: Result<
        &mut Self,
        ParseErrorType,
    >)
        requires
            old(self).wf(),
            old(self).spec_len() < u32::MAX,
        ensures
            r matches Ok(s) ==> *final(self) == *final(s) && s.wf(),
            match last_index(old(self).names_view(), name@) {
                None => r matches Ok(s) && {
                    &&& s.names_view() == old(self).names_view().push(name@)
                    &&& s.values_view() == old(self).values_view().push(
                        Dynamic { value: value.spec_to_union(), access: AccessMode::ReadWrite },
                    )
                    &&& s.aliases_view() == old(self).aliases_view().push(Seq::empty())
                },
                Some(i) => if old(self).values_view()[i].access == AccessMode::ReadOnly {
                    &&& r matches Err(ParseErrorType::AssignmentToConstant(n)) && n@ == name@
                    &&& *final(self) == *old(self)
                } else {
                    r matches Ok(s) && {
                        &&& s.names_view() == old(self).names_view()
                        &&& s.values_view() == old(self).values_view().update(
                            i,
                            Dynamic { value: value.spec_to_union(), access: AccessMode::ReadWrite },
                        )
                        &&& s.aliases_view() == old(self).aliases_view()
                    }
                },
            },
    {
        proof {
            lemma_last_index(old(self).names_view(), name@);
        }
        match self.get_index(name) {
            None => {
                Ok(self.push(name, value))
            },
            Some((_, AccessMode::ReadOnly)) => Err(ParseErrorType::AssignmentToConstant(name.to_owned())),
            Some((index, AccessMode::ReadWrite)) => {
                let slot = stack_get_mut(&mut self.values, index);
                *slot = Dynamic::from(value);
                Ok(self)
            },
        }
    }

    /// An exclusive handle on the value of the most recent binding named
    /// `name`; `None` when there is no such binding or it is a constant.
    pub fn get_mut(&mut self, name: &str) -> (r: Option<&mut Dynamic>)
        requires
            old(self).wf(),
        ensures
            final(self).wf(),
            final(self).names_view() == old(self).names_view(),
            final(self).aliases_view() == old(self).aliases_view(),
            match last_index(old(self).names_view(), name@) {
                Some(i) => if old(self).values_view()[i].access == AccessMode::ReadWrite {
                    &&& r matches Some(m)
                    &&& *m == old(self).values_view()[i]
                    &&& final(self).values_view() == old(self).values_view().update(i, *final(m))
                } else {
                    &&& r is None
                    &&& final(self).values_view() == old(self).values_view()
                },
                None => {
                    &&& r is None
                    &&& final(self).values_view() == old(self).values_view()
                },
            },
    {
        proof {
            lemma_last_index(old(self).names_view(), name@);
        }
        match self.get_index(name) {
            Some((index, AccessMode::ReadWrite)) => Some(self.get_mut_by_index(index)),
            _ => None,
        }
    }

    /// The value of the binding at `index`.
    pub fn value_at(&self, index: usize) -> (r: &Dynamic)
        requires
            self.wf(),
            index < self.spec_len(),
        ensures
            *r == self.values_view()[index as int],
    {
        stack_get(&self.values, index)
    }

    /// An exclusive handle on the value of the binding at `index`.
    pub fn get_mut_by_index(&mut self, index: usize) -> (r: &mut Dynamic)
        requires
            old(self).wf(),
            index < old(self).spec_len(),
        ensures
            final(self).wf(),
            *r == old(self).values_view()[index as int],
            final(self).values_view() == old(self).values_view().update(index as int, *final(r)),
            final(self).names_view() == old(self).names_view(),
            final(self).aliases_view() == old(self).aliases_view(),
    {
        stack_get_mut(&mut self.values, index)
    }

    /// Record `alias` as another name of the binding at `index`, unless it is
    /// one already.
    pub fn add_entry_alias(&mut self, index: usize, alias: &str) -> (r: &mut Self)
        requires
            old(self).wf(),
            index < old(self).spec_len(),
        ensures
            *final(self) == *final(r),
            r.wf(),
            r.names_view() == old(self).names_view(),
            r.values_view() == old(self).values_view(),
            r.aliases_view() == old(self).aliases_view().update(
                index as int,
                if old(self).aliases_view()[index as int].contains(alias@) {
                    old(self).aliases_view()[index as int]
                } else {
                    old(self).aliases_view()[index as int].push(alias@)
                },
            ),
    {
        let key = alias.to_owned();
        let ghost before = self.aliases_view()[index as int];
        let mut found = false;
        let mut j: usize = 0;
        while j < self.names[index].1.len()
            invariant
                index < self.names@.len(),
                j <= self.names@[index as int].1@.len(),
                key@ == alias@,
                before == self.names@[index as int].1@.map_values(|a: String| a@),
                found <==> exists|k: int| 0 <= k < j && before[k] == alias@,
            decreases self.names@[index as int].1@.len() - j,
        {
            if self.names[index].1[j] == key {
                found = true;
            }
            proof {
                assert(before[j as int] == self.names@[index as int].1@[j as int]@);
                if !found {
                    assert forall|k: int| 0 <= k < j + 1 implies before[k] != alias@ by {
                        if k < j {
                            assert(!(0 <= k < j && before[k] == alias@));
                        }
                    }
                }
            }
            j += 1;
        }
        proof {
            if before.contains(alias@) {
                let k = choose|k: int| 0 <= k < before.len() && before[k] == alias@;
                assert(exists|k: int| 0 <= k < j && before[k] == alias@);
            }
        }
        if !found {
            let ghost old_names = self.names@;
            let entry = &mut self.names[index];
            entry.1.push(key);
            proof {
                assert(self.names@[index as int].1@.map_values(|a: String| a@) =~= before.push(alias@));
                assert(self.aliases_view() =~= old(self).aliases_view().update(index as int, before.push(alias@)));
                assert(self.names_view() =~= old(self).names_view());
            }
        }
        self
    }

    /// A copy of the scope that keeps, for each name, only its most recent
    /// binding; the kept bindings stay in their order.
    pub fn clone_visible(&self) -> (r: Scope)
        requires
            self.wf(),
        ensures
            r.wf(),
            ({
                let idx = visible_indices(self.names_view(), self.spec_len());
                &&& r.names_view() == idx.map_values(|i: int| self.names_view()[i])
                &&& r.values_view() == idx.map_values(|i: int| self.values_view()[i])
                &&& r.aliases_view() == idx.map_values(|i: int| self.aliases_view()[i])
            }),
    {
        let ghost names = self.names_view();
        let mut entries = Scope::new();
        let n = self.names.len();
        let mut i: usize = 0;
        while i < n
            invariant
                self.wf(),
                entries.wf(),
                n == self.names@.len(),
                names == self.names_view(),
                i <= n,
                entries.spec_len() <= i,
                entries.names_view() == visible_indices(names, i as nat).map_values(
                    |k: int| names[k],
                ),
                entries.values_view() == visible_indices(names, i as nat).map_values(
                    |k: int| self.values_view()[k],
                ),
                entries.aliases_view() == visible_indices(names, i as nat).map_values(
                    |k: int| self.aliases_view()[k],
                ),
            decreases n - i,
        {
            let mut visible = true;
            let mut j: usize = i + 1;
            while j < n
                invariant
                    i < j <= n,
                    n == self.names@.len(),
                    names == self.names_view(),
                    visible <==> forall|k: int| i < k < j ==> names[k] != names[i as int],
                decreases n - j,
            {
                if self.names[j].0 == self.names[i].0 {
                    visible = false;
                }
                proof {
                    if visible {
                        assert forall|k: int| i < k < j + 1 implies names[k] != names[i as int] by {
                            if k == j {
                                assert(names[k] == self.names@[k].0@);
                            }
                        }
                    } else if self.names@[j as int].0@ == self.names@[i as int].0@ {
                        assert(names[j as int] == names[i as int]);
                    }
                }
                j += 1;
            }
            let ghost prev = visible_indices(names, i as nat);
            if visible {
                let name = self.names[i].0.clone();
                let aliases = clone_strings(&self.names[i].1);
                let value = stack_get(&self.values, i).flatten_clone();
                let ghost old_entries = entries.names@;
                let ghost old_names_view = entries.names_view();
                let ghost old_aliases_view = entries.aliases_view();
                entries.names.push((name, aliases));
                stack_push(&mut entries.values, value);
                proof {
                    assert(is_visible(names, i as int));
                    assert(visible_indices(names, (i + 1) as nat) == prev.push(i as int));
                    assert(entries.names@ == old_entries.push((name, aliases)));
                    assert(entries.names_view() =~= old_names_view.push(names[i as int]));
                    assert(aliases@.map_values(|a: String| a@) =~= self.aliases_view()[i as int]);
                    assert(entries.aliases_view() =~= old_aliases_view.push(self.aliases_view()[i as int]));
                    assert(entries.names_view() =~= prev.push(i as int).map_values(|k: int| names[k]));
                    assert(entries.values_view() =~= prev.push(i as int).map_values(
                        |k: int| self.values_view()[k],
                    ));
                    assert(entries.aliases_view() =~= prev.push(i as int).map_values(
                        |k: int| self.aliases_view()[k],
                    ));
                }
            } else {
                proof {
                    assert(!is_visible(names, i as int));
                    assert(visible_indices(names, (i + 1) as nat) == prev);
                }
            }
            i += 1;
        }
        entries
    }

    /// The bindings in order: name, whether it is a constant, and the value
    /// itself.
    pub fn iter_raw(&self) -> (r: Vec<(&str, bool, &Dynamic)>)
        requires
            self.wf(),
        ensures
            r@.len() == self.spec_len(),
            forall|i: int|
                0 <= i < r@.len() ==> {
                    &&& (#[trigger] r@[i]).0@ == self.names_view()[i]
                    &&& r@[i].1 == (self.values_view()[i].access == AccessMode::ReadOnly)
                    &&& *r@[i].2 == self.values_view()[i]
                },
    {
        let mut r: Vec<(&str, bool, &Dynamic)> = Vec::new();
        let n = self.names.len();
        let mut i: usize = 0;
        while i < n
            invariant
                self.wf(),
                n == self.spec_len(),
                i <= n,
                r@.len() == i,
                forall|k: int|
                    0 <= k < i ==> {
                        &&& (#[trigger] r@[k]).0@ == self.names_view()[k]
                        &&& r@[k].1 == (self.values_view()[k].access == AccessMode::ReadOnly)
                        &&& *r@[k].2 == self.values_view()[k]
                    },
            decreases n - i,
        {
            let value = stack_get(&self.values, i);
            r.push((self.names[i].0.as_str(), value.is_read_only(), value));
            i += 1;
        }
        r
    }

    /// The bindings in order: name, whether it is a constant, and a flattened
    /// copy of the value.
    pub fn iter(&self) -> (r: Vec<(&str, bool, Dynamic)>)
        requires
            self.wf(),
        ensures
            r@.len() == self.spec_len(),
            forall|i: int|
                0 <= i < r@.len() ==> {
                    &&& (#[trigger] r@[i]).0@ == self.names_view()[i]
                    &&& r@[i].1 == (self.values_view()[i].access == AccessMode::ReadOnly)
                    &&& r@[i].2 == self.values_view()[i]
                },
    {
        let raw = self.iter_raw();
        let mut r: Vec<(&str, bool, Dynamic)> = Vec::new();
        let mut i: usize = 0;
        while i < raw.len()
            invariant
                raw@.len() == self.spec_len(),
                forall|k: int|
                    0 <= k < raw@.len() ==> {
                        &&& (#[trigger] raw@[k]).0@ == self.names_view()[k]
                        &&& raw@[k].1 == (self.values_view()[k].access == AccessMode::ReadOnly)
                        &&& *raw@[k].2 == self.values_view()[k]
                    },
                i <= raw@.len(),
                r@.len() == i,
                forall|k: int|
                    0 <= k < i ==> {
                        &&& (#[trigger] r@[k]).0@ == self.names_view()[k]
                        &&& r@[k].1 == (self.values_view()[k].access == AccessMode::ReadOnly)
                        &&& r@[k].2 == self.values_view()[k]
                    },
            decreases raw@.len() - i,
        {
            let (name, constant, value) = raw[i];
            r.push((name, constant, value.flatten_clone()));
            i += 1;
        }
        r
    }

    /// Add the given bindings in order, each with its value as it is.
    pub fn extend(&mut self, entries: Vec<(String, Dynamic)>)
        requires
            old(self).wf(),
            old(self).spec_len() + entries@.len() <= u32::MAX,
        ensures
            final(self).wf(),
            final(self).names_view() == old(self).names_view() + entries@.map_values(
                |e: (String, Dynamic)| e.0@,
            ),
            final(self).values_view() == old(self).values_view() + entries@.map_values(
                |e: (String, Dynamic)| e.1,
            ),
            final(self).aliases_view() == old(self).aliases_view() + Seq::new(
                entries@.len(),
                |i: int| Seq::<Seq<char>>::empty(),
            ),
    {
        let mut entries = entries;
        let ghost all = entries@;
        let mut k: usize = 0;
        while entries.len() > 0
            invariant
                self.wf(),
                k + entries@.len() == all.len(),
                entries@ == all.subrange(k as int, all.len() as int),
                old(self).spec_len() + all.len() <= u32::MAX,
                self.names_view() == old(self).names_view() + all.subrange(0, k as int).map_values(
                    |e: (String, Dynamic)| e.0@,
                ),
                self.values_view() == old(self).values_view() + all.subrange(0, k as int).map_values(
                    |e: (String, Dynamic)| e.1,
                ),
                self.aliases_view() == old(self).aliases_view() + Seq::new(
                    k as nat,
                    |i: int| Seq::<Seq<char>>::empty(),
                ),
            decreases entries@.len(),
        {
            let (name, value) = entries.remove(0);
            self.push_dynamic(name.as_str(), value);
            proof {
                assert(all[k as int] == (name, value));
                assert(all.subrange(0, k + 1) =~= all.subrange(0, k as int).push((name, value)));
                assert(self.names_view() =~= old(self).names_view() + all.subrange(0, k + 1).map_values(
                    |e: (String, Dynamic)| e.0@,
                ));
                assert(self.values_view() =~= old(self).values_view() + all.subrange(0, k + 1).map_values(
                    |e: (String, Dynamic)| e.1,
                ));
                assert(self.aliases_view() =~= old(self).aliases_view() + Seq::new(
                    (k + 1) as nat,
                    |i: int| Seq::<Seq<char>>::empty(),
                ));
                assert(entries@ =~= all.subrange(k + 1, all.len() as int));
            }
            k += 1;
        }
        proof {
            assert(all.subrange(0, k as int) =~= all);
        }
    }

    /// The bindings in order, each with its name, value and aliases.
    pub fn into_iter(self) -> (r: Vec<(String, Dynamic, Vec<String>)>)
        requires
            self.wf(),
        ensures
            r@.len() == self.spec_len(),
            forall|i: int|
                0 <= i < r@.len() ==> {
                    &&& (#[trigger] r@[i]).0@ == self.names_view()[i]
                    &&& r@[i].1 == self.values_view()[i]
                    &&& r@[i].2@.map_values(|a: String| a@) == self.aliases_view()[i]
                },
    {
        let ghost names_view = self.names_view();
        let ghost values_view = self.values_view();
        let ghost aliases_view = self.aliases_view();
        let Scope { values, names } = self;
        let mut values = stack_into_vec(values);
        let mut names = names;
        let ghost all_names = names@;
        let ghost all_values = values@;
        let n = names.len();
        let mut r: Vec<(String, Dynamic, Vec<String>)> = Vec::new();
        while names.len() > 0
            invariant
                n == all_names.len(),
                all_values.len() == n,
                names_view == all_names.map_values(|e: (String, Vec<String>)| e.0@),
                aliases_view == all_names.map_values(
                    |e: (String, Vec<String>)| e.1@.map_values(|a: String| a@),
                ),
                values_view == all_values,
                r@.len() + names@.len() == n,
                names@ == all_names.subrange(r@.len() as int, n as int),
                values@ == all_values.subrange(r@.len() as int, n as int),
                forall|i: int|
                    0 <= i < r@.len() ==> {
                        &&& (#[trigger] r@[i]).0@ == names_view[i]
                        &&& r@[i].1 == values_view[i]
                        &&& r@[i].2@.map_values(|a: String| a@) == aliases_view[i]
                    },
            decreases names@.len(),
        {
            let ghost k = r@.len() as int;
            let (name, aliases) = names.remove(0);
            let value = values.remove(0);
            proof {
                assert(all_names[k] == (name, aliases));
                assert(all_values[k] == value);
            }
            r.push((name, value, aliases));
            proof {
                assert(names@ =~= all_names.subrange(k + 1, n as int));
                assert(values@ =~= all_values.subrange(k + 1, n as int));
            }
        }
        r
    }
}

impl Default for Scope {
    fn default() -> (r: Scope)
        ensures
            r.wf(),
            r.names_view() == Seq::<Seq<char>>::empty(),
            r.values_view() == Seq::<Dynamic>::empty(),
            r.aliases_view() == Seq::<Seq<Seq<char>>>::empty(),
    {
        Scope::new()
    }
}

/// A copy of a list of strings.
fn clone_strings(v: &Vec<String>) -> (r: Vec<String>)
    ensures
        r@ == v@,
{
    let mut r: Vec<String> = Vec::new();
    let mut i: usize = 0;
    while i < v.len()
        invariant
            i <= v@.len(),
            r@ == v@.subrange(0, i as int),
        decreases v@.len() - i,
    {
        r.push(v[i].clone());
        proof {
            assert(v@.subrange(0, i + 1) =~= v@.subrange(0, i as int).push(v@[i as int]));
        }
        i += 1;
    }
    proof {
        assert(v@.subrange(0, i as int) =~= v@);
    }
    r
}

/// Facts about [`last_index`]: it points at the last binding of the name, and
/// finds one exactly when the name occurs.
pub proof fn lemma_last_index(names: Seq<Seq<char>>, name: Seq<char>)
    ensures
        last_index(names, name) matches Some(i) ==> {
            &&& 0 <= i < names.len()
            &&& names[i] == name
            &&& forall|j: int| i < j < names.len() ==> names[j] != name
        },
        last_index(names, name) is None <==> !names.contains(name),
    decreases names.len(),
{
    if names.len() > 0 {
        lemma_last_index(names.drop_last(), name);
        assert(forall|j: int| 0 <= j < names.len() - 1 ==> names.drop_last()[j] == names[j]);
        if names.last() != name {
            if names.drop_last().contains(name) {
                let k = choose|k: int| 0 <= k < names.drop_last().len() && names.drop_last()[k] == name;
                assert(names[k] == name);
            }
            if names.contains(name) {
                let k = choose|k: int| 0 <= k < names.len() && names[k] == name;
                assert(names.drop_last()[k] == name);
            }
        } else {
            assert(names[names.len() - 1] == name);
        }
    }
}

/// Shadowing: once two bindings of one name are pushed, a lookup of the name
/// finds the later one, and rewinding to the length before the second push
/// makes the first one found again.
pub proof fn lemma_shadowing(
    names: Seq<Seq<char>>,
    values: Seq<Dynamic>,
    name: Seq<char>,
    first: Dynamic,
    second: Dynamic,
)
    requires
        names.len() == values.len(),
    ensures
        ({
            let pushed_names = names.push(name).push(name);
            let pushed_values = values.push(first).push(second);
            let len = names.len() + 1int;
            &&& last_index(pushed_names, name) == Some(len)
            &&& lookup_in(pushed_names, pushed_values, name) == Some(second)
            &&& last_index(pushed_names.subrange(0, len), name) == Some(names.len() as int)
            &&& lookup_in(pushed_names.subrange(0, len), pushed_values.subrange(0, len), name)
                == Some(first)
        }),
{
    let pushed_names = names.push(name).push(name);
    let len = names.len() + 1int;
    assert(pushed_names.subrange(0, len) =~= names.push(name));
    assert(values.push(first).push(second).subrange(0, len) =~= values.push(first));
}

/// Without shadowing every binding is visible, in order.
pub proof fn lemma_all_visible(names: Seq<Seq<char>>, k: nat)
    requires
        names.no_duplicates(),
        k <= names.len(),
    ensures
        visible_indices(names, k) == Seq::new(k, |i: int| i),
    decreases k,
{
    if k > 0 {
        lemma_all_visible(names, (k - 1) as nat);
        assert(is_visible(names, k - 1));
        assert(Seq::new((k - 1) as nat, |i: int| i).push(k - 1) =~= Seq::new(k, |i: int| i));
    }
}

/// When no two bindings share a name, the visible copy of a scope holds the
/// same bindings, values and aliases, in the same order.
pub proof fn lemma_clone_visible_identity(
    names: Seq<Seq<char>>,
    values: Seq<Dynamic>,
    aliases: Seq<Seq<Seq<char>>>,
)
    requires
        names.no_duplicates(),
        values.len() == names.len(),
        aliases.len() == names.len(),
    ensures
        ({
            let idx = visible_indices(names, names.len());
            &&& idx.map_values(|i: int| names[i]) == names
            &&& idx.map_values(|i: int| values[i]) == values
            &&& idx.map_values(|i: int| aliases[i]) == aliases
        }),
{
    lemma_all_visible(names, names.len());
    let idx = visible_indices(names, names.len());
    assert(idx.map_values(|i: int| names[i]) =~= names);
    assert(idx.map_values(|i: int| values[i]) =~= values);
    assert(idx.map_values(|i: int| aliases[i]) =~= aliases);
}

} // verus!
