//! Selections: which rules of the catalog are switched on.
//!
//! A selection is a set of names with a cached count. The set itself is a
//! hash set of the `hashbrown` crate; what it holds is spoken of as a
//! mathematical set of names.

use crate::catalog::{
    catalog, is_identifier, lemma_catalog_complete, lemma_names_distinct, Transformation,
};
use vstd::prelude::*;

verus! {

/// A set of names, kept in a `hashbrown::HashSet<String>`. The hash set is
/// opaque to the verifier: what it holds is named by [`names_in`], and what
/// its methods do to that is taken on trust, method by method, below.
#[verifier::external_body]
#[derive(Debug)]
pub struct NameSet {
    inner: hashbrown::HashSet<String>,
}

/// The names that `set` holds, each as its characters.
pub uninterp spec fn names_in(set: NameSet) -> Set<Seq<char>>;

impl View for NameSet {
    type V = Set<Seq<char>>;

    open spec fn view(&self) -> Set<Seq<char>> {
        names_in(*self)
    }
}

/// Whether `names` is a finite set of `n` names.
pub open spec fn counts(names: Set<Seq<char>>, n: nat) -> bool {
    names.finite() && names.len() == n
}

/// Whether `listing` holds each name of `names` once, in some order.
pub open spec fn lists(listing: Seq<String>, names: Set<Seq<char>>) -> bool {
    &&& forall|i: int| 0 <= i < listing.len() ==> names.contains(#[trigger] listing[i]@)
    &&& forall|name: Seq<char>| #[trigger]
        names.contains(name) ==> exists|i: int| 0 <= i < listing.len() && listing[i]@ == name
    &&& forall|i: int, j: int|
        0 <= i < j < listing.len() ==> #[trigger] listing[i]@ != #[trigger] listing[j]@
}

/// Calls `HashSet::new`. Trusted: the new set holds nothing.
#[verifier::external_body]
fn set_new() -> (set: NameSet)
    ensures
        names_in(set) == Set::<Seq<char>>::empty(),
{
    NameSet { inner: hashbrown::HashSet::new() }
}

/// Calls `HashSet::insert`. Trusted: afterwards the set holds `name` besides
/// what it held; the answer is whether `name` was missing before.
#[verifier::external_body]
fn set_insert(set: &mut NameSet, name: String) -> (added: bool)
    ensures
        names_in(*final(set)) == names_in(*old(set)).insert(name@),
        added == !names_in(*old(set)).contains(name@),
{
    set.inner.insert(name)
}

/// Calls `HashSet::remove`. Trusted: afterwards the set holds what it held
/// but `name`; the answer is whether `name` was present before.
#[verifier::external_body]
fn set_remove(set: &mut NameSet, name: &str) -> (removed: bool)
    ensures
        names_in(*final(set)) == names_in(*old(set)).remove(name@),
        removed == names_in(*old(set)).contains(name@),
{
    set.inner.remove(name)
}

/// Calls `HashSet::contains`. Trusted: the answer is whether the set holds `name`.
#[verifier::external_body]
fn set_contains(set: &NameSet, name: &str) -> (present: bool)
    ensures
        present == names_in(*set).contains(name@),
{
    set.inner.contains(name)
}

/// Calls `HashSet::len`. Trusted: the set is finite and the answer is the
/// number of names it holds.
#[verifier::external_body]
fn set_len(set: &NameSet) -> (n: usize)
    ensures
        counts(names_in(*set), n as nat),
{
    set.inner.len()
}

/// Calls `HashSet::clone`. Trusted: the copy holds the same names.
#[verifier::external_body]
fn set_clone(set: &NameSet) -> (copy: NameSet)
    ensures
        names_in(copy) == names_in(*set),
{
    NameSet { inner: set.inner.clone() }
}

/// Collects copies of what `HashSet::iter` yields. Trusted: these are the
/// names of the set, each once; of their order nothing is claimed.
#[verifier::external_body]
fn set_names(set: &NameSet) -> (listing: Vec<String>)
    ensures
        lists(listing@, names_in(*set)),
{
    set.inner.iter().cloned().collect()
}

/// Calls `PartialEq::eq` of `HashSet`. Trusted: the answer is whether the
/// two sets hold the same names.
#[verifier::external_body]
fn set_eq(left: &NameSet, right: &NameSet) -> (same: bool)
    ensures
        same == (names_in(*left) == names_in(*right)),
{
    left.inner == right.inner
}

impl NameSet {
    /// Whether the set holds `name`.
    pub fn contains(&self, name: &str) -> (present: bool)
        ensures
            present == self@.contains(name@),
    {
        set_contains(self, name)
    }

    /// The number of names in the set.
    pub fn len(&self) -> (n: usize)
        ensures
            self@.finite(),
            n == self@.len(),
    {
        set_len(self)
    }
}

/// The set that differs from `hset` in `key` alone: without `key` where
/// `hset` holds it, with `key` where it does not. `hset` stays as it is.
pub fn toggle(hset: &NameSet, key: &str) -> (toggled: NameSet)
    ensures
        toggled@ == if hset@.contains(key@) {
            hset@.remove(key@)
        } else {
            hset@.insert(key@)
        },
{
    let mut toggled = set_clone(hset);
    if set_contains(&toggled, key) {
        set_remove(&mut toggled, key);
    } else {
        set_insert(&mut toggled, key.to_owned());
    }
    toggled
}

/// The identifiers of the rules `rules`.
pub open spec fn names_of(rules: Seq<Transformation>) -> Set<Seq<char>> {
    Set::new(
        |name: Seq<char>|
            exists|i: int| 0 <= i < rules.len() && (#[trigger] rules[i]).name() == name,
    )
}

/// The identifiers of all rules of the catalog.
pub open spec fn catalog_names() -> Set<Seq<char>> {
    names_of(catalog())
}

/// The names of a selection are all identifiers of the catalog.
pub open spec fn all_known(names: Set<Seq<char>>) -> bool {
    forall|name: Seq<char>| #[trigger] names.contains(name) ==> is_identifier(name)
}

/// The rules among `rules` whose identifier is in `names`, in the order of `rules`.
pub open spec fn chosen(rules: Seq<Transformation>, names: Set<Seq<char>>) -> Seq<Transformation> {
    rules.filter(|rule: Transformation| names.contains(rule.name()))
}

/// The rules that `names` selects, in the declared order of the catalog.
/// This is the order in which a pipeline built from a selection applies
/// them, whatever order the selection was filled in.
pub open spec fn selected(names: Set<Seq<char>>) -> Seq<Transformation> {
    chosen(catalog(), names)
}

/// A selection of rule names, with the number of names it holds.
#[derive(Debug)]
pub struct ProcessorConfigNames {
    functions: NameSet,
    size: usize,
}

impl ProcessorConfigNames {
    /// The names in the selection.
    pub closed spec fn names(self) -> Set<Seq<char>> {
        self.functions@
    }

    /// The cached count.
    pub closed spec fn count(self) -> nat {
        self.size as nat
    }

    /// What holds of every selection: the cached count is the number of
    /// names it holds.
    #[verifier::type_invariant]
    pub open spec fn counted(self) -> bool {
        counts(self.names(), self.count())
    }

    /// The selection that holds no name.
    pub fn new() -> (selection: Self)
        ensures
            selection.names() == Set::<Seq<char>>::empty(),
            selection.count() == 0,
            selection.counted(),
    {
        ProcessorConfigNames { functions: set_new(), size: 0 }
    }

    /// The selection that holds the identifier of every rule of the catalog.
    pub fn all() -> (selection: Self)
        ensures
            selection.names() == catalog_names(),
            selection.count() == 13,
            selection.counted(),
    {
        let rules = Transformation::all();
        let mut functions = set_new();
        let mut i: usize = 0;
        while i < rules.len()
            invariant
                i <= rules.len(),
                rules@ == catalog(),
                functions@ == names_of(catalog().take(i as int)),
                counts(functions@, i as nat),
            decreases rules.len() - i,
        {
            let ghost before = catalog().take(i as int);
            let ghost after = catalog().take(i + 1);
            let rule = rules[i];
            set_insert(&mut functions, rule.identifier().to_owned());
            proof {
                assert(after =~= before.push(rule));
                assert(!names_of(before).contains(rule.name())) by {
                    if names_of(before).contains(rule.name()) {
                        let j = choose|j: int|
                            0 <= j < before.len() && (#[trigger] before[j]).name() == rule.name();
                        lemma_names_distinct(before[j], rule);
                        assert(catalog()[j] != catalog()[i as int]);
                    }
                }
                assert(names_of(after) =~= names_of(before).insert(rule.name())) by {
                    assert forall|name: Seq<char>|
                        names_of(after).contains(name) <==> names_of(before).insert(
                            rule.name(),
                        ).contains(name) by {
                        if names_of(before).contains(name) {
                            let j = choose|j: int|
                                0 <= j < before.len() && (#[trigger] before[j]).name() == name;
                            assert(after[j].name() == name);
                        }
                        if name == rule.name() {
                            assert(after[i as int].name() == name);
                        }
                        if names_of(after).contains(name) {
                            let j = choose|j: int|
                                0 <= j < after.len() && (#[trigger] after[j]).name() == name;
                            if j < i {
                                assert(before[j].name() == name);
                            }
                        }
                    }
                }
            }
            i += 1;
        }
        proof {
            assert(catalog().take(13) =~= catalog());
        }
        ProcessorConfigNames { functions, size: 13 }
    }

    /// Takes the parts of the selection, leaving the empty selection behind.
    fn take(&mut self) -> (set: NameSet)
        ensures
            set@ == old(self).names(),
            set@.finite(),
    {
        let mut taken = ProcessorConfigNames::new();
        std::mem::swap(self, &mut taken);
        proof {
            use_type_invariant(&taken);
        }
        let ProcessorConfigNames { functions, size: _ } = taken;
        functions
    }

    /// Adds `function_name` and counts it; nothing changes where the
    /// selection holds it already.
    pub fn insert(&mut self, function_name: &str)
        ensures
            final(self).names() == old(self).names().insert(function_name@),
            final(self).count() == if old(self).names().contains(function_name@) {
                old(self).count()
            } else {
                old(self).count() + 1
            },
            final(self).counted(),
    {
        proof {
            use_type_invariant(&*self);
        }
        let mut functions = self.take();
        set_insert(&mut functions, function_name.to_owned());
        let size = set_len(&functions);
        *self = ProcessorConfigNames { functions, size };
    }

    /// Removes `function_name` and counts one less; nothing changes where
    /// the selection does not hold it.
    pub fn remove(&mut self, function_name: &str)
        ensures
            final(self).names() == old(self).names().remove(function_name@),
            final(self).count() == if old(self).names().contains(function_name@) {
                old(self).count() - 1
            } else {
                old(self).count() as int
            },
            final(self).counted(),
    {
        proof {
            use_type_invariant(&*self);
        }
        let mut functions = self.take();
        set_remove(&mut functions, function_name);
        let size = set_len(&functions);
        *self = ProcessorConfigNames { functions, size };
    }

    /// The set of names itself.
    pub fn functions(&self) -> (set: &NameSet)
        ensures
            set@ == self.names(),
    {
        &self.functions
    }

    /// Whether the selection holds `function_name`.
    pub fn contains(&self, function_name: &str) -> (present: bool)
        ensures
            present == self.names().contains(function_name@),
    {
        set_contains(&self.functions, function_name)
    }

    /// A name of the selection that is not the identifier of any rule, or
    /// `None` exactly where every name of the selection is an identifier.
    /// Where several names are unknown, any one of them may be returned.
    pub fn unknown_name(&self) -> (found: Option<String>)
        ensures
            match found {
                Some(name) => self.names().contains(name@) && !is_identifier(name@),
                None => all_known(self.names()),
            },
    {
        let listing = set_names(&self.functions);
        let mut i: usize = 0;
        while i < listing.len()
            invariant
                i <= listing.len(),
                lists(listing@, self.functions@),
                forall|j: int| 0 <= j < i ==> is_identifier(#[trigger] listing@[j]@),
            decreases listing.len() - i,
        {
            if Transformation::from_name(listing[i].as_str()).is_none() {
                return Some(listing[i].clone());
            }
            i += 1;
        }
        None
    }

    /// The selection that differs from this one in `action` alone: a name
    /// that was present is left out, a name that was missing is put in. This
    /// selection stays as it is.
    pub fn reduce(&self, action: &str) -> (next: Self)
        ensures
            next.names() == if self.names().contains(action@) {
                self.names().remove(action@)
            } else {
                self.names().insert(action@)
            },
            next.count() == if self.names().contains(action@) {
                self.count() - 1
            } else {
                self.count() as int + 1
            },
            next.counted(),
    {
        proof {
            use_type_invariant(self);
        }
        let functions = toggle(&self.functions, action);
        let size = set_len(&functions);
        ProcessorConfigNames { functions, size }
    }

    /// The number of names in the selection.
    pub fn size(&self) -> (n: usize)
        ensures
            n == self.count(),
            n == self.names().len(),
            self.names().finite(),
    {
        proof {
            use_type_invariant(self);
        }
        self.size
    }
}

impl Default for ProcessorConfigNames {
    /// The selection that holds `trim` alone.
    fn default() -> (selection: Self)
        ensures
            selection.names() == set![Transformation::Trim.name()],
            selection.count() == 1,
            selection.counted(),
    {
        let mut functions = set_new();
        set_insert(&mut functions, Transformation::Trim.identifier().to_owned());
        ProcessorConfigNames { functions, size: 1 }
    }
}

impl Clone for ProcessorConfigNames {
    /// A selection of the same names.
    fn clone(&self) -> (copy: Self)
        ensures
            copy.names() == self.names(),
            copy.count() == self.count(),
            copy.counted(),
    {
        proof {
            use_type_invariant(self);
        }
        ProcessorConfigNames { functions: set_clone(&self.functions), size: self.size }
    }
}

impl PartialEq for ProcessorConfigNames {
    /// Two selections are equal exactly if they hold the same names.
    fn eq(&self, other: &Self) -> (same: bool) {
        set_eq(&self.functions, &other.functions)
    }
}

impl vstd::std_specs::cmp::PartialEqSpecImpl for ProcessorConfigNames {
    open spec fn obeys_eq_spec() -> bool {
        true
    }

    open spec fn eq_spec(&self, other: &Self) -> bool {
        self.names() == other.names()
    }
}

/// A name is an identifier exactly if it is among the names of the catalog.
pub proof fn lemma_catalog_names(name: Seq<char>)
    ensures
        catalog_names().contains(name) <==> is_identifier(name),
{
    if is_identifier(name) {
        let t = choose|t: Transformation| #[trigger] t.name() == name;
        lemma_catalog_complete(t);
        let i = choose|i: int| 0 <= i < catalog().len() && catalog()[i] == t;
        assert(catalog()[i].name() == name);
    }
}

/// The selection of every identifier selects the whole catalog, in order,
/// and holds no name that is not an identifier.
pub proof fn lemma_catalog_selected()
    ensures
        all_known(catalog_names()),
        selected(catalog_names()) == catalog(),
{
    assert forall|name: Seq<char>| #[trigger] catalog_names().contains(name) implies is_identifier(
        name,
    ) by {
        lemma_catalog_names(name);
    }
    lemma_chosen_all(catalog(), catalog_names());
}

/// Where `names` holds the identifier of each of `rules`, all of them are chosen.
proof fn lemma_chosen_all(rules: Seq<Transformation>, names: Set<Seq<char>>)
    requires
        forall|i: int| 0 <= i < rules.len() ==> names.contains((#[trigger] rules[i]).name()),
    ensures
        chosen(rules, names) == rules,
    decreases rules.len(),
{
    reveal(Seq::filter);
    if rules.len() > 0 {
        assert forall|i: int| 0 <= i < rules.drop_last().len() implies names.contains(
            (#[trigger] rules.drop_last()[i]).name(),
        ) by {
            assert(rules.drop_last()[i] == rules[i]);
        }
        lemma_chosen_all(rules.drop_last(), names);
        assert(names.contains(rules[rules.len() - 1].name()));
        assert(rules.drop_last().push(rules.last()) =~= rules);
    }
}

} // verus!
