use vstd::prelude::*;
use crate::provider::{keep_flagged, ProviderKind};
use crate::text::{same_text, views};

verus! {

/// The names of `kinds`.
pub open spec fn kind_names(kinds: Seq<ProviderKind>) -> Seq<Seq<char>> {
    kinds.map_values(|k: ProviderKind| k.name_spec())
}

/// The first of `names`, from `k` on, that is `name`.
pub open spec fn name_index(names: Seq<Seq<char>>, name: Seq<char>, k: int) -> Option<int>
    decreases names.len() - k,
{
    if k < 0 || k >= names.len() {
        None
    } else if names[k] == name {
        Some(k)
    } else {
        name_index(names, name, k + 1)
    }
}

/// The backends found on this host, in the fixed order.
pub struct Providers {
    pub providers: Vec<ProviderKind>,
}

/// The registry of the backends of `kinds` whose probe succeeded.
pub fn init(kinds: Vec<ProviderKind>, available: &Vec<bool>) -> (r: Providers)
    requires
        kinds.len() == available.len(),
    ensures
        r.providers@ == keep_flagged(kinds@, available@),
{
    Providers { providers: ProviderKind::available_providers(kinds, available) }
}

impl Providers {
    /// The names of the backends, in order.
    pub fn names(&self) -> (r: Vec<String>)
        ensures
            views(r@) == kind_names(self.providers@),
    {
        let mut r: Vec<String> = Vec::new();
        let mut i: usize = 0;
        while i < self.providers.len()
            invariant
                i <= self.providers.len(),
                views(r@) == kind_names(self.providers@).take(i as int),
            decreases self.providers.len() - i,
        {
            let n = self.providers[i].name();
            let ghost before = r@;
            r.push(n);
            assert(views(r@) == views(before).push(n@));
            assert(kind_names(self.providers@).take(i + 1) == kind_names(self.providers@).take(i as int).push(
                self.providers@[i as int].name_spec(),
            ));
            i = i + 1;
        }
        assert(kind_names(self.providers@).take(self.providers.len() as int) == kind_names(self.providers@));
        r
    }

    /// The position of the backend named `name`; none is a caller's mistake,
    /// not a fault.
    pub fn find(&self, name: &str) -> (r: Option<usize>)
        ensures
            match r {
                Some(i) => name_index(kind_names(self.providers@), name@, 0) == Some(i as int) && i
                    < self.providers.len(),
                None => name_index(kind_names(self.providers@), name@, 0) is None,
            },
    {
        let ghost ns = kind_names(self.providers@);
        let mut i: usize = 0;
        while i < self.providers.len()
            invariant
                i <= self.providers.len(),
                ns == kind_names(self.providers@),
                name_index(ns, name@, 0) == name_index(ns, name@, i as int),
            decreases self.providers.len() - i,
        {
            let n = self.providers[i].name();
            if same_text(n.as_str(), name) {
                return Some(i);
            }
            i = i + 1;
        }
        None
    }

    /// Whether the backend named `name` needs root; nothing when there is none.
    pub fn is_root_required(&self, name: &str) -> (r: Option<bool>)
        ensures
            match name_index(kind_names(self.providers@), name@, 0) {
                Some(i) => r == Some(self.providers@[i].root_spec()),
                None => r is None,
            },
    {
        match self.find(name) {
            Some(i) => Some(self.providers[i].is_root_required()),
            None => None,
        }
    }

    /// Whether one of the backends needs root.
    pub fn some_root_required(&self) -> (r: bool)
        ensures
            r == exists|i: int| 0 <= i < self.providers@.len() && #[trigger] self.providers@[i].root_spec(),
    {
        let mut i: usize = 0;
        while i < self.providers.len()
            invariant
                i <= self.providers.len(),
                forall|j: int| 0 <= j < i ==> !#[trigger] self.providers@[j].root_spec(),
            decreases self.providers.len() - i,
        {
            if self.providers[i].is_root_required() {
                return true;
            }
            i = i + 1;
        }
        false
    }

    /// The start of an update of every backend, one after another.
    pub fn update_all(&self) -> (r: UpdateAll)
        ensures
            views(r.names@) == kind_names(self.providers@),
            r.results@.len() == 0,
    {
        UpdateAll { names: self.names(), results: Vec::new() }
    }
}

/// An update of several backends in turn: each is updated once, in order, and
/// the failure of one does not stop the next.
pub struct UpdateAll {
    pub names: Vec<String>,
    pub results: Vec<bool>,
}

/// The backend to update after the outcomes `outcomes`.
pub open spec fn next_after(names: Seq<Seq<char>>, outcomes: Seq<bool>) -> Option<Seq<char>> {
    if outcomes.len() < names.len() {
        Some(names[outcomes.len() as int])
    } else {
        None
    }
}

/// How many of `outcomes` are failures.
pub open spec fn failures_of(outcomes: Seq<bool>) -> nat
    decreases outcomes.len(),
{
    if outcomes.len() == 0 {
        0
    } else {
        failures_of(outcomes.drop_last()) + if outcomes.last() {
            0nat
        } else {
            1nat
        }
    }
}

/// How many of `outcomes` are successes.
pub open spec fn successes_of(outcomes: Seq<bool>) -> nat
    decreases outcomes.len(),
{
    if outcomes.len() == 0 {
        0
    } else {
        successes_of(outcomes.drop_last()) + if outcomes.last() {
            1nat
        } else {
            0nat
        }
    }
}

impl UpdateAll {
    /// The backend to update now, or nothing when all are done.
    pub fn next(&self) -> (r: Option<String>)
        ensures
            match (r, next_after(views(self.names@), self.results@)) {
                (Some(n), Some(m)) => n@ == m,
                (None, None) => true,
                _ => false,
            },
    {
        if self.results.len() < self.names.len() {
            Some(self.names[self.results.len()].clone())
        } else {
            None
        }
    }

    /// Records how the update of the current backend ended; once every
    /// backend has its outcome, there is nothing more to record.
    pub fn record(&mut self, ok: bool)
        ensures
            final(self).names@ == old(self).names@,
            old(self).results.len() < old(self).names.len() ==> final(self).results@ == old(self).results@.push(ok),
            old(self).results.len() >= old(self).names.len() ==> final(self).results@ == old(self).results@,
    {
        if self.results.len() < self.names.len() {
            self.results.push(ok);
        }
    }

    /// How many updates failed.
    pub fn failures(&self) -> (r: usize)
        ensures
            r == failures_of(self.results@),
    {
        let mut n: usize = 0;
        let mut i: usize = 0;
        while i < self.results.len()
            invariant
                i <= self.results.len(),
                n == failures_of(self.results@.take(i as int)),
                n <= i,
            decreases self.results.len() - i,
        {
            assert(self.results@.take(i + 1).drop_last() == self.results@.take(i as int));
            if !self.results[i] {
                n = n + 1;
            }
            i = i + 1;
        }
        assert(self.results@.take(self.results.len() as int) == self.results@);
        n
    }

    /// How many updates succeeded.
    pub fn successes(&self) -> (r: usize)
        ensures
            r == successes_of(self.results@),
    {
        let mut n: usize = 0;
        let mut i: usize = 0;
        while i < self.results.len()
            invariant
                i <= self.results.len(),
                n == successes_of(self.results@.take(i as int)),
                n <= i,
            decreases self.results.len() - i,
        {
            assert(self.results@.take(i + 1).drop_last() == self.results@.take(i as int));
            if self.results[i] {
                n = n + 1;
            }
            i = i + 1;
        }
        assert(self.results@.take(self.results.len() as int) == self.results@);
        n
    }
}

/// Whatever the earlier updates gave, failures included, every backend is
/// updated in its turn: after `k` outcomes the next one is the `k`-th.
pub proof fn lemma_failure_isolation(names: Seq<Seq<char>>, outcomes: Seq<bool>, k: int)
    requires
        outcomes.len() == names.len(),
        0 <= k < names.len(),
    ensures
        next_after(names, outcomes.take(k)) == Some(names[k]),
{
}

/// Each outcome counts once, as a failure or as a success.
pub proof fn lemma_outcomes_counted(outcomes: Seq<bool>)
    ensures
        failures_of(outcomes) + successes_of(outcomes) == outcomes.len(),
    decreases outcomes.len(),
{
    if outcomes.len() > 0 {
        lemma_outcomes_counted(outcomes.drop_last());
    }
}

} // verus!
