use vstd::prelude::*;

verus! {

/// One package as a backend lists it.
#[derive(Clone, Debug)]
pub struct PackageData {
    pub installed: bool,
    pub repository: String,
    pub name: String,
    pub version: String,
    pub qualified_name: String,
}

/// What a `PackageData` holds, as plain values.
pub struct PackageView {
    pub installed: bool,
    pub repository: Seq<char>,
    pub name: Seq<char>,
    pub version: Seq<char>,
    pub qualified_name: Seq<char>,
}

impl View for PackageData {
    type V = PackageView;

    open spec fn view(&self) -> PackageView {
        PackageView {
            installed: self.installed,
            repository: self.repository@,
            name: self.name@,
            version: self.version@,
            qualified_name: self.qualified_name@,
        }
    }
}

/// A package together with the provider that lists it.
#[derive(Clone, Debug)]
pub struct Package {
    pub provider: String,
    pub repository: String,
    pub name: String,
    pub version: String,
    pub qualified_name: String,
    pub is_installed: bool,
}

/// A package that an install or a removal is waiting on.
#[derive(Clone, Debug)]
pub struct PendingPackage {
    pub is_installing: bool,
    pub package_name: String,
}

/// The views of a sequence of packages.
pub open spec fn package_views(v: Seq<PackageData>) -> Seq<PackageView> {
    v.map_values(|p: PackageData| p@)
}

/// How many of `s` are installed.
pub open spec fn count_installed(s: Seq<PackageView>) -> nat
    decreases s.len(),
{
    if s.len() == 0 {
        0
    } else {
        count_installed(s.drop_last()) + if s.last().installed {
            1nat
        } else {
            0nat
        }
    }
}

pub proof fn lemma_count_installed_bound(s: Seq<PackageView>)
    ensures
        count_installed(s) <= s.len(),
    decreases s.len(),
{
    if s.len() > 0 {
        lemma_count_installed_bound(s.drop_last());
    }
}

/// Some package of `s` has the qualified name `q`.
pub open spec fn has_name(s: Seq<PackageView>, q: Seq<char>) -> bool {
    exists|i: int| 0 <= i < s.len() && #[trigger] s[i].qualified_name == q
}

/// No two packages of `s` share a qualified name.
pub open spec fn unique_names(s: Seq<PackageView>) -> bool {
    forall|i: int, j: int| 0 <= i < j < s.len() ==> #[trigger] s[i].qualified_name != #[trigger] s[j].qualified_name
}

/// `s` with only the first package of each qualified name, in order.
pub open spec fn first_per_name(s: Seq<PackageView>) -> Seq<PackageView>
    decreases s.len(),
{
    if s.len() == 0 {
        Seq::<PackageView>::empty()
    } else {
        let r = first_per_name(s.drop_last());
        if has_name(r, s.last().qualified_name) {
            r
        } else {
            r.push(s.last())
        }
    }
}

/// Keeping the first package of each name leaves the names unique.
pub proof fn lemma_first_per_name_unique(s: Seq<PackageView>)
    ensures
        unique_names(first_per_name(s)),
    decreases s.len(),
{
    if s.len() > 0 {
        lemma_first_per_name_unique(s.drop_last());
        let r = first_per_name(s.drop_last());
        let x = s.last();
        if !has_name(r, x.qualified_name) {
            let t = r.push(x);
            assert forall|i: int, j: int| 0 <= i < j < t.len() implies #[trigger] t[i].qualified_name
                != #[trigger] t[j].qualified_name by {
                if j == r.len() {
                    assert(t[i] == r[i]);
                    if r[i].qualified_name == x.qualified_name {
                        assert(has_name(r, x.qualified_name));
                    }
                } else {
                    assert(t[i] == r[i] && t[j] == r[j]);
                }
            }
        }
    }
}

impl PackageData {
    /// A copy with the same contents.
    pub fn duplicate(&self) -> (r: PackageData)
        ensures
            r@ == self@,
    {
        PackageData {
            installed: self.installed,
            repository: self.repository.clone(),
            name: self.name.clone(),
            version: self.version.clone(),
            qualified_name: self.qualified_name.clone(),
        }
    }
}

/// Whether one of `kept` has the qualified name `q`.
fn has_qualified(kept: &Vec<PackageData>, q: &String) -> (r: bool)
    ensures
        r == has_name(package_views(kept@), q@),
{
    let mut i: usize = 0;
    while i < kept.len()
        invariant
            i <= kept.len(),
            forall|j: int| 0 <= j < i ==> kept@[j].qualified_name@ != q@,
        decreases kept.len() - i,
    {
        if kept[i].qualified_name == *q {
            assert(package_views(kept@)[i as int].qualified_name == q@);
            return true;
        }
        i = i + 1;
    }
    proof {
        if has_name(package_views(kept@), q@) {
            let j = choose|j: int| 0 <= j < kept@.len() && #[trigger] package_views(kept@)[j].qualified_name == q@;
            assert(kept@[j].qualified_name@ == q@);
        }
    }
    false
}

/// The packages of one provider after its last load, with their counters.
pub struct Catalog {
    pub packages: Vec<PackageData>,
    pub installed: usize,
    pub total: usize,
}

impl Catalog {
    /// The counters agree with the packages.
    pub open spec fn wf(&self) -> bool {
        &&& self.installed == count_installed(package_views(self.packages@))
        &&& self.total == self.packages.len()
        &&& unique_names(package_views(self.packages@))
    }

    pub open spec fn view_packages(&self) -> Seq<PackageView> {
        package_views(self.packages@)
    }

    /// A catalog with no packages.
    pub fn new() -> (r: Catalog)
        ensures
            r.wf(),
            r.packages@.len() == 0,
    {
        Catalog { packages: Vec::new(), installed: 0, total: 0 }
    }

    /// The catalog of `packages`, keeping the first package of each
    /// qualified name, with both counters computed from what is kept.
    pub fn from_packages(packages: Vec<PackageData>) -> (r: Catalog)
        ensures
            r.wf(),
            r.view_packages() == first_per_name(package_views(packages@)),
    {
        let ghost all = package_views(packages@);
        let mut kept: Vec<PackageData> = Vec::new();
        let mut i: usize = 0;
        while i < packages.len()
            invariant
                i <= packages.len(),
                all == package_views(packages@),
                package_views(kept@) == first_per_name(all.take(i as int)),
            decreases packages.len() - i,
        {
            proof {
                let t = all.take(i + 1);
                assert(t.drop_last() == all.take(i as int));
                assert(t.last() == packages@[i as int]@);
            }
            if !has_qualified(&kept, &packages[i].qualified_name) {
                let p = packages[i].duplicate();
                let ghost before = kept@;
                kept.push(p);
                assert(package_views(kept@) == package_views(before).push(p@));
            }
            i = i + 1;
        }
        assert(all.take(packages.len() as int) == all);
        proof {
            lemma_first_per_name_unique(all);
        }
        let mut installed: usize = 0;
        let mut k: usize = 0;
        while k < kept.len()
            invariant
                k <= kept.len(),
                installed == count_installed(package_views(kept@.take(k as int))),
            decreases kept.len() - k,
        {
            proof {
                let t = kept@.take(k + 1);
                assert(t.drop_last() == kept@.take(k as int));
                assert(package_views(t).drop_last() == package_views(t.drop_last()));
                lemma_count_installed_bound(package_views(kept@.take(k as int)));
            }
            if kept[k].installed {
                installed = installed + 1;
            }
            k = k + 1;
        }
        assert(kept@.take(kept.len() as int) == kept@);
        let total = kept.len();
        Catalog { packages: kept, installed, total }
    }

    /// A copy of the packages, in order.
    pub fn packages(&self) -> (r: Vec<PackageData>)
        ensures
            package_views(r@) == self.view_packages(),
    {
        let mut r: Vec<PackageData> = Vec::new();
        let mut i: usize = 0;
        while i < self.packages.len()
            invariant
                i <= self.packages.len(),
                package_views(r@) == package_views(self.packages@.take(i as int)),
            decreases self.packages.len() - i,
        {
            r.push(self.packages[i].duplicate());
            assert(package_views(self.packages@.take(i + 1)) == package_views(
                self.packages@.take(i as int),
            ).push(self.packages@[i as int]@));
            i = i + 1;
        }
        assert(self.packages@.take(self.packages.len() as int) == self.packages@);
        r
    }
}

/// Whatever a catalog holds, its installed counter counts the installed
/// packages, and installed and not-installed together make up the total.
pub proof fn lemma_catalog_counts(c: Catalog)
    requires
        c.wf(),
    ensures
        c.installed == count_installed(c.view_packages()),
        c.installed <= c.total,
        c.installed + (c.total - c.installed) == c.total,
{
    lemma_count_installed_bound(c.view_packages());
}

} // verus!
