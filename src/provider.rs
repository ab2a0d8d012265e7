use vstd::prelude::*;
use secstr::SecVec;
use crate::command::{plain_spec, privileged_spec, ps_quote_spec, quote_spec, Action, CommandSpec, OpError};
use crate::dnf::{dnf_records, dnf_separator, Dnf};
use crate::pattern::regex_valid;
use crate::flatpak::{flatpak_records, split_qualified, Flatpak};
use crate::listing::{lines_of, InfoError, LoadError};
use crate::package::{first_per_name, lemma_catalog_counts, count_installed, package_views, Catalog, PackageData};
use crate::pacman::{sl_records, Pacman};
use crate::paru::Paru;
use crate::protonge::{release_records, tags, ProtonGE, Release};
use crate::text::views;
use crate::winget::{table_rows, winget_records, Winget};

verus! {

/// One backend, of any kind.
pub enum ProviderKind {
    FLATPAK(Flatpak),
    PACMAN(Pacman),
    PARU(Paru),
    PROTONGE(ProtonGE),
    WINGET(Winget),
    DNF(Dnf),
}

/// What a backend reads to load its catalog: the outputs of its listing
/// commands, or for the release backend the directory names and the release
/// list.
pub enum Listing {
    /// `pacman -Sl` or `paru -Sl`.
    Sl(String),
    /// `dnf list --all -q`.
    DnfList(String),
    /// The installed applications and what the remotes offer.
    Flatpak { installed: String, remote: String },
    /// The installed table and the search table.
    Winget { installed: String, available: String },
    /// The compatibility-tool directory names and the releases.
    Releases { dirs: Vec<String>, releases: Vec<Release> },
}

/// How the description of a package is had.
pub enum InfoStep {
    /// Run this command; its output is the description.
    Run(String),
    /// Run this command, then hand its output and the remote to
    /// `flatpak_info_from_search`.
    Search { command: String, remote: String },
    /// The description itself.
    Text(String),
}

/// `r` is a command to stream that meets `inner`.
pub open spec fn runs(r: Result<Action, OpError>, inner: spec_fn(Result<CommandSpec, OpError>) -> bool) -> bool {
    match r {
        Ok(Action::Run(c)) => inner(Ok(c)),
        Ok(_) => false,
        Err(e) => inner(Err(e)),
    }
}

/// `r` is the flatpak command `head remote-or-id tail` for `package`, or the
/// refusal of a malformed name.
pub open spec fn flatpak_runs(r: Result<Action, OpError>, package: Seq<char>, cmd: spec_fn(Seq<char>, Seq<char>) -> Seq<char>) -> bool {
    match split_qualified(package) {
        Some((remote, id)) => r matches Ok(Action::Run(c)) && plain_spec(cmd(remote, id), c),
        None => r matches Err(OpError::MalformedName),
    }
}

impl ProviderKind {
    /// The catalog of the backend.
    pub open spec fn catalog(&self) -> Catalog {
        match self {
            ProviderKind::FLATPAK(p) => p.catalog,
            ProviderKind::PACMAN(p) => p.catalog,
            ProviderKind::PARU(p) => p.catalog,
            ProviderKind::PROTONGE(p) => p.catalog,
            ProviderKind::WINGET(p) => p.catalog,
            ProviderKind::DNF(p) => p.catalog,
        }
    }

    pub open spec fn name_spec(&self) -> Seq<char> {
        match self {
            ProviderKind::FLATPAK(p) => p.name@,
            ProviderKind::PACMAN(p) => p.name@,
            ProviderKind::PARU(p) => p.name@,
            ProviderKind::PROTONGE(p) => p.name@,
            ProviderKind::WINGET(p) => p.name@,
            ProviderKind::DNF(p) => p.name@,
        }
    }

    /// Whether the backend's commands run as root: pacman, paru and dnf do;
    /// flatpak, winget and the release backend never do.
    pub open spec fn root_spec(&self) -> bool {
        self is PACMAN || self is PARU || self is DNF
    }

    /// The catalog's counters agree with its packages.
    pub open spec fn wf(&self) -> bool {
        self.catalog().wf()
    }

    /// The same kind of backend.
    pub open spec fn same_kind(&self, other: &ProviderKind) -> bool {
        match (self, other) {
            (ProviderKind::FLATPAK(_), ProviderKind::FLATPAK(_)) => true,
            (ProviderKind::PACMAN(_), ProviderKind::PACMAN(_)) => true,
            (ProviderKind::PARU(_), ProviderKind::PARU(_)) => true,
            (ProviderKind::PROTONGE(_), ProviderKind::PROTONGE(_)) => true,
            (ProviderKind::WINGET(_), ProviderKind::WINGET(_)) => true,
            (ProviderKind::DNF(_), ProviderKind::DNF(_)) => true,
            _ => false,
        }
    }

    pub fn name(&self) -> (r: String)
        ensures
            r@ == self.name_spec(),
    {
        match self {
            ProviderKind::FLATPAK(p) => p.name(),
            ProviderKind::PACMAN(p) => p.name(),
            ProviderKind::PARU(p) => p.name(),
            ProviderKind::PROTONGE(p) => p.name(),
            ProviderKind::WINGET(p) => p.name(),
            ProviderKind::DNF(p) => p.name(),
        }
    }

    pub fn is_root_required(&self) -> (r: bool)
        ensures
            r == self.root_spec(),
    {
        match self {
            ProviderKind::FLATPAK(p) => p.is_root_required(),
            ProviderKind::PACMAN(p) => p.is_root_required(),
            ProviderKind::PARU(p) => p.is_root_required(),
            ProviderKind::PROTONGE(p) => p.is_root_required(),
            ProviderKind::WINGET(p) => p.is_root_required(),
            ProviderKind::DNF(p) => p.is_root_required(),
        }
    }

    /// A copy of the packages of the catalog, in order.
    pub fn packages(&self) -> (r: Vec<PackageData>)
        ensures
            package_views(r@) == self.catalog().view_packages(),
    {
        match self {
            ProviderKind::FLATPAK(p) => p.packages(),
            ProviderKind::PACMAN(p) => p.packages(),
            ProviderKind::PARU(p) => p.packages(),
            ProviderKind::PROTONGE(p) => p.packages(),
            ProviderKind::WINGET(p) => p.packages(),
            ProviderKind::DNF(p) => p.packages(),
        }
    }

    pub fn installed(&self) -> (r: usize)
        ensures
            r == self.catalog().installed,
    {
        match self {
            ProviderKind::FLATPAK(p) => p.installed(),
            ProviderKind::PACMAN(p) => p.installed(),
            ProviderKind::PARU(p) => p.installed(),
            ProviderKind::PROTONGE(p) => p.installed(),
            ProviderKind::WINGET(p) => p.installed(),
            ProviderKind::DNF(p) => p.installed(),
        }
    }

    pub fn total(&self) -> (r: usize)
        ensures
            r == self.catalog().total,
    {
        match self {
            ProviderKind::FLATPAK(p) => p.total(),
            ProviderKind::PACMAN(p) => p.total(),
            ProviderKind::PARU(p) => p.total(),
            ProviderKind::PROTONGE(p) => p.total(),
            ProviderKind::WINGET(p) => p.total(),
            ProviderKind::DNF(p) => p.total(),
        }
    }

    /// The command whose success shows that the backend's tool is there; the
    /// release backend has none (see `ProtonGE::is_available`).
    pub fn probe_command(&self) -> (r: Option<String>)
        ensures
            match self {
                ProviderKind::FLATPAK(_) => r matches Some(c) && c@ == "flatpak --version"@,
                ProviderKind::PACMAN(_) => r matches Some(c) && c@ == "pacman --version"@,
                ProviderKind::PARU(_) => r matches Some(c) && c@ == "paru --version"@,
                ProviderKind::PROTONGE(_) => r is None,
                ProviderKind::WINGET(_) => r matches Some(c) && c@ == "winget --version"@,
                ProviderKind::DNF(_) => r matches Some(c) && c@ == "dnf --version"@,
            },
    {
        match self {
            ProviderKind::FLATPAK(_) => Some(Flatpak::probe_command()),
            ProviderKind::PACMAN(_) => Some(Pacman::probe_command()),
            ProviderKind::PARU(_) => Some(Paru::probe_command()),
            ProviderKind::PROTONGE(_) => None,
            ProviderKind::WINGET(_) => Some(Winget::probe_command()),
            ProviderKind::DNF(_) => Some(Dnf::probe_command()),
        }
    }

    /// Replaces the catalog with the records of `listing`. A listing of another
    /// kind, or one the backend cannot read, is an error and leaves the
    /// catalog as it was.
    pub fn update_packages(&mut self, listing: Listing) -> (r: Result<(), LoadError>)
        ensures
            final(self).same_kind(old(self)),
            final(self).name_spec() == old(self).name_spec(),
            r is Ok ==> final(self).wf(),
            r is Err ==> final(self).catalog() == old(self).catalog(),
            match (*old(self), listing) {
                (ProviderKind::PACMAN(_), Listing::Sl(raw)) => r is Ok && final(self).catalog().view_packages()
                    == first_per_name(sl_records(raw@)),
                (ProviderKind::PARU(_), Listing::Sl(raw)) => r is Ok && final(self).catalog().view_packages()
                    == first_per_name(sl_records(raw@)),
                (ProviderKind::DNF(_), Listing::DnfList(raw)) => (regex_valid(dnf_separator()) ==> r is Ok) && (r is Ok
                    ==> final(self).catalog().view_packages() == first_per_name(dnf_records(lines_of(raw@)))),
                (ProviderKind::FLATPAK(_), Listing::Flatpak { installed, remote }) => r is Ok
                    && final(self).catalog().view_packages() == first_per_name(flatpak_records(installed@, remote@)),
                (ProviderKind::WINGET(_), Listing::Winget { installed, available }) => match (
                    table_rows(installed@),
                    table_rows(available@),
                ) {
                    (Ok(i), Ok(a)) => r is Ok && final(self).catalog().view_packages() == first_per_name(winget_records(i, a)),
                    (Err(e), _) => r == Err::<(), LoadError>(e),
                    (Ok(_), Err(e)) => r == Err::<(), LoadError>(e),
                },
                (ProviderKind::PROTONGE(_), Listing::Releases { dirs, releases }) => r is Ok
                    && final(self).catalog().view_packages() == first_per_name(release_records(tags(releases@), views(dirs@))),
                _ => r == Err::<(), LoadError>(LoadError::WrongListing),
            },
    {
        match (self, listing) {
            (ProviderKind::PACMAN(p), Listing::Sl(raw)) => {
                p.load_packages(raw.as_str());
                Ok(())
            },
            (ProviderKind::PARU(p), Listing::Sl(raw)) => {
                p.load_packages(raw.as_str());
                Ok(())
            },
            (ProviderKind::DNF(p), Listing::DnfList(raw)) => p.load_packages(raw.as_str()),
            (ProviderKind::FLATPAK(p), Listing::Flatpak { installed, remote }) => {
                p.load_packages(installed.as_str(), remote.as_str());
                Ok(())
            },
            (ProviderKind::WINGET(p), Listing::Winget { installed, available }) => p.load_packages(
                installed.as_str(),
                available.as_str(),
            ),
            (ProviderKind::PROTONGE(p), Listing::Releases { dirs, releases }) => {
                p.load_packages(&dirs, releases);
                Ok(())
            },
            _ => Err(LoadError::WrongListing),
        }
    }

    /// How to describe `package`.
    pub fn package_info(&self, package: &str) -> (r: Result<InfoStep, InfoError>)
        ensures
            match self {
                ProviderKind::PACMAN(_) => r matches Ok(InfoStep::Run(c)) && c@ == "pacman -Si "@ + quote_spec(package@),
                ProviderKind::PARU(_) => r matches Ok(InfoStep::Run(c)) && c@ == "paru -Si "@ + quote_spec(package@),
                ProviderKind::DNF(_) => r matches Ok(InfoStep::Run(c)) && c@ == "dnf info "@ + quote_spec(package@),
                ProviderKind::WINGET(_) => r matches Ok(InfoStep::Run(c)) && c@ == "winget show "@ + ps_quote_spec(package@),
                ProviderKind::FLATPAK(_) => match split_qualified(package@) {
                    Some((remote, id)) => r matches Ok(InfoStep::Search { command, remote: rm })
                        && command@ == "flatpak search "@ + quote_spec(id) && rm@ == remote,
                    None => r == Err::<InfoStep, InfoError>(InfoError::MalformedName),
                },
                ProviderKind::PROTONGE(p) => match crate::protonge::release_index(p.packages_description@, package@, 0) {
                    Some(i) => r matches Ok(InfoStep::Text(t)) && t@ == "URL: "@ + p.packages_description@[i].html_url@ + "\n"@
                        + p.packages_description@[i].body@,
                    None => r == Err::<InfoStep, InfoError>(InfoError::NotFound),
                },
            },
    {
        match self {
            ProviderKind::PACMAN(p) => Ok(InfoStep::Run(p.package_info(package))),
            ProviderKind::PARU(p) => Ok(InfoStep::Run(p.package_info(package))),
            ProviderKind::DNF(p) => Ok(InfoStep::Run(p.package_info(package))),
            ProviderKind::WINGET(p) => Ok(InfoStep::Run(p.package_info(package))),
            ProviderKind::FLATPAK(p) => match p.package_info(package) {
                Ok(command) => match crate::flatpak::remote_and_id(package) {
                    Some((remote, _)) => Ok(InfoStep::Search { command, remote }),
                    None => Err(InfoError::MalformedName),
                },
                Err(e) => Err(e),
            },
            ProviderKind::PROTONGE(p) => match p.package_info(package) {
                Ok(t) => Ok(InfoStep::Text(t)),
                Err(e) => Err(e),
            },
        }
    }
}

impl ProviderKind {
    /// How to install `package`.
    pub fn install(&self, password: Option<SecVec<u8>>, package: &str) -> (r: Result<Action, OpError>)
        ensures
            match self {
                ProviderKind::PACMAN(_) => runs(r, |x| privileged_spec(password, "sudo -S pacman -Syu "@ + quote_spec(package@) + " --noconfirm"@, x)),
                ProviderKind::PARU(_) => runs(r, |x| privileged_spec(password, "sudo -S su && paru -Syu "@ + quote_spec(package@) + " --noconfirm --sudoflags -S --sudoloop"@, x)),
                ProviderKind::DNF(_) => runs(r, |x| privileged_spec(password, "sudo -S dnf install "@ + quote_spec(package@) + " -y"@, x)),
                ProviderKind::FLATPAK(_) => flatpak_runs(r, package@, |remote: Seq<char>, id: Seq<char>| "flatpak install "@ + quote_spec(remote) + " "@ + quote_spec(id) + " -y --noninteractive"@),
                ProviderKind::WINGET(_) => r matches Ok(Action::Run(c)) && plain_spec("winget install "@ + ps_quote_spec(package@), c),
                ProviderKind::PROTONGE(p) => match crate::protonge::release_index(p.packages_description@, package@, 0) {
                    Some(i) => r matches Ok(Action::Download { assets_url }) && assets_url@ == p.packages_description@[i].assets_url@,
                    None => r matches Err(OpError::PackageNotFound),
                },
            },
    {
        match self {
            ProviderKind::PACMAN(p) => match p.install(password, package) {
                Ok(c) => Ok(Action::Run(c)),
                Err(e) => Err(e),
            },
            ProviderKind::PARU(p) => match p.install(password, package) {
                Ok(c) => Ok(Action::Run(c)),
                Err(e) => Err(e),
            },
            ProviderKind::DNF(p) => match p.install(password, package) {
                Ok(c) => Ok(Action::Run(c)),
                Err(e) => Err(e),
            },
            ProviderKind::FLATPAK(p) => match p.install(password, package) {
                Ok(c) => Ok(Action::Run(c)),
                Err(e) => Err(e),
            },
            ProviderKind::WINGET(p) => match p.install(password, package) {
                Ok(c) => Ok(Action::Run(c)),
                Err(e) => Err(e),
            },
            ProviderKind::PROTONGE(p) => p.install(password, package),
        }
    }

    /// How to remove `package`.
    pub fn remove(&self, password: Option<SecVec<u8>>, package: &str) -> (r: Result<Action, OpError>)
        ensures
            match self {
                ProviderKind::PACMAN(_) => runs(r, |x| privileged_spec(password, "sudo -S pacman -Runs "@ + quote_spec(package@) + " --noconfirm"@, x)),
                ProviderKind::PARU(_) => runs(r, |x| privileged_spec(password, "sudo -S su && paru -Runs "@ + quote_spec(package@) + " --noconfirm --sudoflags -S --sudoloop"@, x)),
                ProviderKind::DNF(_) => runs(r, |x| privileged_spec(password, "sudo -S dnf remove "@ + quote_spec(package@) + " -y"@, x)),
                ProviderKind::FLATPAK(_) => flatpak_runs(r, package@, |remote: Seq<char>, id: Seq<char>| "flatpak remove "@ + quote_spec(id) + " -y --noninteractive"@),
                ProviderKind::WINGET(_) => r matches Ok(Action::Run(c)) && plain_spec("winget uninstall "@ + ps_quote_spec(package@), c),
                ProviderKind::PROTONGE(_) => {
                    let v = crate::protonge::version_of(crate::protonge::release_name(package@));
                    (v.len() > 0 ==> (r matches Ok(Action::RemoveMatching { version }) && version@ == v))
                        && (v.len() == 0 ==> (r matches Err(OpError::PackageNotFound)))
                },
            },
    {
        match self {
            ProviderKind::PACMAN(p) => match p.remove(password, package) {
                Ok(c) => Ok(Action::Run(c)),
                Err(e) => Err(e),
            },
            ProviderKind::PARU(p) => match p.remove(password, package) {
                Ok(c) => Ok(Action::Run(c)),
                Err(e) => Err(e),
            },
            ProviderKind::DNF(p) => match p.remove(password, package) {
                Ok(c) => Ok(Action::Run(c)),
                Err(e) => Err(e),
            },
            ProviderKind::FLATPAK(p) => match p.remove(password, package) {
                Ok(c) => Ok(Action::Run(c)),
                Err(e) => Err(e),
            },
            ProviderKind::WINGET(p) => match p.remove(password, package) {
                Ok(c) => Ok(Action::Run(c)),
                Err(e) => Err(e),
            },
            ProviderKind::PROTONGE(p) => p.remove(password, package),
        }
    }

    /// How to update the whole backend.
    pub fn update(&self, password: Option<SecVec<u8>>) -> (r: Result<Action, OpError>)
        ensures
            match self {
                ProviderKind::PACMAN(_) => runs(r, |x| privileged_spec(password, "sudo -S pacman -Syu --noconfirm"@, x)),
                ProviderKind::PARU(_) => runs(r, |x| privileged_spec(password, "paru -Syu --noconfirm --sudoflags -S --sudoloop"@, x)),
                ProviderKind::DNF(_) => runs(r, |x| privileged_spec(password, "sudo -S dnf update -y"@, x)),
                ProviderKind::FLATPAK(_) => r matches Ok(Action::Run(c)) && plain_spec("flatpak update -y --noninteractive"@, c),
                ProviderKind::WINGET(_) => r matches Ok(Action::Run(c)) && plain_spec("winget upgrade -h --all"@, c),
                ProviderKind::PROTONGE(p) => {
                    (p.catalog.packages@.len() == 0 ==> (r matches Ok(Action::Reload)))
                    && (p.catalog.packages@.len() > 0 && p.catalog.packages@[0].installed ==> (r matches Ok(
                        Action::Run(c),
                    ) && plain_spec("echo Nothing to do. "@, c)))
                    && (p.catalog.packages@.len() > 0 && !p.catalog.packages@[0].installed ==> match crate::protonge::release_index(
                        p.packages_description@,
                        p.catalog.packages@[0].name@,
                        0,
                    ) {
                        Some(i) => (r matches Ok(Action::Download { assets_url }) && assets_url@
                            == p.packages_description@[i].assets_url@),
                        None => r matches Err(OpError::PackageNotFound),
                    })
                },
            },
    {
        match self {
            ProviderKind::PACMAN(p) => match p.update(password) {
                Ok(c) => Ok(Action::Run(c)),
                Err(e) => Err(e),
            },
            ProviderKind::PARU(p) => match p.update(password) {
                Ok(c) => Ok(Action::Run(c)),
                Err(e) => Err(e),
            },
            ProviderKind::DNF(p) => match p.update(password) {
                Ok(c) => Ok(Action::Run(c)),
                Err(e) => Err(e),
            },
            ProviderKind::FLATPAK(p) => match p.update(password) {
                Ok(c) => Ok(Action::Run(c)),
                Err(e) => Err(e),
            },
            ProviderKind::WINGET(p) => match p.update(password) {
                Ok(c) => Ok(Action::Run(c)),
                Err(e) => Err(e),
            },
            ProviderKind::PROTONGE(p) => p.update(password),
        }
    }

    /// Every kind of backend, each with an empty catalog, in the fixed order
    /// Flatpak, Pacman, Paru, Proton GE, Winget, Dnf.
    pub fn all(native_steam: bool, flatpak_steam: bool) -> (r: Vec<ProviderKind>)
        ensures
            r@.len() == 6,
            forall|i: int| 0 <= i < 6 ==> #[trigger] r@[i].wf() && r@[i].catalog().packages@.len() == 0,
            r@[0] is FLATPAK,
            r@[1] is PACMAN,
            r@[2] is PARU,
            r@[3] is PROTONGE,
            r@[4] is WINGET,
            r@[5] is DNF,
    {
        let mut r: Vec<ProviderKind> = Vec::new();
        r.push(ProviderKind::FLATPAK(Flatpak::default()));
        r.push(ProviderKind::PACMAN(Pacman::default()));
        r.push(ProviderKind::PARU(Paru::default()));
        r.push(ProviderKind::PROTONGE(ProtonGE::new(native_steam, flatpak_steam)));
        r.push(ProviderKind::WINGET(Winget::default()));
        r.push(ProviderKind::DNF(Dnf::default()));
        r
    }
}

/// `items` with only those whose flag is set, in order.
pub open spec fn keep_flagged<A>(items: Seq<A>, flags: Seq<bool>) -> Seq<A>
    decreases items.len(),
{
    if items.len() == 0 || flags.len() == 0 {
        Seq::<A>::empty()
    } else {
        let rest = keep_flagged(items.drop_last(), flags.drop_last());
        if flags.last() {
            rest.push(items.last())
        } else {
            rest
        }
    }
}

impl ProviderKind {
    /// The backends of `kinds` whose probe succeeded (`available`, one flag for
    /// each), in their order.
    pub fn available_providers(kinds: Vec<ProviderKind>, available: &Vec<bool>) -> (r: Vec<ProviderKind>)
        requires
            kinds.len() == available.len(),
        ensures
            r@ == keep_flagged(kinds@, available@),
    {
        let mut kinds = kinds;
        let ghost all = kinds@;
        let mut back: Vec<ProviderKind> = Vec::new();
        let mut i: usize = kinds.len();
        proof {
            assert(available@.take(i as int) == available@);
            assert(all.take(i as int) == all);
            assert(back@.reverse() == Seq::<ProviderKind>::empty());
            assert(keep_flagged(all, available@) + Seq::<ProviderKind>::empty() == keep_flagged(all, available@));
        }
        while i > 0
            invariant
                i == kinds.len(),
                i <= available.len(),
                all.len() == available.len(),
                kinds@ == all.take(i as int),
                keep_flagged(all, available@) == keep_flagged(kinds@, available@.take(i as int)) + back@.reverse(),
            decreases i,
        {
            let k = kinds.pop().unwrap();
            proof {
                let t = all.take(i as int);
                let f = available@.take(i as int);
                assert(t.drop_last() == all.take(i - 1));
                assert(f.drop_last() == available@.take(i - 1));
                assert(t.last() == k);
                assert(f.last() == available@[i - 1]);
            }
            let ghost before = back@;
            if available[i - 1] {
                back.push(k);
                proof {
                    assert(back@.reverse() == seq![k] + before.reverse());
                    let rest = keep_flagged(all.take(i - 1), available@.take(i - 1));
                    assert(rest.push(k) + before.reverse() == rest + (seq![k] + before.reverse()));
                }
            }
            i = i - 1;
        }
        proof {
            assert(kinds@ == Seq::<ProviderKind>::empty());
            assert(keep_flagged(kinds@, available@.take(0)) == Seq::<ProviderKind>::empty());
            assert(Seq::<ProviderKind>::empty() + back@.reverse() == back@.reverse());
        }
        let mut r: Vec<ProviderKind> = Vec::new();
        while back.len() > 0
            invariant
                keep_flagged(all, available@) == r@ + back@.reverse(),
            decreases back.len(),
        {
            let k = back.pop().unwrap();
            proof {
                let b = back@.push(k);
                assert(b.reverse() == seq![k] + back@.reverse());
                assert(r@ + (seq![k] + back@.reverse()) == r@.push(k) + back@.reverse());
            }
            r.push(k);
        }
        proof {
            assert(back@.reverse() == Seq::<ProviderKind>::empty());
            assert(r@ + Seq::<ProviderKind>::empty() == r@);
        }
        r
    }
}

/// Whatever a backend has loaded, its installed counter counts the packages
/// marked installed, installed and not-installed make up the total, and no
/// two packages share a qualified name.
pub proof fn lemma_load_counts(p: ProviderKind)
    requires
        p.wf(),
    ensures
        p.catalog().installed == count_installed(p.catalog().view_packages()),
        p.catalog().installed + (p.catalog().total - p.catalog().installed) == p.catalog().total,
        p.catalog().total == p.catalog().packages@.len(),
        crate::package::unique_names(p.catalog().view_packages()),
{
    lemma_catalog_counts(p.catalog());
}

} // verus!
