use vstd::prelude::*;
use secstr::SecVec;
use crate::command::{plain, plain_spec, quote_spec, shell_quote, Action, CommandSpec, OpError};
use crate::listing::InfoError;
use crate::package::{first_per_name, package_views, Catalog, PackageData, PackageView};
use crate::text::{chars_of, contains_spec, contains_str, string_of, trim, trim_spec, views};

verus! {

/// One release as the release list describes it.
pub struct Release {
    pub tag_name: String,
    pub body: String,
    pub html_url: String,
    pub assets_url: String,
}

/// One downloadable file of a release.
pub struct Asset {
    pub name: String,
    pub browser_download_url: String,
}

/// The tags of `releases`.
pub open spec fn tags(releases: Seq<Release>) -> Seq<Seq<char>> {
    releases.map_values(|r: Release| r.tag_name@)
}

pub open spec fn prefix() -> Seq<char> {
    "GE-Proton"@
}

/// The package name of a release tag: the tag when it holds `GE-Proton`,
/// else the tag after `GE-Proton`.
pub open spec fn release_name(tag: Seq<char>) -> Seq<char> {
    if contains_spec(tag, prefix()) {
        tag
    } else {
        prefix() + tag
    }
}

/// The version part of a package name: what follows its first nine
/// characters.
pub open spec fn version_of(name: Seq<char>) -> Seq<char> {
    if name.len() >= 9 {
        name.skip(9)
    } else {
        Seq::<char>::empty()
    }
}

/// The record of a release tag; installed when a directory of exactly its name
/// is there.
pub open spec fn release_record(tag: Seq<char>, dirs: Seq<Seq<char>>) -> PackageView {
    let name = release_name(tag);
    PackageView {
        installed: dirs.contains(name),
        repository: "GloriousEggroll"@,
        name,
        version: version_of(name),
        qualified_name: name,
    }
}

/// The catalog of the releases with tags `tags`, given the directory names
/// `dirs`.
pub open spec fn release_records(tags: Seq<Seq<char>>, dirs: Seq<Seq<char>>) -> Seq<PackageView> {
    tags.map_values(|t: Seq<char>| release_record(t, dirs))
}

/// Whether `dirs` holds `name`.
fn has_dir(dirs: &Vec<String>, name: &String) -> (r: bool)
    ensures
        r == views(dirs@).contains(name@),
{
    let mut i: usize = 0;
    while i < dirs.len()
        invariant
            i <= dirs.len(),
            forall|j: int| 0 <= j < i ==> views(dirs@)[j] != name@,
        decreases dirs.len() - i,
    {
        if dirs[i] == *name {
            assert(views(dirs@)[i as int] == name@);
            return true;
        }
        i = i + 1;
    }
    false
}

/// The package name of a release tag.
pub fn name_of_tag(tag: &str) -> (r: String)
    ensures
        r@ == release_name(tag@),
{
    if contains_str(tag, "GE-Proton") {
        String::from_str(tag)
    } else {
        let mut r = String::from_str("GE-Proton");
        r.append(tag);
        r
    }
}

/// The version part of a package name.
pub fn version_of_name(name: &str) -> (r: String)
    ensures
        r@ == version_of(name@),
{
    let chars = chars_of(name);
    if chars.len() >= 9 {
        let r = string_of(&chars, 9, chars.len());
        assert(chars@.subrange(9, chars.len() as int) == name@.skip(9));
        r
    } else {
        String::new()
    }
}

/// The records of the releases, in the order of the release list.
pub fn release_packages(releases: &Vec<Release>, dirs: &Vec<String>) -> (r: Vec<PackageData>)
    ensures
        package_views(r@) == release_records(tags(releases@), views(dirs@)),
{
    let ghost target = release_records(tags(releases@), views(dirs@));
    let mut r: Vec<PackageData> = Vec::new();
    let mut i: usize = 0;
    while i < releases.len()
        invariant
            i <= releases.len(),
            target == release_records(tags(releases@), views(dirs@)),
            package_views(r@) == target.take(i as int),
        decreases releases.len() - i,
    {
        let name = name_of_tag(releases[i].tag_name.as_str());
        let p = PackageData {
            installed: has_dir(dirs, &name),
            repository: String::from_str("GloriousEggroll"),
            name: name.clone(),
            version: version_of_name(name.as_str()),
            qualified_name: name,
        };
        let ghost before = r@;
        r.push(p);
        assert(package_views(r@) == package_views(before).push(p@));
        assert(target.take(i + 1) == target.take(i as int).push(target[i as int]));
        i = i + 1;
    }
    assert(target.take(releases.len() as int) == target);
    r
}

/// The first release whose tag is `tag`.
pub open spec fn release_index(releases: Seq<Release>, tag: Seq<char>, k: int) -> Option<int>
    decreases releases.len() - k,
{
    if k < 0 || k >= releases.len() {
        None
    } else if releases[k].tag_name@ == tag {
        Some(k)
    } else {
        release_index(releases, tag, k + 1)
    }
}

/// The position of the first release whose tag is `tag`.
fn find_release(releases: &Vec<Release>, tag: &str) -> (r: Option<usize>)
    ensures
        match r {
            Some(i) => release_index(releases@, tag@, 0) == Some(i as int) && i < releases.len(),
            None => release_index(releases@, tag@, 0) is None,
        },
{
    let mut i: usize = 0;
    while i < releases.len()
        invariant
            i <= releases.len(),
            release_index(releases@, tag@, 0) == release_index(releases@, tag@, i as int),
        decreases releases.len() - i,
    {
        if crate::text::same_text(releases[i].tag_name.as_str(), tag) {
            return Some(i);
        }
        i = i + 1;
    }
    None
}

/// The address of the archive among `assets`: that of the last asset whose
/// name holds `.tar.gz`.
pub open spec fn archive_url(assets: Seq<Asset>) -> Option<Seq<char>>
    decreases assets.len(),
{
    if assets.len() == 0 {
        None
    } else if contains_spec(assets.last().name@, ".tar.gz"@) {
        Some(assets.last().browser_download_url@)
    } else {
        archive_url(assets.drop_last())
    }
}

/// The command that downloads `url` and unpacks it into `location`.
pub open spec fn download_spec(url: Seq<char>, location: Seq<char>) -> Seq<char> {
    "wget "@ + quote_spec(url) + " -O /tmp/proton-ge.tar.gz &> /dev/stdout && tar -xvzf /tmp/proton-ge.tar.gz -C "@
        + quote_spec(location)
}

/// The directories among `dirs` whose name contains `version`.
pub open spec fn dirs_matching(dirs: Seq<Seq<char>>, version: Seq<char>) -> Seq<Seq<char>> {
    dirs.filter(|d: Seq<char>| contains_spec(d, version))
}

/// The directories among `dirs` that a removal of `version` leaves.
pub open spec fn dirs_left(dirs: Seq<Seq<char>>, version: Seq<char>) -> Seq<Seq<char>> {
    dirs.filter(|d: Seq<char>| !contains_spec(d, version))
}

/// A second removal of the same version finds nothing left to delete: it is a
/// no-op that succeeds.
pub proof fn lemma_remove_idempotent(dirs: Seq<Seq<char>>, version: Seq<char>)
    ensures
        dirs_matching(dirs_left(dirs, version), version).len() == 0,
    decreases dirs.len(),
{
    reveal(Seq::filter);
    if dirs.len() > 0 {
        let d = dirs.drop_last();
        lemma_remove_idempotent(d, version);
        let left = dirs_left(d, version);
        let x = dirs.last();
        if !contains_spec(x, version) {
            assert(dirs_left(dirs, version) == left.push(x));
            assert(left.push(x).drop_last() == left);
            assert(dirs_matching(left.push(x), version) == dirs_matching(left, version));
        } else {
            assert(dirs_left(dirs, version) == left);
        }
    }
}

/// The Proton GE backend: releases of a compatibility tool for Steam,
/// installed as directories of its compatibility-tools folder.
pub struct ProtonGE {
    pub name: String,
    pub catalog: Catalog,
    pub endpoint: String,
    pub folder_path: String,
    pub packages_description: Vec<Release>,
}

/// The compatibility-tools folder under the home directory: that of the
/// sandboxed Steam when it is there, else that of the native Steam, else none.
pub open spec fn folder_spec(native_steam: bool, flatpak_steam: bool) -> Seq<char> {
    if flatpak_steam {
        "/.var/app/com.valvesoftware.Steam/data/Steam/compatibilitytools.d"@
    } else if native_steam {
        "/.steam/root/compatibilitytools.d"@
    } else {
        ""@
    }
}

impl ProtonGE {
    /// The backend, with an empty catalog, for a host where the native Steam
    /// folder (`~/.steam`) and the sandboxed one are there or not.
    pub fn new(native_steam: bool, flatpak_steam: bool) -> (r: ProtonGE)
        ensures
            r.name@ == "Proton GE"@,
            r.catalog.wf(),
            r.catalog.packages@.len() == 0,
            r.folder_path@ == folder_spec(native_steam, flatpak_steam),
            r.endpoint@ == "https://api.github.com/repos/GloriousEggroll/proton-ge-custom/releases"@,
            r.packages_description@.len() == 0,
    {
        let folder_path = if flatpak_steam {
            String::from_str("/.var/app/com.valvesoftware.Steam/data/Steam/compatibilitytools.d")
        } else if native_steam {
            String::from_str("/.steam/root/compatibilitytools.d")
        } else {
            String::from_str("")
        };
        ProtonGE {
            name: String::from_str("Proton GE"),
            catalog: Catalog::new(),
            endpoint: String::from_str("https://api.github.com/repos/GloriousEggroll/proton-ge-custom/releases"),
            folder_path,
            packages_description: Vec::new(),
        }
    }

    /// Whether the backend can be used: not on Windows, with a Steam folder,
    /// and with the release list reachable.
    pub fn is_available(windows: bool, native_steam: bool, flatpak_steam: bool, reachable: bool) -> (r: bool)
        ensures
            r == (!windows && (native_steam || flatpak_steam) && reachable),
    {
        !windows && (native_steam || flatpak_steam) && reachable
    }

    pub fn name(&self) -> (r: String)
        ensures
            r@ == self.name@,
    {
        self.name.clone()
    }

    /// Whether its commands run as root: fixed for the backend.
    pub fn is_root_required(&self) -> (r: bool)
        ensures
            r == false,
    {
        false
    }

    pub fn installed(&self) -> (r: usize)
        ensures
            r == self.catalog.installed,
    {
        self.catalog.installed
    }

    pub fn total(&self) -> (r: usize)
        ensures
            r == self.catalog.total,
    {
        self.catalog.total
    }

    pub fn packages(&self) -> (r: Vec<PackageData>)
        ensures
            package_views(r@) == self.catalog.view_packages(),
    {
        self.catalog.packages()
    }

    /// The compatibility-tools folder for the home directory `home`.
    pub fn proton_location(&self, home: &str) -> (r: String)
        ensures
            r@ == trim_spec(home@) + self.folder_path@,
    {
        let mut r = trim(home);
        r.append(self.folder_path.as_str());
        r
    }

    /// Replaces the catalog with the records of `releases`, marked installed
    /// after `dirs`, the names of the directories in the compatibility-tools
    /// folder, and keeps the releases for their descriptions.
    pub fn load_packages(&mut self, dirs: &Vec<String>, releases: Vec<Release>)
        ensures
            final(self).catalog.wf(),
            final(self).catalog.view_packages() == first_per_name(release_records(tags(releases@), views(dirs@))),
            final(self).packages_description@ == releases@,
            final(self).name == old(self).name,
            final(self).folder_path == old(self).folder_path,
            final(self).endpoint == old(self).endpoint,
    {
        let packages = release_packages(&releases, dirs);
        self.catalog = Catalog::from_packages(packages);
        self.packages_description = releases;
    }

    /// The description of the release tagged `package`: its address, a line
    /// feed, and its notes.
    pub fn package_info(&self, package: &str) -> (r: Result<String, InfoError>)
        ensures
            match release_index(self.packages_description@, package@, 0) {
                Some(i) => r is Ok && r->Ok_0@ == "URL: "@ + self.packages_description@[i].html_url@ + "\n"@
                    + self.packages_description@[i].body@,
                None => r == Err::<String, InfoError>(InfoError::NotFound),
            },
    {
        match find_release(&self.packages_description, package) {
            Some(i) => {
                let d = &self.packages_description[i];
                let mut r = String::from_str("URL: ");
                r.append(d.html_url.as_str());
                r.append("\n");
                r.append(d.body.as_str());
                Ok(r)
            },
            None => Err(InfoError::NotFound),
        }
    }

    /// Where to fetch the asset list of the release tagged `package`.
    pub fn install(&self, _password: Option<SecVec<u8>>, package: &str) -> (r: Result<Action, OpError>)
        ensures
            match release_index(self.packages_description@, package@, 0) {
                Some(i) => (r matches Ok(Action::Download { assets_url }) && assets_url@
                    == self.packages_description@[i].assets_url@),
                None => r matches Err(OpError::PackageNotFound),
            },
    {
        match find_release(&self.packages_description, package) {
            Some(i) => Ok(Action::Download { assets_url: self.packages_description[i].assets_url.clone() }),
            None => Err(OpError::PackageNotFound),
        }
    }

    /// The command that fetches the archive among `assets` and unpacks it into
    /// `location`.
    pub fn download_command(assets: &Vec<Asset>, location: &str) -> (r: Result<CommandSpec, OpError>)
        ensures
            match archive_url(assets@) {
                Some(url) => r is Ok && plain_spec(download_spec(url, location@), r->Ok_0),
                None => r == Err::<CommandSpec, OpError>(OpError::NoArchive),
            },
    {
        let mut i: usize = assets.len();
        assert(assets@.take(i as int) == assets@);
        while i > 0
            invariant
                i <= assets.len(),
                archive_url(assets@) == archive_url(assets@.take(i as int)),
            decreases i,
        {
            let a = &assets[i - 1];
            proof {
                let t = assets@.take(i as int);
                assert(t.drop_last() == assets@.take(i - 1));
                assert(t.last() == assets@[i - 1]);
            }
            if contains_str(a.name.as_str(), ".tar.gz") {
                let mut c = String::from_str("wget ");
                c.append(shell_quote(a.browser_download_url.as_str()).as_str());
                c.append(" -O /tmp/proton-ge.tar.gz &> /dev/stdout && tar -xvzf /tmp/proton-ge.tar.gz -C ");
                c.append(shell_quote(location).as_str());
                return Ok(plain(c));
            }
            i = i - 1;
        }
        proof {
            assert(assets@.take(0) == Seq::<Asset>::empty());
        }
        Err(OpError::NoArchive)
    }

    /// The removal of the package named `package`: every directory whose name
    /// contains its version goes. A name with no version is refused.
    pub fn remove(&self, _password: Option<SecVec<u8>>, package: &str) -> (r: Result<Action, OpError>)
        ensures
            version_of(release_name(package@)).len() > 0 ==> (r matches Ok(Action::RemoveMatching { version })
                && version@ == version_of(release_name(package@))),
            version_of(release_name(package@)).len() == 0 ==> r matches Err(OpError::PackageNotFound),
    {
        let name = name_of_tag(package);
        let version = version_of_name(name.as_str());
        if version.unicode_len() == 0 {
            Err(OpError::PackageNotFound)
        } else {
            Ok(Action::RemoveMatching { version })
        }
    }

    /// The directories among `dirs` that a removal of `version` deletes.
    pub fn dirs_to_remove(dirs: &Vec<String>, version: &str) -> (r: Vec<String>)
        ensures
            views(r@) == dirs_matching(views(dirs@), version@),
    {
        let ghost ds = views(dirs@);
        let ghost pred = |d: Seq<char>| contains_spec(d, version@);
        let mut r: Vec<String> = Vec::new();
        let mut i: usize = 0;
        while i < dirs.len()
            invariant
                i <= dirs.len(),
                ds == views(dirs@),
                pred == (|d: Seq<char>| contains_spec(d, version@)),
                views(r@) == ds.take(i as int).filter(pred),
            decreases dirs.len() - i,
        {
            proof {
                let t = ds.take(i + 1);
                assert(t.drop_last() == ds.take(i as int));
                assert(t.last() == dirs@[i as int]@);
                reveal(Seq::filter);
            }
            if contains_str(dirs[i].as_str(), version) {
                let ghost before = r@;
                r.push(dirs[i].clone());
                assert(views(r@) == views(before).push(dirs@[i as int]@));
            }
            i = i + 1;
        }
        assert(ds.take(dirs.len() as int) == ds);
        r
    }

    /// The command streamed once the directories are deleted.
    pub fn removed_command() -> (r: CommandSpec)
        ensures
            plain_spec("echo Removed. "@, r),
    {
        plain(String::from_str("echo Removed. "))
    }

    /// The update: with no catalog yet, load first; when the newest release
    /// is not installed, download it; otherwise there is nothing to do.
    pub fn update(&self, _password: Option<SecVec<u8>>) -> (r: Result<Action, OpError>)
        ensures
            self.catalog.packages@.len() == 0 ==> r matches Ok(Action::Reload),
            self.catalog.packages@.len() > 0 && self.catalog.packages@[0].installed ==> (r matches Ok(
                Action::Run(c),
            ) && plain_spec("echo Nothing to do. "@, c)),
            self.catalog.packages@.len() > 0 && !self.catalog.packages@[0].installed ==> match release_index(
                self.packages_description@,
                self.catalog.packages@[0].name@,
                0,
            ) {
                Some(i) => (r matches Ok(Action::Download { assets_url }) && assets_url@
                    == self.packages_description@[i].assets_url@),
                None => r matches Err(OpError::PackageNotFound),
            },
    {
        if self.catalog.packages.len() == 0 {
            return Ok(Action::Reload);
        }
        if !self.catalog.packages[0].installed {
            self.install(None, self.catalog.packages[0].name.as_str())
        } else {
            Ok(Action::Run(plain(String::from_str("echo Nothing to do. "))))
        }
    }
}

} // verus!
