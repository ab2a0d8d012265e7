use vstd::prelude::*;
use secstr::SecVec;
use crate::command::{privileged, privileged_spec, quote_spec, with_word, CommandSpec, OpError};
use crate::package::{first_per_name, package_views, Catalog, PackageData};
use crate::pacman::{parse_sl, sl_records};

verus! {

/// The paru backend: the pacman grammar, through the paru helper.
pub struct Paru {
    pub name: String,
    pub catalog: Catalog,
}

impl Default for Paru {
    fn default() -> (r: Self)
        ensures
            r.name@ == "Paru"@,
            r.catalog.wf(),
            r.catalog.packages@.len() == 0,
    {
        Paru { name: String::from_str("Paru"), catalog: Catalog::new() }
    }
}

impl Paru {
    pub fn name(&self) -> (r: String)
        ensures
            r@ == self.name@,
    {
        self.name.clone()
    }

    /// Whether its commands run as root: fixed for the backend.
    pub fn is_root_required(&self) -> (r: bool)
        ensures
            r == true,
    {
        true
    }

    pub fn installed(&self) -> (r: usize)
        ensures
            r == self.catalog.installed,
    {
        self.catalog.installed
    }

    pub fn total(&self) -> (r: usize)
        ensures
            r == self.catalog.total,
    {
        self.catalog.total
    }

    pub fn packages(&self) -> (r: Vec<PackageData>)
        ensures
            package_views(r@) == self.catalog.view_packages(),
    {
        self.catalog.packages()
    }

    /// The command that lists every package of the sync databases and the AUR.
    pub fn list_command() -> (r: String)
        ensures
            r@ == "paru -Sl"@,
    {
        String::from_str("paru -Sl")
    }

    /// The command whose success shows that paru is there.
    pub fn probe_command() -> (r: String)
        ensures
            r@ == "paru --version"@,
    {
        String::from_str("paru --version")
    }

    /// Replaces the catalog with the records of `listing`, the output of
    /// `list_command`.
    pub fn load_packages(&mut self, listing: &str)
        ensures
            final(self).catalog.wf(),
            final(self).catalog.view_packages() == first_per_name(sl_records(listing@)),
            final(self).name == old(self).name,
    {
        let packages = parse_sl(listing);
        self.catalog = Catalog::from_packages(packages);
    }

    /// The command that describes `package`.
    pub fn package_info(&self, package: &str) -> (r: String)
        ensures
            r@ == "paru -Si "@ + quote_spec(package@),
    {
        let r = with_word("paru -Si ", package, "");
        proof {
            reveal_strlit("");
            assert("paru -Si "@ + quote_spec(package@) + ""@ == "paru -Si "@ + quote_spec(package@));
        }
        r
    }

    pub fn install(&self, password: Option<SecVec<u8>>, package: &str) -> (r: Result<CommandSpec, OpError>)
        ensures
            privileged_spec(password, "sudo -S su && paru -Syu "@ + quote_spec(package@) + " --noconfirm --sudoflags -S --sudoloop"@, r),
    {
        privileged(password, with_word("sudo -S su && paru -Syu ", package, " --noconfirm --sudoflags -S --sudoloop"))
    }

    pub fn remove(&self, password: Option<SecVec<u8>>, package: &str) -> (r: Result<CommandSpec, OpError>)
        ensures
            privileged_spec(password, "sudo -S su && paru -Runs "@ + quote_spec(package@) + " --noconfirm --sudoflags -S --sudoloop"@, r),
    {
        privileged(password, with_word("sudo -S su && paru -Runs ", package, " --noconfirm --sudoflags -S --sudoloop"))
    }

    pub fn update(&self, password: Option<SecVec<u8>>) -> (r: Result<CommandSpec, OpError>)
        ensures
            privileged_spec(password, "paru -Syu --noconfirm --sudoflags -S --sudoloop"@, r),
    {
        privileged(password, String::from_str("paru -Syu --noconfirm --sudoflags -S --sudoloop"))
    }
}

} // verus!
