use vstd::prelude::*;
use secstr::SecVec;
use crate::command::{privileged, privileged_spec, quote_spec, with_word, CommandSpec, OpError};
use crate::listing::{keep_some, lemma_keep_some_step, lemma_line_dropped, lines_of};
use crate::package::{first_per_name, package_views, Catalog, PackageData, PackageView};
use crate::text::{split_char, split_spec, views};

verus! {

/// The record of one line of `pacman -Sl` (or `paru -Sl`): words cut at
/// spaces, `repository name version`, and installed when a fourth word marks
/// it. A line of fewer than three words is no record.
pub open spec fn sl_record(line: Seq<char>) -> Option<PackageView> {
    let t = split_spec(line, ' ');
    if t.len() < 3 {
        None
    } else {
        Some(
            PackageView {
                installed: t.len() >= 4,
                repository: t[0],
                name: t[1],
                version: t[2],
                qualified_name: t[1],
            },
        )
    }
}

pub open spec fn sl_line_fn() -> spec_fn(Seq<char>) -> Option<PackageView> {
    |l: Seq<char>| sl_record(l)
}

/// The records of a whole `-Sl` listing, line by line.
pub open spec fn sl_records(raw: Seq<char>) -> Seq<PackageView> {
    keep_some(lines_of(raw), sl_line_fn())
}

/// The record of one `-Sl` line.
pub fn parse_sl_line(line: &str) -> (r: Option<PackageData>)
    ensures
        match (r, sl_record(line@)) {
            (Some(p), Some(v)) => p@ == v,
            (None, None) => true,
            _ => false,
        },
{
    let t = split_char(line, ' ');
    proof {
        assert(views(t@).len() == t@.len());
    }
    if t.len() < 3 {
        return None;
    }
    proof {
        assert(views(t@)[0] == t@[0]@);
        assert(views(t@)[1] == t@[1]@);
        assert(views(t@)[2] == t@[2]@);
    }
    Some(
        PackageData {
            installed: t.len() >= 4,
            repository: t[0].clone(),
            name: t[1].clone(),
            version: t[2].clone(),
            qualified_name: t[1].clone(),
        },
    )
}

/// The records of a whole `-Sl` listing, in the order of its lines.
pub fn parse_sl(raw: &str) -> (r: Vec<PackageData>)
    ensures
        package_views(r@) == sl_records(raw@),
{
    let lines = split_char(raw, '\n');
    let ghost ls = views(lines@);
    let mut r: Vec<PackageData> = Vec::new();
    let mut i: usize = 0;
    while i < lines.len()
        invariant
            i <= lines.len(),
            ls == views(lines@),
            ls == lines_of(raw@),
            package_views(r@) == keep_some(ls.take(i as int), sl_line_fn()),
        decreases lines.len() - i,
    {
        proof {
            lemma_keep_some_step(ls, i as int, sl_line_fn());
            assert(ls[i as int] == lines@[i as int]@);
        }
        match parse_sl_line(lines[i].as_str()) {
            Some(p) => {
                let ghost before = r@;
                r.push(p);
                assert(package_views(r@) == package_views(before).push(p@));
            },
            None => {},
        }
        i = i + 1;
    }
    assert(ls.take(lines.len() as int) == ls);
    r
}

/// A line of fewer than three words in a `-Sl` listing is dropped wherever it
/// stands, between two lines, first or last, and the records of the other
/// lines stay as they are.
pub proof fn lemma_sl_short_line_dropped(before: Seq<char>, line: Seq<char>, after: Seq<char>)
    requires
        split_spec(line, ' ').len() < 3,
        !line.contains('\n'),
    ensures
        sl_records(before + seq!['\n'] + line + seq!['\n'] + after) == sl_records(before + seq!['\n'] + after),
        sl_records(line + seq!['\n'] + after) == sl_records(after),
        sl_records(before + seq!['\n'] + line) == sl_records(before),
{
    lemma_line_dropped(before, line, after, sl_line_fn());
}

/// The pacman backend.
pub struct Pacman {
    pub name: String,
    pub catalog: Catalog,
}

impl Default for Pacman {
    fn default() -> (r: Self)
        ensures
            r.name@ == "Pacman"@,
            r.catalog.wf(),
            r.catalog.packages@.len() == 0,
    {
        Pacman { name: String::from_str("Pacman"), catalog: Catalog::new() }
    }
}

impl Pacman {
    pub fn name(&self) -> (r: String)
        ensures
            r@ == self.name@,
    {
        self.name.clone()
    }

    /// Whether its commands run as root: fixed for the backend.
    pub fn is_root_required(&self) -> (r: bool)
        ensures
            r == true,
    {
        true
    }

    pub fn installed(&self) -> (r: usize)
        ensures
            r == self.catalog.installed,
    {
        self.catalog.installed
    }

    pub fn total(&self) -> (r: usize)
        ensures
            r == self.catalog.total,
    {
        self.catalog.total
    }

    pub fn packages(&self) -> (r: Vec<PackageData>)
        ensures
            package_views(r@) == self.catalog.view_packages(),
    {
        self.catalog.packages()
    }

    /// The command that lists every package of the sync databases.
    pub fn list_command() -> (r: String)
        ensures
            r@ == "pacman -Sl"@,
    {
        String::from_str("pacman -Sl")
    }

    /// The command whose success shows that pacman is there.
    pub fn probe_command() -> (r: String)
        ensures
            r@ == "pacman --version"@,
    {
        String::from_str("pacman --version")
    }

    /// Replaces the catalog with the records of `listing`, the output of
    /// `list_command`.
    pub fn load_packages(&mut self, listing: &str)
        ensures
            final(self).catalog.wf(),
            final(self).catalog.view_packages() == first_per_name(sl_records(listing@)),
            final(self).name == old(self).name,
    {
        let packages = parse_sl(listing);
        self.catalog = Catalog::from_packages(packages);
    }

    /// The command that describes `package`.
    pub fn package_info(&self, package: &str) -> (r: String)
        ensures
            r@ == "pacman -Si "@ + quote_spec(package@),
    {
        let r = with_word("pacman -Si ", package, "");
        proof {
            reveal_strlit("");
            assert("pacman -Si "@ + quote_spec(package@) + ""@ == "pacman -Si "@ + quote_spec(package@));
        }
        r
    }

    pub fn install(&self, password: Option<SecVec<u8>>, package: &str) -> (r: Result<CommandSpec, OpError>)
        ensures
            privileged_spec(password, "sudo -S pacman -Syu "@ + quote_spec(package@) + " --noconfirm"@, r),
    {
        privileged(password, with_word("sudo -S pacman -Syu ", package, " --noconfirm"))
    }

    pub fn remove(&self, password: Option<SecVec<u8>>, package: &str) -> (r: Result<CommandSpec, OpError>)
        ensures
            privileged_spec(password, "sudo -S pacman -Runs "@ + quote_spec(package@) + " --noconfirm"@, r),
    {
        privileged(password, with_word("sudo -S pacman -Runs ", package, " --noconfirm"))
    }

    pub fn update(&self, password: Option<SecVec<u8>>) -> (r: Result<CommandSpec, OpError>)
        ensures
            privileged_spec(password, "sudo -S pacman -Syu --noconfirm"@, r),
    {
        privileged(password, String::from_str("sudo -S pacman -Syu --noconfirm"))
    }
}

} // verus!
