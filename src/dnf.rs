use vstd::prelude::*;
use secstr::SecVec;
use crate::command::{privileged, privileged_spec, quote_spec, with_word, CommandSpec, OpError};
use crate::listing::{lemma_lines_insert, lines_of, LoadError};
use crate::package::{first_per_name, package_views, Catalog, PackageData, PackageView};
use crate::pattern::{regex_split, regex_split_of, regex_valid};
use crate::text::{same_text, trim, trim_spec, views};

verus! {

/// What separates the columns of a `dnf list` line: runs of whitespace and
/// commas.
pub open spec fn dnf_separator() -> Seq<char> {
    "[\\s,]+"@
}

/// The heading of the section of packages that are not installed.
pub open spec fn available_heading() -> Seq<char> {
    "Available Packages"@
}

/// The heading of the section of installed packages.
pub open spec fn installed_heading() -> Seq<char> {
    "Installed Packages"@
}

/// The record of one line of `dnf list`: columns `name version repository`.
/// A heading, or a line of fewer than three columns, is no record.
pub open spec fn dnf_record(line: Seq<char>, installed: bool) -> Option<PackageView> {
    let f = regex_split_of(dnf_separator(), line);
    if line == available_heading() || line == installed_heading() || f.len() < 3 {
        None
    } else {
        Some(
            PackageView {
                installed,
                repository: trim_spec(f[2]),
                name: trim_spec(f[0]),
                version: trim_spec(f[1]),
                qualified_name: trim_spec(f[0]),
            },
        )
    }
}

/// The records of the lines of a `dnf list --all` listing: a line is installed
/// unless the available heading stands before it.
pub open spec fn dnf_records(lines: Seq<Seq<char>>) -> Seq<PackageView>
    decreases lines.len(),
{
    if lines.len() == 0 {
        Seq::<PackageView>::empty()
    } else {
        let rest = dnf_records(lines.drop_last());
        match dnf_record(lines.last(), !lines.drop_last().contains(available_heading())) {
            Some(p) => rest.push(p),
            None => rest,
        }
    }
}

/// The record of one `dnf list` line; `Err` when the separator is refused.
pub fn parse_dnf_line(line: &str, installed: bool) -> (r: Result<Option<PackageData>, LoadError>)
    ensures
        match r {
            Ok(Some(p)) => dnf_record(line@, installed) == Some(p@),
            Ok(None) => dnf_record(line@, installed) is None,
            Err(e) => e == LoadError::InvalidPattern,
        },
        regex_valid(dnf_separator()) ==> r is Ok,
        r is Err ==> !regex_valid(dnf_separator()),
{
    if same_text(line, "Available Packages") || same_text(line, "Installed Packages") {
        return Ok(None);
    }
    let f = match regex_split("[\\s,]+", line) {
        Some(f) => f,
        None => {
            return Err(LoadError::InvalidPattern);
        },
    };
    proof {
        assert(views(f@).len() == f@.len());
    }
    if f.len() < 3 {
        return Ok(None);
    }
    proof {
        assert(views(f@)[0] == f@[0]@);
        assert(views(f@)[1] == f@[1]@);
        assert(views(f@)[2] == f@[2]@);
    }
    let name = trim(f[0].as_str());
    Ok(
        Some(
            PackageData {
                installed,
                repository: trim(f[2].as_str()),
                name: name.clone(),
                version: trim(f[1].as_str()),
                qualified_name: name,
            },
        ),
    )
}

/// The records of a whole `dnf list --all` listing, in the order of its lines.
pub fn parse_dnf(raw: &str) -> (r: Result<Vec<PackageData>, LoadError>)
    ensures
        match r {
            Ok(v) => package_views(v@) == dnf_records(lines_of(raw@)),
            Err(e) => e == LoadError::InvalidPattern,
        },
        regex_valid(dnf_separator()) ==> r is Ok,
        r is Err ==> !regex_valid(dnf_separator()),
{
    let lines = crate::text::split_char(raw, '\n');
    let ghost ls = views(lines@);
    let mut r: Vec<PackageData> = Vec::new();
    let mut seen = false;
    let mut i: usize = 0;
    while i < lines.len()
        invariant
            i <= lines.len(),
            ls == views(lines@),
            ls == lines_of(raw@),
            seen == ls.take(i as int).contains(available_heading()),
            package_views(r@) == dnf_records(ls.take(i as int)),
        decreases lines.len() - i,
    {
        proof {
            let t = ls.take(i + 1);
            assert(t.drop_last() == ls.take(i as int));
            assert(t.last() == ls[i as int]);
            assert(ls[i as int] == lines@[i as int]@);
        }
        match parse_dnf_line(lines[i].as_str(), !seen) {
            Ok(Some(p)) => {
                let ghost before = r@;
                r.push(p);
                assert(package_views(r@) == package_views(before).push(p@));
            },
            Ok(None) => {},
            Err(e) => {
                return Err(e);
            },
        }
        let heading = same_text(lines[i].as_str(), "Available Packages");
        proof {
            let t = ls.take(i + 1);
            assert(t == ls.take(i as int).push(ls[i as int]));
            if heading {
                assert(t[i as int] == available_heading());
            }
            if t.contains(available_heading()) && !ls.take(i as int).contains(available_heading()) {
                let k = choose|k: int| 0 <= k < t.len() && t[k] == available_heading();
                if k < i {
                    assert(ls.take(i as int)[k] == available_heading());
                }
            }
            if ls.take(i as int).contains(available_heading()) {
                let k = choose|k: int| 0 <= k < i && ls.take(i as int)[k] == available_heading();
                assert(t[k] == available_heading());
            }
        }
        seen = seen || heading;
        i = i + 1;
    }
    assert(ls.take(lines.len() as int) == ls);
    Ok(r)
}

/// A line that is no record and not the available heading changes nothing
/// when it is taken out.
proof fn lemma_dnf_skip(a: Seq<Seq<char>>, x: Seq<char>, b: Seq<Seq<char>>)
    requires
        x != available_heading(),
        dnf_record(x, true) is None,
        dnf_record(x, false) is None,
    ensures
        dnf_records(a + seq![x] + b) == dnf_records(a + b),
    decreases b.len(),
{
    if b.len() == 0 {
        assert(a + seq![x] + b == (a + seq![x]));
        assert((a + seq![x]).drop_last() == a);
        assert(a + b == a);
    } else {
        let bd = b.drop_last();
        lemma_dnf_skip(a, x, bd);
        assert((a + seq![x] + b).drop_last() == a + seq![x] + bd);
        assert((a + seq![x] + b).last() == b.last());
        assert((a + b).drop_last() == a + bd);
        assert((a + b).last() == b.last());
        let h = available_heading();
        assert((a + seq![x] + bd).contains(h) == (a + bd).contains(h)) by {
            if (a + seq![x] + bd).contains(h) {
                let k = choose|k: int| 0 <= k < (a + seq![x] + bd).len() && (a + seq![x] + bd)[k] == h;
                if k < a.len() {
                    assert((a + bd)[k] == h);
                } else if k > a.len() {
                    assert((a + bd)[k - 1] == h);
                }
            }
            if (a + bd).contains(h) {
                let k = choose|k: int| 0 <= k < (a + bd).len() && (a + bd)[k] == h;
                if k < a.len() {
                    assert((a + seq![x] + bd)[k] == h);
                } else {
                    assert((a + seq![x] + bd)[k + 1] == h);
                }
            }
        }
    }
}

/// A line of fewer than three columns in a `dnf list` listing (and not a
/// heading) is dropped wherever it stands, between two lines, first or last,
/// and the records of the other lines stay as they are.
pub proof fn lemma_dnf_short_line_dropped(before: Seq<char>, line: Seq<char>, after: Seq<char>)
    requires
        regex_split_of(dnf_separator(), line).len() < 3,
        line != available_heading(),
        !line.contains('\n'),
    ensures
        dnf_records(lines_of(before + seq!['\n'] + line + seq!['\n'] + after)) == dnf_records(
            lines_of(before + seq!['\n'] + after),
        ),
        dnf_records(lines_of(line + seq!['\n'] + after)) == dnf_records(lines_of(after)),
        dnf_records(lines_of(before + seq!['\n'] + line)) == dnf_records(lines_of(before)),
{
    lemma_lines_insert(before, line, after);
    lemma_dnf_skip(lines_of(before), line, lines_of(after));
    let e = Seq::<Seq<char>>::empty();
    lemma_dnf_skip(e, line, lines_of(after));
    lemma_dnf_skip(lines_of(before), line, e);
    assert(e + seq![line] + lines_of(after) == seq![line] + lines_of(after));
    assert(e + lines_of(after) == lines_of(after));
    assert(lines_of(before) + seq![line] + e == lines_of(before) + seq![line]);
    assert(lines_of(before) + e == lines_of(before));
}

/// The dnf backend.
pub struct Dnf {
    pub name: String,
    pub catalog: Catalog,
}

impl Default for Dnf {
    fn default() -> (r: Self)
        ensures
            r.name@ == "Dnf"@,
            r.catalog.wf(),
            r.catalog.packages@.len() == 0,
    {
        Dnf { name: String::from_str("Dnf"), catalog: Catalog::new() }
    }
}

impl Dnf {
    pub fn name(&self) -> (r: String)
        ensures
            r@ == self.name@,
    {
        self.name.clone()
    }

    /// Whether its commands run as root: fixed for the backend.
    pub fn is_root_required(&self) -> (r: bool)
        ensures
            r == true,
    {
        true
    }

    pub fn installed(&self) -> (r: usize)
        ensures
            r == self.catalog.installed,
    {
        self.catalog.installed
    }

    pub fn total(&self) -> (r: usize)
        ensures
            r == self.catalog.total,
    {
        self.catalog.total
    }

    pub fn packages(&self) -> (r: Vec<PackageData>)
        ensures
            package_views(r@) == self.catalog.view_packages(),
    {
        self.catalog.packages()
    }

    /// The command that lists installed and available packages.
    pub fn list_command() -> (r: String)
        ensures
            r@ == "dnf list --all -q"@,
    {
        String::from_str("dnf list --all -q")
    }

    /// The command whose success shows that dnf is there.
    pub fn probe_command() -> (r: String)
        ensures
            r@ == "dnf --version"@,
    {
        String::from_str("dnf --version")
    }

    /// Replaces the catalog with the records of `listing`, the output of
    /// `list_command`; on failure the catalog stays as it was.
    pub fn load_packages(&mut self, listing: &str) -> (r: Result<(), LoadError>)
        ensures
            final(self).name == old(self).name,
            r is Ok ==> final(self).catalog.wf() && final(self).catalog.view_packages() == first_per_name(dnf_records(
                lines_of(listing@),
            )),
            r is Err ==> final(self).catalog == old(self).catalog && r->Err_0 == LoadError::InvalidPattern,
            regex_valid(dnf_separator()) ==> r is Ok,
            r is Err ==> !regex_valid(dnf_separator()),
    {
        match parse_dnf(listing) {
            Ok(packages) => {
                self.catalog = Catalog::from_packages(packages);
                Ok(())
            },
            Err(e) => Err(e),
        }
    }

    /// The command that describes `package`.
    pub fn package_info(&self, package: &str) -> (r: String)
        ensures
            r@ == "dnf info "@ + quote_spec(package@),
    {
        let r = with_word("dnf info ", package, "");
        proof {
            reveal_strlit("");
            assert("dnf info "@ + quote_spec(package@) + ""@ == "dnf info "@ + quote_spec(package@));
        }
        r
    }

    pub fn install(&self, password: Option<SecVec<u8>>, package: &str) -> (r: Result<CommandSpec, OpError>)
        ensures
            privileged_spec(password, "sudo -S dnf install "@ + quote_spec(package@) + " -y"@, r),
    {
        privileged(password, with_word("sudo -S dnf install ", package, " -y"))
    }

    pub fn remove(&self, password: Option<SecVec<u8>>, package: &str) -> (r: Result<CommandSpec, OpError>)
        ensures
            privileged_spec(password, "sudo -S dnf remove "@ + quote_spec(package@) + " -y"@, r),
    {
        privileged(password, with_word("sudo -S dnf remove ", package, " -y"))
    }

    pub fn update(&self, password: Option<SecVec<u8>>) -> (r: Result<CommandSpec, OpError>)
        ensures
            privileged_spec(password, "sudo -S dnf update -y"@, r),
    {
        privileged(password, String::from_str("sudo -S dnf update -y"))
    }
}

} // verus!
