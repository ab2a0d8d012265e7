use vstd::prelude::*;
use secstr::SecVec;
use crate::command::{plain, plain_spec, quote_spec, shell_quote, CommandSpec, OpError};
use crate::listing::{keep_some, lemma_keep_some_step, lemma_line_dropped, lines_of, InfoError};
use crate::package::{first_per_name, package_views, Catalog, PackageData, PackageView};
use crate::pattern::{regex_is_match, regex_match_of, regex_valid};
use crate::text::{chars_of, find_chars, find_spec, lemma_split_nonempty, push_char, split_char, split_spec, string_of, views};

verus! {

/// The key of one line of `flatpak list --columns=origin,application`:
/// `origin application`. A line of fewer than two columns has none.
pub open spec fn installed_key(line: Seq<char>) -> Option<Seq<char>> {
    let t = split_spec(line, '\t');
    if t.len() < 2 {
        None
    } else {
        Some(t[0] + seq![' '] + t[1])
    }
}

pub open spec fn installed_key_fn() -> spec_fn(Seq<char>) -> Option<Seq<char>> {
    |l: Seq<char>| installed_key(l)
}

/// The keys of the installed applications, line by line.
pub open spec fn installed_keys(raw: Seq<char>) -> Seq<Seq<char>> {
    keep_some(lines_of(raw), installed_key_fn())
}

/// The record of one line of `flatpak remote-ls`: tab-separated columns
/// `name id version ... remote`, the qualified name `remote id`, installed
/// when that is one of `keys`. A line of fewer than six columns is no record.
pub open spec fn remote_record(line: Seq<char>, keys: Seq<Seq<char>>) -> Option<PackageView> {
    let t = split_spec(line, '\t');
    if t.len() < 6 {
        None
    } else {
        let q = t[5] + seq![' '] + t[1];
        Some(
            PackageView {
                installed: keys.contains(q),
                repository: t[5],
                name: t[0],
                version: t[2],
                qualified_name: q,
            },
        )
    }
}

pub open spec fn remote_fn(keys: Seq<Seq<char>>) -> spec_fn(Seq<char>) -> Option<PackageView> {
    |l: Seq<char>| remote_record(l, keys)
}

/// The catalog of the remote listing `remote`, with installed-state taken from
/// the installed listing `installed`.
pub open spec fn flatpak_records(installed: Seq<char>, remote: Seq<char>) -> Seq<PackageView> {
    keep_some(lines_of(remote), remote_fn(installed_keys(installed)))
}

/// `a`, a space, and `b`.
fn joined(a: &String, b: &String) -> (r: String)
    ensures
        r@ == a@ + seq![' '] + b@,
{
    let mut r = a.clone();
    push_char(&mut r, ' ');
    r.append(b.as_str());
    r
}

/// The key of one installed line.
pub fn parse_installed_line(line: &str) -> (r: Option<String>)
    ensures
        match (r, installed_key(line@)) {
            (Some(k), Some(v)) => k@ == v,
            (None, None) => true,
            _ => false,
        },
{
    let t = split_char(line, '\t');
    proof {
        assert(views(t@).len() == t@.len());
    }
    if t.len() < 2 {
        return None;
    }
    proof {
        assert(views(t@)[0] == t@[0]@);
        assert(views(t@)[1] == t@[1]@);
    }
    Some(joined(&t[0], &t[1]))
}

/// The keys of a whole installed listing, in the order of its lines.
pub fn parse_installed(raw: &str) -> (r: Vec<String>)
    ensures
        views(r@) == installed_keys(raw@),
{
    let lines = split_char(raw, '\n');
    let ghost ls = views(lines@);
    let mut r: Vec<String> = Vec::new();
    let mut i: usize = 0;
    while i < lines.len()
        invariant
            i <= lines.len(),
            ls == views(lines@),
            ls == lines_of(raw@),
            views(r@) == keep_some(ls.take(i as int), installed_key_fn()),
        decreases lines.len() - i,
    {
        proof {
            lemma_keep_some_step(ls, i as int, installed_key_fn());
            assert(ls[i as int] == lines@[i as int]@);
        }
        match parse_installed_line(lines[i].as_str()) {
            Some(k) => {
                let ghost before = r@;
                r.push(k);
                assert(views(r@) == views(before).push(k@));
            },
            None => {},
        }
        i = i + 1;
    }
    assert(ls.take(lines.len() as int) == ls);
    r
}

/// Whether `key` is one of `keys`.
pub fn has_key(keys: &Vec<String>, key: &String) -> (r: bool)
    ensures
        r == views(keys@).contains(key@),
{
    let mut i: usize = 0;
    while i < keys.len()
        invariant
            i <= keys.len(),
            forall|j: int| 0 <= j < i ==> views(keys@)[j] != key@,
        decreases keys.len() - i,
    {
        if keys[i] == *key {
            assert(views(keys@)[i as int] == key@);
            return true;
        }
        i = i + 1;
    }
    false
}

/// The record of one remote line, given the installed keys.
pub fn parse_remote_line(line: &str, keys: &Vec<String>) -> (r: Option<PackageData>)
    ensures
        match (r, remote_record(line@, views(keys@))) {
            (Some(p), Some(v)) => p@ == v,
            (None, None) => true,
            _ => false,
        },
{
    let t = split_char(line, '\t');
    proof {
        assert(views(t@).len() == t@.len());
    }
    if t.len() < 6 {
        return None;
    }
    proof {
        assert(views(t@)[0] == t@[0]@);
        assert(views(t@)[1] == t@[1]@);
        assert(views(t@)[2] == t@[2]@);
        assert(views(t@)[5] == t@[5]@);
    }
    let q = joined(&t[5], &t[1]);
    let installed = has_key(keys, &q);
    Some(
        PackageData {
            installed,
            repository: t[5].clone(),
            name: t[0].clone(),
            version: t[2].clone(),
            qualified_name: q,
        },
    )
}

/// The records of the remote listing, in the order of its lines.
pub fn parse_flatpak(installed: &str, remote: &str) -> (r: Vec<PackageData>)
    ensures
        package_views(r@) == flatpak_records(installed@, remote@),
{
    let keys = parse_installed(installed);
    let lines = split_char(remote, '\n');
    let ghost ls = views(lines@);
    let ghost f = remote_fn(installed_keys(installed@));
    let mut r: Vec<PackageData> = Vec::new();
    let mut i: usize = 0;
    while i < lines.len()
        invariant
            i <= lines.len(),
            ls == views(lines@),
            ls == lines_of(remote@),
            views(keys@) == installed_keys(installed@),
            f == remote_fn(installed_keys(installed@)),
            package_views(r@) == keep_some(ls.take(i as int), f),
        decreases lines.len() - i,
    {
        proof {
            lemma_keep_some_step(ls, i as int, f);
            assert(ls[i as int] == lines@[i as int]@);
        }
        match parse_remote_line(lines[i].as_str(), &keys) {
            Some(p) => {
                let ghost before = r@;
                r.push(p);
                assert(package_views(r@) == package_views(before).push(p@));
            },
            None => {},
        }
        i = i + 1;
    }
    assert(ls.take(lines.len() as int) == ls);
    r
}

/// A line of fewer than six columns in a `flatpak remote-ls` listing is
/// dropped wherever it stands, between two lines, first or last, and the
/// records of the other lines stay as they are.
pub proof fn lemma_flatpak_short_line_dropped(installed: Seq<char>, before: Seq<char>, line: Seq<char>, after: Seq<char>)
    requires
        split_spec(line, '\t').len() < 6,
        !line.contains('\n'),
    ensures
        flatpak_records(installed, before + seq!['\n'] + line + seq!['\n'] + after) == flatpak_records(
            installed,
            before + seq!['\n'] + after,
        ),
        flatpak_records(installed, line + seq!['\n'] + after) == flatpak_records(installed, after),
        flatpak_records(installed, before + seq!['\n'] + line) == flatpak_records(installed, before),
{
    lemma_line_dropped(before, line, after, remote_fn(installed_keys(installed)));
}

/// A qualified name `remote id` cut at its first space.
pub open spec fn split_qualified(q: Seq<char>) -> Option<(Seq<char>, Seq<char>)> {
    match find_spec(q, seq![' ']) {
        Some(i) => Some((q.take(i), q.skip(i + 1))),
        None => None,
    }
}

/// The remote and the application id of a qualified name.
pub fn remote_and_id(q: &str) -> (r: Option<(String, String)>)
    ensures
        match (r, split_qualified(q@)) {
            (Some((a, b)), Some((x, y))) => a@ == x && b@ == y,
            (None, None) => true,
            _ => false,
        },
{
    let chars = chars_of(q);
    let mut space: Vec<char> = Vec::new();
    space.push(' ');
    assert(space@ == seq![' ']);
    assert(space@.len() == 1);
    match find_chars(&chars, &space) {
        Some(i) => {
            let a = string_of(&chars, 0, i);
            let b = string_of(&chars, i + 1, chars.len());
            assert(chars@.subrange(0, i as int) == q@.take(i as int));
            assert(chars@.subrange(i + 1, chars.len() as int) == q@.skip(i + 1));
            Some((a, b))
        },
        None => None,
    }
}

/// The expression that picks, among the lines of `flatpak search`, the one of
/// the remote `remote`.
pub open spec fn remote_pattern(remote: Seq<char>) -> Seq<char> {
    "[^-](\\b"@ + remote + "\\b)([^-]|$)"@
}

/// The first line of `lines`, from the line `k` on, that `pattern` matches.
pub open spec fn first_match_from(lines: Seq<Seq<char>>, pattern: Seq<char>, k: int) -> Option<int>
    decreases lines.len() - k,
{
    if k < 0 || k >= lines.len() {
        None
    } else if regex_match_of(pattern, lines[k]) {
        Some(k)
    } else {
        first_match_from(lines, pattern, k + 1)
    }
}

/// `s` with each tab made a line feed.
pub open spec fn tabs_to_lines(s: Seq<char>) -> Seq<char> {
    s.map_values(|c: char| if c == '\t' { '\n' } else { c })
}

/// The description of the package of `remote` in the search output
/// `response`: its first matching line, or the whole output when no line
/// matches, with each tab made a line feed.
pub open spec fn flatpak_info_spec(remote: Seq<char>, response: Seq<char>) -> Seq<char> {
    let ls = lines_of(response);
    match first_match_from(ls, remote_pattern(remote), 0) {
        Some(i) => tabs_to_lines(ls[i]),
        None => tabs_to_lines(response),
    }
}

/// `s` with each tab made a line feed.
pub fn replace_tabs(s: &str) -> (r: String)
    ensures
        r@ == tabs_to_lines(s@),
{
    let chars = chars_of(s);
    let mut r = String::new();
    let mut i: usize = 0;
    while i < chars.len()
        invariant
            i <= chars.len(),
            chars@ == s@,
            r@ == tabs_to_lines(chars@.take(i as int)),
        decreases chars.len() - i,
    {
        let c = if chars[i] == '\t' { '\n' } else { chars[i] };
        push_char(&mut r, c);
        assert(tabs_to_lines(chars@.take(i + 1)) == tabs_to_lines(chars@.take(i as int)).push(c));
        i = i + 1;
    }
    assert(chars@.take(chars.len() as int) == chars@);
    r
}

/// The description of the package of `remote` in `response`, the output of
/// `flatpak search`.
pub fn flatpak_info_from_search(remote: &str, response: &str) -> (r: Result<String, InfoError>)
    ensures
        r is Ok ==> r->Ok_0@ == flatpak_info_spec(remote@, response@),
        r is Err ==> r->Err_0 == InfoError::InvalidPattern,
        r is Err <==> !regex_valid(remote_pattern(remote@)),
{
    let mut pattern = String::from_str("[^-](\\b");
    pattern.append(remote);
    pattern.append("\\b)([^-]|$)");
    let lines = split_char(response, '\n');
    let ghost ls = views(lines@);
    let ghost p = remote_pattern(remote@);
    proof {
        lemma_split_nonempty(response@, '\n');
    }
    let mut i: usize = 0;
    while i < lines.len()
        invariant
            i <= lines.len(),
            ls == views(lines@),
            ls == lines_of(response@),
            pattern@ == p,
            p == remote_pattern(remote@),
            i > 0 || lines.len() > 0,
            i > 0 ==> regex_valid(p),
            first_match_from(ls, p, 0) == first_match_from(ls, p, i as int),
        decreases lines.len() - i,
    {
        match regex_is_match(pattern.as_str(), lines[i].as_str()) {
            None => {
                return Err(InfoError::InvalidPattern);
            },
            Some(true) => {
                proof {
                    assert(ls[i as int] == lines@[i as int]@);
                    assert(first_match_from(ls, p, i as int) == Some(i as int));
                }
                let out = replace_tabs(lines[i].as_str());
                assert(out@ == tabs_to_lines(ls[i as int]));
                return Ok(out);
            },
            Some(false) => {
                assert(ls[i as int] == lines@[i as int]@);
                assert(first_match_from(ls, p, i as int) == first_match_from(ls, p, i + 1));
            },
        }
        i = i + 1;
    }
    assert(first_match_from(ls, p, i as int) is None);
    Ok(replace_tabs(response))
}

/// The flatpak backend.
pub struct Flatpak {
    pub name: String,
    pub catalog: Catalog,
}

impl Default for Flatpak {
    fn default() -> (r: Self)
        ensures
            r.name@ == "Flatpak"@,
            r.catalog.wf(),
            r.catalog.packages@.len() == 0,
    {
        Flatpak { name: String::from_str("Flatpak"), catalog: Catalog::new() }
    }
}

impl Flatpak {
    pub fn name(&self) -> (r: String)
        ensures
            r@ == self.name@,
    {
        self.name.clone()
    }

    /// Whether its commands run as root: fixed for the backend.
    pub fn is_root_required(&self) -> (r: bool)
        ensures
            r == false,
    {
        false
    }

    pub fn installed(&self) -> (r: usize)
        ensures
            r == self.catalog.installed,
    {
        self.catalog.installed
    }

    pub fn total(&self) -> (r: usize)
        ensures
            r == self.catalog.total,
    {
        self.catalog.total
    }

    pub fn packages(&self) -> (r: Vec<PackageData>)
        ensures
            package_views(r@) == self.catalog.view_packages(),
    {
        self.catalog.packages()
    }

    /// The command that lists the installed applications.
    pub fn installed_command() -> (r: String)
        ensures
            r@ == "flatpak list --columns=origin,application"@,
    {
        String::from_str("flatpak list --columns=origin,application")
    }

    /// The command that lists what the remotes offer.
    pub fn list_command() -> (r: String)
        ensures
            r@ == "flatpak remote-ls"@,
    {
        String::from_str("flatpak remote-ls")
    }

    /// The command whose success shows that flatpak is there.
    pub fn probe_command() -> (r: String)
        ensures
            r@ == "flatpak --version"@,
    {
        String::from_str("flatpak --version")
    }

    /// Replaces the catalog with the records of `remote`, the output of
    /// `list_command`, marked installed after `installed`, the output of
    /// `installed_command`.
    pub fn load_packages(&mut self, installed: &str, remote: &str)
        ensures
            final(self).catalog.wf(),
            final(self).catalog.view_packages() == first_per_name(flatpak_records(installed@, remote@)),
            final(self).name == old(self).name,
    {
        let packages = parse_flatpak(installed, remote);
        self.catalog = Catalog::from_packages(packages);
    }

    /// The command that searches for the application of `package`, a
    /// qualified name `remote id`.
    pub fn package_info(&self, package: &str) -> (r: Result<String, InfoError>)
        ensures
            match (r, split_qualified(package@)) {
                (Ok(c), Some((_, id))) => c@ == "flatpak search "@ + quote_spec(id),
                (Err(e), None) => e == InfoError::MalformedName,
                _ => false,
            },
    {
        match remote_and_id(package) {
            Some((_, id)) => {
                let mut c = String::from_str("flatpak search ");
                c.append(shell_quote(id.as_str()).as_str());
                Ok(c)
            },
            None => Err(InfoError::MalformedName),
        }
    }

    pub fn install(&self, _password: Option<SecVec<u8>>, package: &str) -> (r: Result<CommandSpec, OpError>)
        ensures
            match (r, split_qualified(package@)) {
                (Ok(c), Some((remote, id))) => plain_spec(
                    "flatpak install "@ + quote_spec(remote) + " "@ + quote_spec(id) + " -y --noninteractive"@,
                    c,
                ),
                (Err(e), None) => e == OpError::MalformedName,
                _ => false,
            },
    {
        match remote_and_id(package) {
            Some((remote, id)) => {
                let mut c = String::from_str("flatpak install ");
                c.append(shell_quote(remote.as_str()).as_str());
                c.append(" ");
                c.append(shell_quote(id.as_str()).as_str());
                c.append(" -y --noninteractive");
                Ok(plain(c))
            },
            None => Err(OpError::MalformedName),
        }
    }

    pub fn remove(&self, _password: Option<SecVec<u8>>, package: &str) -> (r: Result<CommandSpec, OpError>)
        ensures
            match (r, split_qualified(package@)) {
                (Ok(c), Some((_, id))) => plain_spec("flatpak remove "@ + quote_spec(id) + " -y --noninteractive"@, c),
                (Err(e), None) => e == OpError::MalformedName,
                _ => false,
            },
    {
        match remote_and_id(package) {
            Some((_, id)) => {
                let mut c = String::from_str("flatpak remove ");
                c.append(shell_quote(id.as_str()).as_str());
                c.append(" -y --noninteractive");
                Ok(plain(c))
            },
            None => Err(OpError::MalformedName),
        }
    }

    pub fn update(&self, _password: Option<SecVec<u8>>) -> (r: Result<CommandSpec, OpError>)
        ensures
            r is Ok && plain_spec("flatpak update -y --noninteractive"@, r->Ok_0),
    {
        Ok(plain(String::from_str("flatpak update -y --noninteractive")))
    }
}

} // verus!
