use vstd::prelude::*;
use crate::command::{plain, plain_spec, powershell_quote, ps_quote_spec, CommandSpec, OpError};
use crate::listing::{keep_some, lemma_keep_some_skips, lemma_keep_some_step, lines_of, LoadError};
use crate::package::{first_per_name, package_views, Catalog, PackageData, PackageView};
use crate::text::{all_ascii, ascii_range, chars_of, find_chars, find_spec, split_char, string_of, trim, trim_spec, views};
use secstr::SecVec;

verus! {

/// Where the columns of a winget table start, in characters of the header
/// line. The version column ends where `version_end` starts; the source
/// column runs to the end of the line.
#[derive(Clone, Copy, Debug, PartialEq, Eq, Structural)]
pub struct Columns {
    pub name: usize,
    pub id: usize,
    pub version: usize,
    pub version_end: usize,
    pub source: usize,
}

/// The position of `token` in `header` when it stands after `after`.
pub open spec fn token_after(header: Seq<char>, token: Seq<char>, after: int) -> Option<usize> {
    match find_spec(header, token) {
        Some(i) => if i > after { Some(i as usize) } else { None },
        None => None,
    }
}

/// The columns that a header line gives: it names `Name`, `Id`, `Version`
/// and `Source`, the first three in this order and `Source` after `Version`.
/// The version column ends at `Match` (the search table), else at `Available`
/// (the installed table), when it stands after `Version`, else at `Source`.
/// A line that lacks one of the four names is no header.
pub open spec fn header_columns(header: Seq<char>) -> Option<Columns> {
    match (find_spec(header, "Name"@), find_spec(header, "Id"@), find_spec(header, "Version"@)) {
        (Some(n), Some(d), Some(v)) => if n < d < v {
            match token_after(header, "Source"@, v) {
                Some(src) => {
                    let end = match token_after(header, "Match"@, v) {
                        Some(m) => m,
                        None => match token_after(header, "Available"@, v) {
                            Some(a) => a,
                            None => src,
                        },
                    };
                    Some(Columns { name: n as usize, id: d as usize, version: v as usize, version_end: end, source: src })
                },
                None => None,
            }
        } else {
            None
        },
        _ => None,
    }
}

/// The first line from the line `k` on that is a header line.
pub open spec fn first_header_from(lines: Seq<Seq<char>>, k: int) -> Option<int>
    decreases lines.len() - k,
{
    if k < 0 || k >= lines.len() {
        None
    } else if header_columns(lines[k]) is Some {
        Some(k)
    } else {
        first_header_from(lines, k + 1)
    }
}

pub open spec fn clamp(i: int, len: int) -> int {
    if i < len { i } else { len }
}

/// The characters `from .. to` of `line`, cut to its length, trimmed.
pub open spec fn field(line: Seq<char>, from: int, to: int) -> Seq<char> {
    trim_spec(line.subrange(clamp(from, line.len() as int), clamp(to, line.len() as int)))
}

/// One row of a winget table, as plain values.
pub struct RowView {
    pub name: Seq<char>,
    pub id: Seq<char>,
    pub version: Seq<char>,
    pub source: Seq<char>,
}

/// The row of a data line: a line that does not reach the version column, that
/// starts with `-`, whose name column holds a non-ASCII character, or whose id
/// column is blank, is no row.
pub open spec fn table_row(line: Seq<char>, c: Columns) -> Option<RowView> {
    let len = line.len() as int;
    if len <= c.version || line[0] == '-' || !all_ascii(line.subrange(clamp(c.name as int, len), clamp(c.id as int, len)))
        || field(line, c.id as int, c.version as int).len() == 0 {
        None
    } else {
        Some(
            RowView {
                name: field(line, c.name as int, c.id as int),
                id: field(line, c.id as int, c.version as int),
                version: field(line, c.version as int, c.version_end as int),
                source: field(line, c.source as int, len),
            },
        )
    }
}

pub open spec fn row_fn(c: Columns) -> spec_fn(Seq<char>) -> Option<RowView> {
    |l: Seq<char>| table_row(l, c)
}

/// The rows of a winget table: the rows of the lines after its first header
/// line; no header line is an error.
pub open spec fn table_rows(raw: Seq<char>) -> Result<Seq<RowView>, LoadError> {
    let ls = lines_of(raw);
    match first_header_from(ls, 0) {
        Some(h) => Ok(keep_some(ls.skip(h + 1), row_fn(header_columns(ls[h])->0))),
        None => Err(LoadError::HeaderNotFound),
    }
}

/// One row of a winget table.
pub struct Row {
    pub name: String,
    pub id: String,
    pub version: String,
    pub source: String,
}

impl View for Row {
    type V = RowView;

    open spec fn view(&self) -> RowView {
        RowView { name: self.name@, id: self.id@, version: self.version@, source: self.source@ }
    }
}

pub open spec fn row_views(v: Seq<Row>) -> Seq<RowView> {
    v.map_values(|r: Row| r@)
}

/// The position of `token` in `header` when it stands after `after`.
fn find_after(header: &Vec<char>, token: &str, after: usize) -> (r: Option<usize>)
    ensures
        r == token_after(header@, token@, after as int),
        r matches Some(x) ==> x > after,
{
    match find_chars(header, &chars_of(token)) {
        Some(i) => if i > after { Some(i) } else { None },
        None => None,
    }
}

/// The columns of a header line.
pub fn parse_header(line: &str) -> (r: Option<Columns>)
    ensures
        r == header_columns(line@),
        r matches Some(c) ==> columns_wf(c),
{
    let h = chars_of(line);
    let n = find_chars(&h, &chars_of("Name"));
    let d = find_chars(&h, &chars_of("Id"));
    let v = find_chars(&h, &chars_of("Version"));
    match (n, d, v) {
        (Some(n), Some(d), Some(v)) => {
            if n < d && d < v {
                match find_after(&h, "Source", v) {
                    Some(src) => {
                        let end = match find_after(&h, "Match", v) {
                            Some(m) => m,
                            None => match find_after(&h, "Available", v) {
                                Some(a) => a,
                                None => src,
                            },
                        };
                        Some(Columns { name: n, id: d, version: v, version_end: end, source: src })
                    },
                    None => None,
                }
            } else {
                None
            }
        },
        _ => None,
    }
}

/// The characters `from .. to` of `chars`, cut to its length, trimmed.
fn field_of(chars: &Vec<char>, from: usize, to: usize) -> (r: String)
    requires
        from <= to || to >= chars.len(),
    ensures
        r@ == field(chars@, from as int, to as int),
{
    let len = chars.len();
    let a = if from < len { from } else { len };
    let b = if to < len { to } else { len };
    let s = string_of(chars, a, b);
    trim(s.as_str())
}

/// The columns are in order: name, id, version, and whatever ends the version
/// column or holds the source after it.
pub open spec fn columns_wf(c: Columns) -> bool {
    &&& c.name < c.id < c.version < c.version_end
    &&& c.version < c.source
}

/// The first header line of `lines`, with its columns.
fn find_header(lines: &Vec<String>) -> (r: Option<(usize, Columns)>)
    ensures
        match r {
            Some((h, c)) => first_header_from(views(lines@), 0) == Some(h as int) && header_columns(
                views(lines@)[h as int],
            ) == Some(c) && h < lines.len() && columns_wf(c),
            None => first_header_from(views(lines@), 0) is None,
        },
{
    let ghost ls = views(lines@);
    let mut h: usize = 0;
    while h < lines.len()
        invariant
            h <= lines.len(),
            ls == views(lines@),
            first_header_from(ls, 0) == first_header_from(ls, h as int),
        decreases lines.len() - h,
    {
        assert(ls[h as int] == lines@[h as int]@);
        match parse_header(lines[h].as_str()) {
            Some(c) => {
                return Some((h, c));
            },
            None => {},
        }
        h = h + 1;
    }
    None
}

/// The row of one data line.
fn parse_row(line: &str, c: Columns) -> (r: Option<Row>)
    requires
        columns_wf(c),
    ensures
        match (r, table_row(line@, c)) {
            (Some(x), Some(v)) => x@ == v,
            (None, None) => true,
            _ => false,
        },
{
    let chars = chars_of(line);
    let len = chars.len();
    if len <= c.version || chars[0] == '-' {
        return None;
    }
    if !ascii_range(&chars, c.name, c.id) {
        return None;
    }
    let id = field_of(&chars, c.id, c.version);
    if id.unicode_len() == 0 {
        return None;
    }
    let source = field_of(&chars, c.source, len);
    Some(Row { name: field_of(&chars, c.name, c.id), id, version: field_of(&chars, c.version, c.version_end), source })
}

/// The rows of a winget table, in the order of its lines.
pub fn parse_table(raw: &str) -> (r: Result<Vec<Row>, LoadError>)
    ensures
        match (r, table_rows(raw@)) {
            (Ok(x), Ok(v)) => row_views(x@) == v,
            (Err(e), Err(v)) => e == v,
            _ => false,
        },
{
    let lines = split_char(raw, '\n');
    let ghost ls = views(lines@);
    let (h, c) = match find_header(&lines) {
        Some(x) => x,
        None => {
            return Err(LoadError::HeaderNotFound);
        },
    };
    let ghost body = ls.skip(h + 1);
    let mut rows: Vec<Row> = Vec::new();
    let mut i: usize = h + 1;
    while i < lines.len()
        invariant
            h < i <= lines.len(),
            ls == views(lines@),
            columns_wf(c),
            body == ls.skip(h + 1),
            row_views(rows@) == keep_some(body.take(i - h - 1), row_fn(c)),
        decreases lines.len() - i,
    {
        proof {
            lemma_keep_some_step(body, i - h - 1, row_fn(c));
            assert(body[i - h - 1] == lines@[i as int]@);
        }
        match parse_row(lines[i].as_str(), c) {
            Some(x) => {
                let ghost before = rows@;
                rows.push(x);
                assert(row_views(rows@) == row_views(before).push(x@));
            },
            None => {},
        }
        i = i + 1;
    }
    assert(body.take(lines.len() - h - 1) == body);
    Ok(rows)
}

/// A line that is no row, inserted among the data lines of a table, changes
/// none of the rows.
pub proof fn lemma_winget_short_row_dropped(c: Columns, before: Seq<Seq<char>>, line: Seq<char>, after: Seq<Seq<char>>)
    requires
        table_row(line, c) is None,
    ensures
        keep_some(before + seq![line] + after, row_fn(c)) == keep_some(before + after, row_fn(c)),
{
    lemma_keep_some_skips(before, line, after, row_fn(c));
}

/// The ids of `rows`.
pub open spec fn row_ids(rows: Seq<RowView>) -> Seq<Seq<char>> {
    rows.map_values(|r: RowView| r.id)
}

/// The record of an available row: its id is the qualified name, its source the
/// repository; installed when one of the installed rows has that id.
pub open spec fn winget_record(r: RowView, installed: Seq<RowView>) -> PackageView {
    PackageView {
        installed: row_ids(installed).contains(r.id),
        repository: r.source,
        name: r.name,
        version: r.version,
        qualified_name: r.id,
    }
}

/// The catalog of the search table `available`, marked installed after the
/// table `installed`.
pub open spec fn winget_records(installed: Seq<RowView>, available: Seq<RowView>) -> Seq<PackageView> {
    available.map_values(|r: RowView| winget_record(r, installed))
}

/// Whether one of `rows` has the id `id`.
fn has_id(rows: &Vec<Row>, id: &String) -> (r: bool)
    ensures
        r == row_ids(row_views(rows@)).contains(id@),
{
    let mut i: usize = 0;
    while i < rows.len()
        invariant
            i <= rows.len(),
            forall|j: int| 0 <= j < i ==> row_ids(row_views(rows@))[j] != id@,
        decreases rows.len() - i,
    {
        if rows[i].id == *id {
            assert(row_ids(row_views(rows@))[i as int] == id@);
            return true;
        }
        i = i + 1;
    }
    false
}

/// The records of the available rows, marked installed after the installed
/// rows.
pub fn winget_packages(installed: &Vec<Row>, available: &Vec<Row>) -> (r: Vec<PackageData>)
    ensures
        package_views(r@) == winget_records(row_views(installed@), row_views(available@)),
{
    let ghost target = winget_records(row_views(installed@), row_views(available@));
    let mut r: Vec<PackageData> = Vec::new();
    let mut i: usize = 0;
    while i < available.len()
        invariant
            i <= available.len(),
            target == winget_records(row_views(installed@), row_views(available@)),
            package_views(r@) == target.take(i as int),
        decreases available.len() - i,
    {
        let a = &available[i];
        let p = PackageData {
            installed: has_id(installed, &a.id),
            repository: a.source.clone(),
            name: a.name.clone(),
            version: a.version.clone(),
            qualified_name: a.id.clone(),
        };
        let ghost before = r@;
        r.push(p);
        assert(package_views(r@) == package_views(before).push(p@));
        assert(target.take(i + 1) == target.take(i as int).push(target[i as int]));
        i = i + 1;
    }
    assert(target.take(available.len() as int) == target);
    r
}

/// The winget backend.
pub struct Winget {
    pub name: String,
    pub catalog: Catalog,
}

impl Default for Winget {
    fn default() -> (r: Self)
        ensures
            r.name@ == "Winget"@,
            r.catalog.wf(),
            r.catalog.packages@.len() == 0,
    {
        Winget { name: String::from_str("Winget"), catalog: Catalog::new() }
    }
}

impl Winget {
    pub fn name(&self) -> (r: String)
        ensures
            r@ == self.name@,
    {
        self.name.clone()
    }

    /// Whether its commands run as root: fixed for the backend.
    pub fn is_root_required(&self) -> (r: bool)
        ensures
            r == false,
    {
        false
    }

    pub fn installed(&self) -> (r: usize)
        ensures
            r == self.catalog.installed,
    {
        self.catalog.installed
    }

    pub fn total(&self) -> (r: usize)
        ensures
            r == self.catalog.total,
    {
        self.catalog.total
    }

    pub fn packages(&self) -> (r: Vec<PackageData>)
        ensures
            package_views(r@) == self.catalog.view_packages(),
    {
        self.catalog.packages()
    }

    /// The command that lists the installed packages as a table.
    pub fn installed_command() -> (r: String)
        ensures
            r@ == "winget list --verbose"@,
    {
        String::from_str("winget list --verbose")
    }

    /// The command that lists every package the sources offer as a table.
    pub fn list_command() -> (r: String)
        ensures
            r@ == "winget search -q \"\" --verbose"@,
    {
        String::from_str("winget search -q \"\" --verbose")
    }

    /// The command whose success shows that winget is there.
    pub fn probe_command() -> (r: String)
        ensures
            r@ == "winget --version"@,
    {
        String::from_str("winget --version")
    }

    /// Replaces the catalog with the rows of `available`, the output of
    /// `list_command`, marked installed after `installed`, the output of
    /// `installed_command`. A table without a header line is an error, and
    /// leaves the catalog as it was.
    pub fn load_packages(&mut self, installed: &str, available: &str) -> (r: Result<(), LoadError>)
        ensures
            final(self).name == old(self).name,
            match (table_rows(installed@), table_rows(available@)) {
                (Ok(i), Ok(a)) => r is Ok && final(self).catalog.wf() && final(self).catalog.view_packages()
                    == first_per_name(winget_records(i, a)),
                (Err(e), _) => r == Err::<(), LoadError>(e) && final(self).catalog == old(self).catalog,
                (Ok(_), Err(e)) => r == Err::<(), LoadError>(e) && final(self).catalog == old(self).catalog,
            },
    {
        let i = match parse_table(installed) {
            Ok(i) => i,
            Err(e) => {
                return Err(e);
            },
        };
        let a = match parse_table(available) {
            Ok(a) => a,
            Err(e) => {
                return Err(e);
            },
        };
        self.catalog = Catalog::from_packages(winget_packages(&i, &a));
        Ok(())
    }

    /// The command that describes `package`.
    pub fn package_info(&self, package: &str) -> (r: String)
        ensures
            r@ == "winget show "@ + ps_quote_spec(package@),
    {
        let mut r = String::from_str("winget show ");
        r.append(powershell_quote(package).as_str());
        r
    }

    pub fn install(&self, _password: Option<SecVec<u8>>, package: &str) -> (r: Result<CommandSpec, OpError>)
        ensures
            r is Ok && plain_spec("winget install "@ + ps_quote_spec(package@), r->Ok_0),
    {
        let mut c = String::from_str("winget install ");
        c.append(powershell_quote(package).as_str());
        Ok(plain(c))
    }

    pub fn remove(&self, _password: Option<SecVec<u8>>, package: &str) -> (r: Result<CommandSpec, OpError>)
        ensures
            r is Ok && plain_spec("winget uninstall "@ + ps_quote_spec(package@), r->Ok_0),
    {
        let mut c = String::from_str("winget uninstall ");
        c.append(powershell_quote(package).as_str());
        Ok(plain(c))
    }

    pub fn update(&self, _password: Option<SecVec<u8>>) -> (r: Result<CommandSpec, OpError>)
        ensures
            r is Ok && plain_spec("winget upgrade -h --all"@, r->Ok_0),
    {
        Ok(plain(String::from_str("winget upgrade -h --all")))
    }
}

} // verus!
