use package_manager::dnf::{parse_dnf, Dnf};
use package_manager::flatpak::{flatpak_info_from_search, parse_flatpak, remote_and_id};
use package_manager::listing::LoadError;
use package_manager::pacman::{parse_sl, Pacman};
use package_manager::paru::Paru;
use package_manager::winget::{parse_header, parse_table, Winget};

#[test]
fn pacman_listing_marks_installed() {
    let r = parse_sl("core vim 9.0-1\ncore htop 3.2-1 [installed]");
    assert_eq!(r.len(), 2);
    assert_eq!(r[0].repository, "core");
    assert_eq!(r[0].name, "vim");
    assert_eq!(r[0].qualified_name, "vim");
    assert_eq!(r[0].version, "9.0-1");
    assert!(!r[0].installed);
    assert_eq!(r[1].name, "htop");
    assert_eq!(r[1].version, "3.2-1");
    assert!(r[1].installed);
}

#[test]
fn pacman_installed_with_version_note() {
    let r = parse_sl("extra git 2.44-1 [installed: 2.43-1]\n");
    assert_eq!(r.len(), 1);
    assert!(r[0].installed);
}

#[test]
fn pacman_short_lines_dropped() {
    let with = parse_sl("core vim 9.0-1\nbroken\n\ncore two\ncore htop 3.2-1 [installed]\n");
    let without = parse_sl("core vim 9.0-1\ncore htop 3.2-1 [installed]");
    assert_eq!(with.len(), 2);
    assert_eq!(without.len(), 2);
    assert_eq!(with[1].name, without[1].name);
}

#[test]
fn pacman_duplicate_names_kept_once() {
    let mut p = Pacman::default();
    p.load_packages("core vim 9.0-1\ncore vim 9.0-1 [installed]\nextra vim 9.1-1\ncore htop 3.2-1\n");
    assert_eq!(p.total(), 2);
    assert_eq!(p.installed(), 0);
    let pk = p.packages();
    assert_eq!(pk[0].qualified_name, "vim");
    assert_eq!(pk[0].version, "9.0-1");
    assert_eq!(pk[1].qualified_name, "htop");
}

#[test]
fn pacman_short_line_first_or_last() {
    let base = parse_sl("core vim 9.0-1\ncore htop 3.2-1 [installed]");
    let first = parse_sl("junk\ncore vim 9.0-1\ncore htop 3.2-1 [installed]");
    let last = parse_sl("core vim 9.0-1\ncore htop 3.2-1 [installed]\njunk");
    assert_eq!(first.len(), base.len());
    assert_eq!(last.len(), base.len());
    assert_eq!(first[0].name, base[0].name);
    assert_eq!(last[1].name, base[1].name);
}

#[test]
fn pacman_load_counts() {
    let mut p = Pacman::default();
    assert_eq!(p.total(), 0);
    p.load_packages("core vim 9.0-1\ncore htop 3.2-1 [installed]\nextra git 2.44-1 [installed]\n");
    assert_eq!(p.total(), 3);
    assert_eq!(p.installed(), 2);
    let pk = p.packages();
    assert_eq!(pk.iter().filter(|x| x.installed).count(), p.installed());
    assert_eq!(p.name(), "Pacman");
    assert!(p.is_root_required());
}

#[test]
fn paru_uses_pacman_grammar() {
    let mut p = Paru::default();
    p.load_packages("aur yay 12.0-1 [installed]\naur paru 2.0-1\n");
    assert_eq!(p.total(), 2);
    assert_eq!(p.installed(), 1);
    assert_eq!(p.name(), "Paru");
}

#[test]
fn dnf_sections() {
    let raw = "Installed Packages\nbash.x86_64 5.2.26-3.fc40 @anaconda\nAvailable Packages\nvim.x86_64 9.1-1.fc40 fedora\nshort\n";
    let r = parse_dnf(raw).unwrap();
    assert_eq!(r.len(), 2);
    assert_eq!(r[0].name, "bash.x86_64");
    assert_eq!(r[0].version, "5.2.26-3.fc40");
    assert_eq!(r[0].repository, "@anaconda");
    assert!(r[0].installed);
    assert_eq!(r[1].name, "vim.x86_64");
    assert!(!r[1].installed);
}

#[test]
fn dnf_columns_split_on_commas_and_runs_of_blanks() {
    let r = parse_dnf("Available Packages\nzsh.x86_64   ,  5.9-1  \t updates\n").unwrap();
    assert_eq!(r.len(), 1);
    assert_eq!(r[0].name, "zsh.x86_64");
    assert_eq!(r[0].version, "5.9-1");
    assert_eq!(r[0].repository, "updates");
}

#[test]
fn dnf_two_field_line_dropped() {
    let r = parse_dnf("Available Packages\n  updates\nvim.x86_64 9.1-1.fc40 fedora\n\n").unwrap();
    assert_eq!(r.len(), 1);
    assert_eq!(r[0].name, "vim.x86_64");
}

#[test]
fn dnf_load_counts() {
    let mut d = Dnf::default();
    d.load_packages("Installed Packages\na.x 1 @r\nb.x 2 @r\nAvailable Packages\nc.x 3 f\n").unwrap();
    assert_eq!(d.total(), 3);
    assert_eq!(d.installed(), 2);
}

#[test]
fn flatpak_installed_by_pair() {
    let installed = "flathub\torg.gimp.GIMP\nshort\n";
    let remote = "GIMP\torg.gimp.GIMP\t2.10\tstable\tx86_64\tflathub\nVLC\torg.videolan.VLC\t3.0\tstable\tx86_64\tflathub\ntoo\tfew\n";
    let r = parse_flatpak(installed, remote);
    assert_eq!(r.len(), 2);
    assert_eq!(r[0].qualified_name, "flathub org.gimp.GIMP");
    assert_eq!(r[0].repository, "flathub");
    assert_eq!(r[0].name, "GIMP");
    assert_eq!(r[0].version, "2.10");
    assert!(r[0].installed);
    assert!(!r[1].installed);
}

#[test]
fn flatpak_qualified_name_split() {
    let (remote, id) = remote_and_id("flathub org.gimp.GIMP").unwrap();
    assert_eq!(remote, "flathub");
    assert_eq!(id, "org.gimp.GIMP");
    assert!(remote_and_id("noremote").is_none());
}

#[test]
fn flatpak_info_picks_line_of_remote() {
    let response = "GIMP\tImage editor\torg.gimp.GIMP\t2.10\tstable\tflathub-beta\nGIMP\tImage editor\torg.gimp.GIMP\t2.10\tstable\tflathub\n";
    let info = flatpak_info_from_search("flathub", response).unwrap();
    assert_eq!(info, "GIMP\nImage editor\norg.gimp.GIMP\n2.10\nstable\nflathub");
}

#[test]
fn flatpak_info_whole_output_without_match() {
    let info = flatpak_info_from_search("other", "a\tb\n").unwrap();
    assert_eq!(info, "a\nb\n");
}

const LIST: &str = "Name            Id                 Version   Available  Source\n-----------------------------------------------------------------\nGit             Git.Git            2.44.0    2.45.0     winget\nVisual Studio   Microsoft.VS       17.9\n";
const SEARCH: &str = "Name            Id                 Version   Match      Source\n-----------------------------------------------------------------\nGit             Git.Git            2.45.0               winget\n7-Zip           7zip.7zip          23.01                winget\nCafé Tool       Cafe.Tool          1.0                  winget\nx\n";

#[test]
fn winget_header_columns() {
    let c = parse_header("Name  Id  Version  Source").unwrap();
    assert_eq!(c.name, 0);
    assert_eq!(c.id, 6);
    assert_eq!(c.version, 10);
    assert_eq!(c.source, 19);
    assert_eq!(c.version_end, 19);
    assert!(parse_header("no header here").is_none());
    assert!(parse_header("Name  Id  Version").is_none());
}

#[test]
fn winget_table_rows() {
    let rows = parse_table(SEARCH).unwrap();
    assert_eq!(rows.len(), 2);
    assert_eq!(rows[0].name, "Git");
    assert_eq!(rows[0].id, "Git.Git");
    assert_eq!(rows[0].version, "2.45.0");
    assert_eq!(rows[0].source, "winget");
    assert_eq!(rows[1].id, "7zip.7zip");
}

#[test]
fn winget_missing_header_is_error() {
    assert!(matches!(parse_table("nothing\nhere\n"), Err(LoadError::HeaderNotFound)));
}

#[test]
fn winget_header_without_source_is_error() {
    let mut w = Winget::default();
    w.load_packages(LIST, SEARCH).unwrap();
    let no_source = "Name   Id       Version\n-----------------------\nGit    Git.Git  2.45.0\n";
    assert!(matches!(w.load_packages(LIST, no_source), Err(LoadError::HeaderNotFound)));
    assert_eq!(w.total(), 2);
}

#[test]
fn winget_fields_trim_unicode_whitespace() {
    let table = "Name   Id        Version  Source\nGit    Git.Git\u{a0}  2.45.0   winget\u{3000}\n";
    let rows = parse_table(table).unwrap();
    assert_eq!(rows[0].id, "Git.Git");
    assert_eq!(rows[0].source, "winget");
}

#[test]
fn winget_load_cross_references() {
    let mut w = Winget::default();
    w.load_packages(LIST, SEARCH).unwrap();
    assert_eq!(w.total(), 2);
    assert_eq!(w.installed(), 1);
    let p = w.packages();
    assert_eq!(p[0].qualified_name, "Git.Git");
    assert!(p[0].installed);
    assert!(!p[1].installed);
    assert_eq!(p[1].repository, "winget");
}

#[test]
fn winget_failed_load_keeps_catalog() {
    let mut w = Winget::default();
    w.load_packages(LIST, SEARCH).unwrap();
    assert!(w.load_packages("bad", SEARCH).is_err());
    assert_eq!(w.total(), 2);
}
