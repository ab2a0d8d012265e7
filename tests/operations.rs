use package_manager::command::{
    auth_probe, build_command, close_status, completion_message, run, shell_quote, powershell_quote, stdin_text, Action, CommandOutput, OpError,
    ProcessError,
};
use package_manager::credential::{pass_2_stdin, to_stdin_lines, CredentialError};
use package_manager::flatpak::Flatpak;
use package_manager::pacman::Pacman;
use package_manager::protonge::{Asset, ProtonGE, Release};
use package_manager::provider::{InfoStep, Listing, ProviderKind};
use package_manager::providers::{init, UpdateAll};
use package_manager::search::{installed_first, simple_search};
use package_manager::settings::{settings_path, Settings};
use package_manager::winget::Winget;
use secstr::SecVec;

#[test]
fn run_success_gives_stdout() {
    let r = run(CommandOutput { success: true, stdout: b"hello\n".to_vec(), stderr: Vec::new() });
    assert_eq!(r.unwrap(), "hello\n");
}

#[test]
fn run_failure_carries_stderr() {
    let r = run(CommandOutput { success: false, stdout: Vec::new(), stderr: b"sh: exit 1\n".to_vec() });
    match r {
        Err(ProcessError::NonZeroExit(m)) => assert!(!m.is_empty()),
        _ => panic!("expected a non-zero exit"),
    }
}

#[test]
fn run_silent_failure_has_diagnostic() {
    let r = run(CommandOutput { success: false, stdout: Vec::new(), stderr: Vec::new() });
    match r {
        Err(ProcessError::NonZeroExit(m)) => assert!(!m.is_empty()),
        _ => panic!("expected a non-zero exit"),
    }
    assert!(matches!(close_status(false, Vec::new()), Err(ProcessError::NonZeroExit(m)) if !m.is_empty()));
}

#[test]
fn completion_lines() {
    assert_eq!(completion_message(&Ok(())), "Command completed successfully. ");
    assert_eq!(
        completion_message(&Err(ProcessError::NonZeroExit("denied".to_string()))),
        "denied\nCommand ended with failure. "
    );
}

#[test]
fn run_rejects_invalid_output() {
    let r = run(CommandOutput { success: true, stdout: vec![0xff, 0xfe], stderr: Vec::new() });
    assert!(matches!(r, Err(ProcessError::InvalidOutput)));
}

#[test]
fn close_reports_status() {
    assert!(close_status(true, Vec::new()).is_ok());
    match close_status(false, b"boom".to_vec()) {
        Err(ProcessError::NonZeroExit(m)) => assert_eq!(m, "boom"),
        _ => panic!("expected a non-zero exit"),
    }
}

#[test]
fn shell_invocation() {
    let s = build_command("echo hello", false);
    assert_eq!(s.program, "sh");
    assert_eq!(s.args, vec!["-c".to_string(), "echo hello".to_string()]);
    let w = build_command("echo hello", true);
    assert_eq!(w.program, "powershell");
}

#[test]
fn quoting() {
    assert_eq!(shell_quote("vim"), "'vim'");
    assert_eq!(shell_quote("a'b"), "'a'\\''b'");
    assert_eq!(shell_quote("x; rm -rf /"), "'x; rm -rf /'");
    assert_eq!(powershell_quote("it's"), "'it''s'");
}

#[test]
fn stdin_lines_end_with_line_feed() {
    assert_eq!(stdin_text(&vec!["secret".to_string()]), "secret\n");
    assert_eq!(stdin_text(&Vec::new()), "");
}

#[test]
fn credential_invalid_utf8() {
    let s = SecVec::new(vec![0x66, 0xff, 0x6f]);
    assert_eq!(to_stdin_lines(&s), Err(CredentialError::InvalidEncoding));
}

#[test]
fn credential_one_line() {
    let s = SecVec::new(b"p4ss word".to_vec());
    assert_eq!(to_stdin_lines(&s).unwrap(), vec!["p4ss word".to_string()]);
    assert_eq!(pass_2_stdin(None), Err(CredentialError::MissingSecret));
    assert_eq!(pass_2_stdin(Some(SecVec::new(b"pw".to_vec()))).unwrap(), vec!["pw".to_string()]);
}

#[test]
fn privileged_install_without_spawning_on_bad_secret() {
    let p = Pacman::default();
    let bad = p.install(Some(SecVec::new(vec![0xc3])), "vim");
    assert!(matches!(bad, Err(OpError::Credential(CredentialError::InvalidEncoding))));
    assert!(matches!(p.install(None, "vim"), Err(OpError::Credential(CredentialError::MissingSecret))));
}

#[test]
fn pacman_commands() {
    let p = Pacman::default();
    let c = p.install(Some(SecVec::new(b"pw".to_vec())), "vim").unwrap();
    assert_eq!(c.command, "sudo -S pacman -Syu 'vim' --noconfirm");
    assert_eq!(c.stdin, Some(vec!["pw".to_string()]));
    assert!(c.invalidate_credentials);
    let r = p.remove(Some(SecVec::new(b"pw".to_vec())), "vim").unwrap();
    assert_eq!(r.command, "sudo -S pacman -Runs 'vim' --noconfirm");
    assert_eq!(p.package_info("vim"), "pacman -Si 'vim'");
}

#[test]
fn flatpak_commands() {
    let f = Flatpak::default();
    let c = f.install(None, "flathub org.gimp.GIMP").unwrap();
    assert_eq!(c.command, "flatpak install 'flathub' 'org.gimp.GIMP' -y --noninteractive");
    assert!(c.stdin.is_none());
    assert!(!c.invalidate_credentials);
    let r = f.remove(None, "flathub org.gimp.GIMP").unwrap();
    assert_eq!(r.command, "flatpak remove 'org.gimp.GIMP' -y --noninteractive");
    assert!(matches!(f.remove(None, "nospace"), Err(OpError::MalformedName)));
}

#[test]
fn winget_commands() {
    let w = Winget::default();
    assert_eq!(w.install(None, "Git.Git").unwrap().command, "winget install 'Git.Git'");
    assert_eq!(w.package_info("Git.Git"), "winget show 'Git.Git'");
}

fn releases() -> Vec<Release> {
    vec![
        Release {
            tag_name: "GE-Proton9-2".to_string(),
            body: "notes 2".to_string(),
            html_url: "https://example.org/2".to_string(),
            assets_url: "https://example.org/2/assets".to_string(),
        },
        Release {
            tag_name: "9-1".to_string(),
            body: "notes 1".to_string(),
            html_url: "https://example.org/1".to_string(),
            assets_url: "https://example.org/1/assets".to_string(),
        },
    ]
}

#[test]
fn protonge_load() {
    let mut p = ProtonGE::new(true, false);
    p.load_packages(&vec!["GE-Proton9-1".to_string(), "other".to_string()], releases());
    let pk = p.packages();
    assert_eq!(pk.len(), 2);
    assert_eq!(pk[0].name, "GE-Proton9-2");
    assert_eq!(pk[0].version, "9-2");
    assert!(!pk[0].installed);
    assert_eq!(pk[1].name, "GE-Proton9-1");
    assert_eq!(pk[1].version, "9-1");
    assert_eq!(pk[1].repository, "GloriousEggroll");
    assert!(pk[1].installed);
    assert_eq!(p.installed(), 1);
    assert_eq!(p.total(), 2);
}

#[test]
fn protonge_folders() {
    assert_eq!(ProtonGE::new(true, false).folder_path, "/.steam/root/compatibilitytools.d");
    assert_eq!(
        ProtonGE::new(true, true).folder_path,
        "/.var/app/com.valvesoftware.Steam/data/Steam/compatibilitytools.d"
    );
    let p = ProtonGE::new(true, false);
    assert_eq!(p.proton_location("/home/u\n"), "/home/u/.steam/root/compatibilitytools.d");
    assert!(ProtonGE::is_available(false, true, false, true));
    assert!(!ProtonGE::is_available(true, true, true, true));
    assert!(!ProtonGE::is_available(false, false, false, true));
}

#[test]
fn protonge_info_and_install() {
    let mut p = ProtonGE::new(true, false);
    p.load_packages(&Vec::new(), releases());
    assert_eq!(p.package_info("GE-Proton9-2").unwrap(), "URL: https://example.org/2\nnotes 2");
    assert!(p.package_info("missing").is_err());
    match p.install(None, "GE-Proton9-2").unwrap() {
        Action::Download { assets_url } => assert_eq!(assets_url, "https://example.org/2/assets"),
        _ => panic!("expected a download"),
    }
}

#[test]
fn protonge_download_picks_last_archive() {
    let assets = vec![
        Asset { name: "a.tar.gz".to_string(), browser_download_url: "u1".to_string() },
        Asset { name: "sum.sha512sum".to_string(), browser_download_url: "u2".to_string() },
        Asset { name: "b.tar.gz".to_string(), browser_download_url: "u3".to_string() },
    ];
    let c = ProtonGE::download_command(&assets, "/home/u/x").unwrap();
    assert_eq!(
        c.command,
        "wget 'u3' -O /tmp/proton-ge.tar.gz &> /dev/stdout && tar -xvzf /tmp/proton-ge.tar.gz -C '/home/u/x'"
    );
    let none = vec![Asset { name: "sum".to_string(), browser_download_url: "u".to_string() }];
    assert!(matches!(ProtonGE::download_command(&none, "/x"), Err(OpError::NoArchive)));
}

#[test]
fn protonge_remove_twice_is_noop() {
    let p = ProtonGE::new(true, false);
    let version = match p.remove(None, "GE-Proton9-1").unwrap() {
        Action::RemoveMatching { version } => version,
        _ => panic!("expected a removal"),
    };
    assert_eq!(version, "9-1");
    let dirs = vec!["GE-Proton9-1".to_string(), "GE-Proton8-25".to_string()];
    let first = ProtonGE::dirs_to_remove(&dirs, &version);
    assert_eq!(first, vec!["GE-Proton9-1".to_string()]);
    let left: Vec<String> = dirs.into_iter().filter(|d| !first.contains(d)).collect();
    let second = ProtonGE::dirs_to_remove(&left, &version);
    assert!(second.is_empty());
    assert!(matches!(p.remove(None, "GE-Proton9-1"), Ok(Action::RemoveMatching { .. })));
    assert_eq!(ProtonGE::removed_command().command, "echo Removed. ");
}

#[test]
fn protonge_update_decisions() {
    let mut p = ProtonGE::new(true, false);
    assert!(matches!(p.update(None), Ok(Action::Reload)));
    p.load_packages(&Vec::new(), releases());
    assert!(matches!(p.update(None), Ok(Action::Download { .. })));
    p.load_packages(&vec!["GE-Proton9-2".to_string()], releases());
    match p.update(None) {
        Ok(Action::Run(c)) => assert_eq!(c.command, "echo Nothing to do. "),
        _ => panic!("expected nothing to do"),
    }
}

#[test]
fn provider_kinds_in_order() {
    let all = ProviderKind::all(true, false);
    let names: Vec<String> = all.iter().map(|k| k.name()).collect();
    assert_eq!(names, vec!["Flatpak", "Pacman", "Paru", "Proton GE", "Winget", "Dnf"]);
    assert!(all.iter().all(|k| k.total() == 0));
    assert_eq!(all[1].probe_command(), Some("pacman --version".to_string()));
    assert_eq!(all[3].probe_command(), None);
}

#[test]
fn provider_load_through_kind() {
    let mut k = ProviderKind::all(false, false).remove(1);
    k.update_packages(Listing::Sl("core vim 9.0-1\ncore htop 3.2-1 [installed]".to_string())).unwrap();
    assert_eq!(k.total(), 2);
    assert_eq!(k.installed(), 1);
    assert_eq!(k.installed() + (k.total() - k.installed()), k.total());
    assert!(k.update_packages(Listing::DnfList(String::new())).is_err());
    assert_eq!(k.total(), 2);
    match k.package_info("vim").unwrap() {
        InfoStep::Run(c) => assert_eq!(c, "pacman -Si 'vim'"),
        _ => panic!("expected a command"),
    }
}

#[test]
fn root_requirement_fixed_per_kind() {
    let all = ProviderKind::all(true, false);
    let roots: Vec<bool> = all.iter().map(|k| k.is_root_required()).collect();
    assert_eq!(roots, vec![false, true, true, false, false, true]);
}

#[test]
fn auth_probe_command() {
    let c = auth_probe(Some(SecVec::new(b"pw".to_vec()))).unwrap();
    assert_eq!(c.command, "sudo -S -v");
    assert_eq!(c.stdin, Some(vec!["pw".to_string()]));
    assert!(matches!(auth_probe(None), Err(OpError::Credential(CredentialError::MissingSecret))));
    assert_eq!(CredentialError::Rejected.message(), "Password rejected");
}

#[test]
fn registry_keeps_available_in_order() {
    let reg = init(ProviderKind::all(true, false), &vec![true, false, true, false, false, true]);
    assert_eq!(reg.names(), vec!["Flatpak".to_string(), "Paru".to_string(), "Dnf".to_string()]);
    assert_eq!(reg.find("Paru"), Some(1));
    assert_eq!(reg.find("Pacman"), None);
    assert_eq!(reg.is_root_required("Flatpak"), Some(false));
    assert_eq!(reg.is_root_required("Dnf"), Some(true));
    assert!(reg.some_root_required());
}

#[test]
fn update_all_isolates_failures() {
    let mut u = UpdateAll { names: vec!["Flatpak".to_string(), "Pacman".to_string()], results: Vec::new() };
    assert_eq!(u.next(), Some("Flatpak".to_string()));
    u.record(false);
    assert_eq!(u.next(), Some("Pacman".to_string()));
    u.record(true);
    assert_eq!(u.next(), None);
    assert_eq!(u.failures(), 1);
    assert_eq!(u.successes(), 1);
}

#[test]
fn settings_flag_and_path() {
    let mut s = Settings::default();
    assert!(!s.fuzzy_search);
    s.set_bool("fuzzy_search", true);
    assert!(s.fuzzy_search);
    s.set_bool("other", false);
    assert!(s.fuzzy_search);
    assert_eq!(settings_path("/home/u/.local/share/app"), "/home/u/.local/share/app/setting.json");
    assert_eq!(settings_path("/data/"), "/data/setting.json");
}

#[test]
fn plain_search() {
    assert!(simple_search("", "anything"));
    assert!(simple_search("GIMP", "flathub org.gimp.GIMP"));
    assert!(!simple_search("vlc", "flathub org.gimp.GIMP"));
    assert_eq!(installed_first(true, false), -1);
    assert_eq!(installed_first(false, true), 1);
    assert_eq!(installed_first(true, true), 0);
}
