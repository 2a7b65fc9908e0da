use pixi_install_to_prefix::activation::{
    activation_script_path, activation_targets, default_shells, is_windows_platform, shells_to_activate,
    ShellDialect,
    ACTIVATION_DIR, HISTORY_FILE,
};
use pixi_install_to_prefix::client::{download_client_settings, Layer};

#[test]
fn extensions_per_dialect() {
    assert_eq!(ShellDialect::Bash.extension(), "sh");
    assert_eq!(ShellDialect::Zsh.extension(), "sh");
    assert_eq!(ShellDialect::Xonsh.extension(), "xsh");
    assert_eq!(ShellDialect::CmdExe.extension(), "bat");
    assert_eq!(ShellDialect::PowerShell.extension(), "ps1");
    assert_eq!(ShellDialect::Fish.extension(), "fish");
    assert_eq!(ShellDialect::NuShell.extension(), "nu");
}

#[test]
fn script_paths() {
    assert_eq!(activation_script_path(ShellDialect::Bash), "conda-meta/activation/activate.sh");
    assert_eq!(activation_script_path(ShellDialect::PowerShell), "conda-meta/activation/activate.ps1");
    assert_eq!(ACTIVATION_DIR, "conda-meta/activation");
    assert_eq!(HISTORY_FILE, "conda-meta/history");
}

#[test]
fn two_dialects_give_two_files() {
    let targets = activation_targets(&vec![ShellDialect::Bash, ShellDialect::Fish]);
    assert_eq!(targets.len(), 2);
    assert_eq!(targets[0].shell, ShellDialect::Bash);
    assert_eq!(targets[0].path, "conda-meta/activation/activate.sh");
    assert_eq!(targets[1].shell, ShellDialect::Fish);
    assert_eq!(targets[1].path, "conda-meta/activation/activate.fish");
    assert_ne!(targets[0].path, targets[1].path);
}

#[test]
fn default_shells_by_platform() {
    assert_eq!(default_shells(&"linux-64".to_string()), vec![ShellDialect::Bash, ShellDialect::Fish]);
    assert_eq!(default_shells(&"osx-arm64".to_string()), vec![ShellDialect::Bash, ShellDialect::Fish]);
    for p in ["win-64", "win-32", "win-arm64"] {
        assert!(is_windows_platform(&p.to_string()));
        assert_eq!(
            default_shells(&p.to_string()),
            vec![ShellDialect::CmdExe, ShellDialect::PowerShell, ShellDialect::Bash]
        );
    }
    assert!(!is_windows_platform(&"noarch".to_string()));
}

#[test]
fn client_settings() {
    let c = download_client_settings("0.1.0");
    assert!(!c.compression);
    assert_eq!(c.pool_max_idle_per_host, 20);
    assert_eq!(c.timeout_secs, 300);
    assert_eq!(c.user_agent, "pixi-install-to-prefix/0.1.0");
    assert_eq!(c.layers, vec![Layer::Mirror, Layer::ObjectStorage, Layer::Authentication]);
}

#[test]
fn shells_to_activate_choices() {
    let linux = "linux-64".to_string();
    assert!(shells_to_activate(None, true, &linux).is_empty());
    assert!(shells_to_activate(Some(vec![ShellDialect::Zsh]), true, &linux).is_empty());
    assert_eq!(shells_to_activate(Some(vec![ShellDialect::Zsh]), false, &linux), vec![ShellDialect::Zsh]);
    assert_eq!(shells_to_activate(None, false, &linux), vec![ShellDialect::Bash, ShellDialect::Fish]);
    assert_eq!(
        shells_to_activate(None, false, &"win-64".to_string()),
        vec![ShellDialect::CmdExe, ShellDialect::PowerShell, ShellDialect::Bash]
    );
}

#[test]
fn dialects_sharing_an_extension_share_a_file() {
    let targets = activation_targets(&vec![ShellDialect::Bash, ShellDialect::Zsh]);
    assert_eq!(targets[0].path, targets[1].path);
}
