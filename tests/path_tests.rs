use alacritty_themes::paths::{backup_file_path, backup_plan, theme_file_name};

#[test]
fn backup_goes_before_the_extension() {
    assert_eq!(
        backup_file_path("/home/u/.config/alacritty/alacritty.yml"),
        Some("/home/u/.config/alacritty/alacritty-backup.yml".to_string())
    );
    assert_eq!(backup_file_path("alacritty.yml"), Some("alacritty-backup.yml".to_string()));
    assert_eq!(backup_file_path("a.tar.gz"), Some("a.tar-backup.gz".to_string()));
}

#[test]
fn no_extension_no_backup() {
    assert_eq!(backup_file_path("/home/u/config"), None);
    assert_eq!(backup_file_path("/home/u.d/config"), None);
    assert_eq!(backup_file_path("/home/u/.bashrc"), None);
}

#[test]
fn theme_names_get_the_yml_suffix() {
    assert_eq!(theme_file_name("dracula"), "dracula.yml");
    assert_eq!(theme_file_name("dracula.yml"), "dracula.yml");
    assert_eq!(theme_file_name("yml"), "yml.yml");
    assert_eq!(theme_file_name(""), ".yml");
}

#[test]
fn backup_only_when_none_exists() {
    assert_eq!(backup_plan("/c/alacritty.yml", false), Some("/c/alacritty-backup.yml".to_string()));
    assert_eq!(backup_plan("/c/alacritty.yml", true), None);
    assert_eq!(backup_plan("/c/config", false), None);
}
