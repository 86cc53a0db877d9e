use wally::cli::App;
use wally::commands::cmd_maintenance::{
    after_answer, confirm, confirm_prompt, data_targets, delete_failure, deletion_order, exe_note, help_render_path,
    install_sh_layout, install_tree, launcher_target, model_bases_exec, models_directory, models_path, os_error_message,
    platform_base, present_targets, run_uninstall, store_path, uninstall_outcome, unix_exe_targets,
    windows_install_directory,
    ModelStore, Target, TargetLabel, Uninstall,
};
use wally::commands::cmd_models::models_storage;
use wally::commands::cmd_update::{is_homebrew_managed, run_update, update_exit_code, Update};
use wally::desktop::brand::{brand_of, Brand};
use wally::disk::{dir_size, Entry};

fn some(s: &str) -> Option<String> {
    Some(s.to_string())
}

fn brand() -> Brand {
    brand_of("acme")
}

#[test]
fn only_what_is_there_is_deleted() {
    let all = data_targets("/models", "/config");
    let kept = present_targets(&all, &vec![None, some("1.0 KiB")]);
    assert_eq!(kept.len(), 1);
    assert_eq!(kept[0].label, TargetLabel::Config);
    assert_eq!((kept[0].path.as_str(), kept[0].size.as_str()), ("/config", "1.0 KiB"));
    assert!(present_targets(&all, &vec![None, None]).is_empty());
}

#[test]
fn a_brand_is_written_in_three_ways() {
    let b = brand();
    assert_eq!((b.word.as_str(), b.name.as_str(), b.caps.as_str()), ("acme", "Acme", "ACME"));
}

#[test]
fn dir_size_follows_symlinked_regular_files() {
    assert_eq!(dir_size(&vec![Entry::Link(Some(23))]), 23);
}

#[test]
fn symlinked_regular_file_counts_target_size() {
    assert_eq!(dir_size(&vec![Entry::Link(Some(16))]), 16);
}

#[test]
fn broken_symlink_contributes_zero() {
    assert_eq!(dir_size(&vec![Entry::Link(None)]), 0);
}

#[test]
fn trees_add_up() {
    let tree = vec![
        Entry::File(5),
        Entry::Directory(vec![Entry::File(7), Entry::Directory(vec![]), Entry::Link(Some(1))]),
        Entry::Other,
    ];
    assert_eq!(dir_size(&tree), 13);
    assert_eq!(models_storage(13, &vec![None, Some(9), Some(4)]), (13, 9));
    assert_eq!(models_storage(0, &vec![None]), (0, 0));
}

#[test]
fn os_error_message_strips_the_os_error_number_suffix() {
    let error = std::io::Error::from_raw_os_error(13); // EACCES
    let message = os_error_message(&error.to_string());
    assert!(!message.contains("os error"));
    assert!(!message.is_empty());
}

#[test]
fn os_error_message_leaves_a_non_os_error_display_unchanged() {
    let error = std::io::Error::other("custom failure text");
    assert_eq!(os_error_message(&error.to_string()), "custom failure text");
}

fn app_with_help_and_bench() -> App {
    let mut app = App::new("root description", "wally");
    app.add_subcommand("help", "Show help for a command");
    app.add_subcommand("bench", "Measure throughput and load time");
    app
}

#[test]
fn help_render_path_resolves_a_real_topic() {
    let app = app_with_help_and_bench();
    assert_eq!(help_render_path(&app, "bench"), vec!["bench".to_string()]);
}

#[test]
fn help_render_path_falls_back_to_helps_own_help_for_an_empty_topic() {
    let app = app_with_help_and_bench();
    assert_eq!(help_render_path(&app, ""), vec!["help".to_string()]);
}

#[test]
fn help_render_path_falls_back_to_helps_own_help_for_an_unknown_topic() {
    let app = app_with_help_and_bench();
    assert_eq!(help_render_path(&app, "pull"), vec!["help".to_string()]);
}

#[test]
fn models_directory_prefers_the_home_override_over_home() {
    let platform = platform_base(&some("/tmp/a"), &None, false);
    let bases = model_bases_exec("/tmp/b", &None, &None, &platform, false);
    // Only the override holds a store, and it would come first anyway.
    let exists: Vec<(bool, bool)> = bases.iter().map(|b| (false, b == "/tmp/b")).collect();
    let (i, store) = models_directory(&exists).unwrap();
    let result = format!("{}/{}", bases[i], store_path(store));
    assert!(result.starts_with("/tmp/b"), "{result}");
    assert_eq!(result, "/tmp/b/Models");
    assert_eq!(models_directory(&vec![(true, true)]).unwrap().1, ModelStore::Nested);
    assert!(models_directory(&vec![]).is_none());
    assert_eq!(models_path(&bases, &exists), result);
    let two = vec!["/a".to_string(), "/b/".to_string()];
    assert_eq!(models_path(&two, &vec![(false, false), (true, true)]), "/b/RunAnywhere/Models");
    assert_eq!(models_path(&two, &vec![(false, true), (true, true)]), "/a/Models");
    assert_eq!(models_path(&two, &vec![(false, false), (false, false)]), "/a/Models", "where none is there yet");
    assert_eq!(models_path(&vec![], &vec![]), "");
}

#[test]
fn model_bases_go_from_the_most_to_the_least_explicit() {
    let bases = model_bases_exec("/flag/", &some("/env"), &some("/kit"), "/platform", false);
    assert_eq!(bases, vec!["/flag", "/env", "/kit", "/platform"]);
    assert_eq!(model_bases_exec("", &None, &None, "", false), Vec::<String>::new());
}

const TREE: &str = "/home/u/.local/lib/wally";
const EXE: &str = "/home/u/.local/lib/wally/bin/wally";

#[test]
fn install_sh_layout_finds_lib_dir_and_launcher_from_the_running_exe() {
    assert_eq!(install_tree("/home/u"), TREE);
    let (lib_dir, launcher) =
        install_sh_layout(EXE, &some("/home/u"), &some(TREE)).expect("install.sh layout should be recognised");
    assert_eq!(lib_dir, TREE);
    assert_eq!(launcher, "/home/u/.local/bin/wally");
}

#[test]
fn install_sh_layout_rejects_a_binary_outside_the_tree() {
    assert!(install_sh_layout("/home/u/elsewhere-wally", &some("/home/u"), &some(TREE)).is_none());
    assert!(install_sh_layout("/home/u/.local/lib/wally-old/bin/wally", &some("/home/u"), &some(TREE)).is_none());
    assert!(install_sh_layout(EXE, &None, &None).is_none());
}

#[test]
fn unix_exe_targets_skips_a_homebrew_binary() {
    let exe = "/opt/homebrew/Cellar/wally/0.5.10/bin/wally";
    let layout = install_sh_layout(exe, &some("/home/u"), &some(TREE));
    let targets = unix_exe_targets(&layout, true);
    assert!(targets.is_empty(), "{targets:?}");
}

#[test]
fn unix_exe_targets_skips_an_unverified_source_build() {
    let exe = "/home/dev/wally/target/release/wally";
    let layout = install_sh_layout(exe, &some("/home/u"), &some(TREE));
    let targets = unix_exe_targets(&layout, true);
    assert!(targets.is_empty(), "an unverified binary location is never deleted: {targets:?}");
}

#[test]
fn unix_exe_targets_still_covers_the_install_sh_layout() {
    let layout = install_sh_layout(EXE, &some("/home/u"), &some(TREE));
    let labels: Vec<TargetLabel> = unix_exe_targets(&layout, true).iter().map(|t| t.label).collect();
    assert!(labels.contains(&TargetLabel::Launcher), "targets: {labels:?}");
    assert!(labels.contains(&TargetLabel::Install), "targets: {labels:?}");
    let labels: Vec<TargetLabel> = unix_exe_targets(&layout, false).iter().map(|t| t.label).collect();
    assert_eq!(labels, vec![TargetLabel::Install]);
}

#[test]
fn launcher_target_accepts_a_symlink_that_resolves_into_lib_dir() {
    assert!(launcher_target(true, &some(EXE), TREE));
}

#[test]
fn launcher_target_rejects_a_plain_file() {
    assert!(!launcher_target(false, &some("/home/u/.local/bin/not-a-symlink"), TREE));
}

#[test]
fn launcher_target_rejects_a_symlink_pointing_outside_lib_dir() {
    assert!(!launcher_target(true, &some("/home/u/someone-elses-wally"), TREE));
}

#[test]
fn launcher_target_rejects_a_dangling_symlink() {
    assert!(!launcher_target(true, &None, TREE));
}

#[test]
fn windows_install_directory_finds_the_directory_from_the_running_exe() {
    let local = some(r"C:\Users\u\AppData\Local");
    let exe = r"C:\Users\u\AppData\Local\Programs\wally\wally.exe";
    let install_dir = r"C:\Users\u\AppData\Local\Programs\wally";
    assert_eq!(windows_install_directory(exe, &local, true), some(install_dir));
    assert_eq!(
        windows_install_directory(&format!(r"\\?\{exe}"), &local, true),
        some(install_dir),
        "a verbatim exe path must match too"
    );
}

#[test]
fn windows_install_directory_rejects_a_binary_outside_the_programs_tree() {
    let local = some(r"C:\Users\u\AppData\Local");
    assert!(windows_install_directory(r"C:\Users\u\AppData\Local\elsewhere-wally.exe", &local, false).is_none());
    assert!(windows_install_directory("", &local, true).is_none());
    assert!(windows_install_directory("x", &some(""), true).is_none());
    assert!(windows_install_directory("x", &None, true).is_none());
}

fn target(label: TargetLabel) -> Target {
    Target { label, path: "/p".to_string(), size: "1.0 B".to_string() }
}

#[test]
fn uninstall_asks_before_it_deletes() {
    let targets = vec![target(TargetLabel::Install), target(TargetLabel::Models)];
    assert_eq!(run_uninstall(&brand(), false, &None, &targets, &None, true).1, Uninstall::Ask);
    assert_eq!(run_uninstall(&brand(), false, &None, &targets, &None, false).1, Uninstall::Finished(1));
    assert_eq!(run_uninstall(&brand(), true, &None, &targets, &None, false).1, Uninstall::Delete);
    let (printed, done) = run_uninstall(&brand(), true, &None, &vec![], &None, false);
    assert_eq!(done, Uninstall::Finished(0));
    assert_eq!(printed.lines[0].text, "nothing to uninstall; wally is already gone.");
    assert_eq!(deletion_order(&targets), vec![1, 0], "the install tree goes last");
    assert_eq!(after_answer(false).1, Uninstall::Finished(1));
    assert_eq!(after_answer(true).1, Uninstall::Delete);
    assert_eq!(uninstall_outcome(0, false).1, 0);
    assert_eq!(uninstall_outcome(1, false), (None, 1));
    assert!(delete_failure("/p", "busy").contains("/p"));
    assert!(confirm(Some("Yes\n")) && !confirm(Some(" y")) && !confirm(Some("")) && !confirm(None));
    assert_eq!(confirm_prompt("sure?"), "sure? [y/N] ");
}

#[test]
fn an_unverified_program_is_only_mentioned() {
    assert!(exe_note("/x", false, true).unwrap().contains("brew uninstall wally"));
    assert!(exe_note("/x", false, false).unwrap().starts_with("/x could not be verified"));
    assert_eq!(exe_note("/x", true, false), None);
    assert_eq!(exe_note("", false, false), None);
    assert_eq!(data_targets("/m", "").len(), 1);
    assert_eq!(data_targets("/m", "/c")[1].label, TargetLabel::Config);
}

#[test]
fn is_homebrew_managed_matches_the_apple_silicon_prefix() {
    assert!(is_homebrew_managed("/opt/homebrew/Cellar/wally/0.5.10/bin/wally", None));
}

#[test]
fn is_homebrew_managed_matches_the_intel_cellar_prefix() {
    assert!(is_homebrew_managed("/usr/local/Cellar/wally/0.5.10/bin/wally", None));
}

#[test]
fn is_homebrew_managed_matches_a_custom_homebrew_prefix() {
    assert!(is_homebrew_managed("/custom/brew/Cellar/wally/0.5.10/bin/wally", Some("/custom/brew")));
}

#[test]
fn is_homebrew_managed_rejects_an_install_sh_path() {
    assert!(!is_homebrew_managed("/home/user/.local/lib/wally/bin/wally", None));
}

#[test]
fn is_homebrew_managed_rejects_a_sibling_of_a_homebrew_prefix() {
    assert!(!is_homebrew_managed("/opt/homebrew-old/bin/wally", None));
    assert!(!is_homebrew_managed("/usr/local/Cellar-backup/wally/bin/wally", None));
}

#[test]
fn is_homebrew_managed_rejects_an_empty_path() {
    assert!(!is_homebrew_managed("", None));
}

#[test]
fn an_update_runs_the_installer_of_its_channel() {
    assert!(matches!(run_update(false, true, false, "1.0").1, Update::Settled(1)));
    assert!(matches!(run_update(false, false, true, "1.0").1, Update::Settled(0)));
    match run_update(true, false, false, "1.0").1 {
        Update::Run(command) => assert!(command.contains("install.sh"), "{command}"),
        other => panic!("{other:?}"),
    }
    assert_eq!(update_exit_code(Some(true)), 0);
    assert_ne!(update_exit_code(None), 0);
}
