use rtk::labels::tracking_labels;
use rtk::options::RunOptions;

#[test]
fn tracking_labels_use_logical_rtk_subcommand_for_wrappers() {
    let opts = RunOptions::default().rtk_command("gradlew");
    let (original, rtk) = tracking_labels("./gradlew", "test --offline", &opts);

    assert_eq!(original, "./gradlew test --offline");
    assert_eq!(rtk, "rtk gradlew test --offline");
}

#[test]
fn tracking_labels_default_to_executable_name() {
    let opts = RunOptions::default();
    let (original, rtk) = tracking_labels("cargo", "test", &opts);

    assert_eq!(original, "cargo test");
    assert_eq!(rtk, "rtk cargo test");
}

#[test]
fn tracking_labels_with_empty_arguments_keep_the_separator() {
    let opts = RunOptions::with_tee("ls");
    let (original, rtk) = tracking_labels("ls", "", &opts);
    assert_eq!(original, "ls ");
    assert_eq!(rtk, "rtk ls ");
}
