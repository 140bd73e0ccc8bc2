use rtk::options::RunOptions;

fn is_default(o: &RunOptions) -> bool {
    o.tee_label.is_none()
        && o.rtk_command_name.is_none()
        && !o.filter_stdout_only
        && !o.skip_filter_on_failure
        && !o.no_trailing_newline
        && !o.inherit_stdin
}

#[test]
fn default_options_set_nothing() {
    assert!(is_default(&RunOptions::default()));
}

#[test]
fn with_tee_sets_only_the_label() {
    let o = RunOptions::with_tee("cargo_test");
    assert_eq!(o.tee_label, Some("cargo_test"));
    assert!(is_default(&RunOptions { tee_label: None, ..o }));
}

#[test]
fn stdout_only_sets_only_the_stdout_filter() {
    let o = RunOptions::stdout_only();
    assert!(o.filter_stdout_only);
    assert!(is_default(&RunOptions { filter_stdout_only: false, ..o }));
}

#[test]
fn builders_each_set_one_option_and_keep_the_rest() {
    let o = RunOptions::stdout_only()
        .tee("lint")
        .rtk_command("gradlew")
        .early_exit_on_failure()
        .no_trailing_newline()
        .inherit_stdin();
    assert_eq!(o.tee_label, Some("lint"));
    assert_eq!(o.rtk_command_name, Some("gradlew"));
    assert!(o.filter_stdout_only);
    assert!(o.skip_filter_on_failure);
    assert!(o.no_trailing_newline);
    assert!(o.inherit_stdin);

    let retee = o.tee("other");
    assert_eq!(retee.tee_label, Some("other"));
    assert_eq!(retee.rtk_command_name, Some("gradlew"));
    assert!(retee.inherit_stdin);
}
