use stewardx_cli::utils::{
    capitalize, capitalize_with, get_binary_dir, get_binary_path, get_nodejs_compatible_arch, get_socket_path,
    join_path, parse_cron_frequency, remove_cron_freq_prefix, show_date,
    truncate_string_elliptic, FrequencyError,
};

#[test]
fn prefix_is_removed_with_the_closing_bracket() {
    assert_eq!(remove_cron_freq_prefix("Every(* * * * * *)"), "* * * * * *");
    assert_eq!(remove_cron_freq_prefix("Every()"), "");
    assert_eq!(remove_cron_freq_prefix("Every("), "");
    assert_eq!(remove_cron_freq_prefix("no bracket"), "");
    assert_eq!(remove_cron_freq_prefix("a(b(c))"), "b(c)");
    assert_eq!(remove_cron_freq_prefix(""), "");
}

#[test]
fn capitalize_raises_the_first_character_only() {
    assert_eq!(capitalize("file"), "File");
    assert_eq!(capitalize("image"), "Image");
    assert_eq!(capitalize(""), "");
    assert_eq!(capitalize("File"), "File");
    assert_eq!(capitalize("\u{df}a"), "SSa");
}

#[test]
fn long_names_are_cut_and_marked() {
    assert_eq!(
        truncate_string_elliptic("a-very-long-task-name".to_string(), 16),
        "a-very-long-tas\u{2026}"
    );
    assert_eq!(truncate_string_elliptic("short".to_string(), 16), "short");
    assert_eq!(
        truncate_string_elliptic("exactly15chars_".to_string(), 16),
        "exactly15chars_\u{2026}"
    );
    assert_eq!(truncate_string_elliptic("fourteen_chars".to_string(), 16), "fourteen_chars");
}

#[test]
fn six_field_expressions_are_wrapped() {
    assert_eq!(parse_cron_frequency("* * * * * *"), Ok("Every(* * * * * *)".to_string()));
    assert_eq!(
        parse_cron_frequency("Every(0 30 9 * * *)"),
        Ok("Every(0 30 9 * * *)".to_string())
    );
}

#[test]
fn other_field_counts_are_turned_down() {
    assert_eq!(parse_cron_frequency("* * * * *"), Err(FrequencyError::FieldCount));
    assert_eq!(parse_cron_frequency("* * * * * * *"), Err(FrequencyError::FieldCount));
    assert_eq!(parse_cron_frequency(""), Err(FrequencyError::FieldCount));
}

#[test]
fn what_cron_cannot_read_is_turned_down() {
    assert_eq!(parse_cron_frequency("a b c d e f"), Err(FrequencyError::Schedule));
    assert_eq!(parse_cron_frequency("99 * * * * *"), Err(FrequencyError::Schedule));
}

#[test]
fn known_architectures_are_renamed() {
    assert_eq!(get_nodejs_compatible_arch("x86_64"), "x64");
    assert_eq!(get_nodejs_compatible_arch("x86"), "x32");
    assert_eq!(get_nodejs_compatible_arch("aarch64"), "arm64");
    assert_eq!(get_nodejs_compatible_arch("riscv64"), "riscv64");
    assert_eq!(get_nodejs_compatible_arch("X86_64"), "X86_64");
    assert_eq!(get_nodejs_compatible_arch(""), "");
}

#[test]
fn paths_are_joined_by_one_separator() {
    assert_eq!(join_path("/home/me", "stewardx"), "/home/me/stewardx");
    assert_eq!(join_path("/home/me/", "stewardx"), "/home/me/stewardx");
    assert_eq!(join_path("/", "stewardx"), "/stewardx");
    assert_eq!(join_path("", "stewardx"), "stewardx");
}

#[test]
fn install_directory_follows_the_override() {
    assert_eq!(get_binary_dir(Some("/opt/sx"), "/home/me"), "/opt/sx");
    assert_eq!(get_binary_dir(None, "/home/me"), "/home/me/.stewardx");
    assert_eq!(get_binary_path("/home/me/.stewardx"), "/home/me/.stewardx/stewardx");
}

#[test]
fn control_channel_follows_the_override() {
    assert_eq!(get_socket_path(Some("/run/sx"), "/tmp"), "/run/sx/stewardx.sock");
    assert_eq!(get_socket_path(None, "/tmp"), "/tmp/stewardx.sock");
    assert_eq!(get_socket_path(None, "/tmp/"), "/tmp/stewardx.sock");
}

#[test]
fn dates_are_shown_to_the_second() {
    assert_eq!(show_date("2021-03-04T05:06:07"), Some("2021-03-04 05:06:07 UTC".to_string()));
    assert_eq!(
        show_date("2021-03-04T05:06:07.987654"),
        Some("2021-03-04 05:06:07 UTC".to_string())
    );
    assert_eq!(show_date("2021-03-04 05:06:07"), None);
    assert_eq!(show_date("2021-02-30T05:06:07"), None);
    assert_eq!(show_date(""), None);
}

#[test]
fn first_character_is_replaced_by_what_is_given() {
    assert_eq!(capitalize_with("file", "F"), "File");
    assert_eq!(capitalize_with("\u{df}a", "SS"), "SSa");
    assert_eq!(capitalize_with("x", ""), "");
    assert_eq!(capitalize_with("", "F"), "");
    assert_eq!(capitalize_with("1abc", "1"), "1abc");
}

#[test]
fn capitalize_leaves_what_has_no_upper_case() {
    assert_eq!(capitalize("1abc"), "1abc");
    assert_eq!(capitalize(&capitalize("image")), "Image");
}
