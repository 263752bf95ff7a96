use cunzhi::cli::{
    classify_override, classify_run_mode, dispatch, dispatch_arguments, exit_after_run,
    handle_cli_args, handle_mcp_request, read_override, select_port, EnvOverride, OperatingMode,
    RequestHandling, RunMode, UsageError, DEFAULT_PORT, EXIT_FAILURE, MODE_VARIABLE,
    PORT_VARIABLE,
};
use cunzhi::config::TelegramConfig;

fn argv(items: &[&str]) -> Vec<String> {
    items.iter().map(|s| s.to_string()).collect()
}

fn telegram(enabled: bool, hide_frontend_popup: bool) -> TelegramConfig {
    TelegramConfig {
        enabled,
        hide_frontend_popup,
        bot_token: "token".to_string(),
        chat_id: "42".to_string(),
        api_base_url: "https://api.telegram.org/bot".to_string(),
    }
}

#[test]
fn no_extra_arguments_select_desktop() {
    assert_eq!(handle_cli_args(&argv(&["tool"]), None, None), Ok(OperatingMode::Desktop));
}

#[test]
fn empty_argument_list_selects_desktop() {
    assert_eq!(handle_cli_args(&argv(&[]), None, None), Ok(OperatingMode::Desktop));
}

#[test]
fn help_flags_select_help() {
    assert_eq!(handle_cli_args(&argv(&["tool", "--help"]), None, None), Ok(OperatingMode::Help));
    assert_eq!(handle_cli_args(&argv(&["tool", "-h"]), None, None), Ok(OperatingMode::Help));
}

#[test]
fn version_flags_select_version() {
    assert_eq!(
        handle_cli_args(&argv(&["tool", "--version"]), None, None),
        Ok(OperatingMode::Version)
    );
    assert_eq!(handle_cli_args(&argv(&["tool", "-v"]), None, None), Ok(OperatingMode::Version));
}

#[test]
fn flags_are_case_sensitive() {
    assert_eq!(
        handle_cli_args(&argv(&["tool", "--HELP"]), None, None),
        Err(UsageError::UnknownArgument("--HELP".to_string()))
    );
}

#[test]
fn unknown_single_argument_is_a_usage_error() {
    let outcome = handle_cli_args(&argv(&["tool", "--frobnicate"]), None, None);
    assert_eq!(outcome, Err(UsageError::UnknownArgument("--frobnicate".to_string())));
    let error = outcome.unwrap_err();
    assert_eq!(error.message(), "未知参数: --frobnicate");
    assert!(error.shows_help());
    assert_eq!(error.exit_code(), 1);
}

#[test]
fn lone_request_flag_is_a_usage_error() {
    assert_eq!(
        handle_cli_args(&argv(&["tool", "--mcp-request"]), None, None),
        Err(UsageError::UnknownArgument("--mcp-request".to_string()))
    );
}

#[test]
fn request_flag_with_file_selects_automated_request() {
    assert_eq!(
        handle_cli_args(&argv(&["tool", "--mcp-request", "/tmp/req.json"]), None, None),
        Ok(OperatingMode::AutomatedRequest("/tmp/req.json".to_string()))
    );
}

#[test]
fn arguments_after_the_request_file_are_ignored() {
    assert_eq!(
        handle_cli_args(&argv(&["tool", "--mcp-request", "a.json", "b", "c"]), None, None),
        Ok(OperatingMode::AutomatedRequest("a.json".to_string()))
    );
}

#[test]
fn several_arguments_of_another_shape_are_a_usage_error() {
    let outcome = handle_cli_args(&argv(&["tool", "--help", "x"]), None, None);
    assert_eq!(outcome, Err(UsageError::InvalidArguments));
    let error = outcome.unwrap_err();
    assert_eq!(error.message(), "无效的命令行参数");
    assert!(error.shows_help());
    assert_eq!(error.exit_code(), EXIT_FAILURE);
}

#[test]
fn web_override_without_port_selects_3000() {
    assert_eq!(
        handle_cli_args(&argv(&["tool"]), Some("web"), None),
        Ok(OperatingMode::Server(3000))
    );
    assert_eq!(DEFAULT_PORT, 3000);
}

#[test]
fn web_override_with_unparsable_port_selects_3000() {
    for port in ["abc", "", " 8080", "8080 ", "70000", "-1", "+", "8_080", "0x50", "８０"] {
        assert_eq!(
            handle_cli_args(&argv(&["tool"]), Some("web"), Some(port)),
            Ok(OperatingMode::Server(3000)),
            "port text {:?}",
            port
        );
    }
}

#[test]
fn web_override_with_port_selects_it() {
    assert_eq!(
        handle_cli_args(&argv(&["tool"]), Some("web"), Some("8080")),
        Ok(OperatingMode::Server(8080))
    );
    assert_eq!(
        handle_cli_args(&argv(&["tool"]), Some("web"), Some("65535")),
        Ok(OperatingMode::Server(65535))
    );
    assert_eq!(
        handle_cli_args(&argv(&["tool"]), Some("web"), Some("0")),
        Ok(OperatingMode::Server(0))
    );
    assert_eq!(
        handle_cli_args(&argv(&["tool"]), Some("web"), Some("+443")),
        Ok(OperatingMode::Server(443))
    );
    assert_eq!(
        handle_cli_args(&argv(&["tool"]), Some("web"), Some("000000000000000000000080")),
        Ok(OperatingMode::Server(80))
    );
}

#[test]
fn override_is_read_without_regard_to_case() {
    for mode in ["WEB", "Web", "wEb"] {
        assert_eq!(
            handle_cli_args(&argv(&["tool", "--help"]), Some(mode), Some("81")),
            Ok(OperatingMode::Server(81))
        );
    }
    for mode in ["DESKTOP", "Desktop", "desktop"] {
        assert_eq!(
            handle_cli_args(&argv(&["tool", "--help"]), Some(mode), Some("81")),
            Ok(OperatingMode::Help)
        );
    }
}

#[test]
fn override_follows_unicode_lower_casing() {
    // U+212A KELVIN SIGN lower-cases to the letter k.
    assert_eq!(
        handle_cli_args(&argv(&["tool"]), Some("DES\u{212A}TOP"), None),
        Ok(OperatingMode::Desktop)
    );
}

#[test]
fn web_override_wins_over_arguments() {
    assert_eq!(
        handle_cli_args(&argv(&["tool", "--bogus", "x", "y"]), Some("web"), None),
        Ok(OperatingMode::Server(3000))
    );
}

#[test]
fn desktop_override_leaves_the_decision_to_the_arguments() {
    assert_eq!(
        handle_cli_args(&argv(&["tool"]), Some("desktop"), Some("8080")),
        Ok(OperatingMode::Desktop)
    );
    assert_eq!(
        handle_cli_args(&argv(&["tool", "--mcp-request", "r"]), Some("desktop"), None),
        Ok(OperatingMode::AutomatedRequest("r".to_string()))
    );
    assert_eq!(
        handle_cli_args(&argv(&["tool", "nope"]), Some("desktop"), None),
        Err(UsageError::UnknownArgument("nope".to_string()))
    );
}

#[test]
fn bogus_override_exits_with_status_1_and_names_the_supported_values() {
    let outcome = handle_cli_args(&argv(&["tool"]), Some("bogus"), None);
    assert_eq!(outcome, Err(UsageError::InvalidMode("bogus".to_string())));
    let error = outcome.unwrap_err();
    assert_eq!(error.exit_code(), 1);
    let message = error.message();
    assert_eq!(message, "无效的 CUNZHI_MODE 值: bogus，支持的值: desktop, web");
    assert!(message.contains("desktop"));
    assert!(message.contains("web"));
    assert!(!error.shows_help());
}

#[test]
fn invalid_override_is_reported_as_given() {
    assert_eq!(
        handle_cli_args(&argv(&["tool", "--help"]), Some("SeRvEr"), None),
        Err(UsageError::InvalidMode("SeRvEr".to_string()))
    );
    assert_eq!(
        handle_cli_args(&argv(&["tool"]), Some(""), None),
        Err(UsageError::InvalidMode(String::new()))
    );
    assert_eq!(
        handle_cli_args(&argv(&["tool"]), Some(" web"), None),
        Err(UsageError::InvalidMode(" web".to_string()))
    );
}

#[test]
fn run_mode_classification_is_exact() {
    assert_eq!(classify_run_mode("web"), Some(RunMode::Web));
    assert_eq!(classify_run_mode("desktop"), Some(RunMode::Desktop));
    assert_eq!(classify_run_mode("WEB"), None);
    assert_eq!(classify_run_mode("webs"), None);
    assert_eq!(classify_run_mode(""), None);
}

#[test]
fn port_selection_agrees_with_the_standard_parser() {
    let corpus = [
        "", "0", "1", "80", "3000", "65535", "65536", "99999", "+1", "+65535", "+65536", "++1",
        "-0", "-1", "+-1", "1+", "12a", "a12", " 1", "1 ", "١٢", "0000", "00065535", "000655350",
        "4294967296", "18446744073709551616", "+", "-", "1.0", "1e3",
    ];
    for text in corpus {
        assert_eq!(
            select_port(Some(text)),
            text.parse::<u16>().unwrap_or(3000),
            "port text {:?}",
            text
        );
    }
    assert_eq!(select_port(None), 3000);
}

#[test]
fn argument_dispatch_alone() {
    assert_eq!(dispatch_arguments(&argv(&["tool"])), Ok(OperatingMode::Desktop));
    assert_eq!(dispatch_arguments(&argv(&["tool", "-v"])), Ok(OperatingMode::Version));
    assert_eq!(dispatch_arguments(&argv(&["tool", "a", "b"])), Err(UsageError::InvalidArguments));
}

#[test]
fn variable_names() {
    assert_eq!(MODE_VARIABLE, "CUNZHI_MODE");
    assert_eq!(PORT_VARIABLE, "CUNZHI_WEB_PORT");
}

#[test]
fn headless_only_when_enabled_and_window_hidden() {
    assert_eq!(handle_mcp_request(Some(&telegram(true, true))), RequestHandling::Headless);
    assert_eq!(handle_mcp_request(Some(&telegram(true, false))), RequestHandling::Windowed);
    assert_eq!(handle_mcp_request(Some(&telegram(false, true))), RequestHandling::Windowed);
    assert_eq!(handle_mcp_request(Some(&telegram(false, false))), RequestHandling::Windowed);
}

#[test]
fn failed_load_falls_back_to_the_window() {
    assert_eq!(handle_mcp_request(None), RequestHandling::Windowed);
}

#[test]
fn override_is_classified_from_its_lower_case_form() {
    assert_eq!(classify_override("WEB", "web"), EnvOverride::Mode(RunMode::Web));
    assert_eq!(classify_override("Desktop", "desktop"), EnvOverride::Mode(RunMode::Desktop));
    assert_eq!(classify_override("Bogus", "bogus"), EnvOverride::Invalid("Bogus".to_string()));
    assert_eq!(classify_override("web", "WEB"), EnvOverride::Invalid("web".to_string()));
}

#[test]
fn reading_the_override() {
    assert_eq!(read_override(None), EnvOverride::Absent);
    assert_eq!(read_override(Some("wEB")), EnvOverride::Mode(RunMode::Web));
    assert_eq!(read_override(Some("DeskTop")), EnvOverride::Mode(RunMode::Desktop));
    assert_eq!(read_override(Some("Server")), EnvOverride::Invalid("Server".to_string()));
}

#[test]
fn dispatch_on_a_classified_override() {
    let args = argv(&["tool", "--version"]);
    assert_eq!(dispatch(&args, EnvOverride::Absent, Some("9")), Ok(OperatingMode::Version));
    assert_eq!(
        dispatch(&args, EnvOverride::Mode(RunMode::Desktop), Some("9")),
        Ok(OperatingMode::Version)
    );
    assert_eq!(
        dispatch(&args, EnvOverride::Mode(RunMode::Web), Some("9")),
        Ok(OperatingMode::Server(9))
    );
    assert_eq!(
        dispatch(&args, EnvOverride::Invalid("x".to_string()), Some("9")),
        Err(UsageError::InvalidMode("x".to_string()))
    );
}

#[test]
fn failed_run_ends_the_process_with_status_1() {
    assert_eq!(exit_after_run(true), Some(1));
    assert_eq!(exit_after_run(false), None);
}
