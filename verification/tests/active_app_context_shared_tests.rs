use tambourine::active_app_context::shared::determine_focus_confidence_level;
use tambourine::active_app_context::shared::infer_browser_tab_title_from_window_title;
use tambourine::active_app_context::shared::normalize_browser_document_origin;
use tambourine::active_app_context::shared::normalize_non_empty_focus_text;
use tambourine::active_app_context::shared::normalize_origin_from_absolute_url;
use tambourine::active_app_context::shared::normalize_origin_from_scheme_less_url;
use tambourine::active_app_context::FocusConfidenceLevel;

#[test]
fn normalize_non_empty_focus_text_returns_none_for_whitespace() {
    assert_eq!(normalize_non_empty_focus_text("   \n\t"), None);
}

#[test]
fn normalize_browser_document_origin_removes_path_query_and_fragment() {
    let raw_document_url = "https://example.com/path/to/page?token=abc#section";
    let normalized_document_origin = normalize_browser_document_origin(raw_document_url);
    assert_eq!(
        normalized_document_origin.as_deref(),
        Some("https://example.com")
    );
}

#[test]
fn normalize_browser_document_origin_keeps_origin_when_path_is_missing() {
    let raw_document_url = "https://example.com?token=abc";
    let normalized_document_origin = normalize_browser_document_origin(raw_document_url);
    assert_eq!(
        normalized_document_origin.as_deref(),
        Some("https://example.com")
    );
}

#[test]
fn normalize_browser_document_origin_supports_scheme_less_browser_values() {
    let raw_document_url = "github.com/kstonekuan/tambourine-voice";
    let normalized_document_origin = normalize_browser_document_origin(raw_document_url);
    assert_eq!(
        normalized_document_origin.as_deref(),
        Some("https://github.com")
    );
}

#[test]
fn normalize_browser_document_origin_rejects_non_url_like_search_queries() {
    let raw_document_url = "how to fix rust clippy warning";
    let normalized_document_origin = normalize_browser_document_origin(raw_document_url);
    assert_eq!(normalized_document_origin, None);
}

#[test]
fn infer_browser_tab_title_from_window_title_strips_browser_suffix() {
    let focused_window_title = Some("Active App Context Plan - Google Chrome");
    let inferred_tab_title =
        infer_browser_tab_title_from_window_title(focused_window_title, "Google Chrome");
    assert_eq!(
        inferred_tab_title.as_deref(),
        Some("Active App Context Plan")
    );
}

#[test]
fn determine_focus_confidence_level_prioritizes_origin_signal() {
    assert_eq!(
        determine_focus_confidence_level(true, true, true),
        FocusConfidenceLevel::High
    );
    assert_eq!(
        determine_focus_confidence_level(true, false, false),
        FocusConfidenceLevel::Medium
    );
    assert_eq!(
        determine_focus_confidence_level(false, false, false),
        FocusConfidenceLevel::Low
    );
}

#[test]
fn normalize_non_empty_focus_text_trims_both_ends() {
    assert_eq!(
        normalize_non_empty_focus_text(" \t notes.md \u{a0}\u{3000}\n").as_deref(),
        Some("notes.md")
    );
    assert_eq!(
        normalize_non_empty_focus_text("two words").as_deref(),
        Some("two words")
    );
    assert_eq!(normalize_non_empty_focus_text(""), None);
    assert_eq!(
        normalize_non_empty_focus_text("\u{200b}x\u{200b}").as_deref(),
        Some("\u{200b}x\u{200b}")
    );
}

#[test]
fn normalize_non_empty_focus_text_agrees_with_std_trim() {
    for sample in [
        "",
        " ",
        "a",
        " a",
        "a ",
        " a b ",
        "\u{2003}caf\u{e9}\u{2028}",
        "\u{1680}\u{205f}x\u{202f}\u{85}",
        "\u{180e}x\u{feff}",
    ] {
        let expected = sample.trim();
        let expected = if expected.is_empty() {
            None
        } else {
            Some(expected.to_string())
        };
        assert_eq!(normalize_non_empty_focus_text(sample), expected);
    }
}

#[test]
fn normalize_browser_document_origin_drops_path_query_and_fragment_example() {
    assert_eq!(
        normalize_browser_document_origin("https://example.com/path?token=abc#s").as_deref(),
        Some("https://example.com")
    );
}

#[test]
fn normalize_browser_document_origin_keeps_the_port() {
    assert_eq!(
        normalize_browser_document_origin("http://localhost:3000/app#top").as_deref(),
        Some("http://localhost:3000")
    );
    assert_eq!(
        normalize_browser_document_origin("  https://example.com:8443  ").as_deref(),
        Some("https://example.com:8443")
    );
    assert_eq!(
        normalize_browser_document_origin("example.com:8080/x?y").as_deref(),
        Some("https://example.com:8080")
    );
}

#[test]
fn normalize_browser_document_origin_keeps_any_scheme() {
    assert_eq!(
        normalize_browser_document_origin("file:///Users/me/notes.md"),
        None
    );
    assert_eq!(
        normalize_browser_document_origin("chrome://settings/privacy").as_deref(),
        Some("chrome://settings")
    );
    assert_eq!(
        normalize_browser_document_origin("ftp://\u{e9}l\u{e8}ve.example#x").as_deref(),
        Some("ftp://\u{e9}l\u{e8}ve.example")
    );
}

#[test]
fn normalize_browser_document_origin_rejects_urls_without_scheme_or_authority() {
    assert_eq!(normalize_browser_document_origin("://example.com"), None);
    assert_eq!(normalize_browser_document_origin("https://"), None);
    assert_eq!(normalize_browser_document_origin("https:///path"), None);
    assert_eq!(normalize_browser_document_origin("https://?q=1"), None);
    assert_eq!(normalize_browser_document_origin("a.b://"), None);
    assert_eq!(normalize_browser_document_origin("   "), None);
}

#[test]
fn normalize_browser_document_origin_rejects_queries_with_whitespace() {
    assert_eq!(normalize_browser_document_origin("how to fix a bug"), None);
    assert_eq!(normalize_browser_document_origin("example.com docs"), None);
    assert_eq!(
        normalize_browser_document_origin("example.com\u{a0}docs"),
        None
    );
}

#[test]
fn normalize_browser_document_origin_treats_github_path_as_https() {
    assert_eq!(
        normalize_browser_document_origin("github.com/org/repo").as_deref(),
        Some("https://github.com")
    );
}

#[test]
fn normalize_origin_from_scheme_less_url_accepts_dotted_names_localhost_and_addresses() {
    assert_eq!(
        normalize_origin_from_scheme_less_url("localhost").as_deref(),
        Some("https://localhost")
    );
    assert_eq!(
        normalize_origin_from_scheme_less_url("LocalHost:5173/index.html").as_deref(),
        Some("https://LocalHost:5173")
    );
    assert_eq!(
        normalize_origin_from_scheme_less_url("192.168.0.1/admin").as_deref(),
        Some("https://192.168.0.1")
    );
    assert_eq!(
        normalize_origin_from_scheme_less_url("127.0.0.1:8000").as_deref(),
        Some("https://127.0.0.1:8000")
    );
    assert_eq!(normalize_origin_from_scheme_less_url("rust"), None);
    assert_eq!(normalize_origin_from_scheme_less_url("localhosts"), None);
    assert_eq!(normalize_origin_from_scheme_less_url("::1"), None);
    assert_eq!(normalize_origin_from_scheme_less_url("/etc/hosts"), None);
    assert_eq!(normalize_origin_from_scheme_less_url(""), None);
    assert_eq!(normalize_origin_from_scheme_less_url("rust:example.com"), None);
}

#[test]
fn normalize_origin_from_absolute_url_needs_the_separator() {
    assert_eq!(normalize_origin_from_absolute_url("example.com/path"), None);
    assert_eq!(
        normalize_origin_from_absolute_url("https://example.com/a://b").as_deref(),
        Some("https://example.com")
    );
    assert_eq!(
        normalize_origin_from_absolute_url("a://b://c").as_deref(),
        Some("a://b:")
    );
}

#[test]
fn infer_browser_tab_title_from_window_title_examples() {
    assert_eq!(
        infer_browser_tab_title_from_window_title(Some("Plan - Google Chrome"), "Google Chrome")
            .as_deref(),
        Some("Plan")
    );
    assert_eq!(
        infer_browser_tab_title_from_window_title(Some("Plan"), "Google Chrome").as_deref(),
        Some("Plan")
    );
}

#[test]
fn infer_browser_tab_title_from_window_title_handles_em_dash_and_edges() {
    assert_eq!(
        infer_browser_tab_title_from_window_title(Some("Inbox \u{2014} Firefox"), "Firefox")
            .as_deref(),
        Some("Inbox")
    );
    assert_eq!(
        infer_browser_tab_title_from_window_title(Some("  Inbox  - Firefox  "), "Firefox")
            .as_deref(),
        Some("Inbox")
    );
    assert_eq!(
        infer_browser_tab_title_from_window_title(Some("A - B - Safari"), "Safari").as_deref(),
        Some("A - B")
    );
    assert_eq!(
        infer_browser_tab_title_from_window_title(Some("Plan - Safari"), "Google Chrome")
            .as_deref(),
        Some("Plan - Safari")
    );
    assert_eq!(
        infer_browser_tab_title_from_window_title(Some("Plan-Google Chrome"), "Google Chrome")
            .as_deref(),
        Some("Plan-Google Chrome")
    );
    assert_eq!(
        infer_browser_tab_title_from_window_title(Some(" - Arc"), "Arc").as_deref(),
        Some("- Arc")
    );
    assert_eq!(
        infer_browser_tab_title_from_window_title(Some("x  - Arc"), "Arc").as_deref(),
        Some("x")
    );
    assert_eq!(
        infer_browser_tab_title_from_window_title(Some("   "), "Arc"),
        None
    );
    assert_eq!(infer_browser_tab_title_from_window_title(None, "Arc"), None);
}

#[test]
fn determine_focus_confidence_level_covers_every_combination() {
    assert_eq!(
        determine_focus_confidence_level(true, false, true),
        FocusConfidenceLevel::High
    );
    assert_eq!(
        determine_focus_confidence_level(true, true, false),
        FocusConfidenceLevel::Medium
    );
    assert_eq!(
        determine_focus_confidence_level(false, true, true),
        FocusConfidenceLevel::Medium
    );
    assert_eq!(
        determine_focus_confidence_level(false, true, false),
        FocusConfidenceLevel::Medium
    );
    assert_eq!(
        determine_focus_confidence_level(false, false, true),
        FocusConfidenceLevel::Low
    );
}

#[test]
fn normalize_browser_document_origin_ends_the_authority_at_the_path_only() {
    assert_eq!(
        normalize_browser_document_origin("https://example.com /path").as_deref(),
        Some("https://example.com ")
    );
    assert_eq!(
        normalize_browser_document_origin(" https://exa mple.com\tx#f ").as_deref(),
        Some("https://exa mple.com\tx")
    );
    assert_eq!(
        normalize_browser_document_origin("https://user@example.com:443/").as_deref(),
        Some("https://user@example.com:443")
    );
}
