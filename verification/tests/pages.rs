//! Pages, lists, links and paths.
use slipstream::cloud_sharing_page::{
    can_save, status_text, CloudSharingEffect, CloudSharingPageAction, CloudSharingPageView,
};
use slipstream::conversation_list::{is_marked, lists, row_project, row_title};
use slipstream::links::{
    feedback_form_url, github_issues_url, privacy_policy_url, slack_url, user_docs_url,
};
use slipstream::local_command_autocomplete::{
    autocomplete_url, file_candidates_for_context, LocalCommandAutocompleteProviderSettings,
};
use slipstream::path::{
    components_of, dedupe_paths, inside, join_path, path_is_before, same_path, sort_paths, PathStyle,
};
use slipstream::shared_session::RelayChange;
use slipstream::text_map::TextMap;
use std::path::Path;

#[test]
fn saved_relay_is_stored_and_used() {
    let mut page = CloudSharingPageView::new();
    let effects = page.handle_action(
        CloudSharingPageAction::SaveRelayUrl,
        " ws://127.0.0.1:8788 ",
    );
    assert!(effects.contains(&CloudSharingEffect::StoreRelay {
        value: "ws://127.0.0.1:8788".to_string()
    }));
    let effects = page.finish_save(Some("ws://127.0.0.1:8788"), None, true);
    assert!(effects.contains(&CloudSharingEffect::ApplyRelay {
        change: RelayChange::Use {
            address: "ws://127.0.0.1:8788".to_string(),
            enable_sharing: true
        }
    }));
}

#[test]
fn bad_relay_is_explained() {
    let mut page = CloudSharingPageView::new();
    let effects = page.save_relay_url("https://127.0.0.1");
    assert!(page.validation_message().is_some());
    assert!(!effects
        .iter()
        .any(|effect| matches!(effect, CloudSharingEffect::StoreRelay { .. })));
    page.handle_edit();
    assert!(page.validation_message().is_none());
    assert!(can_save("ws://127.0.0.1:8788"));
    assert_ne!(
        status_text(true, Some("ws://a"), Some("ws://a")),
        status_text(true, None, None)
    );
}

#[test]
fn rows_name_their_conversation() {
    assert_eq!(row_title("", "id-1"), "id-1");
    assert_eq!(row_title("Title", "id-1"), "Title");
    assert!(lists("Title", "id", &None, "tit"));
    assert!(!lists("Title", "id", &None, "other"));
    assert!(is_marked("a", Some("a"), None));
    assert!(is_marked("a", None, Some("a")));
    assert!(!is_marked("a", Some("b"), Some("c")));
    assert_eq!(row_project(PathStyle::Posix, &None), None);
}

#[test]
fn links_depend_on_the_product() {
    assert_ne!(user_docs_url(true), user_docs_url(false));
    assert_ne!(github_issues_url(true), github_issues_url(false));
    assert_ne!(
        feedback_form_url(true, Some("1.0"), "macOS"),
        feedback_form_url(false, Some("1.0"), "macOS")
    );
}

#[test]
fn paths_are_ordered_by_component() {
    assert_eq!(components_of(PathStyle::Posix, "/a//b/./c/"), vec!["/", "a", "b", "c"]);
    assert!(same_path(PathStyle::Posix, "/a/b/", "/a//b"));
    assert!(inside(PathStyle::Posix, "/a/b/c", "/a/b"));
    assert!(!inside(PathStyle::Posix, "/a/bc", "/a/b"));
    assert!(path_is_before(PathStyle::Posix, "/a/b", "/a-b"));
    assert_eq!(
        sort_paths(PathStyle::Posix, vec!["/b".to_string(), "/a/z".to_string(), "/a".to_string()]),
        vec!["/a", "/a/z", "/b"]
    );
    assert_eq!(join_path(PathStyle::Posix, "/a", "b"), "/a/b");
    assert_eq!(join_path(PathStyle::Posix, "/a", "/b"), "/b");
    assert_eq!(
        dedupe_paths(
            PathStyle::Posix,
            &vec!["/a".to_string(), "/a/".to_string(), "/b".to_string()],
        ),
        vec!["/a", "/b"]
    );
}

#[test]
fn entries_of_a_map_are_found() {
    let mut map = TextMap::new();
    map.insert("b".to_string(), "2".to_string());
    map.insert("a".to_string(), "1".to_string());
    map.insert("b".to_string(), "3".to_string());
    assert_eq!(map.get("b"), Some("3"));
    assert_eq!(map.get("c"), None);
    assert_eq!(map.entries().len(), 2);
    assert_eq!(map.to_json().compact(), r#"{"a":"1","b":"3"}"#);
}

#[test]
fn autocomplete_requests_carry_their_settings() {
    assert_eq!(
        autocomplete_url("http://127.0.0.1:8787/"),
        autocomplete_url("http://127.0.0.1:8787")
    );
    let settings = LocalCommandAutocompleteProviderSettings {
        openai_api_key: Some("key".to_string()),
        openai_base_url: Some("http://127.0.0.1:1234/v1".to_string()),
        local_model_aliases: None,
    };
    let headers = settings.headers();
    assert_eq!(headers.len(), 1);
    assert_eq!(headers[0].1, "http://127.0.0.1:1234/v1");
    assert_eq!(
        file_candidates_for_context(&vec!["b".to_string(), "a".to_string()]),
        vec!["b", "a"]
    );
}

#[test]
fn links_of_both_products() {
    assert_eq!(slack_url(true), "https://github.com/pixelkaiser/slipstream");
    assert_eq!(slack_url(false), "http://go.warp.dev/join-preview");
    assert_eq!(privacy_policy_url(false), "https://www.warp.dev/privacy");
    assert!(feedback_form_url(true, Some("1.0 b"), "macOS 15")
        .unwrap()
        .starts_with(
            "https://github.com/pixelkaiser/slipstream/issues/new/choose?slipstream-version=1.0+b"
        ));
}

#[test]
fn paths_compare_as_the_system_compares_them() {
    let samples = [
        "", ".", "..", "/", "//", "a", "./a", "a/.", "a/./b", "a//b", "/a/b/", "/a/./b", "./.", "a/..",
        "a\\b", "C:\\a", "/a/../b", "///a", "a/b/c", " a",
    ];
    for a in samples {
        for b in samples {
            let (left, right) = (Path::new(a), Path::new(b));
            assert_eq!(same_path(PathStyle::Posix, a, b), left == right, "{a} {b}");
            assert_eq!(inside(PathStyle::Posix, a, b), left.starts_with(right), "{a} {b}");
            assert_eq!(path_is_before(PathStyle::Posix, a, b), left < right, "{a} {b}");
            assert_eq!(
                Path::new(&join_path(PathStyle::Posix, a, b)).as_os_str(),
                left.join(right).as_os_str(),
            );
        }
    }
}

#[test]
fn windows_paths_have_prefixes() {
    let windows = PathStyle::Windows;
    assert!(same_path(windows, "C:\\work\\app", "c:/work//app/"));
    assert!(same_path(windows, "C:\\work\\.\\app", "C:\\work\\app"));
    assert!(!same_path(windows, "C:\\work", "D:\\work"));
    assert!(!same_path(windows, "C:", "C:\\"));
    assert!(!same_path(windows, "C:work", "C:\\work"));
    assert!(!same_path(windows, "C:\\Work", "C:\\work"));
    assert!(inside(windows, "C:\\work\\app", "C:/work"));
    assert!(!inside(windows, "C:\\workshop", "C:\\work"));
    assert!(same_path(windows, "\\\\server\\share\\a", "//server/share/a"));
    assert!(same_path(windows, "\\\\server\\share", "\\\\server\\share\\"));
    assert!(!same_path(windows, "\\\\server\\share\\a", "\\server\\share\\a"));
    assert!(!same_path(windows, "\\\\?\\C:\\a/b", "\\\\?\\C:\\a\\b"));
    assert!(same_path(windows, "\\\\?\\c:\\a", "\\\\?\\C:\\a"));
    assert!(!same_path(windows, "\\\\?\\C:\\.\\a", "\\\\?\\C:\\a"));
    assert!(!same_path(windows, "\\\\.\\COM1", "\\\\.\\COM2"));
    assert!(!same_path(windows, "\\\\?\\UNC\\a\\b\\c", "\\\\a\\b\\c"));
    assert_eq!(join_path(windows, "C:\\work", "app"), "C:\\work\\app");
    assert_eq!(join_path(windows, "C:\\", "app"), "C:\\app");
    assert_eq!(join_path(windows, "C:", "app"), "C:app");
    assert_eq!(join_path(windows, "C:\\work", "\\app"), "C:\\app");
    assert_eq!(join_path(windows, "C:\\work", "D:app"), "D:app");
    assert_eq!(join_path(windows, "\\\\?\\C:\\work", "..\\app/x"), "\\\\?\\C:\\app\\x");
    assert_eq!(
        sort_paths(windows, vec!["b".to_string(), "\\a".to_string(), "C:\\a".to_string()]),
        vec!["C:\\a", "\\a", "b"]
    );
    assert_eq!(
        row_project(windows, &Some("C:\\work\\app".to_string())),
        Some("app".to_string())
    );
    assert_eq!(
        dedupe_paths(windows, &vec!["C:\\a".to_string(), "c:/a/".to_string()]),
        vec!["C:\\a"]
    );
}
