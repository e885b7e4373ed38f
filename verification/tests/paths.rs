use gnirehtet_gui::adb_client::{
    adb_path_from_env, apk_search_candidates, default_apk_path, join_path_str,
};
use gnirehtet_gui::session::gnirehtet_path_from_env;

#[test]
fn env_values_win_over_defaults() {
    assert_eq!(adb_path_from_env(None), "adb");
    assert_eq!(adb_path_from_env(Some("/opt/pt/adb")), "/opt/pt/adb");
    assert_eq!(gnirehtet_path_from_env(None), "gnirehtet");
    assert_eq!(gnirehtet_path_from_env(Some("/x/gnirehtet")), "/x/gnirehtet");
}

#[test]
fn join_inserts_one_separator() {
    assert_eq!(join_path_str("/a", "b.apk"), "/a/b.apk");
    assert_eq!(join_path_str("/a/", "b.apk"), "/a/b.apk");
    assert_eq!(join_path_str("", "b.apk"), "b.apk");
}

#[test]
fn apk_candidates_in_order() {
    let c = apk_search_candidates(Some("/work"), Some("/app/bin"));
    assert_eq!(
        c,
        vec![
            "resources/gnirehtet.apk",
            "gnirehtet.apk",
            "/work/resources/gnirehtet.apk",
            "/work/gnirehtet.apk",
            "/app/bin/resources/gnirehtet.apk",
            "/app/bin/../resources/gnirehtet.apk",
            "/app/bin/../../resources/gnirehtet.apk",
            "/app/bin/../../../resources/gnirehtet.apk",
            "/app/bin/../../../../resources/gnirehtet.apk",
        ]
    );
    assert_eq!(apk_search_candidates(None, None).len(), 2);
}

#[test]
fn default_apk_prefers_env_then_first_present() {
    let c = apk_search_candidates(Some("/w"), None);
    assert_eq!(default_apk_path(Some("/env.apk"), &c, &vec![true, true, true, true]), "/env.apk");
    assert_eq!(default_apk_path(None, &c, &vec![false, false, true, true]), "/w/resources/gnirehtet.apk");
    assert_eq!(default_apk_path(None, &c, &vec![false, false, false, false]), "gnirehtet.apk");
}
