use rustvil::config_files::{resolve, BaseDir, MacOSBehaviour, Platform};
use rustvil::os::{replacement_exit_code, KeyIndex, FALLBACK_EXIT_CODE};

fn owned(parts: &[&str]) -> Option<Vec<String>> {
    Some(parts.iter().map(|p| p.to_string()).collect())
}

#[test]
fn variable_wins_over_fallback() {
    let r = resolve(
        BaseDir::Config,
        Platform::Other,
        MacOSBehaviour::LinuxFallback,
        Some("/xdg".to_string()),
        None,
        Some("/home/u".to_string()),
    );
    assert_eq!(r, owned(&["/xdg"]));
}

#[test]
fn linux_fallbacks_under_home() {
    let home = Some("/home/u".to_string());
    let at = |dir| resolve(dir, Platform::Other, MacOSBehaviour::UseLibrary, None, None, home.clone());
    assert_eq!(at(BaseDir::Config), owned(&["/home/u", ".config"]));
    assert_eq!(at(BaseDir::Cache), owned(&["/home/u", ".cache"]));
    assert_eq!(at(BaseDir::Data), owned(&["/home/u", ".local", ".share"]));
    assert_eq!(at(BaseDir::State), owned(&["/home/u", ".local", ".state"]));
}

#[test]
fn macos_library_fallbacks() {
    let home = Some("/Users/u".to_string());
    let at = |dir, b| resolve(dir, Platform::MacOs, b, None, None, home.clone());
    assert_eq!(
        at(BaseDir::Config, MacOSBehaviour::UseLibrary),
        owned(&["/Users/u", "Library", "Application Support"])
    );
    assert_eq!(at(BaseDir::Cache, MacOSBehaviour::UseLibrary), owned(&["/Users/u", "Library", "Caches"]));
    assert_eq!(at(BaseDir::Config, MacOSBehaviour::LinuxFallback), owned(&["/Users/u", ".config"]));
}

#[test]
fn windows_fallbacks_under_local_app_data() {
    let lad = Some("C:\\L".to_string());
    let at = |dir| resolve(dir, Platform::Windows, MacOSBehaviour::UseLibrary, None, lad.clone(), None);
    assert_eq!(at(BaseDir::Config), owned(&["C:\\L"]));
    assert_eq!(at(BaseDir::Cache), owned(&["C:\\L", "caches"]));
    assert_eq!(resolve(BaseDir::Data, Platform::Windows, MacOSBehaviour::UseLibrary, None, None, Some("h".to_string())), None);
}

#[test]
fn missing_home_gives_none() {
    assert_eq!(
        resolve(BaseDir::State, Platform::Other, MacOSBehaviour::LinuxFallback, None, Some("x".to_string()), None),
        None
    );
}

#[test]
fn exit_code_falls_back() {
    assert_eq!(replacement_exit_code(Some(0)), 0);
    assert_eq!(replacement_exit_code(Some(42)), 42);
    assert_eq!(replacement_exit_code(None), FALLBACK_EXIT_CODE);
    assert_eq!(FALLBACK_EXIT_CODE, 1);
}

#[test]
fn key_index_ignores_case() {
    let mut index = KeyIndex::new();
    index.insert("ala");
    assert_eq!(index.lookup("aLA"), Some("ala".to_string()));
    assert_eq!(index.lookup("ALA"), Some("ala".to_string()));
    assert_eq!(index.get_normalised(&"ALA".to_string()), Some("ala".to_string()));
    assert_eq!(index.get_normalised(&"ala".to_string()), None);
    assert_eq!(index.lookup("bar"), None);
}

#[test]
fn key_index_later_spelling_wins() {
    let mut index = KeyIndex::new();
    index.insert("Path");
    index.insert("PATH");
    assert_eq!(index.lookup("path"), Some("PATH".to_string()));
    index.insert_normalised("X".to_string(), "x".to_string());
    assert_eq!(index.lookup("x"), Some("x".to_string()));
}
