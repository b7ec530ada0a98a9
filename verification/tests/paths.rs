//! The last components of paths.

use loopr::paths::file_name;

fn by_std(path: &str) -> Option<String> {
    std::path::Path::new(path).file_name().map(|n| n.to_string_lossy().to_string())
}

#[test]
fn short_paths_have_the_file_names_that_std_gives_them() {
    let mut paths = vec![String::new()];
    let mut from = 0;
    for _ in 0..7 {
        let to = paths.len();
        for i in from..to {
            for c in ['/', '.', 'a'] {
                paths.push(format!("{}{}", paths[i], c));
            }
        }
        from = to;
    }
    assert_eq!(paths.len(), 3280);
    for path in &paths {
        assert_eq!(file_name(path), by_std(path), "{:?}", path);
    }
}

#[test]
fn longer_paths_have_the_file_names_that_std_gives_them() {
    for path in ["/var/log/loopr/20260220T145132", "ü/é/ñ.txt", "a b/c d/", "C:\\x", "../..", "x/...."] {
        assert_eq!(file_name(path), by_std(path), "{:?}", path);
    }
    assert_eq!(file_name("ü/é"), Some("é".to_string()));
}
