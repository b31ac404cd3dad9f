use webapps::paths::{desktop_filepath, extension, file_name, icons_location, join_path};

#[test]
fn join_puts_one_separator_between() {
    assert_eq!(join_path("/home/u", "x"), "/home/u/x");
    assert_eq!(join_path("/home/u/", "x"), "/home/u/x");
}

#[test]
fn join_keeps_an_absolute_part() {
    assert_eq!(join_path("/home/u", "/etc/x"), "/etc/x");
}

#[test]
fn join_onto_nothing_adds_no_separator() {
    assert_eq!(join_path("", ".local/share"), ".local/share");
}

#[test]
fn join_with_nothing_ends_in_a_separator() {
    assert_eq!(join_path("/home/u", ""), "/home/u/");
}

#[test]
fn desktop_filepath_is_below_applications() {
    assert_eq!(
        desktop_filepath("/home/u", "webapp-Mail1234.desktop"),
        "/home/u/.local/share/applications/webapp-Mail1234.desktop"
    );
}

#[test]
fn desktop_filepath_of_nothing_is_the_directory() {
    assert_eq!(desktop_filepath("/home/u", ""), "/home/u/.local/share/applications/");
}

#[test]
fn icons_location_depends_on_the_packaging() {
    assert_eq!(icons_location("/home/u", false), "/home/u/.local/share/icons");
    assert_eq!(
        icons_location("/home/u", true),
        "/home/u/.var/app/io.github.elevenhsoft.WebApps/data/icons"
    );
}

#[test]
fn extension_follows_the_last_dot_of_the_file_name() {
    assert_eq!(extension("/a/b/icon.svg"), Some("svg".to_string()));
    assert_eq!(extension("/a/b/icon.tar.gz"), Some("gz".to_string()));
    assert_eq!(extension("/a.b/icon"), None);
    assert_eq!(extension("/a/.hidden"), None);
    assert_eq!(extension("/a/..svg"), Some("svg".to_string()));
    assert_eq!(extension("/a/icon."), Some("".to_string()));
    assert_eq!(extension(""), None);
    assert_eq!(extension("/a/.."), None);
}

#[test]
fn extension_agrees_with_the_standard_library() {
    let paths = [
        "", "/", ".", "..", "a", "a.b", ".a", "..a", "a.", "a/", "a.svg/", "a.svg/.", "a.svg/..",
        "./a.png", "/x/y.z/w", "/x//y.svg//", "a.b.c", "/x/./.", "x/.y.z", "...", "a/...",
    ];
    for p in paths {
        let expected = std::path::Path::new(p)
            .extension()
            .map(|e| e.to_str().unwrap().to_string());
        assert_eq!(extension(p), expected, "extension of {:?}", p);
        let name = std::path::Path::new(p)
            .file_name()
            .map(|e| e.to_str().unwrap().to_string());
        assert_eq!(file_name(p), name, "file name of {:?}", p);
    }
}

#[test]
fn join_agrees_with_the_standard_library() {
    let bases = ["", "/", "/home/u", "/home/u/", "rel", "rel/"];
    let parts = ["", "x", "/x", "x/y", ".local/share", "/"];
    for b in bases {
        for p in parts {
            let expected = std::path::Path::new(b).join(p).to_str().unwrap().to_string();
            assert_eq!(join_path(b, p), expected, "join of {:?} and {:?}", b, p);
        }
    }
}

#[test]
fn paths_agree_with_the_standard_library_on_many_texts() {
    let mut state: u64 = 3;
    let mut next = move || {
        state = state.wrapping_mul(6364136223846793005).wrapping_add(1442695040888963407);
        state >> 33
    };
    let alphabet = ['a', '.', '/', 'b'];
    for _ in 0..5000 {
        let len = next() % 9;
        let p: String = (0..len).map(|_| alphabet[(next() % 4) as usize]).collect();
        let len = next() % 5;
        let q: String = (0..len).map(|_| alphabet[(next() % 4) as usize]).collect();
        let path = std::path::Path::new(&p);
        let expected = path.extension().map(|e| e.to_str().unwrap().to_string());
        assert_eq!(extension(&p), expected, "extension of {:?}", p);
        let expected = path.file_name().map(|e| e.to_str().unwrap().to_string());
        assert_eq!(file_name(&p), expected, "file name of {:?}", p);
        let expected = path.join(&q).to_str().unwrap().to_string();
        assert_eq!(join_path(&p, &q), expected, "join of {:?} and {:?}", p, q);
    }
}
