use keylime_agent::measurements::filter_measurements_by_path;

fn reference(measurements: &str, paths: &[&str]) -> String {
    let filtered: Vec<&str> = measurements
        .lines()
        .filter(|line| paths.iter().any(|path| line.contains(path)))
        .collect();
    filtered.join("\n")
}

const LIST: &str = "10 aa ima-ng sha256:00 /usr/bin/bash\n10 bb ima-ng sha256:11 /etc/passwd\n10 cc ima-ng sha256:22 /usr/bin/ls\n";

#[test]
fn lines_with_a_path_are_kept() {
    assert_eq!(
        filter_measurements_by_path(LIST, &["/usr/bin/"]),
        "10 aa ima-ng sha256:00 /usr/bin/bash\n10 cc ima-ng sha256:22 /usr/bin/ls"
    );
    assert_eq!(
        filter_measurements_by_path(LIST, &["/etc/", "/usr/bin/ls"]),
        "10 bb ima-ng sha256:11 /etc/passwd\n10 cc ima-ng sha256:22 /usr/bin/ls"
    );
    assert_eq!(filter_measurements_by_path(LIST, &["/opt"]), "");
}

#[test]
fn no_paths_keep_nothing() {
    assert_eq!(filter_measurements_by_path(LIST, &[]), "");
}

#[test]
fn the_empty_path_keeps_every_line() {
    assert_eq!(filter_measurements_by_path(LIST, &[""]), LIST.trim_end());
}

#[test]
fn line_ends_are_those_of_the_standard_library() {
    let texts = [
        "", "\n", "\r\n", "\r", "a", "a\n", "a\r\n", "a\r", "a\r\r\n", "a\n\nb", "\n\n", "a\r\nb\rc\n", "é\naé\n",
    ];
    for text in texts {
        for paths in [&[][..], &[""], &["a"], &["b", "c"], &["\r"], &["é"], &["aé"], &["\n"]] {
            assert_eq!(
                filter_measurements_by_path(text, paths),
                reference(text, paths),
                "{text:?} {paths:?}"
            );
        }
    }
}

#[test]
fn kept_lines_are_read_back() {
    let once = filter_measurements_by_path(LIST, &["/usr/bin/"]);
    assert_eq!(once.lines().count(), 2);
    assert_eq!(filter_measurements_by_path(&once, &["/usr/bin/"]), once);
}
