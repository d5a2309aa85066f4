use zam::extensions::{extensions, find_extension};

#[test]
fn the_catalog_holds_four_bundles_in_order() {
    let all = extensions();
    let names: Vec<&str> = all.iter().map(|e| e.name).collect();
    assert_eq!(names, vec!["sysadmin", "rust", "c", "python"]);
    let counts: Vec<usize> = all.iter().map(|e| e.aliases.len()).collect();
    assert_eq!(counts, vec![20, 15, 10, 13]);
    assert_eq!(all[0].description, "Disk, network, process, and file operations");
    assert_eq!(all[1].description, "Cargo shortcuts for Rust development");
    assert_eq!(all[2].description, "C programming and build tools");
    assert_eq!(all[3].description, "Python development and virtual environments");
}

#[test]
fn the_bundles_hold_their_aliases() {
    let sysadmin = find_extension("sysadmin").unwrap();
    let pairs: Vec<(&str, &str)> = sysadmin.aliases.iter().map(|t| (t.0, t.1)).collect();
    assert_eq!(
        pairs,
        vec![
            ("dfh", "df -h"),
            ("duh", "du -h -d1"),
            ("dus", "du -sh"),
            ("mnt", "mount | column -t"),
            ("ports", "lsof -i -P -n | grep LISTEN"),
            ("myip", "curl -s ifconfig.me"),
            ("pingg", "ping -c 5 8.8.8.8"),
            ("httph", "curl -sI"),
            ("psg", "ps aux | grep -i"),
            ("psmem", "ps aux -m | head -20"),
            ("pscpu", "ps aux -r | head -20"),
            ("k9", "kill -9"),
            ("lsd", "ls -ld */"),
            ("lsz", "ls -lhS"),
            ("cpv", "cp -iv"),
            ("mvv", "mv -iv"),
            ("mkp", "mkdir -p"),
            ("rmrf", "rm -rf"),
            ("reload", "exec zsh"),
            ("path", "echo $PATH | tr : \\n"),
        ]
    );
    let rust = find_extension("rust").unwrap();
    let pairs: Vec<(&str, &str)> = rust.aliases.iter().map(|t| (t.0, t.1)).collect();
    assert_eq!(
        pairs,
        vec![
            ("cb", "cargo build"),
            ("cr", "cargo run"),
            ("ct", "cargo test"),
            ("cck", "cargo check"),
            ("ccl", "cargo clippy"),
            ("cfmt", "cargo fmt"),
            ("cdoc", "cargo doc --open"),
            ("crel", "cargo build --release"),
            ("crr", "cargo run --release"),
            ("cadd", "cargo add"),
            ("crm", "cargo remove"),
            ("cup", "cargo update"),
            ("cfix", "cargo fix --allow-dirty"),
            ("cwat", "cargo watch -x test"),
            ("cben", "cargo bench"),
        ]
    );
    let c = find_extension("c").unwrap();
    let pairs: Vec<(&str, &str)> = c.aliases.iter().map(|t| (t.0, t.1)).collect();
    assert_eq!(
        pairs,
        vec![
            ("cc99", "gcc -std=c99 -Wall -Wextra -pedantic"),
            ("cc11", "gcc -std=c11 -Wall -Wextra -pedantic"),
            ("cdbg", "gcc -g -O0 -Wall -Wextra -DDEBUG"),
            ("copt", "gcc -O2 -Wall -Wextra"),
            ("casm", "gcc -S -masm=intel"),
            ("cmk", "cmake -B build && cmake --build build"),
            ("cmkr", "cmake -B build -DCMAKE_BUILD_TYPE=Release && cmake --build build"),
            ("mkj", "make -j$(sysctl -n hw.ncpu)"),
            ("mkc", "make clean"),
            ("vg", "valgrind --leak-check=full"),
        ]
    );
    let python = find_extension("python").unwrap();
    let pairs: Vec<(&str, &str)> = python.aliases.iter().map(|t| (t.0, t.1)).collect();
    assert_eq!(
        pairs,
        vec![
            ("py", "python3"),
            ("ipy", "ipython"),
            ("pyserv", "python3 -m http.server"),
            ("pyjson", "python3 -m json.tool"),
            ("pyprof", "python3 -m cProfile -s cumtime"),
            ("venv", "python3 -m venv .venv"),
            ("va", "source .venv/bin/activate"),
            ("pipi", "pip install"),
            ("pipir", "pip install -r requirements.txt"),
            ("pipf", "pip freeze > requirements.txt"),
            ("pipu", "pip install --upgrade"),
            ("pyt", "python3 -m pytest"),
            ("pytv", "python3 -m pytest -v"),
        ]
    );
}

#[test]
fn every_alias_of_the_catalog_has_a_description() {
    for ext in extensions() {
        for (name, command, description) in ext.aliases {
            assert!(!name.is_empty());
            assert!(!command.is_empty());
            assert!(!description.is_empty());
        }
    }
    assert_eq!(find_extension("rust").unwrap().aliases[0], ("cb", "cargo build", "Build"));
}

#[test]
fn bundles_are_found_by_their_exact_name() {
    assert_eq!(find_extension("python").unwrap().name, "python");
    assert_eq!(find_extension("c").unwrap().name, "c");
    assert!(find_extension("Rust").is_none());
    assert!(find_extension("rust ").is_none());
    assert!(find_extension("").is_none());
    assert!(find_extension("go").is_none());
}
