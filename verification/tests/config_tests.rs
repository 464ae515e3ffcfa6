use minigrep::run_search;
use minigrep::Config;

fn args_of(parts: &[&str]) -> Vec<String> {
    parts.iter().map(|p| String::from(*p)).collect()
}

#[test]
fn too_few_arguments_are_rejected() {
    let r = Config::new(args_of(&["minigrep", "query"]), false, false, false);
    assert_eq!(Err("not enough arguments provided"), r.map(|_| ()));
}

#[test]
fn unrecognized_option_is_rejected() {
    let r = Config::new(
        args_of(&["minigrep", "--frumious", "query", "poem.txt"]),
        false,
        false,
        false,
    );
    assert_eq!(Err("unrecognized argument"), r.map(|_| ()));
}

#[test]
fn plain_arguments_build_a_config() {
    let cfg = Config::new(args_of(&["minigrep", "query", "poem.txt"]), false, false, false)
        .unwrap();
    assert_eq!("query", cfg.query);
    assert_eq!("poem.txt", cfg.file_path);
    assert!(!cfg.ignore_case);
    assert!(!cfg.verbose);
    assert!(!cfg.count);
}

#[test]
fn option_flags_are_recognized() {
    let cfg = Config::new(
        args_of(&["minigrep", "-i", "--count", "query", "poem.txt"]),
        false,
        false,
        false,
    )
    .unwrap();
    assert!(cfg.ignore_case);
    assert!(cfg.count);
    assert!(!cfg.verbose);

    let cfg = Config::new(
        args_of(&["minigrep", "--ignore-case", "-v", "-c", "q", "f"]),
        false,
        false,
        false,
    )
    .unwrap();
    assert!(cfg.ignore_case);
    assert!(cfg.verbose);
    assert!(cfg.count);
}

#[test]
fn environment_defaults_carry_over() {
    let cfg = Config::new(args_of(&["minigrep", "query", "poem.txt"]), true, true, true)
        .unwrap();
    assert!(cfg.ignore_case);
    assert!(cfg.verbose);
    assert!(cfg.count);
}

#[test]
fn run_search_lists_matching_lines() {
    let cfg = Config::new(args_of(&["minigrep", "duct", "poem.txt"]), false, false, false)
        .unwrap();
    let out = run_search(&cfg, "Rust:\nsafe, fast, productive.\nPick three.\nDuct tape.");
    assert_eq!(vec!["safe, fast, productive."], out);
}

#[test]
fn run_search_ignore_case_uses_folded_matching() {
    let cfg = Config::new(
        args_of(&["minigrep", "-i", "rUsT", "poem.txt"]),
        false,
        false,
        false,
    )
    .unwrap();
    let out = run_search(&cfg, "Rust:\nsafe, fast, productive.\nPick three.\nTrust me.");
    assert_eq!(vec!["Rust:", "Trust me."], out);
}

#[test]
fn run_search_count_mode_prints_one_number() {
    let cfg = Config::new(
        args_of(&["minigrep", "-c", "-i", "rUsT", "poem.txt"]),
        false,
        false,
        false,
    )
    .unwrap();
    let out = run_search(&cfg, "Rust:\nsafe, fast, productive.\nPick three.\nTrust me.");
    assert_eq!(vec!["2"], out);
}
