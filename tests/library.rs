use quote::ToTokens;
use cargo_expand::cmdline::{apply_args, decimal_string, Args, Line};
use cargo_expand::color::{get_color, resolve_theme, use_color, Coloring};
use cargo_expand::diag::{forward_lines, ignore_cargo_err};
use cargo_expand::pipeline::{
    edition_flag, expansion_failure, first_format_edition, missing_item_message, next_format_step,
    plan_format, selector_text, which_rustfmt, Edition, FormatOutcome, FormatPlan, FormatStep,
};
use cargo_expand::placeholder::{protect_crate_token, restore_crate_token};
use cargo_expand::probe::{
    after_nightly_check, after_version, definitely_not_nightly, exit_code_of, maybe_nightly,
    nightly_args, start_probe, ProbeStep,
};
use cargo_expand::select::{entry_matches, parse_selector, select_items, ItemEntry};
use cargo_expand::text::{text_contains, text_eq, text_is_blank, text_starts_with};

fn strings(v: &[&str]) -> Vec<String> {
    v.iter().map(|s| s.to_string()).collect()
}

fn plain_args() -> Args {
    Args {
        tests: false,
        test: None,
        release: false,
        features: None,
        all_features: false,
        no_default_features: false,
        lib: false,
        bin: None,
        example: None,
        bench: None,
        target: None,
        target_dir: None,
        manifest_path: None,
        package: None,
        jobs: None,
        verbose: false,
        color: None,
        frozen: false,
        locked: false,
        unstable_flags: Vec::new(),
        item: None,
        theme: None,
        ugly: false,
        themes: false,
    }
}

fn entry(modules: &[&str], name: Option<&str>) -> ItemEntry {
    ItemEntry { modules: strings(modules), name: name.map(|n| n.to_string()) }
}

#[test]
fn blank_lines_are_dropped() {
    assert!(ignore_cargo_err(""));
    assert!(ignore_cargo_err("   \n"));
    assert!(ignore_cargo_err("\t\r\n"));
}

#[test]
fn each_noise_marker_is_dropped() {
    let lines = [
        "warning: ignoring specified output filename because multiple outputs were requested\n",
        "warning: ignoring specified output filename for 'link' output because multiple outputs were requested\n",
        "warning: ignoring --out-dir flag due to -o flag\n",
        "warning: ignoring -C extra-filename flag due to -o flag\n",
        "warning: due to multiple output types requested, the explicitly specified output file name will be adapted for each output type\n",
        "warning: 1 warning emitted\n",
        "warning: 3 warnings emitted\n",
        "warning: `demo` (lib) generated 2 warnings\n",
    ];
    for line in lines.iter() {
        assert!(ignore_cargo_err(line), "{}", line);
    }
}

#[test]
fn real_diagnostics_are_kept() {
    assert!(!ignore_cargo_err("error[E0425]: cannot find value `x` in this scope\n"));
    assert!(!ignore_cargo_err("   Compiling demo v0.1.0\n"));
    assert!(!ignore_cargo_err("warning emitte"));
}

#[test]
fn forwarded_lines_keep_their_order() {
    let lines = strings(&[
        "   Compiling demo v0.1.0\n",
        "\n",
        "warning: 2 warnings emitted\n",
        "error: something broke\n",
        "warning: ignoring --out-dir flag due to -o flag\n",
        "note: see above\n",
    ]);
    let kept = forward_lines(&lines);
    assert_eq!(kept, strings(&["   Compiling demo v0.1.0\n", "error: something broke\n", "note: see above\n"]));
}

#[test]
fn forwarding_nothing_gives_nothing() {
    assert!(forward_lines(&Vec::new()).is_empty());
}

#[test]
fn plain_command_line() {
    let line = apply_args(&plain_args(), Coloring::Never, true, "/tmp/out/expanded");
    assert_eq!(line.bin, "cargo");
    assert_eq!(
        line.args,
        strings(&[
            "rustc",
            "--profile=check",
            "--color",
            "never",
            "--",
            "-o",
            "/tmp/out/expanded",
            "-Zunpretty=expanded",
        ])
    );
}

#[test]
fn full_command_line_in_fixed_order() {
    let mut a = plain_args();
    a.tests = true;
    a.release = true;
    a.features = Some("foo bar".to_string());
    a.all_features = true;
    a.no_default_features = true;
    a.lib = true;
    a.bin = Some("b".to_string());
    a.example = Some("e".to_string());
    a.bench = Some("be".to_string());
    a.target = Some("x86_64-unknown-linux-gnu".to_string());
    a.target_dir = Some("tgt".to_string());
    a.manifest_path = Some("Cargo.toml".to_string());
    a.package = Some("p".to_string());
    a.jobs = Some(12);
    a.verbose = true;
    a.frozen = true;
    a.locked = true;
    a.unstable_flags = strings(&["build-std", "macro-backtrace"]);
    let line = apply_args(&a, Coloring::Always, false, "out");
    assert_eq!(
        line.args,
        strings(&[
            "rustc",
            "--profile=test",
            "--release",
            "--features",
            "foo bar",
            "--all-features",
            "--no-default-features",
            "--lib",
            "--bin",
            "b",
            "--example",
            "e",
            "--bench",
            "be",
            "--target",
            "x86_64-unknown-linux-gnu",
            "--target-dir",
            "tgt",
            "--manifest-path",
            "Cargo.toml",
            "--package",
            "p",
            "--jobs",
            "12",
            "--verbose",
            "--color",
            "always",
            "--frozen",
            "--locked",
            "-Z",
            "build-std",
            "-Z",
            "macro-backtrace",
            "--",
            "-o",
            "out",
            "-Zunpretty=expanded",
        ])
    );
}

#[test]
fn named_test_uses_check_profile() {
    let mut a = plain_args();
    a.tests = true;
    a.test = Some("t".to_string());
    let line = apply_args(&a, Coloring::Never, false, "o");
    assert_eq!(&line.args[..4], &strings(&["rustc", "--profile=check", "--test", "t"])[..]);
}

#[test]
fn auto_color_follows_the_terminal() {
    let a = plain_args();
    let on = apply_args(&a, Coloring::Auto, true, "o");
    let off = apply_args(&a, Coloring::Auto, false, "o");
    assert_eq!(on.args[2..4], strings(&["--color", "always"])[..]);
    assert_eq!(off.args[2..4], strings(&["--color", "never"])[..]);
}

#[test]
fn same_inputs_same_command() {
    let mut a = plain_args();
    a.jobs = Some(3);
    a.unstable_flags = strings(&["x"]);
    let first = apply_args(&a, Coloring::Auto, true, "o");
    let second = apply_args(&a, Coloring::Auto, true, "o");
    assert_eq!(first.bin, second.bin);
    assert_eq!(first.args, second.args);
}

#[test]
fn decimal_numbers() {
    assert_eq!(decimal_string(0), "0");
    assert_eq!(decimal_string(7), "7");
    assert_eq!(decimal_string(10), "10");
    assert_eq!(decimal_string(907), "907");
    assert_eq!(decimal_string(u64::MAX), u64::MAX.to_string());
}

#[test]
fn line_insert_places_argument() {
    let mut line = Line::new("cargo");
    line.arg("rustc");
    line.arg("--lib");
    line.insert(0, "+nightly");
    assert_eq!(line.args, strings(&["+nightly", "rustc", "--lib"]));
}

#[test]
fn coloring_names() {
    assert_eq!(Coloring::parse("auto"), Some(Coloring::Auto));
    assert_eq!(Coloring::parse("always"), Some(Coloring::Always));
    assert_eq!(Coloring::parse("never"), Some(Coloring::Never));
    assert_eq!(Coloring::parse("Always"), None);
    assert_eq!(Coloring::parse(""), None);
    assert_eq!(Coloring::Always.as_str(), "always");
}

#[test]
fn color_policy_precedence() {
    assert_eq!(get_color(Some(Coloring::Never), Some("always")), (Coloring::Never, false));
    assert_eq!(get_color(None, Some("always")), (Coloring::Always, false));
    assert_eq!(get_color(None, Some("sometimes")), (Coloring::Auto, true));
    assert_eq!(get_color(None, None), (Coloring::Auto, false));
}

#[test]
fn highlighting_decision() {
    assert!(use_color(Coloring::Always, Some("none"), false));
    assert!(!use_color(Coloring::Never, None, true));
    assert!(use_color(Coloring::Auto, None, true));
    assert!(use_color(Coloring::Auto, Some("GitHub"), true));
    assert!(!use_color(Coloring::Auto, Some("none"), true));
    assert!(!use_color(Coloring::Auto, None, false));
}

#[test]
fn theme_precedence() {
    assert_eq!(resolve_theme(Some("a".to_string()), Some("b".to_string())), Some("a".to_string()));
    assert_eq!(resolve_theme(None, Some("b".to_string())), Some("b".to_string()));
    assert_eq!(resolve_theme(None, None), None);
}

#[test]
fn formatter_override() {
    assert_eq!(which_rustfmt(Some("/bin/fmt".to_string()), Some("/x".to_string())), Some("/bin/fmt".to_string()));
    assert_eq!(which_rustfmt(Some(String::new()), Some("/x".to_string())), None);
    assert_eq!(which_rustfmt(None, Some("/x".to_string())), Some("/x".to_string()));
    assert_eq!(which_rustfmt(None, None), None);
}

#[test]
fn format_plans() {
    assert!(matches!(plan_format(true, true, Some("f".to_string())), FormatPlan::RefuseUgly));
    assert!(matches!(plan_format(true, false, None), FormatPlan::RefuseNoFormatter));
    assert!(matches!(plan_format(true, false, Some("f".to_string())), FormatPlan::Format(ref f) if f == "f"));
    assert!(matches!(plan_format(false, true, None), FormatPlan::Raw));
    assert!(matches!(plan_format(false, false, Some("f".to_string())), FormatPlan::Format(ref f) if f == "f"));
}

#[test]
fn raw_text_without_formatter_or_selector() {
    // No selector and no formatter: the expansion is shown as it is.
    let raw = "fn a(){}fn b(){}";
    assert!(matches!(plan_format(false, false, None), FormatPlan::Raw));
    assert_eq!(expansion_failure(0, true, raw), None);
}

#[test]
fn selector_keeps_only_the_named_item() {
    let entries = vec![entry(&[], Some("a")), entry(&[], Some("b"))];
    assert_eq!(select_items(&entries, &strings(&["b"])), vec![1]);
    assert_eq!(select_items(&entries, &strings(&["a"])), vec![0]);
}

#[test]
fn absent_item_is_reported() {
    let entries = vec![entry(&[], Some("a")), entry(&[], Some("b"))];
    let selector = strings(&["c"]);
    assert!(select_items(&entries, &selector).is_empty());
    let message = missing_item_message(&selector);
    assert_eq!(message, "WARNING: no such item: c");
}

#[test]
fn empty_expansion_fails() {
    assert_eq!(expansion_failure(0, true, ""), Some(1));
    assert_eq!(expansion_failure(101, true, ""), Some(101));
    assert_eq!(expansion_failure(0, false, ""), Some(1));
    assert_eq!(expansion_failure(101, true, "fn a(){}"), None);
}

#[test]
fn selection_matches_by_suffix() {
    let entries = vec![
        entry(&[], Some("f")),
        entry(&["m"], Some("f")),
        entry(&["m", "n"], Some("f")),
        entry(&["k"], Some("f")),
        entry(&["m"], None),
        entry(&[], Some("m")),
    ];
    assert_eq!(select_items(&entries, &strings(&["f"])), vec![0, 1, 2, 3]);
    assert_eq!(select_items(&entries, &strings(&["m", "f"])), vec![0, 1]);
    assert_eq!(select_items(&entries, &strings(&["m", "n", "f"])), vec![0, 2]);
    assert_eq!(select_items(&entries, &strings(&["outer", "m", "f"])), vec![0, 1]);
    assert_eq!(select_items(&entries, &strings(&["m"])), vec![5]);
    assert!(select_items(&entries, &Vec::new()).is_empty());
}

#[test]
fn single_entry_matching() {
    assert!(entry_matches(&entry(&["a", "b"], Some("c")), &strings(&["b", "c"])));
    assert!(!entry_matches(&entry(&["a", "b"], Some("c")), &strings(&["a", "c"])));
    assert!(!entry_matches(&entry(&["a"], None), &strings(&["c"])));
}

#[test]
fn selector_is_written_with_path_separators() {
    assert_eq!(selector_text(&strings(&["a", "b", "c"])), "a::b::c");
    assert_eq!(selector_text(&strings(&["x"])), "x");
    assert_eq!(selector_text(&Vec::new()), "");
}

#[test]
fn crate_token_is_protected_and_restored() {
    let text = "let x = $crate::a(); $crate::b!(); $cratex";
    let protected = protect_crate_token(text);
    assert_eq!(protected, "let x = Ξcrate::a(); Ξcrate::b!(); Ξcratex");
    assert!(!protected.contains("$crate"));
    assert_eq!(protected.chars().count(), text.chars().count());
    assert_eq!(restore_crate_token(&protected), text);
}

#[test]
fn text_without_crate_token_is_unchanged() {
    assert_eq!(protect_crate_token("fn a(){}"), "fn a(){}");
    assert_eq!(restore_crate_token(""), "");
}

#[test]
fn formatter_retries_once_under_the_other_edition() {
    let first = first_format_edition();
    assert_eq!(first, Edition::E2018);
    assert_eq!(edition_flag(first), "--edition=2018");
    let step = next_format_step(first, FormatOutcome::Rejected);
    assert_eq!(step, FormatStep::Run(Edition::E2015));
    assert_eq!(edition_flag(Edition::E2015), "--edition=2015");
    assert_eq!(next_format_step(Edition::E2015, FormatOutcome::Accepted), FormatStep::Done);
    assert_eq!(next_format_step(Edition::E2015, FormatOutcome::Rejected), FormatStep::Done);
    assert_eq!(next_format_step(Edition::E2018, FormatOutcome::Accepted), FormatStep::Done);
    assert_eq!(next_format_step(Edition::E2018, FormatOutcome::NotRun), FormatStep::Done);
}

#[test]
fn version_reports() {
    assert!(definitely_not_nightly(Some("cargo 1.70.0 (ec8a8a0ca 2023-04-25)\n")));
    assert!(!definitely_not_nightly(Some("cargo 1.72.0-nightly (0c14026aa 2023-06-14)\n")));
    assert!(!definitely_not_nightly(Some("cargo 2.0.0\n")));
    assert!(!definitely_not_nightly(None));
    assert!(maybe_nightly(None));
    assert!(!maybe_nightly(Some("cargo 1.70.0\n")));
}

#[test]
fn probe_steps() {
    assert_eq!(start_probe(true), ProbeStep::RunDirectly);
    assert_eq!(start_probe(false), ProbeStep::CheckVersion);
    assert_eq!(after_version(Some("cargo 1.70.0")), ProbeStep::CheckNightly);
    assert_eq!(after_version(Some("cargo 1.72.0-nightly")), ProbeStep::RunDirectly);
    assert_eq!(after_version(None), ProbeStep::RunDirectly);
    assert_eq!(after_nightly_check(true), ProbeStep::Reinvoke);
    assert_eq!(after_nightly_check(false), ProbeStep::RunDirectly);
}

#[test]
fn nightly_rerun_arguments() {
    assert_eq!(
        nightly_args(&strings(&["cargo-expand", "expand", "--lib", "x"])),
        strings(&["+nightly", "expand", "--lib", "x"])
    );
    assert_eq!(nightly_args(&strings(&["cargo-expand", "--lib"])), strings(&["+nightly", "expand", "--lib"]));
    assert_eq!(nightly_args(&strings(&["cargo-expand"])), strings(&["+nightly", "expand"]));
}

#[test]
fn child_exit_codes() {
    assert_eq!(exit_code_of(Some(3), false), 3);
    assert_eq!(exit_code_of(None, true), 0);
    assert_eq!(exit_code_of(None, false), 1);
}

#[test]
fn text_helpers() {
    assert!(text_contains("hello world", "o w"));
    assert!(text_contains("abc", ""));
    assert!(!text_contains("ab", "abc"));
    assert!(text_starts_with("cargo 1.70", "cargo 1"));
    assert!(!text_starts_with("cargo", "cargo 1"));
    assert!(text_eq("Ξ", "Ξ"));
    assert!(!text_eq("a", "ab"));
    assert!(text_is_blank("\u{3000} \u{a0}"));
    assert!(!text_is_blank(" x "));
}

#[test]
fn selectors_split_at_path_separators() {
    assert_eq!(parse_selector("a::b::c"), strings(&["a", "b", "c"]));
    assert_eq!(parse_selector("f"), strings(&["f"]));
    assert_eq!(parse_selector(""), strings(&[""]));
    assert_eq!(parse_selector("a:::b"), strings(&["a", ":b"]));
    assert_eq!(parse_selector("::a"), strings(&["", "a"]));
    for s in ["a::b::c", "f", "", "a:::b", "::a", "x::"].iter() {
        assert_eq!(parse_selector(s), s.split("::").map(str::to_owned).collect::<Vec<_>>());
    }
}

#[test]
fn printed_tree_parses_back_to_the_same_tree() {
    let first = syn::parse_file("fn a(){}fn b(){} mod m { struct S; }").unwrap();
    let printed = first.to_token_stream().to_string();
    let second = syn::parse_file(&printed).unwrap();
    assert_eq!(second.items.len(), 3);
    assert_eq!(second.to_token_stream().to_string(), printed);
}

#[test]
fn command_is_shown_with_quotes_around_spaced_arguments() {
    let mut line = Line::new("cargo");
    line.arg("rustc");
    line.arg("--features");
    line.arg("a b");
    line.insert(0, "+nightly");
    assert_eq!(line.render(), "cargo +nightly rustc --features 'a b'");
    assert_eq!(Line::new("cargo").render(), "cargo");
}
