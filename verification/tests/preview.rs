use bookmark_picker::preview::{entry_names, listing_script, preview_text, Listing, UNAVAILABLE};

fn names(items: &[&str]) -> Vec<String> {
    items.iter().map(|item| item.to_string()).collect()
}

#[test]
fn preview_joins_names_with_line_feeds() {
    let listing = Listing::Entries(names(&["src", "Cargo.toml", ".git"]));
    assert_eq!(preview_text(&listing), "src\nCargo.toml\n.git");
}

#[test]
fn preview_of_one_name_is_that_name() {
    assert_eq!(preview_text(&Listing::Entries(names(&["only"]))), "only");
}

#[test]
fn preview_of_no_names_is_empty() {
    assert_eq!(preview_text(&Listing::Entries(Vec::new())), "");
}

#[test]
fn preview_keeps_the_order_of_enumeration() {
    let listing = Listing::Entries(names(&["b", "a", "c", "a"]));
    assert_eq!(preview_text(&listing), "b\na\nc\na");
}

#[test]
fn unreadable_path_gives_the_placeholder() {
    assert_eq!(preview_text(&Listing::Unavailable), UNAVAILABLE);
    assert_eq!(UNAVAILABLE, "(preview unavailable)");
}

#[test]
fn output_splits_at_line_feeds() {
    assert_eq!(entry_names("a\nb\nc\n"), names(&["a", "b", "c"]));
    assert_eq!(entry_names("a\nb\nc"), names(&["a", "b", "c"]));
}

#[test]
fn output_loses_carriage_returns_before_line_feeds() {
    assert_eq!(entry_names("a\r\nb c\r\n"), names(&["a", "b c"]));
    assert_eq!(entry_names("a\r\r\nb"), names(&["a\r", "b"]));
    assert_eq!(entry_names("a\rb\n"), names(&["a\rb"]));
}

#[test]
fn output_keeps_a_carriage_return_that_ends_the_text() {
    assert_eq!(entry_names("a\r"), names(&["a\r"]));
}

#[test]
fn empty_output_has_no_names() {
    assert_eq!(entry_names(""), Vec::<String>::new());
}

#[test]
fn empty_lines_in_output_are_kept() {
    assert_eq!(entry_names("\n"), names(&[""]));
    assert_eq!(entry_names("a\n\nb"), names(&["a", "", "b"]));
    assert_eq!(entry_names("\r\n"), names(&[""]));
}

#[test]
fn output_splits_as_std_lines_does() {
    let samples = [
        "",
        "\n",
        "\r\n",
        "a",
        "a\n",
        "a\r\n",
        "a\r",
        "a\n\n",
        "\n\na",
        "one\ntwo\r\nthree",
        "é\nü\r\n",
        "a\r\r\n\rb\n",
    ];
    for sample in samples {
        let expected: Vec<String> = sample.lines().map(|line| line.to_string()).collect();
        assert_eq!(entry_names(sample), expected);
    }
}

#[test]
fn listing_from_output_holds_one_name_per_line() {
    let listing = Listing::from_output(Some(String::from("docs\r\nsrc\r\n")), None);
    assert_eq!(listing, Listing::Entries(names(&["docs", "src"])));
    assert_eq!(preview_text(&listing), "docs\nsrc");
}

#[test]
fn listing_from_no_output_is_empty() {
    assert_eq!(Listing::from_output(None, None), Listing::Entries(Vec::new()));
    assert_eq!(Listing::from_output(None, Some(String::new())), Listing::Entries(Vec::new()));
}

#[test]
fn listing_from_a_run_that_printed_only_errors_is_unavailable() {
    let errors = || Some(String::from("ls: Cannot find path 'C:\\nowhere'"));
    assert_eq!(Listing::from_output(None, errors()), Listing::Unavailable);
    assert_eq!(Listing::from_output(Some(String::new()), errors()), Listing::Unavailable);
    assert_eq!(Listing::from_output(None, Some(String::from(" "))), Listing::Unavailable);
    assert_eq!(preview_text(&Listing::from_output(None, errors())), UNAVAILABLE);
}

#[test]
fn listing_from_a_run_that_printed_names_holds_them_whatever_it_reported() {
    let errors = Some(String::from("Preparing modules for first use."));
    let listing = Listing::from_output(Some(String::from("a\nb\n")), errors);
    assert_eq!(listing, Listing::Entries(names(&["a", "b"])));
    let listing = Listing::from_output(Some(String::from("a\nb\n")), Some(String::new()));
    assert_eq!(listing, Listing::Entries(names(&["a", "b"])));
}

fn script(path: &str) -> Option<String> {
    listing_script(path)
}

fn some(text: &str) -> Option<String> {
    Some(text.to_string())
}

/// Reads the body of a single-quoted string as PowerShell does: two single
/// quotes in a row stand for the second of them, and one alone ends the
/// string.
fn read_single_quoted(body: &str) -> Option<String> {
    let is_quote = |c: char| matches!(c, '\'' | '\u{2018}' | '\u{2019}' | '\u{201A}' | '\u{201B}');
    let mut read = String::new();
    let mut chars = body.chars();
    while let Some(c) = chars.next() {
        if is_quote(c) {
            match chars.next() {
                Some(next) if is_quote(next) => read.push(next),
                _ => return None,
            }
        } else {
            read.push(c);
        }
    }
    Some(read)
}

#[test]
fn script_puts_the_path_between_single_quotes() {
    assert_eq!(script("C:/Users"), some("ls -Name -Force -LiteralPath 'C:/Users'"));
    assert_eq!(script(""), some("ls -Name -Force -LiteralPath ''"));
    assert_eq!(script("a b"), some("ls -Name -Force -LiteralPath 'a b'"));
}

#[test]
fn script_leaves_double_quotes_inside_the_literal() {
    assert_eq!(script("a\"; calc; \""), some("ls -Name -Force -LiteralPath 'a\"; calc; \"'"));
    assert_eq!(script("\""), some("ls -Name -Force -LiteralPath '\"'"));
}

#[test]
fn script_doubles_single_quotes() {
    assert_eq!(script("it's"), some("ls -Name -Force -LiteralPath 'it''s'"));
    assert_eq!(script("'"), some("ls -Name -Force -LiteralPath ''''"));
    assert_eq!(script("a'; calc; '"), some("ls -Name -Force -LiteralPath 'a''; calc; '''"));
    assert_eq!(script("''"), some("ls -Name -Force -LiteralPath ''''''"));
}

#[test]
fn script_doubles_typographic_single_quotes() {
    assert_eq!(
        script("a\u{2018}b\u{2019}c\u{201A}d\u{201B}e"),
        some(
            "ls -Name -Force -LiteralPath \
             'a\u{2018}\u{2018}b\u{2019}\u{2019}c\u{201A}\u{201A}d\u{201B}\u{201B}e'"
        )
    );
    assert_eq!(
        script("\u{201C}x\u{201D}"),
        some("ls -Name -Force -LiteralPath '\u{201C}x\u{201D}'")
    );
}

#[test]
fn script_leaves_dollars_and_backticks_inside_the_literal() {
    assert_eq!(script("C:/$Recycle.Bin"), some("ls -Name -Force -LiteralPath 'C:/$Recycle.Bin'"));
    assert_eq!(script("$(calc)"), some("ls -Name -Force -LiteralPath '$(calc)'"));
    assert_eq!(script("a`nb"), some("ls -Name -Force -LiteralPath 'a`nb'"));
    assert_eq!(script("a;b|c&d"), some("ls -Name -Force -LiteralPath 'a;b|c&d'"));
    assert_eq!(script("[a]*?"), some("ls -Name -Force -LiteralPath '[a]*?'"));
}

#[test]
fn no_script_for_a_path_with_a_line_break() {
    assert_eq!(script("a\nb"), None);
    assert_eq!(script("a\rb"), None);
    assert_eq!(script("a\r\nb"), None);
    assert_eq!(script("\n"), None);
    assert_eq!(script("a'\ncalc"), None);
    assert_eq!(script("a\n"), None);
}

#[test]
fn script_is_one_line_that_reads_back_as_the_path() {
    let lead = "ls -Name -Force -LiteralPath '";
    let paths = [
        "",
        "/home/me",
        "C:\\Users\\me",
        "it's",
        "'",
        "''",
        "'''",
        "a\"; calc; \"",
        "a'; calc; '",
        "C:/$Recycle.Bin",
        "a`b",
        "\u{2018}\u{2019}",
        "x\u{201B}'y",
        "tab\there",
    ];
    for path in paths {
        let script = listing_script(path).unwrap();
        assert_eq!(script.lines().count(), 1);
        assert!(!script.contains('\r'));
        let body = script.strip_prefix(lead).unwrap().strip_suffix('\'').unwrap();
        assert_eq!(read_single_quoted(body), some(path));
    }
}
