use pmc_interpreter::text::split_words;

fn words(line: &str) -> Vec<String> {
    split_words(line).into_iter().map(|word| word.into_iter().collect()).collect()
}

#[test]
fn words_are_the_runs_between_white_space() {
    assert_eq!(words("mem --from 3 --to 9"), vec!["mem", "--from", "3", "--to", "9"]);
    assert_eq!(words("  next\n"), vec!["next"]);
    assert_eq!(words("ab\t10\r\n"), vec!["ab", "10"]);
    assert_eq!(words("a\u{a0}b\u{2003}c"), vec!["a", "b", "c"]);
    assert_eq!(words("x"), vec!["x"]);
}

#[test]
fn white_space_alone_has_no_words() {
    assert_eq!(words(""), Vec::<String>::new());
    assert_eq!(words(" \t\r\n"), Vec::<String>::new());
}

#[test]
fn words_agree_with_the_standard_splitter() {
    for line in ["", " ", "q", " lb ", "m -f 1 -t 2 --file out.txt", "\u{3000}n\u{85}", "a  b\u{b}c"] {
        let expected: Vec<String> = line.split_whitespace().map(|word| word.to_string()).collect();
        assert_eq!(words(line), expected);
    }
}
