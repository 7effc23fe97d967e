use purpleair::hardware_on_the_board;

fn modules(discovered: &str) -> Vec<String> {
    hardware_on_the_board(discovered.to_string())
}

#[test]
fn modules_follow_the_version_tag() {
    assert_eq!(
        modules("2.0+BME280+PMSX003-A+PMSX003-B"),
        vec!["BME280".to_string(), "PMSX003-A".to_string(), "PMSX003-B".to_string()]
    );
}

#[test]
fn no_plus_means_no_modules() {
    assert_eq!(modules("2.0"), Vec::<String>::new());
    assert_eq!(modules(""), Vec::<String>::new());
}

#[test]
fn one_module() {
    assert_eq!(modules("3.0+BME68X"), vec!["BME68X".to_string()]);
}

#[test]
fn empty_pieces_are_kept() {
    assert_eq!(modules("2.0+"), vec!["".to_string()]);
    assert_eq!(modules("+"), vec!["".to_string()]);
    assert_eq!(modules("2.0++BME280"), vec!["".to_string(), "BME280".to_string()]);
    assert_eq!(modules("2.0+BME280+"), vec!["BME280".to_string(), "".to_string()]);
    assert_eq!(modules("+a"), vec!["a".to_string()]);
}

#[test]
fn agrees_with_split_once_and_split() {
    for text in ["2.0+BME280+PMSX003-A", "a+b", "++", "x", "1+2+3+4+5", "é+ü+ß", "2.0+°+x"] {
        let expected: Vec<String> = match text.split_once('+') {
            Some((_, rest)) => rest.split('+').map(|s| s.to_string()).collect(),
            None => Vec::new(),
        };
        assert_eq!(modules(text), expected, "{:?}", text);
    }
}

#[test]
fn joined_modules_give_back_the_text_after_the_tag() {
    let text = "2.0+BME280+PMSX003-A+PMSX003-B";
    assert_eq!(format!("2.0+{}", modules(text).join("+")), text);
}
