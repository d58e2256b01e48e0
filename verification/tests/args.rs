use bugbite::args::Csv;
use bugbite::traits::ToText;

#[test]
fn parse() {
    let cases: [(&str, Vec<&str>, &str); 5] = [
        ("", vec![], ""),
        (",", vec![], ""),
        (",,", vec![], ""),
        ("a", vec!["a"], "a"),
        ("a,b", vec!["a", "b"], "a,b"),
    ];
    for (value, parsed, display) in cases {
        let csv: Csv<String> = Csv::from_str(value).unwrap();
        assert_eq!(csv.as_slice(), parsed.as_slice());
        assert_eq!(csv.to_text(), display);
        assert_eq!(csv.into_inner(), parsed.as_slice());
    }
}

#[test]
fn deref() {
    let mut csv: Csv<String> = Csv::from_str("a,b").unwrap();
    // immutable access
    assert_eq!(csv.as_slice(), &["a", "b"]);
    assert_eq!(csv.len(), 2);
    // mutable access
    csv.set(1, "c".to_string());
    assert_eq!(csv.as_slice(), &["a", "c"]);
}

#[test]
fn csv_text_parses_back() {
    let csv: Csv<String> = Csv::from_vec(vec!["a".to_string(), "bc".to_string(), "déf".to_string()]);
    let text = csv.to_text();
    assert_eq!(text, "a,bc,déf");
    let back: Csv<String> = Csv::from_str(&text).unwrap();
    assert_eq!(back.into_inner(), vec!["a".to_string(), "bc".to_string(), "déf".to_string()]);
    let empty: Csv<String> = Csv::from_vec(vec![]);
    assert_eq!(empty.to_text(), "");
    assert_eq!(Csv::<String>::from_str("").unwrap().len(), 0);
}
