use scenedraw::vectors::{Component, Vectors};

fn tok(s: &str) -> Vec<char> {
    s.chars().collect()
}

#[test]
fn scalar_parses_to_single_component() {
    let s: f64 = 2.5;
    let v = Vectors::Scaler(s.to_bits());
    let parsed = v.parse().expect("scalar always parses");
    assert_eq!(parsed, vec![Component::Num(s.to_bits())]);
}

#[test]
fn scalar_zero_is_default() {
    assert_eq!(Vectors::default(), Vectors::Scaler(0));
    assert_eq!(Vectors::Scaler(0), Vectors::Scaler(0.0f64.to_bits()));
}

#[test]
fn vector_string_parses_per_token() {
    let v = Vectors::Vectors(String::from("1.5 2 -3e2"));
    let parsed = v.parse().expect("all tokens numeric");
    assert_eq!(
        parsed,
        vec![
            Component::Tok(tok("1.5")),
            Component::Tok(tok("2")),
            Component::Tok(tok("-3e2")),
        ]
    );
}

#[test]
fn non_numeric_token_rejects_whole_value() {
    let v = Vectors::Vectors(String::from("1 x 3"));
    assert!(v.parse().is_none());
}

#[test]
fn empty_string_parses_to_no_components() {
    let v = Vectors::Vectors(String::new());
    assert_eq!(v.parse(), Some(vec![]));
}

#[test]
fn surrounding_whitespace_is_ignored() {
    let v = Vectors::Vectors(String::from("  1.0\t2.0\n"));
    let parsed = v.parse().expect("two numeric tokens");
    assert_eq!(
        parsed,
        vec![Component::Tok(tok("1.0")), Component::Tok(tok("2.0"))]
    );
}

#[test]
fn non_finite_spellings_are_numeric() {
    let v = Vectors::Vectors(String::from("inf -Infinity NAN +nan"));
    let parsed = v.parse().expect("all spellings accepted");
    assert_eq!(parsed.len(), 4);
}

#[test]
fn numeric_grammar_accepts_float_shapes() {
    for good in ["1", "1.", ".5", "+0.25", "-12e-4", "3E+7", "0.5e2"] {
        let v = Vectors::Vectors(String::from(good));
        assert!(v.parse().is_some(), "{good} should parse");
        assert!(good.parse::<f64>().is_ok(), "{good} per std too");
    }
}

#[test]
fn numeric_grammar_rejects_malformed_tokens() {
    for bad in ["1.2.3", "1e", ".", "+", "--1", "e5", "1f", "0x10", "infx"] {
        let v = Vectors::Vectors(String::from(bad));
        assert!(v.parse().is_none(), "{bad} should not parse");
        assert!(bad.parse::<f64>().is_err(), "{bad} per std too");
    }
}
