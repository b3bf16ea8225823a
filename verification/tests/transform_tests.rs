use rustjerkbot::arrow::Arrow;
use rustjerkbot::cw::Cw;
use rustjerkbot::huify::Huify;
use rustjerkbot::reverse::Reverse;
use rustjerkbot::square::Square;
use rustjerkbot::star::Star;
use rustjerkbot::transform::TransformText;

#[test]
fn arrow_ok() {
    let transformed = Arrow::new().transform("text").unwrap();
    let lines: Vec<&str> = transformed.lines().collect();
    assert_eq!(lines, vec!["T E X T", "E E", "X   X", "T     T",]);
}

#[test]
fn arrow_err() {
    let expected = String::from("Text must contain from 3 up to 100 characters");
    let t = Arrow::new();

    let err = t.transform("").unwrap_err();
    assert_eq!(err.message(), expected);

    let err = t.transform("aa").unwrap_err();
    assert_eq!(err.message(), expected);

    let err = t.transform(&"a".repeat(101)).unwrap_err();
    assert_eq!(err.message(), expected);

    assert_eq!(t.transform(&"a".repeat(3)).is_ok(), true);
    assert_eq!(t.transform(&"a".repeat(100)).is_ok(), true);
}

#[test]
fn cw_ok() {
    let transformed = Cw::new().transform("rurust").unwrap();
    let lines: Vec<&str> = transformed.lines().skip(6).collect();
    assert_eq!(
        lines,
        vec![
            "          U         S",
            "          R         U",
            "          U         R",
            "          S         U",
            "R U R U S T         R",
        ]
    );

    let lines: Vec<&str> = transformed.lines().take(5).collect();
    assert_eq!(
        lines,
        vec![
            "R         T S U R U R ",
            "U         S",
            "R         U",
            "U         R",
            "S         U",
        ]
    );

    assert_eq!(transformed.lines().nth(5).unwrap(), "T S U R U R U R U S T",);
}

#[test]
fn cw_err() {
    let expected = String::from("Text must contain from 3 up to 100 characters");
    let t = Cw::new();

    let err = t.transform("").unwrap_err();
    assert_eq!(err.message(), expected);

    let err = t.transform("aa").unwrap_err();
    assert_eq!(err.message(), expected);

    let err = t.transform(&"a".repeat(101)).unwrap_err();
    assert_eq!(err.message(), expected);

    assert_eq!(t.transform(&"a".repeat(3)).is_ok(), true);
    assert_eq!(t.transform(&"a".repeat(100)).is_ok(), true);
}

#[test]
fn huify_ok() {
    let t = Huify::new();
    for (input, expected) in vec![
        (
            "Значимость этих проблем настолько очевидна",
            "хуячимость хуетих хуёблем хуястолько хуёчевидна",
        ),
        ("Андрей", "хуяндрей"),
        (
            "imported and not used\n\nдевиз моей жизни",
            "imported and not used хуевиз хуёей хуизни",
        ),
        ("ХУЁВОЕ НАСТРОЕНИЕ", "хуёвое хуястроение"),
        ("ЁБАНАЯ ХУНТА", "хуёбаная хуюнта"),
        ("аутизм и деградация", "хуяутизм и хуеградация"),
        ("ху", "хую"),
        ("хуякс", "<b>ALREADY HUIFIED</b>"),
    ] {
        assert_eq!(t.transform(input).unwrap(), expected);
    }
}

#[test]
fn reverse_ok() {
    assert_eq!(Reverse.transform("test").unwrap(), "tset");
}

#[test]
fn square_ok() {
    let t = Square::new();
    let transformed = t.transform("text").unwrap();
    let lines: Vec<&str> = transformed.lines().collect();
    assert_eq!(
        lines,
        vec![
            "T T T T T T T",
            "T X X X X X T",
            "T X E E E X T",
            "T X E T E X T",
            "T X E E E X T",
            "T X X X X X T",
            "T T T T T T T",
        ]
    );

    assert!(t.transform(&"a".repeat(3)).is_ok());
    assert!(t.transform(&"a".repeat(100)).is_ok());
}

#[test]
fn square_err() {
    let expected = String::from("Text must contain from 2 up to 100 characters");
    let t = Square::new();

    let err = t.transform("").unwrap_err();
    assert_eq!(err.message(), expected);

    let err = t.transform("a").unwrap_err();
    assert_eq!(err.message(), expected);

    let err = t.transform(&"a".repeat(101)).unwrap_err();
    assert_eq!(err.message(), expected);
}

#[test]
fn star_ok() {
    let t = Star::new();
    let transformed = t.transform("text").unwrap();
    let lines: Vec<&str> = transformed.lines().collect();
    assert_eq!(
        lines,
        vec![
            "T     T     T",
            "  X   X   X",
            "    E E E",
            "T X E T E X T",
            "    E E E",
            "  X   X   X",
            "T     T     T",
        ]
    );

    assert!(t.transform(&"a".repeat(3)).is_ok());
    assert!(t.transform(&"a".repeat(100)).is_ok());
}

#[test]
fn star_err() {
    let expected = String::from("Text must contain from 3 up to 100 characters");
    let t = Star::new();

    let err = t.transform("").unwrap_err();
    assert_eq!(err.message(), expected);

    let err = t.transform("aa").unwrap_err();
    assert_eq!(err.message(), expected);

    let err = t.transform(&"a".repeat(101)).unwrap_err();
    assert_eq!(err.message(), expected);
}
