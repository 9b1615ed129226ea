use hwt_core::decimal::{parse_decimal, parse_u32, Decimal};
use hwt_core::parser::{parse_document, SExprParser};
use hwt_core::sexpr::{KicadError, SExpr};

#[test]
fn test_sexpr_parser_atom() {
    let mut parser = SExprParser::new("hello");
    let result = parser.parse().unwrap();
    assert_eq!(result, SExpr::Atom("hello".to_string()));
}

#[test]
fn test_sexpr_parser_string() {
    let mut parser = SExprParser::new("\"hello world\"");
    let result = parser.parse().unwrap();
    assert_eq!(result, SExpr::Atom("hello world".to_string()));
}

#[test]
fn test_sexpr_parser_list() {
    let mut parser = SExprParser::new("(kicad_sch version 1)");
    let result = parser.parse().unwrap();
    assert_eq!(result.tag(), Some("kicad_sch"));
    assert_eq!(result.get_atom(1), Some("version"));
    assert_eq!(result.get_atom(2), Some("1"));
}

#[test]
fn test_sexpr_parser_nested() {
    let mut parser = SExprParser::new("(symbol (at 10 20 0) (lib_id \"Device:R\"))");
    let result = parser.parse().unwrap();

    assert_eq!(result.tag(), Some("symbol"));

    let at = result.find("at").unwrap();
    assert_eq!(at.get_number(1), Some(Decimal::new(10, 0)));
    assert_eq!(at.get_number(2), Some(Decimal::new(20, 0)));

    let lib_id = result.find("lib_id").unwrap();
    assert_eq!(lib_id.get_atom(1), Some("Device:R"));
}

#[test]
fn escapes_are_resolved() {
    let e = parse_document("\"a\\nb\\tc\\rd\\\\e\\\"f\\qg\"").unwrap();
    assert_eq!(e.as_atom(), Some("a\nb\tc\rd\\e\"fqg"));
}

#[test]
fn unterminated_string_at_top_level_reads_to_end() {
    let e = parse_document("\"abc").unwrap();
    assert_eq!(e.as_atom(), Some("abc"));
}

#[test]
fn unterminated_list_fails() {
    assert!(parse_document("(a (b c)").is_err());
    assert!(parse_document("(a \"b").is_err());
}

#[test]
fn empty_input_fails() {
    let err = parse_document("   ").err().unwrap();
    assert_eq!(err.message, "Empty symbol");
    assert!(err.line.is_none());
    assert!(parse_document(")").is_err());
}

#[test]
fn bare_token_stops_at_parenthesis() {
    let e = parse_document("(a b(c))").unwrap();
    assert_eq!(e.get_atom(1), Some("b"));
    assert_eq!(e.get(2).unwrap().tag(), Some("c"));
    assert_eq!(e.as_list().unwrap().len(), 3);
}

#[test]
fn find_takes_first_match_and_find_all_keeps_order() {
    let e = parse_document("(r (p 1) (q 2) (p 3) x (p 4))").unwrap();
    assert_eq!(e.find("p").unwrap().get_atom(1), Some("1"));
    let all = e.find_all("p");
    assert_eq!(all.len(), 3);
    assert_eq!(all[2].get_atom(1), Some("4"));
    assert!(e.find("z").is_none());
    assert!(e.find_all("z").is_empty());
}

#[test]
fn property_reads_key_value_pairs() {
    let e = parse_document("(r x (size 3) (name \"N\"))").unwrap();
    assert_eq!(e.property("name"), Some("N"));
    assert_eq!(e.property("size"), Some("3"));
    assert_eq!(e.property("none"), None);
    let skip = parse_document("(r () ((x) y) (name n))").unwrap();
    assert_eq!(skip.property("name"), Some("n"));
    let bare = parse_document("(r (name))").unwrap();
    assert_eq!(bare.property("name"), None);
}

#[test]
fn accessors_on_atoms_are_absent() {
    let e = parse_document("word").unwrap();
    assert!(e.as_list().is_none());
    assert!(e.tag().is_none());
    assert!(e.get(0).is_none());
    assert!(e.get_number(0).is_none());
}

#[test]
fn numbers_are_exact_decimals() {
    assert_eq!(parse_decimal("99.2"), Some(Decimal::new(992, 1)));
    assert_eq!(parse_decimal("-3.81"), Some(Decimal::new(-381, 2)));
    assert_eq!(parse_decimal("+.5"), Some(Decimal::new(5, 1)));
    assert_eq!(parse_decimal("7."), Some(Decimal::new(7, 0)));
    assert_eq!(parse_decimal("."), None);
    assert_eq!(parse_decimal("1.2.3"), None);
    assert_eq!(parse_decimal("abc"), None);
    assert_eq!(parse_decimal("1e5"), None);
    assert_eq!(parse_decimal("123456789012345678"), Some(Decimal::new(123456789012345678, 0)));
    assert_eq!(parse_decimal("1234567890123456789"), None);
}

#[test]
fn unsigned_numbers() {
    assert_eq!(parse_u32("2"), Some(2));
    assert_eq!(parse_u32("+7"), Some(7));
    assert_eq!(parse_u32("4294967295"), Some(4294967295));
    assert_eq!(parse_u32("4294967296"), None);
    assert_eq!(parse_u32("-1"), None);
    assert_eq!(parse_u32(""), None);
}

#[test]
fn error_descriptions() {
    let e = KicadError { message: "bad".to_string(), line: Some(120) };
    assert_eq!(e.describe(), "KiCAD error at line 120: bad");
    let e = KicadError { message: "bad".to_string(), line: None };
    assert_eq!(e.describe(), "KiCAD error: bad");
    let e = KicadError { message: String::new(), line: Some(7) };
    assert_eq!(e.describe(), "KiCAD error at line 7: ");
}

#[test]
fn tree_equality_is_structural() {
    let a = parse_document("(a (b \"c\") d)").unwrap();
    let b = parse_document("( a  (b c)\n d )").unwrap();
    let c = parse_document("(a (b c) e)").unwrap();
    assert_eq!(a, b);
    assert_ne!(a, c);
    assert_ne!(a, SExpr::Atom("a".to_string()));
    assert_eq!(parse_document("(x)").unwrap(), SExpr::List(vec![SExpr::Atom("x".to_string())]));
}

#[test]
fn text_after_the_expression_fails() {
    assert!(parse_document("(a))").is_err());
    assert!(parse_document("(a) b").is_err());
    assert!(parse_document("a b").is_err());
    assert_eq!(parse_document("  (a)\n\t ").unwrap().tag(), Some("a"));
    let mut p = SExprParser::new("(a))");
    assert!(p.parse().is_err());
}

#[test]
fn parse_errors_have_no_line() {
    for text in ["", "   ", ")", "(a b", "(a (b c)", "(a))"] {
        let err = parse_document(text).err().unwrap();
        assert!(err.line.is_none());
    }
}
