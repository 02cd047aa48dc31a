use proc_macro2::{Delimiter, Spacing, TokenStream, TokenTree};
use table_enum::table::Diag;
use table_enum::table_enum_core;
use table_enum::token::{Delim, Tok};
use table_enum::transform::GenTable;
use table_enum::{expand_source, Output};

fn flatten(ts: TokenStream, out: &mut Vec<Tok>) {
    for tt in ts {
        match tt {
            TokenTree::Ident(i) => out.push(Tok::Ident(i.to_string())),
            TokenTree::Literal(l) => out.push(Tok::Lit(l.to_string())),
            TokenTree::Punct(p) => {
                out.push(Tok::Punct(p.as_char(), p.spacing() == Spacing::Joint))
            }
            TokenTree::Group(g) => {
                let d = match g.delimiter() {
                    Delimiter::Parenthesis => Some(Delim::Paren),
                    Delimiter::Bracket => Some(Delim::Bracket),
                    Delimiter::Brace => Some(Delim::Brace),
                    Delimiter::None => None,
                };
                if let Some(d) = d {
                    out.push(Tok::Open(d));
                    flatten(g.stream(), out);
                    out.push(Tok::Close(d));
                } else {
                    flatten(g.stream(), out);
                }
            }
        }
    }
}

fn lex(src: &str) -> Vec<Tok> {
    let ts: TokenStream = src.parse().expect("test input must lex");
    let mut out = Vec::new();
    flatten(ts, &mut out);
    out
}

/// Normalizes Rust source text through the compiler's own token representation.
fn norm(src: &str) -> String {
    src.parse::<TokenStream>().expect("output must lex").to_string()
}

fn expand_table(src: &str) -> GenTable {
    match table_enum_core(&lex(src)) {
        Output::Table(g) => g,
        Output::Diag(_) => panic!("expected a generated table"),
    }
}

fn expand_diag(src: &str) -> Diag {
    match table_enum_core(&lex(src)) {
        Output::Table(_) => panic!("expected a diagnostic"),
        Output::Diag(d) => d,
    }
}

fn ident_text(t: &Tok) -> Option<String> {
    match t {
        Tok::Ident(s) => Some(s.clone()),
        _ => None,
    }
}

fn lit_text(t: &Tok) -> Option<String> {
    match t {
        Tok::Lit(s) => Some(s.clone()),
        _ => None,
    }
}

const PLANETS: &str = "
    pub enum Planets(mass: f64, radius: f64) {
        Mercury (3.303e+23, 2.4397e6),
        Venus   (4.869e+24, 6.0518e6),
        Earth   (5.976e+24, 6.37814e6),
        Mars    (6.421e+23, 3.3972e6),
        Jupiter (1.9e+27,   7.1492e7),
        Saturn  (5.688e+26, 6.0268e7),
        Uranus  (8.686e+25, 2.5559e7),
        Neptune (1.024e+26, 2.4746e7),
    }
";

const BINARY_OP: &str = "
    pub enum BinaryOp(text: &'static str, #[option] precedence: i32, #[default] right_assoc: bool) {
        Add(\"+\", _, _),
        Sub(\"-\", _, _),
        Mul(\"*\", 20, _),
        Div(\"/\", 20, _),
        Pow(\"**\", 30, true),
    }
";

#[test]
fn planets() {
    let after = expand_source(&lex(PLANETS));
    let expected = "
        pub enum Planets {
            Mercury,
            Venus,
            Earth,
            Mars,
            Jupiter,
            Saturn,
            Uranus,
            Neptune,
        }
        impl Planets {
            pub const fn mass(&self) -> f64 {
                match self {
                    Planets::Mercury => 3.303e+23,
                    Planets::Venus => 4.869e+24,
                    Planets::Earth => 5.976e+24,
                    Planets::Mars => 6.421e+23,
                    Planets::Jupiter => 1.9e+27,
                    Planets::Saturn => 5.688e+26,
                    Planets::Uranus => 8.686e+25,
                    Planets::Neptune => 1.024e+26,
                }
            }
            pub const fn radius(&self) -> f64 {
                match self {
                    Planets::Mercury => 2.4397e6,
                    Planets::Venus => 6.0518e6,
                    Planets::Earth => 6.37814e6,
                    Planets::Mars => 3.3972e6,
                    Planets::Jupiter => 7.1492e7,
                    Planets::Saturn => 6.0268e7,
                    Planets::Uranus => 2.5559e7,
                    Planets::Neptune => 2.4746e7,
                }
            }
        }
    ";
    assert_eq!(norm(&after), norm(expected));
}

#[test]
fn option() {
    let after = expand_source(&lex(BINARY_OP));
    let expected = "
        pub enum BinaryOp {
            Add,
            Sub,
            Mul,
            Div,
            Pow,
        }
        impl BinaryOp {
            pub const fn text(&self) -> &'static str {
                match self {
                    BinaryOp::Add => \"+\",
                    BinaryOp::Sub => \"-\",
                    BinaryOp::Mul => \"*\",
                    BinaryOp::Div => \"/\",
                    BinaryOp::Pow => \"**\",
                }
            }
            pub const fn precedence(&self) -> Option<i32> {
                match self {
                    BinaryOp::Add => None,
                    BinaryOp::Sub => None,
                    BinaryOp::Mul => Some(20),
                    BinaryOp::Div => Some(20),
                    BinaryOp::Pow => Some(30),
                }
            }
            pub fn right_assoc(&self) -> bool {
                match self {
                    BinaryOp::Add => bool::default(),
                    BinaryOp::Sub => bool::default(),
                    BinaryOp::Mul => bool::default(),
                    BinaryOp::Div => bool::default(),
                    BinaryOp::Pow => true,
                }
            }
        }
    ";
    assert_eq!(norm(&after), norm(expected));
}

#[test]
fn venus_mass() {
    let g = expand_table(PLANETS);
    let venus = g
        .variants
        .iter()
        .position(|v| v.as_str() == "Venus")
        .expect("Venus variant");
    let mass = g
        .accessors
        .iter()
        .position(|a| a.name.as_str() == "mass")
        .expect("mass accessor");
    let arm = &g.accessors[mass].arms[venus];
    assert_eq!(arm.len(), 1);
    let text = lit_text(&arm[0]).expect("a literal arm");
    assert_eq!(text.parse::<f64>().unwrap(), 4.869e+24);
}

#[test]
fn add_text() {
    let g = expand_table(BINARY_OP);
    let pow = g.variants.iter().position(|v| v.as_str() == "Pow").expect("Pow");
    let ra = g
        .accessors
        .iter()
        .position(|a| a.name.as_str() == "right_assoc")
        .expect("right_assoc accessor");
    let arm = &g.accessors[ra].arms[pow];
    assert_eq!(arm.len(), 1);
    assert_eq!(ident_text(&arm[0]).as_deref(), Some("true"));
    assert_eq!(ident_text(&arm[0]).unwrap().parse::<bool>().unwrap(), true);
}

#[test]
fn variant_count_and_order() {
    let g = expand_table(PLANETS);
    assert_eq!(g.variants.len(), 8);
    assert_eq!(
        g.variants,
        vec![
            "Mercury", "Venus", "Earth", "Mars", "Jupiter", "Saturn", "Uranus", "Neptune"
        ]
    );
    assert_eq!(g.name, "Planets");
}

#[test]
fn accessor_count_and_names() {
    let g = expand_table(BINARY_OP);
    assert_eq!(g.accessors.len(), 3);
    assert_eq!(g.accessors[0].name, "text");
    assert_eq!(g.accessors[1].name, "precedence");
    assert_eq!(g.accessors[2].name, "right_assoc");
    for a in &g.accessors {
        assert_eq!(a.arms.len(), g.variants.len());
    }
}

#[test]
fn normal_round_trip() {
    let g = expand_table(BINARY_OP);
    let add_arm = &g.accessors[0].arms[0];
    assert_eq!(add_arm.len(), 1);
    assert_eq!(lit_text(&add_arm[0]).as_deref(), Some("\"+\""));
}

#[test]
fn optional_wrapping() {
    let g = expand_table(BINARY_OP);
    let prec = &g.accessors[1];
    assert!(prec.opt);
    assert!(prec.is_const);
    // wildcard: the empty representation
    assert_eq!(prec.arms[0].len(), 1);
    assert_eq!(ident_text(&prec.arms[0][0]).as_deref(), Some("None"));
    // a literal: the present wrapping of it
    let mul = &prec.arms[2];
    assert_eq!(ident_text(&mul[0]).as_deref(), Some("Some"));
    assert!(matches!(mul[1], Tok::Open(Delim::Paren)));
    assert_eq!(lit_text(&mul[2]).as_deref(), Some("20"));
    assert!(matches!(mul[3], Tok::Close(Delim::Paren)));
}

#[test]
fn defaulted_values() {
    let g = expand_table(BINARY_OP);
    let ra = &g.accessors[2];
    assert!(!ra.is_const);
    assert!(!ra.opt);
    assert!(g.accessors[0].is_const);
    assert!(g.accessors[1].is_const);
    // wildcard: the type's default-value call, `bool :: default ( )`
    let arm = &ra.arms[0];
    assert_eq!(ident_text(&arm[0]).as_deref(), Some("bool"));
    assert!(matches!(arm[1], Tok::Punct(':', true)));
    assert!(matches!(arm[2], Tok::Punct(':', false)));
    assert_eq!(ident_text(&arm[3]).as_deref(), Some("default"));
    assert!(matches!(arm[4], Tok::Open(Delim::Paren)));
    assert!(matches!(arm[5], Tok::Close(Delim::Paren)));
    assert_eq!(arm.len(), 6);
    // a literal stays unchanged
    assert_eq!(ra.arms[4].len(), 1);
    assert_eq!(ident_text(&ra.arms[4][0]).as_deref(), Some("true"));
}

#[test]
fn constructor_lookup() {
    let src = "
        enum Opcode(#[constructor] code: i32, text: &'static str) {
            Load(1, \"load\"),
            Store(2, \"store\"),
        }
    ";
    let g = expand_table(src);
    assert!(g.accessors[0].ctor);
    assert!(!g.accessors[1].ctor);
    let after = expand_source(&lex(src));
    let expected = "
        enum Opcode {
            Load,
            Store,
        }
        impl Opcode {
            const fn code(&self) -> i32 {
                match self {
                    Opcode::Load => 1,
                    Opcode::Store => 2,
                }
            }
            fn new(code: i32) -> Option<Self> {
                match code {
                    1 => Some(Opcode::Load),
                    2 => Some(Opcode::Store),
                    _ => None,
                }
            }
            const fn text(&self) -> &'static str {
                match self {
                    Opcode::Load => \"load\",
                    Opcode::Store => \"store\",
                }
            }
        }
    ";
    assert_eq!(norm(&after), norm(expected));
}

#[test]
fn empty_table() {
    let after = expand_source(&lex("enum Nothing() {}"));
    assert_eq!(norm(&after), norm("enum Nothing {} impl Nothing {}"));
}

#[test]
fn no_trailing_comma() {
    let with = expand_source(&lex("enum E(x: i32) { A(1), B(2), }"));
    let without = expand_source(&lex("enum E(x: i32) { A(1), B(2) }"));
    assert_eq!(with, without);
}

#[test]
fn passthrough_attributes() {
    let after = expand_source(&lex("#[derive(Debug)] pub enum E(x: i32) { A(1) }"));
    let expected = "
        #[derive(Debug)]
        pub enum E { A, }
        impl E {
            pub const fn x(&self) -> i32 {
                match self { E::A => 1, }
            }
        }
    ";
    assert_eq!(norm(&after), norm(expected));
}

#[test]
fn unknown_modifier_diag() {
    let d = expand_diag("enum E(#[silly] x: i32) { A(1) }");
    assert_eq!(d, Diag::UnknownModifier { field: 0 });
    let out = expand_source(&lex("enum E(#[silly] x: i32) { A(1) }"));
    assert!(out.contains("compile_error"));
    assert!(out.contains("#[option], #[default], and #[constructor]"));
}

#[test]
fn wildcard_misuse_diag() {
    let d = expand_diag("enum E(x: i32) { A(1), B(_) }");
    assert_eq!(d, Diag::WildcardMisuse { field: 0, record: 1 });
    let d = expand_diag("enum E(#[constructor] x: i32) { A(_) }");
    assert_eq!(d, Diag::WildcardMisuse { field: 0, record: 0 });
    let out = expand_source(&lex("enum E(x: i32) { A(_) }"));
    assert!(out.contains("compile_error"));
    assert!(out.contains("#[option] and #[default]"));
}

#[test]
fn arity_mismatch_diag() {
    let d = expand_diag("enum E(x: i32, y: i32) { A(1, 2), B(3) }");
    assert_eq!(d, Diag::Arity { record: 1 });
}

#[test]
fn multiple_constructors_diag() {
    let d = expand_diag("enum E(#[constructor] x: i32, #[constructor] y: i32) { A(1, 2) }");
    assert_eq!(d, Diag::MultipleConstructors { field: 1 });
}

#[test]
fn syntax_error_diag() {
    assert_eq!(expand_diag("struct E(x: i32) {}"), Diag::Syntax);
    assert_eq!(expand_diag("enum E(x: i32) { A(1) } trailing"), Diag::Syntax);
    assert_eq!(expand_diag("enum E(x i32) { A(1) }"), Diag::Syntax);
    let out = expand_source(&lex("struct E {}"));
    assert!(out.contains("compile_error"));
}

#[test]
fn restricted_visibility() {
    let after = expand_source(&lex("pub(crate) enum E(x: i32) { A(7) }"));
    let expected = "
        pub(crate) enum E { A, }
        impl E {
            pub(crate) const fn x(&self) -> i32 {
                match self { E::A => 7, }
            }
        }
    ";
    assert_eq!(norm(&after), norm(expected));
}

#[test]
fn values_with_nested_groups() {
    // commas inside a value's own groups do not split the value list
    let src = "enum E(x: (i32, i32), y: i32) { A((1, 2), max(3, 4)) }";
    let after = expand_source(&lex(src));
    let expected = "
        enum E { A, }
        impl E {
            const fn x(&self) -> (i32, i32) {
                match self { E::A => (1, 2), }
            }
            const fn y(&self) -> i32 {
                match self { E::A => max(3, 4), }
            }
        }
    ";
    assert_eq!(norm(&after), norm(expected));
}

#[test]
fn lifetime_type_round_trips() {
    let g = expand_table(BINARY_OP);
    // the declared type of `text` keeps its lifetime: `& 'static str`
    let ty = &g.accessors[0].ty;
    assert!(matches!(ty[0], Tok::Punct('&', _)));
    assert!(matches!(ty[1], Tok::Punct('\'', true)));
    assert_eq!(ident_text(&ty[2]).as_deref(), Some("static"));
    assert_eq!(ident_text(&ty[3]).as_deref(), Some("str"));
}

#[test]
fn wildcard_named_field_is_ordinary() {
    // an identifier merely spelled like the wildcard only counts as one in a
    // value slot; elsewhere it is an ordinary token
    let d = expand_diag("enum E(x: i32) { A(_, 1) }");
    assert_eq!(d, Diag::Arity { record: 0 });
}
