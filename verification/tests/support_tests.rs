//! Supporting pieces: string helpers, the stub-generator shapes, the
//! lexeme-kind predicates, spans, and lexer diagnostics.

use otterc::diagnostics::{DiagnosticSeverity, LexerError};
use otterc::ffi::{FfiSignature, FfiType};
use otterc::indent::{Error as IndentError, Indentation, LexerExtras, indentation_update, INDENT_DEDENT_SIZE};
use otterc::strutil::{join_strings, str_eq, u64_to_string};
use otterc::stubgen::{
    CallTemplate, DependencyConfig, FunctionSpec, RustPath, RustTypeRef, TypeSpec,
};
use otterc::token_kind::Kind;
use otterc::value_type::{NativeType, ValueType, basic_type, coerced_operands, type_from_name};

#[test]
fn decimal_rendering_is_exact() {
    assert_eq!(u64_to_string(0), "0");
    assert_eq!(u64_to_string(7), "7");
    assert_eq!(u64_to_string(90210), "90210");
    assert_eq!(u64_to_string(u64::MAX), "18446744073709551615");
}

#[test]
fn joining_interleaves_the_separator() {
    let parts = vec!["a".to_string(), "bc".to_string(), "d".to_string()];
    assert_eq!(join_strings(&parts, ", "), "a, bc, d");
    assert_eq!(join_strings(&vec!["solo".to_string()], "."), "solo");
    assert_eq!(join_strings(&vec![], "."), "");
    assert!(str_eq("same", "same"));
    assert!(!str_eq("same", "other"));
}

#[test]
fn declared_type_names_resolve_or_fail() {
    assert_eq!(type_from_name("int"), Some(ValueType::I64));
    assert_eq!(type_from_name("float"), Some(ValueType::F64));
    assert_eq!(type_from_name("bool"), Some(ValueType::Bool));
    assert_eq!(type_from_name("str"), Some(ValueType::Str));
    assert_eq!(type_from_name("double"), None);
}

#[test]
fn unit_has_no_native_representation() {
    assert_eq!(basic_type(ValueType::Unit), None);
    assert_eq!(basic_type(ValueType::Bool), Some(NativeType::I1));
    assert_eq!(basic_type(ValueType::Str), Some(NativeType::Ptr));
}

#[test]
fn the_single_coercion_rule_widens_integers_only() {
    assert_eq!(
        coerced_operands(ValueType::I64, ValueType::F64),
        (ValueType::F64, ValueType::F64)
    );
    assert_eq!(
        coerced_operands(ValueType::F64, ValueType::I64),
        (ValueType::F64, ValueType::F64)
    );
    assert_eq!(
        coerced_operands(ValueType::I64, ValueType::I64),
        (ValueType::I64, ValueType::I64)
    );
    assert_eq!(
        coerced_operands(ValueType::Bool, ValueType::F64),
        (ValueType::Bool, ValueType::F64)
    );
}

#[test]
fn simple_stub_lowercases_the_symbol() {
    let spec = FunctionSpec::simple("Sin", vec![TypeSpec::F64], TypeSpec::F64);
    assert_eq!(spec.name, "Sin");
    assert_eq!(spec.symbol, "otter_sin");
    assert!(matches!(spec.call, CallTemplate::Direct));
    assert!(spec.doc.is_none());
    assert!(spec.rust_path.is_none());
}

#[test]
fn ffi_variant_paths_are_exact() {
    assert_eq!(TypeSpec::Unit.ffi_variant(), "FfiType::Unit");
    assert_eq!(TypeSpec::F64.ffi_variant(), "FfiType::F64");
    assert_eq!(TypeSpec::Opaque.ffi_variant(), "FfiType::Opaque");
}

#[test]
fn path_rendering_joins_segments() {
    let path = RustPath {
        segments: vec!["chrono".to_string(), "offset".to_string(), "Utc".to_string()],
    };
    assert_eq!(path.display_dot(), "chrono.offset.Utc");
    assert_eq!(path.display_colon(), "chrono::offset::Utc");
}

#[test]
fn unit_type_reference_is_recognized() {
    assert!(RustTypeRef::Unit.is_unit());
    assert!(!RustTypeRef::Opaque.is_unit());
    assert!(!RustTypeRef::Ref {
        mutable: false,
        inner: Box::new(RustTypeRef::Unit)
    }
    .is_unit());
}

#[test]
fn manifest_entry_renders_each_field() {
    let full = DependencyConfig {
        name: "serde".to_string(),
        version: Some("1.2".to_string()),
        path: Some("x/y".to_string()),
        features: vec!["b".to_string(), "a".to_string()],
        default_features: false,
    };
    assert_eq!(
        full.manifest_entry(),
        "{ version = \"1.2\", path = \"x/y\", features = [\"b\", \"a\"], default-features = false }"
    );
    let bare = DependencyConfig {
        name: "serde".to_string(),
        version: None,
        path: None,
        features: vec![],
        default_features: true,
    };
    assert_eq!(bare.manifest_entry(), "\"*\"");
}

#[test]
fn cache_hash_is_the_digest_of_the_sorted_description() {
    let config = DependencyConfig {
        name: "mylib".to_string(),
        version: Some("1.2.3".to_string()),
        path: None,
        features: vec!["beta".to_string(), "alpha".to_string()],
        default_features: false,
    };
    // The digest of "mylibversion:1.2.3feature:alphafeature:betano-default-features".
    assert_eq!(config.cache_hash(), "dd2ce9c04b80ba07ad58766a5a598aac70c026b2");
    // Feature order does not matter: the fingerprint is deterministic.
    let swapped = DependencyConfig {
        name: "mylib".to_string(),
        version: Some("1.2.3".to_string()),
        path: None,
        features: vec!["alpha".to_string(), "beta".to_string()],
        default_features: false,
    };
    assert_eq!(config.cache_hash(), swapped.cache_hash());
    let bare = DependencyConfig {
        name: "serde".to_string(),
        version: None,
        path: None,
        features: vec![],
        default_features: true,
    };
    // The digest of "serde" alone.
    assert_eq!(bare.cache_hash(), "ad30096eb1df8363e5ed2b8fbe7203cbe4a13c8f");
}

#[test]
fn lexeme_kind_categories_partition_as_documented() {
    assert!(Kind::True.is_boolean());
    assert!(Kind::False.is_boolean());
    assert!(!Kind::Integer.is_boolean());
    assert!(Kind::OpenParen.is_delimiter());
    assert!(!Kind::Plus.is_delimiter());
    assert!(Kind::While.is_keyword());
    assert!(!Kind::Identifier.is_keyword());
    assert!(Kind::While.is_identifier());
    assert!(Kind::Identifier.is_identifier());
    assert!(!Kind::Plus.is_identifier());
    assert!(Kind::String.is_string());
    assert!(Kind::FormattingString.is_string());
    assert!(Kind::Integer.is_number());
    assert!(Kind::Float.is_number());
    assert!(Kind::True.is_literal());
    assert!(Kind::Integer.is_literal());
    assert!(Kind::String.is_literal());
    assert!(!Kind::Comment.is_literal());
    assert!(Kind::Plus.is_thin_symbol());
    assert!(!Kind::PlusEqual.is_thin_symbol());
    assert!(Kind::PlusEqual.is_wide_symbol());
    assert!(Kind::Plus.is_symbol());
    assert!(Kind::DotDot.is_symbol());
    assert!(!Kind::Indentation.is_symbol());
}

#[test]
fn packed_span_accessors_and_mutators() {
    let mut span = otterc::source_span::Span::new(3, 9);
    assert_eq!(span.start(), 3);
    assert_eq!(span.end(), 9);
    *span.end_mut() = 12;
    assert_eq!(span.end(), 12);
    *span.start_mut() = 5;
    assert_eq!(span.start(), 5);
    assert_eq!(span.end(), 12);
}

#[test]
fn lexer_span_accessors() {
    let span = otterc::diagnostics::Span::new(4, 11);
    assert_eq!(span.start(), 4);
    assert_eq!(span.end(), 11);
}

#[test]
fn lexer_error_messages_are_exact() {
    let span = otterc::diagnostics::Span::new(0, 1);
    let tabs = LexerError::TabsNotAllowed { line: 3, column: 4, span };
    assert_eq!(
        tabs.message(),
        "tabs are not allowed for indentation (line 3, column 4)"
    );
    let indent = LexerError::IndentationMismatch { line: 7, expected: 4, found: 2, span };
    assert_eq!(
        indent.message(),
        "indentation mismatch: expected 4 spaces, found 2 (line 7)"
    );
    let unterminated = LexerError::UnterminatedString { line: 9, column: 1, span };
    assert_eq!(
        unterminated.message(),
        "unterminated string literal (line 9, column 1)"
    );
    let unexpected = LexerError::UnexpectedCharacter { ch: '%', line: 2, column: 6, span };
    assert_eq!(
        unexpected.message(),
        "unexpected character `%` (line 2, column 6)"
    );
}

#[test]
fn diagnostics_carry_severity_source_span_and_message() {
    let span = otterc::diagnostics::Span::new(10, 14);
    let err = LexerError::TabsNotAllowed { line: 1, column: 11, span };
    let diag = err.to_diagnostic("demo.ot");
    assert_eq!(diag.severity, DiagnosticSeverity::Error);
    assert_eq!(diag.source_id, "demo.ot");
    assert_eq!(diag.span.start(), 10);
    assert_eq!(diag.span.end(), 14);
    assert_eq!(diag.message, "tabs are not allowed for indentation (line 1, column 11)");
}

#[test]
fn foreign_types_render_like_their_lattice() {
    assert_eq!(FfiType::Unit.describe(), "unit");
    assert_eq!(FfiType::Opaque.describe(), "opaque");
    assert_eq!(FfiType::Dict.describe(), "map");
    let st = FfiType::Struct {
        fields: vec![FfiType::I64, FfiType::Str],
    };
    assert_eq!(st.describe(), "struct {i64, str}");
    let tup = FfiType::Tuple(vec![FfiType::Bool, FfiType::List]);
    assert_eq!(tup.describe(), "(bool, list)");
    let sig = FfiSignature::new(vec![FfiType::Str, FfiType::I32], FfiType::F64);
    assert_eq!(sig.describe(), "(str, i32) -> f64");
    let nullary = FfiSignature::new(vec![], FfiType::Unit);
    assert_eq!(nullary.describe(), "() -> unit");
}

#[test]
fn indentation_steps_track_depth_changes() {
    let start = LexerExtras::default();
    assert_eq!(start.indent_stack, 0);
    // A deeper line indents; returning to the old depth dedents.
    assert_eq!(indentation_update(0, 4), Ok((1, Some(Indentation::Indent(1)))));
    assert_eq!(indentation_update(1, 0), Ok((0, Some(Indentation::Dedent(0)))));
    // An unchanged depth emits nothing.
    assert_eq!(indentation_update(2, 8), Ok((2, None)));
}

#[test]
fn short_indentation_is_rejected() {
    assert_eq!(indentation_update(0, 3), Err(IndentError::ShortIndentDedent(3)));
}

#[test]
fn indentation_deeper_than_the_stack_overflows() {
    let too_deep = (u16::MAX as usize + 1) * INDENT_DEDENT_SIZE;
    assert_eq!(indentation_update(0, too_deep), Err(IndentError::IndentStackOverflow));
}
