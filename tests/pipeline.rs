use huginn::decode::percent_decode;
use huginn::validation::{conclude, format_symbols, sanitize_input, screen, BLOCK_NOTICE};
use huginn::{sanitize_and_validate, SecurityConfig, SanitizedInput, ValidationError, Validator};

struct EmailValidator;

impl Validator<String> for EmailValidator {
    fn validate(&self, input: &str) -> Result<String, ValidationError> {
        let parts: Vec<&str> = input.split('@').collect();
        if parts.len() == 2 && !parts[0].is_empty() && parts[1].contains('.') {
            Ok(input.to_string())
        } else {
            Err(ValidationError::InvalidFormat { target_type: self.target_type() })
        }
    }

    fn target_type(&self) -> &'static str {
        "email"
    }
}

struct LengthValidator {
    max: usize,
}

impl Validator<String> for LengthValidator {
    fn validate(&self, input: &str) -> Result<String, ValidationError> {
        if input.len() <= self.max {
            Ok(input.to_string())
        } else {
            Err(ValidationError::custom("Input too long"))
        }
    }

    fn target_type(&self) -> &'static str {
        "string"
    }
}

struct NumberValidator;

impl Validator<i32> for NumberValidator {
    fn validate(&self, input: &str) -> Result<i32, ValidationError> {
        input
            .parse()
            .map_err(|_| ValidationError::InvalidFormat { target_type: self.target_type() })
    }

    fn target_type(&self) -> &'static str {
        "i32"
    }
}

struct RefusingValidator;

impl Validator<String> for RefusingValidator {
    fn validate(&self, _input: &str) -> Result<String, ValidationError> {
        Err(ValidationError::custom("validator reached"))
    }

    fn target_type(&self) -> &'static str {
        "never"
    }
}

#[test]
fn encoded_script_is_dangerous() {
    let config = SecurityConfig::default();
    let r = sanitize_and_validate("%3Cscript%3Ealert('x')%3C/script%3E", &LengthValidator { max: 100 }, &config);
    match r {
        Err(ValidationError::DangerousCharacters { symbols, count }) => {
            assert!(count >= 3);
            assert_eq!(count, 6);
            assert_eq!(symbols, "'<', '>', ''', ''', '<', '>'");
        }
        other => panic!("unexpected: {:?}", other),
    }
}

#[test]
fn good_email_passes() {
    let config = SecurityConfig::default();
    let r = sanitize_and_validate("good@example.com", &EmailValidator, &config).unwrap();
    assert_eq!(r.cleaned, "good@example.com");
    assert_eq!(r.original, "good@example.com");
}

#[test]
fn drop_table_is_blocked() {
    let config = SecurityConfig::default();
    let r = sanitize_and_validate("DROP TABLE users", &RefusingValidator, &config);
    assert_eq!(r.unwrap_err(), ValidationError::BlockedPattern { pattern: "blocked pattern detected".to_string() });
}

#[test]
fn long_input_fails_at_validator() {
    let config = SecurityConfig::default();
    let r = sanitize_and_validate("AAAAAAAAAAAAAAAAAAAA", &LengthValidator { max: 10 }, &config);
    assert_eq!(r.unwrap_err(), ValidationError::custom("Input too long"));
}

#[test]
fn forbidden_chars_win_over_validator_and_patterns() {
    let config = SecurityConfig::default();
    // `;` is both forbidden and a blocked pattern; the character gate reports first.
    let r = sanitize_and_validate("a;b;c", &RefusingValidator, &config);
    assert_eq!(
        r.unwrap_err(),
        ValidationError::DangerousCharacters { symbols: "';', ';'".to_string(), count: 2 }
    );
}

#[test]
fn blocked_pattern_stops_before_validator() {
    let config = SecurityConfig::default();
    let r = sanitize_and_validate("cat ../etc/passwd", &RefusingValidator, &config);
    assert_eq!(r.unwrap_err(), ValidationError::BlockedPattern { pattern: BLOCK_NOTICE.to_string() });
}

#[test]
fn validator_error_passes_unchanged() {
    let config = SecurityConfig::default();
    let r = sanitize_and_validate("forty two", &NumberValidator, &config);
    assert_eq!(r.unwrap_err(), ValidationError::InvalidFormat { target_type: "i32" });
}

#[test]
fn success_keeps_raw_input() {
    let config = SecurityConfig::builder().build();
    let r = sanitize_and_validate("4%32", &NumberValidator, &config).unwrap();
    assert_eq!(r.cleaned, 42);
    assert_eq!(r.original, "4%32");
}

#[test]
fn custom_config_blocks_five_digits() {
    let config = SecurityConfig::builder()
        .add_forbidden_char('#')
        .add_blocked_pattern(r"\d{5}")
        .unwrap()
        .build();
    assert_eq!(sanitize_and_validate("42", &NumberValidator, &config).unwrap().cleaned, 42);
    assert!(matches!(
        sanitize_and_validate("12345", &NumberValidator, &config),
        Err(ValidationError::BlockedPattern { .. })
    ));
    assert_eq!(
        sanitize_and_validate("#1", &NumberValidator, &config).unwrap_err(),
        ValidationError::DangerousCharacters { symbols: "'#'".to_string(), count: 1 }
    );
}

#[test]
fn invalid_pattern_is_refused() {
    assert!(SecurityConfig::builder().add_blocked_pattern("(unclosed").is_err());
}

#[test]
fn default_forbidden_chars() {
    let config = SecurityConfig::default();
    for c in ['<', '>', '&', '\'', '"', '\\', ';', '`'] {
        assert!(config.is_char_forbidden(&c));
    }
    assert!(!config.is_char_forbidden(&'a'));
    assert!(!config.is_char_forbidden(&'@'));
    let empty = SecurityConfig::builder().build();
    assert!(!empty.is_char_forbidden(&'<'));
}

#[test]
fn default_patterns_cover_each_family() {
    let config = SecurityConfig::default();
    assert!(config.has_blocked_pattern("select * from users"));
    assert!(config.has_blocked_pattern("javascript:void"));
    assert!(config.has_blocked_pattern("..\\windows"));
    assert!(config.has_blocked_pattern("%41%42"));
    assert!(config.has_blocked_pattern("rm -rf /"));
    assert!(!config.has_blocked_pattern("hello world"));
    assert!(!SecurityConfig::builder().build().has_blocked_pattern("DROP TABLE users"));
}

#[test]
fn builder_steps_chain() {
    let config = SecurityConfig::builder()
        .with_default_forbidden_chars()
        .add_forbidden_char('$')
        .with_default_blocked_patterns()
        .build();
    assert!(config.is_char_forbidden(&'$'));
    assert!(config.is_char_forbidden(&'<'));
    assert!(config.has_blocked_pattern("union all"));
    let only_chars = huginn::SecurityConfigBuilder::new().with_default_forbidden_chars().build();
    assert!(!only_chars.has_blocked_pattern("union all"));
}

#[test]
fn sanitize_splits_input() {
    let config = SecurityConfig::default();
    let (cleaned, bad) = sanitize_input("a<b>c&&d", &config);
    assert_eq!(cleaned, "abcd");
    assert_eq!(bad, vec!['<', '>', '&', '&']);
    let (cleaned, bad) = sanitize_input("", &config);
    assert_eq!(cleaned, "");
    assert!(bad.is_empty());
}

#[test]
fn sanitize_is_idempotent() {
    let config = SecurityConfig::default();
    let (once, _) = sanitize_input("x<y'z\"w", &config);
    let (twice, bad) = sanitize_input(&once, &config);
    assert_eq!(once, "xyzw");
    assert_eq!(twice, once);
    assert!(bad.is_empty());
}

#[test]
fn decode_plain_text_unchanged() {
    assert_eq!(percent_decode("hello world+ok"), "hello world+ok");
    assert_eq!(percent_decode(""), "");
}

#[test]
fn decode_percent_sequences() {
    assert_eq!(percent_decode("%3Cb%3E"), "<b>");
    assert_eq!(percent_decode("100%zz"), "100%zz");
    // Decodes to bytes that are not UTF-8: the raw input is used.
    assert_eq!(percent_decode("%FF%FE"), "%FF%FE");
}

#[test]
fn symbols_are_quoted_and_joined() {
    assert_eq!(format_symbols(&vec!['<', '&']), "'<', '&'");
    assert_eq!(format_symbols(&vec!['x']), "'x'");
    assert_eq!(format_symbols(&vec![]), "");
}

#[test]
fn screen_returns_cleaned_text() {
    let config = SecurityConfig::default();
    assert_eq!(screen("hello%20there", &config).unwrap(), "hello there");
    assert!(matches!(screen("%3C", &config), Err(ValidationError::DangerousCharacters { count: 1, .. })));
}

#[test]
fn conclude_pairs_value_with_input() {
    let r: Result<SanitizedInput<u8>, ValidationError> = conclude("raw", Ok(7));
    let s = r.unwrap();
    assert_eq!(s.original, "raw");
    assert_eq!(s.cleaned, 7);
    let e: Result<SanitizedInput<u8>, ValidationError> = conclude("raw", Err(ValidationError::custom("no")));
    assert_eq!(e.unwrap_err(), ValidationError::Custom { message: "no".to_string() });
}

#[test]
fn custom_error_from_string() {
    assert_eq!(
        ValidationError::custom(format!("max {}", 3)),
        ValidationError::Custom { message: "max 3".to_string() }
    );
}
