use sample_parser::api::{
    GrammarWithLexer, JsonCompileOptions, LLGuidanceOptions, NodeProps, ParserLimits, RegexExt,
    StopReason, TopLevelGrammar,
};
use sample_parser::chunks::{chunk_into_chars, compile_lark_regex};
use sample_parser::cli::{grammar_file_kind, GrammarFileKind};
use sample_parser::context::{Context, Draft, Schema};
use sample_parser::formats::lookup_format;
use sample_parser::ranges::{parse_dec_u32, parse_token_ranges};
use sample_parser::surface::{compile_literal_range, import_local_name, validate_repeat_range};
use sample_parser::lexer::{
    advance, allows_eos, check_for_single_byte_lexeme, force_lexeme_end, try_lexeme_end,
    LexerResult, PreLexeme, StateInfo,
};

#[test]
fn test_stop_reason_names() {
    assert_eq!(StopReason::NotStopped.to_string(), "NotStopped");
    assert_eq!(StopReason::MaxTokensTotal.to_string(), "MaxTokensTotal");
    assert_eq!(StopReason::EndOfSentence.to_string(), "EndOfSentence");
    assert_eq!(StopReason::LexerTooComplex.to_string(), "LexerTooComplex");

    assert!(StopReason::NotStopped.is_ok());
    assert!(StopReason::EndOfSentence.is_ok());
    assert!(StopReason::NoExtension.is_ok());
    assert!(StopReason::NoExtensionBias.is_ok());
    assert!(!StopReason::MaxTokensTotal.is_ok());
    assert!(!StopReason::MaxTokensParser.is_ok());
    assert!(!StopReason::InternalError.is_ok());
    assert!(!StopReason::LexerTooComplex.is_ok());
    assert!(!StopReason::ParserTooComplex.is_ok());
}

#[test]
fn test_options_apply() {
    let mut a = LLGuidanceOptions::default();
    assert!(!a.no_forcing && !a.allow_invalid_utf8);
    let b = LLGuidanceOptions {
        no_forcing: true,
        allow_invalid_utf8: false,
    };
    a.apply(&b);
    assert!(a.no_forcing);
    assert!(!a.allow_invalid_utf8);
    // applying an all-unset option changes nothing
    a.apply(&LLGuidanceOptions::default());
    assert!(a.no_forcing && !a.allow_invalid_utf8);
}

#[test]
fn test_parser_limits_default() {
    let l = ParserLimits::default();
    assert_eq!(l.max_items_in_row, 2000);
    assert_eq!(l.initial_lexer_fuel, 1_000_000);
    assert_eq!(l.step_lexer_fuel, 200_000);
    assert_eq!(l.step_max_items, 50_000);
    assert_eq!(l.max_lexer_states, 250_000);
    assert_eq!(l.max_grammar_size, 500_000);
}

#[test]
fn test_grammar_constructors() {
    let g = TopLevelGrammar::from_lark("start: \"a\"".to_string());
    assert_eq!(g.grammars.len(), 1);
    assert_eq!(g.grammars[0].name.as_deref(), Some("lark_grammar"));
    assert_eq!(g.grammars[0].lark_grammar.as_deref(), Some("start: \"a\""));
    assert!(g.grammars[0].json_schema.is_none());
    assert!(g.max_tokens.is_none());

    let g = TopLevelGrammar::from_json_schema("{\"type\":\"object\"}".to_string());
    assert_eq!(g.grammars[0].name.as_deref(), Some("json_schema"));
    assert_eq!(
        g.grammars[0].json_schema.as_deref(),
        Some("{\"type\":\"object\"}")
    );
    assert!(g.grammars[0].lark_grammar.is_none());

    let g = GrammarWithLexer::default();
    assert!(g.name.is_none() && g.json_schema.is_none() && g.lark_grammar.is_none());

    let p = NodeProps::default();
    assert!(p.max_tokens.is_none() && p.name.is_none() && p.capture_name.is_none());
}

#[test]
fn test_grammar_from_str() {
    let g = TopLevelGrammar::from_str("start: \"x\"").unwrap();
    assert_eq!(g.grammars[0].lark_grammar.as_deref(), Some("start: \"x\""));

    // leading whitespace before a lark grammar is kept
    let g = TopLevelGrammar::from_str("  start: \"x\"").unwrap();
    assert_eq!(g.grammars[0].lark_grammar.as_deref(), Some("  start: \"x\""));

    // a JSON request is parsed into its grammar list
    let g = TopLevelGrammar::from_str(
        "{\"grammars\":[{\"lark_grammar\":\"start: \\\"y\\\"\"}],\"max_tokens\":7}",
    )
    .unwrap();
    assert_eq!(g.grammars.len(), 1);
    assert_eq!(g.grammars[0].lark_grammar.as_deref(), Some("start: \"y\""));
    assert_eq!(g.max_tokens, Some(7));

    assert!(TopLevelGrammar::from_str("{not json").is_err());
}

#[test]
fn test_grammar_from_regex() {
    let g = TopLevelGrammar::from_regex("[ab]+c");
    assert_eq!(g.grammars.len(), 1);
    assert_eq!(g.grammars[0].name.as_deref(), Some("regex"));
    let lark = g.grammars[0].lark_grammar.as_deref().unwrap();
    assert!(lark.starts_with("start: /"));
    assert!(lark.ends_with("/"));
}

#[test]
fn test_json_compile_options() {
    let o = JsonCompileOptions::default();
    assert_eq!(o.item_separator, ",");
    assert_eq!(o.key_separator, ":");
    assert!(o.whitespace_flexible);
    assert!(!o.coerce_one_of);

    let o = JsonCompileOptions::new(", ".to_string(), ": ".to_string(), false, true);
    assert_eq!(o.item_separator, ", ");
    assert_eq!(o.key_separator, ": ");
    assert!(!o.whitespace_flexible);
    assert!(o.coerce_one_of);
}

#[test]
fn test_lookup_format_table() {
    assert_eq!(
        lookup_format("date"),
        Some(r"[0-9]{4}-(?:0[1-9]|1[0-2])-(?:0[1-9]|[12][0-9]|3[01])")
    );
    assert_eq!(lookup_format("unknown"), Some(r"(?s:.*)"));
    assert!(lookup_format("date-time").unwrap().contains("[tT]"));
    assert!(lookup_format("uuid").unwrap().contains("time_low"));
    assert!(lookup_format("no-such-format").is_none());
    assert!(lookup_format("").is_none());
}

#[test]
fn test_context_defs_and_seen() {
    let mut ctx = Context::new(Draft::Draft202012, 3);

    assert!(ctx.get_ref_cloned("urn:a").is_none());
    ctx.insert_ref(
        "urn:a",
        Schema {
            json: "{\"type\":\"string\"}".to_string(),
        },
    );
    assert_eq!(
        ctx.get_ref_cloned("urn:a").unwrap().json,
        "{\"type\":\"string\"}"
    );
    // overwriting shadows the earlier entry
    ctx.insert_ref(
        "urn:a",
        Schema {
            json: "{}".to_string(),
        },
    );
    assert_eq!(ctx.get_ref_cloned("urn:a").unwrap().json, "{}");
    assert!(ctx.get_ref_cloned("urn:b").is_none());

    assert!(!ctx.been_seen("urn:a"));
    ctx.mark_seen("urn:a");
    assert!(ctx.been_seen("urn:a"));
    assert!(!ctx.been_seen("urn:b"));

    // the counter fails once the limit is exceeded
    assert!(ctx.increment().is_ok());
    assert!(ctx.increment().is_ok());
    assert!(ctx.increment().is_ok());
    match ctx.increment() {
        Err(e) => assert_eq!(e, "schema too large"),
        Ok(_) => panic!("expected error"),
    }

    let defs = ctx.take_defs();
    assert_eq!(defs.len(), 2);
    assert_eq!(defs[0].0, "urn:a");
    assert!(ctx.get_ref_cloned("urn:a").is_none());
}

#[test]
fn test_keyword_tables() {
    // base keywords are known to every draft
    assert!(Draft::Draft4.is_known_keyword("properties"));
    assert!(Draft::Draft202012.is_known_keyword("properties"));

    // draft-dependent keywords
    assert!(Draft::Draft4.is_known_keyword("id"));
    assert!(!Draft::Draft7.is_known_keyword("id"));
    assert!(Draft::Draft6.is_known_keyword("$id"));
    assert!(!Draft::Draft4.is_known_keyword("$id"));
    assert!(Draft::Draft7.is_known_keyword("if"));
    assert!(!Draft::Draft6.is_known_keyword("if"));
    assert!(Draft::Draft201909.is_known_keyword("prefixItems"));
    assert!(!Draft::Draft7.is_known_keyword("prefixItems"));
    assert!(Draft::Draft202012.is_known_keyword("$dynamicRef"));
    assert!(!Draft::Draft201909.is_known_keyword("$dynamicRef"));
    assert!(!Draft::Draft202012.is_known_keyword("frobnicate"));

    let ctx = Context::new(Draft::Draft202012, 10);
    // implemented keyword
    assert!(ctx.is_valid_keyword("properties"));
    // metadata keyword
    assert!(ctx.is_valid_keyword("title"));
    // unknown to the draft, hence ignorable
    assert!(ctx.is_valid_keyword("frobnicate"));
    // known to the draft but neither implemented nor metadata
    assert!(!ctx.is_valid_keyword("dependencies"));
    assert!(!ctx.is_valid_keyword("if"));

    // "if" is unknown to draft 4, hence ignorable there
    let ctx4 = Context::new(Draft::Draft4, 10);
    assert!(ctx4.is_valid_keyword("if"));
}

#[test]
fn test_compile_lark_regex_fields() {
    let none = RegexExt {
        substring_chunks: None,
        substring_words: None,
        substring_chars: None,
    };
    match compile_lark_regex(none) {
        Err(e) => assert_eq!(e, "no fields set on %regex"),
        Ok(_) => panic!("expected error"),
    }

    let two = RegexExt {
        substring_chunks: None,
        substring_words: Some("aa".to_string()),
        substring_chars: Some("bb".to_string()),
    };
    match compile_lark_regex(two) {
        Err(e) => assert_eq!(e, "only one field can be set on %regex"),
        Ok(_) => panic!("expected error"),
    }

    let chunks = RegexExt {
        substring_chunks: Some(vec!["foo".to_string(), " bar".to_string()]),
        substring_words: None,
        substring_chars: None,
    };
    assert_eq!(
        compile_lark_regex(chunks).unwrap(),
        vec!["foo".to_string(), " bar".to_string()]
    );

    let words = RegexExt {
        substring_chunks: None,
        substring_words: Some("foo bar".to_string()),
        substring_chars: None,
    };
    assert_eq!(
        compile_lark_regex(words).unwrap(),
        vec!["foo".to_string(), " ".to_string(), "bar".to_string()]
    );

    let chars = RegexExt {
        substring_chunks: None,
        substring_words: None,
        substring_chars: Some("a🔵b".to_string()),
    };
    assert_eq!(
        compile_lark_regex(chars).unwrap(),
        vec!["a".to_string(), "🔵".to_string(), "b".to_string()]
    );
}

#[test]
fn test_chunk_into_chars_unicode() {
    assert_eq!(chunk_into_chars(""), Vec::<String>::new());
    assert_eq!(
        chunk_into_chars("빠른"),
        vec!["빠".to_string(), "른".to_string()]
    );
}

#[test]
fn test_grammar_file_kinds() {
    assert_eq!(grammar_file_kind("g.ll.json"), GrammarFileKind::GrammarList);
    assert_eq!(
        grammar_file_kind("g.schema.json"),
        GrammarFileKind::JsonSchema
    );
    assert_eq!(grammar_file_kind("g.lark"), GrammarFileKind::Lark);
    assert_eq!(grammar_file_kind("g.txt"), GrammarFileKind::SubstringText);
    assert_eq!(grammar_file_kind("g.json"), GrammarFileKind::Unknown);
}

fn live_state(lowest_match: Option<(usize, usize)>, special: bool) -> StateInfo {
    StateInfo {
        is_dead: false,
        lowest_possible: Some(0),
        lowest_accepting: None,
        lowest_match,
        has_special_token: special,
        forced_eoi: false,
    }
}

#[test]
fn test_lexer_advance_policy() {
    let dead = StateInfo {
        is_dead: true,
        lowest_possible: None,
        lowest_accepting: None,
        lowest_match: None,
        has_special_token: false,
        forced_eoi: false,
    };
    let prev_accepting = StateInfo {
        lowest_accepting: Some(3),
        ..live_state(None, false)
    };
    let prev_plain = live_state(None, false);

    // dead state, byte cannot start a lexeme: error
    assert_eq!(advance(&prev_accepting, &dead, b'x', false), LexerResult::Error);
    // dead state, byte could start a lexeme, previous state accepted: the
    // previous lexeme ends and the byte moves to the next row
    assert_eq!(
        advance(&prev_accepting, &dead, b'x', true),
        LexerResult::Lexeme(PreLexeme {
            idx: 3,
            byte: Some(b'x'),
            byte_next_row: true,
            hidden_len: 0,
        })
    );
    // dead state, nothing accepted before: error
    assert_eq!(advance(&prev_plain, &dead, b'x', true), LexerResult::Error);

    // live state with a match: the lowest matched lexeme is emitted
    assert_eq!(
        advance(&prev_plain, &live_state(Some((1, 2)), false), b'y', true),
        LexerResult::Lexeme(PreLexeme {
            idx: 1,
            byte: Some(b'y'),
            byte_next_row: false,
            hidden_len: 2,
        })
    );
    // live state with a special-token match
    assert_eq!(
        advance(&prev_plain, &live_state(Some((1, 0)), true), b'y', true),
        LexerResult::SpecialToken
    );
    // live state without a match: keep scanning
    assert_eq!(
        advance(&prev_plain, &live_state(None, false), b'z', true),
        LexerResult::State(b'z')
    );

    assert!(LexerResult::Error.is_error());
    assert!(!LexerResult::State(b'z').is_error());
}

#[test]
fn test_lexer_end_policies() {
    let none = live_state(None, false);
    assert_eq!(force_lexeme_end(&none), LexerResult::Lexeme(PreLexeme {
        idx: 0,
        byte: None,
        byte_next_row: false,
        hidden_len: 0,
    }));
    assert_eq!(try_lexeme_end(&none), LexerResult::Error);

    let accepting = StateInfo {
        lowest_accepting: Some(2),
        ..none
    };
    assert_eq!(try_lexeme_end(&accepting), LexerResult::Lexeme(PreLexeme {
        idx: 2,
        byte: None,
        byte_next_row: false,
        hidden_len: 0,
    }));

    let empty = StateInfo {
        is_dead: true,
        lowest_possible: None,
        lowest_accepting: None,
        lowest_match: None,
        has_special_token: false,
        forced_eoi: false,
    };
    assert_eq!(force_lexeme_end(&empty), LexerResult::Error);

    let forced = StateInfo {
        forced_eoi: true,
        ..none
    };
    assert_eq!(
        check_for_single_byte_lexeme(&forced, b'q'),
        Some(PreLexeme {
            idx: 0,
            byte: Some(b'q'),
            byte_next_row: false,
            hidden_len: 0,
        })
    );
    assert_eq!(check_for_single_byte_lexeme(&none, b'q'), None);

    assert!(allows_eos(&vec![false, true], &vec![false, true]));
    assert!(!allows_eos(&vec![true, false], &vec![false, true]));
    assert!(!allows_eos(&vec![], &vec![true]));
}

#[test]
fn test_grammar_list_validation() {
    let ok = TopLevelGrammar::from_lark("start: \"a\"".to_string());
    assert!(ok.validate().is_ok());

    let empty = TopLevelGrammar {
        grammars: vec![],
        max_tokens: None,
    };
    assert_eq!(empty.validate().unwrap_err(), "empty grammars array");

    let unusable = TopLevelGrammar {
        grammars: vec![GrammarWithLexer::default()],
        max_tokens: None,
    };
    assert_eq!(
        unusable.validate().unwrap_err(),
        "grammar must have either lark_grammar or json_schema"
    );

    let mut a = GrammarWithLexer::from_lark("start: \"a\"".to_string());
    a.name = Some("sub".to_string());
    let mut b = GrammarWithLexer::from_lark("start: \"b\"".to_string());
    b.name = Some("sub".to_string());
    let dup = TopLevelGrammar {
        grammars: vec![a, b],
        max_tokens: None,
    };
    assert_eq!(dup.validate().unwrap_err(), "duplicate grammar name");

    let mut c = GrammarWithLexer::from_lark("start: \"a\"".to_string());
    c.name = Some("one".to_string());
    let mut d = GrammarWithLexer::from_lark("start: \"b\"".to_string());
    d.name = Some("two".to_string());
    let distinct = TopLevelGrammar {
        grammars: vec![c, d],
        max_tokens: None,
    };
    assert!(distinct.validate().is_ok());
}

#[test]
fn test_grammar_id_rendering() {
    let id = sample_parser::api::GrammarId::Name("sub".to_string());
    assert_eq!(id.to_string(), "@sub");
}

#[test]
fn test_draft_detection() {
    assert_eq!(
        Draft::detect_from_url("https://json-schema.org/draft/2020-12/schema"),
        Ok(Draft::Draft202012)
    );
    assert_eq!(
        Draft::detect_from_url("https://json-schema.org/draft/2019-09/schema#"),
        Ok(Draft::Draft201909)
    );
    assert_eq!(
        Draft::detect_from_url("http://json-schema.org/draft-07/schema#"),
        Ok(Draft::Draft7)
    );
    assert_eq!(
        Draft::detect_from_url("http://json-schema.org/draft-06/schema"),
        Ok(Draft::Draft6)
    );
    assert_eq!(
        Draft::detect_from_url("http://json-schema.org/draft-04/schema"),
        Ok(Draft::Draft4)
    );
    assert_eq!(
        Draft::detect_from_url("http://example.com/schema"),
        Err("Unknown specification".to_string())
    );
}

#[test]
fn test_parse_dec_u32() {
    assert_eq!(parse_dec_u32("0"), Some(0));
    assert_eq!(parse_dec_u32("42"), Some(42));
    assert_eq!(parse_dec_u32("4294967295"), Some(u32::MAX));
    assert_eq!(parse_dec_u32("4294967296"), None);
    assert_eq!(parse_dec_u32("99999999999999999999"), None);
    assert_eq!(parse_dec_u32(""), None);
    assert_eq!(parse_dec_u32("12a"), None);
    assert_eq!(parse_dec_u32("-3"), None);
}

#[test]
fn test_parse_token_ranges() {
    assert_eq!(parse_token_ranges("1234"), Ok(vec![(1234, 1234)]));
    assert_eq!(
        parse_token_ranges("100-200,300-4002"),
        Ok(vec![(100, 200), (300, 4002)])
    );
    assert_eq!(
        parse_token_ranges("32002-32006,32010"),
        Ok(vec![(32002, 32006), (32010, 32010)])
    );
    assert_eq!(
        parse_token_ranges("100-200-300").unwrap_err(),
        "invalid token range"
    );
    assert_eq!(
        parse_token_ranges("100-200,100-200-300").unwrap_err(),
        "invalid token range"
    );
    assert_eq!(parse_token_ranges(",").unwrap_err(), "empty token range");
    assert_eq!(parse_token_ranges("").unwrap_err(), "empty token range");
    assert_eq!(
        parse_token_ranges("200-100").unwrap_err(),
        "invalid token range"
    );
    assert_eq!(
        parse_token_ranges("1x0").unwrap_err(),
        "invalid token range"
    );
}

#[test]
fn test_literal_range_rule() {
    assert_eq!(compile_literal_range("a", "c"), Ok(('a', 'c')));
    assert_eq!(compile_literal_range("d", "d"), Ok(('d', 'd')));
    assert_eq!(
        compile_literal_range("ab", "c").unwrap_err(),
        "range start must be a single character"
    );
    assert_eq!(
        compile_literal_range("a", "cd").unwrap_err(),
        "range end must be a single character"
    );
    assert_eq!(
        compile_literal_range("d", "a").unwrap_err(),
        "invalid range order"
    );
}

#[test]
fn test_repeat_range_rule() {
    assert_eq!(validate_repeat_range(3, 5), Ok((3, Some(5))));
    assert_eq!(validate_repeat_range(3, i32::MAX), Ok((3, None)));
    assert_eq!(validate_repeat_range(0, 0), Ok((0, Some(0))));
    assert_eq!(
        validate_repeat_range(7, 6).unwrap_err(),
        "range end must be >= start"
    );
    assert_eq!(
        validate_repeat_range(-1, i32::MAX).unwrap_err(),
        "range start must be >= 0"
    );
    assert_eq!(
        validate_repeat_range(0, -1).unwrap_err(),
        "range end must be >= start"
    );
}

#[test]
fn test_import_local_name() {
    assert_eq!(
        import_local_name("common.INT", Some("NUM".to_string())),
        "NUM"
    );
    assert_eq!(import_local_name("common.INT", None), "INT");
    assert_eq!(import_local_name("a.b.c", None), "c");
    assert_eq!(import_local_name("plain", None), "plain");
    assert_eq!(import_local_name("trailing.", None), "");
}
