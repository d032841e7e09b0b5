use sample_parser::api::TopLevelGrammar;
use sample_parser::driver::{Factory, ParserSession, TokenSource, TokensOutcome};

/// A byte-level vocabulary: every single byte, then EOS.
fn make_source() -> TokenSource {
    let mut words: Vec<Vec<u8>> = (0u32..=255).map(|b| vec![b as u8]).collect();
    let mut eos = vec![0xFFu8];
    eos.extend_from_slice(b"<|endoftext|>");
    words.push(eos);
    let info = toktrie::TokRxInfo::new(words.len() as u32, words.len() as u32 - 1);
    let trie = toktrie::TokTrie::from(&info, &words);
    TokenSource::from_trie(&trie)
}

fn make_parser(factory: &Factory, lark: &str) -> ParserSession {
    let grm = TopLevelGrammar::from_lark(lark.to_string());
    let mut parser = factory.create_session(&grm).unwrap();
    parser.start_without_prompt();
    parser
}

fn lark_str_test(src: &TokenSource, factory: &Factory, lark: &str, should_accept: bool, s: &str) {
    let tokens = src.tokenize(s);
    let mut p = make_parser(factory, lark);
    match p.check_tokens(&tokens) {
        TokensOutcome::Accepted => {
            if !should_accept {
                panic!("unexpected accept; grm:\n{}\ninput: {:?}", lark, s);
            }
        }
        TokensOutcome::NotAccepting | TokensOutcome::Rejected(_) => {
            if should_accept {
                panic!("unexpected reject; grm:\n{}\ninput: {:?}", lark, s);
            }
        }
        TokensOutcome::EngineError(e) => panic!("engine error: {}; grm:\n{}", e, lark),
    }
}

fn lark_str_test_many(src: &TokenSource, factory: &Factory, lark: &str, passing: &[&str], failing: &[&str]) {
    for s in passing {
        lark_str_test(src, factory, lark, true, s);
    }
    for s in failing {
        lark_str_test(src, factory, lark, false, s);
    }
}

#[test]
fn test_raw_parser_test_dot_unicode() {
    let src = make_source();
    let factory = Factory::new(&src, false, false).unwrap();
    lark_str_test_many(
        &src,
        &factory,
        r#"start: /.../ "abc" /.../"#,
        &[
            "abcabcabc",
            "aaaabcccc",
            // NOTE: Also ensures that multi-byte characters still count as a single character
            "🔵🟠✅abc❌🟠🔵",
        ],
        &[
            "aaabcccc",
            "aaaaabcccc",
            "aaaabccc",
            "aaaabccccc",
            "🔵🟠✅❌abc❌✅🟠🔵",
            "🔵🟠abc🟠🔵",
        ],
    );
}

#[test]
fn test_gbnf_compat() {
    let src = make_source();
    let factory = Factory::new(&src, false, false).unwrap();
    lark_str_test_many(
        &src,
        &factory,
        r#"start: ab{3,5}
           ab: "a" | "b"
        "#,
        &["aba", "abaa", "aaaaa", "aabaa"],
        &["aa", "ab", "aaaaaa"],
    );

    lark_str_test_many(
        &src,
        &factory,
        r#"start: ab{3,}
           ab: "a" | "b"
        "#,
        &["aba", "abaa", "aaaaa", "aabaa", "aaaaaa"],
        &["aa", "ab"],
    );

    lark_str_test_many(
        &src,
        &factory,
        r#"start: ab{,5}
           ab: "a" | "b"
        "#,
        &["", "aa", "b", "aba", "abaa", "aaaaa", "aabaa"],
        &["aaaaaa"],
    );
}
