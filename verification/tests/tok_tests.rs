use oil::tok::{StrView, Tok, Tokenizer};

fn tokens_of(text: &str) -> Vec<(usize, Tok, usize)> {
    let mut tk = Tokenizer::new(text, 0);
    let mut out = Vec::new();
    loop {
        match tk.next() {
            None => return out,
            Some(Ok(t)) => out.push(t),
            Some(Err(e)) => panic!("lex error: {:?}", e),
        }
    }
}

#[test]
fn test_text_node_round_trip() {
    // The captured range of a text node is the exact source slice
    // between the opening of the body and the terminating delimiter.
    let source = "view v = Hello there {x};";
    let mut tk = Tokenizer::new(source, 0);
    assert_eq!(tk.next().unwrap().unwrap().1, Tok::View);
    let mut found = false;
    loop {
        match tk.next() {
            None => break,
            Some(Ok((l, Tok::TextNode(v), r))) => {
                found = true;
                assert_eq!(v.begin_at, l);
                assert_eq!(v.finish_at + 1, r);
                let content = tk.text_of(&v);
                let chars: Vec<char> = source.chars().collect();
                let slice: String = chars[v.begin_at..v.finish_at].iter().collect();
                assert_eq!(content, slice);
                assert_eq!(content, "Hello there ");
                break;
            }
            Some(Ok(_)) => {}
            Some(Err(e)) => panic!("lex error: {:?}", e),
        }
    }
    assert!(found);
}

#[test]
fn test_keywords_and_symbols() {
    let toks = tokens_of("import export from view template if");
    let kinds: Vec<Tok> = toks.into_iter().map(|t| t.1).collect();
    assert_eq!(
        kinds,
        vec![Tok::Import, Tok::Export, Tok::From, Tok::View, Tok::Template, Tok::If]
    );
}

#[test]
fn test_body_state_machine() {
    // `template x = a<a>;` switches into the body on the equals sign,
    // into the tag on `<`, back out on `>`, and back to plain code on
    // the semicolon.
    let toks = tokens_of("template x = a<a>;b");
    let kinds: Vec<Tok> = toks.iter().map(|t| t.1).collect();
    assert!(matches!(kinds[0], Tok::Template));
    assert!(matches!(kinds[1], Tok::Id(_)));
    assert!(matches!(kinds[2], Tok::Equals));
    assert!(matches!(kinds[3], Tok::TextNode(_)));
    assert!(matches!(kinds[4], Tok::LessThan));
    assert!(matches!(kinds[5], Tok::Id(_)));
    assert!(matches!(kinds[6], Tok::GreaterThan));
    assert!(matches!(kinds[7], Tok::Semi));
    assert!(matches!(kinds[8], Tok::Id(_)));
}

#[test]
fn test_string_literal_escapes() {
    // The literal's range excludes the quotes; an escaped quote does not
    // terminate it.
    let source = r#"x = 'a\'b'"#;
    let toks = tokens_of(source);
    let mut tk = Tokenizer::new(source, 0);
    let _ = tk.next();
    match toks.iter().find(|t| matches!(t.1, Tok::StringLiteral(_))) {
        Some((_, Tok::StringLiteral(v), _)) => {
            assert_eq!(tk.text_of(v), r#"a\'b"#);
        }
        other => panic!("no string literal: {:?}", other),
    }
}

#[test]
fn test_comments_are_skipped() {
    let toks = tokens_of("a // comment\nb");
    assert_eq!(toks.len(), 2);
    assert!(matches!(toks[0].1, Tok::Id(_)));
    assert!(matches!(toks[1].1, Tok::Id(_)));
}

#[test]
fn test_numbers_and_hex() {
    let source = "12.5 #FF00aa 7";
    let toks = tokens_of(source);
    let mut tk = Tokenizer::new(source, 0);
    let _ = tk.next();
    match toks[0].1 {
        Tok::Number(v) => assert_eq!(tk.text_of(&v), "12.5"),
        ref other => panic!("unexpected {:?}", other),
    }
    match toks[1].1 {
        Tok::Hex(v) => assert_eq!(tk.text_of(&v), "FF00aa"),
        ref other => panic!("unexpected {:?}", other),
    }
    match toks[2].1 {
        Tok::Number(v) => assert_eq!(tk.text_of(&v), "7"),
        ref other => panic!("unexpected {:?}", other),
    }
}

#[test]
fn test_shift_moves_spans() {
    let toks_base = tokens_of("a + b");
    let mut tk = Tokenizer::new("a + b", 100);
    let mut shifted = Vec::new();
    while let Some(r) = tk.next() {
        shifted.push(r.unwrap());
    }
    assert_eq!(toks_base.len(), shifted.len());
    for (b, s) in toks_base.iter().zip(shifted.iter()) {
        assert_eq!(b.0 + 100, s.0);
        assert_eq!(b.2 + 100, s.2);
    }
}

#[test]
fn test_strview_merge() {
    let a = StrView { begin_at: 3, finish_at: 5 };
    let b = StrView { begin_at: 1, finish_at: 4 };
    let m = a.merge(b);
    assert_eq!(m.begin_at, 1);
    assert_eq!(m.finish_at, 5);
}

#[test]
fn test_unterminated_text_node_fails() {
    let mut tk = Tokenizer::new("view v = no end", 0);
    let mut last = None;
    while let Some(r) = tk.next() {
        last = Some(r);
    }
    match last {
        Some(Err(e)) => assert_eq!(e.code, oil::tok::ErrorCode::UnterminatedTextNode),
        other => panic!("expected a lex error, got {:?}", other),
    }
}

#[test]
fn test_unterminated_string_fails() {
    let mut tk = Tokenizer::new("x = 'abc", 0);
    let mut last = None;
    while let Some(r) = tk.next() {
        last = Some(r);
    }
    match last {
        Some(Err(e)) => {
            assert_eq!(e.code, oil::tok::ErrorCode::UnterminatedStringLiteral)
        }
        other => panic!("expected a lex error, got {:?}", other),
    }
}

#[test]
fn test_unicode_identifiers_and_whitespace() {
    // A non-ASCII letter starts an identifier through the identifier
    // tables, and a no-break space separates tokens like any whitespace.
    let source = "\u{e9}t\u{e9} +\u{a0}x";
    let toks = tokens_of(source);
    assert!(matches!(toks[0].1, Tok::Id(_)));
    assert!(matches!(toks[1].1, Tok::Plus));
    assert!(matches!(toks[2].1, Tok::Id(_)));
    let mut tk = Tokenizer::new(source, 0);
    let _ = tk.next();
    match toks[0].1 {
        Tok::Id(v) => assert_eq!(tk.text_of(&v), "\u{e9}t\u{e9}"),
        ref other => panic!("unexpected {:?}", other),
    }
}

#[test]
fn test_unrecognized_token_fails() {
    let mut tk = Tokenizer::new("a & b", 0);
    let mut last = None;
    while let Some(r) = tk.next() {
        if r.is_err() {
            last = Some(r);
            break;
        }
    }
    match last {
        Some(Err(e)) => assert_eq!(e.code, oil::tok::ErrorCode::UnrecognizedToken),
        other => panic!("expected a lex error, got {:?}", other),
    }
}
