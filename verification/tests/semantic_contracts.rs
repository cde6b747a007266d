use eal_interfaces::semantic_contracts::{
    EmbeddingInput, EmbeddingInputKind, QueryTextViews, SemanticContractError,
    SemanticTextViews, MAX_COMBINED_EMBEDDING_CHARS, MAX_EMBEDDING_INPUTS,
};

fn sentence_input() -> EmbeddingInput {
    EmbeddingInput {
        kind: EmbeddingInputKind::Sentence,
        ordinal: 0,
        text: "A complete sentence about a renewable energy launch.".into(),
        weight: 1.0f32.to_bits(),
    }
}

fn views_with(inputs: Vec<EmbeddingInput>) -> SemanticTextViews {
    SemanticTextViews {
        document_text: "A page about renewable energy.".into(),
        title: None,
        summary: "A page about renewable energy.".into(),
        keywords: Vec::new(),
        entities: Vec::new(),
        embedding_inputs: inputs,
    }
}

fn input(kind: EmbeddingInputKind, ordinal: u16, text: &str, weight: f32) -> EmbeddingInput {
    EmbeddingInput { kind, ordinal, text: text.into(), weight: weight.to_bits() }
}

#[test]
fn semantic_views_require_ordered_inputs() {
    let mut input = sentence_input();
    input.ordinal = 2;
    let views = SemanticTextViews {
        document_text: "A page about renewable energy.".into(),
        title: None,
        summary: "A page about renewable energy.".into(),
        keywords: vec!["renewable".into(), "energy".into()],
        entities: Vec::new(),
        embedding_inputs: vec![input],
    };
    assert!(views.validate().is_err());
}

#[test]
fn combined_text_retains_view_labels() {
    let views = SemanticTextViews {
        document_text: "A page about renewable energy.".into(),
        title: None,
        summary: "A page about renewable energy.".into(),
        keywords: Vec::new(),
        entities: Vec::new(),
        embedding_inputs: vec![sentence_input()],
    };
    views.validate().unwrap();
    assert_eq!(
        views.combined_embedding_text(),
        "sentence: A complete sentence about a renewable energy launch."
    );
}

#[test]
fn query_views_preserve_full_query_first() {
    let query_text = "Notify me when Acme launches renewable energy tools.";
    let views = QueryTextViews {
        query_text: query_text.into(),
        keywords: vec!["renewable".into(), "energy".into()],
        entities: vec!["Acme".into()],
        embedding_inputs: vec![EmbeddingInput {
            kind: EmbeddingInputKind::Query,
            ordinal: 0,
            text: query_text.into(),
            weight: 1.2f32.to_bits(),
        }],
    };
    views.validate().unwrap();
}

#[test]
fn non_finite_weights_are_rejected() {
    let mut input = sentence_input();
    input.weight = f32::NAN.to_bits();
    assert!(input.validate().is_err());
}

#[test]
fn wire_names_are_snake_case() {
    let cases = [
        (EmbeddingInputKind::Title, "title"),
        (EmbeddingInputKind::Heading, "heading"),
        (EmbeddingInputKind::Summary, "summary"),
        (EmbeddingInputKind::Sentence, "sentence"),
        (EmbeddingInputKind::Entity, "entity"),
        (EmbeddingInputKind::Keyword, "keyword"),
        (EmbeddingInputKind::UrlSignal, "url_signal"),
        (EmbeddingInputKind::Document, "document"),
        (EmbeddingInputKind::Query, "query"),
    ];
    for (kind, name) in cases {
        assert_eq!(kind.wire_name(), name);
    }
    for (a, _) in cases {
        for (b, _) in cases {
            assert_eq!(a == b, a.wire_name() == b.wire_name());
        }
    }
}

#[test]
fn input_text_length_is_counted_in_characters() {
    let err = input(EmbeddingInputKind::Title, 0, "", 1.0).validate().unwrap_err();
    assert_eq!(err.code, "invalid_embedding_input_text");
    assert_eq!(err.message, "embedding input text must contain 1 to 700 characters");
    assert!(input(EmbeddingInputKind::Title, 0, &"é".repeat(700), 1.0).validate().is_ok());
    assert!(input(EmbeddingInputKind::Title, 0, &"a".repeat(701), 1.0).validate().is_err());
}

#[test]
fn input_weight_bounds_are_inclusive() {
    assert!(input(EmbeddingInputKind::Title, 0, "t", 0.1).validate().is_ok());
    assert!(input(EmbeddingInputKind::Title, 0, "t", 2.0).validate().is_ok());
    let err = input(EmbeddingInputKind::Title, 0, "t", 2.0001).validate().unwrap_err();
    assert_eq!(err.code, "invalid_embedding_input_weight");
    assert_eq!(err.message, "embedding input weight must be finite and between 0.1 and 2.0");
    assert!(input(EmbeddingInputKind::Title, 0, "t", 0.099_999).validate().is_err());
    assert!(input(EmbeddingInputKind::Title, 0, "t", -1.0).validate().is_err());
    assert!(input(EmbeddingInputKind::Title, 0, "t", f32::INFINITY).validate().is_err());
}

#[test]
fn semantic_views_errors_come_in_order() {
    let mut views = views_with(vec![sentence_input()]);
    views.document_text = " \t\n".into();
    views.summary = String::new();
    let err = views.validate().unwrap_err();
    assert_eq!((err.code, err.message.as_str()), ("empty_document_text", "document_text must not be empty"));

    let mut views = views_with(vec![sentence_input()]);
    views.summary = "\u{3000}".into();
    let err = views.validate().unwrap_err();
    assert_eq!((err.code, err.message.as_str()), ("empty_summary", "summary must not be empty"));

    let err = views_with(Vec::new()).validate().unwrap_err();
    assert_eq!(err.code, "invalid_embedding_inputs");
    assert_eq!(err.message, "semantic views must contain 1 to 96 embedding inputs");

    let many: Vec<EmbeddingInput> = (0..=MAX_EMBEDDING_INPUTS as u16)
        .map(|i| input(EmbeddingInputKind::Keyword, i, "k", 1.0))
        .collect();
    assert!(views_with(many).validate().is_err());

    let err = views_with(vec![input(EmbeddingInputKind::Title, 1, "t", 1.0)])
        .validate()
        .unwrap_err();
    assert_eq!(err.code, "invalid_embedding_input_ordinal");
    assert_eq!(err.message, "embedding input ordinals must be contiguous and start at zero");

    let err = views_with(vec![input(EmbeddingInputKind::Title, 0, "t", 5.0)])
        .validate()
        .unwrap_err();
    assert_eq!(err.code, "invalid_embedding_input_weight");

    let ordered: Vec<EmbeddingInput> = (0..MAX_EMBEDDING_INPUTS as u16)
        .map(|i| input(EmbeddingInputKind::Keyword, i, "k", 1.0))
        .collect();
    assert!(views_with(ordered).validate().is_ok());
}

#[test]
fn combined_text_joins_lines_and_trims_the_end() {
    let views = views_with(vec![
        input(EmbeddingInputKind::Title, 0, "Solar launch", 1.0),
        input(EmbeddingInputKind::UrlSignal, 1, "news ", 1.0),
        input(EmbeddingInputKind::Keyword, 2, "  ", 1.0),
    ]);
    assert_eq!(views.combined_embedding_text(), "title: Solar launch\nurl_signal: news \nkeyword:");
    assert_eq!(views_with(Vec::new()).combined_embedding_text(), "");
}

#[test]
fn combined_text_stops_at_the_first_line_that_does_not_fit() {
    // Each line is "document: " (10 chars) + 690 chars + "\n" = 701 characters.
    let text = "x".repeat(690);
    let inputs: Vec<EmbeddingInput> = (0..40u16)
        .map(|i| input(EmbeddingInputKind::Document, i, &text, 1.0))
        .collect();
    let mut inputs_with_short = inputs.clone();
    inputs_with_short[35] = input(EmbeddingInputKind::Title, 35, "a", 1.0);
    let combined = views_with(inputs).combined_embedding_text();
    // 34 lines (23,834 characters) fit; the 35th would pass 24,000.
    assert_eq!(combined.chars().count(), 34 * 701 - 1);
    assert!(combined.chars().count() <= MAX_COMBINED_EMBEDDING_CHARS);
    let expected_line = format!("document: {text}\n");
    assert!(expected_line.repeat(34).starts_with(&combined));
    // A short line after the first line that does not fit is not added.
    let combined = views_with(inputs_with_short).combined_embedding_text();
    assert_eq!(combined.chars().count(), 34 * 701 - 1);
}

#[test]
fn query_views_errors() {
    let query = |text: &str, inputs: Vec<EmbeddingInput>| QueryTextViews {
        query_text: text.into(),
        keywords: Vec::new(),
        entities: Vec::new(),
        embedding_inputs: inputs,
    };
    let q = || vec![input(EmbeddingInputKind::Query, 0, "abc", 1.0)];
    let err = query("ab", q()).validate().unwrap_err();
    assert_eq!(err.code, "invalid_query_text");
    assert_eq!(err.message, "query_text must contain 3 to 2,000 characters");
    assert!(query("abc", q()).validate().is_ok());
    let long = "ü".repeat(700);
    assert!(query(&long, vec![input(EmbeddingInputKind::Query, 0, &long, 1.0)]).validate().is_ok());
    // The first input holds the whole query and at most 700 characters, so a
    // longer query cannot be preserved.
    let longer = "ü".repeat(701);
    let err = query(&longer, vec![input(EmbeddingInputKind::Query, 0, &longer, 1.0)])
        .validate()
        .unwrap_err();
    assert_eq!(err.code, "invalid_embedding_input_text");
    assert!(query(&"a".repeat(2_001), q()).validate().is_err());
    let err = query("abc", Vec::new()).validate().unwrap_err();
    assert_eq!(err.message, "query views must contain 1 to 96 embedding inputs");
    let err = query("abc", vec![input(EmbeddingInputKind::Keyword, 0, "abc", 1.0)])
        .validate()
        .unwrap_err();
    assert_eq!(err.code, "invalid_query_embedding_inputs");
    assert_eq!(err.message, "the first query embedding input must preserve the complete query text");
    let err = query("abc", vec![input(EmbeddingInputKind::Keyword, 1, "abc", 1.0)])
        .validate()
        .unwrap_err();
    assert_eq!(err.code, "invalid_embedding_input_ordinal");
}

#[test]
fn first_query_input_must_hold_the_complete_query() {
    let query_text = "Notify me when Acme launches renewable energy tools.";
    let views = QueryTextViews {
        query_text: query_text.into(),
        keywords: Vec::new(),
        entities: Vec::new(),
        embedding_inputs: vec![input(EmbeddingInputKind::Query, 0, "renewable energy", 1.2)],
    };
    let err = views.validate().unwrap_err();
    assert_eq!(err.code, "invalid_query_embedding_inputs");
    assert_eq!(err.message, "the first query embedding input must preserve the complete query text");
    let views = QueryTextViews {
        embedding_inputs: vec![
            input(EmbeddingInputKind::Query, 0, query_text, 1.2),
            input(EmbeddingInputKind::Keyword, 1, "renewable energy", 1.0),
        ],
        ..views
    };
    assert!(views.validate().is_ok());
}

#[test]
fn contract_error_display_text() {
    let err = SemanticContractError { code: "empty_summary", message: "summary must not be empty".into() };
    assert_eq!(err.to_display_string(), "empty_summary: summary must not be empty");
}
