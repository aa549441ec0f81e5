use markup_tokenizer::decode::decoded_text;
use markup_tokenizer::diagnostics::{ErrorKind, ParseError, Unhandled};
use markup_tokenizer::state::State;
use markup_tokenizer::tokenizer::{resolve_tag_name, Tokenizer};
use markup_tokenizer::tokens::{Attribute, TagID, Token};

fn tag_table() -> phf::Map<&'static [u8], u32> {
    phf::Map {
        key: 1234569,
        disps: &[
            (1, 0),
            (1, 1),
            (14, 22),
            (9, 11),
            (1, 26),
            (0, 2),
        ],
        entries: &[
            (b"h1", 91),
            (b"col", 40),
            (b"div", 51),
            (b"embed", 55),
            (b"p", 145),
            (b"source", 166),
            (b"body", 31),
            (b"br", 32),
            (b"meta", 124),
            (b"!DOCTYPE", 5),
            (b"script", 161),
            (b"html", 101),
            (b"wbr", 194),
            (b"a", 6),
            (b"input", 106),
            (b"base", 23),
            (b"textarea", 180),
            (b"link", 115),
            (b"title", 186),
            (b"img", 105),
            (b"hr", 100),
            (b"style", 171),
            (b"template", 179),
            (b"math", 122),
            (b"svg", 175),
            (b"area", 18),
            (b"track", 188),
            (b"head", 97),
        ],
    }
}

fn reference_table() -> phf::Map<&'static [u8], u32> {
    phf::Map {
        key: 1234568,
        disps: &[
            (3, 0),
            (0, 4),
        ],
        entries: &[
            (b"lt", 60),
            (b"gt", 62),
            (b"quot", 34),
            (b"amp", 38),
            (b"copy", 169),
            (b"euro", 8364),
            (b"apos", 39),
            (b"nbsp", 160),
        ],
    }
}


fn tokens_of(input: &str) -> Vec<Token> {
    let tags = tag_table();
    let refs = reference_table();
    let mut tokenizer = Tokenizer::new(input, &tags, &refs);
    assert_eq!(tokenizer.tokenize(), Ok(()));
    tokenizer.into_tokens()
}

fn errors_of(input: &str) -> Vec<ParseError> {
    let tags = tag_table();
    let refs = reference_table();
    let mut tokenizer = Tokenizer::new(input, &tags, &refs);
    assert_eq!(tokenizer.tokenize(), Ok(()));
    tokenizer.errors().clone()
}

fn scan_in(input: &str, state: State) -> (Vec<Token>, Vec<ParseError>, Result<(), Unhandled>) {
    let tags = tag_table();
    let refs = reference_table();
    let mut tokenizer = Tokenizer::new_in(input, &tags, &refs, state).unwrap();
    let outcome = tokenizer.tokenize();
    let errors = tokenizer.errors().clone();
    (tokenizer.into_tokens(), errors, outcome)
}

fn spans(tokens: &[Token]) -> Vec<(TagID, u32, u32, u8)> {
    tokens.iter().map(|t| (t.token_id, t.start, t.end, t.flags)).collect()
}

fn kinds(errors: &[ParseError]) -> Vec<(ErrorKind, u32)> {
    errors.iter().map(|e| (e.kind, e.position)).collect()
}

fn attributes_of(token: &Token) -> Vec<Attribute> {
    match &token.attributes {
        Some(attributes) => attributes.to_vec(),
        None => Vec::new(),
    }
}

fn name_of<'a>(input: &'a str, token: &Token, attribute: &Attribute) -> &'a str {
    let begin = (token.start + attribute.name_begin) as usize;
    &input[begin..begin + attribute.name_size as usize]
}

fn value_of<'a>(input: &'a str, token: &Token, attribute: &Attribute) -> &'a str {
    let begin = (token.start + attribute.value_begin) as usize;
    &input[begin..begin + attribute.value_size as usize]
}

#[test]
fn end_to_end_scenario() {
    let input = "<h1><p><body hello><h1>";
    let tokens = tokens_of(input);
    assert_eq!(tokens.len(), 4);
    let ids: Vec<TagID> = tokens.iter().map(|t| t.token_id).collect();
    assert_eq!(ids, vec![TagID::H1, TagID::Paragraph, TagID::Body, TagID::H1]);
    assert!(tokens[0].attributes.is_none());
    assert!(tokens[1].attributes.is_none());
    assert!(tokens[3].attributes.is_none());
    assert_eq!((tokens[0].start, tokens[0].end), (1, 3));
    assert_eq!((tokens[1].start, tokens[1].end), (5, 6));
    assert_eq!((tokens[2].start, tokens[2].end), (8, 18));
    assert_eq!((tokens[3].start, tokens[3].end), (20, 22));
    let attributes = attributes_of(&tokens[2]);
    assert_eq!(attributes.len(), 1);
    assert_eq!(name_of(input, &tokens[2], &attributes[0]), "hello");
    assert!(attributes[0].value_begin < attributes[0].name_begin);
    assert_eq!(attributes[0], Attribute::new(5, 5, 0, 0));
    assert!(tokens.iter().all(|t| t.token_id != TagID::Text));
    assert!(tokens.iter().all(|t| t.flags == 0));
}

#[test]
fn duplicate_attribute_keeps_the_first() {
    let input = "<a x=1 x=2>";
    let tokens = tokens_of(input);
    assert_eq!(tokens.len(), 1);
    assert_eq!(tokens[0].token_id, TagID::A);
    let attributes = attributes_of(&tokens[0]);
    assert_eq!(attributes.len(), 1);
    assert_eq!(name_of(input, &tokens[0], &attributes[0]), "x");
    assert_eq!(value_of(input, &tokens[0], &attributes[0]), "1");
    assert_eq!(
        errors_of(input),
        vec![ParseError { kind: ErrorKind::DuplicateAttribute, position: 8 }]
    );
}

#[test]
fn boolean_attribute_differs_from_empty_value() {
    let input = "<input disabled>";
    let tokens = tokens_of(input);
    assert_eq!(tokens.len(), 1);
    assert_eq!(tokens[0].token_id, TagID::Input);
    let attributes = attributes_of(&tokens[0]);
    assert_eq!(attributes.len(), 1);
    assert_eq!(name_of(input, &tokens[0], &attributes[0]), "disabled");
    assert!(attributes[0].value_begin < attributes[0].name_begin);
    assert!(!attributes[0].is_valued());

    let input = "<input disabled=\"\">";
    let tokens = tokens_of(input);
    let attributes = attributes_of(&tokens[0]);
    assert_eq!(attributes.len(), 1);
    assert_eq!(name_of(input, &tokens[0], &attributes[0]), "disabled");
    assert!(attributes[0].value_begin >= attributes[0].name_begin);
    assert!(attributes[0].is_valued());
    assert_eq!(attributes[0].value_size, 0);
    assert_eq!(attributes[0], Attribute::new(6, 8, 16, 0));
}

#[test]
fn self_closing_flag() {
    let tokens = tokens_of("<br/>");
    assert_eq!(tokens.len(), 1);
    assert_eq!(tokens[0].token_id, TagID::Br);
    assert_eq!(tokens[0].flags, 0x02);
    assert_eq!((tokens[0].start, tokens[0].end), (1, 4));
    assert!(tokens[0].attributes.is_none());
}

#[test]
fn text_between_tags() {
    let input = "<p>&amp;</p>";
    let tokens = tokens_of(input);
    assert_eq!(tokens.len(), 3);
    assert_eq!(tokens[0].token_id, TagID::Paragraph);
    assert_eq!(tokens[0].flags, 0);
    assert_eq!(tokens[1].token_id, TagID::Text);
    assert_eq!((tokens[1].start, tokens[1].end), (3, 8));
    assert_eq!((tokens[1].text_off, tokens[1].text_size), (0, 1));
    assert_eq!(tokens[2].token_id, TagID::Paragraph);
    assert_eq!(tokens[2].flags, 0x01);
    assert_eq!((tokens[2].start, tokens[2].end), (10, 11));
    assert_eq!(errors_of(input), vec![]);
}

#[test]
fn unknown_reference_is_reported_and_kept() {
    let input = "<p>&notareference;</p>";
    let tokens = tokens_of(input);
    assert_eq!(tokens.len(), 3);
    assert_eq!(tokens[1].token_id, TagID::Text);
    assert_eq!(&input[tokens[1].start as usize..tokens[1].end as usize], "&notareference;");
    assert_eq!(
        errors_of(input),
        vec![ParseError { kind: ErrorKind::UnknownNamedCharacterReference, position: 17 }]
    );
}

#[test]
fn unhandled_state_stops_the_scan() {
    let tags = tag_table();
    let refs = reference_table();
    let mut tokenizer = Tokenizer::new("ab<!-- c --><p>", &tags, &refs);
    assert_eq!(
        tokenizer.tokenize(),
        Err(Unhandled { state: State::MarkupDeclarationOpen, position: 4 })
    );
    let tokens = tokenizer.into_tokens();
    assert_eq!(tokens.len(), 1);
    assert_eq!(tokens[0].token_id, TagID::Text);
    assert_eq!((tokens[0].start, tokens[0].end), (0, 2));
}

#[test]
fn empty_input_gives_nothing() {
    assert_eq!(tokens_of("").len(), 0);
    assert_eq!(errors_of("").len(), 0);
}

#[test]
fn text_alone_is_one_token() {
    let tokens = tokens_of("hello");
    assert_eq!(spans(&tokens), vec![(TagID::Text, 0, 5, 0)]);
    assert_eq!((tokens[0].text_off, tokens[0].text_size), (0, 5));
    let tokens = tokens_of("caf&#233; &euro;5 &lt;b&gt;");
    assert_eq!(spans(&tokens), vec![(TagID::Text, 0, 27, 0)]);
    assert_eq!((tokens[0].text_off, tokens[0].text_size), (0, 14));
    assert!(tokens[0].attributes.is_none());
}

#[test]
fn empty_runs_of_text_are_suppressed() {
    let tokens = tokens_of("<p><div></div></p>");
    assert_eq!(
        spans(&tokens),
        vec![
            (TagID::Paragraph, 1, 2, 0),
            (TagID::Div, 4, 7, 0),
            (TagID::Div, 10, 13, 1),
            (TagID::Paragraph, 16, 17, 1),
        ]
    );
}

#[test]
fn text_around_tags() {
    let tokens = tokens_of("a<p>bc</p>d");
    assert_eq!(
        spans(&tokens),
        vec![
            (TagID::Text, 0, 1, 0),
            (TagID::Paragraph, 2, 3, 0),
            (TagID::Text, 4, 6, 0),
            (TagID::Paragraph, 8, 9, 1),
            (TagID::Text, 10, 11, 0),
        ]
    );
}

#[test]
fn unknown_tag_is_undef() {
    let tokens = tokens_of("<custom-element><H1>");
    assert_eq!(spans(&tokens), vec![(TagID::Undef, 1, 15, 0), (TagID::Undef, 17, 19, 0)]);
}

#[test]
fn unterminated_tag_is_discarded() {
    let input = "a<p class=x";
    assert_eq!(spans(&tokens_of(input)), vec![(TagID::Text, 0, 1, 0)]);
    assert_eq!(kinds(&errors_of(input)), vec![(ErrorKind::EofInTag, 11)]);
}

#[test]
fn stray_less_than_sign_is_text() {
    let input = "a < b";
    assert_eq!(spans(&tokens_of(input)), vec![(TagID::Text, 0, 5, 0)]);
    assert_eq!(kinds(&errors_of(input)), vec![(ErrorKind::InvalidFirstCharacterOfTagName, 3)]);
    assert_eq!(spans(&tokens_of("a<")), vec![(TagID::Text, 0, 2, 0)]);
    assert_eq!(spans(&tokens_of("a</")), vec![(TagID::Text, 0, 3, 0)]);
}

#[test]
fn missing_end_tag_name_splits_the_text() {
    let input = "a</>b";
    assert_eq!(spans(&tokens_of(input)), vec![(TagID::Text, 0, 1, 0), (TagID::Text, 4, 5, 0)]);
    assert_eq!(kinds(&errors_of(input)), vec![(ErrorKind::MissingEndTagName, 3)]);
}

#[test]
fn quoted_and_unquoted_values() {
    let input = "<a href=\"x y\" id='q' k=v w>";
    let tokens = tokens_of(input);
    assert_eq!(spans(&tokens), vec![(TagID::A, 1, 26, 0)]);
    let attributes = attributes_of(&tokens[0]);
    assert_eq!(
        attributes,
        vec![
            Attribute::new(2, 4, 8, 3),
            Attribute::new(13, 2, 17, 1),
            Attribute::new(20, 1, 22, 1),
            Attribute::new(24, 1, 0, 0),
        ]
    );
    assert_eq!(name_of(input, &tokens[0], &attributes[0]), "href");
    assert_eq!(value_of(input, &tokens[0], &attributes[0]), "x y");
    assert_eq!(name_of(input, &tokens[0], &attributes[1]), "id");
    assert_eq!(value_of(input, &tokens[0], &attributes[1]), "q");
    assert_eq!(name_of(input, &tokens[0], &attributes[2]), "k");
    assert_eq!(value_of(input, &tokens[0], &attributes[2]), "v");
    assert_eq!(name_of(input, &tokens[0], &attributes[3]), "w");
    assert!(!attributes[3].is_valued());
    assert_eq!(errors_of(input).len(), 0);
}

#[test]
fn value_behind_spaces_around_equals() {
    let input = "<a x = 1>";
    let tokens = tokens_of(input);
    let attributes = attributes_of(&tokens[0]);
    assert_eq!(attributes, vec![Attribute::new(2, 1, 6, 1)]);
    assert_eq!(value_of(input, &tokens[0], &attributes[0]), "1");
}

#[test]
fn self_closing_with_attribute_and_end_tag() {
    let input = "<img src=a /></br/>";
    let tokens = tokens_of(input);
    assert_eq!(spans(&tokens), vec![(TagID::Img, 1, 12, 0x02), (TagID::Br, 15, 18, 0x03)]);
    assert!(tokens[0].is_self_closing());
    assert!(!tokens[0].is_closing());
    assert!(tokens[1].is_self_closing());
    assert!(tokens[1].is_closing());
    assert_eq!(attributes_of(&tokens[0]), vec![Attribute::new(4, 3, 8, 1)]);
}

#[test]
fn duplicate_among_three_attributes() {
    let input = "<a x y=1 x=\"2\" z>";
    let tokens = tokens_of(input);
    let attributes = attributes_of(&tokens[0]);
    assert_eq!(
        attributes,
        vec![Attribute::new(2, 1, 0, 0), Attribute::new(4, 1, 6, 1), Attribute::new(14, 1, 0, 0)]
    );
    assert_eq!(kinds(&errors_of(input)), vec![(ErrorKind::DuplicateAttribute, 10)]);
    // A name that is a prefix of an earlier one is no duplicate.
    let tokens = tokens_of("<a xy x>");
    assert_eq!(attributes_of(&tokens[0]).len(), 2);
}

#[test]
fn reference_extends_the_attribute_value() {
    let input = "<a t=\"x&amp;y\" u=&lt;>";
    let tokens = tokens_of(input);
    let attributes = attributes_of(&tokens[0]);
    assert_eq!(attributes, vec![Attribute::new(2, 1, 5, 7), Attribute::new(14, 1, 16, 4)]);
    assert_eq!(value_of(input, &tokens[0], &attributes[0]), "x&amp;y");
    assert_eq!(value_of(input, &tokens[0], &attributes[1]), "&lt;");
    assert_eq!(errors_of(input).len(), 0);
}

#[test]
fn reference_extends_the_text() {
    let input = "a&#65;b&#x41;c&d&;";
    let tokens = tokens_of(input);
    assert_eq!(spans(&tokens), vec![(TagID::Text, 0, 18, 0)]);
    assert_eq!(tokens[0].text_size, 9);
    assert_eq!(
        decoded_text(&tokens[0], input.as_bytes(), &reference_table()),
        Some(b"aAbAc&d&;".to_vec())
    );
    assert_eq!(
        kinds(&errors_of(input)),
        vec![(ErrorKind::MissingSemicolonAfterCharacterReference, 16)]
    );
}

#[test]
fn numeric_reference_errors() {
    assert_eq!(kinds(&errors_of("&#0;x")), vec![(ErrorKind::NullCharacterReference, 4)]);
    assert_eq!(
        kinds(&errors_of("&#x110000;x")),
        vec![(ErrorKind::CharacterReferenceOutsideUnicodeRange, 10)]
    );
    assert_eq!(
        kinds(&errors_of("&#99999999999999999999;x")),
        vec![(ErrorKind::CharacterReferenceOutsideUnicodeRange, 23)]
    );
    assert_eq!(kinds(&errors_of("&#xD800;x")), vec![(ErrorKind::SurrogateCharacterReference, 8)]);
    assert_eq!(
        kinds(&errors_of("&#x;")),
        vec![(ErrorKind::AbsenceOfDigitsInNumericCharacterReference, 3)]
    );
    assert_eq!(
        kinds(&errors_of("&#;")),
        vec![(ErrorKind::AbsenceOfDigitsInNumericCharacterReference, 2)]
    );
    assert_eq!(
        kinds(&errors_of("&#65 x")),
        vec![(ErrorKind::MissingSemicolonAfterCharacterReference, 4)]
    );
    assert_eq!(kinds(&errors_of("&#x10FFFF;x")), vec![]);
    assert_eq!(spans(&tokens_of("&#x;")), vec![(TagID::Text, 0, 4, 0)]);
}

#[test]
fn recoverable_errors_in_tags() {
    assert_eq!(
        kinds(&errors_of("<a =x>")),
        vec![(ErrorKind::UnexpectedEqualsSignBeforeAttributeName, 3)]
    );
    assert_eq!(attributes_of(&tokens_of("<a =x>")[0]), vec![Attribute::new(2, 2, 0, 0)]);
    assert_eq!(
        kinds(&errors_of("<a x\"y>")),
        vec![(ErrorKind::UnexpectedCharacterInAttributeName, 4)]
    );
    assert_eq!(kinds(&errors_of("<a x=>")), vec![(ErrorKind::MissingAttributeValue, 5)]);
    assert_eq!(attributes_of(&tokens_of("<a x=>")[0]), vec![Attribute::new(2, 1, 0, 0)]);
    assert_eq!(
        kinds(&errors_of("<a x=a`b>")),
        vec![(ErrorKind::UnexpectedCharacterInUnquotedAttributeValue, 6)]
    );
    assert_eq!(
        kinds(&errors_of("<a x=\"1\"y>")),
        vec![(ErrorKind::MissingWhitespaceBetweenAttributes, 8)]
    );
    assert_eq!(
        attributes_of(&tokens_of("<a x=\"1\"y>")[0]),
        vec![Attribute::new(2, 1, 5, 1), Attribute::new(7, 1, 0, 0)]
    );
    assert_eq!(kinds(&errors_of("<a / x>")), vec![(ErrorKind::UnexpectedSolidusInTag, 4)]);
    assert_eq!(spans(&tokens_of("<a / x>")), vec![(TagID::A, 1, 6, 0)]);
}

#[test]
fn null_and_end_of_file_bytes_pass_through() {
    let input = "a\0b\u{5}c";
    assert_eq!(spans(&tokens_of(input)), vec![(TagID::Text, 0, 5, 0)]);
    assert_eq!(
        kinds(&errors_of(input)),
        vec![(ErrorKind::UnexpectedNull, 1), (ErrorKind::UnexpectedEndOfFileByte, 3)]
    );
    let input = "<a \u{5}x=\0>";
    assert_eq!(
        kinds(&errors_of(input)),
        vec![(ErrorKind::UnexpectedEndOfFileByte, 3), (ErrorKind::UnexpectedNull, 6)]
    );
    assert_eq!(attributes_of(&tokens_of(input)[0]), vec![Attribute::new(3, 1, 5, 1)]);
}

#[test]
fn question_mark_and_bad_end_tag_stop_the_scan() {
    let (tokens, errors, outcome) = scan_in("<?xml?>", State::Data);
    assert_eq!(outcome, Err(Unhandled { state: State::BogusComment, position: 1 }));
    assert_eq!(tokens.len(), 0);
    assert_eq!(kinds(&errors), vec![(ErrorKind::UnexpectedQuestionMarkInsteadOfTagName, 1)]);
    let (_, errors, outcome) = scan_in("</ p>", State::Data);
    assert_eq!(outcome, Err(Unhandled { state: State::BogusComment, position: 2 }));
    assert_eq!(kinds(&errors), vec![(ErrorKind::InvalidFirstCharacterOfTagName, 2)]);
}

#[test]
fn rawtext_keeps_markup_as_text() {
    let (tokens, errors, outcome) = scan_in("a<b>&amp;</ c", State::Rawtext);
    assert_eq!(outcome, Ok(()));
    assert_eq!(spans(&tokens), vec![(TagID::Text, 0, 13, 0)]);
    assert_eq!(tokens[0].text_size, 13);
    assert_eq!(errors.len(), 0);
    let (tokens, _, outcome) = scan_in("x</style>", State::Rawtext);
    assert_eq!(outcome, Err(Unhandled { state: State::RawtextEndTagName, position: 3 }));
    assert_eq!(tokens.len(), 0);
}

#[test]
fn rcdata_reads_references_and_stops_at_markup() {
    let (tokens, errors, outcome) = scan_in("a&amp;b&zz;", State::Rcdata);
    assert_eq!(outcome, Ok(()));
    assert_eq!(spans(&tokens), vec![(TagID::Text, 0, 11, 0)]);
    assert_eq!(tokens[0].text_size, 7);
    assert_eq!(kinds(&errors), vec![(ErrorKind::UnknownNamedCharacterReference, 10)]);
    let (_, _, outcome) = scan_in("a<b", State::Rcdata);
    assert_eq!(outcome, Err(Unhandled { state: State::RcdataLessThanSign, position: 2 }));
}

#[test]
fn no_tokenizer_outside_content_states() {
    let tags = tag_table();
    let refs = reference_table();
    assert!(Tokenizer::new_in("x", &tags, &refs, State::TagName).is_none());
    assert!(Tokenizer::new_in("x", &tags, &refs, State::CharacterReference).is_none());
    assert!(Tokenizer::new_in("x", &tags, &refs, State::Rcdata).is_some());
}

#[test]
fn a_second_scan_changes_nothing() {
    let tags = tag_table();
    let refs = reference_table();
    let mut tokenizer = Tokenizer::new("<p>x", &tags, &refs);
    assert_eq!(tokenizer.tokenize(), Ok(()));
    assert_eq!(tokenizer.tokens().len(), 2);
    assert_eq!(tokenizer.tokenize(), Ok(()));
    assert_eq!(tokenizer.tokens().len(), 2);
    assert_eq!(tokenizer.errors().len(), 0);
}

fn sound(token: &Token, len: usize) -> bool {
    let span = token.end.wrapping_sub(token.start);
    if !(token.start <= token.end && token.end as usize <= len) {
        return false;
    }
    if token.token_id == TagID::Text {
        return token.start < token.end
            && token.attributes.is_none()
            && token.text_off == 0
            && 0 < token.text_size;
    }
    match &token.attributes {
        None => true,
        Some(attributes) => {
            !attributes.is_empty()
                && attributes.iter().all(|a| {
                    a.name_size > 0
                        && a.name_begin + a.name_size <= span
                        && (a.value_begin < a.name_begin
                            || (a.name_begin + a.name_size <= a.value_begin
                                && a.value_begin + a.value_size <= span))
                })
        }
    }
}

#[test]
fn every_short_input_is_scanned_to_sound_tokens() {
    let alphabet = ["<", ">", "/", "=", "\"", "'", "&", "#", ";", "a", "x", "1", " ", "!", "?", "\0"];
    let tags = tag_table();
    let refs = reference_table();
    let mut count = 0;
    for a in alphabet.iter() {
        for b in alphabet.iter() {
            for c in alphabet.iter() {
                for d in alphabet.iter() {
                    let input = format!("{}{}{}{}", a, b, c, d);
                    let mut tokenizer = Tokenizer::new(&input, &tags, &refs);
                    let outcome = tokenizer.tokenize();
                    let mut floor = 0;
                    for token in tokenizer.tokens().iter() {
                        assert!(sound(token, input.len()), "{:?} in {:?}", token, input);
                        assert!(floor <= token.start, "{:?} in {:?}", token, input);
                        floor = token.end;
                        if token.token_id != TagID::Text {
                            let name = token.tag_name(input.as_bytes()).unwrap();
                            assert_eq!(resolve_tag_name(&tags, name), token.token_id);
                        } else {
                            let text = decoded_text(token, input.as_bytes(), &refs).unwrap();
                            assert_eq!(text.len(), token.text_size as usize, "in {:?}", input);
                        }
                        let attributes = attributes_of(token);
                        for (i, later) in attributes.iter().enumerate() {
                            for earlier in attributes[..i].iter() {
                                assert_ne!(
                                    name_of(&input, token, earlier),
                                    name_of(&input, token, later),
                                    "{:?} in {:?}",
                                    token,
                                    input
                                );
                            }
                        }
                    }
                    if let Err(stop) = outcome {
                        assert!(!stop.state.is_handled());
                        assert!(stop.position <= input.len());
                    }
                    count += 1;
                }
            }
        }
    }
    assert_eq!(count, 65536);
}

#[test]
fn no_name_occurs_twice_among_the_attributes() {
    let input = "<a x x=1 y x=\"2\" y z x>";
    let tokens = tokens_of(input);
    let attributes = attributes_of(&tokens[0]);
    let names: Vec<&str> = attributes.iter().map(|a| name_of(input, &tokens[0], a)).collect();
    assert_eq!(names, vec!["x", "y", "z"]);
    assert!(attributes.iter().all(|a| !a.is_valued()));
    assert_eq!(
        kinds(&errors_of(input)),
        vec![
            (ErrorKind::DuplicateAttribute, 6),
            (ErrorKind::DuplicateAttribute, 12),
            (ErrorKind::DuplicateAttribute, 18),
            (ErrorKind::DuplicateAttribute, 22),
        ]
    );
}

#[test]
fn tag_tokens_name_themselves() {
    let input = "<div class=a><IMG/><p\u{c}x></body >";
    let tokens = tokens_of(input);
    let tags = tag_table();
    let names: Vec<&[u8]> =
        tokens.iter().map(|t| t.tag_name(input.as_bytes()).unwrap()).collect();
    assert_eq!(names, vec![&b"div"[..], &b"IMG"[..], &b"p"[..], &b"body"[..]]);
    let ids: Vec<TagID> = tokens.iter().map(|t| t.token_id).collect();
    assert_eq!(ids, vec![TagID::Div, TagID::Undef, TagID::Paragraph, TagID::Body]);
    for (token, name) in tokens.iter().zip(names.iter()) {
        assert_eq!(resolve_tag_name(&tags, name), token.token_id);
    }
}

#[test]
fn long_inputs_are_scanned_to_the_end() {
    let mut input = String::new();
    for i in 0..2000 {
        input.push_str("<p class=\"a&amp;b\" id=x");
        input.push_str(&format!("{}", i));
        input.push_str(">text &#x41; here</p>");
    }
    let tokens = tokens_of(&input);
    assert_eq!(tokens.len(), 6000);
    assert!(tokens.iter().all(|t| sound(t, input.len())));
    assert_eq!(errors_of(&input).len(), 0);
}
