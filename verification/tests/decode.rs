use markup_tokenizer::decode::{
    decode, decoded_size, decoded_text, decoded_value, push_utf8, resolve_reference_name,
};
use markup_tokenizer::tokenizer::Tokenizer;
use markup_tokenizer::tokens::{Attribute, TagID, Token};

fn tag_table() -> phf::Map<&'static [u8], u32> {
    phf::Map {
        key: 1234569,
        disps: &[
            (1, 0),
            (1, 1),
            (14, 22),
            (9, 11),
            (1, 26),
            (0, 2),
        ],
        entries: &[
            (b"h1", 91),
            (b"col", 40),
            (b"div", 51),
            (b"embed", 55),
            (b"p", 145),
            (b"source", 166),
            (b"body", 31),
            (b"br", 32),
            (b"meta", 124),
            (b"!DOCTYPE", 5),
            (b"script", 161),
            (b"html", 101),
            (b"wbr", 194),
            (b"a", 6),
            (b"input", 106),
            (b"base", 23),
            (b"textarea", 180),
            (b"link", 115),
            (b"title", 186),
            (b"img", 105),
            (b"hr", 100),
            (b"style", 171),
            (b"template", 179),
            (b"math", 122),
            (b"svg", 175),
            (b"area", 18),
            (b"track", 188),
            (b"head", 97),
        ],
    }
}

fn reference_table() -> phf::Map<&'static [u8], u32> {
    phf::Map {
        key: 1234568,
        disps: &[
            (3, 0),
            (0, 4),
        ],
        entries: &[
            (b"lt", 60),
            (b"gt", 62),
            (b"quot", 34),
            (b"amp", 38),
            (b"copy", 169),
            (b"euro", 8364),
            (b"apos", 39),
            (b"nbsp", 160),
        ],
    }
}


fn text_of(input: &str) -> Vec<u8> {
    decode(input.as_bytes(), &reference_table())
}

#[test]
fn character_reference_round_trip() {
    let input = "<p>&amp;</p>";
    let tags = tag_table();
    let refs = reference_table();
    let mut tokenizer = Tokenizer::new(input, &tags, &refs);
    assert_eq!(tokenizer.tokenize(), Ok(()));
    let tokens = tokenizer.into_tokens();
    assert_eq!(tokens.len(), 3);
    assert_eq!(tokens[1].token_id, TagID::Text);
    assert_eq!((tokens[1].start, tokens[1].end), (3, 8));
    assert_eq!((tokens[1].text_off, tokens[1].text_size), (0, 1));
    assert_eq!(decoded_text(&tokens[1], input.as_bytes(), &refs), Some(b"&".to_vec()));
}

#[test]
fn unrecognized_reference_is_literal() {
    let input = "<p>&notareference;</p>";
    let tags = tag_table();
    let refs = reference_table();
    let mut tokenizer = Tokenizer::new(input, &tags, &refs);
    assert_eq!(tokenizer.tokenize(), Ok(()));
    let tokens = tokenizer.into_tokens();
    assert_eq!(tokens[1].token_id, TagID::Text);
    assert_eq!((tokens[1].text_off, tokens[1].text_size), (0, 15));
    assert_eq!(
        decoded_text(&tokens[1], input.as_bytes(), &refs),
        Some(b"&notareference;".to_vec())
    );
}

#[test]
fn named_references() {
    assert_eq!(text_of("a &lt; b &gt; c"), b"a < b > c".to_vec());
    assert_eq!(text_of("&quot;&apos;"), b"\"'".to_vec());
    assert_eq!(text_of("&nbsp;"), vec![0xC2, 0xA0]);
    assert_eq!(text_of("&copy;"), "\u{a9}".as_bytes().to_vec());
    assert_eq!(text_of("&euro;"), vec![0xE2, 0x82, 0xAC]);
    assert_eq!(text_of("&amp;amp;"), b"&amp;".to_vec());
}

#[test]
fn names_need_their_semicolon_and_their_case() {
    assert_eq!(text_of("&amp"), b"&amp".to_vec());
    assert_eq!(text_of("&amp x"), b"&amp x".to_vec());
    assert_eq!(text_of("&AMP;"), b"&AMP;".to_vec());
    assert_eq!(text_of("&ampx;"), b"&ampx;".to_vec());
    assert_eq!(text_of("&;"), b"&;".to_vec());
    assert_eq!(text_of("&"), b"&".to_vec());
    assert_eq!(text_of("&&amp;&"), b"&&&".to_vec());
}

#[test]
fn numeric_references() {
    assert_eq!(text_of("&#65;"), b"A".to_vec());
    assert_eq!(text_of("&#x41;&#X42;"), b"AB".to_vec());
    assert_eq!(text_of("&#65"), b"A".to_vec());
    assert_eq!(text_of("&#65x"), b"Ax".to_vec());
    assert_eq!(text_of("&#x4a;&#x4A;"), b"JJ".to_vec());
    assert_eq!(text_of("&#233;"), "\u{e9}".as_bytes().to_vec());
    assert_eq!(text_of("&#x20AC;"), "\u{20ac}".as_bytes().to_vec());
    assert_eq!(text_of("&#128512;"), "\u{1F600}".as_bytes().to_vec());
    assert_eq!(text_of("&#x10FFFF;"), "\u{10FFFF}".as_bytes().to_vec());
    assert_eq!(text_of("&#127;&#128;"), "\u{7f}\u{80}".as_bytes().to_vec());
    assert_eq!(text_of("&#2047;&#2048;"), "\u{7ff}\u{800}".as_bytes().to_vec());
    assert_eq!(text_of("&#65535;&#65536;"), "\u{ffff}\u{10000}".as_bytes().to_vec());
}

#[test]
fn malformed_numbers_fall_back_to_the_literal() {
    assert_eq!(text_of("&#0;"), b"&#0;".to_vec());
    assert_eq!(text_of("&#x110000;"), b"&#x110000;".to_vec());
    assert_eq!(text_of("&#99999999999999999999;"), b"&#99999999999999999999;".to_vec());
    assert_eq!(text_of("&#xD800;"), b"&#xD800;".to_vec());
    assert_eq!(text_of("&#xDFFF;"), b"&#xDFFF;".to_vec());
    assert_eq!(text_of("&#;"), b"&#;".to_vec());
    assert_eq!(text_of("&#x;"), b"&#x;".to_vec());
    assert_eq!(text_of("&#xg;"), b"&#xg;".to_vec());
    assert_eq!(text_of("&#"), b"&#".to_vec());
    assert_eq!(text_of("&#x"), b"&#x".to_vec());
}

#[test]
fn text_without_references_is_unchanged() {
    assert_eq!(text_of(""), Vec::<u8>::new());
    assert_eq!(text_of("plain text; no refs #1"), b"plain text; no refs #1".to_vec());
    let bytes: Vec<u8> = (0u8..=255).filter(|b| *b != b'&').collect();
    assert_eq!(decode(&bytes, &reference_table()), bytes);
}

#[test]
fn references_against_an_empty_table() {
    let empty: phf::Map<&'static [u8], u32> = phf::Map::new();
    assert_eq!(decode(b"&amp;&#38;", &empty), b"&amp;&".to_vec());
}

#[test]
fn encoding_of_scalar_values() {
    let mut out = vec![0x21];
    push_utf8(&mut out, 0x24);
    push_utf8(&mut out, 0xA3);
    push_utf8(&mut out, 0x939);
    push_utf8(&mut out, 0x10348);
    assert_eq!(out, vec![0x21, 0x24, 0xC2, 0xA3, 0xE0, 0xA4, 0xB9, 0xF0, 0x90, 0x8D, 0x88]);
}

#[test]
fn decoded_attribute_values() {
    let input = "<a t=\"x&amp;y\" u>";
    let tags = tag_table();
    let refs = reference_table();
    let mut tokenizer = Tokenizer::new(input, &tags, &refs);
    assert_eq!(tokenizer.tokenize(), Ok(()));
    let tokens = tokenizer.into_tokens();
    let attributes = tokens[0].attribute_list();
    assert_eq!(attributes.len(), 2);
    assert_eq!(
        decoded_value(&attributes[0], tokens[0].start, input.as_bytes(), &refs),
        Some(b"x&y".to_vec())
    );
    assert_eq!(decoded_value(&attributes[1], tokens[0].start, input.as_bytes(), &refs), None);
}

#[test]
fn payload_outside_the_buffer_is_refused() {
    let refs = reference_table();
    let token = Token::new_no_attributes(2, 6, 0, 1, TagID::Text, 0);
    assert_eq!(decoded_text(&token, b"ab&lt;", &refs), Some(b"<".to_vec()));
    assert_eq!(decoded_text(&token, b"ab&lt", &refs), None);
    let token = Token::new_no_attributes(2, 6, 1, 3, TagID::Text, 0);
    assert_eq!(decoded_text(&token, b"ab&lt;", &refs), Some(b"lt;".to_vec()));
    let token = Token::new_no_attributes(2, 6, 4, 0, TagID::Text, 0);
    assert_eq!(decoded_text(&token, b"ab&lt;", &refs), Some(b"".to_vec()));
    let token = Token::new_no_attributes(2, 6, 5, 0, TagID::Text, 0);
    assert_eq!(decoded_text(&token, b"ab&lt;", &refs), None);
    let attribute = Attribute::new(1, 1, 3, 4);
    assert_eq!(decoded_value(&attribute, 0, b"<a=&gt;", &refs), Some(b">".to_vec()));
    assert_eq!(decoded_value(&attribute, 1, b"<a=&gt;", &refs), None);
}

#[test]
fn size_without_decoding() {
    let refs = reference_table();
    for input in ["", "plain", "&amp;", "a&lt;b&#x20AC;c&", "&#0;&nosuch;&#65", "&&&", "&#128512;"] {
        assert_eq!(
            decoded_size(input.as_bytes(), &refs) as usize,
            decode(input.as_bytes(), &refs).len()
        );
    }
    assert_eq!(decoded_size(b"a&lt;b&#x20AC;c&", &refs), 8);
    assert_eq!(decoded_size(b"&#128512;", &refs), 4);
    assert_eq!(decoded_size(b"", &refs), 0);
}

#[test]
fn decoding_never_empties() {
    let refs = reference_table();
    let alphabet = ["&", "#", "x", ";", "a", "m", "p", "1", "9", "F", " "];
    for a in alphabet.iter() {
        for b in alphabet.iter() {
            for c in alphabet.iter() {
                for d in alphabet.iter() {
                    for e in alphabet.iter() {
                        let input = format!("{}{}{}{}{}", a, b, c, d, e);
                        let out = decode(input.as_bytes(), &refs);
                        assert!(!out.is_empty(), "{:?}", input);
                        assert_eq!(decoded_size(input.as_bytes(), &refs) as usize, out.len());
                    }
                }
            }
        }
    }
}

#[test]
fn names_that_stand_for_a_code_point() {
    let refs = reference_table();
    assert_eq!(resolve_reference_name(&refs, b"amp"), Some(0x26));
    assert_eq!(resolve_reference_name(&refs, b"euro"), Some(0x20AC));
    assert_eq!(resolve_reference_name(&refs, b"nosuch"), None);
    assert_eq!(resolve_reference_name(&refs, b""), None);
}

#[test]
fn names_for_what_is_no_scalar_value_stand_for_nothing() {
    let odd: phf::Map<&'static [u8], u32> = phf::Map {
        key: 0,
        disps: &[(0, 0)],
        entries: &[(b"nul", 0)],
    };
    assert_eq!(resolve_reference_name(&odd, b"nul"), None);
    assert_eq!(decode(b"&nul;", &odd), b"&nul;".to_vec());
    let odd: phf::Map<&'static [u8], u32> = phf::Map {
        key: 0,
        disps: &[(0, 0)],
        entries: &[(b"sur", 0xD800)],
    };
    assert_eq!(resolve_reference_name(&odd, b"sur"), None);
    let odd: phf::Map<&'static [u8], u32> = phf::Map {
        key: 0,
        disps: &[(0, 0)],
        entries: &[(b"far", 0x110000)],
    };
    assert_eq!(resolve_reference_name(&odd, b"far"), None);
}

#[test]
fn a_reference_may_stand_for_more_bytes_than_it_takes() {
    let short: phf::Map<&'static [u8], u32> = phf::Map {
        key: 0,
        disps: &[(0, 0)],
        entries: &[(b"g", 0x1F600)],
    };
    assert_eq!(resolve_reference_name(&short, b"g"), Some(0x1F600));
    assert_eq!(decode(b"&g;", &short), "\u{1F600}".as_bytes().to_vec());
    assert_eq!(decoded_size(b"&g;", &short), 4);
    assert_eq!(decoded_size(b"&g;&g;x", &short), 9);
    let tags: phf::Map<&'static [u8], u32> = phf::Map::new();
    let input = "<p>&g;&g;</p>";
    let mut tokenizer = Tokenizer::new(input, &tags, &short);
    assert_eq!(tokenizer.tokenize(), Ok(()));
    let tokens = tokenizer.into_tokens();
    assert_eq!((tokens[1].start, tokens[1].end), (3, 9));
    assert_eq!(tokens[1].text_size, 8);
    assert_eq!(
        decoded_text(&tokens[1], input.as_bytes(), &short),
        Some("\u{1F600}\u{1F600}".as_bytes().to_vec())
    );
}
