use markup_tokenizer::bytes::{
    byte_is_alphanumeric, byte_is_digit, byte_is_hex_digit, byte_is_letter, byte_is_space,
    bytes_equal, hex_digit_value,
};
use markup_tokenizer::state::State;
use markup_tokenizer::tokens::{Attribute, Flags, TagID, Token};

#[test]
fn attribute_new_keeps_its_arguments() {
    let attribute = Attribute::new(1, 2, 3, 4);
    assert_eq!(attribute.name_begin, 1);
    assert_eq!(attribute.name_size, 2);
    assert_eq!(attribute.value_begin, 3);
    assert_eq!(attribute.value_size, 4);
}

#[test]
fn attribute_value_is_absent_below_the_name() {
    assert!(!Attribute::new(5, 5, 0, 0).is_valued());
    assert!(!Attribute::new(5, 5, 4, 0).is_valued());
    assert!(Attribute::new(5, 5, 5, 0).is_valued());
    assert!(Attribute::new(5, 5, 11, 0).is_valued());
}

#[test]
fn attribute_name_and_value_bytes() {
    let raw = b"<a href=xy>";
    let attribute = Attribute::new(2, 4, 7, 2);
    assert_eq!(attribute.name(1, raw), Some(&b"href"[..]));
    assert_eq!(attribute.value(1, raw), Some(&b"xy"[..]));
    assert_eq!(attribute.name(0, raw), Some(&b" hre"[..]));
    assert_eq!(attribute.value(2, raw), Some(&b"y>"[..]));
    assert_eq!(attribute.value(3, raw), None);
    assert_eq!(attribute.name(6, raw), None);
    assert_eq!(Attribute::new(2, 4, 0, 0).value(1, raw), None);
    assert_eq!(Attribute::new(u32::MAX, u32::MAX, u32::MAX, u32::MAX).name(u32::MAX, raw), None);
    assert_eq!(Attribute::new(u32::MAX, u32::MAX, u32::MAX, u32::MAX).value(u32::MAX, raw), None);
}

#[test]
fn token_new_keeps_its_arguments() {
    let attributes = vec![Attribute::new(2, 1, 0, 0)].into_boxed_slice();
    let token = Token::new(attributes, 1, 4, 0, 0, TagID::A, 2);
    assert_eq!(token.attributes.as_deref(), Some(&[Attribute::new(2, 1, 0, 0)][..]));
    assert_eq!((token.start, token.end), (1, 4));
    assert_eq!((token.text_off, token.text_size), (0, 0));
    assert_eq!(token.token_id, TagID::A);
    assert_eq!(token.flags, 2);
    assert_eq!(token.attribute_list(), vec![Attribute::new(2, 1, 0, 0)]);
}

#[test]
fn token_new_no_attributes_keeps_its_arguments() {
    let token = Token::new_no_attributes(3, 9, 1, 5, TagID::Text, 8);
    assert!(token.attributes.is_none());
    assert_eq!((token.start, token.end), (3, 9));
    assert_eq!((token.text_off, token.text_size), (1, 5));
    assert_eq!(token.token_id, TagID::Text);
    assert_eq!(token.flags, 8);
    assert_eq!(token.attribute_list(), vec![]);
    assert!(token.is_text());
}

#[test]
fn token_new_empty_is_all_zero() {
    let token = Token::new_empty();
    assert!(token.attributes.is_none());
    assert_eq!((token.start, token.end), (0, 0));
    assert_eq!((token.text_off, token.text_size), (0, 0));
    assert_eq!(token.token_id, TagID::A);
    assert_eq!(token.flags, 0);
    assert!(!token.is_text());
}

#[test]
fn token_source_and_tag_name() {
    let raw = b"<img src=a /><br/>x";
    let token = Token::new_no_attributes(1, 12, 0, 0, TagID::Img, 2);
    assert_eq!(token.source(raw), Some(&b"img src=a /"[..]));
    assert_eq!(token.tag_name(raw), Some(&b"img"[..]));
    let token = Token::new_no_attributes(14, 17, 0, 0, TagID::Br, 2);
    assert_eq!(token.source(raw), Some(&b"br/"[..]));
    assert_eq!(token.tag_name(raw), Some(&b"br"[..]));
    let token = Token::new_no_attributes(18, 19, 0, 1, TagID::Text, 0);
    assert_eq!(token.source(raw), Some(&b"x"[..]));
    assert_eq!(token.tag_name(raw), Some(&b"x"[..]));
    let token = Token::new_no_attributes(19, 19, 0, 0, TagID::Undef, 0);
    assert_eq!(token.source(raw), Some(&b""[..]));
    assert_eq!(token.tag_name(raw), Some(&b""[..]));
    let token = Token::new_no_attributes(18, 20, 0, 0, TagID::Undef, 0);
    assert_eq!(token.source(raw), None);
    assert_eq!(token.tag_name(raw), None);
    let token = Token::new_no_attributes(5, 4, 0, 0, TagID::Undef, 0);
    assert_eq!(token.source(raw), None);
    assert_eq!(token.tag_name(raw), None);
}

#[test]
fn token_flags() {
    let token = Token::new_no_attributes(0, 0, 0, 0, TagID::A, Flags::Close.bits());
    assert!(token.is_closing());
    assert!(!token.is_self_closing());
    let both = Flags::Close.bits() | Flags::CloseSelf.bits();
    let token = Token::new_no_attributes(0, 0, 0, 0, TagID::A, both);
    assert!(token.is_closing());
    assert!(token.is_self_closing());
    let token = Token::new_no_attributes(0, 0, 0, 0, TagID::A, Flags::Open.bits());
    assert!(!token.is_closing());
    assert!(!token.is_self_closing());
}

#[test]
fn flag_bits() {
    assert_eq!(Flags::Open.bits(), 0x00);
    assert_eq!(Flags::Close.bits(), 0x01);
    assert_eq!(Flags::CloseSelf.bits(), 0x02);
    assert_eq!(Flags::ForceQuirks.bits(), 0x04);
    assert_eq!(Flags::Done.bits(), 0x08);
}

#[test]
fn tag_codes() {
    assert_eq!(TagID::Undef.code(), 0x00);
    assert_eq!(TagID::EndOfFile.code(), 0x01);
    assert_eq!(TagID::Text.code(), 0x02);
    assert_eq!(TagID::A.code(), 0x06);
    assert_eq!(TagID::Body.code(), 0x1f);
    assert_eq!(TagID::H1.code(), 0x5b);
    assert_eq!(TagID::ImageMap.code(), 0x77);
    assert_eq!(TagID::Paragraph.code(), 0x91);
    assert_eq!(TagID::Xmp.code(), 0xc3);
    assert_eq!(TagID::_LastEntry.code(), 0xc4);
}

#[test]
fn tag_codes_round_trip() {
    for code in 0u32..=0xc4 {
        let id = TagID::from_code(code);
        assert_eq!(id.code() as u32, code);
        assert_eq!(id as u32, code);
    }
    assert_eq!(TagID::from_code(0), TagID::Undef);
    assert_eq!(TagID::from_code(0xc5), TagID::Undef);
    assert_eq!(TagID::from_code(u32::MAX), TagID::Undef);
}

#[test]
fn handled_states() {
    assert!(State::Data.is_handled());
    assert!(State::TagName.is_handled());
    assert!(State::NumericCharacterReferenceEnd.is_handled());
    assert!(State::Rawtext.is_handled());
    assert!(!State::BogusComment.is_handled());
    assert!(!State::MarkupDeclarationOpen.is_handled());
    assert!(!State::RcdataLessThanSign.is_handled());
    assert!(!State::RawtextEndTagName.is_handled());
    assert!(!State::AmbiguousAmpersand.is_handled());
    assert!(!State::ScriptData.is_handled());
    assert!(!State::Doctype.is_handled());
    assert!(State::Data.reads_content());
    assert!(State::Rcdata.reads_content());
    assert!(State::Rawtext.reads_content());
    assert!(!State::Plaintext.reads_content());
    assert!(!State::TagOpen.reads_content());
    assert!(State::Rawtext.reads_plain());
    assert!(State::RawtextLessThanSign.reads_plain());
    assert!(State::RawtextEndTagOpen.reads_plain());
    assert!(State::RawtextEndTagName.reads_plain());
    assert!(!State::Data.reads_plain());
    assert!(!State::Rcdata.reads_plain());
}

#[test]
fn byte_classes() {
    let spaces: Vec<u8> = (0u8..=255).filter(|b| byte_is_space(*b)).collect();
    assert_eq!(spaces, vec![0x09, 0x0A, 0x0C, 0x20]);
    let letters: Vec<u8> = (0u8..=255).filter(|b| byte_is_letter(*b)).collect();
    assert_eq!(letters, b"ABCDEFGHIJKLMNOPQRSTUVWXYZabcdefghijklmnopqrstuvwxyz".to_vec());
    let digits: Vec<u8> = (0u8..=255).filter(|b| byte_is_digit(*b)).collect();
    assert_eq!(digits, b"0123456789".to_vec());
    let hex: Vec<u8> = (0u8..=255).filter(|b| byte_is_hex_digit(*b)).collect();
    assert_eq!(hex, b"0123456789ABCDEFabcdef".to_vec());
    let values: Vec<u32> = hex.iter().map(|b| hex_digit_value(*b)).collect();
    assert_eq!(
        values,
        vec![0, 1, 2, 3, 4, 5, 6, 7, 8, 9, 10, 11, 12, 13, 14, 15, 10, 11, 12, 13, 14, 15]
    );
    let count = (0u8..=255).filter(|b| byte_is_alphanumeric(*b)).count();
    assert_eq!(count, 62);
}

#[test]
fn equality_of_byte_strings() {
    assert!(bytes_equal(b"", b""));
    assert!(bytes_equal(b"abc", b"abc"));
    assert!(!bytes_equal(b"abc", b"abd"));
    assert!(!bytes_equal(b"abc", b"ab"));
    assert!(!bytes_equal(b"", b"a"));
}
