use markup_tokenizer::tables::lookup;
use markup_tokenizer::tokenizer::resolve_tag_name;
use markup_tokenizer::tokens::TagID;

fn tag_table() -> phf::Map<&'static [u8], u32> {
    phf::Map {
        key: 1234569,
        disps: &[
            (1, 0),
            (1, 1),
            (14, 22),
            (9, 11),
            (1, 26),
            (0, 2),
        ],
        entries: &[
            (b"h1", 91),
            (b"col", 40),
            (b"div", 51),
            (b"embed", 55),
            (b"p", 145),
            (b"source", 166),
            (b"body", 31),
            (b"br", 32),
            (b"meta", 124),
            (b"!DOCTYPE", 5),
            (b"script", 161),
            (b"html", 101),
            (b"wbr", 194),
            (b"a", 6),
            (b"input", 106),
            (b"base", 23),
            (b"textarea", 180),
            (b"link", 115),
            (b"title", 186),
            (b"img", 105),
            (b"hr", 100),
            (b"style", 171),
            (b"template", 179),
            (b"math", 122),
            (b"svg", 175),
            (b"area", 18),
            (b"track", 188),
            (b"head", 97),
        ],
    }
}

fn reference_table() -> phf::Map<&'static [u8], u32> {
    phf::Map {
        key: 1234568,
        disps: &[
            (3, 0),
            (0, 4),
        ],
        entries: &[
            (b"lt", 60),
            (b"gt", 62),
            (b"quot", 34),
            (b"amp", 38),
            (b"copy", 169),
            (b"euro", 8364),
            (b"apos", 39),
            (b"nbsp", 160),
        ],
    }
}


#[test]
fn lookup_finds_what_the_table_holds() {
    let tags = tag_table();
    assert_eq!(lookup(&tags, b"a"), Some(6));
    assert_eq!(lookup(&tags, b"body"), Some(0x1f));
    assert_eq!(lookup(&tags, b"!DOCTYPE"), Some(5));
    assert_eq!(lookup(&tags, b"wbr"), Some(0xc2));
    let refs = reference_table();
    assert_eq!(lookup(&refs, b"amp"), Some(0x26));
    assert_eq!(lookup(&refs, b"euro"), Some(0x20AC));
}

#[test]
fn lookup_finds_nothing_else() {
    let tags = tag_table();
    assert_eq!(lookup(&tags, b""), None);
    assert_eq!(lookup(&tags, b"A"), None);
    assert_eq!(lookup(&tags, b"bod"), None);
    assert_eq!(lookup(&tags, b"bodyy"), None);
    assert_eq!(lookup(&tags, b"amp"), None);
    let refs = reference_table();
    assert_eq!(lookup(&refs, b"a"), None);
    assert_eq!(lookup(&refs, b"AMP"), None);
}

#[test]
fn lookup_in_an_empty_table() {
    let empty: phf::Map<&'static [u8], u32> = phf::Map::new();
    assert_eq!(lookup(&empty, b"a"), None);
    assert_eq!(lookup(&empty, b""), None);
}

#[test]
fn lookup_in_a_table_without_displacements() {
    let odd: phf::Map<&'static [u8], u32> = phf::Map {
        key: 0,
        disps: &[],
        entries: &[(b"a", 6)],
    };
    assert_eq!(lookup(&odd, b"a"), None);
    assert_eq!(resolve_tag_name(&odd, b"a"), TagID::Undef);
}

#[test]
fn every_entry_of_the_tag_table_is_found() {
    let tags = tag_table();
    assert_eq!(tags.len(), 28);
    for (name, code) in tags.entries() {
        assert_eq!(lookup(&tags, name), Some(*code));
        assert_eq!(resolve_tag_name(&tags, name), TagID::from_code(*code));
    }
}

#[test]
fn tag_resolution_is_idempotent() {
    let tags = tag_table();
    assert_eq!(resolve_tag_name(&tags, b"h1"), TagID::H1);
    assert_eq!(resolve_tag_name(&tags, b"h1"), TagID::H1);
    assert_eq!(resolve_tag_name(&tags, b"p"), resolve_tag_name(&tags, b"p"));
    assert_eq!(resolve_tag_name(&tags, b"nosuchtag"), TagID::Undef);
    assert_eq!(resolve_tag_name(&tags, b"nosuchtag"), TagID::Undef);
    assert_eq!(resolve_tag_name(&tags, b"another"), TagID::Undef);
    assert_eq!(resolve_tag_name(&tags, b""), TagID::Undef);
}

#[test]
fn codes_of_no_element_resolve_to_undef() {
    let odd: phf::Map<&'static [u8], u32> = phf::Map {
        key: 0,
        disps: &[(0, 0)],
        entries: &[(b"text", 2)],
    };
    assert_eq!(lookup(&odd, b"text"), Some(2));
    assert_eq!(resolve_tag_name(&odd, b"text"), TagID::Undef);
    let odd: phf::Map<&'static [u8], u32> = phf::Map {
        key: 7,
        disps: &[(0, 0)],
        entries: &[(b"eof", 1)],
    };
    assert_eq!(resolve_tag_name(&odd, b"eof"), TagID::Undef);
    let odd: phf::Map<&'static [u8], u32> = phf::Map {
        key: 7,
        disps: &[(0, 0)],
        entries: &[(b"far", 1000)],
    };
    assert_eq!(lookup(&odd, b"far"), Some(1000));
    assert_eq!(resolve_tag_name(&odd, b"far"), TagID::Undef);
    assert_eq!(resolve_tag_name(&odd, b"fa"), TagID::Undef);
}
