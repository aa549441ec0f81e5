//! Tag identifiers: a closed set of compact integers standing in for tag names.

use vstd::prelude::*;

verus! {

/// Identifier of a token: a sentinel for what is not an element, or the element
/// that a tag name resolved to. The numeric code of an identifier is its position
/// in this list, starting at zero.
#[derive(Clone, Copy, Debug, PartialEq, Eq, Structural)]
pub enum TagID {
    Undef,
    EndOfFile,
    Text,
    Document,
    EmComment,
    EmDoctype,
    A,
    Abbr,
    Acronym,
    Address,
    AltGlyph,
    AltGlyphDef,
    AltGlyphItem,
    AnimateColor,
    AnimateMotion,
    AnimateTransform,
    AnnotationXml,
    Applet,
    Area,
    Article,
    Aside,
    Audio,
    B,
    Base,
    BaseFont,
    Bdi,
    Bdo,
    BGSound,
    Big,
    Blink,
    Blockquote,
    Body,
    Br,
    Button,
    Canvas,
    Caption,
    Center,
    Cite,
    ClipPath,
    Code,
    Col,
    ColGroup,
    Data,
    DataList,
    DD,
    Del,
    Desc,
    Details,
    Dfn,
    Dialog,
    Dir,
    Div,
    Dl,
    Dt,
    Em,
    Embed,
    Feblend,
    FeColorMatrix,
    FeComponentTransfer,
    FeComposite,
    FeConvolveMatrix,
    FeDiffuseLighting,
    FeDisplacementMap,
    FeDistantLight,
    FeDropShadow,
    FeFlood,
    FeFuncA,
    FefuncB,
    FeFuncG,
    FeFuncR,
    FeGaussianBlur,
    FeImage,
    FeMerge,
    FeMergeNode,
    FeMorphology,
    FeOffset,
    FePointLight,
    FeSpecularLighting,
    FeSpotlight,
    FeTile,
    FeTurbulence,
    FieldSet,
    FigCaption,
    Figure,
    Font,
    Footer,
    ForeignObject,
    Form,
    Frame,
    Frameset,
    Glyphref,
    H1,
    H2,
    H3,
    H4,
    H5,
    H6,
    Head,
    Header,
    Hgroup,
    Hr,
    Html,
    I,
    IFrame,
    Image,
    Img,
    Input,
    Ins,
    Isindex,
    Kbd,
    Keygen,
    Label,
    Legend,
    Li,
    LinearGradient,
    Link,
    Listing,
    Main,
    MAlignMark,
    ImageMap,
    Mark,
    Marquee,
    Math,
    Menu,
    Meta,
    Meter,
    MFenced,
    MGlyph,
    Mi,
    Mn,
    Mo,
    Ms,
    MText,
    MultiCol,
    Nav,
    NextId,
    Nobr,
    NoEmbed,
    NoFrames,
    NoScript,
    Object,
    Ol,
    OptGroup,
    Option,
    Output,
    Paragraph,
    Param,
    Path,
    Picture,
    PlainText,
    Pre,
    Progress,
    Q,
    RadialGradient,
    Rb,
    Rp,
    Rt,
    Rtc,
    Ruby,
    S,
    Samp,
    Script,
    Section,
    Select,
    Slot,
    Small,
    Source,
    Spacer,
    Span,
    Strike,
    Strong,
    Style,
    Sub,
    Summary,
    Sup,
    Svg,
    Table,
    Tbody,
    Td,
    Template,
    TextArea,
    TextPath,
    TFoot,
    Th,
    Thead,
    Time,
    Title,
    Tr,
    Track,
    Tt,
    U,
    Ul,
    Var,
    Video,
    Wbr,
    Xmp,
    _LastEntry,
}

impl TagID {
    /// The numeric code of an identifier.
    pub open spec fn spec_code(self) -> int {
        match self {
            TagID::Undef => 0,
            TagID::EndOfFile => 1,
            TagID::Text => 2,
            TagID::Document => 3,
            TagID::EmComment => 4,
            TagID::EmDoctype => 5,
            TagID::A => 6,
            TagID::Abbr => 7,
            TagID::Acronym => 8,
            TagID::Address => 9,
            TagID::AltGlyph => 10,
            TagID::AltGlyphDef => 11,
            TagID::AltGlyphItem => 12,
            TagID::AnimateColor => 13,
            TagID::AnimateMotion => 14,
            TagID::AnimateTransform => 15,
            TagID::AnnotationXml => 16,
            TagID::Applet => 17,
            TagID::Area => 18,
            TagID::Article => 19,
            TagID::Aside => 20,
            TagID::Audio => 21,
            TagID::B => 22,
            TagID::Base => 23,
            TagID::BaseFont => 24,
            TagID::Bdi => 25,
            TagID::Bdo => 26,
            TagID::BGSound => 27,
            TagID::Big => 28,
            TagID::Blink => 29,
            TagID::Blockquote => 30,
            TagID::Body => 31,
            TagID::Br => 32,
            TagID::Button => 33,
            TagID::Canvas => 34,
            TagID::Caption => 35,
            TagID::Center => 36,
            TagID::Cite => 37,
            TagID::ClipPath => 38,
            TagID::Code => 39,
            TagID::Col => 40,
            TagID::ColGroup => 41,
            TagID::Data => 42,
            TagID::DataList => 43,
            TagID::DD => 44,
            TagID::Del => 45,
            TagID::Desc => 46,
            TagID::Details => 47,
            TagID::Dfn => 48,
            TagID::Dialog => 49,
            TagID::Dir => 50,
            TagID::Div => 51,
            TagID::Dl => 52,
            TagID::Dt => 53,
            TagID::Em => 54,
            TagID::Embed => 55,
            TagID::Feblend => 56,
            TagID::FeColorMatrix => 57,
            TagID::FeComponentTransfer => 58,
            TagID::FeComposite => 59,
            TagID::FeConvolveMatrix => 60,
            TagID::FeDiffuseLighting => 61,
            TagID::FeDisplacementMap => 62,
            TagID::FeDistantLight => 63,
            TagID::FeDropShadow => 64,
            TagID::FeFlood => 65,
            TagID::FeFuncA => 66,
            TagID::FefuncB => 67,
            TagID::FeFuncG => 68,
            TagID::FeFuncR => 69,
            TagID::FeGaussianBlur => 70,
            TagID::FeImage => 71,
            TagID::FeMerge => 72,
            TagID::FeMergeNode => 73,
            TagID::FeMorphology => 74,
            TagID::FeOffset => 75,
            TagID::FePointLight => 76,
            TagID::FeSpecularLighting => 77,
            TagID::FeSpotlight => 78,
            TagID::FeTile => 79,
            TagID::FeTurbulence => 80,
            TagID::FieldSet => 81,
            TagID::FigCaption => 82,
            TagID::Figure => 83,
            TagID::Font => 84,
            TagID::Footer => 85,
            TagID::ForeignObject => 86,
            TagID::Form => 87,
            TagID::Frame => 88,
            TagID::Frameset => 89,
            TagID::Glyphref => 90,
            TagID::H1 => 91,
            TagID::H2 => 92,
            TagID::H3 => 93,
            TagID::H4 => 94,
            TagID::H5 => 95,
            TagID::H6 => 96,
            TagID::Head => 97,
            TagID::Header => 98,
            TagID::Hgroup => 99,
            TagID::Hr => 100,
            TagID::Html => 101,
            TagID::I => 102,
            TagID::IFrame => 103,
            TagID::Image => 104,
            TagID::Img => 105,
            TagID::Input => 106,
            TagID::Ins => 107,
            TagID::Isindex => 108,
            TagID::Kbd => 109,
            TagID::Keygen => 110,
            TagID::Label => 111,
            TagID::Legend => 112,
            TagID::Li => 113,
            TagID::LinearGradient => 114,
            TagID::Link => 115,
            TagID::Listing => 116,
            TagID::Main => 117,
            TagID::MAlignMark => 118,
            TagID::ImageMap => 119,
            TagID::Mark => 120,
            TagID::Marquee => 121,
            TagID::Math => 122,
            TagID::Menu => 123,
            TagID::Meta => 124,
            TagID::Meter => 125,
            TagID::MFenced => 126,
            TagID::MGlyph => 127,
            TagID::Mi => 128,
            TagID::Mn => 129,
            TagID::Mo => 130,
            TagID::Ms => 131,
            TagID::MText => 132,
            TagID::MultiCol => 133,
            TagID::Nav => 134,
            TagID::NextId => 135,
            TagID::Nobr => 136,
            TagID::NoEmbed => 137,
            TagID::NoFrames => 138,
            TagID::NoScript => 139,
            TagID::Object => 140,
            TagID::Ol => 141,
            TagID::OptGroup => 142,
            TagID::Option => 143,
            TagID::Output => 144,
            TagID::Paragraph => 145,
            TagID::Param => 146,
            TagID::Path => 147,
            TagID::Picture => 148,
            TagID::PlainText => 149,
            TagID::Pre => 150,
            TagID::Progress => 151,
            TagID::Q => 152,
            TagID::RadialGradient => 153,
            TagID::Rb => 154,
            TagID::Rp => 155,
            TagID::Rt => 156,
            TagID::Rtc => 157,
            TagID::Ruby => 158,
            TagID::S => 159,
            TagID::Samp => 160,
            TagID::Script => 161,
            TagID::Section => 162,
            TagID::Select => 163,
            TagID::Slot => 164,
            TagID::Small => 165,
            TagID::Source => 166,
            TagID::Spacer => 167,
            TagID::Span => 168,
            TagID::Strike => 169,
            TagID::Strong => 170,
            TagID::Style => 171,
            TagID::Sub => 172,
            TagID::Summary => 173,
            TagID::Sup => 174,
            TagID::Svg => 175,
            TagID::Table => 176,
            TagID::Tbody => 177,
            TagID::Td => 178,
            TagID::Template => 179,
            TagID::TextArea => 180,
            TagID::TextPath => 181,
            TagID::TFoot => 182,
            TagID::Th => 183,
            TagID::Thead => 184,
            TagID::Time => 185,
            TagID::Title => 186,
            TagID::Tr => 187,
            TagID::Track => 188,
            TagID::Tt => 189,
            TagID::U => 190,
            TagID::Ul => 191,
            TagID::Var => 192,
            TagID::Video => 193,
            TagID::Wbr => 194,
            TagID::Xmp => 195,
            TagID::_LastEntry => 196,
        }
    }

    /// The identifier with the given numeric code; `Undef` where there is none.
    pub open spec fn spec_from_code(code: int) -> TagID {
        if code == 1 {
            TagID::EndOfFile
        } else if code == 2 {
            TagID::Text
        } else if code == 3 {
            TagID::Document
        } else if code == 4 {
            TagID::EmComment
        } else if code == 5 {
            TagID::EmDoctype
        } else if code == 6 {
            TagID::A
        } else if code == 7 {
            TagID::Abbr
        } else if code == 8 {
            TagID::Acronym
        } else if code == 9 {
            TagID::Address
        } else if code == 10 {
            TagID::AltGlyph
        } else if code == 11 {
            TagID::AltGlyphDef
        } else if code == 12 {
            TagID::AltGlyphItem
        } else if code == 13 {
            TagID::AnimateColor
        } else if code == 14 {
            TagID::AnimateMotion
        } else if code == 15 {
            TagID::AnimateTransform
        } else if code == 16 {
            TagID::AnnotationXml
        } else if code == 17 {
            TagID::Applet
        } else if code == 18 {
            TagID::Area
        } else if code == 19 {
            TagID::Article
        } else if code == 20 {
            TagID::Aside
        } else if code == 21 {
            TagID::Audio
        } else if code == 22 {
            TagID::B
        } else if code == 23 {
            TagID::Base
        } else if code == 24 {
            TagID::BaseFont
        } else if code == 25 {
            TagID::Bdi
        } else if code == 26 {
            TagID::Bdo
        } else if code == 27 {
            TagID::BGSound
        } else if code == 28 {
            TagID::Big
        } else if code == 29 {
            TagID::Blink
        } else if code == 30 {
            TagID::Blockquote
        } else if code == 31 {
            TagID::Body
        } else if code == 32 {
            TagID::Br
        } else if code == 33 {
            TagID::Button
        } else if code == 34 {
            TagID::Canvas
        } else if code == 35 {
            TagID::Caption
        } else if code == 36 {
            TagID::Center
        } else if code == 37 {
            TagID::Cite
        } else if code == 38 {
            TagID::ClipPath
        } else if code == 39 {
            TagID::Code
        } else if code == 40 {
            TagID::Col
        } else if code == 41 {
            TagID::ColGroup
        } else if code == 42 {
            TagID::Data
        } else if code == 43 {
            TagID::DataList
        } else if code == 44 {
            TagID::DD
        } else if code == 45 {
            TagID::Del
        } else if code == 46 {
            TagID::Desc
        } else if code == 47 {
            TagID::Details
        } else if code == 48 {
            TagID::Dfn
        } else if code == 49 {
            TagID::Dialog
        } else if code == 50 {
            TagID::Dir
        } else if code == 51 {
            TagID::Div
        } else if code == 52 {
            TagID::Dl
        } else if code == 53 {
            TagID::Dt
        } else if code == 54 {
            TagID::Em
        } else if code == 55 {
            TagID::Embed
        } else if code == 56 {
            TagID::Feblend
        } else if code == 57 {
            TagID::FeColorMatrix
        } else if code == 58 {
            TagID::FeComponentTransfer
        } else if code == 59 {
            TagID::FeComposite
        } else if code == 60 {
            TagID::FeConvolveMatrix
        } else if code == 61 {
            TagID::FeDiffuseLighting
        } else if code == 62 {
            TagID::FeDisplacementMap
        } else if code == 63 {
            TagID::FeDistantLight
        } else if code == 64 {
            TagID::FeDropShadow
        } else if code == 65 {
            TagID::FeFlood
        } else if code == 66 {
            TagID::FeFuncA
        } else if code == 67 {
            TagID::FefuncB
        } else if code == 68 {
            TagID::FeFuncG
        } else if code == 69 {
            TagID::FeFuncR
        } else if code == 70 {
            TagID::FeGaussianBlur
        } else if code == 71 {
            TagID::FeImage
        } else if code == 72 {
            TagID::FeMerge
        } else if code == 73 {
            TagID::FeMergeNode
        } else if code == 74 {
            TagID::FeMorphology
        } else if code == 75 {
            TagID::FeOffset
        } else if code == 76 {
            TagID::FePointLight
        } else if code == 77 {
            TagID::FeSpecularLighting
        } else if code == 78 {
            TagID::FeSpotlight
        } else if code == 79 {
            TagID::FeTile
        } else if code == 80 {
            TagID::FeTurbulence
        } else if code == 81 {
            TagID::FieldSet
        } else if code == 82 {
            TagID::FigCaption
        } else if code == 83 {
            TagID::Figure
        } else if code == 84 {
            TagID::Font
        } else if code == 85 {
            TagID::Footer
        } else if code == 86 {
            TagID::ForeignObject
        } else if code == 87 {
            TagID::Form
        } else if code == 88 {
            TagID::Frame
        } else if code == 89 {
            TagID::Frameset
        } else if code == 90 {
            TagID::Glyphref
        } else if code == 91 {
            TagID::H1
        } else if code == 92 {
            TagID::H2
        } else if code == 93 {
            TagID::H3
        } else if code == 94 {
            TagID::H4
        } else if code == 95 {
            TagID::H5
        } else if code == 96 {
            TagID::H6
        } else if code == 97 {
            TagID::Head
        } else if code == 98 {
            TagID::Header
        } else if code == 99 {
            TagID::Hgroup
        } else if code == 100 {
            TagID::Hr
        } else if code == 101 {
            TagID::Html
        } else if code == 102 {
            TagID::I
        } else if code == 103 {
            TagID::IFrame
        } else if code == 104 {
            TagID::Image
        } else if code == 105 {
            TagID::Img
        } else if code == 106 {
            TagID::Input
        } else if code == 107 {
            TagID::Ins
        } else if code == 108 {
            TagID::Isindex
        } else if code == 109 {
            TagID::Kbd
        } else if code == 110 {
            TagID::Keygen
        } else if code == 111 {
            TagID::Label
        } else if code == 112 {
            TagID::Legend
        } else if code == 113 {
            TagID::Li
        } else if code == 114 {
            TagID::LinearGradient
        } else if code == 115 {
            TagID::Link
        } else if code == 116 {
            TagID::Listing
        } else if code == 117 {
            TagID::Main
        } else if code == 118 {
            TagID::MAlignMark
        } else if code == 119 {
            TagID::ImageMap
        } else if code == 120 {
            TagID::Mark
        } else if code == 121 {
            TagID::Marquee
        } else if code == 122 {
            TagID::Math
        } else if code == 123 {
            TagID::Menu
        } else if code == 124 {
            TagID::Meta
        } else if code == 125 {
            TagID::Meter
        } else if code == 126 {
            TagID::MFenced
        } else if code == 127 {
            TagID::MGlyph
        } else if code == 128 {
            TagID::Mi
        } else if code == 129 {
            TagID::Mn
        } else if code == 130 {
            TagID::Mo
        } else if code == 131 {
            TagID::Ms
        } else if code == 132 {
            TagID::MText
        } else if code == 133 {
            TagID::MultiCol
        } else if code == 134 {
            TagID::Nav
        } else if code == 135 {
            TagID::NextId
        } else if code == 136 {
            TagID::Nobr
        } else if code == 137 {
            TagID::NoEmbed
        } else if code == 138 {
            TagID::NoFrames
        } else if code == 139 {
            TagID::NoScript
        } else if code == 140 {
            TagID::Object
        } else if code == 141 {
            TagID::Ol
        } else if code == 142 {
            TagID::OptGroup
        } else if code == 143 {
            TagID::Option
        } else if code == 144 {
            TagID::Output
        } else if code == 145 {
            TagID::Paragraph
        } else if code == 146 {
            TagID::Param
        } else if code == 147 {
            TagID::Path
        } else if code == 148 {
            TagID::Picture
        } else if code == 149 {
            TagID::PlainText
        } else if code == 150 {
            TagID::Pre
        } else if code == 151 {
            TagID::Progress
        } else if code == 152 {
            TagID::Q
        } else if code == 153 {
            TagID::RadialGradient
        } else if code == 154 {
            TagID::Rb
        } else if code == 155 {
            TagID::Rp
        } else if code == 156 {
            TagID::Rt
        } else if code == 157 {
            TagID::Rtc
        } else if code == 158 {
            TagID::Ruby
        } else if code == 159 {
            TagID::S
        } else if code == 160 {
            TagID::Samp
        } else if code == 161 {
            TagID::Script
        } else if code == 162 {
            TagID::Section
        } else if code == 163 {
            TagID::Select
        } else if code == 164 {
            TagID::Slot
        } else if code == 165 {
            TagID::Small
        } else if code == 166 {
            TagID::Source
        } else if code == 167 {
            TagID::Spacer
        } else if code == 168 {
            TagID::Span
        } else if code == 169 {
            TagID::Strike
        } else if code == 170 {
            TagID::Strong
        } else if code == 171 {
            TagID::Style
        } else if code == 172 {
            TagID::Sub
        } else if code == 173 {
            TagID::Summary
        } else if code == 174 {
            TagID::Sup
        } else if code == 175 {
            TagID::Svg
        } else if code == 176 {
            TagID::Table
        } else if code == 177 {
            TagID::Tbody
        } else if code == 178 {
            TagID::Td
        } else if code == 179 {
            TagID::Template
        } else if code == 180 {
            TagID::TextArea
        } else if code == 181 {
            TagID::TextPath
        } else if code == 182 {
            TagID::TFoot
        } else if code == 183 {
            TagID::Th
        } else if code == 184 {
            TagID::Thead
        } else if code == 185 {
            TagID::Time
        } else if code == 186 {
            TagID::Title
        } else if code == 187 {
            TagID::Tr
        } else if code == 188 {
            TagID::Track
        } else if code == 189 {
            TagID::Tt
        } else if code == 190 {
            TagID::U
        } else if code == 191 {
            TagID::Ul
        } else if code == 192 {
            TagID::Var
        } else if code == 193 {
            TagID::Video
        } else if code == 194 {
            TagID::Wbr
        } else if code == 195 {
            TagID::Xmp
        } else if code == 196 {
            TagID::_LastEntry
        } else {
            TagID::Undef
        }
    }

    /// The numeric code of this identifier.
    pub fn code(self) -> (r: u8)
        ensures
            r as int == self.spec_code(),
    {
        match self {
            TagID::Undef => 0u8,
            TagID::EndOfFile => 1u8,
            TagID::Text => 2u8,
            TagID::Document => 3u8,
            TagID::EmComment => 4u8,
            TagID::EmDoctype => 5u8,
            TagID::A => 6u8,
            TagID::Abbr => 7u8,
            TagID::Acronym => 8u8,
            TagID::Address => 9u8,
            TagID::AltGlyph => 10u8,
            TagID::AltGlyphDef => 11u8,
            TagID::AltGlyphItem => 12u8,
            TagID::AnimateColor => 13u8,
            TagID::AnimateMotion => 14u8,
            TagID::AnimateTransform => 15u8,
            TagID::AnnotationXml => 16u8,
            TagID::Applet => 17u8,
            TagID::Area => 18u8,
            TagID::Article => 19u8,
            TagID::Aside => 20u8,
            TagID::Audio => 21u8,
            TagID::B => 22u8,
            TagID::Base => 23u8,
            TagID::BaseFont => 24u8,
            TagID::Bdi => 25u8,
            TagID::Bdo => 26u8,
            TagID::BGSound => 27u8,
            TagID::Big => 28u8,
            TagID::Blink => 29u8,
            TagID::Blockquote => 30u8,
            TagID::Body => 31u8,
            TagID::Br => 32u8,
            TagID::Button => 33u8,
            TagID::Canvas => 34u8,
            TagID::Caption => 35u8,
            TagID::Center => 36u8,
            TagID::Cite => 37u8,
            TagID::ClipPath => 38u8,
            TagID::Code => 39u8,
            TagID::Col => 40u8,
            TagID::ColGroup => 41u8,
            TagID::Data => 42u8,
            TagID::DataList => 43u8,
            TagID::DD => 44u8,
            TagID::Del => 45u8,
            TagID::Desc => 46u8,
            TagID::Details => 47u8,
            TagID::Dfn => 48u8,
            TagID::Dialog => 49u8,
            TagID::Dir => 50u8,
            TagID::Div => 51u8,
            TagID::Dl => 52u8,
            TagID::Dt => 53u8,
            TagID::Em => 54u8,
            TagID::Embed => 55u8,
            TagID::Feblend => 56u8,
            TagID::FeColorMatrix => 57u8,
            TagID::FeComponentTransfer => 58u8,
            TagID::FeComposite => 59u8,
            TagID::FeConvolveMatrix => 60u8,
            TagID::FeDiffuseLighting => 61u8,
            TagID::FeDisplacementMap => 62u8,
            TagID::FeDistantLight => 63u8,
            TagID::FeDropShadow => 64u8,
            TagID::FeFlood => 65u8,
            TagID::FeFuncA => 66u8,
            TagID::FefuncB => 67u8,
            TagID::FeFuncG => 68u8,
            TagID::FeFuncR => 69u8,
            TagID::FeGaussianBlur => 70u8,
            TagID::FeImage => 71u8,
            TagID::FeMerge => 72u8,
            TagID::FeMergeNode => 73u8,
            TagID::FeMorphology => 74u8,
            TagID::FeOffset => 75u8,
            TagID::FePointLight => 76u8,
            TagID::FeSpecularLighting => 77u8,
            TagID::FeSpotlight => 78u8,
            TagID::FeTile => 79u8,
            TagID::FeTurbulence => 80u8,
            TagID::FieldSet => 81u8,
            TagID::FigCaption => 82u8,
            TagID::Figure => 83u8,
            TagID::Font => 84u8,
            TagID::Footer => 85u8,
            TagID::ForeignObject => 86u8,
            TagID::Form => 87u8,
            TagID::Frame => 88u8,
            TagID::Frameset => 89u8,
            TagID::Glyphref => 90u8,
            TagID::H1 => 91u8,
            TagID::H2 => 92u8,
            TagID::H3 => 93u8,
            TagID::H4 => 94u8,
            TagID::H5 => 95u8,
            TagID::H6 => 96u8,
            TagID::Head => 97u8,
            TagID::Header => 98u8,
            TagID::Hgroup => 99u8,
            TagID::Hr => 100u8,
            TagID::Html => 101u8,
            TagID::I => 102u8,
            TagID::IFrame => 103u8,
            TagID::Image => 104u8,
            TagID::Img => 105u8,
            TagID::Input => 106u8,
            TagID::Ins => 107u8,
            TagID::Isindex => 108u8,
            TagID::Kbd => 109u8,
            TagID::Keygen => 110u8,
            TagID::Label => 111u8,
            TagID::Legend => 112u8,
            TagID::Li => 113u8,
            TagID::LinearGradient => 114u8,
            TagID::Link => 115u8,
            TagID::Listing => 116u8,
            TagID::Main => 117u8,
            TagID::MAlignMark => 118u8,
            TagID::ImageMap => 119u8,
            TagID::Mark => 120u8,
            TagID::Marquee => 121u8,
            TagID::Math => 122u8,
            TagID::Menu => 123u8,
            TagID::Meta => 124u8,
            TagID::Meter => 125u8,
            TagID::MFenced => 126u8,
            TagID::MGlyph => 127u8,
            TagID::Mi => 128u8,
            TagID::Mn => 129u8,
            TagID::Mo => 130u8,
            TagID::Ms => 131u8,
            TagID::MText => 132u8,
            TagID::MultiCol => 133u8,
            TagID::Nav => 134u8,
            TagID::NextId => 135u8,
            TagID::Nobr => 136u8,
            TagID::NoEmbed => 137u8,
            TagID::NoFrames => 138u8,
            TagID::NoScript => 139u8,
            TagID::Object => 140u8,
            TagID::Ol => 141u8,
            TagID::OptGroup => 142u8,
            TagID::Option => 143u8,
            TagID::Output => 144u8,
            TagID::Paragraph => 145u8,
            TagID::Param => 146u8,
            TagID::Path => 147u8,
            TagID::Picture => 148u8,
            TagID::PlainText => 149u8,
            TagID::Pre => 150u8,
            TagID::Progress => 151u8,
            TagID::Q => 152u8,
            TagID::RadialGradient => 153u8,
            TagID::Rb => 154u8,
            TagID::Rp => 155u8,
            TagID::Rt => 156u8,
            TagID::Rtc => 157u8,
            TagID::Ruby => 158u8,
            TagID::S => 159u8,
            TagID::Samp => 160u8,
            TagID::Script => 161u8,
            TagID::Section => 162u8,
            TagID::Select => 163u8,
            TagID::Slot => 164u8,
            TagID::Small => 165u8,
            TagID::Source => 166u8,
            TagID::Spacer => 167u8,
            TagID::Span => 168u8,
            TagID::Strike => 169u8,
            TagID::Strong => 170u8,
            TagID::Style => 171u8,
            TagID::Sub => 172u8,
            TagID::Summary => 173u8,
            TagID::Sup => 174u8,
            TagID::Svg => 175u8,
            TagID::Table => 176u8,
            TagID::Tbody => 177u8,
            TagID::Td => 178u8,
            TagID::Template => 179u8,
            TagID::TextArea => 180u8,
            TagID::TextPath => 181u8,
            TagID::TFoot => 182u8,
            TagID::Th => 183u8,
            TagID::Thead => 184u8,
            TagID::Time => 185u8,
            TagID::Title => 186u8,
            TagID::Tr => 187u8,
            TagID::Track => 188u8,
            TagID::Tt => 189u8,
            TagID::U => 190u8,
            TagID::Ul => 191u8,
            TagID::Var => 192u8,
            TagID::Video => 193u8,
            TagID::Wbr => 194u8,
            TagID::Xmp => 195u8,
            TagID::_LastEntry => 196u8,
        }
    }

    /// The identifier with the given numeric code. A code that names no
    /// identifier gives `Undef`, the identifier of unknown elements.
    pub fn from_code(code: u32) -> (r: TagID)
        ensures
            r == TagID::spec_from_code(code as int),
    {
        match code {
            1u32 => TagID::EndOfFile,
            2u32 => TagID::Text,
            3u32 => TagID::Document,
            4u32 => TagID::EmComment,
            5u32 => TagID::EmDoctype,
            6u32 => TagID::A,
            7u32 => TagID::Abbr,
            8u32 => TagID::Acronym,
            9u32 => TagID::Address,
            10u32 => TagID::AltGlyph,
            11u32 => TagID::AltGlyphDef,
            12u32 => TagID::AltGlyphItem,
            13u32 => TagID::AnimateColor,
            14u32 => TagID::AnimateMotion,
            15u32 => TagID::AnimateTransform,
            16u32 => TagID::AnnotationXml,
            17u32 => TagID::Applet,
            18u32 => TagID::Area,
            19u32 => TagID::Article,
            20u32 => TagID::Aside,
            21u32 => TagID::Audio,
            22u32 => TagID::B,
            23u32 => TagID::Base,
            24u32 => TagID::BaseFont,
            25u32 => TagID::Bdi,
            26u32 => TagID::Bdo,
            27u32 => TagID::BGSound,
            28u32 => TagID::Big,
            29u32 => TagID::Blink,
            30u32 => TagID::Blockquote,
            31u32 => TagID::Body,
            32u32 => TagID::Br,
            33u32 => TagID::Button,
            34u32 => TagID::Canvas,
            35u32 => TagID::Caption,
            36u32 => TagID::Center,
            37u32 => TagID::Cite,
            38u32 => TagID::ClipPath,
            39u32 => TagID::Code,
            40u32 => TagID::Col,
            41u32 => TagID::ColGroup,
            42u32 => TagID::Data,
            43u32 => TagID::DataList,
            44u32 => TagID::DD,
            45u32 => TagID::Del,
            46u32 => TagID::Desc,
            47u32 => TagID::Details,
            48u32 => TagID::Dfn,
            49u32 => TagID::Dialog,
            50u32 => TagID::Dir,
            51u32 => TagID::Div,
            52u32 => TagID::Dl,
            53u32 => TagID::Dt,
            54u32 => TagID::Em,
            55u32 => TagID::Embed,
            56u32 => TagID::Feblend,
            57u32 => TagID::FeColorMatrix,
            58u32 => TagID::FeComponentTransfer,
            59u32 => TagID::FeComposite,
            60u32 => TagID::FeConvolveMatrix,
            61u32 => TagID::FeDiffuseLighting,
            62u32 => TagID::FeDisplacementMap,
            63u32 => TagID::FeDistantLight,
            64u32 => TagID::FeDropShadow,
            65u32 => TagID::FeFlood,
            66u32 => TagID::FeFuncA,
            67u32 => TagID::FefuncB,
            68u32 => TagID::FeFuncG,
            69u32 => TagID::FeFuncR,
            70u32 => TagID::FeGaussianBlur,
            71u32 => TagID::FeImage,
            72u32 => TagID::FeMerge,
            73u32 => TagID::FeMergeNode,
            74u32 => TagID::FeMorphology,
            75u32 => TagID::FeOffset,
            76u32 => TagID::FePointLight,
            77u32 => TagID::FeSpecularLighting,
            78u32 => TagID::FeSpotlight,
            79u32 => TagID::FeTile,
            80u32 => TagID::FeTurbulence,
            81u32 => TagID::FieldSet,
            82u32 => TagID::FigCaption,
            83u32 => TagID::Figure,
            84u32 => TagID::Font,
            85u32 => TagID::Footer,
            86u32 => TagID::ForeignObject,
            87u32 => TagID::Form,
            88u32 => TagID::Frame,
            89u32 => TagID::Frameset,
            90u32 => TagID::Glyphref,
            91u32 => TagID::H1,
            92u32 => TagID::H2,
            93u32 => TagID::H3,
            94u32 => TagID::H4,
            95u32 => TagID::H5,
            96u32 => TagID::H6,
            97u32 => TagID::Head,
            98u32 => TagID::Header,
            99u32 => TagID::Hgroup,
            100u32 => TagID::Hr,
            101u32 => TagID::Html,
            102u32 => TagID::I,
            103u32 => TagID::IFrame,
            104u32 => TagID::Image,
            105u32 => TagID::Img,
            106u32 => TagID::Input,
            107u32 => TagID::Ins,
            108u32 => TagID::Isindex,
            109u32 => TagID::Kbd,
            110u32 => TagID::Keygen,
            111u32 => TagID::Label,
            112u32 => TagID::Legend,
            113u32 => TagID::Li,
            114u32 => TagID::LinearGradient,
            115u32 => TagID::Link,
            116u32 => TagID::Listing,
            117u32 => TagID::Main,
            118u32 => TagID::MAlignMark,
            119u32 => TagID::ImageMap,
            120u32 => TagID::Mark,
            121u32 => TagID::Marquee,
            122u32 => TagID::Math,
            123u32 => TagID::Menu,
            124u32 => TagID::Meta,
            125u32 => TagID::Meter,
            126u32 => TagID::MFenced,
            127u32 => TagID::MGlyph,
            128u32 => TagID::Mi,
            129u32 => TagID::Mn,
            130u32 => TagID::Mo,
            131u32 => TagID::Ms,
            132u32 => TagID::MText,
            133u32 => TagID::MultiCol,
            134u32 => TagID::Nav,
            135u32 => TagID::NextId,
            136u32 => TagID::Nobr,
            137u32 => TagID::NoEmbed,
            138u32 => TagID::NoFrames,
            139u32 => TagID::NoScript,
            140u32 => TagID::Object,
            141u32 => TagID::Ol,
            142u32 => TagID::OptGroup,
            143u32 => TagID::Option,
            144u32 => TagID::Output,
            145u32 => TagID::Paragraph,
            146u32 => TagID::Param,
            147u32 => TagID::Path,
            148u32 => TagID::Picture,
            149u32 => TagID::PlainText,
            150u32 => TagID::Pre,
            151u32 => TagID::Progress,
            152u32 => TagID::Q,
            153u32 => TagID::RadialGradient,
            154u32 => TagID::Rb,
            155u32 => TagID::Rp,
            156u32 => TagID::Rt,
            157u32 => TagID::Rtc,
            158u32 => TagID::Ruby,
            159u32 => TagID::S,
            160u32 => TagID::Samp,
            161u32 => TagID::Script,
            162u32 => TagID::Section,
            163u32 => TagID::Select,
            164u32 => TagID::Slot,
            165u32 => TagID::Small,
            166u32 => TagID::Source,
            167u32 => TagID::Spacer,
            168u32 => TagID::Span,
            169u32 => TagID::Strike,
            170u32 => TagID::Strong,
            171u32 => TagID::Style,
            172u32 => TagID::Sub,
            173u32 => TagID::Summary,
            174u32 => TagID::Sup,
            175u32 => TagID::Svg,
            176u32 => TagID::Table,
            177u32 => TagID::Tbody,
            178u32 => TagID::Td,
            179u32 => TagID::Template,
            180u32 => TagID::TextArea,
            181u32 => TagID::TextPath,
            182u32 => TagID::TFoot,
            183u32 => TagID::Th,
            184u32 => TagID::Thead,
            185u32 => TagID::Time,
            186u32 => TagID::Title,
            187u32 => TagID::Tr,
            188u32 => TagID::Track,
            189u32 => TagID::Tt,
            190u32 => TagID::U,
            191u32 => TagID::Ul,
            192u32 => TagID::Var,
            193u32 => TagID::Video,
            194u32 => TagID::Wbr,
            195u32 => TagID::Xmp,
            196u32 => TagID::_LastEntry,
            _ => TagID::Undef,
        }
    }

    /// Every identifier is found again from its own code.
    pub proof fn code_round_trip(self)
        ensures
            TagID::spec_from_code(self.spec_code()) == self,
            0 <= self.spec_code() < 256,
    {
    }
}

} // verus!
