use vstd::prelude::*;
use crate::text::{all_space, lemma_padded_round_trip, parse_u32, parsed_u32, radix_digits, trim_spaces, trimmed};

verus! {

/// One file of an attribute directory, as the directory listing gave it.
/// `content` is `None` where the file could not be read or was not UTF-8 text.
pub struct AttrFile {
    pub name: String,
    pub content: Option<String>,
}

/// How the text of an attribute file is decoded.
#[derive(Clone, Copy, Debug, PartialEq, Eq, Structural)]
pub enum Encoding {
    Text,
    HexU32,
    DecU32,
}

/// A decoded attribute value.
#[derive(Debug)]
pub enum AttrValue {
    Text(String),
    Number(u32),
}

/// The abstract form of an `AttrValue`.
pub ghost enum AttrValueView {
    Text(Seq<char>),
    Number(u32),
}

impl View for AttrValue {
    type V = AttrValueView;

    open spec fn view(&self) -> AttrValueView {
        match self {
            AttrValue::Text(s) => AttrValueView::Text(s@),
            AttrValue::Number(n) => AttrValueView::Number(*n),
        }
    }
}

pub open spec fn value_view(o: Option<AttrValue>) -> Option<AttrValueView> {
    match o {
        Some(v) => Some(v@),
        None => None,
    }
}

pub open spec fn text_view(o: Option<String>) -> Option<Seq<char>> {
    match o {
        Some(s) => Some(s@),
        None => None,
    }
}

pub open spec fn radix_of(enc: Encoding) -> nat {
    if enc == Encoding::HexU32 {
        16
    } else {
        10
    }
}

/// The text of the first file named `name`; `None` where there is no such file or it
/// could not be read.
pub open spec fn file_text(entries: Seq<AttrFile>, name: Seq<char>) -> Option<Seq<char>>
    decreases entries.len(),
{
    if entries.len() == 0 {
        None
    } else if entries[0].name@ == name {
        match entries[0].content {
            Some(c) => Some(c@),
            None => None,
        }
    } else {
        file_text(entries.drop_first(), name)
    }
}

/// What the text of an attribute file decodes to under `enc`.
pub open spec fn decoded(content: Seq<char>, enc: Encoding) -> Option<AttrValueView> {
    if enc == Encoding::Text {
        Some(AttrValueView::Text(trimmed(content)))
    } else {
        match parsed_u32(trimmed(content), radix_of(enc)) {
            Some(n) => Some(AttrValueView::Number(n)),
            None => None,
        }
    }
}

/// The value of attribute `name` under `enc`, or `None` for absent.
pub open spec fn attr_value(entries: Seq<AttrFile>, name: Seq<char>, enc: Encoding) -> Option<
    AttrValueView,
> {
    match file_text(entries, name) {
        Some(c) => decoded(c, enc),
        None => None,
    }
}

/// The attribute `name` as text, or `None` for absent.
pub open spec fn text_attr(entries: Seq<AttrFile>, name: Seq<char>) -> Option<Seq<char>> {
    match file_text(entries, name) {
        Some(c) => Some(trimmed(c)),
        None => None,
    }
}

/// The attribute `name` as a number in base `radix`, or `None` for absent.
pub open spec fn number_attr(entries: Seq<AttrFile>, name: Seq<char>, radix: nat) -> Option<u32> {
    match file_text(entries, name) {
        Some(c) => parsed_u32(trimmed(c), radix),
        None => None,
    }
}

/// The directory without its files named `name`.
pub open spec fn without(entries: Seq<AttrFile>, name: Seq<char>) -> Seq<AttrFile>
    decreases entries.len(),
{
    if entries.len() == 0 {
        entries
    } else if entries[0].name@ == name {
        without(entries.drop_first(), name)
    } else {
        seq![entries[0]] + without(entries.drop_first(), name)
    }
}

/// A missing attribute file reads as absent, and its absence changes no other attribute.
pub proof fn lemma_missing_attribute(entries: Seq<AttrFile>, gone: Seq<char>, other: Seq<char>)
    ensures
        file_text(without(entries, gone), gone) == None::<Seq<char>>,
        other != gone ==> file_text(without(entries, gone), other) == file_text(entries, other),
    decreases entries.len(),
{
    if entries.len() > 0 {
        lemma_missing_attribute(entries.drop_first(), gone, other);
        if entries[0].name@ != gone {
            let w = seq![entries[0]] + without(entries.drop_first(), gone);
            assert(w.drop_first() =~= without(entries.drop_first(), gone));
        }
    }
}

/// A number written in the base of a numeric encoding, with any white space around it,
/// decodes to that number.
pub proof fn lemma_decode_round_trip(n: u32, enc: Encoding, before: Seq<char>, after: Seq<char>)
    requires
        enc != Encoding::Text,
        all_space(before),
        all_space(after),
    ensures
        decoded(before + radix_digits(n as nat, radix_of(enc)) + after, enc) == Some(
            AttrValueView::Number(n),
        ),
{
    lemma_padded_round_trip(n, radix_of(enc), before, after);
}

/// Decodes the text of an attribute file under `enc`: surrounding white space is removed,
/// and a number that does not parse in the encoding's base is absent.
pub fn decode(content: &str, enc: Encoding) -> (r: Option<AttrValue>)
    ensures
        value_view(r) == decoded(content@, enc),
{
    let t = trim_spaces(content);
    match enc {
        Encoding::Text => Some(AttrValue::Text(t)),
        Encoding::HexU32 => match parse_u32(t.as_str(), 16) {
            Some(n) => Some(AttrValue::Number(n)),
            None => None,
        },
        Encoding::DecU32 => match parse_u32(t.as_str(), 10) {
            Some(n) => Some(AttrValue::Number(n)),
            None => None,
        },
    }
}

/// The text of the first file named `name`, as `file_text` describes it.
pub fn find_file_text(entries: &Vec<AttrFile>, name: &str) -> (r: Option<String>)
    ensures
        text_view(r) == file_text(entries@, name@),
{
    let key = String::from_str(name);
    let mut i: usize = 0;
    assert(entries@.subrange(0, entries@.len() as int) =~= entries@);
    while i < entries.len()
        invariant
            i <= entries@.len(),
            key@ == name@,
            file_text(entries@, name@) == file_text(entries@.subrange(i as int, entries@.len() as int), name@),
        decreases entries.len() - i,
    {
        let ghost rest = entries@.subrange(i as int, entries@.len() as int);
        assert(rest.drop_first() =~= entries@.subrange(i + 1, entries@.len() as int));
        assert(rest[0] == entries@[i as int]);
        if entries[i].name == key {
            return match &entries[i].content {
                Some(c) => Some(c.clone()),
                None => None,
            };
        }
        i = i + 1;
    }
    None
}

/// Reads attribute `name` of a directory under `enc`; absent where the file is missing,
/// unreadable, or does not decode.
pub fn read_attribute(entries: &Vec<AttrFile>, name: &str, enc: Encoding) -> (r: Option<AttrValue>)
    ensures
        value_view(r) == attr_value(entries@, name@, enc),
{
    match find_file_text(entries, name) {
        Some(c) => decode(c.as_str(), enc),
        None => None,
    }
}

/// Reads attribute `name` as text.
pub fn read_text(entries: &Vec<AttrFile>, name: &str) -> (r: Option<String>)
    ensures
        text_view(r) == text_attr(entries@, name@),
{
    match find_file_text(entries, name) {
        Some(c) => Some(trim_spaces(c.as_str())),
        None => None,
    }
}

/// Reads attribute `name` as a number in the base of `enc` (`HexU32` or `DecU32`).
pub fn read_u32(entries: &Vec<AttrFile>, name: &str, enc: Encoding) -> (r: Option<u32>)
    requires
        enc != Encoding::Text,
    ensures
        r == number_attr(entries@, name@, radix_of(enc)),
{
    match read_attribute(entries, name, enc) {
        Some(AttrValue::Number(n)) => Some(n),
        _ => None,
    }
}

} // verus!
