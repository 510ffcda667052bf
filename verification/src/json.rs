//! The JSON document: an array with one object per figure.

use vstd::prelude::*;
use vstd::string::StringExecFns;
use crate::common::{BuildError, FigureData, FigureView, OUTPUT_DIR};
use crate::text::{
    decimal_text, decimal_u16, digit_char, digit_value, is_hex_digit, join, joined, strings_view,
    with_first,
};

verus! {

/// The error type of `serde_json`.
#[verifier::external_type_specification]
#[verifier::external_body]
pub struct ExJsonError(serde_json::Error);

/// How one character of a text stands inside a JSON string literal: a
/// double quote and a backslash behind a backslash; backspace, tab, line
/// feed, form feed and carriage return as their letter behind a backslash;
/// any other character below the space as a four-digit Unicode escape; every
/// other character as itself.
pub open spec fn json_escaped_char(c: char) -> Seq<char> {
    if c == '"' {
        seq!['\\', '"']
    } else if c == '\\' {
        seq!['\\', '\\']
    } else if c == '\u{08}' {
        seq!['\\', 'b']
    } else if c == '\u{09}' {
        seq!['\\', 't']
    } else if c == '\u{0a}' {
        seq!['\\', 'n']
    } else if c == '\u{0c}' {
        seq!['\\', 'f']
    } else if c == '\u{0d}' {
        seq!['\\', 'r']
    } else if (c as u32) < 0x20 {
        seq![
            '\\',
            'u',
            '0',
            '0',
            digit_char((c as u32 / 16) as nat),
            digit_char((c as u32 % 16) as nat),
        ]
    } else {
        seq![c]
    }
}

/// The characters of a text, each as it stands inside a JSON string literal.
pub open spec fn json_escaped_text(s: Seq<char>) -> Seq<char>
    decreases s.len(),
{
    if s.len() == 0 {
        Seq::empty()
    } else {
        json_escaped_char(s[0]) + json_escaped_text(s.skip(1))
    }
}

/// The JSON string literal of a text: its escaped characters between double
/// quotes.
pub open spec fn json_string_text(s: Seq<char>) -> Seq<char> {
    seq!['"'] + json_escaped_text(s) + seq!['"']
}

/// The character that a letter behind a backslash stands for, where the
/// letter is one that `json_escaped_char` writes.
pub open spec fn json_short_escape(letter: char) -> Option<char> {
    if letter == '"' || letter == '\\' {
        Some(letter)
    } else if letter == 'b' {
        Some('\u{08}')
    } else if letter == 't' {
        Some('\u{09}')
    } else if letter == 'n' {
        Some('\u{0a}')
    } else if letter == 'f' {
        Some('\u{0c}')
    } else if letter == 'r' {
        Some('\u{0d}')
    } else {
        None
    }
}

/// The text that the inside of a JSON string literal stands for, read from
/// the front: a backslash starts an escape, a bare double quote or a bare
/// character below the space may not occur, and every other character
/// stands for itself. `None` where an escape is not one of those that
/// `json_escaped_char` writes.
pub open spec fn read_json_escaped(t: Seq<char>) -> Option<Seq<char>>
    decreases t.len(),
{
    if t.len() == 0 {
        Some(Seq::empty())
    } else if t[0] == '"' || (t[0] as u32) < 0x20 {
        None
    } else if t[0] == '\\' {
        if t.len() >= 2 && json_short_escape(t[1]) is Some {
            with_first(json_short_escape(t[1])->0, read_json_escaped(t.skip(2)))
        } else if t.len() >= 6 && t[1] == 'u' && t[2] == '0' && t[3] == '0' && is_hex_digit(t[4])
            && is_hex_digit(t[5]) {
            with_first(
                ((digit_value(t[4]) * 16 + digit_value(t[5])) as u8) as char,
                read_json_escaped(t.skip(6)),
            )
        } else {
            None
        }
    } else {
        with_first(t[0], read_json_escaped(t.skip(1)))
    }
}

/// The text that a JSON string literal stands for: what is read between its
/// two double quotes.
pub open spec fn read_json_string(t: Seq<char>) -> Option<Seq<char>> {
    if t.len() >= 2 && t.first() == '"' && t.last() == '"' {
        read_json_escaped(t.subrange(1, t.len() - 1))
    } else {
        None
    }
}

/// The letter that stands for a character behind a backslash, where it has
/// one.
pub open spec fn json_short_escape_of(c: char) -> Option<char> {
    if c == '"' || c == '\\' {
        Some(c)
    } else if c == '\u{08}' {
        Some('b')
    } else if c == '\u{09}' {
        Some('t')
    } else if c == '\u{0a}' {
        Some('n')
    } else if c == '\u{0c}' {
        Some('f')
    } else if c == '\u{0d}' {
        Some('r')
    } else {
        None
    }
}

proof fn lemma_json_two_digits(c: char)
    requires
        (c as u32) < 0x20,
        json_short_escape_of(c) is None,
    ensures
        json_escaped_char(c).len() == 6,
        is_hex_digit(json_escaped_char(c)[4]),
        is_hex_digit(json_escaped_char(c)[5]),
        ((digit_value(json_escaped_char(c)[4]) * 16 + digit_value(json_escaped_char(c)[5])) as u8)
            as char == c,
{
    let v = c as u32;
    let hi = (v / 16) as nat;
    let lo = (v % 16) as nat;
    assert(hi < 2 && lo < 16);
    assert(json_escaped_char(c)[4] == digit_char(hi));
    assert(json_escaped_char(c)[5] == digit_char(lo));
    assert(digit_value(digit_char(hi)) == hi);
    assert(digit_value(digit_char(lo)) == lo);
    assert(hi * 16 + lo == v);
    assert((v as u8) as char == c);
}

/// Reading the escaped characters of a text gives the text back, whatever
/// characters it holds.
pub proof fn lemma_json_escaped_reads_back(s: Seq<char>)
    ensures
        read_json_escaped(json_escaped_text(s)) == Some(s),
    decreases s.len(),
{
    if s.len() > 0 {
        let c = s[0];
        let rest = s.skip(1);
        lemma_json_escaped_reads_back(rest);
        let e = json_escaped_text(rest);
        let t = json_escaped_text(s);
        assert(t == json_escaped_char(c) + e);
        assert(s =~= seq![c] + rest);
        if json_short_escape_of(c) is Some {
            let letter = json_short_escape_of(c)->0;
            assert(json_escaped_char(c) =~= seq!['\\', letter]);
            assert(t[0] == '\\' && t[1] == letter);
            assert(json_short_escape(letter) == Some(c));
            assert(t.skip(2) =~= e);
        } else if (c as u32) < 0x20 {
            lemma_json_two_digits(c);
            assert(t[0] == '\\' && t[1] == 'u' && t[2] == '0' && t[3] == '0');
            assert(t[4] == json_escaped_char(c)[4] && t[5] == json_escaped_char(c)[5]);
            assert(json_short_escape('u') is None);
            assert(t.skip(6) =~= e);
        } else {
            assert(json_escaped_char(c) =~= seq![c]);
            assert(t[0] == c);
            assert(t.skip(1) =~= e);
        }
    }
}

/// Reading the JSON string literal of a name gives the name back: the
/// document and the emitted module hold exactly the figure's name.
pub proof fn lemma_json_string_reads_back(name: Seq<char>)
    ensures
        read_json_string(json_string_text(name)) == Some(name),
{
    lemma_json_escaped_reads_back(name);
    let t = json_string_text(name);
    assert(t.subrange(1, t.len() - 1) =~= json_escaped_text(name));
}

/// `serde_json::to_string` on a string slice. It always succeeds: it writes
/// into a byte vector, and a string slice has neither a serializer of its own
/// that could refuse nor a map key. The result is the JSON string literal of
/// the text: a double quote, each character as the encoder's escape table
/// gives it, and a double quote.
#[verifier::external_body]
fn encode_string(s: &str) -> (r: Result<String, serde_json::Error>)
    ensures
        r is Ok,
        r matches Ok(t) ==> t@ == json_string_text(s@),
{
    serde_json::to_string(s)
}

/// The JSON string literal of a text, quotes and escapes included. It is a
/// string literal of JavaScript too.
pub fn string_literal(s: &str) -> (r: String)
    ensures
        r@ == json_string_text(s@),
{
    match encode_string(s) {
        Ok(t) => t,
        Err(_) => vstd::pervasive::unreached(),
    }
}

/// What is reported when the document cannot be written.
pub const WRITE_FAILED: &'static str = "Failed to write JSON data";

/// A figure whose name is already a JSON string literal.
#[derive(Debug, Clone)]
pub struct EncodedFigure {
    pub figure_id: u16,
    pub variant_id: u16,
    /// The name as a JSON string literal, quotes included.
    pub name_json: String,
}

/// What an encoded figure holds, as mathematical values.
pub ghost struct EncodedFigureView {
    pub figure_id: u16,
    pub variant_id: u16,
    pub name_json: Seq<char>,
}

impl View for EncodedFigure {
    type V = EncodedFigureView;

    open spec fn view(&self) -> EncodedFigureView {
        EncodedFigureView {
            figure_id: self.figure_id,
            variant_id: self.variant_id,
            name_json: self.name_json@,
        }
    }
}

/// The document as a file.
#[derive(Debug, Clone)]
pub struct JsonArtifact {
    /// The document's file.
    pub file_name: String,
    /// The document's full text.
    pub content: String,
}

/// The document's file for a version.
pub open spec fn file_name_text(version: Seq<char>) -> Seq<char> {
    OUTPUT_DIR@ + "/portal-figure_v"@ + version + ".json"@
}

/// The encoded form of a figure: its identifiers, and its name as the JSON
/// string literal that stands for it.
pub open spec fn encoded(f: FigureView) -> EncodedFigureView {
    EncodedFigureView {
        figure_id: f.figure_id,
        variant_id: f.variant_id,
        name_json: json_string_text(f.name),
    }
}

/// The object of one figure: both identifiers as decimal numbers, then the
/// name, with no white space.
pub open spec fn object_text(e: EncodedFigureView) -> Seq<char> {
    "{\"figure_id\":"@ + decimal_text(e.figure_id as nat) + ",\"variant_id\":"@ + decimal_text(
        e.variant_id as nat,
    ) + ",\"name\":"@ + e.name_json + "}"@
}

/// The objects of a run of encoded figures, in its order.
pub open spec fn objects(entries: Seq<EncodedFigure>) -> Seq<Seq<char>> {
    Seq::new(entries.len(), |i: int| object_text(entries[i]@))
}

/// The objects of a collection, in its order.
pub open spec fn objects_of(figs: Seq<FigureData>) -> Seq<Seq<char>> {
    Seq::new(figs.len(), |i: int| object_text(encoded(figs[i]@)))
}

/// An array of the given objects, separated by commas, with no white space.
pub open spec fn array_text(items: Seq<Seq<char>>) -> Seq<char> {
    "["@ + joined(items, ","@) + "]"@
}

/// The document of a collection.
pub open spec fn document_text(figs: Seq<FigureData>) -> Seq<char> {
    array_text(objects_of(figs))
}

/// What becomes of a figure once the encoder has answered for its name: with
/// a string literal, the figure's identifiers beside that literal; with an
/// error, that same error.
pub fn encoded_with(figure: &FigureData, outcome: Result<String, serde_json::Error>) -> (r: Result<
    EncodedFigure,
    serde_json::Error,
>)
    ensures
        match outcome {
            Ok(name_json) => r matches Ok(e) && e@ == (EncodedFigureView {
                figure_id: figure.figure_id,
                variant_id: figure.variant_id,
                name_json: name_json@,
            }),
            Err(err) => r matches Err(e) && e == err,
        },
{
    match outcome {
        Ok(name_json) => Ok(
            EncodedFigure {
                figure_id: figure.figure_id,
                variant_id: figure.variant_id,
                name_json,
            },
        ),
        Err(e) => Err(e),
    }
}

/// Encodes a figure's name and keeps its identifiers. This always succeeds,
/// and the name is the string literal that the encoder writes for it.
pub fn encode(figure: &FigureData) -> (r: Result<EncodedFigure, serde_json::Error>)
    ensures
        r matches Ok(e) && e@ == encoded(figure@),
{
    encoded_with(figure, encode_string(figure.name.as_str()))
}

fn object(entry: &EncodedFigure) -> (r: String)
    ensures
        r@ == object_text(entry@),
{
    let mut s = String::from_str("{\"figure_id\":");
    s.append(decimal_u16(entry.figure_id).as_str());
    s.append(",\"variant_id\":");
    s.append(decimal_u16(entry.variant_id).as_str());
    s.append(",\"name\":");
    s.append(entry.name_json.as_str());
    s.append("}");
    s
}

/// Writes the array that holds one object per encoded figure, in order.
pub fn document(entries: &Vec<EncodedFigure>) -> (r: String)
    ensures
        r@ == array_text(objects(entries@)),
{
    let mut items: Vec<String> = Vec::new();
    let mut i: usize = 0;
    while i < entries.len()
        invariant
            i <= entries@.len(),
            items@.len() == i,
            forall|k: int| 0 <= k < i ==> (#[trigger] items@[k])@ == object_text(entries@[k]@),
        decreases entries@.len() - i,
    {
        items.push(object(&entries[i]));
        i += 1;
    }
    proof {
        assert(strings_view(items@) =~= objects(entries@));
    }
    let mut out = String::from_str("[");
    out.append(join(&items, ",").as_str());
    out.append("]");
    out
}

/// Renders the JSON document for a collection and a version. This always
/// succeeds: the result is the document's file name and the document of the
/// collection.
pub fn emit(all_figure_data: &Vec<FigureData>, version: &str) -> (r: Result<
    JsonArtifact,
    BuildError,
>)
    ensures
        r matches Ok(a) && a.file_name@ == file_name_text(version@) && a.content@
            == document_text(all_figure_data@),
{
    let mut file_name = String::from_str(OUTPUT_DIR);
    file_name.append("/portal-figure_v");
    file_name.append(version);
    file_name.append(".json");

    let mut entries: Vec<EncodedFigure> = Vec::new();
    let mut i: usize = 0;
    while i < all_figure_data.len()
        invariant
            i <= all_figure_data@.len(),
            entries@.len() == i,
            file_name@ == file_name_text(version@),
            forall|k: int|
                0 <= k < i ==> (#[trigger] entries@[k])@ == encoded(all_figure_data@[k]@),
        decreases all_figure_data@.len() - i,
    {
        match encode(&all_figure_data[i]) {
            Ok(entry) => {
                entries.push(entry);
            },
            Err(_) => {
                return Err(
                    BuildError::EmitIo {
                        target: file_name,
                        diagnostic: String::from_str(WRITE_FAILED),
                    },
                );
            },
        }
        i += 1;
    }
    proof {
        assert(objects(entries@) =~= objects_of(all_figure_data@));
    }
    let content = document(&entries);
    Ok(JsonArtifact { file_name, content })
}

} // verus!
