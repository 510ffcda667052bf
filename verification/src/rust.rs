//! The Rust package: manifest, library source and usage notes.

use vstd::prelude::*;
use vstd::string::StrSliceExecFns;
use vstd::string::StringExecFns;
use crate::aggregate::is_valid_collection;
use crate::common::{FigureData, FigureView, OutputFile, OUTPUT_DIR};
use crate::slug::{is_slug_char, lemma_slug_shape};
use crate::text::{
    ascii_upper, digit, digit_char, digit_value, hex_text, hex_u16, is_hex_digit, join, joined,
    push_char, strings_view, to_ascii_upper, with_first,
};

verus! {

/// What stands before the version in the package manifest.
pub const MANIFEST_HEAD: &'static str =
    "[package]\nname = \"portal_figure\"\ndescription = \"A library of data relating to figures from the Skylanders series of video games.\"\nversion = \"";

/// What stands after the version in the package manifest.
pub const MANIFEST_TAIL: &'static str =
    "\"\nedition = \"2024\"\nlicense = \"CC0-1.0\"\n\n[dependencies]\n";

/// The record type that every constant of the library source has.
pub const RECORD_SOURCE: &'static str =
    "pub struct PortalFigure {\n    pub figure_id: u16,\n    pub variant_id: u16,\n    pub name: &'static str,\n}\n\n";

/// Opens the slice of all figures. Its name is the one the lookup function
/// scans.
pub const SLICE_HEAD: &'static str = "pub const PORTAL_FIGURES: &[PortalFigure] = &[\n    ";

/// Stands between two entries of the slice of all figures.
pub const SLICE_SEPARATOR: &'static str = ",\n    ";

/// Closes the slice of all figures.
pub const SLICE_TAIL: &'static str = ",\n];";

/// The slice of all figures where there is none: nothing stands between the
/// brackets, so the lookup function scans nothing and finds nothing.
pub const SLICE_EMPTY: &'static str = "pub const PORTAL_FIGURES: &[PortalFigure] = &[\n];";

/// The lookup function of the library: a linear scan over the slice of all
/// figures that returns the first figure with both identifiers, or `None`.
pub const LOOKUP_SOURCE: &'static str =
    "\n\npub fn find_figure(figure_id: u16, variant_id: u16) -> Option<&'static PortalFigure> {\n    for figure in PORTAL_FIGURES {\n        if figure.figure_id == figure_id && figure.variant_id == variant_id {\n            return Some(figure);\n        }\n    }\n    None\n}\n";

/// Usage notes shipped with the package.
pub const README: &'static str = r#"# portal_figure

A library of data relating to figures from the Skylanders series of video games.

This crate is built from source: https://github.com/peabnuts123/libportalfigure

## Installation

```sh
cargo add portal_figure
```

## Usage

```rust
use portal_figure::{PORTAL_FIGURES, PortalFigure, SPYRO, find_figure};

fn main() {
    // Use `find_figure()` to look up figure data by Figure ID + Variant ID
    let figure: &PortalFigure = find_figure(0x1ce, 0x3000).expect("Couldn't find figure");
    println!(
        "{} (figure_id='0x{:x}') (variant_id='0x{:x}')",
        figure.name, figure.figure_id, figure.variant_id
    );

    // Individually exported figure data
    println!(
        "Spyro (figure_id='0x{:x}') (variant_id='0x{:x}')",
        SPYRO.figure_id, SPYRO.variant_id
    );

    // `PORTAL_FIGURES` is a &[PortalFigure] of all figures
    let all_spyros = PORTAL_FIGURES
        .iter()
        .filter(|figure| figure.name.to_lowercase().contains("spyro"))
        .collect::<Vec<&PortalFigure>>();

    println!("All Spyro figures:");
    for figure in all_spyros {
        println!(
            "{} (figure_id='0x{:x}') (variant_id='0x{:x}')",
            figure.name, figure.figure_id, figure.variant_id
        );
    }
}
```
"#;

/// The name of a figure's constant: its slug with every ASCII letter in
/// upper case and the underscores kept.
pub open spec fn export_name_text(slug: Seq<char>) -> Seq<char> {
    Seq::new(slug.len(), |i: int| ascii_upper(slug[i]))
}

/// The constant names of a collection, in its order.
pub open spec fn export_names(figs: Seq<FigureData>) -> Seq<Seq<char>> {
    Seq::new(figs.len(), |i: int| export_name_text(figs[i].name_id@))
}

/// Control characters: those below the space, the delete character, and the
/// block that follows it.
pub open spec fn is_control(c: char) -> bool {
    (c as u32) < 0x20 || (0x7f <= (c as u32) && (c as u32) <= 0x9f)
}

/// How one character of a text stands inside a string literal: a backslash
/// and a double quote behind a backslash, a control character as a
/// two-digit Unicode escape, every other character as itself.
pub open spec fn escaped_char(c: char) -> Seq<char> {
    if c == '\\' {
        seq!['\\', '\\']
    } else if c == '"' {
        seq!['\\', '"']
    } else if is_control(c) {
        seq![
            '\\',
            'u',
            '{',
            digit_char((c as u32 / 16) as nat),
            digit_char((c as u32 % 16) as nat),
            '}',
        ]
    } else {
        seq![c]
    }
}

/// The characters of a text, each as it stands inside a string literal.
pub open spec fn escaped_text(s: Seq<char>) -> Seq<char>
    decreases s.len(),
{
    if s.len() == 0 {
        Seq::empty()
    } else {
        escaped_text(s.drop_last()) + escaped_char(s.last())
    }
}

/// The string literal of a text: its escaped characters between double
/// quotes.
pub open spec fn literal_text(s: Seq<char>) -> Seq<char> {
    seq!['"'] + escaped_text(s) + seq!['"']
}

/// The text that the inside of a string literal stands for, read from the
/// front as a compiler reads it: a backslash starts an escape, a bare double
/// quote may not occur, and every other character stands for itself. `None`
/// where an escape is not one of those that `escaped_char` writes.
pub open spec fn read_escaped(t: Seq<char>) -> Option<Seq<char>>
    decreases t.len(),
{
    if t.len() == 0 {
        Some(Seq::empty())
    } else if t[0] == '"' {
        None
    } else if t[0] == '\\' {
        if t.len() >= 2 && (t[1] == '\\' || t[1] == '"') {
            with_first(t[1], read_escaped(t.skip(2)))
        } else if t.len() >= 6 && t[1] == 'u' && t[2] == '{' && is_hex_digit(t[3])
            && is_hex_digit(t[4]) && t[5] == '}' {
            with_first(
                ((digit_value(t[3]) * 16 + digit_value(t[4])) as u8) as char,
                read_escaped(t.skip(6)),
            )
        } else {
            None
        }
    } else {
        with_first(t[0], read_escaped(t.skip(1)))
    }
}

/// The text that a string literal stands for: what is read between its two
/// double quotes.
pub open spec fn read_literal(t: Seq<char>) -> Option<Seq<char>> {
    if t.len() >= 2 && t.first() == '"' && t.last() == '"' {
        read_escaped(t.subrange(1, t.len() - 1))
    } else {
        None
    }
}

proof fn lemma_two_digits(c: char)
    requires
        is_control(c),
    ensures
        is_hex_digit(escaped_char(c)[3]),
        is_hex_digit(escaped_char(c)[4]),
        ((digit_value(escaped_char(c)[3]) * 16 + digit_value(escaped_char(c)[4])) as u8) as char
            == c,
{
    let v = c as u32;
    let hi = (v / 16) as nat;
    let lo = (v % 16) as nat;
    assert(v < 256);
    assert(hi < 10 && lo < 16);
    assert(escaped_char(c)[3] == digit_char(hi));
    assert(escaped_char(c)[4] == digit_char(lo));
    assert(digit_value(digit_char(hi)) == hi);
    assert(digit_value(digit_char(lo)) == lo);
    assert(hi * 16 + lo == v);
    assert((v as u8) as char == c);
}

proof fn lemma_escaped_from_front(c: char, rest: Seq<char>)
    ensures
        escaped_text(seq![c] + rest) == escaped_char(c) + escaped_text(rest),
    decreases rest.len(),
{
    let s = seq![c] + rest;
    if rest.len() == 0 {
        assert(s.drop_last() =~= Seq::<char>::empty());
        assert(escaped_text(s.drop_last()) == Seq::<char>::empty());
        assert(escaped_text(s) =~= escaped_char(c) + escaped_text(rest));
    } else {
        lemma_escaped_from_front(c, rest.drop_last());
        assert(s.drop_last() =~= seq![c] + rest.drop_last());
        assert(s.last() == rest.last());
        assert(escaped_text(s) =~= escaped_char(c) + escaped_text(rest));
    }
}

/// Reading the escaped characters of a text gives the text back, whatever
/// characters it holds.
pub proof fn lemma_escaped_reads_back(s: Seq<char>)
    ensures
        read_escaped(escaped_text(s)) == Some(s),
    decreases s.len(),
{
    if s.len() > 0 {
        let c = s[0];
        let rest = s.skip(1);
        assert(s =~= seq![c] + rest);
        lemma_escaped_from_front(c, rest);
        lemma_escaped_reads_back(rest);
        let e = escaped_text(rest);
        let t = escaped_text(s);
        assert(t == escaped_char(c) + e);
        if c == '\\' || c == '"' {
            assert(t[0] == '\\' && t[1] == c);
            assert(t.skip(2) =~= e);
        } else if is_control(c) {
            lemma_two_digits(c);
            assert(t[0] == '\\' && t[1] == 'u' && t[2] == '{' && t[5] == '}');
            assert(t[3] == escaped_char(c)[3] && t[4] == escaped_char(c)[4]);
            assert(t.skip(6) =~= e);
        } else {
            assert(t[0] == c);
            assert(t.skip(1) =~= e);
        }
    }
}

/// Reading the string literal of a name gives the name back: the emitted
/// constant holds exactly the figure's name.
pub proof fn lemma_literal_reads_back(name: Seq<char>)
    ensures
        read_literal(literal_text(name)) == Some(name),
{
    lemma_escaped_reads_back(name);
    let t = literal_text(name);
    assert(t.subrange(1, t.len() - 1) =~= escaped_text(name));
}

/// The constant that holds one figure. The name stands as a string literal
/// that reads back as the name.
pub open spec fn const_block_text(f: FigureView) -> Seq<char> {
    "\npub const "@ + export_name_text(f.name_id)
        + ": PortalFigure = PortalFigure {\n    figure_id: 0x"@ + hex_text(f.figure_id as nat)
        + ",\n    variant_id: 0x"@ + hex_text(f.variant_id as nat) + ",\n    name: "@
        + literal_text(f.name) + ",\n};\n"@
}

/// The constants of a collection, in its order.
pub open spec fn const_blocks_text(figs: Seq<FigureData>) -> Seq<char>
    decreases figs.len(),
{
    if figs.len() == 0 {
        Seq::empty()
    } else {
        const_blocks_text(figs.drop_last()) + const_block_text(figs.last()@)
    }
}

/// The slice of all figures: their constant names in collection order, each
/// followed by a comma; an empty slice for an empty collection.
pub open spec fn slice_text(figs: Seq<FigureData>) -> Seq<char> {
    if figs.len() == 0 {
        SLICE_EMPTY@
    } else {
        SLICE_HEAD@ + joined(export_names(figs), SLICE_SEPARATOR@) + SLICE_TAIL@
    }
}

/// The library source: the record type, one constant per figure, the slice
/// of all of them, and the lookup function.
pub open spec fn lib_rs_text(figs: Seq<FigureData>) -> Seq<char> {
    RECORD_SOURCE@ + const_blocks_text(figs) + "\n\n"@ + slice_text(figs) + LOOKUP_SOURCE@
}

/// The package manifest for a version.
pub open spec fn cargo_toml_text(version: Seq<char>) -> Seq<char> {
    MANIFEST_HEAD@ + version + MANIFEST_TAIL@
}

/// In a validated collection no two figures share a constant name, so the
/// library source never defines a constant twice.
pub proof fn lemma_constant_names_differ(figs: Seq<FigureData>, i: int, j: int)
    requires
        is_valid_collection(figs),
        0 <= i < figs.len(),
        0 <= j < figs.len(),
        i != j,
    ensures
        export_name_text(figs[i].name_id@) != export_name_text(figs[j].name_id@),
{
    let a = figs[i].name_id@;
    let b = figs[j].name_id@;
    lemma_slug_shape(figs[i].name@);
    lemma_slug_shape(figs[j].name@);
    if i < j {
        assert(figs[i].name_id@ != figs[j].name_id@);
    } else {
        assert(figs[j].name_id@ != figs[i].name_id@);
    }
    if export_name_text(a) == export_name_text(b) {
        assert(export_name_text(a).len() == a.len());
        assert(export_name_text(b).len() == b.len());
        assert forall|k: int| 0 <= k < a.len() implies a[k] == b[k] by {
            assert(export_name_text(a)[k] == ascii_upper(a[k]));
            assert(export_name_text(b)[k] == ascii_upper(b[k]));
            assert(is_slug_char(a[k]));
            assert(is_slug_char(b[k]));
        }
        assert(a =~= b);
    }
}

/// The package's directory.
pub open spec fn crate_dir_text() -> Seq<char> {
    OUTPUT_DIR@ + "/rust"@
}

/// The directory of the package's sources.
pub open spec fn src_dir_text() -> Seq<char> {
    crate_dir_text() + "/src"@
}

/// The files of the Rust package and the directories they stand in.
#[derive(Debug, Clone)]
pub struct RustPackage {
    /// The package's directory.
    pub crate_dir: String,
    /// The directory of the package's sources.
    pub src_dir: String,
    /// The package manifest.
    pub cargo_toml: OutputFile,
    /// The library source.
    pub lib_rs: OutputFile,
    /// The usage notes.
    pub readme: OutputFile,
}

/// The name of a figure's constant.
pub fn export_name(figure: &FigureData) -> (r: String)
    ensures
        r@ == export_name_text(figure.name_id@),
{
    let slug = figure.name_id.as_str();
    let n: usize = slug.unicode_len();
    let mut out = String::new();
    let mut i: usize = 0;
    while i < n
        invariant
            n == slug@.len(),
            i <= n,
            out@ == export_name_text(slug@.take(i as int)),
        decreases n - i,
    {
        let c = slug.get_char(i);
        proof {
            assert(export_name_text(slug@.take(i as int)).push(ascii_upper(c))
                =~= export_name_text(slug@.take(i + 1)));
        }
        push_char(&mut out, to_ascii_upper(c));
        i += 1;
    }
    proof {
        assert(slug@.take(n as int) =~= slug@);
    }
    out
}

/// Writes the string literal of a text.
pub fn string_literal(s: &str) -> (r: String)
    ensures
        r@ == literal_text(s@),
{
    let n: usize = s.unicode_len();
    let mut out = String::new();
    let mut i: usize = 0;
    while i < n
        invariant
            n == s@.len(),
            i <= n,
            out@ == escaped_text(s@.take(i as int)),
        decreases n - i,
    {
        let c = s.get_char(i);
        let v: u32 = c as u32;
        let ghost before = out@;
        proof {
            assert(s@.take(i + 1).drop_last() =~= s@.take(i as int));
            assert(s@.take(i + 1).last() == c);
        }
        if c == '\\' || c == '"' {
            push_char(&mut out, '\\');
            push_char(&mut out, c);
        } else if v < 0x20 || (0x7f <= v && v <= 0x9f) {
            push_char(&mut out, '\\');
            push_char(&mut out, 'u');
            push_char(&mut out, '{');
            push_char(&mut out, digit((v / 16) as u8));
            push_char(&mut out, digit((v % 16) as u8));
            push_char(&mut out, '}');
        } else {
            push_char(&mut out, c);
        }
        proof {
            assert(out@ =~= before + escaped_char(c));
        }
        i += 1;
    }
    proof {
        assert(s@.take(n as int) =~= s@);
    }
    let mut r = String::new();
    push_char(&mut r, '"');
    r.append(out.as_str());
    push_char(&mut r, '"');
    proof {
        assert(r@ =~= literal_text(s@));
    }
    r
}

fn const_block(figure: &FigureData) -> (r: String)
    ensures
        r@ == const_block_text(figure@),
{
    let mut s = String::from_str("\npub const ");
    s.append(export_name(figure).as_str());
    s.append(": PortalFigure = PortalFigure {\n    figure_id: 0x");
    s.append(hex_u16(figure.figure_id).as_str());
    s.append(",\n    variant_id: 0x");
    s.append(hex_u16(figure.variant_id).as_str());
    s.append(",\n    name: ");
    s.append(string_literal(figure.name.as_str()).as_str());
    s.append(",\n};\n");
    s
}

/// Renders the Rust package for a collection and a version.
pub fn emit(all_figure_data: &Vec<FigureData>, version: &str) -> (r: RustPackage)
    ensures
        r.crate_dir@ == crate_dir_text(),
        r.src_dir@ == src_dir_text(),
        r.cargo_toml.path@ == crate_dir_text() + "/Cargo.toml"@,
        r.cargo_toml.content@ == cargo_toml_text(version@),
        r.lib_rs.path@ == src_dir_text() + "/lib.rs"@,
        r.lib_rs.content@ == lib_rs_text(all_figure_data@),
        r.readme.path@ == crate_dir_text() + "/README.md"@,
        r.readme.content@ == README@,
{
    let ghost figs = all_figure_data@;
    let mut crate_dir = String::from_str(OUTPUT_DIR);
    crate_dir.append("/rust");
    let mut src_dir = crate_dir.clone();
    src_dir.append("/src");

    let mut cargo_toml = String::from_str(MANIFEST_HEAD);
    cargo_toml.append(version);
    cargo_toml.append(MANIFEST_TAIL);

    let mut blocks = String::new();
    let mut names: Vec<String> = Vec::new();
    let mut i: usize = 0;
    while i < all_figure_data.len()
        invariant
            figs == all_figure_data@,
            i <= figs.len(),
            blocks@ == const_blocks_text(figs.take(i as int)),
            names@.len() == i,
            forall|k: int|
                0 <= k < i ==> (#[trigger] names@[k])@ == export_name_text(figs[k].name_id@),
        decreases figs.len() - i,
    {
        let figure = &all_figure_data[i];
        proof {
            assert(figs.take(i + 1).drop_last() =~= figs.take(i as int));
        }
        blocks.append(const_block(figure).as_str());
        names.push(export_name(figure));
        i += 1;
    }
    proof {
        assert(figs.take(figs.len() as int) =~= figs);
        assert(strings_view(names@) =~= export_names(figs));
    }
    let mut slice = String::from_str(SLICE_EMPTY);
    if names.len() > 0 {
        slice = String::from_str(SLICE_HEAD);
        slice.append(join(&names, SLICE_SEPARATOR).as_str());
        slice.append(SLICE_TAIL);
    }

    let mut lib_rs = String::from_str(RECORD_SOURCE);
    lib_rs.append(blocks.as_str());
    lib_rs.append("\n\n");
    lib_rs.append(slice.as_str());
    lib_rs.append(LOOKUP_SOURCE);

    let cargo_toml = OutputFile::in_dir(&crate_dir, "/Cargo.toml", cargo_toml);
    let lib_rs = OutputFile::in_dir(&src_dir, "/lib.rs", lib_rs);
    let readme = OutputFile::in_dir(&crate_dir, "/README.md", String::from_str(README));
    RustPackage { crate_dir, src_dir, cargo_toml, lib_rs, readme }
}

} // verus!
