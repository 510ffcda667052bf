//! The JavaScript package: manifest, module source, type declarations and
//! usage notes.

use vstd::prelude::*;
use vstd::string::StrSliceExecFns;
use vstd::string::StringExecFns;
use crate::common::{FigureData, FigureView, OutputFile, OUTPUT_DIR};
use crate::json::{json_string_text, string_literal};
use crate::text::{
    ascii_upper, hex_text, hex_u16, join, joined, push_char, strings_view, to_ascii_upper,
};

verus! {

/// What stands before the version in the package manifest.
pub const MANIFEST_HEAD: &'static str =
    "{\n  \"name\": \"portal-figure\",\n  \"description\": \"A library of data relating to figures from the Skylanders series of video games.\",\n  \"version\": \"";

/// What stands after the version in the package manifest.
pub const MANIFEST_TAIL: &'static str =
    "\",\n  \"main\": \"src/index.js\",\n  \"types\": \"src/index.d.ts\",\n  \"keywords\": [],\n  \"author\": \"peabnuts123\",\n  \"license\": \"CC0-1.0\",\n  \"type\": \"commonjs\"\n}";

/// Opens the array of all figures. Its name is the one the lookup function
/// scans.
pub const ARRAY_HEAD: &'static str = "export const PortalFigures = [\n  ";

/// Stands between two entries of the array of all figures.
pub const ARRAY_SEPARATOR: &'static str = ",\n  ";

/// Closes the array of all figures.
pub const ARRAY_TAIL: &'static str = ",\n];";

/// The array of all figures where there is none: nothing stands between the
/// brackets, so the lookup function scans nothing and finds nothing.
pub const ARRAY_EMPTY: &'static str = "export const PortalFigures = [\n];";

/// The lookup function of the module: a linear scan over the array of all
/// figures that returns the first figure with both identifiers, or
/// `undefined`.
pub const LOOKUP_SOURCE: &'static str =
    "\n\nexport function findFigure(figureId, variantId) {\n  for (const figure of PortalFigures) {\n    if (figure.figureId == figureId && figure.variantId == variantId) {\n      return figure;\n    }\n  }\n  return undefined;\n}\n";

/// The shape of a figure record in the type declarations.
pub const DECLARATIONS_HEAD: &'static str =
    "export interface PortalFigure {\n  figureId: number;\n  variantId: number;\n  name: string;\n}\n\n";

/// The array's element type and the lookup function's signature in the type
/// declarations.
pub const DECLARATIONS_TAIL: &'static str =
    "\n\nexport const PortalFigures: readonly PortalFigure[];\n\nexport function findFigure(figureId: number, variantId: number): PortalFigure | undefined;\n";

/// Usage notes shipped with the package.
pub const README: &'static str = r#"# portal-figure

A library of data relating to figures from the Skylanders series of video games.

This package is built from source: https://github.com/peabnuts123/libportalfigure

## Installation

```sh
npm install portal-figure
```

## Usage

```typescript
import { Spyro, findFigure, type PortalFigure, PortalFigures } from 'portal-figure';

// Use `findFigure()` to look up figure data by Figure ID + Variant ID
const figure: PortalFigure = findFigure(0x1ce, 0x3000)!;
console.log(`${figure.name} (figureId='0x${figure.figureId.toString(16)}') (variantId='0x${figure.variantId.toString(16)}')`);

// Individually exported figure data
console.log(`Spyro (figureId='0x${Spyro.figureId.toString(16)}') (variantId='0x${Spyro.variantId.toString(16)}')`);

// `PortalFigures` is an array of all figures
const allSpyros = PortalFigures.filter((figure) => figure.name.toLowerCase().includes("spyro"));

console.log("All Spyro figures:");
for (const figure of allSpyros) {
  console.log(`${figure.name} (figureId='0x${figure.figureId.toString(16)}') (variantId='0x${figure.variantId.toString(16)}')`);
}
```
"#;

/// The segments of a slug: what stands between its underscores. A slug with
/// `n` underscores has `n + 1` segments, some of which may be empty.
pub open spec fn segments(slug: Seq<char>) -> Seq<Seq<char>>
    decreases slug.len(),
{
    if slug.len() == 0 {
        seq![Seq::empty()]
    } else {
        let before = segments(slug.drop_last());
        if slug.last() == '_' {
            before.push(Seq::empty())
        } else {
            before.drop_last().push(before.last().push(slug.last()))
        }
    }
}

/// A segment with its first character in upper case.
pub open spec fn capitalized(segment: Seq<char>) -> Seq<char> {
    if segment.len() == 0 {
        segment
    } else {
        segment.update(0, ascii_upper(segment[0]))
    }
}

/// The segments, each capitalized, written one after another.
pub open spec fn capitalized_concat(parts: Seq<Seq<char>>) -> Seq<char>
    decreases parts.len(),
{
    if parts.len() == 0 {
        Seq::empty()
    } else {
        capitalized_concat(parts.drop_last()) + capitalized(parts.last())
    }
}

/// The name under which a figure is exported: its slug split on
/// underscores, each segment capitalized, and the segments written one after
/// another with nothing between them. An empty segment adds nothing.
pub open spec fn export_name_text(slug: Seq<char>) -> Seq<char> {
    capitalized_concat(segments(slug))
}

/// The export name read off the slug character by character: an underscore
/// is dropped, a character that starts the slug or follows an underscore is
/// put in upper case, and every other character is kept.
pub open spec fn export_name_scan(slug: Seq<char>) -> Seq<char>
    decreases slug.len(),
{
    if slug.len() == 0 {
        Seq::empty()
    } else if slug.last() == '_' {
        export_name_scan(slug.drop_last())
    } else if slug.len() == 1 || slug[slug.len() - 2] == '_' {
        export_name_scan(slug.drop_last()).push(ascii_upper(slug.last()))
    } else {
        export_name_scan(slug.drop_last()).push(slug.last())
    }
}

/// Reading the export name off the slug character by character gives the
/// same as splitting, capitalizing and joining. The last segment is empty
/// exactly where the slug is empty or ends in an underscore.
pub proof fn lemma_export_name_by_segments(slug: Seq<char>)
    ensures
        export_name_scan(slug) == export_name_text(slug),
        segments(slug).len() >= 1,
        segments(slug).last().len() == 0 <==> (slug.len() == 0 || slug.last() == '_'),
    decreases slug.len(),
{
    if slug.len() == 0 {
        let parts = segments(slug);
        assert(parts.len() == 1);
        assert(parts.last() == Seq::<char>::empty());
        assert(parts.drop_last() =~= Seq::<Seq<char>>::empty());
        assert(capitalized_concat(parts.drop_last()) == Seq::<char>::empty());
        assert(capitalized_concat(parts) =~= Seq::<char>::empty());
    } else {
        let shorter = slug.drop_last();
        let c = slug.last();
        lemma_export_name_by_segments(shorter);
        let before = segments(shorter);
        let parts = segments(slug);
        if c == '_' {
            assert(parts.drop_last() =~= before);
            assert(capitalized_concat(parts) =~= capitalized_concat(before));
        } else {
            let w = before.last();
            assert(parts.drop_last() =~= before.drop_last());
            assert(parts.last() == w.push(c));
            if w.len() == 0 {
                assert(capitalized(w.push(c)) =~= seq![ascii_upper(c)]);
                assert(capitalized_concat(before) =~= capitalized_concat(before.drop_last()));
                assert(capitalized_concat(parts) =~= capitalized_concat(before).push(
                    ascii_upper(c),
                ));
                assert(shorter.len() == 0 || shorter.last() == '_');
                assert(slug.len() == 1 || slug[slug.len() - 2] == '_');
            } else {
                assert(capitalized(w.push(c)) =~= capitalized(w).push(c));
                assert(capitalized_concat(parts) =~= capitalized_concat(before).push(c));
                assert(shorter.len() > 0 && shorter.last() != '_');
                assert(slug[slug.len() - 2] == shorter.last());
            }
        }
    }
}

/// The export names of a collection, in its order.
pub open spec fn export_names(figs: Seq<FigureData>) -> Seq<Seq<char>> {
    Seq::new(figs.len(), |i: int| export_name_text(figs[i].name_id@))
}

/// The constant that holds one figure. The name stands as a string literal
/// with its quotes and escapes, so that it reads back as the name whatever
/// characters it holds.
pub open spec fn const_block_text(f: FigureView) -> Seq<char> {
    "\nexport const "@ + export_name_text(f.name_id) + " = {\n  figureId: 0x"@ + hex_text(
        f.figure_id as nat,
    ) + ",\n  variantId: 0x"@ + hex_text(f.variant_id as nat) + ",\n  name: "@
        + json_string_text(f.name) + ",\n};\n"@
}

/// The constants of a collection, in its order.
pub open spec fn const_blocks_text(figs: Seq<FigureData>) -> Seq<char>
    decreases figs.len(),
{
    if figs.len() == 0 {
        Seq::empty()
    } else {
        const_blocks_text(figs.drop_last()) + const_block_text(figs.last()@)
    }
}

/// The array of all figures: their export names in collection order, each
/// followed by a comma; an empty array for an empty collection.
pub open spec fn array_text(figs: Seq<FigureData>) -> Seq<char> {
    if figs.len() == 0 {
        ARRAY_EMPTY@
    } else {
        ARRAY_HEAD@ + joined(export_names(figs), ARRAY_SEPARATOR@) + ARRAY_TAIL@
    }
}

/// The module source: one constant per figure, the array of all of them, and
/// the lookup function.
pub open spec fn index_js_text(figs: Seq<FigureData>) -> Seq<char> {
    const_blocks_text(figs) + "\n\n"@ + array_text(figs) + LOOKUP_SOURCE@
}

/// The declaration of one figure's constant.
pub open spec fn declaration_text(f: FigureView) -> Seq<char> {
    "export const "@ + export_name_text(f.name_id) + ": PortalFigure;"@
}

/// The declarations of a collection's constants, in its order.
pub open spec fn declarations(figs: Seq<FigureData>) -> Seq<Seq<char>> {
    Seq::new(figs.len(), |i: int| declaration_text(figs[i]@))
}

/// The type declarations: the record's shape, one declaration per figure,
/// the array and the lookup function.
pub open spec fn index_dts_text(figs: Seq<FigureData>) -> Seq<char> {
    DECLARATIONS_HEAD@ + joined(declarations(figs), "\n"@) + DECLARATIONS_TAIL@
}

/// The package manifest for a version.
pub open spec fn package_json_text(version: Seq<char>) -> Seq<char> {
    MANIFEST_HEAD@ + version + MANIFEST_TAIL@
}

/// The package's directory.
pub open spec fn package_dir_text() -> Seq<char> {
    OUTPUT_DIR@ + "/javascript"@
}

/// The directory of the package's sources.
pub open spec fn src_dir_text() -> Seq<char> {
    package_dir_text() + "/src"@
}

/// The files of the JavaScript package and the directories they stand in.
#[derive(Debug, Clone)]
pub struct JavascriptPackage {
    /// The package's directory.
    pub package_dir: String,
    /// The directory of the package's sources.
    pub src_dir: String,
    /// The package manifest.
    pub package_json: OutputFile,
    /// The module source.
    pub index_js: OutputFile,
    /// The type declarations.
    pub index_dts: OutputFile,
    /// The usage notes.
    pub readme: OutputFile,
}

/// The name under which a figure is exported.
pub fn export_name(figure: &FigureData) -> (r: String)
    ensures
        r@ == export_name_text(figure.name_id@),
{
    let slug = figure.name_id.as_str();
    let n: usize = slug.unicode_len();
    let mut out = String::new();
    let mut i: usize = 0;
    let mut at_start = true;
    while i < n
        invariant
            n == slug@.len(),
            i <= n,
            at_start == (i == 0 || slug@[i - 1] == '_'),
            out@ == export_name_scan(slug@.take(i as int)),
        decreases n - i,
    {
        let c = slug.get_char(i);
        proof {
            let t = slug@.take(i + 1);
            assert(t.drop_last() =~= slug@.take(i as int));
            assert(t.last() == c);
            if i > 0 {
                assert(t[t.len() - 2] == slug@[i - 1]);
            }
        }
        if c == '_' {
            at_start = true;
        } else {
            if at_start {
                push_char(&mut out, to_ascii_upper(c));
            } else {
                push_char(&mut out, c);
            }
            at_start = false;
        }
        i += 1;
    }
    proof {
        assert(slug@.take(n as int) =~= slug@);
        lemma_export_name_by_segments(slug@);
    }
    out
}

fn const_block(figure: &FigureData) -> (r: String)
    ensures
        r@ == const_block_text(figure@),
{
    let mut s = String::from_str("\nexport const ");
    s.append(export_name(figure).as_str());
    s.append(" = {\n  figureId: 0x");
    s.append(hex_u16(figure.figure_id).as_str());
    s.append(",\n  variantId: 0x");
    s.append(hex_u16(figure.variant_id).as_str());
    s.append(",\n  name: ");
    s.append(string_literal(figure.name.as_str()).as_str());
    s.append(",\n};\n");
    s
}

fn declaration(figure: &FigureData) -> (r: String)
    ensures
        r@ == declaration_text(figure@),
{
    let mut s = String::from_str("export const ");
    s.append(export_name(figure).as_str());
    s.append(": PortalFigure;");
    s
}

/// Renders the JavaScript package for a collection and a version.
pub fn emit(all_figure_data: &Vec<FigureData>, version: &str) -> (r: JavascriptPackage)
    ensures
        r.package_dir@ == package_dir_text(),
        r.src_dir@ == src_dir_text(),
        r.package_json.path@ == package_dir_text() + "/package.json"@,
        r.package_json.content@ == package_json_text(version@),
        r.index_js.path@ == src_dir_text() + "/index.js"@,
        r.index_js.content@ == index_js_text(all_figure_data@),
        r.index_dts.path@ == src_dir_text() + "/index.d.ts"@,
        r.index_dts.content@ == index_dts_text(all_figure_data@),
        r.readme.path@ == package_dir_text() + "/README.md"@,
        r.readme.content@ == README@,
{
    let ghost figs = all_figure_data@;
    let mut package_dir = String::from_str(OUTPUT_DIR);
    package_dir.append("/javascript");
    let mut src_dir = package_dir.clone();
    src_dir.append("/src");

    let mut package_json = String::from_str(MANIFEST_HEAD);
    package_json.append(version);
    package_json.append(MANIFEST_TAIL);

    let mut blocks = String::new();
    let mut names: Vec<String> = Vec::new();
    let mut decls: Vec<String> = Vec::new();
    let mut i: usize = 0;
    while i < all_figure_data.len()
        invariant
            figs == all_figure_data@,
            i <= figs.len(),
            blocks@ == const_blocks_text(figs.take(i as int)),
            names@.len() == i,
            decls@.len() == i,
            forall|k: int|
                0 <= k < i ==> (#[trigger] names@[k])@ == export_name_text(figs[k].name_id@),
            forall|k: int|
                0 <= k < i ==> (#[trigger] decls@[k])@ == declaration_text(figs[k]@),
        decreases figs.len() - i,
    {
        let figure = &all_figure_data[i];
        proof {
            assert(figs.take(i + 1).drop_last() =~= figs.take(i as int));
        }
        blocks.append(const_block(figure).as_str());
        names.push(export_name(figure));
        decls.push(declaration(figure));
        i += 1;
    }
    proof {
        assert(figs.take(figs.len() as int) =~= figs);
        assert(strings_view(names@) =~= export_names(figs));
        assert(strings_view(decls@) =~= declarations(figs));
    }
    let mut array = String::from_str(ARRAY_EMPTY);
    if names.len() > 0 {
        array = String::from_str(ARRAY_HEAD);
        array.append(join(&names, ARRAY_SEPARATOR).as_str());
        array.append(ARRAY_TAIL);
    }

    let mut index_js = blocks;
    index_js.append("\n\n");
    index_js.append(array.as_str());
    index_js.append(LOOKUP_SOURCE);

    let mut index_dts = String::from_str(DECLARATIONS_HEAD);
    index_dts.append(join(&decls, "\n").as_str());
    index_dts.append(DECLARATIONS_TAIL);

    let package_json = OutputFile::in_dir(&package_dir, "/package.json", package_json);
    let index_js = OutputFile::in_dir(&src_dir, "/index.js", index_js);
    let index_dts = OutputFile::in_dir(&src_dir, "/index.d.ts", index_dts);
    let readme = OutputFile::in_dir(&package_dir, "/README.md", String::from_str(README));
    JavascriptPackage { package_dir, src_dir, package_json, index_js, index_dts, readme }
}

} // verus!
