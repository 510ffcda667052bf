//! The data model: raw records, validated figures, and the errors of a build.

use vstd::prelude::*;
use vstd::string::StringExecFns;
use crate::text::{decimal_text, decimal_u16};

verus! {

/// Glob pattern for all input files.
pub const INPUT_GLOB: &'static str = "src/**/*.toml";

/// Destination for built artifacts.
pub const OUTPUT_DIR: &'static str = "dist";

/// Path prefix for source files that will be ignored.
pub const UNIMPLEMENTED_PREFIX: &'static str = "src/00-unimplemented/";

/// Raw figure data read from a source file.
/// Everything is optional since nothing is known about the contents of the
/// file. This data must be validated before use.
#[derive(Debug, Clone)]
pub struct RawFigureData {
    pub figure_id: Option<u16>,
    pub variant_id: Option<u16>,
    pub name: Option<String>,
}

/// Validated figure data.
#[derive(Debug, Clone)]
pub struct FigureData {
    /// Figure ID (e.g. Spyro, Snap Shot, Trigger Happy, etc.)
    pub figure_id: u16,
    /// Variant ID (e.g. lightcore, dark, etc.)
    pub variant_id: u16,
    /// Figure name.
    pub name: String,
    /// A unique slug derived from the figure name.
    pub name_id: String,
    /// Path of the file from which this data was read.
    pub file_path: String,
}

/// What a raw record holds, as mathematical values.
pub ghost struct RawFigureView {
    pub figure_id: Option<u16>,
    pub variant_id: Option<u16>,
    pub name: Option<Seq<char>>,
}

/// What a figure holds, as mathematical values.
pub ghost struct FigureView {
    pub figure_id: u16,
    pub variant_id: u16,
    pub name: Seq<char>,
    pub name_id: Seq<char>,
    pub file_path: Seq<char>,
}

impl View for RawFigureData {
    type V = RawFigureView;

    open spec fn view(&self) -> RawFigureView {
        RawFigureView {
            figure_id: self.figure_id,
            variant_id: self.variant_id,
            name: match self.name {
                Some(n) => Some(n@),
                None => None,
            },
        }
    }
}

impl View for FigureData {
    type V = FigureView;

    open spec fn view(&self) -> FigureView {
        FigureView {
            figure_id: self.figure_id,
            variant_id: self.variant_id,
            name: self.name@,
            name_id: self.name_id@,
            file_path: self.file_path@,
        }
    }
}

/// A text file of an artifact: where it is written and what it holds.
#[derive(Debug, Clone)]
pub struct OutputFile {
    /// The file's path, output directory included.
    pub path: String,
    /// The file's full text.
    pub content: String,
}

impl OutputFile {
    /// The file that stands under `dir`; `name` starts with the separator.
    pub fn in_dir(dir: &String, name: &str, content: String) -> (r: OutputFile)
        ensures
            r.path@ == dir@ + name@,
            r.content@ == content@,
    {
        let mut path = dir.clone();
        path.append(name);
        OutputFile { path, content }
    }
}

/// The part of a figure that every artifact carries.
pub open spec fn triple(f: FigureView) -> (u16, u16, Seq<char>) {
    (f.figure_id, f.variant_id, f.name)
}

/// The triples of a collection, in its order.
pub open spec fn triples(figs: Seq<FigureData>) -> Seq<(u16, u16, Seq<char>)> {
    Seq::new(figs.len(), |i: int| triple(figs[i]@))
}

/// A field that every record must hold.
#[derive(Debug, Clone, Copy, PartialEq, Eq, Structural)]
pub enum Field {
    FigureId,
    VariantId,
    Name,
}

impl Field {
    /// The field's name as the input documents spell it.
    pub open spec fn text(self) -> Seq<char> {
        match self {
            Field::FigureId => "figure_id"@,
            Field::VariantId => "variant_id"@,
            Field::Name => "name"@,
        }
    }

    /// The field's name as the input documents spell it.
    pub fn name(self) -> (r: &'static str)
        ensures
            r@ == self.text(),
    {
        match self {
            Field::FigureId => "figure_id",
            Field::VariantId => "variant_id",
            Field::Name => "name",
        }
    }
}

/// Why a build stopped. Every error ends the whole build.
#[derive(Debug, Clone)]
pub enum BuildError {
    /// An input document could not be read as a record.
    Parse { path: String, diagnostic: String },
    /// A record lacks a required field.
    MissingField { field: Field, path: String },
    /// Two records share a figure and variant identifier. `path_a` is the
    /// record admitted first, `path_b` the one refused.
    DuplicateKey { figure_id: u16, variant_id: u16, path_a: String, path_b: String },
    /// The names of two records give the same slug. `path_a` and
    /// `original_name` belong to the record admitted first, `name` and
    /// `path_b` to the one refused.
    DuplicateSlug {
        name: String,
        slug: String,
        original_name: String,
        path_a: String,
        path_b: String,
    },
    /// An artifact could not be created or written.
    EmitIo { target: String, diagnostic: String },
    /// The database refused a row.
    EmitConstraint { name: String, diagnostic: String },
}

/// A build error as mathematical values.
pub ghost enum BuildErrorView {
    Parse { path: Seq<char>, diagnostic: Seq<char> },
    MissingField { field: Field, path: Seq<char> },
    DuplicateKey { figure_id: u16, variant_id: u16, path_a: Seq<char>, path_b: Seq<char> },
    DuplicateSlug {
        name: Seq<char>,
        slug: Seq<char>,
        original_name: Seq<char>,
        path_a: Seq<char>,
        path_b: Seq<char>,
    },
    EmitIo { target: Seq<char>, diagnostic: Seq<char> },
    EmitConstraint { name: Seq<char>, diagnostic: Seq<char> },
}

impl View for BuildError {
    type V = BuildErrorView;

    open spec fn view(&self) -> BuildErrorView {
        match *self {
            BuildError::Parse { path, diagnostic } => BuildErrorView::Parse {
                path: path@,
                diagnostic: diagnostic@,
            },
            BuildError::MissingField { field, path } => BuildErrorView::MissingField {
                field,
                path: path@,
            },
            BuildError::DuplicateKey {
                figure_id,
                variant_id,
                path_a,
                path_b,
            } => BuildErrorView::DuplicateKey {
                figure_id,
                variant_id,
                path_a: path_a@,
                path_b: path_b@,
            },
            BuildError::DuplicateSlug {
                name,
                slug,
                original_name,
                path_a,
                path_b,
            } => BuildErrorView::DuplicateSlug {
                name: name@,
                slug: slug@,
                original_name: original_name@,
                path_a: path_a@,
                path_b: path_b@,
            },
            BuildError::EmitIo { target, diagnostic } => BuildErrorView::EmitIo {
                target: target@,
                diagnostic: diagnostic@,
            },
            BuildError::EmitConstraint { name, diagnostic } => BuildErrorView::EmitConstraint {
                name: name@,
                diagnostic: diagnostic@,
            },
        }
    }
}

/// The line that reports an error to the person running the build. It names
/// the offending file, or both files of a duplicate.
pub open spec fn message_text(e: BuildErrorView) -> Seq<char> {
    match e {
        BuildErrorView::Parse { path, diagnostic } => "Failed to parse TOML. (path='"@ + path
            + "') "@ + diagnostic,
        BuildErrorView::MissingField { field, path } => "Missing required field '"@ + field.text()
            + "': "@ + path,
        BuildErrorView::DuplicateKey { figure_id, variant_id, path_a, path_b } =>
            "Duplicate `figure_id` and `variant_id` found: (figure_id='"@ + decimal_text(
                figure_id as nat,
            ) + "') (variant_id='"@ + decimal_text(variant_id as nat) + "') (file_a='"@ + path_a
                + "') (file_b='"@ + path_b + "')"@,
        BuildErrorView::DuplicateSlug { name, slug, original_name, path_a, path_b } => "Name '"@
            + name + "' from file '"@ + path_b
            + "' is not unique enough to generate unique name_id. Both files produced unique name_id '"@
            + slug + "'. Duplicate: (name='"@ + original_name + "') (path='"@ + path_a + "')"@,
        BuildErrorView::EmitIo { target, diagnostic } => diagnostic + ": '"@ + target + "'"@,
        BuildErrorView::EmitConstraint { name, diagnostic } => "Failed to insert figure '"@ + name
            + "': "@ + diagnostic,
    }
}

impl BuildError {
    /// The line that reports this error.
    pub fn message(&self) -> (r: String)
        ensures
            r@ == message_text(self@),
    {
        match self {
            BuildError::Parse { path, diagnostic } => {
                let mut s = String::from_str("Failed to parse TOML. (path='");
                s.append(path.as_str());
                s.append("') ");
                s.append(diagnostic.as_str());
                s
            },
            BuildError::MissingField { field, path } => {
                let mut s = String::from_str("Missing required field '");
                s.append(field.name());
                s.append("': ");
                s.append(path.as_str());
                s
            },
            BuildError::DuplicateKey { figure_id, variant_id, path_a, path_b } => {
                let mut s = String::from_str(
                    "Duplicate `figure_id` and `variant_id` found: (figure_id='",
                );
                s.append(decimal_u16(*figure_id).as_str());
                s.append("') (variant_id='");
                s.append(decimal_u16(*variant_id).as_str());
                s.append("') (file_a='");
                s.append(path_a.as_str());
                s.append("') (file_b='");
                s.append(path_b.as_str());
                s.append("')");
                s
            },
            BuildError::DuplicateSlug { name, slug, original_name, path_a, path_b } => {
                let mut s = String::from_str("Name '");
                s.append(name.as_str());
                s.append("' from file '");
                s.append(path_b.as_str());
                s.append(
                    "' is not unique enough to generate unique name_id. Both files produced unique name_id '",
                );
                s.append(slug.as_str());
                s.append("'. Duplicate: (name='");
                s.append(original_name.as_str());
                s.append("') (path='");
                s.append(path_a.as_str());
                s.append("')");
                s
            },
            BuildError::EmitIo { target, diagnostic } => {
                let mut s = diagnostic.clone();
                s.append(": '");
                s.append(target.as_str());
                s.append("'");
                s
            },
            BuildError::EmitConstraint { name, diagnostic } => {
                let mut s = String::from_str("Failed to insert figure '");
                s.append(name.as_str());
                s.append("': ");
                s.append(diagnostic.as_str());
                s
            },
        }
    }
}

} // verus!
