//! Validation and aggregation: records are admitted one at a time, each
//! checked against everything admitted before it.

use vstd::prelude::*;
use crate::common::{
    BuildError, BuildErrorView, Field, FigureData, FigureView, RawFigureData, RawFigureView,
};
use crate::slug::{derive_slug, slug_text};

verus! {

/// Whether a figure carries the given identifier pair.
pub open spec fn has_key(f: FigureData, figure_id: u16, variant_id: u16) -> bool {
    f.figure_id == figure_id && f.variant_id == variant_id
}

/// Whether some figure of the collection carries the identifier pair.
pub open spec fn key_present(figs: Seq<FigureData>, figure_id: u16, variant_id: u16) -> bool {
    exists|i: int| 0 <= i < figs.len() && has_key(#[trigger] figs[i], figure_id, variant_id)
}

/// Whether `i` is the first place in the collection that carries the
/// identifier pair.
pub open spec fn is_first_with_key(
    figs: Seq<FigureData>,
    figure_id: u16,
    variant_id: u16,
    i: int,
) -> bool {
    &&& 0 <= i < figs.len()
    &&& has_key(figs[i], figure_id, variant_id)
    &&& forall|j: int| 0 <= j < i ==> !has_key(#[trigger] figs[j], figure_id, variant_id)
}

/// Whether some figure of the collection carries the slug.
pub open spec fn slug_present(figs: Seq<FigureData>, slug: Seq<char>) -> bool {
    exists|i: int| 0 <= i < figs.len() && (#[trigger] figs[i]).name_id@ == slug
}

/// Whether `i` is the first place in the collection that carries the slug.
pub open spec fn is_first_with_slug(figs: Seq<FigureData>, slug: Seq<char>, i: int) -> bool {
    &&& 0 <= i < figs.len()
    &&& figs[i].name_id@ == slug
    &&& forall|j: int| 0 <= j < i ==> (#[trigger] figs[j]).name_id@ != slug
}

/// The invariants of a validated collection: every slug is derived from its
/// figure's name, no two figures share an identifier pair, and no two
/// figures share a slug.
pub open spec fn is_valid_collection(figs: Seq<FigureData>) -> bool {
    &&& forall|i: int|
        0 <= i < figs.len() ==> (#[trigger] figs[i]).name_id@ == slug_text(figs[i].name@)
    &&& forall|i: int, j: int|
        0 <= i < j < figs.len() ==> !has_key(
            #[trigger] figs[j],
            (#[trigger] figs[i]).figure_id,
            figs[i].variant_id,
        )
    &&& forall|i: int, j: int|
        0 <= i < j < figs.len() ==> (#[trigger] figs[i]).name_id@ != (#[trigger] figs[j]).name_id@
}

/// The first required field that a record lacks, in the order figure
/// identifier, variant identifier, name.
pub open spec fn first_missing(raw: RawFigureView) -> Option<Field> {
    if raw.figure_id is None {
        Some(Field::FigureId)
    } else if raw.variant_id is None {
        Some(Field::VariantId)
    } else if raw.name is None {
        Some(Field::Name)
    } else {
        None
    }
}

/// Whether a record may join the collection: it is complete, and neither its
/// identifier pair nor its slug is taken.
pub open spec fn admissible(figs: Seq<FigureData>, raw: RawFigureView) -> bool {
    &&& first_missing(raw) is None
    &&& !key_present(figs, raw.figure_id->0, raw.variant_id->0)
    &&& !slug_present(figs, slug_text(raw.name->0))
}

/// The figure that an admissible record becomes.
pub open spec fn admitted(raw: RawFigureView, path: Seq<char>) -> FigureView {
    FigureView {
        figure_id: raw.figure_id->0,
        variant_id: raw.variant_id->0,
        name: raw.name->0,
        name_id: slug_text(raw.name->0),
        file_path: path,
    }
}

/// Whether the figure first found with the identifier pair was read from
/// `path_a`.
pub open spec fn key_first_seen_in(
    figs: Seq<FigureData>,
    figure_id: u16,
    variant_id: u16,
    path_a: Seq<char>,
) -> bool {
    exists|i: int| #[trigger]
        is_first_with_key(figs, figure_id, variant_id, i) && path_a == figs[i].file_path@
}

/// Whether the figure first found with the slug was read from `path_a` and
/// is named `original_name`.
pub open spec fn slug_first_seen_in(
    figs: Seq<FigureData>,
    slug: Seq<char>,
    path_a: Seq<char>,
    original_name: Seq<char>,
) -> bool {
    exists|i: int| #[trigger]
        is_first_with_slug(figs, slug, i) && path_a == figs[i].file_path@ && original_name
            == figs[i].name@
}

/// Whether `e` is the error owed to a record that may not join the
/// collection. A missing field is reported before a duplicate identifier
/// pair, and that before a duplicate slug; a duplicate names the first
/// figure that it collides with.
pub open spec fn is_rejection(
    figs: Seq<FigureData>,
    raw: RawFigureView,
    path: Seq<char>,
    e: BuildErrorView,
) -> bool {
    match e {
        BuildErrorView::MissingField { field, path: p } => {
            &&& first_missing(raw) == Some(field)
            &&& p == path
        },
        BuildErrorView::DuplicateKey { figure_id, variant_id, path_a, path_b } => {
            &&& first_missing(raw) is None
            &&& figure_id == raw.figure_id->0
            &&& variant_id == raw.variant_id->0
            &&& path_b == path
            &&& key_first_seen_in(figs, figure_id, variant_id, path_a)
        },
        BuildErrorView::DuplicateSlug { name, slug, original_name, path_a, path_b } => {
            &&& first_missing(raw) is None
            &&& !key_present(figs, raw.figure_id->0, raw.variant_id->0)
            &&& name == raw.name->0
            &&& slug == slug_text(name)
            &&& path_b == path
            &&& slug_first_seen_in(figs, slug, path_a, original_name)
        },
        _ => false,
    }
}

/// Linear scan for an identifier pair: the first match wins.
pub fn position_of_key(figs: &Vec<FigureData>, figure_id: u16, variant_id: u16) -> (r: Option<
    usize,
>)
    ensures
        match r {
            Some(i) => is_first_with_key(figs@, figure_id, variant_id, i as int),
            None => !key_present(figs@, figure_id, variant_id),
        },
{
    let mut i: usize = 0;
    while i < figs.len()
        invariant
            i <= figs.len(),
            forall|j: int| 0 <= j < i ==> !has_key(#[trigger] figs@[j], figure_id, variant_id),
        decreases figs.len() - i,
    {
        if figs[i].figure_id == figure_id && figs[i].variant_id == variant_id {
            return Some(i);
        }
        i += 1;
    }
    None
}

/// Linear scan for a slug: the first match wins.
pub fn position_of_slug(figs: &Vec<FigureData>, slug: &String) -> (r: Option<usize>)
    ensures
        match r {
            Some(i) => is_first_with_slug(figs@, slug@, i as int),
            None => !slug_present(figs@, slug@),
        },
{
    let mut i: usize = 0;
    while i < figs.len()
        invariant
            i <= figs.len(),
            forall|j: int| 0 <= j < i ==> (#[trigger] figs@[j]).name_id@ != slug@,
        decreases figs.len() - i,
    {
        if figs[i].name_id == *slug {
            return Some(i);
        }
        i += 1;
    }
    None
}

/// What a lookup owes: the first figure in collection order that carries the
/// identifier pair, or nothing where no figure carries it.
pub open spec fn is_lookup_result(
    figs: Seq<FigureData>,
    figure_id: u16,
    variant_id: u16,
    r: Option<&FigureData>,
) -> bool {
    match r {
        Some(f) => exists|i: int| #[trigger]
            is_first_with_key(figs, figure_id, variant_id, i) && *f == figs[i],
        None => !key_present(figs, figure_id, variant_id),
    }
}

/// Looks a figure up by its identifier pair, as the lookup functions of the
/// emitted packages do: a linear scan in collection order that returns the
/// first match, or `None` where no figure carries the pair.
pub fn find_figure(figs: &Vec<FigureData>, figure_id: u16, variant_id: u16) -> (r: Option<
    &FigureData,
>)
    ensures
        is_lookup_result(figs@, figure_id, variant_id, r),
{
    match position_of_key(figs, figure_id, variant_id) {
        Some(i) => Some(&figs[i]),
        None => None,
    }
}

/// In a validated collection only one place carries a figure's identifier
/// pair: its own.
pub proof fn lemma_key_is_unique(figs: Seq<FigureData>, i: int, j: int)
    requires
        is_valid_collection(figs),
        0 <= i < figs.len(),
        0 <= j < figs.len(),
        has_key(figs[j], figs[i].figure_id, figs[i].variant_id),
    ensures
        j == i,
{
    if j < i {
        assert(!has_key(figs[i], figs[j].figure_id, figs[j].variant_id));
    } else if i < j {
        assert(!has_key(figs[j], figs[i].figure_id, figs[i].variant_id));
    }
}

/// In a validated collection a lookup by a figure's own identifier pair
/// returns that very figure.
pub proof fn lemma_lookup_round_trip(figs: Seq<FigureData>, i: int, r: Option<&FigureData>)
    requires
        is_valid_collection(figs),
        0 <= i < figs.len(),
        is_lookup_result(figs, figs[i].figure_id, figs[i].variant_id, r),
    ensures
        r matches Some(f) && *f == figs[i],
{
    let figure_id = figs[i].figure_id;
    let variant_id = figs[i].variant_id;
    assert(has_key(figs[i], figure_id, variant_id));
    assert(key_present(figs, figure_id, variant_id));
    let j = choose|j: int| #[trigger]
        is_first_with_key(figs, figure_id, variant_id, j) && *r->0 == figs[j];
    lemma_key_is_unique(figs, i, j);
}

/// A lookup returns nothing exactly for the identifier pairs that no figure
/// of the collection carries.
pub proof fn lemma_lookup_absent(
    figs: Seq<FigureData>,
    figure_id: u16,
    variant_id: u16,
    r: Option<&FigureData>,
)
    requires
        is_lookup_result(figs, figure_id, variant_id, r),
    ensures
        r is None <==> forall|j: int|
            0 <= j < figs.len() ==> !has_key(#[trigger] figs[j], figure_id, variant_id),
{
    if r is Some {
        let j = choose|j: int| #[trigger]
            is_first_with_key(figs, figure_id, variant_id, j) && *r->0 == figs[j];
        assert(has_key(figs[j], figure_id, variant_id));
    }
}

/// A record that repeats the identifier pair of a figure already in the
/// collection is not admissible, whatever its name and wherever the figure
/// stands.
pub proof fn lemma_repeated_key_is_refused(figs: Seq<FigureData>, i: int, raw: RawFigureView)
    requires
        0 <= i < figs.len(),
        raw.figure_id == Some(figs[i].figure_id),
        raw.variant_id == Some(figs[i].variant_id),
    ensures
        key_present(figs, figs[i].figure_id, figs[i].variant_id),
        !admissible(figs, raw),
{
    assert(has_key(figs[i], figs[i].figure_id, figs[i].variant_id));
}

/// A record whose name gives the slug of a figure already in a validated
/// collection is not admissible, even where the two names differ.
pub proof fn lemma_repeated_slug_is_refused(figs: Seq<FigureData>, i: int, raw: RawFigureView)
    requires
        is_valid_collection(figs),
        0 <= i < figs.len(),
        raw.name is Some,
        slug_text(raw.name->0) == slug_text(figs[i].name@),
    ensures
        slug_present(figs, slug_text(raw.name->0)),
        !admissible(figs, raw),
{
    assert(figs[i].name_id@ == slug_text(raw.name->0));
}

/// The growing collection of validated figures.
pub struct Aggregator {
    figures: Vec<FigureData>,
}

impl View for Aggregator {
    type V = Seq<FigureData>;

    closed spec fn view(&self) -> Seq<FigureData> {
        self.figures@
    }
}

impl Aggregator {
    /// Whether the figures admitted so far form a validated collection.
    pub open spec fn wf(&self) -> bool {
        is_valid_collection(self@)
    }

    /// An aggregator that has admitted nothing.
    pub fn new() -> (r: Self)
        ensures
            r@ == Seq::<FigureData>::empty(),
            r.wf(),
    {
        Aggregator { figures: Vec::new() }
    }

    /// How many figures have been admitted.
    pub fn len(&self) -> (n: usize)
        ensures
            n == self@.len(),
    {
        self.figures.len()
    }

    /// The figures admitted so far, in the order of their admission.
    pub fn figures(&self) -> (r: &Vec<FigureData>)
        ensures
            r@ == self@,
            self.wf() ==> is_valid_collection(r@),
    {
        &self.figures
    }

    /// Ends the aggregation and hands the collection over.
    pub fn into_figures(self) -> (r: Vec<FigureData>)
        ensures
            r@ == self@,
            self.wf() ==> is_valid_collection(r@),
    {
        self.figures
    }

    /// Validates one record read from `file_path` against everything admitted
    /// so far. An admissible record is appended as a figure with its derived
    /// slug; any other leaves the collection as it was and yields the error
    /// owed to it.
    pub fn accept(&mut self, raw: RawFigureData, file_path: String) -> (r: Result<(), BuildError>)
        requires
            old(self).wf(),
        ensures
            final(self).wf(),
            r is Ok <==> admissible(old(self)@, raw@),
            first_missing(raw@) matches Some(field) ==> r is Err && r->Err_0@
                == (BuildErrorView::MissingField { field, path: file_path@ }),
            first_missing(raw@) is None && key_present(
                old(self)@,
                raw@.figure_id->0,
                raw@.variant_id->0,
            ) ==> r is Err && r->Err_0@ is DuplicateKey,
            first_missing(raw@) is None && !key_present(
                old(self)@,
                raw@.figure_id->0,
                raw@.variant_id->0,
            ) && slug_present(old(self)@, slug_text(raw@.name->0)) ==> r is Err && r->Err_0@
                is DuplicateSlug,
            match r {
                Ok(_) => {
                    &&& final(self)@.len() == old(self)@.len() + 1
                    &&& final(self)@.drop_last() == old(self)@
                    &&& final(self)@.last()@ == admitted(raw@, file_path@)
                },
                Err(e) => {
                    &&& final(self)@ == old(self)@
                    &&& is_rejection(old(self)@, raw@, file_path@, e@)
                },
            },
    {
        let ghost record = raw@;
        let figure_id = match raw.figure_id {
            Some(v) => v,
            None => {
                return Err(BuildError::MissingField { field: Field::FigureId, path: file_path });
            },
        };
        let variant_id = match raw.variant_id {
            Some(v) => v,
            None => {
                return Err(BuildError::MissingField { field: Field::VariantId, path: file_path });
            },
        };
        let name = match raw.name {
            Some(v) => v,
            None => {
                return Err(BuildError::MissingField { field: Field::Name, path: file_path });
            },
        };
        if let Some(i) = position_of_key(&self.figures, figure_id, variant_id) {
            let path_a = self.figures[i].file_path.clone();
            let ghost path = file_path@;
            let ghost first_path = path_a@;
            let e = BuildError::DuplicateKey { figure_id, variant_id, path_a, path_b: file_path };
            proof {
                assert(has_key(self.figures@[i as int], figure_id, variant_id));
                assert(is_first_with_key(self.figures@, figure_id, variant_id, i as int));
                assert(key_first_seen_in(self.figures@, figure_id, variant_id, first_path));
                assert(is_rejection(self.figures@, record, path, e@));
            }
            return Err(e);
        }
        let name_id = derive_slug(name.as_str());
        if let Some(i) = position_of_slug(&self.figures, &name_id) {
            let path_a = self.figures[i].file_path.clone();
            let original_name = self.figures[i].name.clone();
            let ghost path = file_path@;
            let ghost slug = name_id@;
            let ghost first_path = path_a@;
            let ghost first_name = original_name@;
            let e = BuildError::DuplicateSlug {
                name,
                slug: name_id,
                original_name,
                path_a,
                path_b: file_path,
            };
            proof {
                assert(self.figures@[i as int].name_id@ == slug);
                assert(is_first_with_slug(self.figures@, slug, i as int));
                assert(slug_first_seen_in(self.figures@, slug, first_path, first_name));
                assert(is_rejection(self.figures@, record, path, e@));
            }
            return Err(e);
        }
        let ghost before = self.figures@;
        self.figures.push(FigureData { figure_id, variant_id, name, name_id, file_path });
        proof {
            assert(self.figures@.drop_last() =~= before);
            assert forall|i: int, j: int| 0 <= i < j < self.figures@.len() implies !has_key(
                #[trigger] self.figures@[j],
                (#[trigger] self.figures@[i]).figure_id,
                self.figures@[i].variant_id,
            ) by {
                if j == before.len() {
                    assert(!has_key(before[i], figure_id, variant_id));
                } else {
                    assert(self.figures@[i] == before[i] && self.figures@[j] == before[j]);
                }
            }
            assert forall|i: int, j: int| 0 <= i < j < self.figures@.len() implies (
            #[trigger] self.figures@[i]).name_id@ != (#[trigger] self.figures@[j]).name_id@ by {
                if j == before.len() {
                    assert(before[i].name_id@ != name_id@);
                } else {
                    assert(self.figures@[i] == before[i] && self.figures@[j] == before[j]);
                }
            }
        }
        Ok(())
    }
}

} // verus!
