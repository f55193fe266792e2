use crate::header::{
    digits_value, extract, field_matches, is_dimension_text, parse_dimension, plate_header_keys,
    plate_keys, unsigned_digits, HeaderError, HeaderField, HeaderValue, KEY_NAXIS1, KEY_NAXIS2,
};
use crate::metadata::{
    comment_text, csv_records, image_path, metadata_csv, metadata_path, metadata_table,
    output_stem, COLUMN_COMMENT, COLUMN_KEY, COLUMN_VALUE, CSV_SUFFIX, PNG_SUFFIX,
};
use crate::raster::{encode, normalized, png_gray_of, EncodeError};
use vstd::prelude::*;

verus! {

/// Position of the region among the plate keys.
pub const REGION_INDEX: usize = 1;
/// Position of the plate identifier among the plate keys.
pub const PLATEID_INDEX: usize = 2;
/// Position of the width among the plate keys.
pub const WIDTH_INDEX: usize = 8;
/// Position of the height among the plate keys.
pub const HEIGHT_INDEX: usize = 9;

/// Why a plate's image could not be produced.
#[derive(Debug, PartialEq, Eq)]
pub enum ProcessError {
    Header(HeaderError),
    Encode(EncodeError),
}

/// The metadata file of a plate: its path and its contents.
#[derive(Debug)]
pub struct MetadataOutput {
    pub path: String,
    pub bytes: Vec<u8>,
}

/// The image file of a plate: its path and its contents.
#[derive(Debug)]
pub struct ImageOutput {
    pub path: String,
    pub bytes: Vec<u8>,
}

/// What a plate whose header held every key yields: its metadata file, and its
/// image file or why there is none.
#[derive(Debug)]
pub struct PlateOutputs {
    pub metadata: MetadataOutput,
    pub image: Result<ImageOutput, ProcessError>,
}

/// The header held every requested key.
pub open spec fn all_present(found: Seq<Option<HeaderValue>>) -> bool {
    forall|i: int| 0 <= i < found.len() ==> #[trigger] found[i] is Some
}

/// The text found for the key at position `i`.
pub open spec fn found_text(found: Seq<Option<HeaderValue>>, i: int) -> Seq<char> {
    found[i]->Some_0.value@
}

/// The number written in the text found for the key at position `i`.
pub open spec fn found_number(found: Seq<Option<HeaderValue>>, i: int) -> int {
    digits_value(unsigned_digits(found_text(found, i)))
}

/// Width and height are both readable as unsigned integers.
pub open spec fn dimensions_valid(found: Seq<Option<HeaderValue>>) -> bool {
    is_dimension_text(found_text(found, WIDTH_INDEX as int)) && is_dimension_text(
        found_text(found, HEIGHT_INDEX as int),
    )
}

/// The metadata table of a plate whose header held every key.
pub open spec fn found_table(found: Seq<Option<HeaderValue>>) -> Seq<Seq<Seq<char>>> {
    seq![seq![COLUMN_KEY@, COLUMN_VALUE@, COLUMN_COMMENT@]] + Seq::new(
        found.len(),
        |i: int|
            seq![plate_keys()[i], found[i]->Some_0.value@, comment_text(found[i]->Some_0.comment)],
    )
}

proof fn lemma_table_of_found(fields: Seq<HeaderField>, found: Seq<Option<HeaderValue>>)
    requires
        fields.len() == found.len(),
        found.len() == plate_keys().len(),
        forall|i: int|
            0 <= i < found.len() ==> field_matches(
                #[trigger] fields[i],
                plate_keys()[i],
                found[i]->Some_0,
            ),
    ensures
        metadata_table(fields) == found_table(found),
{
    assert(metadata_table(fields) =~~= found_table(found));
}

/// `{output_dir}/{plate_id}_{region}` for the identifier and region found.
pub open spec fn found_stem(found: Seq<Option<HeaderValue>>, output_dir: Seq<char>) -> Seq<char> {
    output_stem(
        output_dir,
        found_text(found, PLATEID_INDEX as int),
        found_text(found, REGION_INDEX as int),
    )
}

/// The metadata file written for a plate whose header held every key.
pub open spec fn metadata_written(
    m: MetadataOutput,
    found: Seq<Option<HeaderValue>>,
    output_dir: Seq<char>,
) -> bool {
    &&& m.path@ == found_stem(found, output_dir) + CSV_SUFFIX@
    &&& m.bytes@ == csv_records(found_table(found))
}

/// What the image step owes for a plate whose header held every key: a dimension
/// that is not a number, or a grid that does not match the dimensions, is reported
/// as such; with both right and neither dimension zero the image is produced; a
/// produced image is the normalized grid encoded at those dimensions.
pub open spec fn image_outcome(
    r: Result<ImageOutput, ProcessError>,
    found: Seq<Option<HeaderValue>>,
    samples: Seq<i16>,
    output_dir: Seq<char>,
) -> bool {
    let w = found_number(found, WIDTH_INDEX as int);
    let h = found_number(found, HEIGHT_INDEX as int);
    &&& (r matches Err(ProcessError::Header(HeaderError::InvalidDimension(_))))
        <==> !dimensions_valid(found)
    &&& dimensions_valid(found) ==> ((r matches Err(
        ProcessError::Encode(EncodeError::DimensionMismatch { .. }),
    )) <==> samples.len() != w * h)
    &&& dimensions_valid(found) && samples.len() == w * h && w > 0 && h > 0 ==> r is Ok
    &&& r matches Ok(o) ==> {
        &&& dimensions_valid(found)
        &&& samples.len() == w * h
        &&& o.path@ == found_stem(found, output_dir) + PNG_SUFFIX@
        &&& o.bytes@ == png_gray_of(w as u32, h as u32, normalized(samples))
    }
}

/// The metadata file of a plate: `found[i]` is what the header holds for the
/// `i`-th plate key. Every field is listed, and the file is named after the plate
/// identifier and region read from the header. The first missing key, if any, is
/// reported instead.
pub fn plate_metadata(found: &Vec<Option<HeaderValue>>, output_dir: &str) -> (r: Result<
    MetadataOutput,
    HeaderError,
>)
    requires
        found@.len() == plate_keys().len(),
    ensures
        r is Ok <==> all_present(found@),
        r matches Err(e) ==> e is MissingKey,
        r matches Err(HeaderError::MissingKey(k)) ==> exists|i: int|
            0 <= i < found@.len() && found@[i] is None && (forall|j: int|
                0 <= j < i ==> #[trigger] found@[j] is Some) && k@ == plate_keys()[i],
        r matches Ok(m) ==> metadata_written(m, found@, output_dir@),
{
    let keys = plate_header_keys();
    assert forall|i: int| 0 <= i < keys@.len() implies #[trigger] keys@[i]@ == plate_keys()[i] by {
        assert(keys@.map_values(|s: String| s@)[i] == keys@[i]@);
    }
    let fields = match extract(&keys, found) {
        Ok(f) => f,
        Err(e) => {
            return Err(e);
        },
    };
    proof {
        lemma_table_of_found(fields@, found@);
    }
    let bytes = metadata_csv(&fields);
    let plate_id = fields[PLATEID_INDEX].value.as_str();
    let region = fields[REGION_INDEX].value.as_str();
    Ok(MetadataOutput { path: metadata_path(output_dir, plate_id, region), bytes })
}

fn found_value(found: &Vec<Option<HeaderValue>>, i: usize) -> (r: &str)
    requires
        i < found@.len(),
        found@[i as int] is Some,
    ensures
        r@ == found_text(found@, i as int),
{
    match &found[i] {
        Some(v) => v.value.as_str(),
        None => vstd::pervasive::unreached(),
    }
}

/// The image file of a plate whose header held every key: the grid `samples`,
/// row by row, normalized and encoded at the width and height that the header
/// gives, named after the plate identifier and region read from the header.
pub fn plate_image(found: &Vec<Option<HeaderValue>>, samples: &Vec<i16>, output_dir: &str) -> (r:
    Result<ImageOutput, ProcessError>)
    requires
        found@.len() == plate_keys().len(),
        all_present(found@),
    ensures
        image_outcome(r, found@, samples@, output_dir@),
{
    let width = match parse_dimension(KEY_NAXIS1, found_value(found, WIDTH_INDEX)) {
        Ok(n) => n,
        Err(e) => {
            return Err(ProcessError::Header(e));
        },
    };
    let height = match parse_dimension(KEY_NAXIS2, found_value(found, HEIGHT_INDEX)) {
        Ok(n) => n,
        Err(e) => {
            return Err(ProcessError::Header(e));
        },
    };
    let raster = match encode(width, height, samples) {
        Ok(img) => img,
        Err(e) => {
            return Err(ProcessError::Encode(e));
        },
    };
    let bytes = match raster.to_png() {
        Ok(b) => b,
        Err(e) => {
            return Err(ProcessError::Encode(e));
        },
    };
    let path = image_path(
        output_dir,
        found_value(found, PLATEID_INDEX),
        found_value(found, REGION_INDEX),
    );
    Ok(ImageOutput { path, bytes })
}

/// Turns what was read from a fetched plate into its output files: `found[i]` is
/// what the header holds for the `i`-th plate key and `samples` the pixel grid,
/// row by row. When a key is missing nothing is produced. Otherwise the metadata
/// file is always produced, and the image beside it, or why there is none.
pub fn process_plate(found: &Vec<Option<HeaderValue>>, samples: &Vec<i16>, output_dir: &str) -> (r:
    Result<PlateOutputs, HeaderError>)
    requires
        found@.len() == plate_keys().len(),
    ensures
        r is Ok <==> all_present(found@),
        r matches Err(e) ==> e is MissingKey,
        r matches Err(HeaderError::MissingKey(k)) ==> exists|i: int|
            0 <= i < found@.len() && found@[i] is None && (forall|j: int|
                0 <= j < i ==> #[trigger] found@[j] is Some) && k@ == plate_keys()[i],
        r matches Ok(o) ==> metadata_written(o.metadata, found@, output_dir@) && image_outcome(
            o.image,
            found@,
            samples@,
            output_dir@,
        ),
{
    let metadata = match plate_metadata(found, output_dir) {
        Ok(m) => m,
        Err(e) => {
            return Err(e);
        },
    };
    let image = plate_image(found, samples, output_dir);
    Ok(PlateOutputs { metadata, image })
}

/// The metadata file of a plate whose header held every key has one row more
/// than there are plate keys: the column names, then one row per key in the
/// order of the keys, with an empty comment where the header has none. It does
/// not depend on the pixel grid or on the dimensions being usable.
pub proof fn lemma_plate_metadata_rows(found: Seq<Option<HeaderValue>>)
    requires
        found.len() == plate_keys().len(),
        all_present(found),
    ensures
        found_table(found).len() == 1 + plate_keys().len(),
        found_table(found)[0] == seq![COLUMN_KEY@, COLUMN_VALUE@, COLUMN_COMMENT@],
        forall|k: int|
            0 <= k < plate_keys().len() ==> #[trigger] found_table(found)[k + 1] == seq![
                plate_keys()[k],
                found[k]->Some_0.value@,
                comment_text(found[k]->Some_0.comment),
            ],
{
}

/// Where one plate stands in a pass over the catalog.
#[derive(Clone, Copy, Debug, PartialEq, Eq, Structural)]
pub enum PlateStage {
    Pending,
    Fetching,
    Processing,
    CleaningUp,
    Finished,
}

/// What happened to the plate since the last step.
#[derive(Clone, Copy, Debug, PartialEq, Eq, Structural)]
pub enum PlateEvent {
    Begin,
    FetchSucceeded,
    FetchNotFound,
    FetchFailed,
    ProcessSucceeded,
    ProcessFailed,
    Removed,
    RemoveFailed,
}

/// What the pass is to do next for the plate.
#[derive(Clone, Copy, Debug, PartialEq, Eq, Structural)]
pub enum PlateAction {
    /// Fetch the plate to its staging path.
    Fetch,
    /// Read and process the staged plate.
    Process,
    /// Delete the staged plate.
    Remove,
    /// Report how the plate ended and go on to the next identifier.
    Advance,
    /// The event does not apply at this stage; nothing to do.
    Ignore,
}

/// The per-plate transitions. A plate that was not fetched (absent from the
/// archive or failed) is never processed; a fetched plate is always removed
/// after processing, whether processing succeeded or not; every path ends by
/// advancing to the next identifier.
pub open spec fn plate_next(s: PlateStage, e: PlateEvent) -> (PlateStage, PlateAction) {
    match (s, e) {
        (PlateStage::Pending, PlateEvent::Begin) => (PlateStage::Fetching, PlateAction::Fetch),
        (PlateStage::Fetching, PlateEvent::FetchSucceeded) => (
            PlateStage::Processing,
            PlateAction::Process,
        ),
        (PlateStage::Fetching, PlateEvent::FetchNotFound) => (
            PlateStage::Finished,
            PlateAction::Advance,
        ),
        (PlateStage::Fetching, PlateEvent::FetchFailed) => (
            PlateStage::Finished,
            PlateAction::Advance,
        ),
        (PlateStage::Processing, PlateEvent::ProcessSucceeded) => (
            PlateStage::CleaningUp,
            PlateAction::Remove,
        ),
        (PlateStage::Processing, PlateEvent::ProcessFailed) => (
            PlateStage::CleaningUp,
            PlateAction::Remove,
        ),
        (PlateStage::CleaningUp, PlateEvent::Removed) => (
            PlateStage::Finished,
            PlateAction::Advance,
        ),
        (PlateStage::CleaningUp, PlateEvent::RemoveFailed) => (
            PlateStage::Finished,
            PlateAction::Advance,
        ),
        _ => (s, PlateAction::Ignore),
    }
}

impl PlateStage {
    /// Moves the plate on by one event and says what to do next.
    pub fn step(self, e: PlateEvent) -> (r: (PlateStage, PlateAction))
        ensures
            r == plate_next(self, e),
    {
        match (self, e) {
            (PlateStage::Pending, PlateEvent::Begin) => (PlateStage::Fetching, PlateAction::Fetch),
            (PlateStage::Fetching, PlateEvent::FetchSucceeded) => (
                PlateStage::Processing,
                PlateAction::Process,
            ),
            (PlateStage::Fetching, PlateEvent::FetchNotFound) | (
                PlateStage::Fetching,
                PlateEvent::FetchFailed,
            ) => (PlateStage::Finished, PlateAction::Advance),
            (PlateStage::Processing, PlateEvent::ProcessSucceeded) | (
                PlateStage::Processing,
                PlateEvent::ProcessFailed,
            ) => (PlateStage::CleaningUp, PlateAction::Remove),
            (PlateStage::CleaningUp, PlateEvent::Removed) | (
                PlateStage::CleaningUp,
                PlateEvent::RemoveFailed,
            ) => (PlateStage::Finished, PlateAction::Advance),
            (_, _) => (self, PlateAction::Ignore),
        }
    }
}

/// The actions of a run of events from `s`, one per event.
pub open spec fn plate_run(s: PlateStage, events: Seq<PlateEvent>) -> Seq<PlateAction>
    decreases events.len(),
{
    if events.len() == 0 {
        Seq::empty()
    } else {
        let (t, a) = plate_next(s, events[0]);
        seq![a] + plate_run(t, events.drop_first())
    }
}

proof fn lemma_finished_plate_is_idle(events: Seq<PlateEvent>)
    ensures
        plate_run(PlateStage::Finished, events).len() == events.len(),
        forall|i: int|
            0 <= i < events.len() ==> #[trigger] plate_run(PlateStage::Finished, events)[i]
                == PlateAction::Ignore,
    decreases events.len(),
{
    if events.len() > 0 {
        lemma_finished_plate_is_idle(events.drop_first());
    }
}

/// A plate that the archive does not have is never processed: after the fetch
/// reports it missing the pass advances to the next identifier, and no later
/// event makes it read the plate or delete a staged file.
pub proof fn lemma_missing_plate_is_skipped(events: Seq<PlateEvent>)
    requires
        events.len() >= 2,
        events[0] == PlateEvent::Begin,
        events[1] == PlateEvent::FetchNotFound,
    ensures
        plate_run(PlateStage::Pending, events)[1] == PlateAction::Advance,
        forall|i: int|
            0 <= i < events.len() ==> #[trigger] plate_run(PlateStage::Pending, events)[i]
                != PlateAction::Process && plate_run(PlateStage::Pending, events)[i]
                != PlateAction::Remove,
{
    let rest = events.drop_first();
    let rest2 = rest.drop_first();
    lemma_finished_plate_is_idle(rest2);
    let acts = plate_run(PlateStage::Pending, events);
    assert(plate_run(PlateStage::Fetching, rest) == seq![PlateAction::Advance] + plate_run(
        PlateStage::Finished,
        rest2,
    ));
    assert forall|i: int| 0 <= i < events.len() implies #[trigger] acts[i] != PlateAction::Process
        && acts[i] != PlateAction::Remove by {
        if i > 1 {
            assert(acts[i] == plate_run(PlateStage::Finished, rest2)[i - 2]);
        }
    }
}

} // verus!
