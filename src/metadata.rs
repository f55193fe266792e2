use crate::header::{field_matches, views, HeaderField, HeaderValue};
use vstd::prelude::*;

verus! {

pub const COLUMN_KEY: &'static str = "Key";
pub const COLUMN_VALUE: &'static str = "Value";
pub const COLUMN_COMMENT: &'static str = "Comment";
pub const CSV_SUFFIX: &'static str = "_header_values.csv";
pub const PNG_SUFFIX: &'static str = ".png";

/// The comment column of a field: the comment, or empty text when there is none.
pub open spec fn comment_text(c: Option<String>) -> Seq<char> {
    match c {
        Some(s) => s@,
        None => Seq::empty(),
    }
}

/// The metadata table: the column names, then one `key, value, comment` row per
/// field, in the order of the fields.
pub open spec fn metadata_table(fields: Seq<HeaderField>) -> Seq<Seq<Seq<char>>> {
    seq![seq![COLUMN_KEY@, COLUMN_VALUE@, COLUMN_COMMENT@]] + Seq::new(
        fields.len(),
        |i: int| seq![fields[i].key@, fields[i].value@, comment_text(fields[i].comment)],
    )
}

/// The bytes that the `csv` crate's writer, in its default configuration, emits for
/// one record with the given fields.
pub uninterp spec fn csv_record_of(fields: Seq<Seq<char>>) -> Seq<u8>;

/// The records of `table` encoded one after the other.
pub open spec fn csv_records(table: Seq<Seq<Seq<char>>>) -> Seq<u8>
    decreases table.len(),
{
    if table.len() == 0 {
        Seq::empty()
    } else {
        csv_records(table.drop_last()) + csv_record_of(table.last())
    }
}

/// Relies on `csv::Writer::from_writer`, `Writer::write_record` and
/// `Writer::into_inner` on an in-memory buffer: on success the buffer holds the
/// record as the writer encodes it by default, which depends on the fields alone.
/// Writing into a `Vec` cannot fail, and the first record of a fresh writer cannot
/// have an unequal length, so the record is always returned.
#[verifier::external_body]
fn csv_record(fields: &Vec<String>) -> (r: Option<Vec<u8>>)
    ensures
        r is Some,
        r matches Some(b) ==> b@ == csv_record_of(views(fields@)),
{
    let mut w = csv::Writer::from_writer(Vec::new());
    match w.write_record(fields) {
        Ok(()) => w.into_inner().ok(),
        Err(_) => None,
    }
}

fn comment_string(c: &Option<String>) -> (r: String)
    ensures
        r@ == comment_text(*c),
{
    match c {
        Some(s) => s.clone(),
        None => String::new(),
    }
}

/// The rows of the metadata file: the column names `Key, Value, Comment`, then
/// one row per field in the order received, with an empty comment where the
/// field has none.
pub fn metadata_rows(fields: &Vec<HeaderField>) -> (rows: Vec<Vec<String>>)
    ensures
        rows@.len() == 1 + fields@.len(),
        forall|i: int| 0 <= i < rows@.len() ==> views(#[trigger] rows@[i]@) == metadata_table(
            fields@,
        )[i],
{
    let mut rows: Vec<Vec<String>> = Vec::new();
    let mut head: Vec<String> = Vec::new();
    head.push(String::from_str(COLUMN_KEY));
    head.push(String::from_str(COLUMN_VALUE));
    head.push(String::from_str(COLUMN_COMMENT));
    assert(views(head@) =~= metadata_table(fields@)[0]);
    rows.push(head);
    let mut i: usize = 0;
    while i < fields.len()
        invariant
            i <= fields@.len(),
            rows@.len() == 1 + i,
            forall|j: int|
                0 <= j < rows@.len() ==> views(#[trigger] rows@[j]@) == metadata_table(fields@)[j],
        decreases fields@.len() - i,
    {
        let f = &fields[i];
        let mut row: Vec<String> = Vec::new();
        row.push(f.key.clone());
        row.push(f.value.clone());
        row.push(comment_string(&f.comment));
        assert(views(row@) =~= metadata_table(fields@)[i + 1]);
        rows.push(row);
        i = i + 1;
    }
    rows
}

/// The metadata file: every row of `metadata_rows` encoded as a CSV record, in
/// order.
pub fn metadata_csv(fields: &Vec<HeaderField>) -> (r: Vec<u8>)
    ensures
        r@ == csv_records(metadata_table(fields@)),
{
    let rows = metadata_rows(fields);
    let ghost table = metadata_table(fields@);
    let mut out: Vec<u8> = Vec::new();
    let mut i: usize = 0;
    while i < rows.len()
        invariant
            i <= rows@.len(),
            rows@.len() == table.len(),
            table == metadata_table(fields@),
            forall|j: int| 0 <= j < rows@.len() ==> views(#[trigger] rows@[j]@) == table[j],
            out@ == csv_records(table.subrange(0, i as int)),
        decreases rows@.len() - i,
    {
        let mut b = match csv_record(&rows[i]) {
            Some(b) => b,
            None => vstd::pervasive::unreached(),
        };
        proof {
            let next = table.subrange(0, i as int + 1);
            assert(next.drop_last() =~= table.subrange(0, i as int));
        }
        out.append(&mut b);
        i = i + 1;
    }
    assert(table.subrange(0, table.len() as int) =~= table);
    out
}

/// `{output_dir}/{plate_id}_{region}`, the stem of a plate's output files.
pub open spec fn output_stem(output_dir: Seq<char>, plate_id: Seq<char>, region: Seq<char>) -> Seq<
    char,
> {
    output_dir + seq!['/'] + plate_id + seq!['_'] + region
}

fn stem(output_dir: &str, plate_id: &str, region: &str) -> (r: String)
    ensures
        r@ == output_stem(output_dir@, plate_id@, region@),
{
    proof {
        reveal_strlit("/");
        reveal_strlit("_");
    }
    let mut s = String::from_str(output_dir);
    s.append("/");
    s.append(plate_id);
    s.append("_");
    s.append(region);
    s
}

/// `{output_dir}/{plate_id}_{region}_header_values.csv`.
pub fn metadata_path(output_dir: &str, plate_id: &str, region: &str) -> (r: String)
    ensures
        r@ == output_stem(output_dir@, plate_id@, region@) + CSV_SUFFIX@,
{
    let mut s = stem(output_dir, plate_id, region);
    s.append(CSV_SUFFIX);
    s
}

/// `{output_dir}/{plate_id}_{region}.png`.
pub fn image_path(output_dir: &str, plate_id: &str, region: &str) -> (r: String)
    ensures
        r@ == output_stem(output_dir@, plate_id@, region@) + PNG_SUFFIX@,
{
    let mut s = stem(output_dir, plate_id, region);
    s.append(PNG_SUFFIX);
    s
}


/// The metadata of fields extracted for `keys` has exactly one row more than
/// there are keys: the column names, then one row per key, in the order of the keys.
pub proof fn lemma_rows_follow_keys(
    keys: Seq<String>,
    found: Seq<Option<HeaderValue>>,
    fields: Seq<HeaderField>,
)
    requires
        fields.len() == keys.len(),
        found.len() == keys.len(),
        forall|i: int|
            0 <= i < keys.len() ==> field_matches(#[trigger] fields[i], keys[i]@, found[i]->Some_0),
    ensures
        metadata_table(fields).len() == 1 + keys.len(),
        metadata_table(fields)[0] == seq![COLUMN_KEY@, COLUMN_VALUE@, COLUMN_COMMENT@],
        forall|i: int|
            0 <= i < keys.len() ==> (#[trigger] metadata_table(fields)[i + 1]) == seq![
                keys[i]@,
                found[i]->Some_0.value@,
                comment_text(found[i]->Some_0.comment),
            ],
{
    assert forall|i: int| 0 <= i < keys.len() implies (#[trigger] metadata_table(fields)[i + 1])
        == seq![keys[i]@, found[i]->Some_0.value@, comment_text(found[i]->Some_0.comment)] by {
        assert(field_matches(fields[i], keys[i]@, found[i]->Some_0));
        assert(metadata_table(fields)[i + 1] =~= seq![
            keys[i]@,
            found[i]->Some_0.value@,
            comment_text(found[i]->Some_0.comment),
        ]);
    }
}

} // verus!
