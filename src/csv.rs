//! CSV documents: a header row naming the fields, then one record per row.
//! Decoding makes each record an object of strings keyed by the headers;
//! encoding writes an array of objects (or one object) as header and rows.
use vstd::prelude::*;
use crate::codec::{decoded_as, encoded_as};
use crate::error::FormatError;

verus! {

/// The header row that the `csv` reader finds in the bytes (`None` if it
/// cannot read it), and each following record's fields, or `None` for a
/// record it could not read.
pub uninterp spec fn csv_rows_of(b: Seq<u8>) -> Option<(Seq<Seq<char>>, Seq<Option<Seq<Seq<char>>>>)>;

/// The object whose entries are the given key/string pairs, as `serde_json::Map` collects them.
pub uninterp spec fn object_of(pairs: Seq<(Seq<char>, Seq<char>)>) -> serde_json::Value;

/// The array holding the given values in order.
pub uninterp spec fn array_of(items: Seq<serde_json::Value>) -> serde_json::Value;

/// What a value is made of, as far as CSV encoding looks.
pub uninterp spec fn shape_of(v: serde_json::Value) -> ShapeModel;

/// The text of a string value, or `None` for any other value.
pub uninterp spec fn string_of(v: serde_json::Value) -> Option<Seq<char>>;

/// The compact JSON text of a value, as its `Display` writes it.
pub uninterp spec fn compact_of(v: serde_json::Value) -> Seq<char>;

/// The text of a cell: a string as it is, any other value as compact JSON.
pub open spec fn cell_of(v: serde_json::Value) -> Seq<char> {
    match string_of(v) {
        Some(s) => s,
        None => compact_of(v),
    }
}

/// The bytes that the `csv` writer produces for the rows, if it succeeds.
pub uninterp spec fn csv_bytes_of(rows: Seq<Seq<Seq<char>>>) -> Option<Seq<u8>>;

/// A value as CSV encoding sees it: an array, an object's entries, or anything else.
pub enum Shape {
    Array(Vec<serde_json::Value>),
    Object(Vec<(String, serde_json::Value)>),
    Scalar,
}

/// Model of a [`Shape`].
pub enum ShapeModel {
    Array(Seq<serde_json::Value>),
    Object(Seq<(Seq<char>, serde_json::Value)>),
    Scalar,
}

/// Model of an entry list.
pub open spec fn entries_view(v: Seq<(String, serde_json::Value)>) -> Seq<(Seq<char>, serde_json::Value)> {
    v.map_values(|p: (String, serde_json::Value)| (p.0@, p.1))
}

/// Model of a [`Shape`].
pub open spec fn shape_view(s: Shape) -> ShapeModel {
    match s {
        Shape::Array(a) => ShapeModel::Array(a@),
        Shape::Object(o) => ShapeModel::Object(entries_view(o@)),
        Shape::Scalar => ShapeModel::Scalar,
    }
}

/// Model of a table of rows.
pub open spec fn rows_view(v: Seq<Vec<String>>) -> Seq<Seq<Seq<char>>> {
    v.map_values(|r: Vec<String>| crate::text::strings_view(r@))
}

/// Models of per-record read results.
pub open spec fn row_results_view(v: Seq<Result<Vec<String>, FormatError>>) -> Seq<Option<Seq<Seq<char>>>> {
    v.map_values(|r: Result<Vec<String>, FormatError>| match r {
        Ok(x) => Some(crate::text::strings_view(x@)),
        Err(_) => None,
    })
}

/// Relies on `csv::Reader` with a header row: the headers, then each record's
/// fields or the reader's error for that record.
#[verifier::external_body]
fn read_rows(b: &[u8]) -> (r: Result<(Vec<String>, Vec<Result<Vec<String>, FormatError>>), FormatError>)
    ensures
        match r {
            Ok((h, rows)) => csv_rows_of(b@) == Some((crate::text::strings_view(h@), row_results_view(rows@)))
                && forall|i: int| 0 <= i < rows@.len() ==> (#[trigger] rows@[i] matches Err(e) ==> e@ is Serde),
            Err(e) => csv_rows_of(b@) is None && e@ is Serde,
        },
{
    let mut rdr = csv::ReaderBuilder::new().has_headers(true).from_reader(b);
    let headers = rdr.headers().map_err(|e| FormatError::Serde(e.to_string()))?;
    let headers: Vec<String> = headers.iter().map(|h| h.to_string()).collect();
    let rows = rdr
        .records()
        .map(|rec| rec.map(|r| r.iter().map(|f| f.to_string()).collect()).map_err(|e| FormatError::Serde(e.to_string())))
        .collect();
    Ok((headers, rows))
}

/// Relies on `serde_json::Map`'s `FromIterator`, building an object of strings.
#[verifier::external_body]
fn string_object(pairs: Vec<(String, String)>) -> (r: serde_json::Value)
    ensures
        r == object_of(pairs@.map_values(|p: (String, String)| (p.0@, p.1@))),
{
    serde_json::Value::Object(pairs.into_iter().map(|(k, v)| (k, serde_json::Value::String(v))).collect())
}

/// Relies on `serde_json::Value::Array`, holding the values in order.
#[verifier::external_body]
pub(crate) fn array_value(items: Vec<serde_json::Value>) -> (r: serde_json::Value)
    ensures
        r == array_of(items@),
{
    serde_json::Value::Array(items)
}

/// Relies on `serde_json::Value`'s variants: an array's items, an object's entries, or neither.
#[verifier::external_body]
fn shape(v: &serde_json::Value) -> (r: Shape)
    ensures
        shape_view(r) == shape_of(*v),
{
    match v {
        serde_json::Value::Array(a) => Shape::Array(a.clone()),
        serde_json::Value::Object(o) => Shape::Object(o.iter().map(|(k, x)| (k.clone(), x.clone())).collect()),
        _ => Shape::Scalar,
    }
}

/// Relies on `serde_json::Value::String`: the text of a string value.
#[verifier::external_body]
fn as_string(v: &serde_json::Value) -> (r: Option<String>)
    ensures
        match r {
            Some(t) => string_of(*v) == Some(t@),
            None => string_of(*v) is None,
        },
{
    match v {
        serde_json::Value::String(t) => Some(t.clone()),
        _ => None,
    }
}

/// Relies on `serde_json::Value`'s `Display`: the value as compact JSON.
#[verifier::external_body]
fn compact_json(v: &serde_json::Value) -> (r: String)
    ensures
        r@ == compact_of(*v),
{
    v.to_string()
}

/// The text of a cell: a string as it is, any other value as compact JSON.
fn cell_text(v: &serde_json::Value) -> (r: String)
    ensures
        r@ == cell_of(*v),
{
    match as_string(v) {
        Some(t) => t,
        None => compact_json(v),
    }
}

/// Relies on `csv::Writer`, writing each row as one record.
#[verifier::external_body]
fn csv_write(rows: &Vec<Vec<String>>) -> (r: Result<Vec<u8>, FormatError>)
    ensures
        encoded_as(r, csv_bytes_of(rows_view(rows@))),
{
    let mut wtr = csv::Writer::from_writer(Vec::new());
    for row in rows {
        wtr.write_record(row).map_err(|e| FormatError::Serde(e.to_string()))?;
    }
    wtr.into_inner().map_err(|e| FormatError::Serde(e.to_string()))
}

/// A record keyed by the headers: field `i` under header `i`, fields without a header dropped.
pub open spec fn keyed(h: Seq<Seq<char>>, rec: Seq<Seq<char>>) -> Seq<(Seq<char>, Seq<char>)> {
    let n = if rec.len() < h.len() {
        rec.len()
    } else {
        h.len()
    };
    Seq::new(n as nat, |i: int| (h[i], rec[i]))
}

/// The object of one record.
pub open spec fn record_value(h: Seq<Seq<char>>, rec: Seq<Seq<char>>) -> serde_json::Value {
    object_of(keyed(h, rec))
}

/// Whether every record was read.
pub open spec fn all_rows_read(rows: Seq<Option<Seq<Seq<char>>>>) -> bool {
    forall|i: int| 0 <= i < rows.len() ==> #[trigger] rows[i] is Some
}

/// What a CSV document decodes to: the array of its records' objects, when
/// the header and every record could be read.
pub open spec fn csv_value(b: Seq<u8>) -> Option<serde_json::Value> {
    match csv_rows_of(b) {
        Some((h, rows)) => if all_rows_read(rows) {
            Some(array_of(rows.map_values(|r: Option<Seq<Seq<char>>>| record_value(h, r.unwrap()))))
        } else {
            None
        },
        None => None,
    }
}

/// The records of a CSV document, one object per record read and a failure
/// per record not read; a single failure when the header cannot be read.
pub open spec fn csv_records(b: Seq<u8>) -> Seq<Option<serde_json::Value>> {
    match csv_rows_of(b) {
        Some((h, rows)) => rows.map_values(|r: Option<Seq<Seq<char>>>| match r {
            Some(x) => Some(record_value(h, x)),
            None => None,
        }),
        None => seq![None],
    }
}

/// The object of one record.
fn record_object(h: &Vec<String>, rec: &Vec<String>) -> (r: serde_json::Value)
    ensures
        r == record_value(crate::text::strings_view(h@), crate::text::strings_view(rec@)),
{
    let n = if rec.len() < h.len() {
        rec.len()
    } else {
        h.len()
    };
    let mut pairs: Vec<(String, String)> = Vec::new();
    let mut i: usize = 0;
    while i < n
        invariant
            n <= h@.len(),
            n <= rec@.len(),
            i <= n,
            pairs@.len() == i,
            forall|j: int|
                0 <= j < i ==> (#[trigger] pairs@[j]).0@ == h@[j]@ && pairs@[j].1@ == rec@[j]@,
        decreases n - i,
    {
        pairs.push((h[i].clone(), rec[i].clone()));
        i = i + 1;
    }
    let ghost k = keyed(crate::text::strings_view(h@), crate::text::strings_view(rec@));
    assert(pairs@.map_values(|p: (String, String)| (p.0@, p.1@)) =~= k);
    string_object(pairs)
}

/// Decodes a CSV document into the array of its records' objects.
pub fn decode_csv(b: &[u8]) -> (r: Result<serde_json::Value, FormatError>)
    ensures
        decoded_as(r, csv_value(b@)),
{
    let (h, rows) = read_rows(b)?;
    let ghost hv = crate::text::strings_view(h@);
    let ghost rv = row_results_view(rows@);
    let mut objs: Vec<serde_json::Value> = Vec::new();
    let mut i: usize = 0;
    while i < rows.len()
        invariant
            hv == crate::text::strings_view(h@),
            rv == row_results_view(rows@),
            csv_rows_of(b@) == Some((hv, rv)),
            i <= rows@.len(),
            objs@.len() == i,
            forall|j: int| 0 <= j < i ==> #[trigger] rv[j] is Some,
            forall|j: int| 0 <= j < i ==> #[trigger] objs@[j] == record_value(hv, rv[j].unwrap()),
            forall|j: int| 0 <= j < rows@.len() ==> (#[trigger] rows@[j] matches Err(e) ==> e@ is Serde),
        decreases rows.len() - i,
    {
        match &rows[i] {
            Ok(rec) => {
                assert(rv[i as int] == Some(crate::text::strings_view(rec@)));
                objs.push(record_object(&h, rec));
            },
            Err(e) => {
                assert(rv[i as int] is None);
                assert(!all_rows_read(rv));
                assert(e@ is Serde);
                return Err(e.duplicate());
            },
        }
        i = i + 1;
    }
    assert(all_rows_read(rv));
    assert(objs@ =~= rv.map_values(|r: Option<Seq<Seq<char>>>| record_value(hv, r.unwrap())));
    Ok(array_value(objs))
}

/// Decodes a CSV document record by record.
pub fn decode_csv_records(b: &[u8]) -> (r: Vec<Result<serde_json::Value, FormatError>>)
    ensures
        crate::codec::stream_as(r@, csv_records(b@)),
{
    let mut out: Vec<Result<serde_json::Value, FormatError>> = Vec::new();
    match read_rows(b) {
        Err(e) => {
            out.push(Err(e));
            out
        },
        Ok((h, rows)) => {
            let ghost named = csv_records(b@);
            let mut i: usize = 0;
            while i < rows.len()
                invariant
                    named == csv_records(b@),
                    csv_rows_of(b@) == Some((crate::text::strings_view(h@), row_results_view(rows@))),
                    forall|j: int| 0 <= j < rows@.len() ==> (#[trigger] rows@[j] matches Err(e) ==> e@ is Serde),
                    i <= rows@.len(),
                    out@.len() == i,
                    forall|j: int| 0 <= j < i ==> crate::codec::decoded_as(#[trigger] out@[j], named[j]),
                decreases rows.len() - i,
            {
                let item = match &rows[i] {
                    Ok(rec) => Ok(record_object(&h, rec)),
                    Err(e) => Err(e.duplicate()),
                };
                out.push(item);
                i = i + 1;
            }
            out
        },
    }
}

/// The cells of an object's values, in entry order.
pub open spec fn object_cells(o: Seq<(Seq<char>, serde_json::Value)>) -> Seq<Seq<char>> {
    o.map_values(|p: (Seq<char>, serde_json::Value)| cell_of(p.1))
}

/// The keys of an object, in entry order.
pub open spec fn object_keys(o: Seq<(Seq<char>, serde_json::Value)>) -> Seq<Seq<char>> {
    o.map_values(|p: (Seq<char>, serde_json::Value)| p.0)
}

/// The rows of the first `n` items: one per item that is an object.
pub open spec fn item_rows(items: Seq<serde_json::Value>, n: int) -> Seq<Seq<Seq<char>>>
    decreases n,
{
    if n <= 0 || n > items.len() {
        seq![]
    } else {
        match shape_of(items[n - 1]) {
            ShapeModel::Object(o) => item_rows(items, n - 1).push(object_cells(o)),
            _ => item_rows(items, n - 1),
        }
    }
}

/// The rows that CSV encoding writes for a value, or `None` when it is neither
/// an array nor an object: for an array, the first item's keys (if it is an
/// object) then a row per object item; for an object, its keys then its cells.
pub open spec fn csv_rows(v: serde_json::Value) -> Option<Seq<Seq<Seq<char>>>> {
    match shape_of(v) {
        ShapeModel::Array(items) => {
            let head = if items.len() > 0 && shape_of(items[0]) is Object {
                seq![object_keys(shape_of(items[0])->Object_0)]
            } else {
                seq![]
            };
            Some(head + item_rows(items, items.len() as int))
        },
        ShapeModel::Object(o) => Some(seq![object_keys(o), object_cells(o)]),
        ShapeModel::Scalar => None,
    }
}

/// Keys and cells of an object's entries.
fn keys_and_cells(o: &Vec<(String, serde_json::Value)>) -> (r: (Vec<String>, Vec<String>))
    ensures
        crate::text::strings_view(r.0@) == object_keys(entries_view(o@)),
        crate::text::strings_view(r.1@) == object_cells(entries_view(o@)),
{
    let mut keys: Vec<String> = Vec::new();
    let mut cells: Vec<String> = Vec::new();
    let mut i: usize = 0;
    while i < o.len()
        invariant
            i <= o@.len(),
            keys@.len() == i,
            cells@.len() == i,
            forall|j: int| 0 <= j < i ==> (#[trigger] keys@[j])@ == o@[j].0@,
            forall|j: int| 0 <= j < i ==> (#[trigger] cells@[j])@ == cell_of(o@[j].1),
        decreases o.len() - i,
    {
        keys.push(o[i].0.clone());
        cells.push(cell_text(&o[i].1));
        i = i + 1;
    }
    assert(crate::text::strings_view(keys@) =~= object_keys(entries_view(o@)));
    assert(crate::text::strings_view(cells@) =~= object_cells(entries_view(o@)));
    (keys, cells)
}

/// Encodes a value as CSV.
pub fn encode_csv(v: &serde_json::Value) -> (r: Result<Vec<u8>, FormatError>)
    ensures
        match csv_rows(*v) {
            Some(rows) => encoded_as(r, csv_bytes_of(rows)),
            None => r matches Err(e) && e@ is Other,
        },
{
    let mut rows: Vec<Vec<String>> = Vec::new();
    match shape(v) {
        Shape::Array(items) => {
            if items.len() > 0 {
                if let Shape::Object(o) = shape(&items[0]) {
                    let (keys, _) = keys_and_cells(&o);
                    rows.push(keys);
                }
            }
            let ghost head = rows_view(rows@);
            let mut i: usize = 0;
            while i < items.len()
                invariant
                    i <= items@.len(),
                    rows_view(rows@) == head + item_rows(items@, i as int),
                decreases items.len() - i,
            {
                if let Shape::Object(o) = shape(&items[i]) {
                    let (_, cells) = keys_and_cells(&o);
                    let ghost before = rows_view(rows@);
                    rows.push(cells);
                    proof {
                        assert(shape_of(items@[i as int]) == ShapeModel::Object(entries_view(o@)));
                        assert(item_rows(items@, i + 1) == item_rows(items@, i as int).push(
                            object_cells(entries_view(o@)),
                        ));
                        assert(rows_view(rows@) =~= before.push(crate::text::strings_view(cells@)));
                    }
                    assert(rows_view(rows@) =~= head + item_rows(items@, i + 1));
                } else {
                    assert(rows_view(rows@) =~= head + item_rows(items@, i + 1));
                }
                i = i + 1;
            }
            assert(rows_view(rows@) =~= csv_rows(*v).unwrap());
            csv_write(&rows)
        },
        Shape::Object(o) => {
            let (keys, cells) = keys_and_cells(&o);
            rows.push(keys);
            rows.push(cells);
            assert(rows_view(rows@) =~= csv_rows(*v).unwrap());
            csv_write(&rows)
        },
        Shape::Scalar => Err(FormatError::Other(String::from_str("CSV format requires an array or object"))),
    }
}

} // verus!
