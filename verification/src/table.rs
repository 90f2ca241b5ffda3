use vstd::prelude::*;

verus! {

/// A writer of the `csv` crate that writes to memory. Nothing inside it is
/// visible to the proofs.
#[verifier::external_body]
pub struct TableWriter {
    inner: csv::Writer<Vec<u8>>,
}

/// What the fields of a row stand for.
pub open spec fn texts(fields: Seq<String>) -> Seq<Seq<char>> {
    fields.map_values(|field: String| field@)
}

/// What the rows of a table stand for. A row that could not be read stands
/// for nothing.
pub open spec fn rows_read(rows: Seq<Option<Vec<String>>>) -> Seq<Option<Seq<Seq<char>>>> {
    rows.map_values(
        |row: Option<Vec<String>>|
            match row {
                Some(fields) => Some(texts(fields@)),
                None => None,
            },
    )
}

/// The rows that the `csv` crate reads from a table behind its first line,
/// which holds the names of the columns. A row that it refuses, because it
/// is no text or has another number of fields than the first line, is `None`.
pub uninterp spec fn csv_records(data: Seq<u8>) -> Seq<Option<Seq<Seq<char>>>>;

/// The rows that were written to a writer of the `csv` crate, in their order.
pub uninterp spec fn csv_written(writer: TableWriter) -> Seq<Seq<Seq<char>>>;

/// The bytes that a writer of the `csv` crate hands back after the given
/// rows were written to it.
pub uninterp spec fn csv_bytes(rows: Seq<Seq<Seq<char>>>) -> Seq<u8>;

/// Reads the rows of a table with the `csv` crate: a reader built by
/// `csv::ReaderBuilder` that takes the first line for the names of the
/// columns, and its `records`. Each row that the reader hands out is there
/// with its fields, and each that it refuses is `None`.
#[verifier::external_body]
pub(crate) fn read_records(data: &Vec<u8>) -> (rows: Vec<Option<Vec<String>>>)
    ensures
        rows_read(rows@) == csv_records(data@),
{
    let mut reader = csv::ReaderBuilder::new().has_headers(true).from_reader(data.as_slice());
    reader.records().map(
        |row| row.ok().map(|record| record.iter().map(String::from).collect()),
    ).collect()
}

/// A writer of the `csv` crate that writes to memory, built by
/// `csv::WriterBuilder`. Nothing is written to it yet.
#[verifier::external_body]
pub(crate) fn new_writer() -> (writer: TableWriter)
    ensures
        csv_written(writer) == Seq::<Seq<Seq<char>>>::empty(),
{
    TableWriter { inner: csv::WriterBuilder::new().has_headers(true).from_writer(Vec::new()) }
}

/// Writes one row with `csv::Writer::write_record`. Where the writer takes
/// the row it is handed back with the row behind those it held. Where it
/// refuses the row the writer is given up. The writer refuses no first row,
/// and no row with as many fields as the first: it writes to memory, and
/// what it checks of a row is that number.
#[verifier::external_body]
pub(crate) fn write_record(writer: TableWriter, fields: &Vec<String>) -> (written: Option<
    TableWriter,
>)
    ensures
        written matches Some(after) ==> csv_written(after) == csv_written(writer).push(
            texts(fields@),
        ),
        csv_written(writer).len() == 0 || csv_written(writer)[0].len() == fields@.len()
            ==> written is Some,
{
    let mut writer = writer;
    match writer.inner.write_record(fields) {
        Ok(()) => Some(writer),
        Err(_) => None,
    }
}

/// Ends a writer with `csv::Writer::into_inner` and hands back the bytes it
/// wrote. A writer to memory does not fail to hand them over.
#[verifier::external_body]
pub(crate) fn finish_writer(writer: TableWriter) -> (bytes: Option<Vec<u8>>)
    ensures
        bytes matches Some(bytes) && bytes@ == csv_bytes(csv_written(writer)),
{
    writer.inner.into_inner().ok()
}

} // verus!
