//! From a snapshot of the record set to the persisted configuration and its
//! JSON text.
//!
//! The file is one JSON object, written without white space:
//! `{"name":<string>,"components":[<record>,...]}`, where each record is
//! `{"threshold":<number>,"count":<integer>,"filename":<string>}` and the
//! records stand in row order.

use vstd::prelude::*;
use vstd::utf8::encode_utf8;
use crate::coercion::{
    coerce_count, coerce_threshold, count_or_zero, decimal_i32, digit_value, digits_value,
    has_sign, is_decimal_digit, is_decimal_integer, reading_view, signed_value, threshold_or_zero,
    unsigned_part,
};
use crate::json::{
    comma_separated, decimal_text, digit_char, document_frame, frame_document, frame_record,
    json_i32, json_string, json_string_text, natural_text, record_frame, texts_view,
};
use crate::record_set::{ContractViolation, RecordSetView, RowView, Snapshot};

verus! {

/// One component as it is persisted.
#[derive(Debug, Clone, PartialEq, Eq)]
pub struct ComponentRecord {
    /// The similarity threshold, held as the JSON number that writes it.
    pub threshold: String,
    pub count: i32,
    pub filename: String,
}

/// The persisted form of a record set: the board name and one record per row.
/// The path of the board's reference image is not part of it.
#[derive(Debug, Clone, PartialEq, Eq)]
pub struct SerializedConfig {
    pub name: String,
    pub components: Vec<ComponentRecord>,
}

/// The content of one persisted record.
pub struct RecordView {
    pub threshold: Seq<char>,
    pub count: i32,
    pub filename: Seq<char>,
}

/// The content of a persisted configuration.
pub struct ConfigView {
    pub name: Seq<char>,
    pub components: Seq<RecordView>,
}

impl View for ComponentRecord {
    type V = RecordView;

    open spec fn view(&self) -> RecordView {
        RecordView { threshold: self.threshold@, count: self.count, filename: self.filename@ }
    }
}

impl View for SerializedConfig {
    type V = ConfigView;

    open spec fn view(&self) -> ConfigView {
        ConfigView {
            name: self.name@,
            components: Seq::new(self.components@.len(), |i: int| self.components@[i]@),
        }
    }
}

/// The readings of all rows, as texts.
pub open spec fn readings_view(readings: Seq<Option<String>>) -> Seq<Option<Seq<char>>> {
    Seq::new(readings.len(), |i: int| reading_view(readings[i]))
}

/// The record that a row is persisted as, given what was read in its
/// threshold text: the threshold read or `0.0`, the count written in the
/// count text or 0, and the image path as it stands.
pub open spec fn record_of(row: RowView, reading: Option<Seq<char>>) -> RecordView {
    RecordView {
        threshold: threshold_or_zero(reading),
        count: count_or_zero(row.count_text),
        filename: row.image_path,
    }
}

/// The configuration that a record set is persisted as: the board name as it
/// stands and, for each row in row order, the record of that row.
pub open spec fn config_of(set: RecordSetView, readings: Seq<Option<Seq<char>>>) -> ConfigView {
    ConfigView {
        name: set.name,
        components: Seq::new(set.rows.len(), |i: int| record_of(set.rows[i], readings[i])),
    }
}

/// Turns a snapshot into the configuration to persist.
///
/// `readings` holds, for each row in row order, what the floating-point side
/// read in the row's threshold text: the JSON number of the value, or `None`
/// where the text is no finite number. Handing over another number of
/// readings than there are rows is refused with `ReadingCountMismatch`.
pub fn to_config(snapshot: &Snapshot, readings: &Vec<Option<String>>) -> (outcome: Result<
    SerializedConfig,
    ContractViolation,
>)
    ensures
        readings.len() == snapshot.rows.len() ==> outcome is Ok && outcome->Ok_0@ == config_of(
            snapshot@,
            readings_view(readings@),
        ),
        readings.len() != snapshot.rows.len() ==> outcome is Err && outcome->Err_0
            == ContractViolation::ReadingCountMismatch,
{
    if readings.len() != snapshot.rows.len() {
        return Err(ContractViolation::ReadingCountMismatch);
    }
    let ghost target = config_of(snapshot@, readings_view(readings@));
    let mut components: Vec<ComponentRecord> = Vec::new();
    let mut i: usize = 0;
    while i < snapshot.rows.len()
        invariant
            i <= snapshot.rows.len(),
            readings.len() == snapshot.rows.len(),
            components.len() == i,
            target == config_of(snapshot@, readings_view(readings@)),
            forall|j: int| 0 <= j < i ==> (#[trigger] components[j])@ == target.components[j],
        decreases snapshot.rows.len() - i,
    {
        let row = &snapshot.rows[i];
        let record = ComponentRecord {
            threshold: coerce_threshold(&readings[i]),
            count: coerce_count(row.count_text.as_str()),
            filename: row.image_path.clone(),
        };
        assert(record@ == record_of(snapshot@.rows[i as int], readings_view(readings@)[i as int]));
        components.push(record);
        i += 1;
    }
    let config = SerializedConfig { name: snapshot.descriptor.name.clone(), components };
    assert(config@.components =~= target.components);
    Ok(config)
}

/// The JSON object that a record is written as.
pub open spec fn record_text(record: RecordView) -> Seq<char> {
    record_frame(record.threshold, decimal_text(record.count as int), json_string_text(record.filename))
}

/// The JSON objects of all records, in order.
pub open spec fn record_texts(components: Seq<RecordView>) -> Seq<Seq<char>> {
    Seq::new(components.len(), |i: int| record_text(components[i]))
}

/// The JSON text that a configuration is written as.
pub open spec fn document_text(config: ConfigView) -> Seq<char> {
    document_frame(json_string_text(config.name), record_texts(config.components))
}

/// Renders a configuration as the bytes of its JSON text, in UTF-8.
pub fn to_bytes(config: &SerializedConfig) -> (bytes: Vec<u8>)
    ensures
        bytes@ == encode_utf8(document_text(config@)),
{
    let ghost target = record_texts(config@.components);
    let mut records: Vec<String> = Vec::new();
    let mut i: usize = 0;
    while i < config.components.len()
        invariant
            i <= config.components.len(),
            records.len() == i,
            target == record_texts(config@.components),
            forall|j: int| 0 <= j < i ==> (#[trigger] records[j])@ == target[j],
        decreases config.components.len() - i,
    {
        let record = &config.components[i];
        let count = json_i32(record.count);
        let filename = json_string(record.filename.as_str());
        records.push(frame_record(record.threshold.as_str(), count.as_str(), filename.as_str()));
        i += 1;
    }
    assert(texts_view(records@) =~= target);
    let name = json_string(config.name.as_str());
    let text = frame_document(name.as_str(), &records);
    text.as_str().as_bytes_vec()
}

/// Computes the bytes of the configuration file for a snapshot: `to_config`
/// followed by `to_bytes`. Putting them into a file is left to the caller.
///
/// As in `to_config`, another number of readings than there are rows is
/// refused with `ReadingCountMismatch`.
pub fn write_to_json(snapshot: &Snapshot, readings: &Vec<Option<String>>) -> (outcome: Result<
    Vec<u8>,
    ContractViolation,
>)
    ensures
        readings.len() == snapshot.rows.len() ==> outcome is Ok && outcome->Ok_0@ == encode_utf8(
            document_text(config_of(snapshot@, readings_view(readings@))),
        ),
        readings.len() != snapshot.rows.len() ==> outcome is Err && outcome->Err_0
            == ContractViolation::ReadingCountMismatch,
{
    match to_config(snapshot, readings) {
        Ok(config) => Ok(to_bytes(&config)),
        Err(violation) => Err(violation),
    }
}

/// The records are written in row order: the record at position `i` of the
/// configuration is the record of row `i`, whatever was edited and when.
pub proof fn lemma_config_keeps_row_order(set: RecordSetView, readings: Seq<Option<Seq<char>>>, i: int)
    requires
        set.has_row(i),
    ensures
        config_of(set, readings).components.len() == set.rows.len(),
        config_of(set, readings).components[i] == record_of(set.rows[i], readings[i]),
        config_of(set, readings).name == set.name,
        record_texts(config_of(set, readings).components)[i] == record_text(
            record_of(set.rows[i], readings[i]),
        ),
{
}

/// A record set without rows is written as the object that holds the board
/// name and an empty array of components.
pub proof fn lemma_empty_record_set_document(set: RecordSetView, readings: Seq<Option<Seq<char>>>)
    requires
        set.rows.len() == 0,
    ensures
        config_of(set, readings).components.len() == 0,
        document_text(config_of(set, readings)) == "{\"name\":"@ + json_string_text(set.name)
            + ",\"components\":["@ + "]}"@,
{
    assert(comma_separated(record_texts(config_of(set, readings).components)) =~= Seq::<char>::empty());
    assert(document_text(config_of(set, readings)) =~= "{\"name\":"@ + json_string_text(set.name)
        + ",\"components\":["@ + "]}"@);
}

/// A natural number written in base ten is a non-empty run of digits whose
/// value is that number.
pub proof fn lemma_natural_text_reads_back(n: nat)
    ensures
        natural_text(n).len() > 0,
        forall|i: int| 0 <= i < natural_text(n).len() ==> is_decimal_digit(#[trigger] natural_text(n)[i]),
        digits_value(natural_text(n)) == n,
    decreases n,
{
    if n < 10 {
        let text = natural_text(n);
        assert(text.drop_last() =~= Seq::<char>::empty());
        assert(digits_value(text.drop_last()) == 0);
        assert(text.last() == digit_char(n as int));
        assert(digit_value(digit_char(n as int)) == n);
    } else {
        lemma_natural_text_reads_back(n / 10);
        let text = natural_text(n);
        let digit = digit_char((n % 10) as int);
        assert(text.drop_last() =~= natural_text(n / 10));
        assert(text.last() == digit);
        assert(digit_value(digit) == n % 10);
        assert(is_decimal_digit(digit));
        assert(digits_value(text) == digits_value(text.drop_last()) * 10 + digit_value(text.last()));
    }
}

/// The count that the serializer writes is the count that the coercion reads
/// in that text: writing a count and reading it back gives the same count.
pub proof fn lemma_written_count_reads_back(count: i32)
    ensures
        decimal_i32(decimal_text(count as int)) == Some(count),
        count_or_zero(decimal_text(count as int)) == count,
{
    let text = decimal_text(count as int);
    if count < 0 {
        let magnitude = (-count) as nat;
        lemma_natural_text_reads_back(magnitude);
        assert(text[0] == '-');
        assert(has_sign(text));
        assert(unsigned_part(text) =~= natural_text(magnitude));
        assert(signed_value(text) == count);
        assert(is_decimal_integer(text));
    } else {
        let magnitude = count as nat;
        lemma_natural_text_reads_back(magnitude);
        assert(is_decimal_digit(text[0]));
        assert(!has_sign(text));
        assert(unsigned_part(text) == text);
        assert(signed_value(text) == count);
        assert(is_decimal_integer(text));
    }
}

} // verus!
