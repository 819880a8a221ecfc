//! The editable form: a board descriptor and an ordered list of component rows.

use vstd::prelude::*;

verus! {

/// The fields that describe the board as a whole. Both are free text.
#[derive(Debug, Clone, PartialEq, Eq)]
pub struct BoardDescriptor {
    pub name: String,
    pub reference_image_path: String,
}

/// One component type to inspect, as typed by the user.
///
/// All three fields are raw text; the numeric ones are only turned into
/// numbers when the configuration is written.
#[derive(Debug, Clone, PartialEq, Eq)]
pub struct ComponentRow {
    /// Position of the row in its record set, which is also its identity.
    pub index: usize,
    pub image_path: String,
    pub threshold_text: String,
    pub count_text: String,
}

/// Names one of the three text fields of a row.
#[derive(Debug, Clone, Copy, PartialEq, Eq, Structural)]
pub enum RowField {
    ImagePath,
    ThresholdText,
    CountText,
}

/// A misuse of the interface by the calling code, as opposed to bad user input.
#[derive(Debug, Clone, Copy, PartialEq, Eq, Structural)]
pub enum ContractViolation {
    /// A row index was used that no `add_row` has issued.
    IndexOutOfRange,
    /// The threshold readings handed to the serializer were not one per row.
    ReadingCountMismatch,
}

/// The texts of one row.
pub struct RowView {
    pub image_path: Seq<char>,
    pub threshold_text: Seq<char>,
    pub count_text: Seq<char>,
}

/// The mathematical content of a record set: the descriptor's two texts and
/// the rows in order. A row's index is its position in `rows`.
pub struct RecordSetView {
    pub name: Seq<char>,
    pub reference_image_path: Seq<char>,
    pub rows: Seq<RowView>,
}

impl RowView {
    /// The row that `add_row` appends: three empty texts.
    pub open spec fn blank() -> RowView {
        RowView { image_path: Seq::empty(), threshold_text: Seq::empty(), count_text: Seq::empty() }
    }

    /// The text of one field.
    pub open spec fn field(self, field: RowField) -> Seq<char> {
        match field {
            RowField::ImagePath => self.image_path,
            RowField::ThresholdText => self.threshold_text,
            RowField::CountText => self.count_text,
        }
    }

    /// This row with one field overwritten.
    pub open spec fn with_field(self, field: RowField, text: Seq<char>) -> RowView {
        match field {
            RowField::ImagePath => RowView { image_path: text, ..self },
            RowField::ThresholdText => RowView { threshold_text: text, ..self },
            RowField::CountText => RowView { count_text: text, ..self },
        }
    }
}

impl RecordSetView {
    /// The record set at editor start: empty descriptor, no rows.
    pub open spec fn empty() -> RecordSetView {
        RecordSetView {
            name: Seq::empty(),
            reference_image_path: Seq::empty(),
            rows: Seq::empty(),
        }
    }

    /// Whether `index` names a row that exists.
    pub open spec fn has_row(self, index: int) -> bool {
        0 <= index < self.rows.len()
    }

    pub open spec fn add_row(self) -> RecordSetView {
        RecordSetView { rows: self.rows.push(RowView::blank()), ..self }
    }

    /// The result of `n` successive `add_row`s.
    pub open spec fn add_rows(self, n: nat) -> RecordSetView
        decreases n,
    {
        if n == 0 {
            self
        } else {
            self.add_rows((n - 1) as nat).add_row()
        }
    }

    pub open spec fn set_descriptor_name(self, text: Seq<char>) -> RecordSetView {
        RecordSetView { name: text, ..self }
    }

    pub open spec fn set_descriptor_image(self, text: Seq<char>) -> RecordSetView {
        RecordSetView { reference_image_path: text, ..self }
    }

    /// Overwrites one field of the row at `index`; an index that names no row
    /// changes nothing.
    pub open spec fn set_row_field(self, index: int, field: RowField, text: Seq<char>) -> RecordSetView {
        if self.has_row(index) {
            RecordSetView { rows: self.rows.update(index, self.rows[index].with_field(field, text)), ..self }
        } else {
            self
        }
    }

    /// The text of one field of the row at `index`.
    pub open spec fn field(self, index: int, field: RowField) -> Seq<char> {
        self.rows[index].field(field)
    }

    /// The image paths of all rows, in row order.
    pub open spec fn image_paths(self) -> Seq<Seq<char>> {
        Seq::new(self.rows.len(), |i: int| self.rows[i].image_path)
    }

    /// The threshold texts of all rows, in row order.
    pub open spec fn threshold_texts(self) -> Seq<Seq<char>> {
        Seq::new(self.rows.len(), |i: int| self.rows[i].threshold_text)
    }

    /// The count texts of all rows, in row order.
    pub open spec fn count_texts(self) -> Seq<Seq<char>> {
        Seq::new(self.rows.len(), |i: int| self.rows[i].count_text)
    }
}

impl View for ComponentRow {
    type V = RowView;

    open spec fn view(&self) -> RowView {
        RowView {
            image_path: self.image_path@,
            threshold_text: self.threshold_text@,
            count_text: self.count_text@,
        }
    }
}

/// The texts of a list of rows, in order.
pub open spec fn rows_view(rows: Seq<ComponentRow>) -> Seq<RowView> {
    Seq::new(rows.len(), |i: int| rows[i]@)
}

/// Whether every row carries its own position as its index.
pub open spec fn indices_aligned(rows: Seq<ComponentRow>) -> bool {
    forall|i: int| 0 <= i < rows.len() ==> (#[trigger] rows[i]).index == i
}

/// A point-in-time copy of a record set, with public fields to read from.
#[derive(Debug, Clone, PartialEq, Eq)]
pub struct Snapshot {
    pub descriptor: BoardDescriptor,
    pub rows: Vec<ComponentRow>,
}

impl View for Snapshot {
    type V = RecordSetView;

    open spec fn view(&self) -> RecordSetView {
        RecordSetView {
            name: self.descriptor.name@,
            reference_image_path: self.descriptor.reference_image_path@,
            rows: rows_view(self.rows@),
        }
    }
}

/// The board descriptor and the component rows of one editing session.
///
/// Rows are only ever appended, so a row's index never changes. The three
/// texts of a row live in one record, so the lists of image paths, threshold
/// texts and count texts cannot differ in length.
pub struct RecordSet {
    descriptor: BoardDescriptor,
    rows: Vec<ComponentRow>,
}

impl View for RecordSet {
    type V = RecordSetView;

    closed spec fn view(&self) -> RecordSetView {
        RecordSetView {
            name: self.descriptor.name@,
            reference_image_path: self.descriptor.reference_image_path@,
            rows: rows_view(self.rows@),
        }
    }
}

impl RecordSet {
    /// Whether every row carries its own position as its index. Every record
    /// set that `new` made and the methods below changed is well formed.
    pub closed spec fn wf(&self) -> bool {
        indices_aligned(self.rows@)
    }

    /// An empty record set: empty descriptor, no rows.
    pub fn new() -> (set: RecordSet)
        ensures
            set.wf(),
            set@ == RecordSetView::empty(),
    {
        let set = RecordSet {
            descriptor: BoardDescriptor { name: String::new(), reference_image_path: String::new() },
            rows: Vec::new(),
        };
        assert(set@.rows =~= Seq::empty());
        set
    }

    /// The number of rows.
    pub fn row_count(&self) -> (count: usize)
        ensures
            count == self@.rows.len(),
    {
        self.rows.len()
    }

    /// Appends one row whose three fields are empty. The new row's index is
    /// the row count before the call.
    pub fn add_row(&mut self)
        requires
            old(self).wf(),
        ensures
            final(self).wf(),
            final(self)@ == old(self)@.add_row(),
    {
        let index = self.rows.len();
        self.rows.push(
            ComponentRow {
                index,
                image_path: String::new(),
                threshold_text: String::new(),
                count_text: String::new(),
            },
        );
        assert(self@.rows =~= old(self)@.rows.push(RowView::blank()));
    }

    /// Overwrites the board name.
    pub fn set_descriptor_name(&mut self, text: String)
        requires
            old(self).wf(),
        ensures
            final(self).wf(),
            final(self)@ == old(self)@.set_descriptor_name(text@),
    {
        self.descriptor.name = text;
    }

    /// Overwrites the path of the board's reference image.
    pub fn set_descriptor_image(&mut self, text: String)
        requires
            old(self).wf(),
        ensures
            final(self).wf(),
            final(self)@ == old(self)@.set_descriptor_image(text@),
    {
        self.descriptor.reference_image_path = text;
    }

    /// Overwrites one field of the row at `index`.
    ///
    /// An index that no `add_row` has issued is refused with
    /// `IndexOutOfRange`, and the record set stays as it was.
    pub fn set_row_field(&mut self, index: usize, field: RowField, text: String) -> (outcome: Result<
        (),
        ContractViolation,
    >)
        requires
            old(self).wf(),
        ensures
            final(self).wf(),
            old(self)@.has_row(index as int) ==> outcome == Ok::<(), ContractViolation>(())
                && final(self)@ == old(self)@.set_row_field(index as int, field, text@),
            !old(self)@.has_row(index as int) ==> outcome == Err::<(), ContractViolation>(
                ContractViolation::IndexOutOfRange,
            ) && *final(self) == *old(self),
    {
        if index >= self.rows.len() {
            return Err(ContractViolation::IndexOutOfRange);
        }
        match field {
            RowField::ImagePath => {
                self.rows[index].image_path = text;
            },
            RowField::ThresholdText => {
                self.rows[index].threshold_text = text;
            },
            RowField::CountText => {
                self.rows[index].count_text = text;
            },
        }
        assert(self@.rows =~= old(self)@.rows.update(
            index as int,
            old(self)@.rows[index as int].with_field(field, text@),
        ));
        Ok(())
    }

    /// A copy of the descriptor and of all rows, in row order, which later
    /// changes to the record set do not touch.
    pub fn snapshot(&self) -> (snapshot: Snapshot)
        requires
            self.wf(),
        ensures
            snapshot@ == self@,
            indices_aligned(snapshot.rows@),
    {
        let mut rows: Vec<ComponentRow> = Vec::new();
        let mut i: usize = 0;
        while i < self.rows.len()
            invariant
                i <= self.rows.len(),
                rows.len() == i,
                forall|j: int| 0 <= j < i ==> rows[j] == self.rows[j],
            decreases self.rows.len() - i,
        {
            let row = &self.rows[i];
            rows.push(
                ComponentRow {
                    index: row.index,
                    image_path: row.image_path.clone(),
                    threshold_text: row.threshold_text.clone(),
                    count_text: row.count_text.clone(),
                },
            );
            i += 1;
        }
        let snapshot = Snapshot {
            descriptor: BoardDescriptor {
                name: self.descriptor.name.clone(),
                reference_image_path: self.descriptor.reference_image_path.clone(),
            },
            rows,
        };
        assert(snapshot@.rows =~= self@.rows);
        snapshot
    }
}

/// After `n` calls of `add_row` the record set has `n` more rows, all of them
/// blank, behind the rows it had, which are unchanged, as is the descriptor.
/// The lists of image paths, threshold texts and count texts all have the
/// length of the row list.
pub proof fn lemma_add_rows(set: RecordSetView, n: nat)
    ensures
        set.add_rows(n).rows.len() == set.rows.len() + n,
        set.add_rows(n).image_paths().len() == set.rows.len() + n,
        set.add_rows(n).threshold_texts().len() == set.rows.len() + n,
        set.add_rows(n).count_texts().len() == set.rows.len() + n,
        set.add_rows(n).rows =~= set.rows + Seq::new(n, |i: int| RowView::blank()),
        set.add_rows(n).name == set.name,
        set.add_rows(n).reference_image_path == set.reference_image_path,
    decreases n,
{
    if n > 0 {
        lemma_add_rows(set, (n - 1) as nat);
    }
}

/// Starting from the empty record set, `n` calls of `add_row` give a row
/// count of exactly `n`, and each of the three per-row text lists has length
/// exactly `n`.
pub proof fn lemma_row_count_after_add_rows(n: nat)
    ensures
        RecordSetView::empty().add_rows(n).rows.len() == n,
        RecordSetView::empty().add_rows(n).image_paths().len() == n,
        RecordSetView::empty().add_rows(n).threshold_texts().len() == n,
        RecordSetView::empty().add_rows(n).count_texts().len() == n,
        forall|i: int| 0 <= i < n ==> RecordSetView::empty().add_rows(n).rows[i] == RowView::blank(),
{
    lemma_add_rows(RecordSetView::empty(), n);
}

/// Writing `text` into a field of an existing row makes that field of that
/// row read back as exactly `text`, and leaves every other field of every row,
/// the number of rows and the descriptor as they were.
pub proof fn lemma_set_row_field_is_local(set: RecordSetView, index: int, field: RowField, text: Seq<char>)
    requires
        set.has_row(index),
    ensures
        set.set_row_field(index, field, text).field(index, field) == text,
        set.set_row_field(index, field, text).rows.len() == set.rows.len(),
        set.set_row_field(index, field, text).name == set.name,
        set.set_row_field(index, field, text).reference_image_path == set.reference_image_path,
        forall|j: int, other: RowField|
            set.has_row(j) && !(j == index && other == field) ==> #[trigger] set.set_row_field(
                index,
                field,
                text,
            ).field(j, other) == set.field(j, other),
{
}

/// Writing into a field of a row that does not exist changes nothing.
pub proof fn lemma_set_row_field_out_of_range(set: RecordSetView, index: int, field: RowField, text: Seq<char>)
    requires
        !set.has_row(index),
    ensures
        set.set_row_field(index, field, text) == set,
{
}

/// Two edits of different fields, or of different rows, give the same record
/// set in either order: which field was edited last does not matter, and no
/// edit moves a row.
pub proof fn lemma_edits_commute(
    set: RecordSetView,
    first_index: int,
    first_field: RowField,
    first_text: Seq<char>,
    second_index: int,
    second_field: RowField,
    second_text: Seq<char>,
)
    requires
        !(first_index == second_index && first_field == second_field),
    ensures
        set.set_row_field(first_index, first_field, first_text).set_row_field(
            second_index,
            second_field,
            second_text,
        ) == set.set_row_field(second_index, second_field, second_text).set_row_field(
            first_index,
            first_field,
            first_text,
        ),
{
    let left = set.set_row_field(first_index, first_field, first_text).set_row_field(
        second_index,
        second_field,
        second_text,
    );
    let right = set.set_row_field(second_index, second_field, second_text).set_row_field(
        first_index,
        first_field,
        first_text,
    );
    assert(left.rows =~= right.rows);
}

/// Overwriting a descriptor field twice with the same text is the same as
/// doing it once.
pub proof fn lemma_descriptor_setters_idempotent(set: RecordSetView, text: Seq<char>)
    ensures
        set.set_descriptor_name(text).set_descriptor_name(text) == set.set_descriptor_name(text),
        set.set_descriptor_image(text).set_descriptor_image(text) == set.set_descriptor_image(text),
{
}

} // verus!
