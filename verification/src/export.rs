//! The exported point cloud: one point for each recorded entry, and five
//! attribute columns whose rows line up with the points.

use crate::document::{texts_of, Document, ValueView};
use crate::numbers::{Scalar, Vec3};
use vstd::prelude::*;

verus! {

/// A recorded entry, as a mathematical value: its name, and what the value
/// answered when it was recorded.
pub struct EntryView {
    pub name: Seq<char>,
    pub kind: Seq<char>,
    pub position: Vec3,
    pub metadata: Seq<(Seq<char>, ValueView)>,
}

/// One row of the export: an entry together with the time of its frame.
pub struct Row {
    pub position: Vec3,
    pub name: Seq<char>,
    pub kind: Seq<char>,
    pub time: int,
    pub metadata: Seq<(Seq<char>, ValueView)>,
}

/// The row of an entry of the frame with the given index. Times count from
/// one: the first frame reports time 1, and time 0 is never used.
pub open spec fn row_of(entry: EntryView, frame: int) -> Row {
    Row {
        position: entry.position,
        name: entry.name,
        kind: entry.kind,
        time: frame + 1,
        metadata: entry.metadata,
    }
}

/// The rows of one frame, in the order in which its entries were recorded.
pub open spec fn frame_rows(entries: Seq<EntryView>, frame: int) -> Seq<Row> {
    Seq::new(entries.len(), |i: int| row_of(entries[i], frame))
}

/// The rows of all frames: frame after frame, and within a frame entry after
/// entry. Every column of the export follows this order.
pub open spec fn rows(frames: Seq<Seq<EntryView>>) -> Seq<Row>
    decreases frames.len(),
{
    if frames.len() == 0 {
        Seq::empty()
    } else {
        rows(frames.drop_last()) + frame_rows(frames.last(), frames.len() - 1)
    }
}

/// The position column: three numbers for each row, x, y and z.
pub open spec fn position_column(rows: Seq<Row>) -> Seq<Scalar> {
    Seq::new(3 * rows.len(), |k: int| rows[k / 3].position.coordinates()[k % 3])
}

/// The name column.
pub open spec fn name_column(rows: Seq<Row>) -> Seq<Seq<char>> {
    Seq::new(rows.len(), |i: int| rows[i].name)
}

/// The kind column.
pub open spec fn kind_column(rows: Seq<Row>) -> Seq<Seq<char>> {
    Seq::new(rows.len(), |i: int| rows[i].kind)
}

/// The time column.
pub open spec fn time_column(rows: Seq<Row>) -> Seq<int> {
    Seq::new(rows.len(), |i: int| rows[i].time)
}

/// The metadata column.
pub open spec fn metadata_column(rows: Seq<Row>) -> Seq<Seq<(Seq<char>, ValueView)>> {
    Seq::new(rows.len(), |i: int| rows[i].metadata)
}

/// How the host stores the values of an attribute.
#[derive(Clone, Copy, Debug, PartialEq, Eq, Structural)]
pub enum StorageType {
    /// Single-precision numbers.
    Float,
    /// Strings.
    String,
}

/// What the values of an attribute mean to the host.
#[derive(Clone, Copy, Debug, PartialEq, Eq, Structural)]
pub enum AttributeTypeInfo {
    /// Nothing is said: the host's default stays.
    Unset,
    /// Positions in space.
    Point,
}

/// The part of the geometry that an attribute belongs to.
#[derive(Clone, Copy, Debug, PartialEq, Eq, Structural)]
pub enum AttributeOwner {
    /// One tuple of values for each point.
    Point,
}

/// The kind of geometry that a part holds.
#[derive(Clone, Copy, Debug, PartialEq, Eq, Structural)]
pub enum PartType {
    /// Points, and faces over them. A point cloud is a mesh without faces.
    Mesh,
}

/// The values of one attribute column, as mathematical values.
pub enum ColumnView {
    Numbers(Seq<Scalar>),
    Times(Seq<int>),
    Texts(Seq<Seq<char>>),
    Documents(Seq<Seq<(Seq<char>, ValueView)>>),
}

/// The values of one attribute column.
#[derive(Debug, PartialEq, Eq)]
pub enum ColumnData {
    /// Single-precision numbers, tuple after tuple.
    Numbers(Vec<Scalar>),
    /// Frame times. They are whole numbers; the host stores them as
    /// single-precision numbers.
    Times(Vec<usize>),
    /// Strings.
    Texts(Vec<String>),
    /// Documents. The host stores each as a string, encoded as JSON.
    Documents(Vec<Document>),
}

/// The times of a list, each as a mathematical integer.
pub open spec fn times_of(values: Seq<usize>) -> Seq<int> {
    Seq::new(values.len(), |i: int| values[i] as int)
}

/// The documents of a list, each as a mathematical value.
pub open spec fn documents_of(values: Seq<Document>) -> Seq<Seq<(Seq<char>, ValueView)>> {
    Seq::new(values.len(), |i: int| values[i]@)
}

impl View for ColumnData {
    type V = ColumnView;

    open spec fn view(&self) -> ColumnView {
        match self {
            ColumnData::Numbers(values) => ColumnView::Numbers(values@),
            ColumnData::Times(values) => ColumnView::Times(times_of(values@)),
            ColumnData::Texts(values) => ColumnView::Texts(texts_of(values@)),
            ColumnData::Documents(values) => ColumnView::Documents(documents_of(values@)),
        }
    }
}

impl ColumnData {
    /// The number of values in the column.
    pub fn len(&self) -> (n: usize)
        ensures
            n == match self@ {
                ColumnView::Numbers(values) => values.len(),
                ColumnView::Times(values) => values.len(),
                ColumnView::Texts(values) => values.len(),
                ColumnView::Documents(values) => values.len(),
            },
    {
        match self {
            ColumnData::Numbers(values) => values.len(),
            ColumnData::Times(values) => values.len(),
            ColumnData::Texts(values) => values.len(),
            ColumnData::Documents(values) => values.len(),
        }
    }
}

/// One attribute of the point cloud, as a mathematical value.
pub struct AttributeView {
    pub name: Seq<char>,
    pub count: int,
    pub tuple_size: int,
    pub storage: StorageType,
    pub type_info: AttributeTypeInfo,
    pub owner: AttributeOwner,
    pub data: ColumnView,
}

/// One attribute of the point cloud: how it is declared to the host, and its
/// values.
#[derive(Debug, PartialEq, Eq)]
pub struct Attribute {
    /// The name under which a reader finds the attribute.
    pub name: String,
    /// The number of tuples: one for each point.
    pub count: usize,
    /// The number of values in a tuple.
    pub tuple_size: usize,
    pub storage: StorageType,
    pub type_info: AttributeTypeInfo,
    pub owner: AttributeOwner,
    pub data: ColumnData,
}

impl View for Attribute {
    type V = AttributeView;

    open spec fn view(&self) -> AttributeView {
        AttributeView {
            name: self.name@,
            count: self.count as int,
            tuple_size: self.tuple_size as int,
            storage: self.storage,
            type_info: self.type_info,
            owner: self.owner,
            data: self.data@,
        }
    }
}

impl Attribute {
    /// Whether there are values to hand to the host. An attribute of a point
    /// cloud without points is declared, and nothing is written into it.
    pub fn has_values(&self) -> (some: bool)
        ensures
            some == (match self@.data {
                ColumnView::Numbers(values) => values.len(),
                ColumnView::Times(values) => values.len(),
                ColumnView::Texts(values) => values.len(),
                ColumnView::Documents(values) => values.len(),
            } > 0),
    {
        self.data.len() > 0
    }
}

/// The attribute `P`: the position of each point.
pub open spec fn position_attribute(rows: Seq<Row>) -> AttributeView {
    AttributeView {
        name: "P"@,
        count: rows.len() as int,
        tuple_size: 3,
        storage: StorageType::Float,
        type_info: AttributeTypeInfo::Point,
        owner: AttributeOwner::Point,
        data: ColumnView::Numbers(position_column(rows)),
    }
}

/// The attribute `name`: the name of each entry, duplicates included.
pub open spec fn name_attribute(rows: Seq<Row>) -> AttributeView {
    AttributeView {
        name: "name"@,
        count: rows.len() as int,
        tuple_size: 1,
        storage: StorageType::String,
        type_info: AttributeTypeInfo::Unset,
        owner: AttributeOwner::Point,
        data: ColumnView::Texts(name_column(rows)),
    }
}

/// The attribute `kind`: the kind of each entry's value.
pub open spec fn kind_attribute(rows: Seq<Row>) -> AttributeView {
    AttributeView {
        name: "kind"@,
        count: rows.len() as int,
        tuple_size: 1,
        storage: StorageType::String,
        type_info: AttributeTypeInfo::Unset,
        owner: AttributeOwner::Point,
        data: ColumnView::Texts(kind_column(rows)),
    }
}

/// The attribute `time`: the time of each entry's frame.
pub open spec fn time_attribute(rows: Seq<Row>) -> AttributeView {
    AttributeView {
        name: "time"@,
        count: rows.len() as int,
        tuple_size: 1,
        storage: StorageType::Float,
        type_info: AttributeTypeInfo::Unset,
        owner: AttributeOwner::Point,
        data: ColumnView::Times(time_column(rows)),
    }
}

/// The attribute `metadata`: the document of each entry's value.
pub open spec fn metadata_attribute(rows: Seq<Row>) -> AttributeView {
    AttributeView {
        name: "metadata"@,
        count: rows.len() as int,
        tuple_size: 1,
        storage: StorageType::String,
        type_info: AttributeTypeInfo::Unset,
        owner: AttributeOwner::Point,
        data: ColumnView::Documents(metadata_column(rows)),
    }
}

/// A point cloud, as a mathematical value.
pub struct PointCloudView {
    pub part_type: PartType,
    pub point_count: int,
    pub attributes: Seq<AttributeView>,
}

/// The attributes of a list, each as a mathematical value.
pub open spec fn attributes_of(attributes: Seq<Attribute>) -> Seq<AttributeView> {
    Seq::new(attributes.len(), |i: int| attributes[i]@)
}

/// What one export hands to the host: the part to declare, with its number
/// of points, and the attributes to write, in this order.
#[derive(Debug, PartialEq, Eq)]
pub struct PointCloud {
    pub part_type: PartType,
    pub point_count: usize,
    pub attributes: Vec<Attribute>,
}

impl View for PointCloud {
    type V = PointCloudView;

    open spec fn view(&self) -> PointCloudView {
        PointCloudView {
            part_type: self.part_type,
            point_count: self.point_count as int,
            attributes: attributes_of(self.attributes@),
        }
    }
}

/// The point cloud of the given frames: one point for each row, and the
/// attributes `P`, `name`, `time`, `metadata` and `kind`.
pub open spec fn point_cloud(frames: Seq<Seq<EntryView>>) -> PointCloudView {
    let rows = rows(frames);
    PointCloudView {
        part_type: PartType::Mesh,
        point_count: rows.len() as int,
        attributes: seq![
            position_attribute(rows),
            name_attribute(rows),
            time_attribute(rows),
            metadata_attribute(rows),
            kind_attribute(rows),
        ],
    }
}

/// The rows of the first `n + 1` frames are those of the first `n`, followed
/// by the rows of frame `n`.
pub proof fn lemma_rows_step(frames: Seq<Seq<EntryView>>, n: int)
    requires
        0 <= n < frames.len(),
    ensures
        rows(frames.take(n + 1)) == rows(frames.take(n)) + frame_rows(frames[n], n),
{
    assert(frames.take(n + 1).drop_last() =~= frames.take(n));
}

/// The index of the frame that holds row `k`.
pub open spec fn frame_of_row(frames: Seq<Seq<EntryView>>, k: int) -> int
    decreases frames.len(),
{
    if frames.len() == 0 {
        0
    } else if k >= rows(frames.drop_last()).len() {
        frames.len() - 1
    } else {
        frame_of_row(frames.drop_last(), k)
    }
}

/// The number of rows that stand before those of frame `f`.
pub open spec fn rows_before(frames: Seq<Seq<EntryView>>, f: int) -> int {
    rows(frames.take(f)).len() as int
}

/// Frames without entries give no rows.
pub proof fn lemma_rows_of_empty_frames(frames: Seq<Seq<EntryView>>)
    requires
        forall|i: int| 0 <= i < frames.len() ==> (#[trigger] frames[i]).len() == 0,
    ensures
        rows(frames) == Seq::<Row>::empty(),
    decreases frames.len(),
{
    if frames.len() > 0 {
        lemma_rows_of_empty_frames(frames.drop_last());
        assert(rows(frames) =~= Seq::<Row>::empty());
    }
}

/// An entry appended to the last frame gives one more row, behind all
/// others.
pub proof fn lemma_rows_after_record(frames: Seq<Seq<EntryView>>, entry: EntryView)
    requires
        frames.len() >= 1,
    ensures
        rows(frames.update(frames.len() - 1, frames.last().push(entry))) == rows(frames).push(
            row_of(entry, frames.len() - 1),
        ),
{
    let last = frames.len() - 1;
    let after = frames.update(last, frames.last().push(entry));
    assert(after.drop_last() =~= frames.drop_last());
    assert(frame_rows(after.last(), last) =~= frame_rows(frames.last(), last).push(
        row_of(entry, last),
    ));
    assert(rows(after) =~= rows(frames).push(row_of(entry, last)));
}

/// A new, empty frame gives no new row.
pub proof fn lemma_rows_after_next_frame(frames: Seq<Seq<EntryView>>)
    ensures
        rows(frames.push(Seq::empty())) == rows(frames),
{
    let after = frames.push(Seq::<EntryView>::empty());
    assert(after.drop_last() =~= frames);
    assert(rows(after) =~= rows(frames));
}

/// The rows of the leading frames stand first among the rows of all.
pub proof fn lemma_rows_prefix(frames: Seq<Seq<EntryView>>, f: int)
    requires
        0 <= f <= frames.len(),
    ensures
        rows(frames.take(f)).len() <= rows(frames).len(),
        forall|k: int|
            0 <= k < rows(frames.take(f)).len() ==> rows(frames.take(f))[k] == rows(frames)[k],
    decreases frames.len() - f,
{
    if f == frames.len() {
        assert(frames.take(f) =~= frames);
    } else {
        lemma_rows_step(frames, f);
        lemma_rows_prefix(frames, f + 1);
    }
}

/// Entry `e` of frame `f` is the row that stands `e` places behind the rows
/// of the frames before `f`, and its time is `f + 1`.
pub proof fn lemma_row_of_entry(frames: Seq<Seq<EntryView>>, f: int, e: int)
    requires
        0 <= f < frames.len(),
        0 <= e < frames[f].len(),
    ensures
        rows_before(frames, f) + e < rows(frames).len(),
        rows(frames)[rows_before(frames, f) + e] == row_of(frames[f][e], f),
        time_column(rows(frames))[rows_before(frames, f) + e] == f + 1,
{
    lemma_rows_step(frames, f);
    lemma_rows_prefix(frames, f + 1);
    let k = rows_before(frames, f) + e;
    assert(rows(frames.take(f + 1))[k] == frame_rows(frames[f], f)[e]);
}

/// Every row belongs to a frame, and its time is the index of that frame,
/// counted from one.
pub proof fn lemma_time_of_row(frames: Seq<Seq<EntryView>>, k: int)
    requires
        0 <= k < rows(frames).len(),
    ensures
        0 <= frame_of_row(frames, k) < frames.len(),
        0 <= k - rows_before(frames, frame_of_row(frames, k)) < frames[frame_of_row(
            frames,
            k,
        )].len(),
        rows(frames)[k] == row_of(
            frames[frame_of_row(frames, k)][k - rows_before(frames, frame_of_row(frames, k))],
            frame_of_row(frames, k),
        ),
        time_column(rows(frames))[k] == frame_of_row(frames, k) + 1,
    decreases frames.len(),
{
    let front = frames.drop_last();
    let last = frames.len() - 1;
    if k >= rows(front).len() {
        assert(frames.take(last) =~= front);
    } else {
        lemma_time_of_row(front, k);
        let f = frame_of_row(front, k);
        assert(front.take(f) =~= frames.take(f));
    }
}

/// All five columns have one entry for each row, and the position column
/// three numbers.
pub proof fn lemma_columns_line_up(frames: Seq<Seq<EntryView>>)
    ensures
        point_cloud(frames).point_count == rows(frames).len(),
        point_cloud(frames).attributes.len() == 5,
        forall|i: int| 0 <= i < 5 ==> (#[trigger] point_cloud(frames).attributes[i]).count == rows(
            frames,
        ).len(),
        position_column(rows(frames)).len() == 3 * rows(frames).len(),
        name_column(rows(frames)).len() == rows(frames).len(),
        kind_column(rows(frames)).len() == rows(frames).len(),
        time_column(rows(frames)).len() == rows(frames).len(),
        metadata_column(rows(frames)).len() == rows(frames).len(),
{
}

/// Where nothing was ever recorded, the point cloud declares no points and
/// holds the five attributes, each without values.
pub proof fn lemma_empty_point_cloud(frames: Seq<Seq<EntryView>>)
    requires
        forall|i: int| 0 <= i < frames.len() ==> (#[trigger] frames[i]).len() == 0,
    ensures
        point_cloud(frames).point_count == 0,
        point_cloud(frames).attributes == seq![
            position_attribute(Seq::empty()),
            name_attribute(Seq::empty()),
            time_attribute(Seq::empty()),
            metadata_attribute(Seq::empty()),
            kind_attribute(Seq::empty()),
        ],
        position_column(Seq::empty()) == Seq::<Scalar>::empty(),
        name_column(Seq::empty()) == Seq::<Seq<char>>::empty(),
        kind_column(Seq::empty()) == Seq::<Seq<char>>::empty(),
        time_column(Seq::empty()) == Seq::<int>::empty(),
        metadata_column(Seq::empty()) == Seq::<Seq<(Seq<char>, ValueView)>>::empty(),
{
    lemma_rows_of_empty_frames(frames);
    assert(position_column(Seq::empty()) =~= Seq::<Scalar>::empty());
    assert(name_column(Seq::empty()) =~= Seq::<Seq<char>>::empty());
    assert(kind_column(Seq::empty()) =~= Seq::<Seq<char>>::empty());
    assert(time_column(Seq::empty()) =~= Seq::<int>::empty());
    assert(metadata_column(Seq::empty()) =~= Seq::<Seq<(Seq<char>, ValueView)>>::empty());
}

} // verus!
