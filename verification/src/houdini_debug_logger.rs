//! The recorder: frames of named entries, and their export.

use crate::document::{texts_of, Document};
use crate::export::{
    documents_of, frame_rows, kind_attribute, kind_column, lemma_rows_after_next_frame,
    lemma_rows_after_record, lemma_rows_of_empty_frames, lemma_rows_step, metadata_attribute,
    metadata_column, name_attribute, name_column, point_cloud, position_attribute,
    position_column, row_of, rows, time_attribute, time_column, times_of, Attribute,
    AttributeOwner, AttributeTypeInfo, AttributeView, ColumnData, EntryView, PartType,
    PointCloud, PointCloudView, Row, StorageType,
};
use crate::loggable::DebugLoggable;
use crate::numbers::{Scalar, Vec3};
use vstd::prelude::*;

verus! {

/// A value that is recorded as another, loggable value.
///
/// A loggable type converts to itself. A convenience type names the loggable
/// type that stands for it, so that the set of kinds a reader has to know
/// does not grow with the types a producer may pass.
pub trait IntoLoggable: Sized {
    /// The loggable type that this type is converted into.
    type LoggableType: DebugLoggable;

    /// What the conversion yields.
    spec fn converts_to(self, out: Self::LoggableType) -> bool;

    /// Convert the value into a loggable one.
    fn into_loggable(self) -> (out: Self::LoggableType)
        ensures
            self.converts_to(out),
    ;
}

impl<T: DebugLoggable + 'static> IntoLoggable for T {
    type LoggableType = T;

    /// A loggable value converts to itself.
    open spec fn converts_to(self, out: T) -> bool {
        out == self
    }

    fn into_loggable(self) -> (out: T) {
        self
    }
}

/// Why an operation of the recorder was refused.
#[derive(Clone, Copy, Debug, PartialEq, Eq, Structural)]
pub enum LogError {
    /// No logger has been constructed yet.
    NotInitialized,
    /// A logger exists already; there is at most one.
    AlreadyInitialized,
    /// The value breaks the data contract of its type.
    MalformedValue,
    /// The logger holds no frame to record into. No operation of a logger
    /// leads there.
    NoActiveFrame,
}

impl LogError {
    /// The error in words.
    pub fn message(&self) -> (text: String)
        ensures
            text@ == match *self {
                LogError::NotInitialized => "HoudiniDebugLogger not initialized"@,
                LogError::AlreadyInitialized => "HoudiniDebugLogger already initialized"@,
                LogError::MalformedValue => "the value breaks the data contract of its type"@,
                LogError::NoActiveFrame => "For some reason no active frame was found"@,
            },
    {
        match self {
            LogError::NotInitialized => "HoudiniDebugLogger not initialized".to_string(),
            LogError::AlreadyInitialized => "HoudiniDebugLogger already initialized".to_string(),
            LogError::MalformedValue => "the value breaks the data contract of its type".to_string(),
            LogError::NoActiveFrame => "For some reason no active frame was found".to_string(),
        }
    }
}

/// Where an export goes.
#[derive(Debug, PartialEq, Eq)]
pub enum ExportMethod {
    /// Into a node of a running host session.
    LiveSession {
        /// The path to the subnet in which the node is stored.
        path: String,
        /// The name of the node.
        node_name: String,
    },
    /// Into a geometry file.
    File {
        /// The full path of the file to be created. Typically, this ends
        /// with `.bgeo`.
        path: String,
    },
}

/// An export target, as a mathematical value.
pub enum ExportMethodView {
    LiveSession { path: Seq<char>, node_name: Seq<char> },
    File { path: Seq<char> },
}

impl View for ExportMethod {
    type V = ExportMethodView;

    open spec fn view(&self) -> ExportMethodView {
        match self {
            ExportMethod::LiveSession { path, node_name } => ExportMethodView::LiveSession {
                path: path@,
                node_name: node_name@,
            },
            ExportMethod::File { path } => ExportMethodView::File { path: path@ },
        }
    }
}

/// One recorded entry: its name, and what the value answered when it was
/// recorded. An entry never changes.
#[derive(Debug)]
pub struct LogEntry {
    pub name: String,
    pub kind: String,
    pub position: Vec3,
    pub metadata: Document,
}

impl View for LogEntry {
    type V = EntryView;

    open spec fn view(&self) -> EntryView {
        EntryView {
            name: self.name@,
            kind: self.kind@,
            position: self.position,
            metadata: self.metadata@,
        }
    }
}

/// The entries of a list, each as a mathematical value.
pub open spec fn entries_of(entries: Seq<LogEntry>) -> Seq<EntryView> {
    Seq::new(entries.len(), |i: int| entries[i]@)
}

/// One frame: its entries, in the order in which they were recorded.
#[derive(Debug)]
pub struct FrameData {
    pub entries: Vec<LogEntry>,
}

impl View for FrameData {
    type V = Seq<EntryView>;

    open spec fn view(&self) -> Seq<EntryView> {
        entries_of(self.entries@)
    }
}

impl FrameData {
    /// A frame without entries.
    pub fn new() -> (frame: FrameData)
        ensures
            frame@ == Seq::<EntryView>::empty(),
    {
        let frame = FrameData { entries: Vec::new() };
        assert(frame@ =~= Seq::<EntryView>::empty());
        frame
    }
}

/// The frames of a list, each as the sequence of its entries.
pub open spec fn frames_of(frames: Seq<FrameData>) -> Seq<Seq<EntryView>> {
    Seq::new(frames.len(), |i: int| frames[i]@)
}

/// What the entry of a value under a name holds.
pub open spec fn entry_of<T: DebugLoggable>(name: Seq<char>, value: T) -> EntryView {
    EntryView {
        name,
        kind: T::kind_tag(),
        position: value.anchor(),
        metadata: value.document(),
    }
}

/// The state of a logger, as a mathematical value: the frames, and whether
/// anything changed since the last export.
pub struct LoggerState {
    pub frames: Seq<Seq<EntryView>>,
    pub modified: bool,
}

impl LoggerState {
    /// The state of a new logger: one empty frame, and an export due.
    pub open spec fn initial() -> LoggerState {
        LoggerState { frames: seq![Seq::empty()], modified: true }
    }

    /// There is always a frame to record into.
    pub open spec fn well_formed(self) -> bool {
        self.frames.len() >= 1
    }

    /// The state after an entry was recorded: it stands last in the last
    /// frame.
    pub open spec fn record(self, entry: EntryView) -> LoggerState {
        LoggerState {
            frames: self.frames.update(self.frames.len() - 1, self.frames.last().push(entry)),
            modified: true,
        }
    }

    /// The state after the entries were recorded one after another.
    pub open spec fn record_all(self, entries: Seq<EntryView>) -> LoggerState
        decreases entries.len(),
    {
        if entries.len() == 0 {
            self
        } else {
            self.record_all(entries.drop_last()).record(entries.last())
        }
    }

    /// The state after a new, empty frame was begun.
    pub open spec fn next_frame(self) -> LoggerState {
        LoggerState { frames: self.frames.push(Seq::empty()), modified: true }
    }

    /// The state after `n` new frames were begun.
    pub open spec fn advance(self, n: nat) -> LoggerState
        decreases n,
    {
        if n == 0 {
            self
        } else {
            self.advance((n - 1) as nat).next_frame()
        }
    }

    /// The state after an export: the frames stay, nothing is due.
    pub open spec fn saved(self) -> LoggerState {
        LoggerState { frames: self.frames, modified: false }
    }

    /// What an export hands out: the point cloud of all frames if anything
    /// changed since the last export, and nothing otherwise.
    pub open spec fn export(self) -> Option<PointCloudView> {
        if self.modified {
            Some(point_cloud(self.frames))
        } else {
            None
        }
    }
}

/// What recording a value answers: a malformed value is refused; a logger
/// without a frame, which no operation leads to, cannot record.
pub open spec fn log_outcome<T: DebugLoggable>(state: LoggerState, value: T) -> Result<
    (),
    LogError,
> {
    if !value.well_formed() {
        Err(LogError::MalformedValue)
    } else if !state.well_formed() {
        Err(LogError::NoActiveFrame)
    } else {
        Ok(())
    }
}

/// What recording a value under a name does to the state: a refused value
/// changes nothing, any other marks the state as changed, and where there is
/// a frame the entry is appended to the last.
pub open spec fn log_effect<T: DebugLoggable>(
    state: LoggerState,
    name: Seq<char>,
    value: T,
) -> LoggerState {
    if !value.well_formed() {
        state
    } else if !state.well_formed() {
        LoggerState { frames: state.frames, modified: true }
    } else {
        state.record(entry_of(name, value))
    }
}

/// The entries of all frames in export order, each with the time of its
/// frame.
fn flat_entries<'a>(frames: &'a Vec<FrameData>) -> (flat: Vec<(usize, &'a LogEntry)>)
    ensures
        flat@.len() == rows(frames_of(frames@)).len(),
        forall|k: int|
            0 <= k < flat@.len() ==> row_of((#[trigger] flat@[k]).1@, flat@[k].0 - 1) == rows(
                frames_of(frames@),
            )[k],
{
    let ghost all = frames_of(frames@);
    let mut flat: Vec<(usize, &'a LogEntry)> = Vec::new();
    let mut f: usize = 0;
    while f < frames.len()
        invariant
            f <= frames.len(),
            all == frames_of(frames@),
            flat@.len() == rows(all.take(f as int)).len(),
            forall|k: int|
                0 <= k < flat@.len() ==> row_of((#[trigger] flat@[k]).1@, flat@[k].0 - 1) == rows(
                    all.take(f as int),
                )[k],
        decreases frames.len() - f,
    {
        let frame = &frames[f];
        let ghost before = rows(all.take(f as int));
        let ghost here = frame_rows(all[f as int], f as int);
        let mut e: usize = 0;
        while e < frame.entries.len()
            invariant
                f < frames.len(),
                e <= frame.entries.len(),
                *frame == frames@[f as int],
                all == frames_of(frames@),
                before == rows(all.take(f as int)),
                here == frame_rows(all[f as int], f as int),
                flat@.len() == before.len() + e,
                forall|k: int|
                    0 <= k < flat@.len() ==> row_of((#[trigger] flat@[k]).1@, flat@[k].0 - 1) == (
                    before + here)[k],
            decreases frame.entries.len() - e,
        {
            flat.push((f + 1, &frame.entries[e]));
            e = e + 1;
        }
        proof {
            lemma_rows_step(all, f as int);
        }
        f = f + 1;
    }
    assert(all.take(frames.len() as int) =~= all);
    flat
}

/// The recorder's own data: the frames, and whether an export is due.
#[derive(Debug)]
struct LoggerData {
    modified: bool,
    frames: Vec<FrameData>,
}

/// The recorder. It collects named values frame by frame and, on demand,
/// hands out the point cloud of all that it holds.
#[derive(Debug)]
pub struct HoudiniDebugLogger {
    data: LoggerData,
    export_method: ExportMethod,
}

impl View for HoudiniDebugLogger {
    type V = LoggerState;

    closed spec fn view(&self) -> LoggerState {
        LoggerState { frames: frames_of(self.data.frames@), modified: self.data.modified }
    }
}

impl HoudiniDebugLogger {
    /// Where the exports of this logger go.
    pub closed spec fn target(&self) -> ExportMethodView {
        self.export_method@
    }

    /// A logger that exports into the file at `p`.
    pub fn new_with_file(p: String) -> (logger: HoudiniDebugLogger)
        ensures
            logger@ == LoggerState::initial(),
            logger.target() == (ExportMethodView::File { path: p@ }),
    {
        let logger = HoudiniDebugLogger {
            export_method: ExportMethod::File { path: p },
            data: LoggerData { modified: true, frames: vec![FrameData::new()] },
        };
        assert(logger@.frames =~= LoggerState::initial().frames);
        logger
    }

    /// A logger that exports into the node `recording` under
    /// `/obj/recordings` of a running host session.
    pub fn new_with_live_session() -> (logger: HoudiniDebugLogger)
        ensures
            logger@ == LoggerState::initial(),
            logger.target() == (ExportMethodView::LiveSession {
                path: "/obj/recordings"@,
                node_name: "recording"@,
            }),
    {
        let logger = HoudiniDebugLogger {
            export_method: ExportMethod::LiveSession {
                path: "/obj/recordings".to_string(),
                node_name: "recording".to_string(),
            },
            data: LoggerData { modified: true, frames: vec![FrameData::new()] },
        };
        assert(logger@.frames =~= LoggerState::initial().frames);
        logger
    }

    /// Where the exports of this logger go.
    pub fn export_method(&self) -> (method: &ExportMethod)
        ensures
            method@ == self.target(),
    {
        &self.export_method
    }

    /// Whether anything changed since the last export.
    pub fn is_modified(&self) -> (modified: bool)
        ensures
            modified == self@.modified,
    {
        self.data.modified
    }

    /// The number of frames.
    pub fn frame_count(&self) -> (n: usize)
        ensures
            n == self@.frames.len(),
    {
        self.data.frames.len()
    }

    /// Begins a new, empty frame. Frames are never removed.
    pub fn next_frame(&mut self)
        ensures
            final(self)@ == old(self)@.next_frame(),
            final(self).target() == old(self).target(),
    {
        self.data.modified = true;
        self.data.frames.push(FrameData::new());
        assert(self@.frames =~= old(self)@.next_frame().frames);
    }

    /// Records a value under a name, as the last entry of the last frame.
    ///
    /// A value that breaks the data contract of its type is refused, and the
    /// logger stays as it was.
    pub fn log<T: DebugLoggable>(&mut self, name: &str, v: T) -> (done: Result<(), LogError>)
        ensures
            final(self).target() == old(self).target(),
            done == log_outcome(old(self)@, v),
            final(self)@ == log_effect(old(self)@, name@, v),
    {
        if !v.validate() {
            return Err(LogError::MalformedValue);
        }
        self.data.modified = true;
        if self.data.frames.len() == 0 {
            return Err(LogError::NoActiveFrame);
        }
        let entry = LogEntry {
            name: name.to_string(),
            kind: v.kind(),
            position: v.position(),
            metadata: v.as_json(),
        };
        assert(entry@ == entry_of(name@, v));
        let last: usize = self.data.frames.len() - 1;
        self.data.frames[last].entries.push(entry);
        assert(self@.frames =~= old(self)@.record(entry_of(name@, v)).frames) by {
            assert(self.data.frames@[last as int]@ =~= old(self).data.frames@[last as int]@.push(
                entry@,
            ));
        }
        Ok(())
    }

    /// Marks the logger as changed, so that the next `save` exports again.
    ///
    /// `save` clears the mark before the point cloud reaches the host. Where
    /// the host then fails, the data is still held here, and this brings the
    /// export back.
    pub fn mark_modified(&mut self)
        ensures
            final(self)@ == (LoggerState { frames: old(self)@.frames, modified: true }),
            final(self).target() == old(self).target(),
    {
        self.data.modified = true;
    }

    /// Exports: hands out the point cloud of all frames, or nothing where
    /// nothing changed since the last export. Afterwards nothing is due.
    pub fn save(&mut self) -> (cloud: Option<PointCloud>)
        ensures
            final(self)@ == old(self)@.saved(),
            final(self).target() == old(self).target(),
            match cloud {
                Some(cloud) => old(self)@.export() == Some(cloud@),
                None => old(self)@.export() is None,
            },
    {
        if !self.data.modified {
            // Avoid saving overly often
            return None;
        }
        self.data.modified = false;

        let flat = flat_entries(&self.data.frames);
        let mut geom = PointCloud {
            part_type: PartType::Mesh,
            point_count: flat.len(),
            attributes: Vec::new(),
        };
        assert(geom@.attributes =~= Seq::<AttributeView>::empty());

        Self::add_positions(&mut geom, &self.data.frames);
        Self::add_names(&mut geom, &self.data.frames);
        Self::add_frame_times(&mut geom, &self.data.frames);
        Self::add_metadata(&mut geom, &self.data.frames);
        Self::add_kinds(&mut geom, &self.data.frames);

        assert(geom@.attributes =~= point_cloud(old(self)@.frames).attributes);
        Some(geom)
    }

    /// Ends the life of the logger with a last export.
    pub fn teardown(self) -> (cloud: Option<PointCloud>)
        ensures
            match cloud {
                Some(cloud) => self@.export() == Some(cloud@),
                None => self@.export() is None,
            },
    {
        let mut logger = self;
        logger.save()
    }

    /// Puts one more attribute behind those of the point cloud.
    fn add_attribute(geom: &mut PointCloud, attribute: Attribute)
        ensures
            final(geom)@.part_type == old(geom)@.part_type,
            final(geom)@.point_count == old(geom)@.point_count,
            final(geom)@.attributes == old(geom)@.attributes.push(attribute@),
    {
        geom.attributes.push(attribute);
        assert(geom@.attributes =~= old(geom)@.attributes.push(attribute@));
    }

    /// Adds the attribute `P`: three numbers for each entry, its position.
    pub fn add_positions(geom: &mut PointCloud, frames: &Vec<FrameData>)
        ensures
            final(geom)@.part_type == old(geom)@.part_type,
            final(geom)@.point_count == old(geom)@.point_count,
            final(geom)@.attributes == old(geom)@.attributes.push(
                position_attribute(rows(frames_of(frames@))),
            ),
    {
        let ghost rows = rows(frames_of(frames@));
        let flat = flat_entries(frames);
        let mut point_positions: Vec<Scalar> = Vec::new();
        let mut i: usize = 0;
        while i < flat.len()
            invariant
                i <= flat.len(),
                flat@.len() == rows.len(),
                forall|k: int|
                    0 <= k < flat@.len() ==> row_of((#[trigger] flat@[k]).1@, flat@[k].0 - 1)
                        == rows[k],
                point_positions@.len() == 3 * i,
                forall|k: int|
                    0 <= k < 3 * i ==> point_positions@[k] == rows[k / 3].position.coordinates()[k
                        % 3],
            decreases flat.len() - i,
        {
            let v = flat[i].1.position;
            assert(v == rows[i as int].position);
            point_positions.push(v.x);
            point_positions.push(v.y);
            point_positions.push(v.z);
            i = i + 1;
        }
        assert(point_positions@ =~= position_column(rows));
        let p_attr = Attribute {
            name: "P".to_string(),
            count: flat.len(),
            tuple_size: 3,
            storage: StorageType::Float,
            type_info: AttributeTypeInfo::Point,
            owner: AttributeOwner::Point,
            data: ColumnData::Numbers(point_positions),
        };
        Self::add_attribute(geom, p_attr);
    }

    /// Adds the attribute `name`: the name of each entry.
    pub fn add_names(geom: &mut PointCloud, frames: &Vec<FrameData>)
        ensures
            final(geom)@.part_type == old(geom)@.part_type,
            final(geom)@.point_count == old(geom)@.point_count,
            final(geom)@.attributes == old(geom)@.attributes.push(
                name_attribute(rows(frames_of(frames@))),
            ),
    {
        let ghost rows = rows(frames_of(frames@));
        let flat = flat_entries(frames);
        let mut point_names: Vec<String> = Vec::new();
        let mut i: usize = 0;
        while i < flat.len()
            invariant
                i <= flat.len(),
                flat@.len() == rows.len(),
                forall|k: int|
                    0 <= k < flat@.len() ==> row_of((#[trigger] flat@[k]).1@, flat@[k].0 - 1)
                        == rows[k],
                point_names@.len() == i,
                forall|k: int| 0 <= k < i ==> point_names@[k]@ == rows[k].name,
            decreases flat.len() - i,
        {
            let name = flat[i].1.name.clone();
            assert(name@ == rows[i as int].name);
            point_names.push(name);
            i = i + 1;
        }
        assert(texts_of(point_names@) =~= name_column(rows));
        let name_attr = Attribute {
            name: "name".to_string(),
            count: flat.len(),
            tuple_size: 1,
            storage: StorageType::String,
            type_info: AttributeTypeInfo::Unset,
            owner: AttributeOwner::Point,
            data: ColumnData::Texts(point_names),
        };
        Self::add_attribute(geom, name_attr);
    }

    /// Adds the attribute `kind`: the kind of each entry's value.
    pub fn add_kinds(geom: &mut PointCloud, frames: &Vec<FrameData>)
        ensures
            final(geom)@.part_type == old(geom)@.part_type,
            final(geom)@.point_count == old(geom)@.point_count,
            final(geom)@.attributes == old(geom)@.attributes.push(
                kind_attribute(rows(frames_of(frames@))),
            ),
    {
        let ghost rows = rows(frames_of(frames@));
        let flat = flat_entries(frames);
        let mut point_kinds: Vec<String> = Vec::new();
        let mut i: usize = 0;
        while i < flat.len()
            invariant
                i <= flat.len(),
                flat@.len() == rows.len(),
                forall|k: int|
                    0 <= k < flat@.len() ==> row_of((#[trigger] flat@[k]).1@, flat@[k].0 - 1)
                        == rows[k],
                point_kinds@.len() == i,
                forall|k: int| 0 <= k < i ==> point_kinds@[k]@ == rows[k].kind,
            decreases flat.len() - i,
        {
            let kind = flat[i].1.kind.clone();
            assert(kind@ == rows[i as int].kind);
            point_kinds.push(kind);
            i = i + 1;
        }
        assert(texts_of(point_kinds@) =~= kind_column(rows));
        let kind_attr = Attribute {
            name: "kind".to_string(),
            count: flat.len(),
            tuple_size: 1,
            storage: StorageType::String,
            type_info: AttributeTypeInfo::Unset,
            owner: AttributeOwner::Point,
            data: ColumnData::Texts(point_kinds),
        };
        Self::add_attribute(geom, kind_attr);
    }

    /// Adds the attribute `time`: for each entry the index of its frame,
    /// counted from one.
    pub fn add_frame_times(geom: &mut PointCloud, frames: &Vec<FrameData>)
        ensures
            final(geom)@.part_type == old(geom)@.part_type,
            final(geom)@.point_count == old(geom)@.point_count,
            final(geom)@.attributes == old(geom)@.attributes.push(
                time_attribute(rows(frames_of(frames@))),
            ),
    {
        let ghost rows = rows(frames_of(frames@));
        let flat = flat_entries(frames);
        let mut point_times: Vec<usize> = Vec::new();
        let mut i: usize = 0;
        while i < flat.len()
            invariant
                i <= flat.len(),
                flat@.len() == rows.len(),
                forall|k: int|
                    0 <= k < flat@.len() ==> row_of((#[trigger] flat@[k]).1@, flat@[k].0 - 1)
                        == rows[k],
                point_times@.len() == i,
                forall|k: int| 0 <= k < i ==> point_times@[k] == rows[k].time,
            decreases flat.len() - i,
        {
            let time = flat[i].0;
            assert(time == rows[i as int].time);
            point_times.push(time);
            i = i + 1;
        }
        assert(times_of(point_times@) =~= time_column(rows));
        let time_attr = Attribute {
            name: "time".to_string(),
            count: flat.len(),
            tuple_size: 1,
            storage: StorageType::Float,
            type_info: AttributeTypeInfo::Unset,
            owner: AttributeOwner::Point,
            data: ColumnData::Times(point_times),
        };
        Self::add_attribute(geom, time_attr);
    }

    /// Adds the attribute `metadata`: the document of each entry's value.
    pub fn add_metadata(geom: &mut PointCloud, frames: &Vec<FrameData>)
        ensures
            final(geom)@.part_type == old(geom)@.part_type,
            final(geom)@.point_count == old(geom)@.point_count,
            final(geom)@.attributes == old(geom)@.attributes.push(
                metadata_attribute(rows(frames_of(frames@))),
            ),
    {
        let ghost rows = rows(frames_of(frames@));
        let flat = flat_entries(frames);
        let mut pt_metadata: Vec<Document> = Vec::new();
        let mut i: usize = 0;
        while i < flat.len()
            invariant
                i <= flat.len(),
                flat@.len() == rows.len(),
                forall|k: int|
                    0 <= k < flat@.len() ==> row_of((#[trigger] flat@[k]).1@, flat@[k].0 - 1)
                        == rows[k],
                pt_metadata@.len() == i,
                forall|k: int| 0 <= k < i ==> pt_metadata@[k]@ == rows[k].metadata,
            decreases flat.len() - i,
        {
            let metadata = flat[i].1.metadata.clone();
            assert(metadata@ == rows[i as int].metadata);
            pt_metadata.push(metadata);
            i = i + 1;
        }
        assert(documents_of(pt_metadata@) =~= metadata_column(rows));
        let metadata_attr = Attribute {
            name: "metadata".to_string(),
            count: flat.len(),
            tuple_size: 1,
            storage: StorageType::String,
            type_info: AttributeTypeInfo::Unset,
            owner: AttributeOwner::Point,
            data: ColumnData::Documents(pt_metadata),
        };
        Self::add_attribute(geom, metadata_attr);
    }
}

/// An installed logger, as a mathematical value: its state, and where its
/// exports go.
pub struct Installed {
    pub state: LoggerState,
    pub target: ExportMethodView,
}

/// The place of the one logger of a process. It is empty until a logger is
/// installed, and holds that logger from then on.
#[derive(Debug)]
pub struct LoggerCell {
    logger: Option<HoudiniDebugLogger>,
}

impl View for LoggerCell {
    type V = Option<Installed>;

    closed spec fn view(&self) -> Option<Installed> {
        match self.logger {
            Some(logger) => Some(Installed { state: logger@, target: logger.target() }),
            None => None,
        }
    }
}

impl LoggerCell {
    /// The empty place.
    pub fn new() -> (cell: LoggerCell)
        ensures
            cell@ is None,
    {
        LoggerCell { logger: None }
    }

    /// The installed logger, if there is one.
    pub fn logger(&self) -> (logger: Option<&HoudiniDebugLogger>)
        ensures
            match logger {
                Some(logger) => self@ == Some(
                    Installed { state: logger@, target: logger.target() },
                ),
                None => self@ is None,
            },
    {
        self.logger.as_ref()
    }

    /// Installs `logger` if the place is empty, and refuses it otherwise.
    fn install(&mut self, logger: HoudiniDebugLogger) -> (done: Result<(), LogError>)
        ensures
            old(self)@ is None ==> done is Ok && final(self)@ == Some(
                Installed { state: logger@, target: logger.target() },
            ),
            old(self)@ is Some ==> done == Err::<(), LogError>(LogError::AlreadyInitialized)
                && final(self)@ == old(self)@,
    {
        if self.logger.is_some() {
            return Err(LogError::AlreadyInitialized);
        }
        self.logger = Some(logger);
        Ok(())
    }
}

/// Where the host session of a live logger comes from.
#[derive(Clone, Copy, Debug, PartialEq, Eq)]
pub enum SessionSource {
    /// The caller is attached to a session already and hands it over.
    Supplied,
    /// A session is opened at this address and port.
    Connect { address: [u8; 4], port: u16 },
}

/// Picks the session of a live logger: the one supplied, or else a new one
/// at port 9090 of the local machine.
pub fn session_source(supplied: bool) -> (source: SessionSource)
    ensures
        supplied ==> source == SessionSource::Supplied,
        !supplied ==> (source matches SessionSource::Connect { address, port } && address@
            == seq![127u8, 0u8, 0u8, 1u8] && port == 9090),
{
    if supplied {
        SessionSource::Supplied
    } else {
        let address: [u8; 4] = [127, 0, 0, 1];
        assert(address@ =~= seq![127u8, 0u8, 0u8, 1u8]);
        SessionSource::Connect { address, port: 9090 }
    }
}

/// Installs a logger that writes to the file at `path`. Typically, this
/// should end with `.bgeo`.
///
/// There is one logger at most: where one is installed already, the call
/// fails and that logger stays untouched.
pub fn init_houlog(cell: &mut LoggerCell, path: String) -> (done: Result<(), LogError>)
    ensures
        old(cell)@ is None ==> done is Ok && final(cell)@ == Some(
            Installed {
                state: LoggerState::initial(),
                target: ExportMethodView::File { path: path@ },
            },
        ),
        old(cell)@ is Some ==> done == Err::<(), LogError>(LogError::AlreadyInitialized)
            && final(cell)@ == old(cell)@,
{
    cell.install(HoudiniDebugLogger::new_with_file(path))
}

/// Installs a logger that writes to a live host session.
///
/// There is one logger at most: where one is installed already, the call
/// fails and that logger stays untouched.
pub fn init_houlog_live(cell: &mut LoggerCell) -> (done: Result<(), LogError>)
    ensures
        old(cell)@ is None ==> done is Ok && final(cell)@ == Some(
            Installed {
                state: LoggerState::initial(),
                target: ExportMethodView::LiveSession {
                    path: "/obj/recordings"@,
                    node_name: "recording"@,
                },
            },
        ),
        old(cell)@ is Some ==> done == Err::<(), LogError>(LogError::AlreadyInitialized)
            && final(cell)@ == old(cell)@,
{
    cell.install(HoudiniDebugLogger::new_with_live_session())
}

/// The main logging function: records `v`, converted to its loggable form,
/// under `name`.
///
/// Without a logger nothing is recorded and the answer is `Ok(false)`, so
/// that instrumented code need not guard its calls.
pub fn houlog<T: IntoLoggable>(cell: &mut LoggerCell, name: &str, v: T) -> (done: Result<
    bool,
    LogError,
>)
    ensures
        old(cell)@ is None ==> done == Ok::<bool, LogError>(false) && final(cell)@ is None,
        old(cell)@ matches Some(before) ==> exists|out: T::LoggableType|
            {
                &&& #[trigger] v.converts_to(out)
                &&& done == match log_outcome(before.state, out) {
                    Ok(_) => Ok::<bool, LogError>(true),
                    Err(e) => Err(e),
                }
                &&& final(cell)@ == Some(
                    Installed {
                        state: log_effect(before.state, name@, out),
                        target: before.target,
                    },
                )
            },
{
    match &mut cell.logger {
        Some(logger) => {
            let out = v.into_loggable();
            let ghost given = out;
            let logged = logger.log(name, out);
            assert(v.converts_to(given));
            match logged {
                Ok(_) => Ok(true),
                Err(e) => Err(e),
            }
        },
        None => Ok(false),
    }
}

/// Advance the logger to the next frame. A new logger starts on frame 0, so
/// this is only needed to record more than one frame. Frames are those of
/// the recording: a producer may, for example, put each stage of an
/// algorithm into a frame of its own.
pub fn houlog_next_frame(cell: &mut LoggerCell) -> (done: Result<(), LogError>)
    ensures
        old(cell)@ is None ==> done == Err::<(), LogError>(LogError::NotInitialized) && final(cell)@ is None,
        old(cell)@ matches Some(before) ==> done is Ok && final(cell)@ == Some(
            Installed { state: before.state.next_frame(), target: before.target },
        ),
{
    match &mut cell.logger {
        Some(logger) => {
            logger.next_frame();
            Ok(())
        },
        None => Err(LogError::NotInitialized),
    }
}

/// Export: hands out what is to be sent to the host, or nothing where
/// nothing changed since the last export.
pub fn save_houlog(cell: &mut LoggerCell) -> (done: Result<Option<PointCloud>, LogError>)
    ensures
        old(cell)@ is None ==> (done matches Err(e) && e == LogError::NotInitialized)
            && final(cell)@ is None,
        old(cell)@ matches Some(before) ==> {
            &&& final(cell)@ == Some(
                Installed { state: before.state.saved(), target: before.target },
            )
            &&& done matches Ok(cloud)
            &&& match cloud {
                Some(cloud) => before.state.export() == Some(cloud@),
                None => before.state.export() is None,
            }
        },
{
    match &mut cell.logger {
        Some(logger) => Ok(logger.save()),
        None => Err(LogError::NotInitialized),
    }
}

/// Every state that a logger passes through has a frame to record into.
pub proof fn lemma_always_a_frame(state: LoggerState, entry: EntryView)
    requires
        state.well_formed(),
    ensures
        LoggerState::initial().well_formed(),
        state.record(entry).well_formed(),
        state.next_frame().well_formed(),
        state.saved().well_formed(),
{
}

/// Entries recorded one after another into a frame give one row each,
/// behind the rows that were there, in the order of the calls and with the
/// time of that frame.
pub proof fn lemma_records_keep_call_order(state: LoggerState, entries: Seq<EntryView>)
    requires
        state.well_formed(),
    ensures
        state.record_all(entries).well_formed(),
        state.record_all(entries).frames.len() == state.frames.len(),
        rows(state.record_all(entries).frames) == rows(state.frames) + frame_rows(
            entries,
            state.frames.len() - 1,
        ),
        entries.len() > 0 ==> state.record_all(entries).modified,
    decreases entries.len(),
{
    if entries.len() == 0 {
        assert(rows(state.frames) + frame_rows(entries, state.frames.len() - 1) =~= rows(
            state.frames,
        ));
    } else {
        let before = state.record_all(entries.drop_last());
        lemma_records_keep_call_order(state, entries.drop_last());
        lemma_rows_after_record(before.frames, entries.last());
        assert(rows(before.frames).push(row_of(entries.last(), state.frames.len() - 1)) =~= rows(
            state.frames,
        ) + frame_rows(entries, state.frames.len() - 1));
    }
}

/// After `n` new frames a logger holds `n` frames more and the same rows.
pub proof fn lemma_advance(state: LoggerState, n: nat)
    ensures
        state.advance(n).frames.len() == state.frames.len() + n,
        rows(state.advance(n).frames) == rows(state.frames),
    decreases n,
{
    if n > 0 {
        lemma_advance(state, (n - 1) as nat);
        lemma_rows_after_next_frame(state.advance((n - 1) as nat).frames);
    }
}

/// Where a new logger advances `n` frames before anything is recorded, the
/// first entry is the only row, and its time is `n + 1`.
pub proof fn lemma_first_record_after_advance(n: nat, entry: EntryView)
    ensures
        rows(LoggerState::initial().advance(n).record(entry).frames) == seq![
            row_of(entry, n as int),
        ],
        row_of(entry, n as int).time == n + 1,
{
    let start = LoggerState::initial();
    lemma_advance(start, n);
    lemma_rows_of_empty_frames(start.frames);
    lemma_rows_after_record(start.advance(n).frames, entry);
    assert(rows(start.advance(n).record(entry).frames) =~= seq![row_of(entry, n as int)]);
}

/// An export right after an export hands out nothing and changes nothing.
pub proof fn lemma_second_export_is_idle(state: LoggerState)
    ensures
        state.saved().export() is None,
        state.saved().saved() == state.saved(),
        state.modified ==> state.export() == Some(point_cloud(state.frames)),
{
}

/// The first export of a logger into which nothing was recorded hands out a
/// point cloud without points.
pub proof fn lemma_export_of_nothing(n: nat)
    ensures
        LoggerState::initial().advance(n).export() matches Some(cloud) && cloud.point_count == 0
            && rows(LoggerState::initial().advance(n).frames) == Seq::<Row>::empty(),
{
    let start = LoggerState::initial();
    lemma_advance(start, n);
    lemma_rows_of_empty_frames(start.frames);
    lemma_modified_after_advance(start, n);
}

/// Beginning frames leaves a changed state changed.
proof fn lemma_modified_after_advance(state: LoggerState, n: nat)
    requires
        state.modified,
    ensures
        state.advance(n).modified,
    decreases n,
{
    if n > 0 {
        lemma_modified_after_advance(state, (n - 1) as nat);
    }
}

} // verus!
