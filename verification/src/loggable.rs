//! The values that can be recorded, and what each of them tells the exporter.

use crate::document::{texts_of, Document, Value, ValueView};
use crate::houdini_debug_logger::IntoLoggable;
use crate::numbers::{Mat4, Quat, Scalar, Vec3};
use vstd::prelude::*;

verus! {

/// A value that can be recorded.
///
/// The exporter asks three things of it: a kind, by which a reader of the
/// export tells how to decode the document; a representative position; and a
/// document that carries the whole payload. All three are functions of the
/// value alone, and the kind is the same for every value of a type.
pub trait DebugLoggable: Send {
    /// The kind of every value of this type, for example `mat4` or `vec3`.
    spec fn kind_tag() -> Seq<char>;

    /// Whether the value keeps the data contract of its type. Only such a
    /// value has a position, and only such a value is recorded.
    spec fn well_formed(&self) -> bool;

    /// The representative position of a well-formed value.
    spec fn anchor(&self) -> Vec3;

    /// The document that carries the payload of the value.
    spec fn document(&self) -> Seq<(Seq<char>, ValueView)>;

    /// Tests the data contract.
    fn validate(&self) -> (ok: bool)
        ensures
            ok == self.well_formed(),
    ;

    /// The kind of the data.
    fn kind(&self) -> (k: String)
        ensures
            k@ == Self::kind_tag(),
    ;

    /// The "root" position of the data. A type without a meaningful position
    /// answers with the origin.
    fn position(&self) -> (p: Vec3)
        requires
            self.well_formed(),
        ensures
            p == self.anchor(),
    ;

    /// The payload of the data, as a document.
    fn as_json(&self) -> (doc: Document)
        ensures
            doc@ == self.document(),
    ;
}

impl DebugLoggable for Vec3 {
    open spec fn kind_tag() -> Seq<char> {
        "vec3"@
    }

    open spec fn well_formed(&self) -> bool {
        true
    }

    open spec fn anchor(&self) -> Vec3 {
        *self
    }

    open spec fn document(&self) -> Seq<(Seq<char>, ValueView)> {
        seq![("pt"@, ValueView::Numbers(self.coordinates()))]
    }

    fn validate(&self) -> (ok: bool) {
        true
    }

    fn kind(&self) -> (k: String) {
        "vec3".to_string()
    }

    fn position(&self) -> (p: Vec3) {
        *self
    }

    fn as_json(&self) -> (doc: Document) {
        let pt = vec![self.x, self.y, self.z];
        assert(pt@ =~= self.coordinates());
        let doc = Document::new().with("pt", Value::Numbers(pt));
        assert(doc@ =~= self.document());
        doc
    }
}

impl DebugLoggable for Mat4 {
    open spec fn kind_tag() -> Seq<char> {
        "mat4"@
    }

    open spec fn well_formed(&self) -> bool {
        true
    }

    open spec fn anchor(&self) -> Vec3 {
        self.translation()
    }

    open spec fn document(&self) -> Seq<(Seq<char>, ValueView)> {
        seq![("xform"@, ValueView::Numbers(self.cols()))]
    }

    fn validate(&self) -> (ok: bool) {
        true
    }

    fn kind(&self) -> (k: String) {
        "mat4".to_string()
    }

    fn position(&self) -> (p: Vec3) {
        self.w_axis.truncate()
    }

    fn as_json(&self) -> (doc: Document) {
        let xform = vec![
            self.x_axis.x,
            self.x_axis.y,
            self.x_axis.z,
            self.x_axis.w,
            self.y_axis.x,
            self.y_axis.y,
            self.y_axis.z,
            self.y_axis.w,
            self.z_axis.x,
            self.z_axis.y,
            self.z_axis.z,
            self.z_axis.w,
            self.w_axis.x,
            self.w_axis.y,
            self.w_axis.z,
            self.w_axis.w,
        ];
        assert(xform@ =~= self.cols());
        let doc = Document::new().with("xform", Value::Numbers(xform));
        assert(doc@ =~= self.document());
        doc
    }
}

impl DebugLoggable for Quat {
    open spec fn kind_tag() -> Seq<char> {
        "quat"@
    }

    open spec fn well_formed(&self) -> bool {
        true
    }

    open spec fn anchor(&self) -> Vec3 {
        Vec3::spec_zero()
    }

    open spec fn document(&self) -> Seq<(Seq<char>, ValueView)> {
        seq![("quat"@, ValueView::Numbers(self.components()))]
    }

    fn validate(&self) -> (ok: bool) {
        true
    }

    fn kind(&self) -> (k: String) {
        "quat".to_string()
    }

    fn position(&self) -> (p: Vec3) {
        Vec3::zero()
    }

    fn as_json(&self) -> (doc: Document) {
        let quat = vec![self.x, self.y, self.z, self.w];
        assert(quat@ =~= self.components());
        let doc = Document::new().with("quat", Value::Numbers(quat));
        assert(doc@ =~= self.document());
        doc
    }
}

impl DebugLoggable for Scalar {
    open spec fn kind_tag() -> Seq<char> {
        "float"@
    }

    open spec fn well_formed(&self) -> bool {
        true
    }

    open spec fn anchor(&self) -> Vec3 {
        Vec3::spec_zero()
    }

    open spec fn document(&self) -> Seq<(Seq<char>, ValueView)> {
        seq![("float"@, ValueView::Number(*self))]
    }

    fn validate(&self) -> (ok: bool) {
        true
    }

    fn kind(&self) -> (k: String) {
        "float".to_string()
    }

    fn position(&self) -> (p: Vec3) {
        Vec3::zero()
    }

    fn as_json(&self) -> (doc: Document) {
        let doc = Document::new().with("float", Value::Number(*self));
        assert(doc@ =~= self.document());
        doc
    }
}

/// The x coordinate of each point, in the order of the points.
pub open spec fn xs(points: Seq<Vec3>) -> Seq<Scalar> {
    Seq::new(points.len(), |i: int| points[i].x)
}

/// The y coordinate of each point, in the order of the points.
pub open spec fn ys(points: Seq<Vec3>) -> Seq<Scalar> {
    Seq::new(points.len(), |i: int| points[i].y)
}

/// The z coordinate of each point, in the order of the points.
pub open spec fn zs(points: Seq<Vec3>) -> Seq<Scalar> {
    Seq::new(points.len(), |i: int| points[i].z)
}

/// The three parallel coordinate lists `x`, `y` and `z` of the points.
pub open spec fn point_fields(points: Seq<Vec3>) -> Seq<(Seq<char>, ValueView)> {
    seq![
        ("x"@, ValueView::Numbers(xs(points))),
        ("y"@, ValueView::Numbers(ys(points))),
        ("z"@, ValueView::Numbers(zs(points))),
    ]
}

/// Writes the coordinates of the points as the fields `x`, `y` and `z`.
fn points_document(points: &Vec<Vec3>) -> (doc: Document)
    ensures
        doc@ == point_fields(points@),
{
    let mut x: Vec<Scalar> = Vec::new();
    let mut y: Vec<Scalar> = Vec::new();
    let mut z: Vec<Scalar> = Vec::new();
    let mut i: usize = 0;
    while i < points.len()
        invariant
            i <= points.len(),
            x.len() == i,
            y.len() == i,
            z.len() == i,
            forall|j: int| 0 <= j < i ==> x@[j] == points@[j].x,
            forall|j: int| 0 <= j < i ==> y@[j] == points@[j].y,
            forall|j: int| 0 <= j < i ==> z@[j] == points@[j].z,
        decreases points.len() - i,
    {
        x.push(points[i].x);
        y.push(points[i].y);
        z.push(points[i].z);
        i = i + 1;
    }
    assert(x@ =~= xs(points@));
    assert(y@ =~= ys(points@));
    assert(z@ =~= zs(points@));
    let doc = Document::new().with("x", Value::Numbers(x)).with("y", Value::Numbers(y)).with(
        "z",
        Value::Numbers(z),
    );
    assert(doc@ =~= point_fields(points@));
    doc
}

/// An open chain of line segments through the points, in their order.
#[derive(Debug, Clone)]
pub struct Polyline {
    pub points: Vec<Vec3>,
}

impl DebugLoggable for Polyline {
    open spec fn kind_tag() -> Seq<char> {
        "line"@
    }

    /// A polyline has at least one point.
    open spec fn well_formed(&self) -> bool {
        self.points@.len() >= 1
    }

    open spec fn anchor(&self) -> Vec3 {
        self.points@[0]
    }

    open spec fn document(&self) -> Seq<(Seq<char>, ValueView)> {
        point_fields(self.points@)
    }

    fn validate(&self) -> (ok: bool) {
        self.points.len() >= 1
    }

    fn kind(&self) -> (k: String) {
        "line".to_string()
    }

    fn position(&self) -> (p: Vec3) {
        self.points[0]
    }

    fn as_json(&self) -> (doc: Document) {
        points_document(&self.points)
    }
}

/// A single segment. It is recorded as the polyline of its two ends.
#[derive(Debug, Clone, Copy)]
pub struct Line {
    pub start: Vec3,
    pub end: Vec3,
}

impl IntoLoggable for Line {
    type LoggableType = Polyline;

    /// The polyline holds the start and then the end.
    open spec fn converts_to(self, out: Polyline) -> bool {
        out.points@ == seq![self.start, self.end]
    }

    fn into_loggable(self) -> (out: Polyline) {
        Polyline { points: vec![self.start, self.end] }
    }
}

/// A closed loop through the points, in their order.
#[derive(Debug, Clone)]
pub struct Polygon {
    pub points: Vec<Vec3>,
}

impl DebugLoggable for Polygon {
    open spec fn kind_tag() -> Seq<char> {
        "polygon"@
    }

    /// A polygon has at least one point.
    open spec fn well_formed(&self) -> bool {
        self.points@.len() >= 1
    }

    open spec fn anchor(&self) -> Vec3 {
        self.points@[0]
    }

    open spec fn document(&self) -> Seq<(Seq<char>, ValueView)> {
        point_fields(self.points@)
    }

    fn validate(&self) -> (ok: bool) {
        self.points.len() >= 1
    }

    fn kind(&self) -> (k: String) {
        "polygon".to_string()
    }

    fn position(&self) -> (p: Vec3) {
        self.points[0]
    }

    fn as_json(&self) -> (doc: Document) {
        points_document(&self.points)
    }
}

/// The sum of the counts.
pub open spec fn total(counts: Seq<usize>) -> int
    decreases counts.len(),
{
    if counts.len() == 0 {
        0
    } else {
        total(counts.drop_last()) + counts.last()
    }
}

/// The sum of the first `n + 1` counts is that of the first `n` and the next.
proof fn lemma_total_step(counts: Seq<usize>, n: int)
    requires
        0 <= n < counts.len(),
    ensures
        total(counts.take(n + 1)) == total(counts.take(n)) + counts[n],
{
    assert(counts.take(n + 1).drop_last() =~= counts.take(n));
}

/// No sum of leading counts exceeds the sum of all.
proof fn lemma_total_grows(counts: Seq<usize>, n: int)
    requires
        0 <= n <= counts.len(),
    ensures
        total(counts.take(n)) <= total(counts),
    decreases counts.len() - n,
{
    if n == counts.len() {
        assert(counts.take(n) =~= counts);
    } else {
        lemma_total_step(counts, n);
        lemma_total_grows(counts, n + 1);
    }
}

/// Whether the counts add up to `expected`.
fn adds_up_to(counts: &Vec<usize>, expected: usize) -> (ok: bool)
    ensures
        ok == (total(counts@) == expected),
{
    let mut sum: usize = 0;
    let mut i: usize = 0;
    while i < counts.len()
        invariant
            i <= counts.len(),
            sum == total(counts@.take(i as int)),
            sum <= expected,
        decreases counts.len() - i,
    {
        proof {
            lemma_total_step(counts@, i as int);
        }
        if counts[i] > expected - sum {
            proof {
                lemma_total_grows(counts@, i + 1);
            }
            return false;
        }
        sum = sum + counts[i];
        i = i + 1;
    }
    assert(counts@.take(counts.len() as int) =~= counts@);
    sum == expected
}

/// A mesh: vertices, and faces given as runs of vertex indices.
///
/// `indices` holds the vertex indices of all faces one after another, and
/// `index_counts` the number of vertices of each face, so that a reader can
/// split `indices` into faces again.
#[derive(Debug, Clone)]
pub struct Mesh {
    pub vertices: Vec<Vec3>,
    pub indices: Vec<usize>,
    pub index_counts: Vec<usize>,
}

impl DebugLoggable for Mesh {
    open spec fn kind_tag() -> Seq<char> {
        "mesh"@
    }

    /// A mesh has at least one vertex, and the face sizes add up to the
    /// number of indices.
    open spec fn well_formed(&self) -> bool {
        &&& self.vertices@.len() >= 1
        &&& total(self.index_counts@) == self.indices@.len()
    }

    open spec fn anchor(&self) -> Vec3 {
        self.vertices@[0]
    }

    open spec fn document(&self) -> Seq<(Seq<char>, ValueView)> {
        point_fields(self.vertices@) + seq![
            (
                "i"@,
                ValueView::Integers(
                    Seq::new(self.indices@.len(), |i: int| self.indices@[i] as int),
                ),
            ),
            (
                "c"@,
                ValueView::Integers(
                    Seq::new(self.index_counts@.len(), |i: int| self.index_counts@[i] as int),
                ),
            ),
        ]
    }

    fn validate(&self) -> (ok: bool) {
        self.vertices.len() >= 1 && adds_up_to(&self.index_counts, self.indices.len())
    }

    fn kind(&self) -> (k: String) {
        "mesh".to_string()
    }

    fn position(&self) -> (p: Vec3) {
        self.vertices[0]
    }

    fn as_json(&self) -> (doc: Document) {
        let doc = points_document(&self.vertices).with("i", Value::indices(&self.indices)).with(
            "c",
            Value::indices(&self.index_counts),
        );
        assert(doc@ =~= self.document());
        doc
    }
}

/// The numbers of all transforms, sixteen for each, column by column and in
/// the order of the transforms.
pub open spec fn flat_cols(xforms: Seq<Mat4>) -> Seq<Scalar> {
    Seq::new(16 * xforms.len(), |k: int| xforms[k / 16].cols()[k % 16])
}

/// Lays the transforms end to end.
fn flatten(xforms: &Vec<Mat4>) -> (flat: Vec<Scalar>)
    ensures
        flat@ == flat_cols(xforms@),
{
    let mut flat: Vec<Scalar> = Vec::new();
    let mut i: usize = 0;
    while i < xforms.len()
        invariant
            i <= xforms.len(),
            flat.len() == 16 * i,
            forall|k: int| 0 <= k < 16 * i ==> flat@[k] == xforms@[k / 16].cols()[k % 16],
        decreases xforms.len() - i,
    {
        let cols = xforms[i].to_cols_array();
        let mut j: usize = 0;
        while j < 16
            invariant
                i < xforms.len(),
                j <= 16,
                cols@ == xforms@[i as int].cols(),
                flat.len() == 16 * i + j,
                forall|k: int| 0 <= k < 16 * i + j ==> flat@[k] == xforms@[k / 16].cols()[k % 16],
            decreases 16 - j,
        {
            flat.push(cols[j]);
            j = j + 1;
        }
        i = i + 1;
    }
    assert(flat@ =~= flat_cols(xforms@));
    flat
}

/// Whether every parent is `-1` or the index of one of `count` joints.
pub open spec fn parents_in_range(parents: Seq<i32>, count: int) -> bool {
    forall|i: int| 0 <= i < parents.len() ==> parents[i] == -1 || 0 <= #[trigger] parents[i] < count
}

/// Tests `parents_in_range`.
fn check_parents(parents: &Vec<i32>, count: usize) -> (ok: bool)
    ensures
        ok == parents_in_range(parents@, count as int),
{
    let mut i: usize = 0;
    while i < parents.len()
        invariant
            i <= parents.len(),
            parents_in_range(parents@.take(i as int), count as int),
        decreases parents.len() - i,
    {
        let parent = parents[i];
        let in_range = parent == -1 || (parent >= 0 && (parent as usize) < count);
        if !in_range {
            return false;
        }
        assert(parents_in_range(parents@.take(i + 1), count as int)) by {
            assert forall|k: int| 0 <= k < i + 1 implies parents@.take(i + 1)[k] == -1 || 0
                <= #[trigger] parents@.take(i + 1)[k] < count by {
                if k < i {
                    assert(parents@.take(i + 1)[k] == parents@.take(i as int)[k]);
                }
            }
        }
        i = i + 1;
    }
    assert(parents@.take(parents.len() as int) =~= parents@);
    true
}

/// A skeleton: joints with a name, a parent and a transform each.
///
/// The parent of a joint is the index of another joint, or `-1` for a root.
#[derive(Debug, Clone)]
pub struct Armature {
    pub names: Vec<String>,
    pub parents: Vec<i32>,
    pub xforms: Vec<Mat4>,
}

impl DebugLoggable for Armature {
    open spec fn kind_tag() -> Seq<char> {
        "armature"@
    }

    /// An armature has at least one joint; names, parents and transforms are
    /// equally many; and every parent is `-1` or the index of a joint.
    open spec fn well_formed(&self) -> bool {
        &&& self.xforms@.len() >= 1
        &&& self.names@.len() == self.xforms@.len()
        &&& self.parents@.len() == self.xforms@.len()
        &&& parents_in_range(self.parents@, self.names@.len() as int)
    }

    open spec fn anchor(&self) -> Vec3 {
        self.xforms@[0].translation()
    }

    open spec fn document(&self) -> Seq<(Seq<char>, ValueView)> {
        seq![
            ("names"@, ValueView::Texts(texts_of(self.names@))),
            ("xforms"@, ValueView::Numbers(flat_cols(self.xforms@))),
            (
                "parents"@,
                ValueView::Integers(
                    Seq::new(self.parents@.len(), |i: int| self.parents@[i] as int),
                ),
            ),
        ]
    }

    fn validate(&self) -> (ok: bool) {
        self.xforms.len() >= 1 && self.names.len() == self.xforms.len() && self.parents.len()
            == self.xforms.len() && check_parents(&self.parents, self.names.len())
    }

    fn kind(&self) -> (k: String) {
        "armature".to_string()
    }

    fn position(&self) -> (p: Vec3) {
        self.xforms[0].w_axis.truncate()
    }

    fn as_json(&self) -> (doc: Document) {
        let doc = Document::new().with("names", Value::texts(&self.names)).with(
            "xforms",
            Value::Numbers(flatten(&self.xforms)),
        ).with("parents", Value::signed(&self.parents));
        assert(doc@ =~= self.document());
        doc
    }
}

/// A capsule: the two centres of its end caps, and its radius.
///
/// `midpoint` is the point halfway between `point_a` and `point_b`. The
/// recorder takes it as given: it holds numbers and does no arithmetic on
/// them.
#[derive(Debug, Clone)]
pub struct Capsule {
    pub point_a: Vec3,
    pub point_b: Vec3,
    pub radius: Scalar,
    pub midpoint: Vec3,
}

impl DebugLoggable for Capsule {
    open spec fn kind_tag() -> Seq<char> {
        "capsule"@
    }

    open spec fn well_formed(&self) -> bool {
        true
    }

    open spec fn anchor(&self) -> Vec3 {
        self.midpoint
    }

    open spec fn document(&self) -> Seq<(Seq<char>, ValueView)> {
        seq![
            ("a"@, ValueView::Numbers(self.point_a.coordinates())),
            ("b"@, ValueView::Numbers(self.point_b.coordinates())),
            ("r"@, ValueView::Number(self.radius)),
        ]
    }

    fn validate(&self) -> (ok: bool) {
        true
    }

    fn kind(&self) -> (k: String) {
        "capsule".to_string()
    }

    fn position(&self) -> (p: Vec3) {
        self.midpoint
    }

    fn as_json(&self) -> (doc: Document) {
        let a = vec![self.point_a.x, self.point_a.y, self.point_a.z];
        let b = vec![self.point_b.x, self.point_b.y, self.point_b.z];
        assert(a@ =~= self.point_a.coordinates());
        assert(b@ =~= self.point_b.coordinates());
        let doc = Document::new().with("a", Value::Numbers(a)).with("b", Value::Numbers(b)).with(
            "r",
            Value::Number(self.radius),
        );
        assert(doc@ =~= self.document());
        doc
    }
}

/// A sphere. Its centre is its position and is not repeated in the document.
#[derive(Debug, Clone)]
pub struct Sphere {
    pub center: Vec3,
    pub radius: Scalar,
}

impl DebugLoggable for Sphere {
    open spec fn kind_tag() -> Seq<char> {
        "sphere"@
    }

    open spec fn well_formed(&self) -> bool {
        true
    }

    open spec fn anchor(&self) -> Vec3 {
        self.center
    }

    open spec fn document(&self) -> Seq<(Seq<char>, ValueView)> {
        seq![("radius"@, ValueView::Number(self.radius))]
    }

    fn validate(&self) -> (ok: bool) {
        true
    }

    fn kind(&self) -> (k: String) {
        "sphere".to_string()
    }

    fn position(&self) -> (p: Vec3) {
        self.center
    }

    fn as_json(&self) -> (doc: Document) {
        let doc = Document::new().with("radius", Value::Number(self.radius));
        assert(doc@ =~= self.document());
        doc
    }
}

} // verus!
