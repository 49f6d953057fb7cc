//! Poses, and how the engine's untyped estimation result becomes typed.

use vstd::prelude::*;
use crate::naming::{camel, camel_from, upper};
use crate::value::{
    dyn_num, group_record_laws, has_key, list_view, lookup, num_value, rec_set, with_opt,
    DynRecord, DynValue, Entries, Number, Value,
};

verus! {

/// One point of a pose.
#[derive(Clone, Debug, PartialEq)]
pub struct Keypoint {
    pub x: Number,
    pub y: Number,
    pub z: Option<Number>,
    pub score: Option<Number>,
    pub name: Option<String>,
}

/// The box round a pose.
#[derive(Clone, Copy, Debug, PartialEq, Eq, Structural)]
pub struct BoundingBox {
    pub x_min: Number,
    pub y_min: Number,
    pub x_max: Number,
    pub y_max: Number,
    pub width: Number,
    pub height: Number,
}

/// One detected pose.
#[derive(Clone, Debug, PartialEq)]
pub struct Pose {
    pub keypoints: Vec<Keypoint>,
    pub score: Option<Number>,
    pub keypoints_3d: Option<Vec<Keypoint>>,
    pub bounding_box: Option<BoundingBox>,
    pub id: Option<Number>,
}

/// The model of a keypoint.
pub ghost struct KeypointView {
    pub x: Number,
    pub y: Number,
    pub z: Option<Number>,
    pub score: Option<Number>,
    pub name: Option<Seq<char>>,
}

/// The model of a pose.
pub ghost struct PoseView {
    pub keypoints: Seq<KeypointView>,
    pub score: Option<Number>,
    pub keypoints_3d: Option<Seq<KeypointView>>,
    pub bounding_box: Option<BoundingBox>,
    pub id: Option<Number>,
}

impl View for Keypoint {
    type V = KeypointView;

    open spec fn view(&self) -> KeypointView {
        KeypointView {
            x: self.x,
            y: self.y,
            z: self.z,
            score: self.score,
            name: match self.name {
                Some(s) => Some(s@),
                None => None,
            },
        }
    }
}

/// The models of a run of keypoints.
pub open spec fn keypoints_view(ks: Seq<Keypoint>) -> Seq<KeypointView> {
    Seq::new(ks.len(), |i: int| ks[i]@)
}

impl View for Pose {
    type V = PoseView;

    open spec fn view(&self) -> PoseView {
        PoseView {
            keypoints: keypoints_view(self.keypoints@),
            score: self.score,
            keypoints_3d: match self.keypoints_3d {
                Some(ks) => Some(keypoints_view(ks@)),
                None => None,
            },
            bounding_box: self.bounding_box,
            id: self.id,
        }
    }
}

/// The models of a run of poses.
pub open spec fn poses_view(ps: Seq<Pose>) -> Seq<PoseView> {
    Seq::new(ps.len(), |i: int| ps[i]@)
}

/// The fields that the engine's pose records are read by.
#[derive(Clone, Copy, Debug, PartialEq, Eq, Structural)]
pub enum Field {
    Keypoints,
    Score,
    Keypoints3d,
    BoundingBox,
    Id,
    X,
    Y,
    Z,
    Name,
    XMin,
    YMin,
    XMax,
    YMax,
    Width,
    Height,
}

/// The name of a field of a pose, a keypoint or a box.
pub open spec fn field_name(f: Field) -> Seq<char> {
    match f {
        Field::Keypoints => "keypoints"@,
        Field::Score => "score"@,
        Field::Keypoints3d => "keypoints_3d"@,
        Field::BoundingBox => "bounding_box"@,
        Field::Id => "id"@,
        Field::X => "x"@,
        Field::Y => "y"@,
        Field::Z => "z"@,
        Field::Name => "name"@,
        Field::XMin => "x_min"@,
        Field::YMin => "y_min"@,
        Field::XMax => "x_max"@,
        Field::YMax => "y_max"@,
        Field::Width => "width"@,
        Field::Height => "height"@,
    }
}

/// The key under which the engine holds a field.
pub open spec fn field_key(f: Field) -> Seq<char> {
    match f {
        Field::Keypoints => "keypoints"@,
        Field::Score => "score"@,
        Field::Keypoints3d => "keypoints3d"@,
        Field::BoundingBox => "boundingBox"@,
        Field::Id => "id"@,
        Field::X => "x"@,
        Field::Y => "y"@,
        Field::Z => "z"@,
        Field::Name => "name"@,
        Field::XMin => "xMin"@,
        Field::YMin => "yMin"@,
        Field::XMax => "xMax"@,
        Field::YMax => "yMax"@,
        Field::Width => "width"@,
        Field::Height => "height"@,
    }
}

/// Every key is the camel-case form of its field's name.
pub proof fn lemma_field_keys_camel(f: Field)
    ensures
        field_key(f) == camel(field_name(f)),
{
    match f {
        Field::Keypoints => {
            assert(camel("keypoints"@) == "keypoints"@) by {
                reveal_strlit("keypoints");
                reveal_with_fuel(camel_from, 11);
                assert("keypoints"@.len() == 9);
                assert(camel("keypoints"@) =~= "keypoints"@);
            }
        },
        Field::Score => {
            assert(camel("score"@) == "score"@) by {
                reveal_strlit("score");
                reveal_with_fuel(camel_from, 7);
                assert("score"@.len() == 5);
                assert(camel("score"@) =~= "score"@);
            }
        },
        Field::Keypoints3d => {
            assert(camel("keypoints_3d"@) == "keypoints3d"@) by {
                reveal_strlit("keypoints_3d");
                reveal_strlit("keypoints3d");
                reveal_with_fuel(camel_from, 14);
                assert("keypoints_3d"@.len() == 12);
                assert("keypoints3d"@.len() == 11);
                assert(camel("keypoints_3d"@) =~= "keypoints3d"@);
            }
        },
        Field::BoundingBox => {
            assert(camel("bounding_box"@) == "boundingBox"@) by {
                reveal_strlit("bounding_box");
                reveal_strlit("boundingBox");
                reveal_with_fuel(camel_from, 14);
                assert("bounding_box"@.len() == 12);
                assert("boundingBox"@.len() == 11);
                assert(upper('b') == 'B');
                assert(camel("bounding_box"@) =~= "boundingBox"@);
            }
        },
        Field::Id => {
            assert(camel("id"@) == "id"@) by {
                reveal_strlit("id");
                reveal_with_fuel(camel_from, 4);
                assert("id"@.len() == 2);
                assert(camel("id"@) =~= "id"@);
            }
        },
        Field::X => {
            assert(camel("x"@) == "x"@) by {
                reveal_strlit("x");
                reveal_with_fuel(camel_from, 3);
                assert("x"@.len() == 1);
                assert(camel("x"@) =~= "x"@);
            }
        },
        Field::Y => {
            assert(camel("y"@) == "y"@) by {
                reveal_strlit("y");
                reveal_with_fuel(camel_from, 3);
                assert("y"@.len() == 1);
                assert(camel("y"@) =~= "y"@);
            }
        },
        Field::Z => {
            assert(camel("z"@) == "z"@) by {
                reveal_strlit("z");
                reveal_with_fuel(camel_from, 3);
                assert("z"@.len() == 1);
                assert(camel("z"@) =~= "z"@);
            }
        },
        Field::Name => {
            assert(camel("name"@) == "name"@) by {
                reveal_strlit("name");
                reveal_with_fuel(camel_from, 6);
                assert("name"@.len() == 4);
                assert(camel("name"@) =~= "name"@);
            }
        },
        Field::XMin => {
            assert(camel("x_min"@) == "xMin"@) by {
                reveal_strlit("x_min");
                reveal_strlit("xMin");
                reveal_with_fuel(camel_from, 7);
                assert("x_min"@.len() == 5);
                assert("xMin"@.len() == 4);
                assert(upper('m') == 'M');
                assert(camel("x_min"@) =~= "xMin"@);
            }
        },
        Field::YMin => {
            assert(camel("y_min"@) == "yMin"@) by {
                reveal_strlit("y_min");
                reveal_strlit("yMin");
                reveal_with_fuel(camel_from, 7);
                assert("y_min"@.len() == 5);
                assert("yMin"@.len() == 4);
                assert(upper('m') == 'M');
                assert(camel("y_min"@) =~= "yMin"@);
            }
        },
        Field::XMax => {
            assert(camel("x_max"@) == "xMax"@) by {
                reveal_strlit("x_max");
                reveal_strlit("xMax");
                reveal_with_fuel(camel_from, 7);
                assert("x_max"@.len() == 5);
                assert("xMax"@.len() == 4);
                assert(upper('m') == 'M');
                assert(camel("x_max"@) =~= "xMax"@);
            }
        },
        Field::YMax => {
            assert(camel("y_max"@) == "yMax"@) by {
                reveal_strlit("y_max");
                reveal_strlit("yMax");
                reveal_with_fuel(camel_from, 7);
                assert("y_max"@.len() == 5);
                assert("yMax"@.len() == 4);
                assert(upper('m') == 'M');
                assert(camel("y_max"@) =~= "yMax"@);
            }
        },
        Field::Width => {
            assert(camel("width"@) == "width"@) by {
                reveal_strlit("width");
                reveal_with_fuel(camel_from, 7);
                assert("width"@.len() == 5);
                assert(camel("width"@) =~= "width"@);
            }
        },
        Field::Height => {
            assert(camel("height"@) == "height"@) by {
                reveal_strlit("height");
                reveal_with_fuel(camel_from, 8);
                assert("height"@.len() == 6);
                assert(camel("height"@) =~= "height"@);
            }
        },
    }
}

impl Field {
    /// The name of this field.
    pub fn name(self) -> (k: &'static str)
        ensures
            k@ == field_name(self),
    {
        match self {
            Field::Keypoints => "keypoints",
            Field::Score => "score",
            Field::Keypoints3d => "keypoints_3d",
            Field::BoundingBox => "bounding_box",
            Field::Id => "id",
            Field::X => "x",
            Field::Y => "y",
            Field::Z => "z",
            Field::Name => "name",
            Field::XMin => "x_min",
            Field::YMin => "y_min",
            Field::XMax => "x_max",
            Field::YMax => "y_max",
            Field::Width => "width",
            Field::Height => "height",
        }
    }

    /// The key under which the engine holds this field.
    pub fn key(self) -> (k: &'static str)
        ensures
            k@ == field_key(self),
    {
        match self {
            Field::Keypoints => "keypoints",
            Field::Score => "score",
            Field::Keypoints3d => "keypoints3d",
            Field::BoundingBox => "boundingBox",
            Field::Id => "id",
            Field::X => "x",
            Field::Y => "y",
            Field::Z => "z",
            Field::Name => "name",
            Field::XMin => "xMin",
            Field::YMin => "yMin",
            Field::XMax => "xMax",
            Field::YMax => "yMax",
            Field::Width => "width",
            Field::Height => "height",
        }
    }
}

/// Why an element of an estimation result is no pose.
#[derive(Clone, Copy, Debug, PartialEq, Eq, Structural)]
pub enum DecodeReason {
    /// What came back is no list of elements.
    NotAList,
    /// The element is not a record.
    NotARecord,
    /// A field that a pose must have is not there.
    MissingField(Field),
    /// A field holds a value of another type than its own.
    TypeMismatch(Field),
}

/// The first element of an estimation result that is no pose, and why.
#[derive(Clone, Copy, Debug, PartialEq, Eq, Structural)]
pub struct DecodeError {
    pub position: usize,
    pub reason: DecodeReason,
}

/// What a record holds for a field. A field that holds the undefined value
/// counts as not there.
pub open spec fn field_of(r: Entries, f: Field) -> Option<Value> {
    match lookup(r, field_key(f)) {
        Some(Value::Undefined) => None,
        o => o,
    }
}

/// A number that must be there.
pub open spec fn req_num(r: Entries, f: Field) -> Result<Number, DecodeReason> {
    match field_of(r, f) {
        None => Err(DecodeReason::MissingField(f)),
        Some(Value::Num(n)) => Ok(n),
        Some(_) => Err(DecodeReason::TypeMismatch(f)),
    }
}

/// A number that may be there.
pub open spec fn opt_num(r: Entries, f: Field) -> Result<Option<Number>, DecodeReason> {
    match field_of(r, f) {
        None => Ok(None),
        Some(Value::Num(n)) => Ok(Some(n)),
        Some(_) => Err(DecodeReason::TypeMismatch(f)),
    }
}

/// A string that may be there.
pub open spec fn opt_str(r: Entries, f: Field) -> Result<Option<Seq<char>>, DecodeReason> {
    match field_of(r, f) {
        None => Ok(None),
        Some(Value::Str(s)) => Ok(Some(s)),
        Some(_) => Err(DecodeReason::TypeMismatch(f)),
    }
}

/// The keypoint that a value stands for. `list` is the field whose list the
/// value was found in: a value that is no record makes that field ill-typed.
/// The fields are read in the order x, y, z, score, name, and the first that
/// fails gives the reason.
pub open spec fn keypoint_of(v: Value, list: Field) -> Result<KeypointView, DecodeReason> {
    match v {
        Value::Record(r) => {
            if req_num(r, Field::X) is Err {
                Err(req_num(r, Field::X)->Err_0)
            } else if req_num(r, Field::Y) is Err {
                Err(req_num(r, Field::Y)->Err_0)
            } else if opt_num(r, Field::Z) is Err {
                Err(opt_num(r, Field::Z)->Err_0)
            } else if opt_num(r, Field::Score) is Err {
                Err(opt_num(r, Field::Score)->Err_0)
            } else if opt_str(r, Field::Name) is Err {
                Err(opt_str(r, Field::Name)->Err_0)
            } else {
                Ok(
                    KeypointView {
                        x: req_num(r, Field::X)->Ok_0,
                        y: req_num(r, Field::Y)->Ok_0,
                        z: opt_num(r, Field::Z)->Ok_0,
                        score: opt_num(r, Field::Score)->Ok_0,
                        name: opt_str(r, Field::Name)->Ok_0,
                    },
                )
            }
        },
        _ => Err(DecodeReason::TypeMismatch(list)),
    }
}

/// The keypoints that a list of values stands for: the first value that is
/// no keypoint gives the reason.
pub open spec fn keypoints_of(items: Seq<Value>, list: Field) -> Result<
    Seq<KeypointView>,
    DecodeReason,
>
    decreases items.len(),
{
    if items.len() == 0 {
        Ok(Seq::empty())
    } else {
        match keypoints_of(items.drop_last(), list) {
            Err(e) => Err(e),
            Ok(ks) => match keypoint_of(items.last(), list) {
                Err(e) => Err(e),
                Ok(k) => Ok(ks.push(k)),
            },
        }
    }
}

/// A list of keypoints that may be there.
pub open spec fn opt_keypoints(r: Entries, f: Field) -> Result<
    Option<Seq<KeypointView>>,
    DecodeReason,
> {
    match field_of(r, f) {
        None => Ok(None),
        Some(Value::List(items)) => match keypoints_of(items, f) {
            Ok(ks) => Ok(Some(ks)),
            Err(e) => Err(e),
        },
        Some(_) => Err(DecodeReason::TypeMismatch(f)),
    }
}

/// The box that a record stands for. Its six numbers must all be there; they
/// are read in the order of the fields of `BoundingBox`.
pub open spec fn box_of(r: Entries) -> Result<BoundingBox, DecodeReason> {
    if req_num(r, Field::XMin) is Err {
        Err(req_num(r, Field::XMin)->Err_0)
    } else if req_num(r, Field::YMin) is Err {
        Err(req_num(r, Field::YMin)->Err_0)
    } else if req_num(r, Field::XMax) is Err {
        Err(req_num(r, Field::XMax)->Err_0)
    } else if req_num(r, Field::YMax) is Err {
        Err(req_num(r, Field::YMax)->Err_0)
    } else if req_num(r, Field::Width) is Err {
        Err(req_num(r, Field::Width)->Err_0)
    } else if req_num(r, Field::Height) is Err {
        Err(req_num(r, Field::Height)->Err_0)
    } else {
        Ok(
            BoundingBox {
                x_min: req_num(r, Field::XMin)->Ok_0,
                y_min: req_num(r, Field::YMin)->Ok_0,
                x_max: req_num(r, Field::XMax)->Ok_0,
                y_max: req_num(r, Field::YMax)->Ok_0,
                width: req_num(r, Field::Width)->Ok_0,
                height: req_num(r, Field::Height)->Ok_0,
            },
        )
    }
}

/// A box that may be there.
pub open spec fn opt_box(r: Entries) -> Result<Option<BoundingBox>, DecodeReason> {
    match field_of(r, Field::BoundingBox) {
        None => Ok(None),
        Some(Value::Record(b)) => match box_of(b) {
            Ok(b) => Ok(Some(b)),
            Err(e) => Err(e),
        },
        Some(_) => Err(DecodeReason::TypeMismatch(Field::BoundingBox)),
    }
}

/// The pose that a value stands for. The fields are read in the order
/// keypoints, score, keypoints3d, boundingBox, id, and the first that fails
/// gives the reason. Keys that are no field of a pose are passed over.
pub open spec fn pose_of(v: Value) -> Result<PoseView, DecodeReason> {
    match v {
        Value::Record(r) => {
            if opt_keypoints(r, Field::Keypoints) is Err {
                Err(opt_keypoints(r, Field::Keypoints)->Err_0)
            } else if opt_keypoints(r, Field::Keypoints)->Ok_0 is None {
                Err(DecodeReason::MissingField(Field::Keypoints))
            } else if opt_num(r, Field::Score) is Err {
                Err(opt_num(r, Field::Score)->Err_0)
            } else if opt_keypoints(r, Field::Keypoints3d) is Err {
                Err(opt_keypoints(r, Field::Keypoints3d)->Err_0)
            } else if opt_box(r) is Err {
                Err(opt_box(r)->Err_0)
            } else if opt_num(r, Field::Id) is Err {
                Err(opt_num(r, Field::Id)->Err_0)
            } else {
                Ok(
                    PoseView {
                        keypoints: opt_keypoints(r, Field::Keypoints)->Ok_0->Some_0,
                        score: opt_num(r, Field::Score)->Ok_0,
                        keypoints_3d: opt_keypoints(r, Field::Keypoints3d)->Ok_0,
                        bounding_box: opt_box(r)->Ok_0,
                        id: opt_num(r, Field::Id)->Ok_0,
                    },
                )
            }
        },
        _ => Err(DecodeReason::NotARecord),
    }
}

/// The poses that an estimation result stands for, or the place of its first
/// element that is no pose, with the reason. Nothing partial comes out.
pub open spec fn poses_of(raw: Seq<Value>) -> Result<Seq<PoseView>, (int, DecodeReason)>
    decreases raw.len(),
{
    if raw.len() == 0 {
        Ok(Seq::empty())
    } else {
        match poses_of(raw.drop_last()) {
            Err(e) => Err(e),
            Ok(ps) => match pose_of(raw.last()) {
                Err(reason) => Err((raw.len() - 1, reason)),
                Ok(p) => Ok(ps.push(p)),
            },
        }
    }
}

/// A failure among the first elements is the failure of the whole list.
pub proof fn lemma_keypoints_prefix_err(items: Seq<Value>, list: Field, n: int)
    requires
        0 <= n <= items.len(),
        keypoints_of(items.take(n), list) is Err,
    ensures
        keypoints_of(items, list) == keypoints_of(items.take(n), list),
    decreases items.len() - n,
{
    if n < items.len() {
        assert(items.take(n + 1).drop_last() =~= items.take(n));
        lemma_keypoints_prefix_err(items, list, n + 1);
    } else {
        assert(items.take(n) =~= items);
    }
}

/// A failure among the first elements is the failure of the whole result.
pub proof fn lemma_poses_prefix_err(raw: Seq<Value>, n: int)
    requires
        0 <= n <= raw.len(),
        poses_of(raw.take(n)) is Err,
    ensures
        poses_of(raw) == poses_of(raw.take(n)),
    decreases raw.len() - n,
{
    if n < raw.len() {
        assert(raw.take(n + 1).drop_last() =~= raw.take(n));
        lemma_poses_prefix_err(raw, n + 1);
    } else {
        assert(raw.take(n) =~= raw);
    }
}

/// Where every element before `n` is a pose, the first `n` elements decode to
/// those poses, in order.
pub proof fn lemma_poses_prefix_ok(raw: Seq<Value>, n: int)
    requires
        0 <= n <= raw.len(),
        forall|j: int| 0 <= j < n ==> (#[trigger] pose_of(raw[j])) is Ok,
    ensures
        poses_of(raw.take(n)) == Ok::<Seq<PoseView>, (int, DecodeReason)>(
            Seq::new(n as nat, |j: int| pose_of(raw[j])->Ok_0),
        ),
    decreases n,
{
    if n > 0 {
        lemma_poses_prefix_ok(raw, n - 1);
        assert(raw.take(n).drop_last() =~= raw.take(n - 1));
        assert(raw.take(n).last() == raw[n - 1]);
        assert(pose_of(raw[n - 1]) is Ok);
        assert(Seq::new((n - 1) as nat, |j: int| pose_of(raw[j])->Ok_0).push(
            pose_of(raw[n - 1])->Ok_0,
        ) =~= Seq::new(n as nat, |j: int| pose_of(raw[j])->Ok_0));
    } else {
        assert(Seq::new(0, |j: int| pose_of(raw[j])->Ok_0) =~= Seq::<PoseView>::empty());
    }
}

/// A result decodes exactly where each of its elements is a pose, and then to
/// those poses, element by element.
pub proof fn lemma_decode_all(raw: Seq<Value>)
    requires
        forall|j: int| 0 <= j < raw.len() ==> (#[trigger] pose_of(raw[j])) is Ok,
    ensures
        poses_of(raw) == Ok::<Seq<PoseView>, (int, DecodeReason)>(
            Seq::new(raw.len(), |j: int| pose_of(raw[j])->Ok_0),
        ),
{
    lemma_poses_prefix_ok(raw, raw.len() as int);
    assert(raw.take(raw.len() as int) =~= raw);
}

/// Where the element at `i` is the first that is no pose, the whole result
/// fails, with the place `i` and the reason for which that element is none.
pub proof fn lemma_decode_first_failure(raw: Seq<Value>, i: int)
    requires
        0 <= i < raw.len(),
        pose_of(raw[i]) is Err,
        forall|j: int| 0 <= j < i ==> (#[trigger] pose_of(raw[j])) is Ok,
    ensures
        poses_of(raw) == Err::<Seq<PoseView>, (int, DecodeReason)>((i, pose_of(raw[i])->Err_0)),
{
    lemma_poses_prefix_ok(raw, i);
    assert(raw.take(i + 1).drop_last() =~= raw.take(i));
    assert(raw.take(i + 1).last() == raw[i]);
    lemma_poses_prefix_err(raw, i + 1);
}

/// What the record holds for a field.
fn field<'a>(r: &'a DynRecord, f: Field) -> (o: Option<&'a DynValue>)
    ensures
        match o {
            Some(v) => field_of(r@, f) == Some(v@),
            None => field_of(r@, f) is None,
        },
{
    match r.get(f.key()) {
        Some(DynValue::Undefined) => None,
        o => o,
    }
}

fn required_number(r: &DynRecord, f: Field) -> (o: Result<Number, DecodeReason>)
    ensures
        o == req_num(r@, f),
{
    match field(r, f) {
        None => Err(DecodeReason::MissingField(f)),
        Some(DynValue::Num(n)) => Ok(*n),
        Some(_) => Err(DecodeReason::TypeMismatch(f)),
    }
}

fn optional_number(r: &DynRecord, f: Field) -> (o: Result<Option<Number>, DecodeReason>)
    ensures
        o == opt_num(r@, f),
{
    match field(r, f) {
        None => Ok(None),
        Some(DynValue::Num(n)) => Ok(Some(*n)),
        Some(_) => Err(DecodeReason::TypeMismatch(f)),
    }
}

fn optional_string(r: &DynRecord, f: Field) -> (o: Result<Option<String>, DecodeReason>)
    ensures
        match o {
            Ok(Some(s)) => opt_str(r@, f) == Ok::<Option<Seq<char>>, DecodeReason>(Some(s@)),
            Ok(None) => opt_str(r@, f) == Ok::<Option<Seq<char>>, DecodeReason>(None),
            Err(e) => opt_str(r@, f) == Err::<Option<Seq<char>>, DecodeReason>(e),
        },
{
    match field(r, f) {
        None => Ok(None),
        Some(DynValue::Str(s)) => Ok(Some(s.clone())),
        Some(_) => Err(DecodeReason::TypeMismatch(f)),
    }
}

impl Keypoint {
    /// Reads a keypoint from a value that was found in the list of `list`.
    pub fn decode(v: &DynValue, list: Field) -> (o: Result<Keypoint, DecodeReason>)
        ensures
            match o {
                Ok(k) => keypoint_of(v@, list) == Ok::<KeypointView, DecodeReason>(k@),
                Err(e) => keypoint_of(v@, list) == Err::<KeypointView, DecodeReason>(e),
            },
    {
        match v {
            DynValue::Record(r) => {
                let x = match required_number(r, Field::X) {
                    Ok(n) => n,
                    Err(e) => { return Err(e); },
                };
                let y = match required_number(r, Field::Y) {
                    Ok(n) => n,
                    Err(e) => { return Err(e); },
                };
                let z = match optional_number(r, Field::Z) {
                    Ok(n) => n,
                    Err(e) => { return Err(e); },
                };
                let score = match optional_number(r, Field::Score) {
                    Ok(n) => n,
                    Err(e) => { return Err(e); },
                };
                let name = match optional_string(r, Field::Name) {
                    Ok(s) => s,
                    Err(e) => { return Err(e); },
                };
                Ok(Keypoint { x, y, z, score, name })
            },
            _ => Err(DecodeReason::TypeMismatch(list)),
        }
    }
}

/// Reads the keypoints of the list of `list`.
fn decode_keypoints(items: &Vec<DynValue>, list: Field) -> (o: Result<Vec<Keypoint>, DecodeReason>)
    ensures
        match o {
            Ok(ks) => keypoints_of(list_view(items@), list) == Ok::<
                Seq<KeypointView>,
                DecodeReason,
            >(keypoints_view(ks@)),
            Err(e) => keypoints_of(list_view(items@), list) == Err::<
                Seq<KeypointView>,
                DecodeReason,
            >(e),
        },
{
    let ghost all = list_view(items@);
    let mut out: Vec<Keypoint> = Vec::new();
    let mut i: usize = 0;
    assert(keypoints_view(out@) =~= Seq::empty());
    assert(all.take(0) =~= Seq::empty());
    while i < items.len()
        invariant
            i <= items.len(),
            all == list_view(items@),
            keypoints_of(all.take(i as int), list) == Ok::<Seq<KeypointView>, DecodeReason>(
                keypoints_view(out@),
            ),
        decreases items.len() - i,
    {
        proof {
            assert(all.take(i + 1).drop_last() =~= all.take(i as int));
            assert(all.take(i + 1).last() == items@[i as int]@);
        }
        let ghost before = keypoints_view(out@);
        match Keypoint::decode(&items[i], list) {
            Ok(k) => {
                out.push(k);
                assert(keypoints_view(out@) =~= before.push(k@));
            },
            Err(e) => {
                proof {
                    lemma_keypoints_prefix_err(all, list, i + 1);
                }
                return Err(e);
            },
        }
        i += 1;
    }
    assert(all.take(i as int) =~= all);
    Ok(out)
}

fn optional_keypoints(r: &DynRecord, f: Field) -> (o: Result<Option<Vec<Keypoint>>, DecodeReason>)
    ensures
        match o {
            Ok(Some(ks)) => opt_keypoints(r@, f) == Ok::<Option<Seq<KeypointView>>, DecodeReason>(
                Some(keypoints_view(ks@)),
            ),
            Ok(None) => opt_keypoints(r@, f) == Ok::<Option<Seq<KeypointView>>, DecodeReason>(None),
            Err(e) => opt_keypoints(r@, f) == Err::<Option<Seq<KeypointView>>, DecodeReason>(e),
        },
{
    match field(r, f) {
        None => Ok(None),
        Some(DynValue::List(items)) => match decode_keypoints(items, f) {
            Ok(ks) => Ok(Some(ks)),
            Err(e) => Err(e),
        },
        Some(_) => Err(DecodeReason::TypeMismatch(f)),
    }
}

impl BoundingBox {
    /// Reads a box from its record.
    pub fn decode(r: &DynRecord) -> (o: Result<BoundingBox, DecodeReason>)
        ensures
            o == box_of(r@),
    {
        let x_min = match required_number(r, Field::XMin) {
            Ok(n) => n,
            Err(e) => { return Err(e); },
        };
        let y_min = match required_number(r, Field::YMin) {
            Ok(n) => n,
            Err(e) => { return Err(e); },
        };
        let x_max = match required_number(r, Field::XMax) {
            Ok(n) => n,
            Err(e) => { return Err(e); },
        };
        let y_max = match required_number(r, Field::YMax) {
            Ok(n) => n,
            Err(e) => { return Err(e); },
        };
        let width = match required_number(r, Field::Width) {
            Ok(n) => n,
            Err(e) => { return Err(e); },
        };
        let height = match required_number(r, Field::Height) {
            Ok(n) => n,
            Err(e) => { return Err(e); },
        };
        Ok(BoundingBox { x_min, y_min, x_max, y_max, width, height })
    }
}

fn optional_box(r: &DynRecord) -> (o: Result<Option<BoundingBox>, DecodeReason>)
    ensures
        o == opt_box(r@),
{
    match field(r, Field::BoundingBox) {
        None => Ok(None),
        Some(DynValue::Record(b)) => match BoundingBox::decode(b) {
            Ok(b) => Ok(Some(b)),
            Err(e) => Err(e),
        },
        Some(_) => Err(DecodeReason::TypeMismatch(Field::BoundingBox)),
    }
}

impl Pose {
    /// Reads one pose from one element of an estimation result.
    pub fn try_from(v: &DynValue) -> (o: Result<Pose, DecodeReason>)
        ensures
            match o {
                Ok(p) => pose_of(v@) == Ok::<PoseView, DecodeReason>(p@),
                Err(e) => pose_of(v@) == Err::<PoseView, DecodeReason>(e),
            },
    {
        match v {
            DynValue::Record(r) => {
                let keypoints = match optional_keypoints(r, Field::Keypoints) {
                    Ok(Some(ks)) => ks,
                    Ok(None) => { return Err(DecodeReason::MissingField(Field::Keypoints)); },
                    Err(e) => { return Err(e); },
                };
                let score = match optional_number(r, Field::Score) {
                    Ok(n) => n,
                    Err(e) => { return Err(e); },
                };
                let keypoints_3d = match optional_keypoints(r, Field::Keypoints3d) {
                    Ok(ks) => ks,
                    Err(e) => { return Err(e); },
                };
                let bounding_box = match optional_box(r) {
                    Ok(b) => b,
                    Err(e) => { return Err(e); },
                };
                let id = match optional_number(r, Field::Id) {
                    Ok(n) => n,
                    Err(e) => { return Err(e); },
                };
                Ok(Pose { keypoints, score, keypoints_3d, bounding_box, id })
            },
            _ => Err(DecodeReason::NotARecord),
        }
    }
}

/// Turns an estimation result into poses. Each element is read on its own;
/// the first that is no pose fails the whole call, with its place.
pub fn decode(raw: &Vec<DynValue>) -> (o: Result<Vec<Pose>, DecodeError>)
    ensures
        match o {
            Ok(ps) => poses_of(list_view(raw@)) == Ok::<Seq<PoseView>, (int, DecodeReason)>(
                poses_view(ps@),
            ),
            Err(e) => poses_of(list_view(raw@)) == Err::<Seq<PoseView>, (int, DecodeReason)>(
                (e.position as int, e.reason),
            ),
        },
{
    let ghost all = list_view(raw@);
    let mut out: Vec<Pose> = Vec::new();
    let mut i: usize = 0;
    assert(poses_view(out@) =~= Seq::empty());
    assert(all.take(0) =~= Seq::empty());
    while i < raw.len()
        invariant
            i <= raw.len(),
            all == list_view(raw@),
            poses_of(all.take(i as int)) == Ok::<Seq<PoseView>, (int, DecodeReason)>(
                poses_view(out@),
            ),
        decreases raw.len() - i,
    {
        proof {
            assert(all.take(i + 1).drop_last() =~= all.take(i as int));
            assert(all.take(i + 1).last() == raw@[i as int]@);
        }
        let ghost before = poses_view(out@);
        match Pose::try_from(&raw[i]) {
            Ok(p) => {
                out.push(p);
                assert(poses_view(out@) =~= before.push(p@));
            },
            Err(reason) => {
                proof {
                    lemma_poses_prefix_err(all, i + 1);
                }
                return Err(DecodeError { position: i, reason });
            },
        }
        i += 1;
    }
    assert(all.take(i as int) =~= all);
    Ok(out)
}

/// The value of an optional name.
pub open spec fn name_value(name: Option<Seq<char>>) -> Option<Value> {
    match name {
        Some(s) => Some(Value::Str(s)),
        None => None,
    }
}

/// The record that stands for a keypoint.
pub open spec fn keypoint_entries(k: KeypointView) -> Entries {
    let r = rec_set(Seq::empty(), "x"@, Value::Num(k.x));
    let r = rec_set(r, "y"@, Value::Num(k.y));
    let r = with_opt(r, "z"@, num_value(k.z));
    let r = with_opt(r, "score"@, num_value(k.score));
    with_opt(r, "name"@, name_value(k.name))
}

/// The values that stand for a run of keypoints.
pub open spec fn keypoint_values(ks: Seq<KeypointView>) -> Seq<Value> {
    Seq::new(ks.len(), |i: int| Value::Record(keypoint_entries(ks[i])))
}

/// The record that stands for a box.
pub open spec fn box_entries(b: BoundingBox) -> Entries {
    let r = rec_set(Seq::empty(), "xMin"@, Value::Num(b.x_min));
    let r = rec_set(r, "yMin"@, Value::Num(b.y_min));
    let r = rec_set(r, "xMax"@, Value::Num(b.x_max));
    let r = rec_set(r, "yMax"@, Value::Num(b.y_max));
    let r = rec_set(r, "width"@, Value::Num(b.width));
    rec_set(r, "height"@, Value::Num(b.height))
}

pub open spec fn keypoints_value(ks: Option<Seq<KeypointView>>) -> Option<Value> {
    match ks {
        Some(ks) => Some(Value::List(keypoint_values(ks))),
        None => None,
    }
}

pub open spec fn box_value(b: Option<BoundingBox>) -> Option<Value> {
    match b {
        Some(b) => Some(Value::Record(box_entries(b))),
        None => None,
    }
}

/// The record that stands for a pose.
pub open spec fn pose_entries(p: PoseView) -> Entries {
    let r = rec_set(Seq::empty(), "keypoints"@, Value::List(keypoint_values(p.keypoints)));
    let r = with_opt(r, "score"@, num_value(p.score));
    let r = with_opt(r, "keypoints3d"@, keypoints_value(p.keypoints_3d));
    let r = with_opt(r, "boundingBox"@, box_value(p.bounding_box));
    with_opt(r, "id"@, num_value(p.id))
}

/// The values that stand for a run of poses.
pub open spec fn pose_values(ps: Seq<PoseView>) -> Seq<Value> {
    Seq::new(ps.len(), |i: int| Value::Record(pose_entries(ps[i])))
}

fn encode_keypoints(ks: &Vec<Keypoint>) -> (out: Vec<DynValue>)
    ensures
        list_view(out@) == keypoint_values(keypoints_view(ks@)),
{
    let mut out: Vec<DynValue> = Vec::new();
    let mut i: usize = 0;
    while i < ks.len()
        invariant
            i <= ks.len(),
            out@.len() == i,
            forall|j: int|
                0 <= j < i ==> (#[trigger] out@[j])@ == Value::Record(keypoint_entries(ks@[j]@)),
        decreases ks.len() - i,
    {
        out.push(DynValue::Record(ks[i].encode()));
        i += 1;
    }
    assert(list_view(out@) =~= keypoint_values(keypoints_view(ks@)));
    out
}

impl Keypoint {
    /// The record that stands for this keypoint.
    pub fn encode(&self) -> (r: DynRecord)
        ensures
            r@ == keypoint_entries(self@),
            r.wf(),
    {
        let mut r = DynRecord::new();
        r.set("x", DynValue::Num(self.x));
        r.set("y", DynValue::Num(self.y));
        r.set_opt("z", dyn_num(self.z));
        r.set_opt("score", dyn_num(self.score));
        r.set_opt(
            "name",
            match &self.name {
                Some(s) => Some(DynValue::Str(s.clone())),
                None => None,
            },
        );
        r
    }
}

impl BoundingBox {
    /// The record that stands for this box.
    pub fn encode(&self) -> (r: DynRecord)
        ensures
            r@ == box_entries(*self),
            r.wf(),
    {
        let mut r = DynRecord::new();
        r.set("xMin", DynValue::Num(self.x_min));
        r.set("yMin", DynValue::Num(self.y_min));
        r.set("xMax", DynValue::Num(self.x_max));
        r.set("yMax", DynValue::Num(self.y_max));
        r.set("width", DynValue::Num(self.width));
        r.set("height", DynValue::Num(self.height));
        r
    }
}

impl Pose {
    /// The record that stands for this pose, as the engine would give it.
    pub fn encode(&self) -> (v: DynValue)
        ensures
            v@ == Value::Record(pose_entries(self@)),
    {
        let mut r = DynRecord::new();
        r.set("keypoints", DynValue::List(encode_keypoints(&self.keypoints)));
        r.set_opt("score", dyn_num(self.score));
        r.set_opt(
            "keypoints3d",
            match &self.keypoints_3d {
                Some(ks) => Some(DynValue::List(encode_keypoints(ks))),
                None => None,
            },
        );
        r.set_opt(
            "boundingBox",
            match &self.bounding_box {
                Some(b) => Some(DynValue::Record(b.encode())),
                None => None,
            },
        );
        r.set_opt("id", dyn_num(self.id));
        DynValue::Record(r)
    }
}

/// The keys of a keypoint's fields differ from one another.
proof fn lemma_keypoint_keys()
    ensures
        "x"@ != "y"@,
        "x"@ != "z"@,
        "x"@ != "score"@,
        "x"@ != "name"@,
        "y"@ != "z"@,
        "y"@ != "score"@,
        "y"@ != "name"@,
        "z"@ != "score"@,
        "z"@ != "name"@,
        "score"@ != "name"@,
{
    reveal_strlit("x");
    reveal_strlit("y");
    reveal_strlit("z");
    reveal_strlit("score");
    reveal_strlit("name");
    assert("x"@.len() == 1);
    assert("y"@.len() == 1);
    assert("z"@.len() == 1);
    assert("score"@.len() == 5);
    assert("name"@.len() == 4);
    assert("x"@[0] == 'x');
    assert("y"@[0] == 'y');
    assert("z"@[0] == 'z');
    assert("score"@[0] == 's');
    assert("name"@[0] == 'n');
}

/// A keypoint that is written as a record and read back is the same
/// keypoint, whichever of its optional fields are set.
pub proof fn lemma_keypoint_round_trip(k: KeypointView, list: Field)
    ensures
        keypoint_of(Value::Record(keypoint_entries(k)), list) == Ok::<KeypointView, DecodeReason>(
            k,
        ),
{
    broadcast use group_record_laws;

    lemma_keypoint_keys();
}

/// Keypoints that are written as a list and read back are the same
/// keypoints.
pub proof fn lemma_keypoints_round_trip(ks: Seq<KeypointView>, list: Field)
    ensures
        keypoints_of(keypoint_values(ks), list) == Ok::<Seq<KeypointView>, DecodeReason>(ks),
    decreases ks.len(),
{
    if ks.len() > 0 {
        lemma_keypoints_round_trip(ks.drop_last(), list);
        lemma_keypoint_round_trip(ks.last(), list);
        assert(keypoint_values(ks).drop_last() =~= keypoint_values(ks.drop_last()));
        assert(ks.drop_last().push(ks.last()) =~= ks);
    } else {
        assert(ks =~= Seq::empty());
    }
}

/// A box that is written as a record and read back is the same box.
pub proof fn lemma_box_round_trip(b: BoundingBox)
    ensures
        box_of(box_entries(b)) == Ok::<BoundingBox, DecodeReason>(b),
{
    broadcast use group_record_laws;

    reveal_strlit("xMin");
    reveal_strlit("yMin");
    reveal_strlit("xMax");
    reveal_strlit("yMax");
    reveal_strlit("width");
    reveal_strlit("height");
    assert("xMin"@.len() == 4);
    assert("yMin"@.len() == 4);
    assert("xMax"@.len() == 4);
    assert("yMax"@.len() == 4);
    assert("width"@.len() == 5);
    assert("height"@.len() == 6);
    assert("xMin"@[0] == 'x');
    assert("yMin"@[0] == 'y');
    assert("xMax"@[0] == 'x');
    assert("yMax"@[0] == 'y');
    assert("xMin"@[2] == 'i');
    assert("yMin"@[2] == 'i');
    assert("xMax"@[2] == 'a');
    assert("yMax"@[2] == 'a');
}

/// A pose that is written as a record and read back is the same pose, field
/// for field, whichever of its optional fields are set.
pub proof fn lemma_pose_round_trip(p: PoseView)
    ensures
        pose_of(Value::Record(pose_entries(p))) == Ok::<PoseView, DecodeReason>(p),
{
    broadcast use group_record_laws;

    reveal_strlit("keypoints");
    reveal_strlit("score");
    reveal_strlit("keypoints3d");
    reveal_strlit("boundingBox");
    reveal_strlit("id");
    assert("keypoints"@.len() == 9);
    assert("score"@.len() == 5);
    assert("keypoints3d"@.len() == 11);
    assert("boundingBox"@.len() == 11);
    assert("id"@.len() == 2);
    assert("keypoints3d"@[0] == 'k');
    assert("boundingBox"@[0] == 'b');
    lemma_keypoints_round_trip(p.keypoints, Field::Keypoints);
    match p.keypoints_3d {
        Some(ks) => lemma_keypoints_round_trip(ks, Field::Keypoints3d),
        None => {},
    }
    match p.bounding_box {
        Some(b) => lemma_box_round_trip(b),
        None => {},
    }
}

/// Poses that are written as an estimation result and decoded are the same
/// poses.
pub proof fn lemma_decode_round_trip(ps: Seq<PoseView>)
    ensures
        poses_of(pose_values(ps)) == Ok::<Seq<PoseView>, (int, DecodeReason)>(ps),
{
    let raw = pose_values(ps);
    assert forall|j: int| 0 <= j < raw.len() implies (#[trigger] pose_of(raw[j])) is Ok by {
        lemma_pose_round_trip(ps[j]);
    }
    lemma_decode_all(raw);
    assert(Seq::new(raw.len(), |j: int| pose_of(raw[j])->Ok_0) =~= ps) by {
        assert forall|j: int| 0 <= j < raw.len() implies pose_of(raw[j])->Ok_0 == ps[j] by {
            lemma_pose_round_trip(ps[j]);
        }
    }
}

/// Where every keypoint before `n` reads, the first `n` values read as
/// those keypoints.
pub proof fn lemma_keypoints_prefix_ok(items: Seq<Value>, list: Field, n: int)
    requires
        0 <= n <= items.len(),
        forall|j: int| 0 <= j < n ==> (#[trigger] keypoint_of(items[j], list)) is Ok,
    ensures
        keypoints_of(items.take(n), list) is Ok,
    decreases n,
{
    if n > 0 {
        lemma_keypoints_prefix_ok(items, list, n - 1);
        assert(items.take(n).drop_last() =~= items.take(n - 1));
        assert(items.take(n).last() == items[n - 1]);
        assert(keypoint_of(items[n - 1], list) is Ok);
    }
}

/// A keypoint without a number under `x`, or with one but without a number
/// under `y`, fails the whole estimation result: the error names the place
/// of the pose that holds the first such keypoint, and the coordinate that
/// is missing.
pub proof fn lemma_missing_coordinate(
    raw: Seq<Value>,
    i: int,
    pose: Entries,
    items: Seq<Value>,
    j: int,
    keypoint: Entries,
)
    requires
        0 <= i < raw.len(),
        forall|a: int| 0 <= a < i ==> (#[trigger] pose_of(raw[a])) is Ok,
        raw[i] == Value::Record(pose),
        lookup(pose, "keypoints"@) == Some(Value::List(items)),
        0 <= j < items.len(),
        forall|b: int| 0 <= b < j ==> (#[trigger] keypoint_of(items[b], Field::Keypoints)) is Ok,
        items[j] == Value::Record(keypoint),
        !has_key(keypoint, "x"@) || (req_num(keypoint, Field::X) is Ok && !has_key(
            keypoint,
            "y"@,
        )),
    ensures
        poses_of(raw) == Err::<Seq<PoseView>, (int, DecodeReason)>(
            (
                i,
                DecodeReason::MissingField(
                    if has_key(keypoint, "x"@) {
                        Field::Y
                    } else {
                        Field::X
                    },
                ),
            ),
        ),
{
    lemma_keypoints_prefix_ok(items, Field::Keypoints, j);
    assert(items.take(j + 1).drop_last() =~= items.take(j));
    assert(items.take(j + 1).last() == items[j]);
    lemma_keypoints_prefix_err(items, Field::Keypoints, j + 1);
    lemma_decode_first_failure(raw, i);
}

} // verus!
