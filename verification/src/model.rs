//! The models of the engine, their settings, and the records that the engine
//! is handed for them.
//!
//! Every field goes under its own name in camel case. A field that is not set
//! leaves no key. A field that holds one of several variants is merged into
//! the record that owns it, together with a key that names the variant.

use vstd::prelude::*;
use crate::naming::ConfigField;
use crate::value::{
    bool_value, distinct_keys, dyn_bool, dyn_int, dyn_name, dyn_str, group_record_laws, has_key,
    int_value, lookup, rec_assign, rec_set, str_value, with_opt, DynRecord, DynValue, Entries,
    Number, Value,
};

verus! {

#[derive(Clone, Copy, Debug, PartialEq, Eq, Structural)]
pub enum PoseNetArchitecture {
    ResNet50,
    MobileNetV1,
}

impl PoseNetArchitecture {
    pub open spec fn spec_name(self) -> Seq<char> {
        match self {
            PoseNetArchitecture::ResNet50 => "ResNet50"@,
            PoseNetArchitecture::MobileNetV1 => "MobileNetV1"@,
        }
    }

    /// The name that the engine knows the architecture by.
    pub fn name(&self) -> (s: &'static str)
        ensures
            s@ == self.spec_name(),
    {
        match self {
            PoseNetArchitecture::ResNet50 => "ResNet50",
            PoseNetArchitecture::MobileNetV1 => "MobileNetV1",
        }
    }
}

#[derive(Clone, Copy, Debug, PartialEq, Eq, Structural)]
pub enum PoseNetOutputStride {
    Is32,
    Is16,
    Is8,
}

impl PoseNetOutputStride {
    pub open spec fn spec_stride(self) -> i32 {
        match self {
            PoseNetOutputStride::Is32 => 32,
            PoseNetOutputStride::Is16 => 16,
            PoseNetOutputStride::Is8 => 8,
        }
    }

    /// The stride as a number.
    pub fn stride(self) -> (n: i32)
        ensures
            n == self.spec_stride(),
    {
        match self {
            PoseNetOutputStride::Is32 => 32,
            PoseNetOutputStride::Is16 => 16,
            PoseNetOutputStride::Is8 => 8,
        }
    }
}

#[derive(Clone, Copy, Debug, PartialEq, Eq, Structural)]
pub enum MobileNetMultiplier {
    Is1,
    Is0Point5,
    Is0Point75,
}

/// The bit pattern of the double 0.5.
pub const HALF_BITS: u64 = 0x3FE0_0000_0000_0000;

/// The bit pattern of the double 0.75.
pub const THREE_QUARTERS_BITS: u64 = 0x3FE8_0000_0000_0000;

impl MobileNetMultiplier {
    pub open spec fn spec_number(self) -> Number {
        match self {
            MobileNetMultiplier::Is1 => Number::Int(1),
            MobileNetMultiplier::Is0Point5 => Number::Bits(HALF_BITS),
            MobileNetMultiplier::Is0Point75 => Number::Bits(THREE_QUARTERS_BITS),
        }
    }

    /// The multiplier as a number: 1, 0.5 or 0.75.
    pub fn number(self) -> (n: Number)
        ensures
            n == self.spec_number(),
    {
        match self {
            MobileNetMultiplier::Is1 => Number::Int(1),
            MobileNetMultiplier::Is0Point5 => Number::Bits(HALF_BITS),
            MobileNetMultiplier::Is0Point75 => Number::Bits(THREE_QUARTERS_BITS),
        }
    }
}

#[derive(Clone, Copy, Debug, PartialEq, Eq, Structural)]
pub enum QuantBytes {
    Is1,
    Is2,
    Is4,
}

impl QuantBytes {
    pub open spec fn spec_bytes(self) -> i32 {
        match self {
            QuantBytes::Is1 => 1,
            QuantBytes::Is2 => 2,
            QuantBytes::Is4 => 4,
        }
    }

    /// The number of bytes.
    pub fn bytes(self) -> (n: i32)
        ensures
            n == self.spec_bytes(),
    {
        match self {
            QuantBytes::Is1 => 1,
            QuantBytes::Is2 => 2,
            QuantBytes::Is4 => 4,
        }
    }
}

#[derive(Clone, Copy, Debug, PartialEq, Eq, Structural)]
pub struct InputResolution {
    pub width: i32,
    pub height: i32,
}

impl InputResolution {
    pub open spec fn entries(self) -> Entries {
        rec_set(
            rec_set(
                Seq::empty(),
                ConfigField::Width.spec_key(),
                Value::Num(Number::Int(self.width as i64)),
            ),
            ConfigField::Height.spec_key(),
            Value::Num(Number::Int(self.height as i64)),
        )
    }

    pub fn encode(&self) -> (r: DynRecord)
        ensures
            r@ == self.entries(),
            r.wf(),
    {
        let mut r = DynRecord::new();
        r.set(ConfigField::Width.key(), DynValue::Num(Number::Int(self.width as i64)));
        r.set(ConfigField::Height.key(), DynValue::Num(Number::Int(self.height as i64)));
        r
    }
}

#[derive(Clone, Debug, PartialEq)]
pub struct PoseNetModelConfig {
    pub architecture: PoseNetArchitecture,
    pub output_stride: PoseNetOutputStride,
    pub input_resolution: InputResolution,
    pub multiplier: Option<MobileNetMultiplier>,
    pub model_url: Option<String>,
    pub quant_bytes: Option<QuantBytes>,
}

impl PoseNetModelConfig {
    pub open spec fn multiplier_value(self) -> Option<Value> {
        match self.multiplier {
            Some(m) => Some(Value::Num(m.spec_number())),
            None => None,
        }
    }

    pub open spec fn quant_bytes_value(self) -> Option<Value> {
        match self.quant_bytes {
            Some(q) => Some(Value::Num(Number::Int(q.spec_bytes() as i64))),
            None => None,
        }
    }

    /// The record of these settings: the fields in the order in which the
    /// type declares them.
    pub open spec fn entries(self) -> Entries {
        let r = rec_set(
            Seq::empty(),
            ConfigField::Architecture.spec_key(),
            Value::Str(self.architecture.spec_name()),
        );
        let r = rec_set(
            r,
            ConfigField::OutputStride.spec_key(),
            Value::Num(Number::Int(self.output_stride.spec_stride() as i64)),
        );
        let r = rec_set(
            r,
            ConfigField::InputResolution.spec_key(),
            Value::Record(self.input_resolution.entries()),
        );
        let r = with_opt(r, ConfigField::Multiplier.spec_key(), self.multiplier_value());
        let r = with_opt(r, ConfigField::ModelUrl.spec_key(), str_value(self.model_url));
        with_opt(r, ConfigField::QuantBytes.spec_key(), self.quant_bytes_value())
    }

    pub fn encode(&self) -> (r: DynRecord)
        ensures
            r@ == self.entries(),
            r.wf(),
    {
        let mut r = DynRecord::new();
        r.set(ConfigField::Architecture.key(), dyn_name(self.architecture.name()));
        r.set(
            ConfigField::OutputStride.key(),
            DynValue::Num(Number::Int(self.output_stride.stride() as i64)),
        );
        r.set(ConfigField::InputResolution.key(), DynValue::Record(self.input_resolution.encode()));
        r.set_opt(
            ConfigField::Multiplier.key(),
            match self.multiplier {
                Some(m) => Some(DynValue::Num(m.number())),
                None => None,
            },
        );
        r.set_opt(ConfigField::ModelUrl.key(), dyn_str(&self.model_url));
        r.set_opt(
            ConfigField::QuantBytes.key(),
            match self.quant_bytes {
                Some(q) => Some(DynValue::Num(Number::Int(q.bytes() as i64))),
                None => None,
            },
        );
        r
    }
}

#[derive(Clone, Debug, PartialEq)]
pub struct BlazePoseMediaPipeModelConfig {
    pub solution_path: Option<String>,
}

impl BlazePoseMediaPipeModelConfig {
    pub open spec fn entries(self) -> Entries {
        with_opt(Seq::empty(), ConfigField::SolutionPath.spec_key(), str_value(self.solution_path))
    }

    pub fn encode(&self) -> (r: DynRecord)
        ensures
            r@ == self.entries(),
            r.wf(),
    {
        let mut r = DynRecord::new();
        r.set_opt(ConfigField::SolutionPath.key(), dyn_str(&self.solution_path));
        r
    }
}

#[derive(Clone, Debug, PartialEq)]
pub struct BlazePoseTfjsModelConfig {
    pub detector_model_url: Option<String>,
    pub landmark_model_url: Option<String>,
}

impl BlazePoseTfjsModelConfig {
    pub open spec fn entries(self) -> Entries {
        with_opt(
            with_opt(
                Seq::empty(),
                ConfigField::DetectorModelUrl.spec_key(),
                str_value(self.detector_model_url),
            ),
            ConfigField::LandmarkModelUrl.spec_key(),
            str_value(self.landmark_model_url),
        )
    }

    pub fn encode(&self) -> (r: DynRecord)
        ensures
            r@ == self.entries(),
            r.wf(),
    {
        let mut r = DynRecord::new();
        r.set_opt(ConfigField::DetectorModelUrl.key(), dyn_str(&self.detector_model_url));
        r.set_opt(ConfigField::LandmarkModelUrl.key(), dyn_str(&self.landmark_model_url));
        r
    }
}

/// The backend that BlazePose runs on, with the settings of that backend.
#[derive(Clone, Debug, PartialEq)]
pub enum Runtime {
    Mediapipe(BlazePoseMediaPipeModelConfig),
    Tfjs(BlazePoseTfjsModelConfig),
}

impl Runtime {
    pub open spec fn spec_name(self) -> Seq<char> {
        match self {
            Runtime::Mediapipe(_) => "mediapipe"@,
            Runtime::Tfjs(_) => "tfjs"@,
        }
    }

    /// The name that the engine knows the backend by.
    pub fn name(&self) -> (s: &'static str)
        ensures
            s@ == self.spec_name(),
    {
        match self {
            Runtime::Mediapipe(_) => "mediapipe",
            Runtime::Tfjs(_) => "tfjs",
        }
    }

    /// The settings of the backend that is chosen.
    pub open spec fn variant_entries(self) -> Entries {
        match self {
            Runtime::Mediapipe(c) => c.entries(),
            Runtime::Tfjs(c) => c.entries(),
        }
    }

    /// The settings of the backend that is chosen, and its name under the
    /// key `runtime`.
    pub open spec fn entries(self) -> Entries {
        rec_set(
            self.variant_entries(),
            ConfigField::Runtime.spec_key(),
            Value::Str(self.spec_name()),
        )
    }

    pub fn encode(&self) -> (r: DynRecord)
        ensures
            r@ == self.entries(),
            r.wf(),
    {
        let mut r = match self {
            Runtime::Mediapipe(c) => c.encode(),
            Runtime::Tfjs(c) => c.encode(),
        };
        r.set(ConfigField::Runtime.key(), dyn_name(self.name()));
        r
    }
}

#[derive(Clone, Copy, Debug, PartialEq, Eq, Structural)]
pub enum BlazePoseModelType {
    Lite,
    Full,
    Heavy,
}

impl BlazePoseModelType {
    pub open spec fn spec_name(self) -> Seq<char> {
        match self {
            BlazePoseModelType::Lite => "lite"@,
            BlazePoseModelType::Full => "full"@,
            BlazePoseModelType::Heavy => "heavy"@,
        }
    }

    /// The name that the engine knows the model type by.
    pub fn name(&self) -> (s: &'static str)
        ensures
            s@ == self.spec_name(),
    {
        match self {
            BlazePoseModelType::Lite => "lite",
            BlazePoseModelType::Full => "full",
            BlazePoseModelType::Heavy => "heavy",
        }
    }
}

#[derive(Clone, Debug, PartialEq)]
pub struct BlazePoseModelConfig {
    pub runtime: Runtime,
    pub enable_smoothing: Option<bool>,
    pub enable_segmentation: Option<bool>,
    pub smooth_segmentation: Option<bool>,
    pub model_type: Option<BlazePoseModelType>,
}

impl BlazePoseModelConfig {
    pub open spec fn model_type_value(self) -> Option<Value> {
        match self.model_type {
            Some(t) => Some(Value::Str(t.spec_name())),
            None => None,
        }
    }

    /// The fields of the settings themselves, without the backend.
    pub open spec fn own_entries(self) -> Entries {
        let r = with_opt(
            Seq::empty(),
            ConfigField::EnableSmoothing.spec_key(),
            bool_value(self.enable_smoothing),
        );
        let r = with_opt(
            r,
            ConfigField::EnableSegmentation.spec_key(),
            bool_value(self.enable_segmentation),
        );
        let r = with_opt(
            r,
            ConfigField::SmoothSegmentation.spec_key(),
            bool_value(self.smooth_segmentation),
        );
        with_opt(r, ConfigField::ModelType.spec_key(), self.model_type_value())
    }

    /// The record of these settings: their own fields, with the backend's
    /// record merged in.
    pub open spec fn entries(self) -> Entries {
        rec_assign(self.own_entries(), self.runtime.entries())
    }

    pub fn encode(&self) -> (r: DynRecord)
        ensures
            r@ == self.entries(),
            r.wf(),
    {
        let mut r = DynRecord::new();
        r.set_opt(ConfigField::EnableSmoothing.key(), dyn_bool(self.enable_smoothing));
        r.set_opt(ConfigField::EnableSegmentation.key(), dyn_bool(self.enable_segmentation));
        r.set_opt(ConfigField::SmoothSegmentation.key(), dyn_bool(self.smooth_segmentation));
        r.set_opt(
            ConfigField::ModelType.key(),
            match self.model_type {
                Some(t) => Some(dyn_name(t.name())),
                None => None,
            },
        );
        r.assign(self.runtime.encode());
        r
    }
}

#[derive(Clone, Copy, Debug, PartialEq, Eq, Structural)]
pub enum TrackerType {
    Keypoint,
    BoundingBox,
}

impl TrackerType {
    pub open spec fn spec_name(self) -> Seq<char> {
        match self {
            TrackerType::Keypoint => "keypoint"@,
            TrackerType::BoundingBox => "boundingBox"@,
        }
    }

    /// The name that the engine knows the tracker by.
    pub fn name(&self) -> (s: &'static str)
        ensures
            s@ == self.spec_name(),
    {
        match self {
            TrackerType::Keypoint => "keypoint",
            TrackerType::BoundingBox => "boundingBox",
        }
    }
}

#[derive(Clone, Debug, PartialEq)]
pub struct KeypointTrackerConfig {
    pub keypoint_confidence_threshold: i32,
    pub keypoint_falloff: Vec<i32>,
    pub min_number_of_keypoints: i32,
}

/// The list of whole numbers as a list of values.
pub open spec fn int_list(ns: Seq<i32>) -> Seq<Value> {
    Seq::new(ns.len(), |i: int| Value::Num(Number::Int(ns[i] as i64)))
}

impl KeypointTrackerConfig {
    pub open spec fn entries(self) -> Entries {
        let r = rec_set(
            Seq::empty(),
            ConfigField::KeypointConfidenceThreshold.spec_key(),
            Value::Num(Number::Int(self.keypoint_confidence_threshold as i64)),
        );
        let r = rec_set(
            r,
            ConfigField::KeypointFalloff.spec_key(),
            Value::List(int_list(self.keypoint_falloff@)),
        );
        rec_set(
            r,
            ConfigField::MinNumberOfKeypoints.spec_key(),
            Value::Num(Number::Int(self.min_number_of_keypoints as i64)),
        )
    }

    pub fn encode(&self) -> (r: DynRecord)
        ensures
            r@ == self.entries(),
            r.wf(),
    {
        let mut falloff: Vec<DynValue> = Vec::new();
        let mut i: usize = 0;
        while i < self.keypoint_falloff.len()
            invariant
                i <= self.keypoint_falloff.len(),
                falloff@.len() == i,
                forall|j: int|
                    0 <= j < i ==> (#[trigger] falloff@[j])@ == Value::Num(
                        Number::Int(self.keypoint_falloff@[j] as i64),
                    ),
            decreases self.keypoint_falloff.len() - i,
        {
            falloff.push(DynValue::Num(Number::Int(self.keypoint_falloff[i] as i64)));
            i += 1;
        }
        let list = DynValue::List(falloff);
        assert(list@ == Value::List(int_list(self.keypoint_falloff@))) by {
            assert(crate::value::list_view(falloff@) =~= int_list(self.keypoint_falloff@));
        }
        let mut r = DynRecord::new();
        r.set(
            ConfigField::KeypointConfidenceThreshold.key(),
            DynValue::Num(Number::Int(self.keypoint_confidence_threshold as i64)),
        );
        r.set(ConfigField::KeypointFalloff.key(), list);
        r.set(
            ConfigField::MinNumberOfKeypoints.key(),
            DynValue::Num(Number::Int(self.min_number_of_keypoints as i64)),
        );
        r
    }
}

/// The bounding-box tracker has no settings of its own.
#[derive(Clone, Copy, Debug, PartialEq, Eq, Structural)]
pub struct BoundingBoxTrackerConfig;

#[derive(Clone, Debug, PartialEq)]
pub struct TrackerConfig {
    pub max_tracks: i32,
    pub max_age: i32,
    pub min_similarity: i32,
    pub keypoint_tracker_params: Option<KeypointTrackerConfig>,
    pub bounding_box_tracker_params: Option<BoundingBoxTrackerConfig>,
}

impl TrackerConfig {
    /// The tracker that is active: the keypoint tracker where its settings
    /// are there, else the bounding-box tracker where its settings are.
    pub open spec fn active(self) -> Option<TrackerType> {
        if self.keypoint_tracker_params is Some {
            Some(TrackerType::Keypoint)
        } else if self.bounding_box_tracker_params is Some {
            Some(TrackerType::BoundingBox)
        } else {
            None
        }
    }

    /// The settings of the tracker that is active, and its name under the
    /// key `trackerType`; nothing where no tracker is active.
    pub open spec fn variant_entries(self) -> Entries {
        match self.active() {
            Some(TrackerType::Keypoint) => rec_set(
                self.keypoint_tracker_params->0.entries(),
                ConfigField::TrackerType.spec_key(),
                Value::Str(TrackerType::Keypoint.spec_name()),
            ),
            Some(TrackerType::BoundingBox) => rec_set(
                Seq::empty(),
                ConfigField::TrackerType.spec_key(),
                Value::Str(TrackerType::BoundingBox.spec_name()),
            ),
            None => Seq::empty(),
        }
    }

    pub open spec fn active_value(self) -> Option<Value> {
        match self.active() {
            Some(t) => Some(Value::Str(t.spec_name())),
            None => None,
        }
    }

    /// The fields that every tracker has, with the record of the active
    /// tracker merged in.
    pub open spec fn entries(self) -> Entries {
        let r = rec_set(
            Seq::empty(),
            ConfigField::MaxTracks.spec_key(),
            Value::Num(Number::Int(self.max_tracks as i64)),
        );
        let r = rec_set(
            r,
            ConfigField::MaxAge.spec_key(),
            Value::Num(Number::Int(self.max_age as i64)),
        );
        let r = rec_set(
            r,
            ConfigField::MinSimilarity.spec_key(),
            Value::Num(Number::Int(self.min_similarity as i64)),
        );
        rec_assign(r, self.variant_entries())
    }

    /// The record of the tracker that is active.
    pub fn encode_variant(&self) -> (r: DynRecord)
        ensures
            r@ == self.variant_entries(),
            r.wf(),
    {
        match &self.keypoint_tracker_params {
            Some(k) => {
                let mut r = k.encode();
                r.set(ConfigField::TrackerType.key(), dyn_name(TrackerType::Keypoint.name()));
                r
            },
            None => {
                let mut r = DynRecord::new();
                match self.bounding_box_tracker_params {
                    Some(_) => {
                        r.set(
                            ConfigField::TrackerType.key(),
                            dyn_name(TrackerType::BoundingBox.name()),
                        );
                    },
                    None => {},
                }
                r
            },
        }
    }

    pub fn encode(&self) -> (r: DynRecord)
        ensures
            r@ == self.entries(),
            r.wf(),
    {
        let mut r = DynRecord::new();
        r.set(ConfigField::MaxTracks.key(), DynValue::Num(Number::Int(self.max_tracks as i64)));
        r.set(ConfigField::MaxAge.key(), DynValue::Num(Number::Int(self.max_age as i64)));
        r.set(
            ConfigField::MinSimilarity.key(),
            DynValue::Num(Number::Int(self.min_similarity as i64)),
        );
        r.assign(self.encode_variant());
        r
    }
}

#[derive(Clone, Debug, PartialEq)]
pub struct MoveNetModelConfig {
    pub enable_smoothing: Option<bool>,
    pub model_type: Option<String>,
    pub model_url: Option<String>,
    pub min_pose_score: Option<i32>,
    pub multi_pose_max_dimension: Option<i32>,
    pub enable_tracking: Option<bool>,
    pub tracker_type: Option<TrackerType>,
    pub tracker_config: Option<TrackerConfig>,
}

impl MoveNetModelConfig {
    pub open spec fn tracker_type_value(self) -> Option<Value> {
        match self.tracker_type {
            Some(t) => Some(Value::Str(t.spec_name())),
            None => None,
        }
    }

    /// The fields of the settings themselves, without the tracker's.
    pub open spec fn own_entries(self) -> Entries {
        let r = with_opt(
            Seq::empty(),
            ConfigField::EnableSmoothing.spec_key(),
            bool_value(self.enable_smoothing),
        );
        let r = with_opt(r, ConfigField::ModelType.spec_key(), str_value(self.model_type));
        let r = with_opt(r, ConfigField::ModelUrl.spec_key(), str_value(self.model_url));
        let r = with_opt(r, ConfigField::MinPoseScore.spec_key(), int_value(self.min_pose_score));
        let r = with_opt(
            r,
            ConfigField::MultiPoseMaxDimension.spec_key(),
            int_value(self.multi_pose_max_dimension),
        );
        let r = with_opt(
            r,
            ConfigField::EnableTracking.spec_key(),
            bool_value(self.enable_tracking),
        );
        with_opt(r, ConfigField::TrackerType.spec_key(), self.tracker_type_value())
    }

    pub open spec fn tracker_entries(self) -> Entries {
        match self.tracker_config {
            Some(t) => t.entries(),
            None => Seq::empty(),
        }
    }

    /// The record of these settings: their own fields, with the tracker's
    /// record merged in, so that the tracker's own name for itself wins.
    pub open spec fn entries(self) -> Entries {
        rec_assign(self.own_entries(), self.tracker_entries())
    }

    pub fn encode(&self) -> (r: DynRecord)
        ensures
            r@ == self.entries(),
            r.wf(),
    {
        let mut r = DynRecord::new();
        r.set_opt(ConfigField::EnableSmoothing.key(), dyn_bool(self.enable_smoothing));
        r.set_opt(ConfigField::ModelType.key(), dyn_str(&self.model_type));
        r.set_opt(ConfigField::ModelUrl.key(), dyn_str(&self.model_url));
        r.set_opt(ConfigField::MinPoseScore.key(), dyn_int(self.min_pose_score));
        r.set_opt(ConfigField::MultiPoseMaxDimension.key(), dyn_int(self.multi_pose_max_dimension));
        r.set_opt(ConfigField::EnableTracking.key(), dyn_bool(self.enable_tracking));
        r.set_opt(
            ConfigField::TrackerType.key(),
            match self.tracker_type {
                Some(t) => Some(dyn_name(t.name())),
                None => None,
            },
        );
        r.assign(
            match &self.tracker_config {
                Some(t) => t.encode(),
                None => DynRecord::new(),
            },
        );
        r
    }
}

/// A model of the engine, with its settings where the caller has any.
#[derive(Clone, Debug, PartialEq)]
pub enum Model {
    PoseNet(Option<PoseNetModelConfig>),
    BlazePose(Option<BlazePoseModelConfig>),
    MoveNet(Option<MoveNetModelConfig>),
}

impl Model {
    pub open spec fn spec_name(self) -> Seq<char> {
        match self {
            Model::PoseNet(_) => "PoseNet"@,
            Model::BlazePose(_) => "BlazePose"@,
            Model::MoveNet(_) => "MoveNet"@,
        }
    }

    /// The settings as the engine is handed them: the undefined value where
    /// there are none, which the engine takes as a request for its defaults.
    pub open spec fn spec_config(self) -> Value {
        match self {
            Model::PoseNet(Some(c)) => Value::Record(c.entries()),
            Model::BlazePose(Some(c)) => Value::Record(c.entries()),
            Model::MoveNet(Some(c)) => Value::Record(c.entries()),
            _ => Value::Undefined,
        }
    }

    /// The name that the engine knows the model by.
    pub fn get_name(&self) -> (s: &'static str)
        ensures
            s@ == self.spec_name(),
    {
        match self {
            Model::PoseNet(_) => "PoseNet",
            Model::BlazePose(_) => "BlazePose",
            Model::MoveNet(_) => "MoveNet",
        }
    }

    /// The settings as the engine is handed them.
    pub fn get_config(self) -> (v: DynValue)
        ensures
            v@ == self.spec_config(),
    {
        match self {
            Model::PoseNet(Some(c)) => DynValue::Record(c.encode()),
            Model::BlazePose(Some(c)) => DynValue::Record(c.encode()),
            Model::MoveNet(Some(c)) => DynValue::Record(c.encode()),
            _ => DynValue::Undefined,
        }
    }
}

impl PoseNetModelConfig {
    /// The keys that the engine is handed for these settings.
    pub open spec fn has(self, q: Seq<char>) -> bool {
        ||| q == ConfigField::Architecture.spec_key()
        ||| q == ConfigField::OutputStride.spec_key()
        ||| q == ConfigField::InputResolution.spec_key()
        ||| q == ConfigField::Multiplier.spec_key() && self.multiplier is Some
        ||| q == ConfigField::ModelUrl.spec_key() && self.model_url is Some
        ||| q == ConfigField::QuantBytes.spec_key() && self.quant_bytes is Some
    }
}

/// The record of PoseNet's settings is a mapping, and it holds a key exactly
/// where the key is that of a field that is set.
pub proof fn lemma_pose_net_keys(c: PoseNetModelConfig)
    ensures
        distinct_keys(c.entries()),
        forall|q: Seq<char>| #[trigger] has_key(c.entries(), q) == c.has(q),
{
    broadcast use group_record_laws;

}

impl Runtime {
    /// The keys that the engine is handed for the backend.
    pub open spec fn has(self, q: Seq<char>) -> bool {
        ||| q == ConfigField::Runtime.spec_key()
        ||| match self {
            Runtime::Mediapipe(c) => {
                q == ConfigField::SolutionPath.spec_key() && c.solution_path is Some
            },
            Runtime::Tfjs(c) => {
                ||| q == ConfigField::DetectorModelUrl.spec_key() && c.detector_model_url is Some
                ||| q == ConfigField::LandmarkModelUrl.spec_key() && c.landmark_model_url is Some
            },
        }
    }
}

/// The record of a backend is a mapping, and it holds a key exactly where the
/// key is `runtime` or that of a field of the chosen backend that is set.
pub proof fn lemma_runtime_keys(rt: Runtime)
    ensures
        distinct_keys(rt.entries()),
        forall|q: Seq<char>| #[trigger] has_key(rt.entries(), q) == rt.has(q),
        lookup(rt.entries(), ConfigField::Runtime.spec_key()) == Some(Value::Str(rt.spec_name())),
{
    broadcast use group_record_laws;

}

impl BlazePoseModelConfig {
    /// The keys that the engine is handed for these settings.
    pub open spec fn has(self, q: Seq<char>) -> bool {
        ||| q == ConfigField::EnableSmoothing.spec_key() && self.enable_smoothing is Some
        ||| q == ConfigField::EnableSegmentation.spec_key() && self.enable_segmentation is Some
        ||| q == ConfigField::SmoothSegmentation.spec_key() && self.smooth_segmentation is Some
        ||| q == ConfigField::ModelType.spec_key() && self.model_type is Some
        ||| self.runtime.has(q)
    }
}

/// The record of BlazePose's settings is a mapping, and it holds a key
/// exactly where the key is `runtime` or that of a field that is set, the
/// fields of the chosen backend among them.
pub proof fn lemma_blaze_pose_keys(c: BlazePoseModelConfig)
    ensures
        distinct_keys(c.entries()),
        forall|q: Seq<char>| #[trigger] has_key(c.entries(), q) == c.has(q),
{
    broadcast use group_record_laws;

    lemma_runtime_keys(c.runtime);
}

/// The key `runtime` names the backend that was chosen, `mediapipe` or
/// `tfjs`, and no field of the other backend is in the record.
pub proof fn lemma_runtime_discriminant(c: BlazePoseModelConfig)
    ensures
        lookup(c.entries(), ConfigField::Runtime.spec_key()) == Some(
            Value::Str(
                match c.runtime {
                    Runtime::Mediapipe(_) => "mediapipe"@,
                    Runtime::Tfjs(_) => "tfjs"@,
                },
            ),
        ),
        c.runtime is Mediapipe ==> !has_key(c.entries(), "detectorModelUrl"@) && !has_key(
            c.entries(),
            ConfigField::LandmarkModelUrl.spec_key(),
        ),
        c.runtime is Tfjs ==> !has_key(c.entries(), "solutionPath"@),
{
    broadcast use group_record_laws;

    lemma_runtime_keys(c.runtime);
    lemma_blaze_pose_keys(c);
    reveal_strlit("runtime");
    reveal_strlit("solutionPath");
    reveal_strlit("detectorModelUrl");
    reveal_strlit("landmarkModelUrl");
    reveal_strlit("enableSmoothing");
    reveal_strlit("enableSegmentation");
    reveal_strlit("smoothSegmentation");
    reveal_strlit("modelType");
    assert("runtime"@.len() == 7);
    assert("solutionPath"@.len() == 12);
    assert("detectorModelUrl"@.len() == 16);
    assert("landmarkModelUrl"@.len() == 16);
    assert("enableSmoothing"@.len() == 15);
    assert("enableSegmentation"@.len() == 18);
    assert("smoothSegmentation"@.len() == 18);
    assert("modelType"@.len() == 9);
}

impl TrackerConfig {
    /// The keys that the engine is handed for a tracker.
    pub open spec fn has(self, q: Seq<char>) -> bool {
        ||| q == ConfigField::MaxTracks.spec_key()
        ||| q == ConfigField::MaxAge.spec_key()
        ||| q == ConfigField::MinSimilarity.spec_key()
        ||| self.keypoint_tracker_params is Some && {
            ||| q == ConfigField::KeypointConfidenceThreshold.spec_key()
            ||| q == ConfigField::KeypointFalloff.spec_key()
            ||| q == ConfigField::MinNumberOfKeypoints.spec_key()
        }
        ||| q == ConfigField::TrackerType.spec_key() && self.active() is Some
    }
}

/// The record of a tracker is a mapping, it holds a key exactly where the
/// key is that of a field that is set, and `trackerType` names the tracker
/// that is active.
pub proof fn lemma_tracker_keys(t: TrackerConfig)
    ensures
        distinct_keys(t.entries()),
        forall|q: Seq<char>| #[trigger] has_key(t.entries(), q) == t.has(q),
        lookup(t.entries(), ConfigField::TrackerType.spec_key()) == t.active_value(),
{
    broadcast use group_record_laws;

    match t.keypoint_tracker_params {
        Some(k) => {
            assert(distinct_keys(k.entries()));
        },
        None => {},
    }
    reveal_strlit("maxTracks");
    reveal_strlit("maxAge");
    reveal_strlit("minSimilarity");
    reveal_strlit("keypointConfidenceThreshold");
    reveal_strlit("keypointFalloff");
    reveal_strlit("minNumberOfKeypoints");
    reveal_strlit("trackerType");
    assert("maxTracks"@.len() == 9);
    assert("maxAge"@.len() == 6);
    assert("minSimilarity"@.len() == 13);
    assert("keypointConfidenceThreshold"@.len() == 27);
    assert("keypointFalloff"@.len() == 15);
    assert("minNumberOfKeypoints"@.len() == 20);
    assert("trackerType"@.len() == 11);
}

impl MoveNetModelConfig {
    /// The keys that the engine is handed for these settings.
    pub open spec fn has(self, q: Seq<char>) -> bool {
        ||| q == ConfigField::EnableSmoothing.spec_key() && self.enable_smoothing is Some
        ||| q == ConfigField::ModelType.spec_key() && self.model_type is Some
        ||| q == ConfigField::ModelUrl.spec_key() && self.model_url is Some
        ||| q == ConfigField::MinPoseScore.spec_key() && self.min_pose_score is Some
        ||| q == ConfigField::MultiPoseMaxDimension.spec_key()
            && self.multi_pose_max_dimension is Some
        ||| q == ConfigField::EnableTracking.spec_key() && self.enable_tracking is Some
        ||| q == ConfigField::TrackerType.spec_key() && self.tracker_type is Some
        ||| self.tracker_config is Some && self.tracker_config->0.has(q)
    }
}

/// The record of MoveNet's settings is a mapping, it holds a key exactly
/// where the key is that of a field that is set, the tracker's among them,
/// and where a tracker is active, `trackerType` names that tracker.
pub proof fn lemma_move_net_keys(c: MoveNetModelConfig)
    ensures
        distinct_keys(c.entries()),
        forall|q: Seq<char>| #[trigger] has_key(c.entries(), q) == c.has(q),
        c.tracker_config is Some && c.tracker_config->0.active() is Some ==> lookup(
            c.entries(),
            ConfigField::TrackerType.spec_key(),
        ) == c.tracker_config->0.active_value(),
{
    broadcast use group_record_laws;

    match c.tracker_config {
        Some(t) => {
            lemma_tracker_keys(t);
        },
        None => {},
    }
}

/// The settings of every model encode: to the undefined value where there
/// are none, else to a record that is a mapping.
pub proof fn lemma_config_total(m: Model)
    ensures
        match m.spec_config() {
            Value::Undefined => m == Model::PoseNet(None) || m == Model::BlazePose(None) || m
                == Model::MoveNet(None),
            Value::Record(r) => distinct_keys(r),
            _ => false,
        },
{
    match m {
        Model::PoseNet(Some(c)) => lemma_pose_net_keys(c),
        Model::BlazePose(Some(c)) => lemma_blaze_pose_keys(c),
        Model::MoveNet(Some(c)) => lemma_move_net_keys(c),
        _ => {},
    }
}

} // verus!
