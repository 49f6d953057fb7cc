//! How a field's name becomes the key that the engine knows it by.

use vstd::prelude::*;
use vstd::string::StrSliceExecFns;

verus! {

/// The capital of a small letter; any other character is itself.
pub open spec fn upper(c: char) -> char {
    if 'a' <= c && c <= 'z' {
        ((c as u8 - 32) as u8) as char
    } else {
        c
    }
}

/// The camel-case form of the part of `s` from `i` on: an underscore is
/// dropped, and the character behind one is written as a capital.
pub open spec fn camel_from(s: Seq<char>, i: int) -> Seq<char>
    decreases s.len() - i,
{
    if i < 0 || i >= s.len() {
        Seq::empty()
    } else if s[i] == '_' {
        camel_from(s, i + 1)
    } else if i > 0 && s[i - 1] == '_' {
        seq![upper(s[i])] + camel_from(s, i + 1)
    } else {
        seq![s[i]] + camel_from(s, i + 1)
    }
}

/// The key of the field that is named `s`.
pub open spec fn camel(s: Seq<char>) -> Seq<char> {
    camel_from(s, 0)
}

/// The capital of a small letter; any other character is itself.
pub fn to_upper(c: char) -> (r: char)
    ensures
        r == upper(c),
{
    if 'a' <= c && c <= 'z' {
        (c as u8 - 32) as char
    } else {
        c
    }
}

/// The characters of the key of the field that is named `name`.
pub fn camel_case(name: &str) -> (key: Vec<char>)
    ensures
        key@ == camel(name@),
{
    let n = name.unicode_len();
    let mut key: Vec<char> = Vec::new();
    let mut capital = false;
    let mut i: usize = 0;
    while i < n
        invariant
            i <= n,
            n == name@.len(),
            capital == (i > 0 && name@[i - 1] == '_'),
            camel(name@) == key@ + camel_from(name@, i as int),
        decreases n - i,
    {
        let c = name.get_char(i);
        if c == '_' {
            capital = true;
        } else {
            let ghost before = key@;
            let d = if capital {
                to_upper(c)
            } else {
                c
            };
            key.push(d);
            capital = false;
            assert(key@ + camel_from(name@, i + 1) =~= before + (seq![d] + camel_from(
                name@,
                i + 1,
            )));
        }
        i += 1;
    }
    assert(key@ + camel_from(name@, n as int) =~= key@);
    key
}

/// The fields of the settings that the engine is handed.
#[derive(Clone, Copy, Debug, PartialEq, Eq, Structural)]
pub enum ConfigField {
    Architecture,
    OutputStride,
    InputResolution,
    Width,
    Height,
    Multiplier,
    ModelUrl,
    QuantBytes,
    SolutionPath,
    DetectorModelUrl,
    LandmarkModelUrl,
    Runtime,
    EnableSmoothing,
    EnableSegmentation,
    SmoothSegmentation,
    ModelType,
    KeypointConfidenceThreshold,
    KeypointFalloff,
    MinNumberOfKeypoints,
    MaxTracks,
    MaxAge,
    MinSimilarity,
    TrackerType,
    MinPoseScore,
    MultiPoseMaxDimension,
    EnableTracking,
    MaxPoses,
    FlipHorizontal,
    ScoreThreshold,
    NmsRadius,
}

impl ConfigField {
    /// The name of the field.
    pub open spec fn spec_name(self) -> Seq<char> {
        match self {
            ConfigField::Architecture => "architecture"@,
            ConfigField::OutputStride => "output_stride"@,
            ConfigField::InputResolution => "input_resolution"@,
            ConfigField::Width => "width"@,
            ConfigField::Height => "height"@,
            ConfigField::Multiplier => "multiplier"@,
            ConfigField::ModelUrl => "model_url"@,
            ConfigField::QuantBytes => "quant_bytes"@,
            ConfigField::SolutionPath => "solution_path"@,
            ConfigField::DetectorModelUrl => "detector_model_url"@,
            ConfigField::LandmarkModelUrl => "landmark_model_url"@,
            ConfigField::Runtime => "runtime"@,
            ConfigField::EnableSmoothing => "enable_smoothing"@,
            ConfigField::EnableSegmentation => "enable_segmentation"@,
            ConfigField::SmoothSegmentation => "smooth_segmentation"@,
            ConfigField::ModelType => "model_type"@,
            ConfigField::KeypointConfidenceThreshold => "keypoint_confidence_threshold"@,
            ConfigField::KeypointFalloff => "keypoint_falloff"@,
            ConfigField::MinNumberOfKeypoints => "min_number_of_keypoints"@,
            ConfigField::MaxTracks => "max_tracks"@,
            ConfigField::MaxAge => "max_age"@,
            ConfigField::MinSimilarity => "min_similarity"@,
            ConfigField::TrackerType => "tracker_type"@,
            ConfigField::MinPoseScore => "min_pose_score"@,
            ConfigField::MultiPoseMaxDimension => "multi_pose_max_dimension"@,
            ConfigField::EnableTracking => "enable_tracking"@,
            ConfigField::MaxPoses => "max_poses"@,
            ConfigField::FlipHorizontal => "flip_horizontal"@,
            ConfigField::ScoreThreshold => "score_threshold"@,
            ConfigField::NmsRadius => "nms_radius"@,
        }
    }

    /// The key under which the engine holds the field.
    pub open spec fn spec_key(self) -> Seq<char> {
        match self {
            ConfigField::Architecture => "architecture"@,
            ConfigField::OutputStride => "outputStride"@,
            ConfigField::InputResolution => "inputResolution"@,
            ConfigField::Width => "width"@,
            ConfigField::Height => "height"@,
            ConfigField::Multiplier => "multiplier"@,
            ConfigField::ModelUrl => "modelUrl"@,
            ConfigField::QuantBytes => "quantBytes"@,
            ConfigField::SolutionPath => "solutionPath"@,
            ConfigField::DetectorModelUrl => "detectorModelUrl"@,
            ConfigField::LandmarkModelUrl => "landmarkModelUrl"@,
            ConfigField::Runtime => "runtime"@,
            ConfigField::EnableSmoothing => "enableSmoothing"@,
            ConfigField::EnableSegmentation => "enableSegmentation"@,
            ConfigField::SmoothSegmentation => "smoothSegmentation"@,
            ConfigField::ModelType => "modelType"@,
            ConfigField::KeypointConfidenceThreshold => "keypointConfidenceThreshold"@,
            ConfigField::KeypointFalloff => "keypointFalloff"@,
            ConfigField::MinNumberOfKeypoints => "minNumberOfKeypoints"@,
            ConfigField::MaxTracks => "maxTracks"@,
            ConfigField::MaxAge => "maxAge"@,
            ConfigField::MinSimilarity => "minSimilarity"@,
            ConfigField::TrackerType => "trackerType"@,
            ConfigField::MinPoseScore => "minPoseScore"@,
            ConfigField::MultiPoseMaxDimension => "multiPoseMaxDimension"@,
            ConfigField::EnableTracking => "enableTracking"@,
            ConfigField::MaxPoses => "maxPoses"@,
            ConfigField::FlipHorizontal => "flipHorizontal"@,
            ConfigField::ScoreThreshold => "scoreThreshold"@,
            ConfigField::NmsRadius => "nmsRadius"@,
        }
    }

    /// The name of the field.
    pub fn name(self) -> (k: &'static str)
        ensures
            k@ == self.spec_name(),
    {
        match self {
            ConfigField::Architecture => "architecture",
            ConfigField::OutputStride => "output_stride",
            ConfigField::InputResolution => "input_resolution",
            ConfigField::Width => "width",
            ConfigField::Height => "height",
            ConfigField::Multiplier => "multiplier",
            ConfigField::ModelUrl => "model_url",
            ConfigField::QuantBytes => "quant_bytes",
            ConfigField::SolutionPath => "solution_path",
            ConfigField::DetectorModelUrl => "detector_model_url",
            ConfigField::LandmarkModelUrl => "landmark_model_url",
            ConfigField::Runtime => "runtime",
            ConfigField::EnableSmoothing => "enable_smoothing",
            ConfigField::EnableSegmentation => "enable_segmentation",
            ConfigField::SmoothSegmentation => "smooth_segmentation",
            ConfigField::ModelType => "model_type",
            ConfigField::KeypointConfidenceThreshold => "keypoint_confidence_threshold",
            ConfigField::KeypointFalloff => "keypoint_falloff",
            ConfigField::MinNumberOfKeypoints => "min_number_of_keypoints",
            ConfigField::MaxTracks => "max_tracks",
            ConfigField::MaxAge => "max_age",
            ConfigField::MinSimilarity => "min_similarity",
            ConfigField::TrackerType => "tracker_type",
            ConfigField::MinPoseScore => "min_pose_score",
            ConfigField::MultiPoseMaxDimension => "multi_pose_max_dimension",
            ConfigField::EnableTracking => "enable_tracking",
            ConfigField::MaxPoses => "max_poses",
            ConfigField::FlipHorizontal => "flip_horizontal",
            ConfigField::ScoreThreshold => "score_threshold",
            ConfigField::NmsRadius => "nms_radius",
        }
    }

    /// The key under which the engine holds the field.
    pub fn key(self) -> (k: &'static str)
        ensures
            k@ == self.spec_key(),
    {
        match self {
            ConfigField::Architecture => "architecture",
            ConfigField::OutputStride => "outputStride",
            ConfigField::InputResolution => "inputResolution",
            ConfigField::Width => "width",
            ConfigField::Height => "height",
            ConfigField::Multiplier => "multiplier",
            ConfigField::ModelUrl => "modelUrl",
            ConfigField::QuantBytes => "quantBytes",
            ConfigField::SolutionPath => "solutionPath",
            ConfigField::DetectorModelUrl => "detectorModelUrl",
            ConfigField::LandmarkModelUrl => "landmarkModelUrl",
            ConfigField::Runtime => "runtime",
            ConfigField::EnableSmoothing => "enableSmoothing",
            ConfigField::EnableSegmentation => "enableSegmentation",
            ConfigField::SmoothSegmentation => "smoothSegmentation",
            ConfigField::ModelType => "modelType",
            ConfigField::KeypointConfidenceThreshold => "keypointConfidenceThreshold",
            ConfigField::KeypointFalloff => "keypointFalloff",
            ConfigField::MinNumberOfKeypoints => "minNumberOfKeypoints",
            ConfigField::MaxTracks => "maxTracks",
            ConfigField::MaxAge => "maxAge",
            ConfigField::MinSimilarity => "minSimilarity",
            ConfigField::TrackerType => "trackerType",
            ConfigField::MinPoseScore => "minPoseScore",
            ConfigField::MultiPoseMaxDimension => "multiPoseMaxDimension",
            ConfigField::EnableTracking => "enableTracking",
            ConfigField::MaxPoses => "maxPoses",
            ConfigField::FlipHorizontal => "flipHorizontal",
            ConfigField::ScoreThreshold => "scoreThreshold",
            ConfigField::NmsRadius => "nmsRadius",
        }
    }
}

proof fn lemma_camel_architecture()
    ensures
        camel("architecture"@) == "architecture"@,
{
    reveal_strlit("architecture");
    reveal_with_fuel(camel_from, 14);
    assert("architecture"@.len() == 12);
    assert(camel("architecture"@) =~= "architecture"@);
}

proof fn lemma_camel_output_stride()
    ensures
        camel("output_stride"@) == "outputStride"@,
{
    reveal_strlit("output_stride");
    reveal_strlit("outputStride");
    reveal_with_fuel(camel_from, 15);
    assert("output_stride"@.len() == 13);
    assert("outputStride"@.len() == 12);
    assert(upper('s') == 'S');
    assert(camel("output_stride"@) =~= "outputStride"@);
}

proof fn lemma_camel_input_resolution()
    ensures
        camel("input_resolution"@) == "inputResolution"@,
{
    reveal_strlit("input_resolution");
    reveal_strlit("inputResolution");
    reveal_with_fuel(camel_from, 18);
    assert("input_resolution"@.len() == 16);
    assert("inputResolution"@.len() == 15);
    assert(upper('r') == 'R');
    assert(camel("input_resolution"@) =~= "inputResolution"@);
}

proof fn lemma_camel_width()
    ensures
        camel("width"@) == "width"@,
{
    reveal_strlit("width");
    reveal_with_fuel(camel_from, 7);
    assert("width"@.len() == 5);
    assert(camel("width"@) =~= "width"@);
}

proof fn lemma_camel_height()
    ensures
        camel("height"@) == "height"@,
{
    reveal_strlit("height");
    reveal_with_fuel(camel_from, 8);
    assert("height"@.len() == 6);
    assert(camel("height"@) =~= "height"@);
}

proof fn lemma_camel_multiplier()
    ensures
        camel("multiplier"@) == "multiplier"@,
{
    reveal_strlit("multiplier");
    reveal_with_fuel(camel_from, 12);
    assert("multiplier"@.len() == 10);
    assert(camel("multiplier"@) =~= "multiplier"@);
}

proof fn lemma_camel_model_url()
    ensures
        camel("model_url"@) == "modelUrl"@,
{
    reveal_strlit("model_url");
    reveal_strlit("modelUrl");
    reveal_with_fuel(camel_from, 11);
    assert("model_url"@.len() == 9);
    assert("modelUrl"@.len() == 8);
    assert(upper('u') == 'U');
    assert(camel("model_url"@) =~= "modelUrl"@);
}

proof fn lemma_camel_quant_bytes()
    ensures
        camel("quant_bytes"@) == "quantBytes"@,
{
    reveal_strlit("quant_bytes");
    reveal_strlit("quantBytes");
    reveal_with_fuel(camel_from, 13);
    assert("quant_bytes"@.len() == 11);
    assert("quantBytes"@.len() == 10);
    assert(upper('b') == 'B');
    assert(camel("quant_bytes"@) =~= "quantBytes"@);
}

proof fn lemma_camel_solution_path()
    ensures
        camel("solution_path"@) == "solutionPath"@,
{
    reveal_strlit("solution_path");
    reveal_strlit("solutionPath");
    reveal_with_fuel(camel_from, 15);
    assert("solution_path"@.len() == 13);
    assert("solutionPath"@.len() == 12);
    assert(upper('p') == 'P');
    assert(camel("solution_path"@) =~= "solutionPath"@);
}

proof fn lemma_camel_detector_model_url()
    ensures
        camel("detector_model_url"@) == "detectorModelUrl"@,
{
    reveal_strlit("detector_model_url");
    reveal_strlit("detectorModelUrl");
    reveal_with_fuel(camel_from, 20);
    assert("detector_model_url"@.len() == 18);
    assert("detectorModelUrl"@.len() == 16);
    assert(upper('m') == 'M');
    assert(upper('u') == 'U');
    assert(camel("detector_model_url"@) =~= "detectorModelUrl"@);
}

proof fn lemma_camel_landmark_model_url()
    ensures
        camel("landmark_model_url"@) == "landmarkModelUrl"@,
{
    reveal_strlit("landmark_model_url");
    reveal_strlit("landmarkModelUrl");
    reveal_with_fuel(camel_from, 20);
    assert("landmark_model_url"@.len() == 18);
    assert("landmarkModelUrl"@.len() == 16);
    assert(upper('m') == 'M');
    assert(upper('u') == 'U');
    assert(camel("landmark_model_url"@) =~= "landmarkModelUrl"@);
}

proof fn lemma_camel_runtime()
    ensures
        camel("runtime"@) == "runtime"@,
{
    reveal_strlit("runtime");
    reveal_with_fuel(camel_from, 9);
    assert("runtime"@.len() == 7);
    assert(camel("runtime"@) =~= "runtime"@);
}

proof fn lemma_camel_enable_smoothing()
    ensures
        camel("enable_smoothing"@) == "enableSmoothing"@,
{
    reveal_strlit("enable_smoothing");
    reveal_strlit("enableSmoothing");
    reveal_with_fuel(camel_from, 18);
    assert("enable_smoothing"@.len() == 16);
    assert("enableSmoothing"@.len() == 15);
    assert(upper('s') == 'S');
    assert(camel("enable_smoothing"@) =~= "enableSmoothing"@);
}

proof fn lemma_camel_enable_segmentation()
    ensures
        camel("enable_segmentation"@) == "enableSegmentation"@,
{
    reveal_strlit("enable_segmentation");
    reveal_strlit("enableSegmentation");
    reveal_with_fuel(camel_from, 21);
    assert("enable_segmentation"@.len() == 19);
    assert("enableSegmentation"@.len() == 18);
    assert(upper('s') == 'S');
    assert(camel("enable_segmentation"@) =~= "enableSegmentation"@);
}

proof fn lemma_camel_smooth_segmentation()
    ensures
        camel("smooth_segmentation"@) == "smoothSegmentation"@,
{
    reveal_strlit("smooth_segmentation");
    reveal_strlit("smoothSegmentation");
    reveal_with_fuel(camel_from, 21);
    assert("smooth_segmentation"@.len() == 19);
    assert("smoothSegmentation"@.len() == 18);
    assert(upper('s') == 'S');
    assert(camel("smooth_segmentation"@) =~= "smoothSegmentation"@);
}

proof fn lemma_camel_model_type()
    ensures
        camel("model_type"@) == "modelType"@,
{
    reveal_strlit("model_type");
    reveal_strlit("modelType");
    reveal_with_fuel(camel_from, 12);
    assert("model_type"@.len() == 10);
    assert("modelType"@.len() == 9);
    assert(upper('t') == 'T');
    assert(camel("model_type"@) =~= "modelType"@);
}

proof fn lemma_camel_keypoint_confidence_threshold()
    ensures
        camel("keypoint_confidence_threshold"@) == "keypointConfidenceThreshold"@,
{
    reveal_strlit("keypoint_confidence_threshold");
    reveal_strlit("keypointConfidenceThreshold");
    reveal_with_fuel(camel_from, 31);
    assert("keypoint_confidence_threshold"@.len() == 29);
    assert("keypointConfidenceThreshold"@.len() == 27);
    assert(upper('c') == 'C');
    assert(upper('t') == 'T');
    assert(camel("keypoint_confidence_threshold"@) =~= "keypointConfidenceThreshold"@);
}

proof fn lemma_camel_keypoint_falloff()
    ensures
        camel("keypoint_falloff"@) == "keypointFalloff"@,
{
    reveal_strlit("keypoint_falloff");
    reveal_strlit("keypointFalloff");
    reveal_with_fuel(camel_from, 18);
    assert("keypoint_falloff"@.len() == 16);
    assert("keypointFalloff"@.len() == 15);
    assert(upper('f') == 'F');
    assert(camel("keypoint_falloff"@) =~= "keypointFalloff"@);
}

proof fn lemma_camel_min_number_of_keypoints()
    ensures
        camel("min_number_of_keypoints"@) == "minNumberOfKeypoints"@,
{
    reveal_strlit("min_number_of_keypoints");
    reveal_strlit("minNumberOfKeypoints");
    reveal_with_fuel(camel_from, 25);
    assert("min_number_of_keypoints"@.len() == 23);
    assert("minNumberOfKeypoints"@.len() == 20);
    assert(upper('k') == 'K');
    assert(upper('n') == 'N');
    assert(upper('o') == 'O');
    assert(camel("min_number_of_keypoints"@) =~= "minNumberOfKeypoints"@);
}

proof fn lemma_camel_max_tracks()
    ensures
        camel("max_tracks"@) == "maxTracks"@,
{
    reveal_strlit("max_tracks");
    reveal_strlit("maxTracks");
    reveal_with_fuel(camel_from, 12);
    assert("max_tracks"@.len() == 10);
    assert("maxTracks"@.len() == 9);
    assert(upper('t') == 'T');
    assert(camel("max_tracks"@) =~= "maxTracks"@);
}

proof fn lemma_camel_max_age()
    ensures
        camel("max_age"@) == "maxAge"@,
{
    reveal_strlit("max_age");
    reveal_strlit("maxAge");
    reveal_with_fuel(camel_from, 9);
    assert("max_age"@.len() == 7);
    assert("maxAge"@.len() == 6);
    assert(upper('a') == 'A');
    assert(camel("max_age"@) =~= "maxAge"@);
}

proof fn lemma_camel_min_similarity()
    ensures
        camel("min_similarity"@) == "minSimilarity"@,
{
    reveal_strlit("min_similarity");
    reveal_strlit("minSimilarity");
    reveal_with_fuel(camel_from, 16);
    assert("min_similarity"@.len() == 14);
    assert("minSimilarity"@.len() == 13);
    assert(upper('s') == 'S');
    assert(camel("min_similarity"@) =~= "minSimilarity"@);
}

proof fn lemma_camel_tracker_type()
    ensures
        camel("tracker_type"@) == "trackerType"@,
{
    reveal_strlit("tracker_type");
    reveal_strlit("trackerType");
    reveal_with_fuel(camel_from, 14);
    assert("tracker_type"@.len() == 12);
    assert("trackerType"@.len() == 11);
    assert(upper('t') == 'T');
    assert(camel("tracker_type"@) =~= "trackerType"@);
}

proof fn lemma_camel_min_pose_score()
    ensures
        camel("min_pose_score"@) == "minPoseScore"@,
{
    reveal_strlit("min_pose_score");
    reveal_strlit("minPoseScore");
    reveal_with_fuel(camel_from, 16);
    assert("min_pose_score"@.len() == 14);
    assert("minPoseScore"@.len() == 12);
    assert(upper('p') == 'P');
    assert(upper('s') == 'S');
    assert(camel("min_pose_score"@) =~= "minPoseScore"@);
}

proof fn lemma_camel_multi_pose_max_dimension()
    ensures
        camel("multi_pose_max_dimension"@) == "multiPoseMaxDimension"@,
{
    reveal_strlit("multi_pose_max_dimension");
    reveal_strlit("multiPoseMaxDimension");
    reveal_with_fuel(camel_from, 26);
    assert("multi_pose_max_dimension"@.len() == 24);
    assert("multiPoseMaxDimension"@.len() == 21);
    assert(upper('d') == 'D');
    assert(upper('m') == 'M');
    assert(upper('p') == 'P');
    assert(camel("multi_pose_max_dimension"@) =~= "multiPoseMaxDimension"@);
}

proof fn lemma_camel_enable_tracking()
    ensures
        camel("enable_tracking"@) == "enableTracking"@,
{
    reveal_strlit("enable_tracking");
    reveal_strlit("enableTracking");
    reveal_with_fuel(camel_from, 17);
    assert("enable_tracking"@.len() == 15);
    assert("enableTracking"@.len() == 14);
    assert(upper('t') == 'T');
    assert(camel("enable_tracking"@) =~= "enableTracking"@);
}

proof fn lemma_camel_max_poses()
    ensures
        camel("max_poses"@) == "maxPoses"@,
{
    reveal_strlit("max_poses");
    reveal_strlit("maxPoses");
    reveal_with_fuel(camel_from, 11);
    assert("max_poses"@.len() == 9);
    assert("maxPoses"@.len() == 8);
    assert(upper('p') == 'P');
    assert(camel("max_poses"@) =~= "maxPoses"@);
}

proof fn lemma_camel_flip_horizontal()
    ensures
        camel("flip_horizontal"@) == "flipHorizontal"@,
{
    reveal_strlit("flip_horizontal");
    reveal_strlit("flipHorizontal");
    reveal_with_fuel(camel_from, 17);
    assert("flip_horizontal"@.len() == 15);
    assert("flipHorizontal"@.len() == 14);
    assert(upper('h') == 'H');
    assert(camel("flip_horizontal"@) =~= "flipHorizontal"@);
}

proof fn lemma_camel_score_threshold()
    ensures
        camel("score_threshold"@) == "scoreThreshold"@,
{
    reveal_strlit("score_threshold");
    reveal_strlit("scoreThreshold");
    reveal_with_fuel(camel_from, 17);
    assert("score_threshold"@.len() == 15);
    assert("scoreThreshold"@.len() == 14);
    assert(upper('t') == 'T');
    assert(camel("score_threshold"@) =~= "scoreThreshold"@);
}

proof fn lemma_camel_nms_radius()
    ensures
        camel("nms_radius"@) == "nmsRadius"@,
{
    reveal_strlit("nms_radius");
    reveal_strlit("nmsRadius");
    reveal_with_fuel(camel_from, 12);
    assert("nms_radius"@.len() == 10);
    assert("nmsRadius"@.len() == 9);
    assert(upper('r') == 'R');
    assert(camel("nms_radius"@) =~= "nmsRadius"@);
}

/// Every key is the camel-case form of its field's name: no field is named
/// by another rule.
pub proof fn lemma_config_keys_camel(f: ConfigField)
    ensures
        f.spec_key() == camel(f.spec_name()),
{
    match f {
        ConfigField::Architecture => lemma_camel_architecture(),
        ConfigField::OutputStride => lemma_camel_output_stride(),
        ConfigField::InputResolution => lemma_camel_input_resolution(),
        ConfigField::Width => lemma_camel_width(),
        ConfigField::Height => lemma_camel_height(),
        ConfigField::Multiplier => lemma_camel_multiplier(),
        ConfigField::ModelUrl => lemma_camel_model_url(),
        ConfigField::QuantBytes => lemma_camel_quant_bytes(),
        ConfigField::SolutionPath => lemma_camel_solution_path(),
        ConfigField::DetectorModelUrl => lemma_camel_detector_model_url(),
        ConfigField::LandmarkModelUrl => lemma_camel_landmark_model_url(),
        ConfigField::Runtime => lemma_camel_runtime(),
        ConfigField::EnableSmoothing => lemma_camel_enable_smoothing(),
        ConfigField::EnableSegmentation => lemma_camel_enable_segmentation(),
        ConfigField::SmoothSegmentation => lemma_camel_smooth_segmentation(),
        ConfigField::ModelType => lemma_camel_model_type(),
        ConfigField::KeypointConfidenceThreshold => lemma_camel_keypoint_confidence_threshold(),
        ConfigField::KeypointFalloff => lemma_camel_keypoint_falloff(),
        ConfigField::MinNumberOfKeypoints => lemma_camel_min_number_of_keypoints(),
        ConfigField::MaxTracks => lemma_camel_max_tracks(),
        ConfigField::MaxAge => lemma_camel_max_age(),
        ConfigField::MinSimilarity => lemma_camel_min_similarity(),
        ConfigField::TrackerType => lemma_camel_tracker_type(),
        ConfigField::MinPoseScore => lemma_camel_min_pose_score(),
        ConfigField::MultiPoseMaxDimension => lemma_camel_multi_pose_max_dimension(),
        ConfigField::EnableTracking => lemma_camel_enable_tracking(),
        ConfigField::MaxPoses => lemma_camel_max_poses(),
        ConfigField::FlipHorizontal => lemma_camel_flip_horizontal(),
        ConfigField::ScoreThreshold => lemma_camel_score_threshold(),
        ConfigField::NmsRadius => lemma_camel_nms_radius(),
    }
}

} // verus!
