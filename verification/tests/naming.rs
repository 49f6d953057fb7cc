use pose_detection::naming::{camel_case, to_upper, ConfigField};
use pose_detection::pose::Field;

fn key_of(name: &str) -> String {
    camel_case(name).into_iter().collect()
}

#[test]
fn camel_case_of_chosen_names() {
    assert_eq!(key_of("max_poses"), "maxPoses");
    assert_eq!(key_of("keypoint_confidence_threshold"), "keypointConfidenceThreshold");
    assert_eq!(key_of("keypoints_3d"), "keypoints3d");
    assert_eq!(key_of("width"), "width");
    assert_eq!(key_of(""), "");
    assert_eq!(key_of("a__b"), "aB");
    assert_eq!(key_of("trailing_"), "trailing");
    assert_eq!(key_of("x_Min"), "xMin");
}

#[test]
fn capitals() {
    assert_eq!(to_upper('a'), 'A');
    assert_eq!(to_upper('z'), 'Z');
    assert_eq!(to_upper('M'), 'M');
    assert_eq!(to_upper('3'), '3');
    assert_eq!(to_upper('_'), '_');
}

#[test]
fn every_config_key_is_the_camel_case_of_its_name() {
    let all = vec![
        ConfigField::Architecture,
        ConfigField::OutputStride,
        ConfigField::InputResolution,
        ConfigField::Width,
        ConfigField::Height,
        ConfigField::Multiplier,
        ConfigField::ModelUrl,
        ConfigField::QuantBytes,
        ConfigField::SolutionPath,
        ConfigField::DetectorModelUrl,
        ConfigField::LandmarkModelUrl,
        ConfigField::Runtime,
        ConfigField::EnableSmoothing,
        ConfigField::EnableSegmentation,
        ConfigField::SmoothSegmentation,
        ConfigField::ModelType,
        ConfigField::KeypointConfidenceThreshold,
        ConfigField::KeypointFalloff,
        ConfigField::MinNumberOfKeypoints,
        ConfigField::MaxTracks,
        ConfigField::MaxAge,
        ConfigField::MinSimilarity,
        ConfigField::TrackerType,
        ConfigField::MinPoseScore,
        ConfigField::MultiPoseMaxDimension,
        ConfigField::EnableTracking,
        ConfigField::MaxPoses,
        ConfigField::FlipHorizontal,
        ConfigField::ScoreThreshold,
        ConfigField::NmsRadius,
    ];
    for f in all {
        assert_eq!(key_of(f.name()), f.key());
    }
    assert_eq!(ConfigField::MultiPoseMaxDimension.name(), "multi_pose_max_dimension");
    assert_eq!(ConfigField::MultiPoseMaxDimension.key(), "multiPoseMaxDimension");
}

#[test]
fn every_pose_key_is_the_camel_case_of_its_name() {
    let all = vec![
        Field::Keypoints,
        Field::Score,
        Field::Keypoints3d,
        Field::BoundingBox,
        Field::Id,
        Field::X,
        Field::Y,
        Field::Z,
        Field::Name,
        Field::XMin,
        Field::YMin,
        Field::XMax,
        Field::YMax,
        Field::Width,
        Field::Height,
    ];
    for f in all {
        assert_eq!(key_of(f.name()), f.key());
    }
    assert_eq!(Field::BoundingBox.name(), "bounding_box");
}
