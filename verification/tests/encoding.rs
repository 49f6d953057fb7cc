use pose_detection::create_detector;
use pose_detection::model::{
    BlazePoseMediaPipeModelConfig, BlazePoseModelConfig, BlazePoseModelType,
    BlazePoseTfjsModelConfig, BoundingBoxTrackerConfig, InputResolution, KeypointTrackerConfig,
    MobileNetMultiplier, Model, MoveNetModelConfig, PoseNetArchitecture, PoseNetModelConfig,
    PoseNetOutputStride, QuantBytes, Runtime, TrackerConfig, TrackerType, HALF_BITS,
    THREE_QUARTERS_BITS,
};
use pose_detection::pose_detector::{
    CommonEstimationConfig, EstimationConfig, PoseDetector, PoseNetEstimationConfig,
};
use pose_detection::util::get_adjacent_pairs;
use pose_detection::value::{DynRecord, DynValue, Number};
use wasm_bindgen::JsValue;

fn whole(n: i64) -> DynValue {
    DynValue::Num(Number::Int(n))
}

fn text(s: &str) -> DynValue {
    DynValue::Str(s.to_string())
}

fn record(entries: Vec<(&str, DynValue)>) -> DynRecord {
    DynRecord { entries: entries.into_iter().map(|(k, v)| (k.to_string(), v)).collect() }
}

fn keys(r: &DynRecord) -> Vec<String> {
    r.entries.iter().map(|e| e.0.clone()).collect()
}

#[test]
fn record_set_keeps_the_place_of_a_key() {
    let mut r = DynRecord::new();
    r.set("a", whole(1));
    r.set("b", whole(2));
    r.set("a", whole(3));
    assert_eq!(r, record(vec![("a", whole(3)), ("b", whole(2))]));
    assert_eq!(r.len(), 2);
    assert_eq!(r.get("a"), Some(&whole(3)));
    assert_eq!(r.get("c"), None);
    assert_eq!(r.find("b"), Some(1));
}

#[test]
fn record_set_opt_leaves_no_trace_of_an_unset_field() {
    let mut r = DynRecord::new();
    r.set_opt("a", None);
    assert_eq!(r, DynRecord::new());
    r.set_opt("a", Some(DynValue::Bool(true)));
    assert_eq!(r, record(vec![("a", DynValue::Bool(true))]));
}

#[test]
fn record_assign_lets_the_merged_record_win() {
    let mut r = record(vec![("a", whole(1)), ("b", whole(2))]);
    r.assign(record(vec![("c", whole(5)), ("a", whole(9))]));
    assert_eq!(r, record(vec![("a", whole(9)), ("b", whole(2)), ("c", whole(5))]));
}

#[test]
fn model_names() {
    assert_eq!(Model::PoseNet(None).get_name(), "PoseNet");
    assert_eq!(Model::BlazePose(None).get_name(), "BlazePose");
    assert_eq!(Model::MoveNet(None).get_name(), "MoveNet");
}

#[test]
fn model_without_settings_encodes_to_undefined() {
    assert_eq!(Model::PoseNet(None).get_config(), DynValue::Undefined);
    assert_eq!(Model::BlazePose(None).get_config(), DynValue::Undefined);
    assert_eq!(Model::MoveNet(None).get_config(), DynValue::Undefined);
}

#[test]
fn blaze_pose_mediapipe_record() {
    let c = BlazePoseModelConfig {
        runtime: Runtime::Mediapipe(BlazePoseMediaPipeModelConfig {
            solution_path: Some("path/to/solution".to_string()),
        }),
        enable_smoothing: Some(true),
        enable_segmentation: None,
        smooth_segmentation: Some(false),
        model_type: Some(BlazePoseModelType::Heavy),
    };
    let v = Model::BlazePose(Some(c)).get_config();
    assert_eq!(
        v,
        DynValue::Record(record(vec![
            ("enableSmoothing", DynValue::Bool(true)),
            ("smoothSegmentation", DynValue::Bool(false)),
            ("modelType", text("heavy")),
            ("solutionPath", text("path/to/solution")),
            ("runtime", text("mediapipe")),
        ]))
    );
}

#[test]
fn blaze_pose_tfjs_record_has_no_mediapipe_field() {
    let c = BlazePoseModelConfig {
        runtime: Runtime::Tfjs(BlazePoseTfjsModelConfig {
            detector_model_url: Some("d".to_string()),
            landmark_model_url: None,
        }),
        enable_smoothing: None,
        enable_segmentation: None,
        smooth_segmentation: None,
        model_type: None,
    };
    let r = c.encode();
    assert_eq!(r, record(vec![("detectorModelUrl", text("d")), ("runtime", text("tfjs"))]));
    assert_eq!(r.get("solutionPath"), None);
    assert_eq!(r.get("runtime"), Some(&text("tfjs")));
}

#[test]
fn blaze_pose_with_nothing_set_holds_the_runtime_only() {
    let c = BlazePoseModelConfig {
        runtime: Runtime::Mediapipe(BlazePoseMediaPipeModelConfig { solution_path: None }),
        enable_smoothing: None,
        enable_segmentation: None,
        smooth_segmentation: None,
        model_type: None,
    };
    assert_eq!(c.encode(), record(vec![("runtime", text("mediapipe"))]));
}

#[test]
fn runtime_and_model_type_names() {
    let m = Runtime::Mediapipe(BlazePoseMediaPipeModelConfig { solution_path: None });
    let t = Runtime::Tfjs(BlazePoseTfjsModelConfig {
        detector_model_url: None,
        landmark_model_url: None,
    });
    assert_eq!(m.name(), "mediapipe");
    assert_eq!(t.name(), "tfjs");
    assert_eq!(BlazePoseModelType::Lite.name(), "lite");
    assert_eq!(BlazePoseModelType::Full.name(), "full");
    assert_eq!(BlazePoseModelType::Heavy.name(), "heavy");
    assert_eq!(TrackerType::Keypoint.name(), "keypoint");
    assert_eq!(TrackerType::BoundingBox.name(), "boundingBox");
    assert_eq!(PoseNetArchitecture::ResNet50.name(), "ResNet50");
    assert_eq!(PoseNetArchitecture::MobileNetV1.name(), "MobileNetV1");
}

#[test]
fn numbers_of_the_small_enums() {
    assert_eq!(PoseNetOutputStride::Is32.stride(), 32);
    assert_eq!(PoseNetOutputStride::Is16.stride(), 16);
    assert_eq!(PoseNetOutputStride::Is8.stride(), 8);
    assert_eq!(QuantBytes::Is1.bytes(), 1);
    assert_eq!(QuantBytes::Is2.bytes(), 2);
    assert_eq!(QuantBytes::Is4.bytes(), 4);
    assert_eq!(MobileNetMultiplier::Is1.number(), Number::Int(1));
    assert_eq!(MobileNetMultiplier::Is0Point5.number(), Number::Bits(0.5f64.to_bits()));
    assert_eq!(MobileNetMultiplier::Is0Point75.number(), Number::Bits(0.75f64.to_bits()));
    assert_eq!(f64::from_bits(HALF_BITS), 0.5);
    assert_eq!(f64::from_bits(THREE_QUARTERS_BITS), 0.75);
}

#[test]
fn pose_net_record() {
    let c = PoseNetModelConfig {
        architecture: PoseNetArchitecture::MobileNetV1,
        output_stride: PoseNetOutputStride::Is16,
        input_resolution: InputResolution { width: 640, height: 480 },
        multiplier: Some(MobileNetMultiplier::Is0Point75),
        model_url: None,
        quant_bytes: Some(QuantBytes::Is2),
    };
    assert_eq!(
        Model::PoseNet(Some(c)).get_config(),
        DynValue::Record(record(vec![
            ("architecture", text("MobileNetV1")),
            ("outputStride", whole(16)),
            (
                "inputResolution",
                DynValue::Record(record(vec![("width", whole(640)), ("height", whole(480))]))
            ),
            ("multiplier", DynValue::Num(Number::Bits(0.75f64.to_bits()))),
            ("quantBytes", whole(2)),
        ]))
    );
}

#[test]
fn move_net_record_with_keypoint_tracker() {
    let c = MoveNetModelConfig {
        enable_smoothing: Some(true),
        model_type: Some("MultiPose.Lightning".to_string()),
        model_url: None,
        min_pose_score: Some(1),
        multi_pose_max_dimension: None,
        enable_tracking: Some(true),
        tracker_type: Some(TrackerType::BoundingBox),
        tracker_config: Some(TrackerConfig {
            max_tracks: 18,
            max_age: 1000,
            min_similarity: 1,
            keypoint_tracker_params: Some(KeypointTrackerConfig {
                keypoint_confidence_threshold: 3,
                keypoint_falloff: vec![25, 35],
                min_number_of_keypoints: 4,
            }),
            bounding_box_tracker_params: None,
        }),
    };
    assert_eq!(
        Model::MoveNet(Some(c)).get_config(),
        DynValue::Record(record(vec![
            ("enableSmoothing", DynValue::Bool(true)),
            ("modelType", text("MultiPose.Lightning")),
            ("minPoseScore", whole(1)),
            ("enableTracking", DynValue::Bool(true)),
            ("trackerType", text("keypoint")),
            ("maxTracks", whole(18)),
            ("maxAge", whole(1000)),
            ("minSimilarity", whole(1)),
            ("keypointConfidenceThreshold", whole(3)),
            ("keypointFalloff", DynValue::List(vec![whole(25), whole(35)])),
            ("minNumberOfKeypoints", whole(4)),
        ]))
    );
}

#[test]
fn move_net_record_with_bounding_box_tracker() {
    let c = MoveNetModelConfig {
        enable_smoothing: None,
        model_type: None,
        model_url: Some("u".to_string()),
        min_pose_score: None,
        multi_pose_max_dimension: Some(256),
        enable_tracking: None,
        tracker_type: None,
        tracker_config: Some(TrackerConfig {
            max_tracks: 1,
            max_age: 2,
            min_similarity: 3,
            keypoint_tracker_params: None,
            bounding_box_tracker_params: Some(BoundingBoxTrackerConfig),
        }),
    };
    let r = c.encode();
    assert_eq!(
        keys(&r),
        vec![
            "modelUrl",
            "multiPoseMaxDimension",
            "maxTracks",
            "maxAge",
            "minSimilarity",
            "trackerType"
        ]
    );
    assert_eq!(r.get("trackerType"), Some(&text("boundingBox")));
}

#[test]
fn move_net_record_without_tracker() {
    let c = MoveNetModelConfig {
        enable_smoothing: None,
        model_type: None,
        model_url: None,
        min_pose_score: None,
        multi_pose_max_dimension: None,
        enable_tracking: None,
        tracker_type: Some(TrackerType::Keypoint),
        tracker_config: None,
    };
    assert_eq!(c.encode(), record(vec![("trackerType", text("keypoint"))]));
}

#[test]
fn common_estimation_record() {
    let c = CommonEstimationConfig { max_poses: Some(1), flip_horizontal: None };
    assert_eq!(c.encode(), record(vec![("maxPoses", whole(1))]));
    let c = CommonEstimationConfig { max_poses: None, flip_horizontal: Some(true) };
    assert_eq!(c.encode(), record(vec![("flipHorizontal", DynValue::Bool(true))]));
    let c = CommonEstimationConfig { max_poses: None, flip_horizontal: None };
    assert_eq!(c.encode(), DynRecord::new());
    let c = CommonEstimationConfig { max_poses: Some(u32::MAX), flip_horizontal: Some(false) };
    assert_eq!(
        c.encode(),
        record(vec![("maxPoses", whole(4294967295)), ("flipHorizontal", DynValue::Bool(false))])
    );
}

#[test]
fn pose_net_estimation_record_is_flat() {
    let c = EstimationConfig::PoseNet(PoseNetEstimationConfig {
        common_config: CommonEstimationConfig { max_poses: Some(5), flip_horizontal: Some(false) },
        score_threshold: Some(Number::Bits(0.5f64.to_bits())),
        nms_radius: Some(Number::Int(20)),
    });
    assert_eq!(
        c.encode(),
        record(vec![
            ("maxPoses", whole(5)),
            ("flipHorizontal", DynValue::Bool(false)),
            ("scoreThreshold", DynValue::Num(Number::Bits(0.5f64.to_bits()))),
            ("nmsRadius", whole(20)),
        ])
    );
}

#[test]
fn create_call_for_blaze_pose_without_settings() {
    let call = create_detector(Model::BlazePose(None));
    assert_eq!(call.method, "createDetector");
    assert_eq!(call.args, vec![text("BlazePose"), DynValue::Undefined]);
}

#[test]
fn estimate_call_holds_settings_and_time() {
    let d = PoseDetector::from(JsValue::undefined());
    let c = EstimationConfig::BlazePoseOrMoveNet(CommonEstimationConfig {
        max_poses: Some(1),
        flip_horizontal: None,
    });
    let call = d.estimate_poses(c, None);
    assert_eq!(call.method, "estimatePoses");
    assert_eq!(
        call.args,
        vec![DynValue::Record(record(vec![("maxPoses", whole(1))])), DynValue::Undefined]
    );
    let call = d.estimate_poses(c, Some(-7));
    assert_eq!(call.args[1], whole(-7));
}

#[test]
fn adjacent_pairs_call_holds_the_settings() {
    let call = get_adjacent_pairs(Model::MoveNet(None));
    assert_eq!(call.method, "getAdjacentPairs");
    assert_eq!(call.args, vec![DynValue::Undefined]);
    let c = BlazePoseModelConfig {
        runtime: Runtime::Tfjs(BlazePoseTfjsModelConfig {
            detector_model_url: None,
            landmark_model_url: None,
        }),
        enable_smoothing: None,
        enable_segmentation: None,
        smooth_segmentation: None,
        model_type: None,
    };
    let call = get_adjacent_pairs(Model::BlazePose(Some(c)));
    assert_eq!(call.args, vec![DynValue::Record(record(vec![("runtime", text("tfjs"))]))]);
}
