use pose_detection::pose::{decode, BoundingBox, DecodeError, DecodeReason, Field, Keypoint, Pose};
use pose_detection::pose_detector::{
    completed, Creation, CommonEstimationConfig, EstimationConfig, EstimationError, InvokeError, Outcome,
    PoseDetector,
};
use pose_detection::util::{adjacent_pairs_result, QueryError};
use pose_detection::value::{DynRecord, DynValue, Number};
use pose_detection::{create_detector, created, CreationError};
use pose_detection::model::Model;
use wasm_bindgen::JsValue;

fn num(n: i64) -> DynValue {
    DynValue::Num(Number::Int(n))
}

fn rec(entries: Vec<(&str, DynValue)>) -> DynValue {
    DynValue::Record(DynRecord {
        entries: entries.into_iter().map(|(k, v)| (k.to_string(), v)).collect(),
    })
}

fn point(x: i64, y: i64) -> Keypoint {
    Keypoint { x: Number::Int(x), y: Number::Int(y), z: None, score: None, name: None }
}

fn full_pose() -> Pose {
    Pose {
        keypoints: vec![
            Keypoint {
                x: Number::Bits(1.5f64.to_bits()),
                y: Number::Int(2),
                z: Some(Number::Int(3)),
                score: Some(Number::Bits(0.9f64.to_bits())),
                name: Some("nose".to_string()),
            },
            point(4, 5),
        ],
        score: Some(Number::Bits(0.8f64.to_bits())),
        keypoints_3d: Some(vec![point(7, 8)]),
        bounding_box: Some(BoundingBox {
            x_min: Number::Int(0),
            y_min: Number::Int(1),
            x_max: Number::Int(10),
            y_max: Number::Int(11),
            width: Number::Int(10),
            height: Number::Int(10),
        }),
        id: Some(Number::Int(42)),
    }
}

#[test]
fn decode_one_pose_with_one_keypoint() {
    let raw = vec![rec(vec![(
        "keypoints",
        DynValue::List(vec![rec(vec![("x", num(10)), ("y", num(20))])]),
    )])];
    let poses = decode(&raw).unwrap();
    assert_eq!(
        poses,
        vec![Pose {
            keypoints: vec![Keypoint {
                x: Number::Int(10),
                y: Number::Int(20),
                z: None,
                score: None,
                name: None
            }],
            score: None,
            keypoints_3d: None,
            bounding_box: None,
            id: None,
        }]
    );
}

#[test]
fn decode_of_nothing_is_nothing() {
    assert_eq!(decode(&vec![]), Ok(vec![]));
}

#[test]
fn encode_then_decode_gives_the_pose_back() {
    let bare = Pose {
        keypoints: vec![],
        score: None,
        keypoints_3d: None,
        bounding_box: None,
        id: None,
    };
    let poses = vec![full_pose(), bare];
    let raw: Vec<DynValue> = poses.iter().map(|p| p.encode()).collect();
    assert_eq!(decode(&raw), Ok(poses));
}

#[test]
fn encoded_pose_uses_the_engine_keys() {
    let v = full_pose().encode();
    match v {
        DynValue::Record(r) => {
            let keys: Vec<&str> = r.entries.iter().map(|e| e.0.as_str()).collect();
            assert_eq!(keys, vec!["keypoints", "score", "keypoints3d", "boundingBox", "id"]);
            match r.get("boundingBox") {
                Some(DynValue::Record(b)) => {
                    let keys: Vec<&str> = b.entries.iter().map(|e| e.0.as_str()).collect();
                    assert_eq!(keys, vec!["xMin", "yMin", "xMax", "yMax", "width", "height"]);
                }
                _ => panic!("no box"),
            }
        }
        _ => panic!("no record"),
    }
}

#[test]
fn field_keys() {
    assert_eq!(Field::Keypoints3d.key(), "keypoints3d");
    assert_eq!(Field::BoundingBox.key(), "boundingBox");
    assert_eq!(Field::XMin.key(), "xMin");
    assert_eq!(Field::Name.key(), "name");
}

#[test]
fn missing_x_names_the_place_of_the_pose() {
    let good = || rec(vec![("keypoints", DynValue::List(vec![rec(vec![("x", num(1)), ("y", num(2))])]))]);
    let bad = rec(vec![(
        "keypoints",
        DynValue::List(vec![rec(vec![("x", num(1)), ("y", num(2))]), rec(vec![("y", num(2))])]),
    )]);
    let raw = vec![good(), good(), bad];
    assert_eq!(
        decode(&raw),
        Err(DecodeError { position: 2, reason: DecodeReason::MissingField(Field::X) })
    );
}

#[test]
fn missing_y_is_reported() {
    let raw = vec![rec(vec![("keypoints", DynValue::List(vec![rec(vec![("x", num(1))])]))])];
    assert_eq!(
        decode(&raw),
        Err(DecodeError { position: 0, reason: DecodeReason::MissingField(Field::Y) })
    );
}

#[test]
fn undefined_counts_as_missing() {
    let raw = vec![rec(vec![(
        "keypoints",
        DynValue::List(vec![rec(vec![("x", DynValue::Undefined), ("y", num(2))])]),
    )])];
    assert_eq!(
        decode(&raw),
        Err(DecodeError { position: 0, reason: DecodeReason::MissingField(Field::X) })
    );
    let raw = vec![rec(vec![
        ("keypoints", DynValue::List(vec![])),
        ("score", DynValue::Undefined),
    ])];
    assert_eq!(decode(&raw).unwrap()[0].score, None);
}

#[test]
fn the_first_failure_wins() {
    let raw = vec![
        rec(vec![("keypoints", DynValue::List(vec![]))]),
        num(3),
        rec(vec![("score", num(1))]),
    ];
    assert_eq!(decode(&raw), Err(DecodeError { position: 1, reason: DecodeReason::NotARecord }));
}

#[test]
fn missing_keypoints_is_reported() {
    let raw = vec![rec(vec![("score", num(1))])];
    assert_eq!(
        decode(&raw),
        Err(DecodeError { position: 0, reason: DecodeReason::MissingField(Field::Keypoints) })
    );
}

#[test]
fn type_mismatches_are_reported() {
    let raw = vec![rec(vec![("keypoints", num(1))])];
    assert_eq!(
        decode(&raw),
        Err(DecodeError { position: 0, reason: DecodeReason::TypeMismatch(Field::Keypoints) })
    );
    let raw = vec![rec(vec![("keypoints", DynValue::List(vec![num(1)]))])];
    assert_eq!(
        decode(&raw),
        Err(DecodeError { position: 0, reason: DecodeReason::TypeMismatch(Field::Keypoints) })
    );
    let raw = vec![rec(vec![
        ("keypoints", DynValue::List(vec![])),
        ("score", DynValue::Bool(true)),
    ])];
    assert_eq!(
        decode(&raw),
        Err(DecodeError { position: 0, reason: DecodeReason::TypeMismatch(Field::Score) })
    );
    let raw = vec![rec(vec![
        ("keypoints", DynValue::List(vec![])),
        ("boundingBox", rec(vec![("xMin", num(1))])),
    ])];
    assert_eq!(
        decode(&raw),
        Err(DecodeError { position: 0, reason: DecodeReason::MissingField(Field::YMin) })
    );
    let raw = vec![rec(vec![(
        "keypoints",
        DynValue::List(vec![rec(vec![
            ("x", num(1)),
            ("y", num(2)),
            ("name", num(3)),
        ])]),
    )])];
    assert_eq!(
        decode(&raw),
        Err(DecodeError { position: 0, reason: DecodeReason::TypeMismatch(Field::Name) })
    );
}

#[test]
fn keys_that_are_no_field_are_passed_over() {
    let raw = vec![rec(vec![
        ("keypoints", DynValue::List(vec![])),
        ("segmentation", num(1)),
    ])];
    assert_eq!(decode(&raw).unwrap().len(), 1);
}

#[test]
fn estimate_result_tells_the_causes_apart() {
    assert!(matches!(
        PoseDetector::estimate_result(Outcome::MethodMissing),
        Err(EstimationError::MethodMissing)
    ));
    assert!(matches!(
        PoseDetector::estimate_result(Outcome::Threw(JsValue::null())),
        Err(EstimationError::InvocationFailed(_))
    ));
    assert!(matches!(
        PoseDetector::estimate_result(Outcome::Returned(DynValue::List(vec![num(1)]))),
        Err(EstimationError::DecodeFailed(DecodeError {
            position: 0,
            reason: DecodeReason::NotARecord
        }))
    ));
    assert!(matches!(
        PoseDetector::estimate_result(Outcome::Returned(DynValue::Undefined)),
        Err(EstimationError::DecodeFailed(DecodeError {
            position: 0,
            reason: DecodeReason::NotAList
        }))
    ));
    let bad = DynValue::List(vec![
        rec(vec![("keypoints", DynValue::List(vec![]))]),
        rec(vec![("keypoints", DynValue::List(vec![rec(vec![("y", num(2))])]))]),
    ]);
    assert!(matches!(
        PoseDetector::estimate_result(Outcome::Returned(bad)),
        Err(EstimationError::DecodeFailed(DecodeError {
            position: 1,
            reason: DecodeReason::MissingField(Field::X)
        }))
    ));
    assert_eq!(
        PoseDetector::estimate_result(Outcome::Returned(DynValue::List(vec![]))).ok(),
        Some(vec![])
    );
}

#[test]
fn end_to_end_blaze_pose() {
    let call = create_detector(Model::BlazePose(None));
    assert_eq!(call.method, "createDetector");
    assert_eq!(call.args, vec![DynValue::Str("BlazePose".to_string()), DynValue::Undefined]);
    let detector = created(Creation::Made(JsValue::undefined())).ok().unwrap();
    let config = EstimationConfig::BlazePoseOrMoveNet(CommonEstimationConfig {
        max_poses: Some(1),
        flip_horizontal: None,
    });
    let call = detector.estimate_poses(config, None);
    assert_eq!(call.method, "estimatePoses");
    assert_eq!(call.args, vec![rec(vec![("maxPoses", num(1))]), DynValue::Undefined]);
    let raw = DynValue::List(vec![rec(vec![(
        "keypoints",
        DynValue::List(vec![rec(vec![("x", num(10)), ("y", num(20))])]),
    )])]);
    let poses = PoseDetector::estimate_result(Outcome::Returned(raw)).ok().unwrap();
    assert_eq!(
        poses,
        vec![Pose {
            keypoints: vec![Keypoint {
                x: Number::Int(10),
                y: Number::Int(20),
                z: None,
                score: None,
                name: None
            }],
            score: None,
            keypoints_3d: None,
            bounding_box: None,
            id: None,
        }]
    );
}

#[test]
fn creation_fails_as_the_engine_says() {
    assert!(matches!(created(Creation::MethodMissing), Err(CreationError::MethodMissing)));
    assert!(matches!(created(Creation::Threw(JsValue::null())), Err(CreationError::Rejected(_))));
    let made = created(Creation::Made(JsValue::undefined())).ok().unwrap();
    assert!(!made.is_disposed());
    let _value: &JsValue = made.as_ref();
    let _back: JsValue = made.into();
}

#[test]
fn dispose_calls_the_engine_once() {
    let mut d = PoseDetector::from(JsValue::null());
    assert!(!d.is_disposed());
    let first = d.dispose();
    assert!(d.is_disposed());
    let second = d.dispose();
    let third = d.dispose();
    let call = first.unwrap();
    assert_eq!(call.method, "dispose");
    assert!(call.args.is_empty());
    assert_eq!(second, None);
    assert_eq!(third, None);
    assert!(d.is_disposed());
}

#[test]
fn reset_call_has_no_argument() {
    let d = PoseDetector::from(JsValue::undefined());
    let call = d.reset();
    assert_eq!(call.method, "reset");
    assert!(call.args.is_empty());
}

#[test]
fn completed_reports_failures() {
    assert!(matches!(completed(Outcome::Returned(DynValue::Undefined)), Ok(())));
    assert!(matches!(completed(Outcome::MethodMissing), Err(InvokeError::MethodMissing)));
    assert!(matches!(
        completed(Outcome::Threw(JsValue::undefined())),
        Err(InvokeError::InvocationFailed(_))
    ));
}

fn pairs(raw: DynValue) -> Result<Vec<(u32, u32)>, QueryError> {
    adjacent_pairs_result(Outcome::Returned(raw))
}

#[test]
fn adjacent_pairs_are_read() {
    let raw = DynValue::List(vec![
        DynValue::List(vec![num(0), num(1)]),
        DynValue::List(vec![num(1), num(4294967295)]),
    ]);
    assert_eq!(pairs(raw).ok(), Some(vec![(0, 1), (1, 4294967295)]));
    assert_eq!(pairs(DynValue::List(vec![])).ok(), Some(vec![]));
}

#[test]
fn adjacent_pairs_errors() {
    assert!(matches!(
        adjacent_pairs_result(Outcome::MethodMissing),
        Err(QueryError::MethodMissing)
    ));
    assert!(matches!(
        adjacent_pairs_result(Outcome::Threw(JsValue::null())),
        Err(QueryError::InvocationFailed(_))
    ));
    assert!(matches!(pairs(num(1)), Err(QueryError::NotAList)));
    let raw = DynValue::List(vec![
        DynValue::List(vec![num(0), num(1)]),
        DynValue::List(vec![num(0), num(4294967296)]),
    ]);
    assert!(matches!(pairs(raw), Err(QueryError::NotAPair(1))));
    let raw = DynValue::List(vec![DynValue::List(vec![num(0), num(-1)])]);
    assert!(matches!(pairs(raw), Err(QueryError::NotAPair(0))));
    let raw = DynValue::List(vec![DynValue::List(vec![num(0), num(1), num(2)])]);
    assert!(matches!(pairs(raw), Err(QueryError::NotAPair(0))));
    let raw = DynValue::List(vec![DynValue::List(vec![
        num(0),
        DynValue::Num(Number::Bits(1.5f64.to_bits())),
    ])]);
    assert!(matches!(pairs(raw), Err(QueryError::NotAPair(0))));
    let raw = DynValue::List(vec![num(3)]);
    assert!(matches!(pairs(raw), Err(QueryError::NotAPair(0))));
}
