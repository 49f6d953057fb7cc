//! A detector of the engine: the calls that are made on it, what comes back
//! from them, and the one disposal that it is owed.

use vstd::prelude::*;
use crate::naming::ConfigField;
use crate::pose::{decode, poses_of, poses_view, DecodeError, DecodeReason, Pose, PoseView};
use crate::value::{
    bool_value, distinct_keys, dyn_bool, dyn_num, group_record_laws, has_key, list_view, lookup,
    num_value, rec_assign, with_opt, DynRecord, DynValue, Entries, Number, Value,
};

verus! {

/// A call that is to be made to the engine: the method's name and the
/// arguments in order. A value that only the engine understands, such as an
/// image, is not part of it: the caller puts it in front.
#[derive(Debug, PartialEq)]
pub struct Call {
    pub method: &'static str,
    pub args: Vec<DynValue>,
}

impl Call {
    /// True where the call is that of `method` with the arguments `args`.
    pub open spec fn is(self, method: Seq<char>, args: Seq<Value>) -> bool {
        self.method@ == method && list_view(self.args@) == args
    }
}

/// `wasm_bindgen::JsValue`, a value that lives in the engine. The library
/// carries such a value and hands it back; nothing is claimed of what it
/// holds.
#[verifier::external_type_specification]
#[verifier::external_body]
pub struct ExJsValue(wasm_bindgen::JsValue);

/// How a call to the engine ended.
#[derive(Debug)]
pub enum Outcome {
    /// The engine has no method of that name.
    MethodMissing,
    /// The method raised the error that is given, a value of the engine.
    Threw(wasm_bindgen::JsValue),
    /// The method returned the value that is given.
    Returned(DynValue),
}

/// How the call that makes a detector ended.
#[derive(Debug)]
pub enum Creation {
    /// The engine has no method that makes detectors.
    MethodMissing,
    /// The engine refused, with the error that is given.
    Threw(wasm_bindgen::JsValue),
    /// The engine made the detector that is given.
    Made(wasm_bindgen::JsValue),
}

/// Why a call that returns nothing failed.
#[derive(Debug)]
pub enum InvokeError {
    /// The engine has no method of that name.
    MethodMissing,
    /// The engine raised the error that is given.
    InvocationFailed(wasm_bindgen::JsValue),
}

/// Reports how a call that returns nothing ended: a failure is handed on,
/// a value that came back is dropped.
pub fn completed(outcome: Outcome) -> (r: Result<(), InvokeError>)
    ensures
        match outcome {
            Outcome::MethodMissing => r == Err::<(), InvokeError>(InvokeError::MethodMissing),
            Outcome::Threw(cause) => r == Err::<(), InvokeError>(
                InvokeError::InvocationFailed(cause),
            ),
            Outcome::Returned(_) => r is Ok,
        },
{
    match outcome {
        Outcome::MethodMissing => Err(InvokeError::MethodMissing),
        Outcome::Threw(cause) => Err(InvokeError::InvocationFailed(cause)),
        Outcome::Returned(_) => Ok(()),
    }
}

/// The settings of an estimation that every model takes.
#[derive(Clone, Copy, Debug, PartialEq, Eq, Structural)]
pub struct CommonEstimationConfig {
    pub max_poses: Option<u32>,
    pub flip_horizontal: Option<bool>,
}

impl CommonEstimationConfig {
    pub open spec fn max_poses_value(self) -> Option<Value> {
        match self.max_poses {
            Some(n) => Some(Value::Num(Number::Int(n as i64))),
            None => None,
        }
    }

    pub open spec fn entries(self) -> Entries {
        with_opt(
            with_opt(Seq::empty(), ConfigField::MaxPoses.spec_key(), self.max_poses_value()),
            ConfigField::FlipHorizontal.spec_key(),
            bool_value(self.flip_horizontal),
        )
    }

    pub fn encode(&self) -> (r: DynRecord)
        ensures
            r@ == self.entries(),
            r.wf(),
    {
        let mut r = DynRecord::new();
        r.set_opt(
            ConfigField::MaxPoses.key(),
            match self.max_poses {
                Some(n) => Some(DynValue::Num(Number::Int(n as i64))),
                None => None,
            },
        );
        r.set_opt(ConfigField::FlipHorizontal.key(), dyn_bool(self.flip_horizontal));
        r
    }
}

/// The settings of an estimation with PoseNet.
#[derive(Clone, Copy, Debug, PartialEq, Eq, Structural)]
pub struct PoseNetEstimationConfig {
    pub common_config: CommonEstimationConfig,
    pub score_threshold: Option<Number>,
    pub nms_radius: Option<Number>,
}

impl PoseNetEstimationConfig {
    /// The fields that only PoseNet has.
    pub open spec fn own_entries(self) -> Entries {
        with_opt(
            with_opt(
                Seq::empty(),
                ConfigField::ScoreThreshold.spec_key(),
                num_value(self.score_threshold),
            ),
            ConfigField::NmsRadius.spec_key(),
            num_value(self.nms_radius),
        )
    }

    /// One flat record: the common fields first, the fields of PoseNet laid
    /// over them.
    pub open spec fn entries(self) -> Entries {
        rec_assign(rec_assign(Seq::empty(), self.common_config.entries()), self.own_entries())
    }

    pub fn encode(&self) -> (r: DynRecord)
        ensures
            r@ == self.entries(),
            r.wf(),
    {
        let mut own = DynRecord::new();
        own.set_opt(ConfigField::ScoreThreshold.key(), dyn_num(self.score_threshold));
        own.set_opt(ConfigField::NmsRadius.key(), dyn_num(self.nms_radius));
        let mut r = DynRecord::new();
        r.assign(self.common_config.encode());
        r.assign(own);
        r
    }
}

/// The settings of an estimation, by model.
#[derive(Clone, Copy, Debug, PartialEq, Eq, Structural)]
pub enum EstimationConfig {
    PoseNet(PoseNetEstimationConfig),
    BlazePoseOrMoveNet(CommonEstimationConfig),
}

impl EstimationConfig {
    pub open spec fn entries(self) -> Entries {
        match self {
            EstimationConfig::PoseNet(c) => c.entries(),
            EstimationConfig::BlazePoseOrMoveNet(c) => c.entries(),
        }
    }

    pub fn encode(&self) -> (r: DynRecord)
        ensures
            r@ == self.entries(),
            r.wf(),
    {
        match self {
            EstimationConfig::PoseNet(c) => c.encode(),
            EstimationConfig::BlazePoseOrMoveNet(c) => c.encode(),
        }
    }
}

impl CommonEstimationConfig {
    /// The keys that the engine is handed for these settings.
    pub open spec fn has(self, q: Seq<char>) -> bool {
        ||| q == ConfigField::MaxPoses.spec_key() && self.max_poses is Some
        ||| q == ConfigField::FlipHorizontal.spec_key() && self.flip_horizontal is Some
    }
}

impl PoseNetEstimationConfig {
    /// The keys that the engine is handed for these settings.
    pub open spec fn has(self, q: Seq<char>) -> bool {
        ||| self.common_config.has(q)
        ||| q == ConfigField::ScoreThreshold.spec_key() && self.score_threshold is Some
        ||| q == ConfigField::NmsRadius.spec_key() && self.nms_radius is Some
    }
}

impl EstimationConfig {
    /// The keys that the engine is handed for these settings.
    pub open spec fn has(self, q: Seq<char>) -> bool {
        match self {
            EstimationConfig::PoseNet(c) => c.has(q),
            EstimationConfig::BlazePoseOrMoveNet(c) => c.has(q),
        }
    }
}

/// The record of the settings of an estimation is a mapping, and it holds a
/// key exactly where the key is that of a field that is set.
pub proof fn lemma_estimation_keys(c: EstimationConfig)
    ensures
        distinct_keys(c.entries()),
        forall|q: Seq<char>| #[trigger] has_key(c.entries(), q) == c.has(q),
{
    broadcast use group_record_laws;

}

/// The record for PoseNet is flat: it shows the common fields and PoseNet's
/// own side by side, each with its value.
pub proof fn lemma_pose_net_estimation_flat(c: PoseNetEstimationConfig)
    ensures
        lookup(c.entries(), ConfigField::MaxPoses.spec_key()) == c.common_config.max_poses_value(),
        lookup(c.entries(), ConfigField::FlipHorizontal.spec_key()) == bool_value(
            c.common_config.flip_horizontal,
        ),
        lookup(c.entries(), ConfigField::ScoreThreshold.spec_key()) == num_value(c.score_threshold),
        lookup(c.entries(), ConfigField::NmsRadius.spec_key()) == num_value(c.nms_radius),
{
    broadcast use group_record_laws;

    reveal_strlit("maxPoses");
    reveal_strlit("flipHorizontal");
    reveal_strlit("scoreThreshold");
    reveal_strlit("nmsRadius");
    assert("maxPoses"@.len() == 8);
    assert("flipHorizontal"@.len() == 14);
    assert("scoreThreshold"@.len() == 14);
    assert("nmsRadius"@.len() == 9);
    assert("flipHorizontal"@[0] == 'f');
    assert("scoreThreshold"@[0] == 's');
}

/// The time of a frame as the engine is handed it: the undefined value where
/// the caller gave none.
pub open spec fn timestamp_value(timestamp: Option<i32>) -> Value {
    match timestamp {
        Some(t) => Value::Num(Number::Int(t as i64)),
        None => Value::Undefined,
    }
}

/// Why an estimation failed.
#[derive(Debug)]
pub enum EstimationError {
    /// The detector has no method to estimate poses with.
    MethodMissing,
    /// The engine raised the error that is given.
    InvocationFailed(wasm_bindgen::JsValue),
    /// What the engine returned holds an element that is no pose.
    DecodeFailed(DecodeError),
}

/// What an estimation gives for each way its call can end. A result that is
/// no list fails at its first place.
pub open spec fn estimated(outcome: Outcome) -> Result<Seq<PoseView>, EstimationError> {
    match outcome {
        Outcome::MethodMissing => Err(EstimationError::MethodMissing),
        Outcome::Threw(cause) => Err(EstimationError::InvocationFailed(cause)),
        Outcome::Returned(DynValue::List(raw)) => match poses_of(list_view(raw@)) {
            Ok(ps) => Ok(ps),
            Err((position, reason)) => Err(
                EstimationError::DecodeFailed(DecodeError { position: position as usize, reason }),
            ),
        },
        Outcome::Returned(_) => Err(
            EstimationError::DecodeFailed(
                DecodeError { position: 0, reason: DecodeReason::NotAList },
            ),
        ),
    }
}

/// One detector of the engine: the engine's own value, which the library
/// only hands back, and whether the engine has been asked to dispose of it.
#[derive(Debug)]
pub struct PoseDetector {
    js_value: wasm_bindgen::JsValue,
    disposed: bool,
}

impl PoseDetector {
    /// True once the disposal has been asked for.
    pub closed spec fn spec_disposed(self) -> bool {
        self.disposed
    }

    /// The engine's value for this detector.
    pub closed spec fn spec_value(self) -> wasm_bindgen::JsValue {
        self.js_value
    }

    /// Wraps a detector that the engine has just made.
    pub fn from(value: wasm_bindgen::JsValue) -> (d: PoseDetector)
        ensures
            d.spec_value() == value,
            !d.spec_disposed(),
    {
        PoseDetector { js_value: value, disposed: false }
    }

    /// The engine's value for this detector, on which its methods are called.
    pub fn as_ref(&self) -> (value: &wasm_bindgen::JsValue)
        ensures
            *value == self.spec_value(),
    {
        &self.js_value
    }

    /// Gives the engine's value back and ends the wrapper.
    pub fn into(self) -> (value: wasm_bindgen::JsValue)
        ensures
            value == self.spec_value(),
    {
        self.js_value
    }

    /// True once the disposal has been asked for.
    pub fn is_disposed(&self) -> (b: bool)
        ensures
            b == self.spec_disposed(),
    {
        self.disposed
    }

    /// The call that estimates the poses in an image. The image goes in
    /// front of the two arguments that are given here.
    pub fn estimate_poses(&self, config: EstimationConfig, timestamp: Option<i32>) -> (call: Call)
        ensures
            call.is(
                "estimatePoses"@,
                seq![Value::Record(config.entries()), timestamp_value(timestamp)],
            ),
    {
        let mut args: Vec<DynValue> = Vec::new();
        args.push(DynValue::Record(config.encode()));
        args.push(
            match timestamp {
                Some(t) => DynValue::Num(Number::Int(t as i64)),
                None => DynValue::Undefined,
            },
        );
        assert(list_view(args@) =~= seq![
            Value::Record(config.entries()),
            timestamp_value(timestamp),
        ]);
        Call { method: "estimatePoses", args }
    }

    /// The poses of an estimation whose call has ended, or why there are
    /// none.
    pub fn estimate_result(outcome: Outcome) -> (r: Result<Vec<Pose>, EstimationError>)
        ensures
            match r {
                Ok(ps) => estimated(outcome) == Ok::<Seq<PoseView>, EstimationError>(
                    poses_view(ps@),
                ),
                Err(e) => estimated(outcome) == Err::<Seq<PoseView>, EstimationError>(e),
            },
    {
        match outcome {
            Outcome::MethodMissing => Err(EstimationError::MethodMissing),
            Outcome::Threw(cause) => Err(EstimationError::InvocationFailed(cause)),
            Outcome::Returned(DynValue::List(raw)) => match decode(&raw) {
                Ok(ps) => Ok(ps),
                Err(e) => Err(EstimationError::DecodeFailed(e)),
            },
            Outcome::Returned(_) => Err(
                EstimationError::DecodeFailed(
                    DecodeError { position: 0, reason: DecodeReason::NotAList },
                ),
            ),
        }
    }

    /// The call that resets the detector.
    pub fn reset(&self) -> (call: Call)
        ensures
            call.is("reset"@, Seq::empty()),
    {
        let args: Vec<DynValue> = Vec::new();
        assert(list_view(args@) =~= Seq::empty());
        Call { method: "reset", args }
    }

    /// Asks for the disposal. The first request gives the call to make; every
    /// later one gives none. The detector counts as disposed from the first
    /// request on, however that call ends.
    pub fn dispose(&mut self) -> (call: Option<Call>)
        ensures
            final(self).spec_disposed(),
            final(self).spec_value() == old(self).spec_value(),
            call is Some <==> !old(self).spec_disposed(),
            call is Some ==> call->0.is("dispose"@, Seq::empty()),
    {
        if self.disposed {
            None
        } else {
            self.disposed = true;
            let args: Vec<DynValue> = Vec::new();
            assert(list_view(args@) =~= Seq::empty());
            Some(Call { method: "dispose", args })
        }
    }
}

/// The number of calls that `requests` requests for disposal give, one after
/// the other, on a detector that is disposed or not: each request is what
/// `dispose` does, a call where the detector is live, and a disposed detector
/// from then on.
pub open spec fn dispose_calls(disposed: bool, requests: nat) -> nat
    decreases requests,
{
    if requests == 0 {
        0
    } else if disposed {
        dispose_calls(true, (requests - 1) as nat)
    } else {
        1 + dispose_calls(true, (requests - 1) as nat)
    }
}

/// However often the disposal of a detector is asked for, if it is asked
/// for at all, the engine is called once, and not again for a detector that
/// is disposed: a request and the end of the owner's scope make one call.
pub proof fn lemma_dispose_once(detector: PoseDetector, requests: nat)
    ensures
        dispose_calls(detector.spec_disposed(), requests) == if detector.spec_disposed()
            || requests == 0 {
            0nat
        } else {
            1nat
        },
{
    lemma_dispose_calls(detector.spec_disposed(), requests);
}

proof fn lemma_dispose_calls(disposed: bool, requests: nat)
    ensures
        dispose_calls(disposed, requests) == if disposed || requests == 0 {
            0nat
        } else {
            1nat
        },
    decreases requests,
{
    if requests > 0 {
        lemma_dispose_calls(true, (requests - 1) as nat);
    }
}

} // verus!
