//! The making of a detector.

use vstd::prelude::*;
use crate::model::Model;
use crate::pose_detector::{Call, Creation, PoseDetector};
use crate::value::{list_view, DynValue, Value};

verus! {

/// Why no detector was made.
#[derive(Debug)]
pub enum CreationError {
    /// The engine has no method that makes detectors.
    MethodMissing,
    /// The engine refused, with the error that is given.
    Rejected(wasm_bindgen::JsValue),
}

/// The call that asks the engine for a detector of a model: the model's name
/// and its settings, the undefined value where there are none.
pub fn create_detector(model: Model) -> (call: Call)
    ensures
        call.is("createDetector"@, seq![Value::Str(model.spec_name()), model.spec_config()]),
{
    let mut args: Vec<DynValue> = Vec::new();
    args.push(DynValue::Str(model.get_name().to_owned()));
    args.push(model.get_config());
    assert(list_view(args@) =~= seq![Value::Str(model.spec_name()), model.spec_config()]);
    Call { method: "createDetector", args }
}

/// The detector that the engine made, wrapped, or why it made none. A
/// detector starts live, and there is one only where the call gave one.
pub fn created(outcome: Creation) -> (r: Result<PoseDetector, CreationError>)
    ensures
        match outcome {
            Creation::MethodMissing => r is Err && r->Err_0 == CreationError::MethodMissing,
            Creation::Threw(cause) => r is Err && r->Err_0 == CreationError::Rejected(cause),
            Creation::Made(value) => r is Ok && r->Ok_0.spec_value() == value
                && !r->Ok_0.spec_disposed(),
        },
{
    match outcome {
        Creation::MethodMissing => Err(CreationError::MethodMissing),
        Creation::Threw(cause) => Err(CreationError::Rejected(cause)),
        Creation::Made(value) => Ok(PoseDetector::from(value)),
    }
}

} // verus!
