use vstd::prelude::*;

verus! {

/// The error taxonomy of the generation service.
///
/// `QueueFull` and `InvalidParameters` are returned synchronously at the
/// admission/validation boundary; `Inference` failures are delivered to the
/// waiting caller through a job's completion channel; `JobNotFound` answers a
/// status query for an unknown job id.
#[derive(Debug)]
pub enum DiffusionError {
    ModelLoad(String),
    Inference(String),
    Config(String),
    QueueFull,
    JobNotFound(String),
    InvalidParameters(String),
    Storage(String),
    Timeout,
    Internal(String),
}

/// The text that `DiffusionError::message` renders for an error value.
pub open spec fn spec_message(e: &DiffusionError) -> Seq<char> {
    match e {
        DiffusionError::ModelLoad(s) => "Model loading failed: "@ + s@,
        DiffusionError::Inference(s) => "Inference failed: "@ + s@,
        DiffusionError::Config(s) => "Invalid configuration: "@ + s@,
        DiffusionError::QueueFull => "Queue full"@,
        DiffusionError::JobNotFound(s) => "Job not found: "@ + s@,
        DiffusionError::InvalidParameters(s) => "Invalid parameters: "@ + s@,
        DiffusionError::Storage(s) => "Storage error: "@ + s@,
        DiffusionError::Timeout => "Timeout"@,
        DiffusionError::Internal(s) => "Internal error: "@ + s@,
    }
}

impl DiffusionError {
    /// A human-readable description of the error, with the detail appended
    /// after the fixed prefix of the variant.
    pub fn message(&self) -> (r: String)
        ensures
            r@ == spec_message(self),
    {
        match self {
            DiffusionError::ModelLoad(s) => "Model loading failed: ".to_owned().concat(s.as_str()),
            DiffusionError::Inference(s) => "Inference failed: ".to_owned().concat(s.as_str()),
            DiffusionError::Config(s) => "Invalid configuration: ".to_owned().concat(s.as_str()),
            DiffusionError::QueueFull => "Queue full".to_owned(),
            DiffusionError::JobNotFound(s) => "Job not found: ".to_owned().concat(s.as_str()),
            DiffusionError::InvalidParameters(s) => {
                "Invalid parameters: ".to_owned().concat(s.as_str())
            },
            DiffusionError::Storage(s) => "Storage error: ".to_owned().concat(s.as_str()),
            DiffusionError::Timeout => "Timeout".to_owned(),
            DiffusionError::Internal(s) => "Internal error: ".to_owned().concat(s.as_str()),
        }
    }
}

} // verus!
