use vstd::prelude::*;

use crate::errors::DiffusionError;
use crate::errors::spec_message;
use crate::queue::JobStatus;
use crate::worker::GenerateImageRequest;
use crate::worker::GenerateImageResponse;

verus! {

/// The documented default for the step count of a generation request.
pub fn default_steps() -> (r: i32)
    ensures
        r == 50,
{
    50
}

/// The documented default for the guidance scale, in tenths (75 is 7.5).
pub fn default_guidance_tenths() -> (r: i64)
    ensures
        r == 75,
{
    75
}

/// The documented default for the width and the height of a requested image.
pub fn default_size() -> (r: i32)
    ensures
        r == 512,
{
    512
}

/// A generation request as the REST ingress hands it over after parsing:
/// omitted numeric fields arrive as `None` and take the documented defaults.
#[derive(Debug)]
pub struct GenerateRequest {
    pub prompt: String,
    pub negative_prompt: Option<String>,
    pub num_inference_steps: Option<i32>,
    pub guidance_scale_tenths: Option<i64>,
    pub width: Option<i32>,
    pub height: Option<i32>,
    pub seed: Option<i64>,
}

/// Carries a parsed REST request into the queue's request shape, filling the
/// documented defaults, so that the REST ingress admits through the same
/// dispatch queue as every other ingress.
pub fn queue_request_from_rest(req: GenerateRequest) -> (q: GenerateImageRequest)
    ensures
        q.prompt == req.prompt,
        q.negative_prompt@ == (match req.negative_prompt {
            Some(s) => s@,
            None => Seq::<char>::empty(),
        }),
        q.num_inference_steps == (match req.num_inference_steps {
            Some(v) => v,
            None => 50i32,
        }),
        q.guidance_scale_tenths == (match req.guidance_scale_tenths {
            Some(v) => v,
            None => 75i64,
        }),
        q.width == (match req.width {
            Some(v) => v,
            None => 512i32,
        }),
        q.height == (match req.height {
            Some(v) => v,
            None => 512i32,
        }),
        q.seed == req.seed,
{
    GenerateImageRequest {
        prompt: req.prompt,
        negative_prompt: match req.negative_prompt {
            Some(s) => s,
            None => String::new(),
        },
        num_inference_steps: match req.num_inference_steps {
            Some(v) => v,
            None => default_steps(),
        },
        guidance_scale_tenths: match req.guidance_scale_tenths {
            Some(v) => v,
            None => default_guidance_tenths(),
        },
        width: match req.width {
            Some(v) => v,
            None => default_size(),
        },
        height: match req.height {
            Some(v) => v,
            None => default_size(),
        },
        seed: req.seed,
    }
}

/// The standard base64 text (with padding) of a byte sequence, as
/// `base64::encode` produces it.
pub uninterp spec fn base64_of(bytes: Seq<u8>) -> Seq<char>;

/// Relies on base64::encode: the standard alphabet with padding, four output
/// characters for every started group of three input bytes, a function of
/// the bytes alone.
#[verifier::external_body]
fn base64_encode(bytes: &Vec<u8>) -> (r: String)
    requires
        bytes@.len() * 4 <= usize::MAX,
    ensures
        r@ == base64_of(bytes@),
        r@.len() == ((bytes@.len() + 2) / 3) * 4,
{
    base64::encode(bytes.as_slice())
}

/// The metadata block of a REST generation response; the elapsed time is
/// carried in milliseconds.
#[derive(Debug)]
pub struct ResponseMetadata {
    pub generation_time_ms: u64,
    pub model_used: String,
    pub seed: i64,
    pub actual_steps: i32,
}

/// A REST generation response: either the encoded images with their
/// metadata, or an error message, never both.
#[derive(Debug)]
pub struct GenerateResponse {
    pub job_id: String,
    pub status: String,
    pub images_base64: Option<Vec<String>>,
    pub metadata: Option<ResponseMetadata>,
    pub error: Option<String>,
}

/// Builds the REST reply for a job's outcome as the completion channel
/// delivered it: the queue's job id rendered in decimal; on success every
/// image base64-encoded and the worker's metadata carried over; on failure
/// the error's message under status `error`.
pub fn build_generate_response(job_id: u64, outcome: Result<
    GenerateImageResponse,
    DiffusionError,
>) -> (r: GenerateResponse)
    requires
        outcome matches Ok(res) ==> forall|i: int|
            0 <= i < res.images@.len() ==> (#[trigger] res.images@[i])@.len() * 4 <= usize::MAX,
    ensures
        r.job_id@ == crate::text::spec_decimal_of_nat(job_id as int),
        outcome matches Ok(res) ==> ({
            &&& r.status@ == "completed"@
            &&& r.images_base64 matches Some(v) && v@.len() == res.images@.len() && (forall|i: int|
                0 <= i < v@.len() ==> (#[trigger] v@[i])@ == base64_of(res.images@[i]@))
            &&& (match res.metadata {
                Some(md) => r.metadata matches Some(m) && ({
                    &&& m.generation_time_ms == md.generation_time_ms
                    &&& m.model_used == md.model_used
                    &&& m.seed == md.seed
                    &&& m.actual_steps == md.actual_steps
                }),
                None => r.metadata is None,
            })
            &&& r.error is None
        }),
        outcome matches Err(e) ==> ({
            &&& r.status@ == "error"@
            &&& r.images_base64 is None
            &&& r.metadata is None
            &&& r.error matches Some(msg) && msg@ == "Generation failed: "@ + spec_message(&e)
        }),
{
    let job_id_text = crate::text::decimal_of_nat(job_id);
    match outcome {
        Ok(res) => {
            let mut images_base64: Vec<String> = Vec::new();
            let mut i: usize = 0;
            while i < res.images.len()
                invariant
                    0 <= i <= res.images@.len(),
                    forall|k: int|
                        0 <= k < res.images@.len() ==> (#[trigger] res.images@[k])@.len() * 4
                            <= usize::MAX,
                    images_base64@.len() == i,
                    forall|k: int|
                        0 <= k < i ==> (#[trigger] images_base64@[k])@ == base64_of(
                            res.images@[k]@,
                        ),
                decreases res.images@.len() - i,
            {
                images_base64.push(base64_encode(&res.images[i]));
                i = i + 1;
            }
            GenerateResponse {
                job_id: job_id_text,
                status: "completed".to_owned(),
                images_base64: Some(images_base64),
                metadata: match res.metadata {
                    Some(md) => Some(
                        ResponseMetadata {
                            generation_time_ms: md.generation_time_ms,
                            model_used: md.model_used,
                            seed: md.seed,
                            actual_steps: md.actual_steps,
                        },
                    ),
                    None => None,
                },
                error: None,
            }
        },
        Err(e) => GenerateResponse {
            job_id: job_id_text,
            status: "error".to_owned(),
            images_base64: None,
            metadata: None,
            error: Some("Generation failed: ".to_owned().concat(e.message().as_str())),
        },
    }
}

/// The REST health report: besides the service identity, the current
/// pending count and the configured worker count.
#[derive(Debug)]
pub struct HealthResponse {
    pub status: String,
    pub model_loaded: bool,
    pub version: String,
    pub device: String,
    pub queue_length: usize,
    pub worker_count: usize,
}

/// Builds the REST health report; the ingress passes its package version,
/// the configured device name, a queue-length snapshot and the configured
/// worker count through.
pub fn health_response(version: String, device: String, queue_length: usize, worker_count: usize) -> (r: HealthResponse)
    ensures
        r.status@ == "healthy"@,
        r.model_loaded,
        r.version == version,
        r.device == device,
        r.queue_length == queue_length,
        r.worker_count == worker_count,
{
    HealthResponse {
        status: "healthy".to_owned(),
        model_loaded: true,
        version,
        device,
        queue_length,
        worker_count,
    }
}

/// The name of a job status, as status queries report it.
pub open spec fn spec_status_name(s: JobStatus) -> Seq<char> {
    match s {
        JobStatus::Queued => "Queued"@,
        JobStatus::Processing => "Processing"@,
        JobStatus::Completed => "Completed"@,
        JobStatus::Failed => "Failed"@,
        JobStatus::Cancelled => "Cancelled"@,
    }
}

/// Renders a job status for a status-query reply.
pub fn status_name(s: JobStatus) -> (r: String)
    ensures
        r@ == spec_status_name(s),
{
    match s {
        JobStatus::Queued => "Queued".to_owned(),
        JobStatus::Processing => "Processing".to_owned(),
        JobStatus::Completed => "Completed".to_owned(),
        JobStatus::Failed => "Failed".to_owned(),
        JobStatus::Cancelled => "Cancelled".to_owned(),
    }
}

/// A status-query reply: the job's id and the name of its current status.
#[derive(Debug)]
pub struct JobStatusResponse {
    pub job_id: u64,
    pub status: String,
    pub error: Option<String>,
}

/// Builds the reply for a status query that found its job. A query for an
/// unknown id never reaches this: `get_status` answers it with `None`, a
/// distinct not-found outcome.
pub fn job_status_reply(job_id: u64, status: JobStatus) -> (r: JobStatusResponse)
    ensures
        r.job_id == job_id,
        r.status@ == spec_status_name(status),
        r.error is None,
{
    JobStatusResponse { job_id, status: status_name(status), error: None }
}

/// The RPC health report: the pending count and the configured worker count.
#[derive(Debug)]
pub struct HealthCheckResponse {
    pub status: String,
    pub model_loaded: bool,
    pub queue_length: i32,
    pub active_workers: i32,
    pub system_info: String,
}

/// Builds the RPC health report from a queue-length snapshot and the
/// configured worker count; counts beyond `i32::MAX` saturate.
pub fn health_check_response(queue_length: usize, worker_threads: usize) -> (r:
    HealthCheckResponse)
    ensures
        r.status@ == "healthy"@,
        r.model_loaded,
        r.queue_length == (if queue_length <= i32::MAX {
            queue_length as i32
        } else {
            i32::MAX
        }),
        r.active_workers == (if worker_threads <= i32::MAX {
            worker_threads as i32
        } else {
            i32::MAX
        }),
        r.system_info@.len() == 0,
{
    let queue_len: i32 = if queue_length <= i32::MAX as usize {
        queue_length as i32
    } else {
        i32::MAX
    };
    let workers: i32 = if worker_threads <= i32::MAX as usize {
        worker_threads as i32
    } else {
        i32::MAX
    };
    HealthCheckResponse {
        status: "healthy".to_owned(),
        model_loaded: true,
        queue_length: queue_len,
        active_workers: workers,
        system_info: String::new(),
    }
}

} // verus!
