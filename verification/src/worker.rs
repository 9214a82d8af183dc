use vstd::prelude::*;

use crate::channel::send_completion;
use crate::errors::DiffusionError;
use crate::pipeline::GenerationParams;
use crate::pipeline::GenerationResult;
use crate::pipeline::InferencePipeline;
use crate::pipeline::params_valid;
use crate::queue::Job;
use crate::queue::JobStatus;
use crate::queue::MemoryQueue;

verus! {

/// A generation request as the dispatch queue carries it. Fields left at
/// their zero value ask for the documented defaults; the guidance scale is
/// kept in tenths (75 stands for 7.5).
#[derive(Debug, Clone)]
pub struct GenerateImageRequest {
    pub prompt: String,
    pub negative_prompt: String,
    pub num_inference_steps: i32,
    pub guidance_scale_tenths: i64,
    pub width: i32,
    pub height: i32,
    pub seed: Option<i64>,
}

/// The metadata a worker reports with a finished job.
#[derive(Debug)]
pub struct GenerationMetadata {
    pub generation_time_ms: u64,
    pub model_used: String,
    pub seed: i64,
    pub actual_steps: i32,
}

/// What a worker sends back on a job's completion channel on success.
#[derive(Debug)]
pub struct GenerateImageResponse {
    pub job_id: u64,
    pub images: Vec<Vec<u8>>,
    pub status: String,
    pub metadata: Option<GenerationMetadata>,
}

/// How a worker normalizes a queued request before generation: zero or
/// negative numeric fields fall back to the documented defaults (steps 50,
/// guidance 7.5, width and height 512), an empty negative prompt means none.
pub open spec fn spec_normalized(req: GenerateImageRequest) -> GenerationParams {
    GenerationParams {
        prompt: req.prompt,
        negative_prompt: if req.negative_prompt@.len() == 0 {
            None
        } else {
            Some(req.negative_prompt)
        },
        num_inference_steps: if req.num_inference_steps > 0 {
            req.num_inference_steps
        } else {
            50i32
        },
        guidance_scale_tenths: if req.guidance_scale_tenths > 0 {
            req.guidance_scale_tenths
        } else {
            75i64
        },
        width: if req.width > 0 {
            req.width
        } else {
            512i32
        },
        height: if req.height > 0 {
            req.height
        } else {
            512i32
        },
        seed: req.seed,
    }
}

/// Fills the defaults into a queued request. Pure: the shared job store is
/// never touched here.
pub fn normalize_request(req: &GenerateImageRequest) -> (p: GenerationParams)
    ensures
        p == spec_normalized(*req),
{
    GenerationParams {
        prompt: req.prompt.clone(),
        negative_prompt: if req.negative_prompt.as_str().is_empty() {
            None
        } else {
            Some(req.negative_prompt.clone())
        },
        num_inference_steps: if req.num_inference_steps > 0 {
            req.num_inference_steps
        } else {
            50
        },
        guidance_scale_tenths: if req.guidance_scale_tenths > 0 {
            req.guidance_scale_tenths
        } else {
            75
        },
        width: if req.width > 0 {
            req.width
        } else {
            512
        },
        height: if req.height > 0 {
            req.height
        } else {
            512
        },
        seed: req.seed,
    }
}

/// Builds the success response a worker sends for a finished job.
pub fn build_success_response(job_id: u64, result: GenerationResult) -> (r: GenerateImageResponse)
    ensures
        r.job_id == job_id,
        r.status@ == "completed"@,
        r.images == result.images,
        r.metadata matches Some(m) && ({
            &&& m.generation_time_ms == result.generation_time_ms
            &&& m.model_used@ == "stable-diffusion-v1-5"@
            &&& m.seed == result.seed
            &&& m.actual_steps == result.steps_taken
        }),
{
    GenerateImageResponse {
        job_id,
        images: result.images,
        status: "completed".to_owned(),
        metadata: Some(
            GenerationMetadata {
                generation_time_ms: result.generation_time_ms,
                model_used: "stable-diffusion-v1-5".to_owned(),
                seed: result.seed,
                actual_steps: result.steps_taken,
            },
        ),
    }
}

/// Publishes an admitted job's outcome: records the terminal status —
/// `Completed` for a success, `Failed` for any failure — and sends the
/// outcome on the job's completion channel. The send degrades to a no-op if
/// the submitting caller is gone; the pending sequence is never touched.
pub fn complete_job<Req, Res>(
    queue: &mut MemoryQueue<Req, Res>,
    job_id: u64,
    response_tx: tokio::sync::oneshot::Sender<Result<Res, DiffusionError>>,
    outcome: Result<Res, DiffusionError>,
) -> (delivered: bool)
    requires
        old(queue).wf(),
        old(queue).spec_statuses().contains_key(job_id),
        forall|i: int|
            0 <= i < old(queue).spec_pending().len() ==> (#[trigger] old(queue).spec_pending()[i]).id
                != job_id,
    ensures
        final(queue).wf(),
        final(queue).spec_pending() == old(queue).spec_pending(),
        final(queue).spec_max() == old(queue).spec_max(),
        final(queue).spec_next_id() == old(queue).spec_next_id(),
        final(queue).spec_statuses() =~= old(queue).spec_statuses().insert(
            job_id,
            if outcome is Ok {
                JobStatus::Completed
            } else {
                JobStatus::Failed
            },
        ),
{
    let status = if outcome.is_ok() {
        JobStatus::Completed
    } else {
        JobStatus::Failed
    };
    queue.update_status(job_id, status);
    send_completion(response_tx, outcome)
}

/// One worker iteration on a dequeued job: normalize the request, run the
/// generation, record the terminal status and deliver the outcome. A job
/// whose normalized parameters fail validation always ends `Failed`; one
/// whose normalized parameters pass and whose image fits the address space
/// is owed `Completed`; every job ends in a terminal status, and no failure
/// escapes to the caller, so the worker loop around this survives any single
/// job's failure.
pub fn process_job(
    pipeline: &InferencePipeline,
    queue: &mut MemoryQueue<GenerateImageRequest, GenerateImageResponse>,
    job: Job<GenerateImageRequest, GenerateImageResponse>,
) -> (delivered: bool)
    requires
        old(queue).wf(),
        old(queue).spec_statuses().contains_key(job.id),
        forall|i: int|
            0 <= i < old(queue).spec_pending().len() ==> (#[trigger] old(queue).spec_pending()[i]).id
                != job.id,
    ensures
        final(queue).wf(),
        final(queue).spec_pending() == old(queue).spec_pending(),
        final(queue).spec_max() == old(queue).spec_max(),
        final(queue).spec_next_id() == old(queue).spec_next_id(),
        final(queue).spec_statuses() =~= old(queue).spec_statuses().insert(
            job.id,
            JobStatus::Completed,
        ) || final(queue).spec_statuses() =~= old(queue).spec_statuses().insert(
            job.id,
            JobStatus::Failed,
        ),
        !params_valid(pipeline.spec_config(), spec_normalized(job.request))
            ==> final(queue).spec_statuses() =~= old(queue).spec_statuses().insert(
            job.id,
            JobStatus::Failed,
        ),
        (params_valid(pipeline.spec_config(), spec_normalized(job.request)) && 3
            * spec_normalized(job.request).width * spec_normalized(job.request).height
            <= usize::MAX) ==> final(queue).spec_statuses()
            =~= old(queue).spec_statuses().insert(job.id, JobStatus::Completed),
{
    let params = normalize_request(&job.request);
    let outcome = match pipeline.generate(params) {
        Ok(result) => Ok(build_success_response(job.id, result)),
        Err(e) => Err(e),
    };
    complete_job(queue, job.id, job.response_tx, outcome)
}

} // verus!
