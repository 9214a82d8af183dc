use diffusion_server::errors::DiffusionError;
use diffusion_server::queue::JobStatus;
use diffusion_server::server::{
    build_generate_response, default_guidance_tenths, default_size, default_steps,
    health_check_response, health_response, job_status_reply, queue_request_from_rest,
    status_name, GenerateRequest,
};
use diffusion_server::worker::{GenerateImageResponse, GenerationMetadata};

fn rest_request_with_defaults(prompt: &str) -> GenerateRequest {
    GenerateRequest {
        prompt: prompt.to_string(),
        negative_prompt: None,
        num_inference_steps: None,
        guidance_scale_tenths: None,
        width: None,
        height: None,
        seed: None,
    }
}

fn worker_response(job_id: u64, images: Vec<Vec<u8>>) -> GenerateImageResponse {
    GenerateImageResponse {
        job_id,
        images,
        status: "completed".to_string(),
        metadata: Some(GenerationMetadata {
            generation_time_ms: 42,
            model_used: "stable-diffusion-v1-5".to_string(),
            seed: 7,
            actual_steps: 50,
        }),
    }
}

#[test]
fn defaults_match_the_documented_values() {
    assert_eq!(default_steps(), 50);
    assert_eq!(default_guidance_tenths(), 75);
    assert_eq!(default_size(), 512);
}

#[test]
fn queue_request_fills_defaults_for_omitted_fields() {
    let q = queue_request_from_rest(rest_request_with_defaults("a cat"));
    assert_eq!(q.prompt, "a cat");
    assert_eq!(q.negative_prompt, "");
    assert_eq!(q.num_inference_steps, 50);
    assert_eq!(q.guidance_scale_tenths, 75);
    assert_eq!(q.width, 512);
    assert_eq!(q.height, 512);
    assert!(q.seed.is_none());
}

#[test]
fn queue_request_keeps_given_fields() {
    let req = GenerateRequest {
        prompt: "a cat".to_string(),
        negative_prompt: Some("blurry".to_string()),
        num_inference_steps: Some(25),
        guidance_scale_tenths: Some(120),
        width: Some(256),
        height: Some(128),
        seed: Some(9),
    };
    let q = queue_request_from_rest(req);
    assert_eq!(q.negative_prompt, "blurry");
    assert_eq!(q.num_inference_steps, 25);
    assert_eq!(q.guidance_scale_tenths, 120);
    assert_eq!(q.width, 256);
    assert_eq!(q.height, 128);
    assert_eq!(q.seed, Some(9));
}

#[test]
fn success_response_encodes_images_as_base64() {
    let r = build_generate_response(1, Ok(worker_response(1, vec![vec![1, 2, 3]])));
    assert_eq!(r.job_id, "1");
    assert_eq!(r.status, "completed");
    assert_eq!(r.images_base64, Some(vec!["AQID".to_string()]));
    let m = r.metadata.unwrap();
    assert_eq!(m.generation_time_ms, 42);
    assert_eq!(m.model_used, "stable-diffusion-v1-5");
    assert_eq!(m.seed, 7);
    assert_eq!(m.actual_steps, 50);
    assert!(r.error.is_none());
}

#[test]
fn base64_encoding_pads_to_four_char_groups() {
    let r = build_generate_response(0, Ok(worker_response(0, vec![vec![1, 2, 3, 4]])));
    let images = r.images_base64.unwrap();
    assert_eq!(images[0], "AQIDBA==");
    assert_eq!(images[0].len(), 8);
}

#[test]
fn job_ids_render_in_decimal() {
    let r = build_generate_response(0, Ok(worker_response(0, vec![])));
    assert_eq!(r.job_id, "0");
    let r = build_generate_response(1234567890, Ok(worker_response(1234567890, vec![])));
    assert_eq!(r.job_id, "1234567890");
}

#[test]
fn error_response_carries_the_message() {
    let r = build_generate_response(2, Err(DiffusionError::Inference("boom".to_string())));
    assert_eq!(r.job_id, "2");
    assert_eq!(r.status, "error");
    assert!(r.images_base64.is_none());
    assert!(r.metadata.is_none());
    assert_eq!(
        r.error.as_deref(),
        Some("Generation failed: Inference failed: boom")
    );
}

#[test]
fn health_response_reports_healthy_with_queue_data() {
    let r = health_response("0.1.0".to_string(), "cpu".to_string(), 5, 2);
    assert_eq!(r.status, "healthy");
    assert!(r.model_loaded);
    assert_eq!(r.version, "0.1.0");
    assert_eq!(r.device, "cpu");
    assert_eq!(r.queue_length, 5);
    assert_eq!(r.worker_count, 2);
}

#[test]
fn health_check_reports_queue_and_workers() {
    let r = health_check_response(3, 2);
    assert_eq!(r.status, "healthy");
    assert!(r.model_loaded);
    assert_eq!(r.queue_length, 3);
    assert_eq!(r.active_workers, 2);
    assert_eq!(r.system_info, "");
}

#[test]
fn status_names_match_the_variants() {
    assert_eq!(status_name(JobStatus::Queued), "Queued");
    assert_eq!(status_name(JobStatus::Processing), "Processing");
    assert_eq!(status_name(JobStatus::Completed), "Completed");
    assert_eq!(status_name(JobStatus::Failed), "Failed");
    assert_eq!(status_name(JobStatus::Cancelled), "Cancelled");
}

#[test]
fn job_status_reply_carries_id_and_name() {
    let r = job_status_reply(4, JobStatus::Processing);
    assert_eq!(r.job_id, 4);
    assert_eq!(r.status, "Processing");
    assert!(r.error.is_none());
}
