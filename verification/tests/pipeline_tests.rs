use diffusion_server::config::Config;
use diffusion_server::errors::DiffusionError;
use diffusion_server::pipeline::{Device, GenerationParams, InferencePipeline};

const PNG_SIGNATURE: [u8; 8] = [0x89, 0x50, 0x4E, 0x47, 0x0D, 0x0A, 0x1A, 0x0A];

fn pipeline() -> InferencePipeline {
    InferencePipeline::new(Config::default().inference, Device::Cpu).unwrap()
}

fn valid_params(prompt: &str) -> GenerationParams {
    GenerationParams {
        prompt: prompt.to_string(),
        negative_prompt: None,
        num_inference_steps: 50,
        guidance_scale_tenths: 75,
        width: 64,
        height: 64,
        seed: Some(5),
    }
}

#[test]
fn validation_rejects_small_width() {
    let p = pipeline();
    let mut params = valid_params("a cat");
    params.width = 32;
    let r = p.validate_params(&params);
    match r {
        Err(DiffusionError::InvalidParameters(m)) => assert_eq!(m, "Width must be between 64 and 1024"),
        other => panic!("expected InvalidParameters, got {:?}", other),
    }
}

#[test]
fn validation_rejects_zero_steps() {
    let p = pipeline();
    let mut params = valid_params("a cat");
    params.num_inference_steps = 0;
    let r = p.validate_params(&params);
    match r {
        Err(DiffusionError::InvalidParameters(m)) => assert_eq!(m, "Steps must be between 1 and 150"),
        other => panic!("expected InvalidParameters, got {:?}", other),
    }
}

#[test]
fn validation_rejects_large_guidance() {
    let p = pipeline();
    let mut params = valid_params("a cat");
    params.guidance_scale_tenths = 250;
    let r = p.validate_params(&params);
    match r {
        Err(DiffusionError::InvalidParameters(m)) => {
            assert_eq!(m, "Guidance scale must be between 1.0 and 20.0")
        }
        other => panic!("expected InvalidParameters, got {:?}", other),
    }
}

#[test]
fn validation_rejects_empty_prompt() {
    let p = pipeline();
    let params = valid_params("");
    let r = p.validate_params(&params);
    match r {
        Err(DiffusionError::InvalidParameters(m)) => assert_eq!(m, "Prompt cannot be empty"),
        other => panic!("expected InvalidParameters, got {:?}", other),
    }
}

#[test]
fn validation_accepts_boundaries() {
    let p = pipeline();
    let mut params = valid_params("a cat");
    params.width = 64;
    params.height = 1024;
    params.num_inference_steps = 150;
    params.guidance_scale_tenths = 200;
    assert!(p.validate_params(&params).is_ok());

    params.guidance_scale_tenths = 10;
    params.num_inference_steps = 1;
    assert!(p.validate_params(&params).is_ok());

    params.height = 1025;
    match p.validate_params(&params) {
        Err(DiffusionError::InvalidParameters(m)) => {
            assert_eq!(m, "Height must be between 64 and 1024")
        }
        other => panic!("expected InvalidParameters, got {:?}", other),
    }
}

#[test]
fn validation_message_renders_a_negative_maximum() {
    let mut config = Config::default().inference;
    config.max_width = -5;
    let p = InferencePipeline::new(config, Device::Cpu).unwrap();
    let params = valid_params("a cat");
    match p.validate_params(&params) {
        Err(DiffusionError::InvalidParameters(m)) => {
            assert_eq!(m, "Width must be between 64 and -5")
        }
        other => panic!("expected InvalidParameters, got {:?}", other),
    }
}

#[test]
fn simple_hash_matches_the_fold() {
    assert_eq!(diffusion_server::pipeline::simple_hash(""), 0);
    assert_eq!(diffusion_server::pipeline::simple_hash("a"), 97);
    // 97 * 31 + 98 = 3105; 3105 * 31 + 99 = 96354
    assert_eq!(diffusion_server::pipeline::simple_hash("abc"), 96354);
}

#[test]
fn generate_produces_one_png_image() {
    let p = pipeline();
    let result = p.generate(valid_params("a cat")).unwrap();
    assert_eq!(result.images.len(), 1);
    assert_eq!(result.seed, 5);
    assert_eq!(result.steps_taken, 50);
    let image = &result.images[0];
    assert!(image.len() > 8);
    assert_eq!(&image[..8], &PNG_SIGNATURE);
}

#[test]
fn generate_is_a_function_of_its_parameters() {
    let p = pipeline();
    let a = p.generate(valid_params("a cat")).unwrap();
    let b = p.generate(valid_params("a cat")).unwrap();
    assert_eq!(a.images, b.images);
    let c = p.generate(valid_params("a dog")).unwrap();
    assert_eq!(c.images.len(), 1);
}

#[test]
fn generate_rejects_invalid_parameters() {
    let p = pipeline();
    let mut params = valid_params("a cat");
    params.width = 32;
    let r = p.generate(params);
    match r {
        Err(DiffusionError::InvalidParameters(m)) => assert_eq!(m, "Width must be between 64 and 1024"),
        other => panic!("expected InvalidParameters, got {:?}", other),
    }
}

#[test]
fn error_messages_render_each_variant() {
    assert_eq!(
        DiffusionError::ModelLoad("m".to_string()).message(),
        "Model loading failed: m"
    );
    assert_eq!(
        DiffusionError::Inference("i".to_string()).message(),
        "Inference failed: i"
    );
    assert_eq!(
        DiffusionError::Config("c".to_string()).message(),
        "Invalid configuration: c"
    );
    assert_eq!(DiffusionError::QueueFull.message(), "Queue full");
    assert_eq!(
        DiffusionError::JobNotFound("j".to_string()).message(),
        "Job not found: j"
    );
    assert_eq!(
        DiffusionError::InvalidParameters("p".to_string()).message(),
        "Invalid parameters: p"
    );
    assert_eq!(
        DiffusionError::Storage("s".to_string()).message(),
        "Storage error: s"
    );
    assert_eq!(DiffusionError::Timeout.message(), "Timeout");
    assert_eq!(
        DiffusionError::Internal("x".to_string()).message(),
        "Internal error: x"
    );
}

#[test]
fn config_default_matches_the_documented_values() {
    let c = Config::default();
    assert_eq!(c.server.grpc_port, 50051);
    assert_eq!(c.server.rest_port, 8080);
    assert_eq!(c.inference.default_steps, 50);
    assert_eq!(c.inference.default_guidance_scale_tenths, 75);
    assert_eq!(c.inference.default_width, 512);
    assert_eq!(c.inference.default_height, 512);
    assert_eq!(c.inference.max_width, 1024);
    assert_eq!(c.inference.max_height, 1024);
    assert_eq!(c.inference.max_steps, 150);
    assert_eq!(c.queue.max_queue_size, 1000);
    assert_eq!(c.queue.worker_threads, 2);
    assert_eq!(c.model.device, "cuda");
}
