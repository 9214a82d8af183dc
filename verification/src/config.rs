use vstd::prelude::*;

verus! {

/// Network addresses and limits of the two ingress servers.
#[derive(Debug, Clone)]
pub struct ServerConfig {
    pub grpc_host: String,
    pub grpc_port: u16,
    pub rest_host: String,
    pub rest_port: u16,
    pub max_concurrent_requests: usize,
    pub request_timeout_seconds: u64,
}

/// Where the model lives and on which device it runs.
///
/// Paths are carried as plain strings; only the process edge that opens
/// files interprets them.
#[derive(Debug, Clone)]
pub struct ModelConfig {
    pub model_path: String,
    pub device: String,
    pub precision: String,
    pub cache_dir: String,
    pub warmup_on_start: bool,
}

/// Defaults and upper bounds for generation parameters.
///
/// The guidance scale is kept in tenths (75 stands for 7.5) so that the
/// validation arithmetic stays exact.
#[derive(Debug, Clone, Copy)]
pub struct InferenceConfig {
    pub default_steps: i32,
    pub default_guidance_scale_tenths: i64,
    pub default_width: i32,
    pub default_height: i32,
    pub max_width: i32,
    pub max_height: i32,
    pub max_steps: i32,
    pub safety_checker: bool,
}

/// Capacity and worker count of the dispatch queue.
#[derive(Debug, Clone)]
pub struct QueueConfig {
    pub backend: String,
    pub max_queue_size: usize,
    pub worker_threads: usize,
}

/// The whole service configuration.
#[derive(Debug, Clone)]
pub struct Config {
    pub server: ServerConfig,
    pub model: ModelConfig,
    pub inference: InferenceConfig,
    pub queue: QueueConfig,
}

impl Config {
    /// The built-in configuration used when no configuration file is given.
    pub fn default() -> (c: Self)
        ensures
            c.server.grpc_host@ == "0.0.0.0"@,
            c.server.grpc_port == 50051,
            c.server.rest_host@ == "0.0.0.0"@,
            c.server.rest_port == 8080,
            c.server.max_concurrent_requests == 10,
            c.server.request_timeout_seconds == 300,
            c.model.model_path@ == "./models/stable-diffusion-v1-5"@,
            c.model.device@ == "cuda"@,
            c.model.precision@ == "fp16"@,
            c.model.cache_dir@ == "./cache"@,
            !c.model.warmup_on_start,
            c.inference.default_steps == 50,
            c.inference.default_guidance_scale_tenths == 75,
            c.inference.default_width == 512,
            c.inference.default_height == 512,
            c.inference.max_width == 1024,
            c.inference.max_height == 1024,
            c.inference.max_steps == 150,
            !c.inference.safety_checker,
            c.queue.backend@ == "memory"@,
            c.queue.max_queue_size == 1000,
            c.queue.worker_threads == 2,
    {
        Self {
            server: ServerConfig {
                grpc_host: "0.0.0.0".to_owned(),
                grpc_port: 50051,
                rest_host: "0.0.0.0".to_owned(),
                rest_port: 8080,
                max_concurrent_requests: 10,
                request_timeout_seconds: 300,
            },
            model: ModelConfig {
                model_path: "./models/stable-diffusion-v1-5".to_owned(),
                device: "cuda".to_owned(),
                precision: "fp16".to_owned(),
                cache_dir: "./cache".to_owned(),
                warmup_on_start: false,
            },
            inference: InferenceConfig {
                default_steps: 50,
                default_guidance_scale_tenths: 75,
                default_width: 512,
                default_height: 512,
                max_width: 1024,
                max_height: 1024,
                max_steps: 150,
                safety_checker: false,
            },
            queue: QueueConfig {
                backend: "memory".to_owned(),
                max_queue_size: 1000,
                worker_threads: 2,
            },
        }
    }
}

} // verus!
