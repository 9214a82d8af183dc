use vstd::prelude::*;

use crate::config::InferenceConfig;
use crate::errors::DiffusionError;
use vstd::string::StringSliceAdditionalSpecFns;

verus! {

/// The compute device a pipeline is bound to, kept as plain data; only the
/// process edge that talks to an accelerator interprets it.
#[derive(Debug, Clone, Copy, PartialEq, Eq, Structural)]
pub enum Device {
    Cpu,
    Cuda(usize),
}

/// One generation request as the pipeline consumes it. The guidance scale is
/// kept in tenths (75 stands for 7.5) so that validation stays exact.
#[derive(Debug, Clone)]
pub struct GenerationParams {
    pub prompt: String,
    pub negative_prompt: Option<String>,
    pub num_inference_steps: i32,
    pub guidance_scale_tenths: i64,
    pub width: i32,
    pub height: i32,
    pub seed: Option<i64>,
}

/// What a finished generation hands back: encoded images and the metadata
/// the front ends report. The elapsed time is kept in milliseconds.
#[derive(Debug)]
pub struct GenerationResult {
    pub images: Vec<Vec<u8>>,
    pub generation_time_ms: u64,
    pub seed: i64,
    pub steps_taken: i32,
}

/// The validation contract enforced before any generation work: prompt
/// non-empty, dimensions between 64 and the configured maxima, steps between
/// 1 and the configured maximum, guidance scale between 1.0 and 20.0.
pub open spec fn params_valid(config: InferenceConfig, p: GenerationParams) -> bool {
    &&& p.prompt@.len() > 0
    &&& 64 <= p.width && p.width <= config.max_width
    &&& 64 <= p.height && p.height <= config.max_height
    &&& 1 <= p.num_inference_steps && p.num_inference_steps <= config.max_steps
    &&& 10 <= p.guidance_scale_tenths && p.guidance_scale_tenths <= 200
}

/// The message of the `InvalidParameters` error, chosen by the first check
/// that fails, in the order the checks run; the dimension and step messages
/// carry the configured maximum in decimal.
pub open spec fn spec_validation_message(config: InferenceConfig, p: GenerationParams) -> Seq<
    char,
> {
    if p.prompt@.len() == 0 {
        "Prompt cannot be empty"@
    } else if p.width < 64 || p.width > config.max_width {
        "Width must be between 64 and "@ + crate::text::spec_decimal(config.max_width as int)
    } else if p.height < 64 || p.height > config.max_height {
        "Height must be between 64 and "@ + crate::text::spec_decimal(config.max_height as int)
    } else if p.num_inference_steps < 1 || p.num_inference_steps > config.max_steps {
        "Steps must be between 1 and "@ + crate::text::spec_decimal(config.max_steps as int)
    } else {
        "Guidance scale must be between 1.0 and 20.0"@
    }
}

/// The byte-folding hash the placeholder image seeds its colour from:
/// a left fold of `acc * 31 + byte` in wrapping 64-bit arithmetic.
pub open spec fn spec_simple_hash(bytes: Seq<u8>) -> u64
    decreases bytes.len(),
{
    if bytes.len() == 0 {
        0u64
    } else {
        vstd::wrapping::u64_specs::wrapping_add(
            vstd::wrapping::u64_specs::wrapping_mul(spec_simple_hash(bytes.drop_last()), 31u64),
            bytes.last() as u64,
        )
    }
}

/// The byte at offset `i` of the row-major RGB gradient: red grows with the
/// column, green with the row, and blue carries the low byte of the hash.
pub open spec fn spec_pixel_byte(width: int, height: int, hash: u64, i: int) -> u8 {
    let p = i / 3;
    let x = p % width;
    let y = p / width;
    if i % 3 == 0 {
        (x * 255 / width) as u8
    } else if i % 3 == 1 {
        (y * 255 / height) as u8
    } else {
        (hash % 256) as u8
    }
}

/// The whole RGB pixel buffer of the placeholder gradient.
pub open spec fn spec_gradient_pixels(width: int, height: int, hash: u64) -> Seq<u8> {
    Seq::new((3 * width * height) as nat, |i: int| spec_pixel_byte(width, height, hash, i))
}

/// The two's-complement bit pattern of a seed, as the hash folds it in.
pub open spec fn spec_seed_bits(seed: i64) -> u64 {
    ((seed as int) % 0x1_0000_0000_0000_0000) as u64
}

/// Reinterprets a seed's bits as an unsigned word.
fn seed_bits(seed: i64) -> (r: u64)
    ensures
        r == spec_seed_bits(seed),
{
    proof {
        assert(((seed as int) % 0x1_0000_0000_0000_0000) as u64 == seed as u64) by (bit_vector);
    }
    #[verifier::truncate] (seed as u64)
}

/// The PNG encoding of an RGB pixel buffer with the given dimensions, as the
/// encoder behind `encode_png_rgb` produces it.
pub uninterp spec fn png_of(width: int, height: int, pixels: Seq<u8>) -> Seq<u8>;

/// Relies on image::ImageBuffer::from_raw and image::DynamicImage::write_to:
/// encodes an RGB pixel buffer as PNG bytes. The encoding is a function of
/// the dimensions and the pixel bytes alone, and it succeeds on every
/// exact-length buffer with nonzero dimensions: the encoder refuses only a
/// zero dimension or an invalid colour/depth pairing (eight-bit RGB is
/// valid), and writing into an in-memory buffer cannot fail.
#[verifier::external_body]
fn encode_png_rgb(width: u32, height: u32, pixels: Vec<u8>) -> (r: Result<Vec<u8>, DiffusionError>)
    requires
        pixels@.len() == 3 * width * height,
    ensures
        r matches Ok(b) ==> b@ == png_of(width as int, height as int, pixels@),
        r is Err ==> r matches Err(DiffusionError::Internal(_)),
        1 <= width && 1 <= height ==> r is Ok,
{
    let img: image::ImageBuffer<image::Rgb<u8>, Vec<u8>> =
        match image::ImageBuffer::from_raw(width, height, pixels) {
            Some(img) => img,
            None => return Err(DiffusionError::Internal("image buffer size mismatch".to_owned())),
        };
    let mut buffer = Vec::new();
    match image::DynamicImage::ImageRgb8(img)
        .write_to(&mut std::io::Cursor::new(&mut buffer), image::ImageOutputFormat::Png)
    {
        Ok(()) => Ok(buffer),
        Err(e) => Err(DiffusionError::Internal(format!("PNG encoding failed: {}", e))),
    }
}

/// Relies on std::time::SystemTime::now and duration_since: the wall clock's
/// seconds since the epoch, or zero if the clock stands before the epoch.
/// Nothing can be stated of a clock reading.
#[verifier::external_body]
fn unix_time_seconds() -> (r: i64) {
    match std::time::SystemTime::now().duration_since(std::time::UNIX_EPOCH) {
        Ok(d) => d.as_secs() as i64,
        Err(_) => 0,
    }
}

/// Relies on std::time::SystemTime::now and duration_since: the wall clock's
/// milliseconds since the epoch, or zero if the clock stands before the
/// epoch. Nothing can be stated of a clock reading.
#[verifier::external_body]
fn unix_time_millis() -> (r: u64) {
    match std::time::SystemTime::now().duration_since(std::time::UNIX_EPOCH) {
        Ok(d) => d.as_millis() as u64,
        Err(_) => 0,
    }
}

/// The wrapping fold of the prompt's bytes that seeds the gradient colour.
pub fn simple_hash(s: &str) -> (r: u64)
    ensures
        r == spec_simple_hash(s.spec_bytes()),
{
    let bytes = s.as_bytes();
    let mut acc: u64 = 0;
    let mut i: usize = 0;
    while i < bytes.len()
        invariant
            0 <= i <= bytes@.len(),
            bytes@ == s.spec_bytes(),
            acc == spec_simple_hash(bytes@.subrange(0, i as int)),
        decreases bytes@.len() - i,
    {
        proof {
            assert(bytes@.subrange(0, i + 1 as int).drop_last() =~= bytes@.subrange(0, i as int));
        }
        acc = acc.wrapping_mul(31).wrapping_add(bytes[i] as u64);
        i = i + 1;
    }
    proof {
        assert(bytes@.subrange(0, bytes@.len() as int) =~= bytes@);
    }
    acc
}

/// Builds the row-major RGB gradient pixel buffer.
fn gradient_pixels(width: u32, height: u32, hash: u64) -> (r: Vec<u8>)
    requires
        1 <= width,
        1 <= height,
        3 * width * height <= usize::MAX,
    ensures
        r@ == spec_gradient_pixels(width as int, height as int, hash),
{
    let mut pixels: Vec<u8> = Vec::new();
    let mut y: u32 = 0;
    while y < height
        invariant
            y <= height,
            1 <= width,
            1 <= height,
            3 * width * height <= usize::MAX,
            pixels@.len() == 3 * ((y as int) * (width as int)),
            forall|k: int|
                0 <= k < pixels@.len() ==> pixels@[k] == spec_pixel_byte(
                    width as int,
                    height as int,
                    hash,
                    k,
                ),
        decreases height - y,
    {
        let mut x: u32 = 0;
        while x < width
            invariant
                x <= width,
                y < height,
                1 <= width,
                1 <= height,
                3 * width * height <= usize::MAX,
                pixels@.len() == 3 * ((y as int) * (width as int) + (x as int)),
                forall|k: int|
                    0 <= k < pixels@.len() ==> pixels@[k] == spec_pixel_byte(
                        width as int,
                        height as int,
                        hash,
                        k,
                    ),
            decreases width - x,
        {
            proof {
                assert(3 * ((y as int) * (width as int) + (x as int)) + 3 <= 3 * ((width as int) * (
                height as int))) by (nonlinear_arith)
                    requires
                        0 <= x < width as int,
                        0 <= y < height as int,
                ;
                assert((x as int) * 255 / (width as int) <= 255 && (y as int) * 255 / (height
                    as int) <= 255) by (nonlinear_arith)
                    requires
                        0 <= x < width as int,
                        0 <= y < height as int,
                ;
            }
            let r_byte = (((x as u64) * 255) / (width as u64)) as u8;
            let g_byte = (((y as u64) * 255) / (height as u64)) as u8;
            let b_byte = (hash % 256) as u8;
            proof {
                let p = (y as int) * (width as int) + (x as int);
                assert((3 * p) / 3 == p && (3 * p) % 3 == 0 && (3 * p + 1) / 3 == p && (3 * p + 1)
                    % 3 == 1 && (3 * p + 2) / 3 == p && (3 * p + 2) % 3 == 2) by (nonlinear_arith);
                assert(p % (width as int) == x as int && p / (width as int) == y as int)
                    by (nonlinear_arith)
                    requires
                        p == (y as int) * (width as int) + (x as int),
                        0 <= x < width as int,
                        0 <= y,
                        1 <= width as int,
                ;
            }
            pixels.push(r_byte);
            pixels.push(g_byte);
            pixels.push(b_byte);
            x = x + 1;
        }
        proof {
            assert(3 * ((y as int) * (width as int) + (width as int)) == 3 * (((y as int) + 1) * (
            width as int))) by (nonlinear_arith);
        }
        y = y + 1;
    }
    proof {
        assert(3 * ((height as int) * (width as int)) == 3 * (width as int) * (height as int))
            by (nonlinear_arith);
        assert(pixels@ =~= spec_gradient_pixels(width as int, height as int, hash));
    }
    pixels
}

/// The generation engine as the dispatch layer sees it: it validates
/// parameters, then produces one encoded image per request.
#[derive(Clone, Copy)]
pub struct InferencePipeline {
    config: InferenceConfig,
    device: Device,
}

impl InferencePipeline {
    /// The configuration the pipeline validates against.
    pub closed spec fn spec_config(&self) -> InferenceConfig {
        self.config
    }

    /// The device the pipeline was bound to.
    pub closed spec fn spec_device(&self) -> Device {
        self.device
    }

    pub fn new(config: InferenceConfig, device: Device) -> (r: Result<Self, DiffusionError>)
        ensures
            r matches Ok(p) && p.spec_config() == config && p.spec_device() == device,
    {
        Ok(Self { config, device })
    }

    /// Checks a request against the validation contract; returns
    /// `InvalidParameters` with the message of the first failing check.
    pub fn validate_params(&self, params: &GenerationParams) -> (r: Result<(), DiffusionError>)
        ensures
            r is Ok <==> params_valid(self.spec_config(), *params),
            r is Err ==> ({
                &&& r matches Err(DiffusionError::InvalidParameters(m))
                &&& m@ == spec_validation_message(self.spec_config(), *params)
            }),
    {
        if params.prompt.as_str().is_empty() {
            return Err(DiffusionError::InvalidParameters("Prompt cannot be empty".to_owned()));
        }
        if params.width < 64 || params.width > self.config.max_width {
            let message = "Width must be between 64 and ".to_owned().concat(
                crate::text::decimal_i32(self.config.max_width).as_str(),
            );
            return Err(DiffusionError::InvalidParameters(message));
        }
        if params.height < 64 || params.height > self.config.max_height {
            let message = "Height must be between 64 and ".to_owned().concat(
                crate::text::decimal_i32(self.config.max_height).as_str(),
            );
            return Err(DiffusionError::InvalidParameters(message));
        }
        if params.num_inference_steps < 1 || params.num_inference_steps > self.config.max_steps {
            let message = "Steps must be between 1 and ".to_owned().concat(
                crate::text::decimal_i32(self.config.max_steps).as_str(),
            );
            return Err(DiffusionError::InvalidParameters(message));
        }
        if params.guidance_scale_tenths < 10 || params.guidance_scale_tenths > 200 {
            return Err(
                DiffusionError::InvalidParameters(
                    "Guidance scale must be between 1.0 and 20.0".to_owned(),
                ),
            );
        }
        Ok(())
    }

    /// Runs one generation: validates, resolves the seed (the wall clock
    /// stands in when none is given), builds the gradient image and encodes
    /// it as PNG. Invalid parameters are rejected before any work; a valid
    /// request whose image fits the address space is owed a result, and
    /// fails only where the image would outgrow that space.
    pub fn generate(&self, params: GenerationParams) -> (r: Result<GenerationResult, DiffusionError>)
        ensures
            !params_valid(self.spec_config(), params) ==> ({
                &&& r matches Err(DiffusionError::InvalidParameters(m))
                &&& m@ == spec_validation_message(self.spec_config(), params)
            }),
            (params_valid(self.spec_config(), params) && 3 * params.width * params.height
                <= usize::MAX) ==> r is Ok,
            params_valid(self.spec_config(), params) ==> match r {
                Ok(res) => ({
                    &&& res.images@.len() == 1
                    &&& res.images@[0]@ == png_of(
                        params.width as int,
                        params.height as int,
                        spec_gradient_pixels(
                            params.width as int,
                            params.height as int,
                            spec_simple_hash(vstd::utf8::encode_utf8(params.prompt@))
                                ^ spec_seed_bits(res.seed),
                        ),
                    )
                    &&& (params.seed matches Some(s) ==> res.seed == s)
                    &&& res.steps_taken == params.num_inference_steps
                }),
                Err(e) => e is Internal,
            },
    {
        let start_ms = unix_time_millis();
        if let Err(e) = self.validate_params(&params) {
            return Err(e);
        }
        let seed = match params.seed {
            Some(s) => s,
            None => unix_time_seconds(),
        };
        let width = params.width as u32;
        let height = params.height as u32;
        proof {
            assert(3 * (width as int) * (height as int) < 0x1_0000_0000_0000_0000 && 3 * ((width
                as int) * (height as int)) < 0x1_0000_0000_0000_0000) by (nonlinear_arith)
                requires
                    0 <= width < 0x8000_0000,
                    0 <= height < 0x8000_0000,
            ;
        }
        let total: u64 = 3u64 * (width as u64) * (height as u64);
        if total > usize::MAX as u64 {
            return Err(DiffusionError::Internal("image too large for this machine".to_owned()));
        }
        let hash = simple_hash(params.prompt.as_str()) ^ seed_bits(seed);
        let pixels = gradient_pixels(width, height, hash);
        let image = match encode_png_rgb(width, height, pixels) {
            Ok(b) => b,
            Err(e) => return Err(e),
        };
        let end_ms = unix_time_millis();
        let elapsed_ms = if end_ms >= start_ms {
            end_ms - start_ms
        } else {
            0u64
        };
        let mut images: Vec<Vec<u8>> = Vec::new();
        images.push(image);
        Ok(
            GenerationResult {
                images,
                generation_time_ms: elapsed_ms,
                seed,
                steps_taken: params.num_inference_steps,
            },
        )
    }
}

} // verus!
