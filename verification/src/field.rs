use vstd::prelude::*;
use noise::utils::NoiseMapBuilder;
use crate::TerrainError;

verus! {

/// The largest grid side the sampler accepts: the map-building utility of the
/// noise crate refuses rasters of 32767 or more cells on a side.
pub const MAX_RESOLUTION: usize = 32766;

/// The largest domain bound magnitude the samplers accept (2^40). The noise
/// crate floors each sampled coordinate into a 64-bit integer and refuses
/// magnitudes of 2^63 or more; fractal sampling further multiplies each
/// coordinate by its lacunarity once per octave, and bounds within this limit
/// keep every coordinate of every octave far below the refusal point.
pub const MAX_DOMAIN_BOUND: i64 = 0x100_0000_0000;

/// The largest seed fractal noise accepts: it derives one seed per octave as
/// seed, seed + 1, ..., seed + 5, which must stay within a 32-bit integer.
pub const MAX_FRACTAL_SEED: u32 = 0xFFFF_FFFA;

/// Which coherent-noise function fills the grid.
#[derive(Clone, Copy, Debug, PartialEq, Eq, Structural)]
pub enum NoiseKind {
    /// One layer of gradient noise.
    SingleOctave,
    /// A layered, amplitude-decaying sum of gradient noise octaves.
    Fractal,
}

/// A rectangular spatial domain in noise space, in whole units. The sampler
/// steps (x_max - x_min) / width from x_min (and likewise for y), so the
/// sampled points start at the lower bound and approach, but do not reach,
/// the upper bound. The samplers accept bounds within MAX_DOMAIN_BOUND of
/// zero.
#[derive(Clone, Copy, Debug, PartialEq, Eq, Structural)]
pub struct Domain {
    pub x_min: i64,
    pub x_max: i64,
    pub y_min: i64,
    pub y_max: i64,
}

impl Domain {
    /// Whether every bound is small enough for the samplers: the noise crate
    /// aborts on coordinates whose magnitude reaches 2^63 (see
    /// MAX_DOMAIN_BOUND).
    pub open spec fn in_sampler_range(&self) -> bool {
        &&& -MAX_DOMAIN_BOUND <= self.x_min <= MAX_DOMAIN_BOUND
        &&& -MAX_DOMAIN_BOUND <= self.x_max <= MAX_DOMAIN_BOUND
        &&& -MAX_DOMAIN_BOUND <= self.y_min <= MAX_DOMAIN_BOUND
        &&& -MAX_DOMAIN_BOUND <= self.y_max <= MAX_DOMAIN_BOUND
    }
}

/// The mathematical content of a height field: its resolution and the
/// bit patterns of its scalar samples, in row-major order.
#[verifier::ext_equal]
pub ghost struct FieldModel {
    pub width: int,
    pub height: int,
    pub samples: Seq<u64>,
}

/// A 2D grid of scalar height samples. Each sample is the bit pattern of an
/// IEEE-754 double; the grid stores them row-major, so the sample of grid cell
/// (x, y) sits at position y * width + x.
#[derive(Clone, Debug, PartialEq)]
pub struct HeightField {
    pub width: usize,
    pub height: usize,
    pub samples: Vec<u64>,
}

impl View for HeightField {
    type V = FieldModel;

    open spec fn view(&self) -> FieldModel {
        FieldModel {
            width: self.width as int,
            height: self.height as int,
            samples: self.samples@,
        }
    }
}

impl HeightField {
    /// A well-formed field holds exactly one sample per grid cell and stays
    /// within the sampler's raster bound.
    pub open spec fn wf(&self) -> bool {
        &&& self.width <= MAX_RESOLUTION
        &&& self.height <= MAX_RESOLUTION
        &&& self.samples@.len() == self.width * self.height
    }

    /// Builds a field from samples already in row-major order.
    pub fn new(width: usize, height: usize, samples: Vec<u64>) -> (r: HeightField)
        requires
            width <= MAX_RESOLUTION,
            height <= MAX_RESOLUTION,
            samples@.len() == width * height,
        ensures
            r.wf(),
            r@ == (FieldModel { width: width as int, height: height as int, samples: samples@ }),
    {
        HeightField { width, height, samples }
    }

    /// The sample of grid cell (x, y).
    pub fn sample(&self, x: usize, y: usize) -> (r: u64)
        requires
            self.wf(),
            x < self.width,
            y < self.height,
        ensures
            r == self@.samples[y * self@.width + x],
    {
        proof {
            assert(y * self@.width + x < self@.width * self@.height
                && y * self@.width + x < 0x4000_0000) by (nonlinear_arith)
                requires
                    0 <= x < self@.width,
                    0 <= y < self@.height,
                    self@.width <= MAX_RESOLUTION,
                    self@.height <= MAX_RESOLUTION,
            ;
        }
        self.samples[y * self.width + x]
    }
}

/// What the plane sampler returns for a single layer of gradient noise: a
/// row-major width x height grid of sample bit patterns, a function of the
/// seed, the resolution and the domain bounds alone.
pub uninterp spec fn perlin_plane(
    seed: u32,
    width: int,
    height: int,
    x_min: int,
    x_max: int,
    y_min: int,
    y_max: int,
) -> Seq<u64>;

/// What the plane sampler returns for fractal noise with the crate's default
/// octave parameters, a function of the same arguments alone.
pub uninterp spec fn fbm_plane(
    seed: u32,
    width: int,
    height: int,
    x_min: int,
    x_max: int,
    y_min: int,
    y_max: int,
) -> Seq<u64>;

/// Relies on noise::utils::PlaneMapBuilder over a noise::Perlin source:
/// Perlin::new(seed) derives its permutation table from the seed alone, and
/// build() fills a width x height map row-major, stepping
/// (x_max - x_min) / width from x_min (the upper bound itself is not
/// sampled), so the samples are a function of the arguments alone. The
/// builder's map refuses sides of 32767 or more, and the noise floors each
/// sampled coordinate into a 64-bit integer, refusing magnitudes of 2^63 or
/// more — bounds within MAX_DOMAIN_BOUND keep every coordinate safe.
#[verifier::external_body]
fn perlin_plane_samples(seed: u32, width: usize, height: usize, domain: &Domain) -> (r: Vec<u64>)
    requires
        width <= MAX_RESOLUTION,
        height <= MAX_RESOLUTION,
        domain.in_sampler_range(),
    ensures
        r@.len() == width * height,
        r@ == perlin_plane(
            seed,
            width as int,
            height as int,
            domain.x_min as int,
            domain.x_max as int,
            domain.y_min as int,
            domain.y_max as int,
        ),
{
    let source = noise::Perlin::new(seed);
    let map = noise::utils::PlaneMapBuilder::<_, 3>::new(source)
        .set_size(width, height)
        .set_x_bounds(domain.x_min as _, domain.x_max as _)
        .set_y_bounds(domain.y_min as _, domain.y_max as _)
        .build();
    map.iter().map(|v| v.to_bits()).collect()
}

/// Relies on noise::utils::PlaneMapBuilder over a noise::Fbm::<Perlin>
/// source: Fbm::new(seed) builds its six default octave sources from the
/// seeds seed, seed + 1, ..., seed + 5 (whence the MAX_FRACTAL_SEED bound),
/// and build() fills a width x height map row-major, stepping
/// (x_max - x_min) / width from x_min (the upper bound itself is not
/// sampled), so the samples are a function of the arguments alone. The
/// builder's map refuses sides of 32767 or more, and the noise floors each
/// sampled coordinate into a 64-bit integer, refusing magnitudes of 2^63 or
/// more; each octave multiplies the coordinate by the default lacunarity, a
/// factor below 85 over all six octaves, so bounds within MAX_DOMAIN_BOUND
/// keep every coordinate of every octave safe.
#[verifier::external_body]
fn fbm_plane_samples(seed: u32, width: usize, height: usize, domain: &Domain) -> (r: Vec<u64>)
    requires
        width <= MAX_RESOLUTION,
        height <= MAX_RESOLUTION,
        domain.in_sampler_range(),
        seed <= MAX_FRACTAL_SEED,
    ensures
        r@.len() == width * height,
        r@ == fbm_plane(
            seed,
            width as int,
            height as int,
            domain.x_min as int,
            domain.x_max as int,
            domain.y_min as int,
            domain.y_max as int,
        ),
{
    let source = noise::Fbm::<noise::Perlin>::new(seed);
    let map = noise::utils::PlaneMapBuilder::<_, 3>::new(source)
        .set_size(width, height)
        .set_x_bounds(domain.x_min as _, domain.x_max as _)
        .set_y_bounds(domain.y_min as _, domain.y_max as _)
        .build();
    map.iter().map(|v| v.to_bits()).collect()
}

/// The samples a generated field holds, by noise kind.
pub open spec fn generated_samples(
    kind: NoiseKind,
    seed: u32,
    width: int,
    height: int,
    domain: Domain,
) -> Seq<u64> {
    match kind {
        NoiseKind::SingleOctave => perlin_plane(
            seed,
            width,
            height,
            domain.x_min as int,
            domain.x_max as int,
            domain.y_min as int,
            domain.y_max as int,
        ),
        NoiseKind::Fractal => fbm_plane(
            seed,
            width,
            height,
            domain.x_min as int,
            domain.x_max as int,
            domain.y_min as int,
            domain.y_max as int,
        ),
    }
}

/// The field that generation yields for a given configuration.
pub open spec fn field_model(
    kind: NoiseKind,
    seed: u32,
    width: int,
    height: int,
    domain: Domain,
) -> FieldModel {
    FieldModel {
        width: width,
        height: height,
        samples: generated_samples(kind, seed, width, height, domain),
    }
}

/// Produces a height field by sampling the chosen noise function at
/// width x height evenly spaced grid points, stepping across the domain from
/// its lower bounds (the upper bounds themselves are not sampled). Succeeds
/// exactly when both sides are at least 2 (a mesh needs one full cell);
/// otherwise reports InvalidDimensions. The domain must stay within
/// MAX_DOMAIN_BOUND, and a fractal seed within MAX_FRACTAL_SEED, or the
/// sampler aborts.
pub fn generate(
    kind: NoiseKind,
    seed: u32,
    width: usize,
    height: usize,
    domain: &Domain,
) -> (r: Result<HeightField, TerrainError>)
    requires
        width <= MAX_RESOLUTION,
        height <= MAX_RESOLUTION,
        domain.in_sampler_range(),
        kind == NoiseKind::Fractal ==> seed <= MAX_FRACTAL_SEED,
    ensures
        r is Ok <==> (width >= 2 && height >= 2),
        r matches Ok(f) ==> f.wf() && f@ == field_model(kind, seed, width as int, height as int, *domain),
        r matches Err(e) ==> e == TerrainError::InvalidDimensions,
{
    if width < 2 || height < 2 {
        return Err(TerrainError::InvalidDimensions);
    }
    let samples = match kind {
        NoiseKind::SingleOctave => perlin_plane_samples(seed, width, height, domain),
        NoiseKind::Fractal => fbm_plane_samples(seed, width, height, domain),
    };
    Ok(HeightField { width, height, samples })
}

} // verus!
