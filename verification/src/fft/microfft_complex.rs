//! Complex FFT through `microfft::complex`. The backend works without heap
//! allocation inside the kernels and is limited to a maximum sample length
//! of 4096.
//!
//! Floating-point values travel through this module as IEEE-754
//! single-precision bit patterns (`u32`), so the verified code tracks every
//! value exactly while the numeric work itself stays inside the backend.

use vstd::prelude::*;

use crate::fft::{FftError, is_supported_len};

verus! {

/// One complex value of the transform's result, as a pair of IEEE-754
/// single-precision bit patterns: `(bits of the real part, bits of the
/// imaginary part)`.
pub type FftResultType = (u32, u32);

/// What `microfft::complex::cfft_2` leaves in its 2-point buffer, as bit
/// patterns; the result depends on the input values alone.
pub uninterp spec fn cfft_2_bits(input: Seq<FftResultType>) -> Seq<FftResultType>;

/// What `microfft::complex::cfft_4` leaves in its 4-point buffer, as bit
/// patterns; the result depends on the input values alone.
pub uninterp spec fn cfft_4_bits(input: Seq<FftResultType>) -> Seq<FftResultType>;

/// What `microfft::complex::cfft_8` leaves in its 8-point buffer, as bit
/// patterns; the result depends on the input values alone.
pub uninterp spec fn cfft_8_bits(input: Seq<FftResultType>) -> Seq<FftResultType>;

/// What `microfft::complex::cfft_16` leaves in its 16-point buffer, as bit
/// patterns; the result depends on the input values alone.
pub uninterp spec fn cfft_16_bits(input: Seq<FftResultType>) -> Seq<FftResultType>;

/// What `microfft::complex::cfft_32` leaves in its 32-point buffer, as bit
/// patterns; the result depends on the input values alone.
pub uninterp spec fn cfft_32_bits(input: Seq<FftResultType>) -> Seq<FftResultType>;

/// What `microfft::complex::cfft_64` leaves in its 64-point buffer, as bit
/// patterns; the result depends on the input values alone.
pub uninterp spec fn cfft_64_bits(input: Seq<FftResultType>) -> Seq<FftResultType>;

/// What `microfft::complex::cfft_128` leaves in its 128-point buffer, as bit
/// patterns; the result depends on the input values alone.
pub uninterp spec fn cfft_128_bits(input: Seq<FftResultType>) -> Seq<FftResultType>;

/// What `microfft::complex::cfft_256` leaves in its 256-point buffer, as bit
/// patterns; the result depends on the input values alone.
pub uninterp spec fn cfft_256_bits(input: Seq<FftResultType>) -> Seq<FftResultType>;

/// What `microfft::complex::cfft_512` leaves in its 512-point buffer, as bit
/// patterns; the result depends on the input values alone.
pub uninterp spec fn cfft_512_bits(input: Seq<FftResultType>) -> Seq<FftResultType>;

/// What `microfft::complex::cfft_1024` leaves in its 1024-point buffer, as bit
/// patterns; the result depends on the input values alone.
pub uninterp spec fn cfft_1024_bits(input: Seq<FftResultType>) -> Seq<FftResultType>;

/// What `microfft::complex::cfft_2048` leaves in its 2048-point buffer, as bit
/// patterns; the result depends on the input values alone.
pub uninterp spec fn cfft_2048_bits(input: Seq<FftResultType>) -> Seq<FftResultType>;

/// What `microfft::complex::cfft_4096` leaves in its 4096-point buffer, as bit
/// patterns; the result depends on the input values alone.
pub uninterp spec fn cfft_4096_bits(input: Seq<FftResultType>) -> Seq<FftResultType>;

/// What `libm::hypotf` returns for the two values with these bit patterns;
/// the result depends on the two values alone.
pub uninterp spec fn magnitude_bits(re_bits: u32, im_bits: u32) -> u32;

/// Each real sample paired with a zero imaginary part; `0` is the bit
/// pattern of `0.0`.
pub open spec fn to_complex_seq(samples: Seq<u32>) -> Seq<FftResultType> {
    samples.map(|i: int, x: u32| (x, 0u32))
}

/// The full discrete Fourier transform of `samples`, as the backend kernel
/// for their exact length leaves it: a function of the sample bits alone.
/// For a length no kernel takes, the untransformed complex buffer; the
/// dispatcher never returns that case.
pub open spec fn transform_bits(samples: Seq<u32>) -> Seq<FftResultType> {
    let buffer = to_complex_seq(samples);
    if samples.len() == 2 {
        cfft_2_bits(buffer)
    } else if samples.len() == 4 {
        cfft_4_bits(buffer)
    } else if samples.len() == 8 {
        cfft_8_bits(buffer)
    } else if samples.len() == 16 {
        cfft_16_bits(buffer)
    } else if samples.len() == 32 {
        cfft_32_bits(buffer)
    } else if samples.len() == 64 {
        cfft_64_bits(buffer)
    } else if samples.len() == 128 {
        cfft_128_bits(buffer)
    } else if samples.len() == 256 {
        cfft_256_bits(buffer)
    } else if samples.len() == 512 {
        cfft_512_bits(buffer)
    } else if samples.len() == 1024 {
        cfft_1024_bits(buffer)
    } else if samples.len() == 2048 {
        cfft_2048_bits(buffer)
    } else if samples.len() == 4096 {
        cfft_4096_bits(buffer)
    } else {
        buffer
    }
}

/// Relies on `microfft::complex::cfft_2`: the in-place 2-point complex FFT
/// on a buffer of exactly that length.
#[verifier::external_body]
fn cfft_2(buffer: &Vec<FftResultType>) -> (r: Vec<FftResultType>)
    requires
        buffer@.len() == 2,
    ensures
        r@ == cfft_2_bits(buffer@),
        r@.len() == 2,
{
    let v: Vec<microfft::Complex32> = buffer
        .iter()
        .map(|p| microfft::Complex32 { re: bytemuck::cast(p.0), im: bytemuck::cast(p.1) })
        .collect();
    let mut data: [microfft::Complex32; 2] = v.try_into().unwrap();
    let out = microfft::complex::cfft_2(&mut data);
    out.iter().map(|c| (bytemuck::cast(c.re), bytemuck::cast(c.im))).collect()
}

/// Relies on `microfft::complex::cfft_4`: the in-place 4-point complex FFT
/// on a buffer of exactly that length.
#[verifier::external_body]
fn cfft_4(buffer: &Vec<FftResultType>) -> (r: Vec<FftResultType>)
    requires
        buffer@.len() == 4,
    ensures
        r@ == cfft_4_bits(buffer@),
        r@.len() == 4,
{
    let v: Vec<microfft::Complex32> = buffer
        .iter()
        .map(|p| microfft::Complex32 { re: bytemuck::cast(p.0), im: bytemuck::cast(p.1) })
        .collect();
    let mut data: [microfft::Complex32; 4] = v.try_into().unwrap();
    let out = microfft::complex::cfft_4(&mut data);
    out.iter().map(|c| (bytemuck::cast(c.re), bytemuck::cast(c.im))).collect()
}

/// Relies on `microfft::complex::cfft_8`: the in-place 8-point complex FFT
/// on a buffer of exactly that length.
#[verifier::external_body]
fn cfft_8(buffer: &Vec<FftResultType>) -> (r: Vec<FftResultType>)
    requires
        buffer@.len() == 8,
    ensures
        r@ == cfft_8_bits(buffer@),
        r@.len() == 8,
{
    let v: Vec<microfft::Complex32> = buffer
        .iter()
        .map(|p| microfft::Complex32 { re: bytemuck::cast(p.0), im: bytemuck::cast(p.1) })
        .collect();
    let mut data: [microfft::Complex32; 8] = v.try_into().unwrap();
    let out = microfft::complex::cfft_8(&mut data);
    out.iter().map(|c| (bytemuck::cast(c.re), bytemuck::cast(c.im))).collect()
}

/// Relies on `microfft::complex::cfft_16`: the in-place 16-point complex FFT
/// on a buffer of exactly that length.
#[verifier::external_body]
fn cfft_16(buffer: &Vec<FftResultType>) -> (r: Vec<FftResultType>)
    requires
        buffer@.len() == 16,
    ensures
        r@ == cfft_16_bits(buffer@),
        r@.len() == 16,
{
    let v: Vec<microfft::Complex32> = buffer
        .iter()
        .map(|p| microfft::Complex32 { re: bytemuck::cast(p.0), im: bytemuck::cast(p.1) })
        .collect();
    let mut data: [microfft::Complex32; 16] = v.try_into().unwrap();
    let out = microfft::complex::cfft_16(&mut data);
    out.iter().map(|c| (bytemuck::cast(c.re), bytemuck::cast(c.im))).collect()
}

/// Relies on `microfft::complex::cfft_32`: the in-place 32-point complex FFT
/// on a buffer of exactly that length.
#[verifier::external_body]
fn cfft_32(buffer: &Vec<FftResultType>) -> (r: Vec<FftResultType>)
    requires
        buffer@.len() == 32,
    ensures
        r@ == cfft_32_bits(buffer@),
        r@.len() == 32,
{
    let v: Vec<microfft::Complex32> = buffer
        .iter()
        .map(|p| microfft::Complex32 { re: bytemuck::cast(p.0), im: bytemuck::cast(p.1) })
        .collect();
    let mut data: [microfft::Complex32; 32] = v.try_into().unwrap();
    let out = microfft::complex::cfft_32(&mut data);
    out.iter().map(|c| (bytemuck::cast(c.re), bytemuck::cast(c.im))).collect()
}

/// Relies on `microfft::complex::cfft_64`: the in-place 64-point complex FFT
/// on a buffer of exactly that length.
#[verifier::external_body]
fn cfft_64(buffer: &Vec<FftResultType>) -> (r: Vec<FftResultType>)
    requires
        buffer@.len() == 64,
    ensures
        r@ == cfft_64_bits(buffer@),
        r@.len() == 64,
{
    let v: Vec<microfft::Complex32> = buffer
        .iter()
        .map(|p| microfft::Complex32 { re: bytemuck::cast(p.0), im: bytemuck::cast(p.1) })
        .collect();
    let mut data: [microfft::Complex32; 64] = v.try_into().unwrap();
    let out = microfft::complex::cfft_64(&mut data);
    out.iter().map(|c| (bytemuck::cast(c.re), bytemuck::cast(c.im))).collect()
}

/// Relies on `microfft::complex::cfft_128`: the in-place 128-point complex FFT
/// on a buffer of exactly that length.
#[verifier::external_body]
fn cfft_128(buffer: &Vec<FftResultType>) -> (r: Vec<FftResultType>)
    requires
        buffer@.len() == 128,
    ensures
        r@ == cfft_128_bits(buffer@),
        r@.len() == 128,
{
    let v: Vec<microfft::Complex32> = buffer
        .iter()
        .map(|p| microfft::Complex32 { re: bytemuck::cast(p.0), im: bytemuck::cast(p.1) })
        .collect();
    let mut data: [microfft::Complex32; 128] = v.try_into().unwrap();
    let out = microfft::complex::cfft_128(&mut data);
    out.iter().map(|c| (bytemuck::cast(c.re), bytemuck::cast(c.im))).collect()
}

/// Relies on `microfft::complex::cfft_256`: the in-place 256-point complex FFT
/// on a buffer of exactly that length.
#[verifier::external_body]
fn cfft_256(buffer: &Vec<FftResultType>) -> (r: Vec<FftResultType>)
    requires
        buffer@.len() == 256,
    ensures
        r@ == cfft_256_bits(buffer@),
        r@.len() == 256,
{
    let v: Vec<microfft::Complex32> = buffer
        .iter()
        .map(|p| microfft::Complex32 { re: bytemuck::cast(p.0), im: bytemuck::cast(p.1) })
        .collect();
    let mut data: [microfft::Complex32; 256] = v.try_into().unwrap();
    let out = microfft::complex::cfft_256(&mut data);
    out.iter().map(|c| (bytemuck::cast(c.re), bytemuck::cast(c.im))).collect()
}

/// Relies on `microfft::complex::cfft_512`: the in-place 512-point complex FFT
/// on a buffer of exactly that length.
#[verifier::external_body]
fn cfft_512(buffer: &Vec<FftResultType>) -> (r: Vec<FftResultType>)
    requires
        buffer@.len() == 512,
    ensures
        r@ == cfft_512_bits(buffer@),
        r@.len() == 512,
{
    let v: Vec<microfft::Complex32> = buffer
        .iter()
        .map(|p| microfft::Complex32 { re: bytemuck::cast(p.0), im: bytemuck::cast(p.1) })
        .collect();
    let mut data: [microfft::Complex32; 512] = v.try_into().unwrap();
    let out = microfft::complex::cfft_512(&mut data);
    out.iter().map(|c| (bytemuck::cast(c.re), bytemuck::cast(c.im))).collect()
}

/// Relies on `microfft::complex::cfft_1024`: the in-place 1024-point complex FFT
/// on a buffer of exactly that length.
#[verifier::external_body]
fn cfft_1024(buffer: &Vec<FftResultType>) -> (r: Vec<FftResultType>)
    requires
        buffer@.len() == 1024,
    ensures
        r@ == cfft_1024_bits(buffer@),
        r@.len() == 1024,
{
    let v: Vec<microfft::Complex32> = buffer
        .iter()
        .map(|p| microfft::Complex32 { re: bytemuck::cast(p.0), im: bytemuck::cast(p.1) })
        .collect();
    let mut data: [microfft::Complex32; 1024] = v.try_into().unwrap();
    let out = microfft::complex::cfft_1024(&mut data);
    out.iter().map(|c| (bytemuck::cast(c.re), bytemuck::cast(c.im))).collect()
}

/// Relies on `microfft::complex::cfft_2048`: the in-place 2048-point complex FFT
/// on a buffer of exactly that length.
#[verifier::external_body]
fn cfft_2048(buffer: &Vec<FftResultType>) -> (r: Vec<FftResultType>)
    requires
        buffer@.len() == 2048,
    ensures
        r@ == cfft_2048_bits(buffer@),
        r@.len() == 2048,
{
    let v: Vec<microfft::Complex32> = buffer
        .iter()
        .map(|p| microfft::Complex32 { re: bytemuck::cast(p.0), im: bytemuck::cast(p.1) })
        .collect();
    let mut data: [microfft::Complex32; 2048] = v.try_into().unwrap();
    let out = microfft::complex::cfft_2048(&mut data);
    out.iter().map(|c| (bytemuck::cast(c.re), bytemuck::cast(c.im))).collect()
}

/// Relies on `microfft::complex::cfft_4096`: the in-place 4096-point complex FFT
/// on a buffer of exactly that length.
#[verifier::external_body]
fn cfft_4096(buffer: &Vec<FftResultType>) -> (r: Vec<FftResultType>)
    requires
        buffer@.len() == 4096,
    ensures
        r@ == cfft_4096_bits(buffer@),
        r@.len() == 4096,
{
    let v: Vec<microfft::Complex32> = buffer
        .iter()
        .map(|p| microfft::Complex32 { re: bytemuck::cast(p.0), im: bytemuck::cast(p.1) })
        .collect();
    let mut data: [microfft::Complex32; 4096] = v.try_into().unwrap();
    let out = microfft::complex::cfft_4096(&mut data);
    out.iter().map(|c| (bytemuck::cast(c.re), bytemuck::cast(c.im))).collect()
}

/// Marker type for the concrete FFT strategy backed by `microfft::complex`.
pub struct FftImpl;

impl FftImpl {
    /// Converts all samples to a complex pair (imaginary part set to the
    /// bits of zero) as preparation for the FFT.
    pub fn samples_to_complex(samples: &Vec<u32>) -> (buffer: Vec<FftResultType>)
        ensures
            buffer@ == to_complex_seq(samples@),
    {
        let mut buffer: Vec<FftResultType> = Vec::new();
        let mut i: usize = 0;
        while i < samples.len()
            invariant
                i <= samples@.len(),
                buffer@.len() == i,
                forall|j: int| 0 <= j < i ==> buffer@[j] == (samples@[j], 0u32),
            decreases samples@.len() - i,
        {
            buffer.push((samples[i], 0u32));
            i = i + 1;
        }
        proof {
            assert(buffer@ =~= to_complex_seq(samples@));
        }
        buffer
    }

    /// Computes the discrete Fourier transform of the real samples given as
    /// bit patterns, through the backend kernel matching their exact
    /// length. Succeeds exactly on the supported lengths; any other buffer
    /// is refused without being touched.
    pub fn fft_apply(samples: &Vec<u32>) -> (r: Result<Vec<FftResultType>, FftError>)
        ensures
            r is Ok <==> is_supported_len(samples@.len()),
            r is Ok ==> r->Ok_0@ == transform_bits(samples@),
            r is Ok ==> r->Ok_0@.len() == samples@.len(),
            r is Err ==> r->Err_0 == FftError::UnsupportedLength,
    {
        let buffer = Self::samples_to_complex(samples);
        if buffer.len() == 2 {
            Ok(cfft_2(&buffer))
        } else if buffer.len() == 4 {
            Ok(cfft_4(&buffer))
        } else if buffer.len() == 8 {
            Ok(cfft_8(&buffer))
        } else if buffer.len() == 16 {
            Ok(cfft_16(&buffer))
        } else if buffer.len() == 32 {
            Ok(cfft_32(&buffer))
        } else if buffer.len() == 64 {
            Ok(cfft_64(&buffer))
        } else if buffer.len() == 128 {
            Ok(cfft_128(&buffer))
        } else if buffer.len() == 256 {
            Ok(cfft_256(&buffer))
        } else if buffer.len() == 512 {
            Ok(cfft_512(&buffer))
        } else if buffer.len() == 1024 {
            Ok(cfft_1024(&buffer))
        } else if buffer.len() == 2048 {
            Ok(cfft_2048(&buffer))
        } else if buffer.len() == 4096 {
            Ok(cfft_4096(&buffer))
        } else {
            Err(FftError::UnsupportedLength)
        }
    }

    /// Relies on `libm::hypotf`: the magnitude `sqrt(re * re + im * im)`
    /// of the complex value whose parts have the given bit patterns,
    /// returned as a bit pattern itself; the result depends on the two
    /// values alone and is never a NaN for finite parts.
    #[verifier::external_body]
    pub fn fft_map_result_to_f32(val: &FftResultType) -> (r: u32)
        ensures
            r == magnitude_bits(val.0, val.1),
    {
        bytemuck::cast(libm::hypotf(bytemuck::cast(val.0), bytemuck::cast(val.1)))
    }

    /// The count of leading transform bins that carry non-redundant
    /// information for real-valued input: the bins from DC up to and
    /// including the Nyquist bin at index `samples_len / 2`. The bins above
    /// that index mirror earlier ones as complex conjugates.
    pub fn fft_relevant_res_samples_count(samples_len: usize) -> (count: usize)
        requires
            samples_len >= 1,
        ensures
            count == samples_len / 2 + 1,
    {
        samples_len / 2 + 1
    }
}

/// Transforming bit-identical sample buffers leaves bit-identical results:
/// `fft_apply` pins every successful result to `transform_bits` of its
/// input, a function of the sample bits alone, so two calls on equal
/// buffers cannot disagree.
pub proof fn lemma_transform_deterministic(samples1: Seq<u32>, samples2: Seq<u32>)
    requires
        samples1 == samples2,
    ensures
        transform_bits(samples1) == transform_bits(samples2),
{
}

} // verus!
