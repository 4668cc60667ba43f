//! The unified context model: drivers, device APIs, stream and surface
//! formats, adapter identity, session parameters with their validity rule,
//! the per-vendor call tables and the error taxonomy.

use vstd::prelude::*;

verus! {

/// Longest keyframe interval a session may ask for.
pub const MAX_GOP: i32 = 0xFFFF;

/// Number of adapter slots handed to one capability test.
pub const MAX_ADATER_NUM_ONE_VENDER: usize = 4;

/// The three vendor SDKs. The set is closed.
#[derive(Debug, Clone, Copy, PartialEq, Eq, Structural)]
pub enum Vendor {
    NVIDIA,
    AMD,
    INTEL,
}

/// The decode backend of each vendor.
#[derive(Debug, Clone, Copy, PartialEq, Eq, Structural)]
pub enum DecodeDriver {
    CUVID,
    AMF,
    MFX,
}

/// The encode backend of each vendor.
#[derive(Debug, Clone, Copy, PartialEq, Eq, Structural)]
pub enum EncodeDriver {
    NVENC,
    AMF,
    MFX,
}

/// The device API a session runs on.
#[allow(non_camel_case_types)]
#[derive(Debug, Clone, Copy, PartialEq, Eq, Structural)]
pub enum API {
    API_DX11,
    API_OPENCL,
    API_OPENGL,
    API_VULKAN,
}

/// The compressed stream kind.
#[derive(Debug, Clone, Copy, PartialEq, Eq, Structural)]
pub enum DataFormat {
    H264,
    H265,
    VP8,
    VP9,
    AV1,
}

/// The layout of a decoded GPU surface.
#[allow(non_camel_case_types)]
#[derive(Debug, Clone, Copy, PartialEq, Eq, Structural)]
pub enum SurfaceFormat {
    SURFACE_FORMAT_BGRA,
    SURFACE_FORMAT_RGBA,
    SURFACE_FORMAT_NV12,
}

/// A GPU adapter as enumeration reports it.
#[derive(Debug, Clone, Copy, PartialEq, Eq, Structural)]
pub struct AdapterDesc {
    pub luid: i64,
}

impl DecodeDriver {
    /// The vendor whose SDK implements this driver.
    pub open spec fn spec_vendor(self) -> Vendor {
        match self {
            DecodeDriver::CUVID => Vendor::NVIDIA,
            DecodeDriver::AMF => Vendor::AMD,
            DecodeDriver::MFX => Vendor::INTEL,
        }
    }

    pub fn vendor(self) -> (v: Vendor)
        ensures
            v == self.spec_vendor(),
    {
        match self {
            DecodeDriver::CUVID => Vendor::NVIDIA,
            DecodeDriver::AMF => Vendor::AMD,
            DecodeDriver::MFX => Vendor::INTEL,
        }
    }
}

impl EncodeDriver {
    /// The vendor whose SDK implements this driver.
    pub open spec fn spec_vendor(self) -> Vendor {
        match self {
            EncodeDriver::NVENC => Vendor::NVIDIA,
            EncodeDriver::AMF => Vendor::AMD,
            EncodeDriver::MFX => Vendor::INTEL,
        }
    }

    pub fn vendor(self) -> (v: Vendor)
        ensures
            v == self.spec_vendor(),
    {
        match self {
            EncodeDriver::NVENC => Vendor::NVIDIA,
            EncodeDriver::AMF => Vendor::AMD,
            EncodeDriver::MFX => Vendor::INTEL,
        }
    }
}

impl API {
    /// The integer by which native code names this API.
    pub open spec fn spec_code(self) -> i32 {
        match self {
            API::API_DX11 => 0,
            API::API_OPENCL => 1,
            API::API_OPENGL => 2,
            API::API_VULKAN => 3,
        }
    }

    pub fn code(self) -> (c: i32)
        ensures
            c == self.spec_code(),
    {
        match self {
            API::API_DX11 => 0,
            API::API_OPENCL => 1,
            API::API_OPENGL => 2,
            API::API_VULKAN => 3,
        }
    }
}

impl DataFormat {
    /// The integer by which native code names this stream kind.
    pub open spec fn spec_code(self) -> i32 {
        match self {
            DataFormat::H264 => 0,
            DataFormat::H265 => 1,
            DataFormat::VP8 => 2,
            DataFormat::VP9 => 3,
            DataFormat::AV1 => 4,
        }
    }

    pub fn code(self) -> (c: i32)
        ensures
            c == self.spec_code(),
    {
        match self {
            DataFormat::H264 => 0,
            DataFormat::H265 => 1,
            DataFormat::VP8 => 2,
            DataFormat::VP9 => 3,
            DataFormat::AV1 => 4,
        }
    }
}

impl SurfaceFormat {
    /// The integer by which native code names this surface layout.
    pub open spec fn spec_code(self) -> i32 {
        match self {
            SurfaceFormat::SURFACE_FORMAT_BGRA => 0,
            SurfaceFormat::SURFACE_FORMAT_RGBA => 1,
            SurfaceFormat::SURFACE_FORMAT_NV12 => 2,
        }
    }

    /// The name of this layout as it is written out.
    pub open spec fn spec_name(self) -> Seq<char> {
        match self {
            SurfaceFormat::SURFACE_FORMAT_BGRA => "SURFACE_FORMAT_BGRA"@,
            SurfaceFormat::SURFACE_FORMAT_RGBA => "SURFACE_FORMAT_RGBA"@,
            SurfaceFormat::SURFACE_FORMAT_NV12 => "SURFACE_FORMAT_NV12"@,
        }
    }

    pub fn name(self) -> (s: &'static str)
        ensures
            s@ == self.spec_name(),
    {
        match self {
            SurfaceFormat::SURFACE_FORMAT_BGRA => "SURFACE_FORMAT_BGRA",
            SurfaceFormat::SURFACE_FORMAT_RGBA => "SURFACE_FORMAT_RGBA",
            SurfaceFormat::SURFACE_FORMAT_NV12 => "SURFACE_FORMAT_NV12",
        }
    }

    /// The surface layout that a native integer names, if it names one.
    pub open spec fn spec_from_code(code: i32) -> Option<SurfaceFormat> {
        if code == 0 {
            Some(SurfaceFormat::SURFACE_FORMAT_BGRA)
        } else if code == 1 {
            Some(SurfaceFormat::SURFACE_FORMAT_RGBA)
        } else if code == 2 {
            Some(SurfaceFormat::SURFACE_FORMAT_NV12)
        } else {
            None
        }
    }

    pub fn code(self) -> (c: i32)
        ensures
            c == self.spec_code(),
            SurfaceFormat::spec_from_code(c) == Some(self),
    {
        match self {
            SurfaceFormat::SURFACE_FORMAT_BGRA => 0,
            SurfaceFormat::SURFACE_FORMAT_RGBA => 1,
            SurfaceFormat::SURFACE_FORMAT_NV12 => 2,
        }
    }

    pub fn from_code(code: i32) -> (r: Option<SurfaceFormat>)
        ensures
            r == SurfaceFormat::spec_from_code(code),
            r.is_some() <==> 0 <= code <= 2,
            r.is_some() ==> r.unwrap().spec_code() == code,
    {
        if code == 0 {
            Some(SurfaceFormat::SURFACE_FORMAT_BGRA)
        } else if code == 1 {
            Some(SurfaceFormat::SURFACE_FORMAT_RGBA)
        } else if code == 2 {
            Some(SurfaceFormat::SURFACE_FORMAT_NV12)
        } else {
            None
        }
    }
}

/// Which native implementation an encoder binds to. Fixed for the life of the
/// encoder built from it.
#[derive(Debug, Clone, Copy, PartialEq, Eq, Structural)]
pub struct FeatureContext {
    pub driver: EncodeDriver,
    pub api: API,
    pub data_format: DataFormat,
    pub luid: i64,
}

/// The per-session encode parameters.
#[derive(Debug, Clone, Copy, PartialEq, Eq, Structural)]
pub struct DynamicContext {
    pub width: i32,
    pub height: i32,
    pub kbitrate: i32,
    pub framerate: i32,
    pub gop: i32,
}

impl DynamicContext {
    /// Dimensions and rates are positive and the keyframe interval does not
    /// exceed [`MAX_GOP`].
    pub open spec fn spec_valid(&self) -> bool {
        &&& self.width > 0
        &&& self.height > 0
        &&& self.kbitrate > 0
        &&& self.framerate > 0
        &&& self.gop <= MAX_GOP
    }

    pub fn valid(&self) -> (ok: bool)
        ensures
            ok == self.spec_valid(),
    {
        self.width > 0 && self.height > 0 && self.kbitrate > 0 && self.framerate > 0 && self.gop
            <= MAX_GOP
    }
}

/// Everything an encoder is constructed from.
#[derive(Debug, Clone, Copy, PartialEq, Eq, Structural)]
pub struct EncodeContext {
    pub f: FeatureContext,
    pub d: DynamicContext,
}

/// Everything a decoder is constructed from. The output surface format fixes
/// how decoded pictures are represented for the life of the decoder.
#[derive(Debug, Clone, Copy, PartialEq, Eq, Structural)]
pub struct DecodeContext {
    pub driver: DecodeDriver,
    pub data_format: DataFormat,
    pub api: API,
    pub output_surface_format: SurfaceFormat,
    pub luid: i64,
}

/// A (device API, stream kind) pair that an encode backend may support.
#[derive(Debug, Clone, Copy, PartialEq, Eq, Structural)]
pub struct InnerEncodeContext {
    pub api: API,
    pub format: DataFormat,
}

/// A (device API, stream kind) pair that a decode backend may support.
#[allow(non_snake_case)]
#[derive(Debug, Clone, Copy, PartialEq, Eq, Structural)]
pub struct InnerDecodeContext {
    pub api: API,
    pub dataFormat: DataFormat,
}

/// The encode entry points of one vendor: create, encode, destroy and test are
/// always bound; the two live setters are optional.
#[derive(Debug, Clone, Copy, PartialEq, Eq, Structural)]
pub struct EncodeCalls {
    pub vendor: Vendor,
    pub set_bitrate: bool,
    pub set_framerate: bool,
}

/// The decode entry points of one vendor: create, decode, destroy and test.
#[derive(Debug, Clone, Copy, PartialEq, Eq, Structural)]
pub struct DecodeCalls {
    pub vendor: Vendor,
}

/// What can go wrong in constructing or driving a codec session.
#[derive(Debug, Clone, Copy, PartialEq, Eq, Structural)]
pub enum CodecError {
    /// The context breaks a static rule.
    InvalidConfiguration,
    /// The native create call returned no handle.
    BackendUnavailable,
    /// A native process call returned this negative status.
    ProcessingError(i32),
    /// The backend does not bind the requested live setter.
    UnsupportedOperation,
}

} // verus!
