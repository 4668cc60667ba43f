//! The Intel backend: its call tables and the (device API, stream kind) pairs
//! it may support.

use vstd::prelude::*;
use crate::context::{
    DataFormat, DecodeCalls, EncodeCalls, InnerDecodeContext, InnerEncodeContext, Vendor, API,
};

verus! {

/// The pairs Intel's encoder may support when its driver stack is present.
pub open spec fn encoder_pairs() -> Seq<InnerEncodeContext> {
    seq![
        (InnerEncodeContext { api: API::API_DX11, format: DataFormat::H264 }),
        (InnerEncodeContext { api: API::API_DX11, format: DataFormat::H265 }),
    ]
}

/// The pairs Intel's decoder may support when its driver stack is present.
pub open spec fn decoder_pairs() -> Seq<InnerDecodeContext> {
    seq![
        (InnerDecodeContext { api: API::API_DX11, dataFormat: DataFormat::H264 }),
        (InnerDecodeContext { api: API::API_DX11, dataFormat: DataFormat::H265 }),
    ]
}

/// Intel's encode table: every entry point bound, both live setters included.
pub fn encode_calls() -> (calls: EncodeCalls)
    ensures
        calls == (EncodeCalls { vendor: Vendor::INTEL, set_bitrate: true, set_framerate: true }),
{
    EncodeCalls { vendor: Vendor::INTEL, set_bitrate: true, set_framerate: true }
}

/// Intel's decode table.
pub fn decode_calls() -> (calls: DecodeCalls)
    ensures
        calls == (DecodeCalls { vendor: Vendor::INTEL }),
{
    DecodeCalls { vendor: Vendor::INTEL }
}

/// The encoder pairs worth probing, given what the native driver-support
/// query returned: none unless it returned zero.
pub fn possible_support_encoders(driver_support: i32) -> (v: Vec<InnerEncodeContext>)
    ensures
        driver_support != 0 ==> v@.len() == 0,
        driver_support == 0 ==> v@ == encoder_pairs(),
{
    let mut v: Vec<InnerEncodeContext> = Vec::new();
    if driver_support != 0 {
        return v;
    }
    let devices = vec![API::API_DX11];
    let formats = vec![DataFormat::H264, DataFormat::H265];
    let mut i: usize = 0;
    while i < devices.len()
        invariant
            devices@ == seq![API::API_DX11],
            formats@ == seq![DataFormat::H264, DataFormat::H265],
            0 <= i <= 1,
            v@.len() == 2 * i,
            forall|k: int|
                0 <= k < v@.len() ==> #[trigger] v@[k] == (InnerEncodeContext {
                    api: devices@[k / 2],
                    format: formats@[k % 2],
                }),
        decreases devices.len() - i,
    {
        let mut j: usize = 0;
        while j < formats.len()
            invariant
                devices@ == seq![API::API_DX11],
                formats@ == seq![DataFormat::H264, DataFormat::H265],
                0 <= i < 1,
                0 <= j <= 2,
                v@.len() == 2 * i + j,
                forall|k: int|
                    0 <= k < v@.len() ==> #[trigger] v@[k] == (InnerEncodeContext {
                        api: devices@[k / 2],
                        format: formats@[k % 2],
                    }),
            decreases formats.len() - j,
        {
            v.push(InnerEncodeContext { api: devices[i], format: formats[j] });
            j += 1;
        }
        i += 1;
    }
    assert(v@ =~= encoder_pairs());
    v
}

/// The decoder pairs worth probing, given what the native driver-support
/// query returned: none unless it returned zero.
pub fn possible_support_decoders(driver_support: i32) -> (v: Vec<InnerDecodeContext>)
    ensures
        driver_support != 0 ==> v@.len() == 0,
        driver_support == 0 ==> v@ == decoder_pairs(),
{
    let mut v: Vec<InnerDecodeContext> = Vec::new();
    if driver_support != 0 {
        return v;
    }
    let devices = vec![API::API_DX11];
    let formats = vec![DataFormat::H264, DataFormat::H265];
    let mut i: usize = 0;
    while i < devices.len()
        invariant
            devices@ == seq![API::API_DX11],
            formats@ == seq![DataFormat::H264, DataFormat::H265],
            0 <= i <= 1,
            v@.len() == 2 * i,
            forall|k: int|
                0 <= k < v@.len() ==> #[trigger] v@[k] == (InnerDecodeContext {
                    api: devices@[k / 2],
                    dataFormat: formats@[k % 2],
                }),
        decreases devices.len() - i,
    {
        let mut j: usize = 0;
        while j < formats.len()
            invariant
                devices@ == seq![API::API_DX11],
                formats@ == seq![DataFormat::H264, DataFormat::H265],
                0 <= i < 1,
                0 <= j <= 2,
                v@.len() == 2 * i + j,
                forall|k: int|
                    0 <= k < v@.len() ==> #[trigger] v@[k] == (InnerDecodeContext {
                        api: devices@[k / 2],
                        dataFormat: formats@[k % 2],
                    }),
            decreases formats.len() - j,
        {
            v.push(InnerDecodeContext { api: devices[i], dataFormat: formats[j] });
            j += 1;
        }
        i += 1;
    }
    assert(v@ =~= decoder_pairs());
    v
}

} // verus!
