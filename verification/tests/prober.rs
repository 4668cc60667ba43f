use hwcodec::context::{
    AdapterDesc, DataFormat, DecodeContext, DecodeDriver, InnerDecodeContext, SurfaceFormat,
    Vendor, API, MAX_ADATER_NUM_ONE_VENDER,
};
use hwcodec::decode::{
    available, candidates, outcome_usable, probe_request, sample_index, verify_probe, ProbeOutcome,
};
use hwcodec::mfx;
use std::collections::HashSet;

fn pair(format: DataFormat) -> InnerDecodeContext {
    InnerDecodeContext { api: API::API_DX11, dataFormat: format }
}

fn cand(driver: DecodeDriver, format: DataFormat, luid: i64) -> DecodeContext {
    DecodeContext {
        driver,
        data_format: format,
        api: API::API_DX11,
        output_surface_format: SurfaceFormat::SURFACE_FORMAT_BGRA,
        luid,
    }
}

fn outcome(input: DecodeContext, status: i32, count: i32, luids: &[i64]) -> ProbeOutcome {
    let mut descs: Vec<AdapterDesc> = luids.iter().map(|l| AdapterDesc { luid: *l }).collect();
    while descs.len() < MAX_ADATER_NUM_ONE_VENDER {
        descs.push(AdapterDesc { luid: 0 });
    }
    ProbeOutcome { input, status, desc_count: count, descs }
}

#[test]
fn candidates_come_vendor_by_vendor() {
    let nv = vec![pair(DataFormat::H264)];
    let amf = vec![pair(DataFormat::H264), pair(DataFormat::H265)];
    let intel = mfx::possible_support_decoders(0);
    assert_eq!(
        candidates(&nv, &amf, &intel),
        vec![
            cand(DecodeDriver::CUVID, DataFormat::H264, 0),
            cand(DecodeDriver::AMF, DataFormat::H264, 0),
            cand(DecodeDriver::AMF, DataFormat::H265, 0),
            cand(DecodeDriver::MFX, DataFormat::H264, 0),
            cand(DecodeDriver::MFX, DataFormat::H265, 0),
        ]
    );
}

#[test]
fn a_backend_that_refuses_everything_gives_no_candidates() {
    let intel = mfx::possible_support_decoders(-1);
    assert!(candidates(&vec![], &vec![], &intel).is_empty());
}

#[test]
fn samples_are_never_cross_matched() {
    assert_eq!(sample_index(DataFormat::H264), Some(0));
    assert_eq!(sample_index(DataFormat::H265), Some(1));
    assert_eq!(sample_index(DataFormat::VP8), None);
    assert_eq!(sample_index(DataFormat::VP9), None);
    assert_eq!(sample_index(DataFormat::AV1), None);
}

#[test]
fn probe_request_names_table_slots_and_sample() {
    let req = probe_request(&cand(DecodeDriver::AMF, DataFormat::H265, 0)).unwrap();
    assert_eq!(req.calls.vendor, Vendor::AMD);
    assert_eq!(req.slots, MAX_ADATER_NUM_ONE_VENDER);
    assert_eq!(req.api, 0);
    assert_eq!(req.data_format, 1);
    assert_eq!(req.output_surface_format, 0);
    assert_eq!(req.sample, 1);
    assert!(probe_request(&cand(DecodeDriver::AMF, DataFormat::AV1, 0)).is_none());
}

#[test]
fn a_successful_probe_yields_one_context_per_adapter() {
    let input = cand(DecodeDriver::CUVID, DataFormat::H264, 0);
    let o = outcome(input, 0, 2, &[111, 222, 333]);
    assert!(outcome_usable(&o));
    let mut out = vec![cand(DecodeDriver::MFX, DataFormat::H265, 5)];
    verify_probe(&mut out, &o);
    assert_eq!(
        out,
        vec![
            cand(DecodeDriver::MFX, DataFormat::H265, 5),
            cand(DecodeDriver::CUVID, DataFormat::H264, 111),
            cand(DecodeDriver::CUVID, DataFormat::H264, 222),
        ]
    );
}

#[test]
fn failure_and_success_with_no_adapter_both_add_nothing() {
    let input = cand(DecodeDriver::AMF, DataFormat::H264, 0);
    let mut out = Vec::new();
    verify_probe(&mut out, &outcome(input, -1, 3, &[1, 2, 3]));
    verify_probe(&mut out, &outcome(input, 1, 3, &[1, 2, 3]));
    verify_probe(&mut out, &outcome(input, 0, 0, &[1, 2, 3]));
    assert!(out.is_empty());
}

#[test]
fn a_candidate_without_a_sample_adds_nothing() {
    let input = cand(DecodeDriver::AMF, DataFormat::VP9, 0);
    let mut out = Vec::new();
    let o = outcome(input, 0, 2, &[1, 2]);
    assert!(outcome_usable(&o));
    verify_probe(&mut out, &o);
    assert!(out.is_empty());
}

#[test]
fn outcome_beyond_its_slots_is_not_usable() {
    let input = cand(DecodeDriver::AMF, DataFormat::H264, 0);
    assert!(!outcome_usable(&outcome(input, 0, 5, &[1, 2, 3, 4])));
    assert!(!outcome_usable(&outcome(input, 0, -1, &[1])));
    assert!(outcome_usable(&outcome(input, 0, 4, &[1, 2, 3, 4])));
    assert!(outcome_usable(&outcome(input, -2, 99, &[])));
}

#[test]
fn one_bad_backend_does_not_hide_the_others() {
    let a = cand(DecodeDriver::CUVID, DataFormat::H264, 0);
    let b = cand(DecodeDriver::AMF, DataFormat::H264, 0);
    let c = cand(DecodeDriver::MFX, DataFormat::H265, 0);
    let outcomes =
        vec![outcome(a, 0, 1, &[10]), outcome(b, -9, 0, &[]), outcome(c, 0, 2, &[20, 30])];
    assert_eq!(
        available(&outcomes),
        vec![
            cand(DecodeDriver::CUVID, DataFormat::H264, 10),
            cand(DecodeDriver::MFX, DataFormat::H265, 20),
            cand(DecodeDriver::MFX, DataFormat::H265, 30),
        ]
    );
    assert!(available(&vec![]).is_empty());
}

#[test]
fn probing_twice_in_another_order_gives_the_same_set() {
    let a = cand(DecodeDriver::CUVID, DataFormat::H264, 0);
    let b = cand(DecodeDriver::AMF, DataFormat::H265, 0);
    let c = cand(DecodeDriver::MFX, DataFormat::H264, 0);
    let first =
        available(&vec![outcome(a, 0, 2, &[1, 2]), outcome(b, 0, 1, &[3]), outcome(c, -1, 0, &[])]);
    let second =
        available(&vec![outcome(c, -1, 0, &[]), outcome(b, 0, 1, &[3]), outcome(a, 0, 2, &[1, 2])]);
    assert_ne!(first, second);
    let key = |x: &DecodeContext| (x.driver.vendor() as u8, x.data_format.code(), x.luid);
    let s1: HashSet<(u8, i32, i64)> = first.iter().map(key).collect();
    let s2: HashSet<(u8, i32, i64)> = second.iter().map(key).collect();
    assert_eq!(s1.len(), 3);
    assert_eq!(s1, s2);
}
