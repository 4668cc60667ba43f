//! The decoder lifecycle over GPU surfaces, and the capability prober.
//!
//! Every native call is made by the caller. A function here either says which
//! call to make and with what arguments, or takes what the call returned and
//! decides what follows.

use vstd::prelude::*;
use vstd::string::*;
use crate::text::{append_bool, append_i64, bool_text, int_text};
use crate::context::{
    AdapterDesc, CodecError, DataFormat, DecodeCalls, DecodeContext, DecodeDriver,
    InnerDecodeContext, SurfaceFormat, Vendor, MAX_ADATER_NUM_ONE_VENDER,
};
use crate::mfx;

verus! {

/// One decoded picture as a view of a GPU texture. The texture belongs to the
/// render device; the frame only names it.
#[derive(Debug, Clone, Copy, PartialEq, Eq, Structural)]
pub struct DecodeFrame {
    pub surface_format: SurfaceFormat,
    pub width: i32,
    pub height: i32,
    pub texture: usize,
    pub key: bool,
}

impl DecodeFrame {
    /// The one-line description of this picture: format, size and key flag.
    pub open spec fn text(&self) -> Seq<char> {
        "surface_format:"@ + self.surface_format.spec_name() + ", width:"@ + int_text(
            self.width as int,
        ) + ", height:"@ + int_text(self.height as int) + ",key:"@ + bool_text(self.key)
    }

    /// Writes this picture out as one line.
    pub fn to_string(&self) -> (s: String)
        ensures
            s@ == self.text(),
    {
        let mut s = String::from_str("surface_format:");
        s.append(self.surface_format.name());
        s.append(", width:");
        append_i64(&mut s, self.width as i64);
        s.append(", height:");
        append_i64(&mut s, self.height as i64);
        s.append(",key:");
        append_bool(&mut s, self.key);
        s
    }
}

/// What the native decoder hands over each time it emits a picture.
#[derive(Debug, Clone, Copy, PartialEq, Eq, Structural)]
pub struct TextureOutput {
    pub texture: usize,
    pub format: i32,
    pub width: i32,
    pub height: i32,
    pub key: i32,
}

/// The arguments of the native create call for a context.
#[derive(Debug, Clone, Copy, PartialEq, Eq, Structural)]
pub struct CreateRequest {
    pub calls: DecodeCalls,
    pub luid: i64,
    pub api: i32,
    pub data_format: i32,
    pub output_surface_format: i32,
}

/// The arguments of the native capability test for a candidate context.
#[derive(Debug, Clone, Copy, PartialEq, Eq, Structural)]
pub struct ProbeRequest {
    pub calls: DecodeCalls,
    pub slots: usize,
    pub api: i32,
    pub data_format: i32,
    pub output_surface_format: i32,
    pub sample: i32,
}

/// The completion of one probe: the candidate that was tested, the status of
/// the native test, the number of adapters it verified, and the adapter slots
/// it filled.
pub struct ProbeOutcome {
    pub input: DecodeContext,
    pub status: i32,
    pub desc_count: i32,
    pub descs: Vec<AdapterDesc>,
}

/// The decode table bound to each driver.
pub open spec fn spec_decode_calls(driver: DecodeDriver) -> DecodeCalls {
    DecodeCalls { vendor: driver.spec_vendor() }
}

/// The frame that one native output becomes, or none where its format code
/// names no surface layout.
pub open spec fn marshal(out: TextureOutput) -> Option<DecodeFrame> {
    match SurfaceFormat::spec_from_code(out.format) {
        Some(f) => Some(
            DecodeFrame {
                surface_format: f,
                width: out.width,
                height: out.height,
                texture: out.texture,
                key: out.key != 0,
            },
        ),
        None => None,
    }
}

/// `frames` after one more native output has been marshaled onto it.
pub open spec fn appended(frames: Seq<DecodeFrame>, out: TextureOutput) -> Seq<DecodeFrame> {
    match marshal(out) {
        Some(f) => frames.push(f),
        None => frames,
    }
}

/// The frames that a run of native outputs becomes, in order, with the
/// uninterpretable ones dropped.
pub open spec fn marshal_all(outs: Seq<TextureOutput>) -> Seq<DecodeFrame>
    decreases outs.len(),
{
    if outs.len() == 0 {
        Seq::empty()
    } else {
        appended(marshal_all(outs.drop_last()), outs.last())
    }
}

/// The index of the sample bitstream that matches a stream kind: the H.264
/// sample for H.264, the H.265 sample for H.265, none for any other.
pub open spec fn spec_sample_index(format: DataFormat) -> Option<i32> {
    match format {
        DataFormat::H264 => Some(0i32),
        DataFormat::H265 => Some(1i32),
        _ => None,
    }
}

/// The candidate context for one plausible pair of a driver: BGRA output,
/// adapter not yet resolved.
pub open spec fn candidate(driver: DecodeDriver, pair: InnerDecodeContext) -> DecodeContext {
    DecodeContext {
        driver,
        data_format: pair.dataFormat,
        api: pair.api,
        output_surface_format: SurfaceFormat::SURFACE_FORMAT_BGRA,
        luid: 0,
    }
}

/// The candidate contexts of one driver, one per plausible pair, in order.
pub open spec fn tagged(driver: DecodeDriver, pairs: Seq<InnerDecodeContext>) -> Seq<
    DecodeContext,
> {
    Seq::new(pairs.len(), |i: int| candidate(driver, pairs[i]))
}

/// `input` bound to the adapter `luid`.
pub open spec fn with_luid(input: DecodeContext, luid: i64) -> DecodeContext {
    DecodeContext { luid, ..input }
}

impl ProbeOutcome {
    /// The verified count lies within the slots that were filled.
    pub open spec fn in_bounds(&self) -> bool {
        0 <= self.desc_count <= self.descs@.len()
    }

    /// Whether this outcome counts: the candidate has a sample and the test
    /// returned zero.
    pub open spec fn counts(&self) -> bool {
        spec_sample_index(self.input.data_format).is_some() && self.status == 0
    }

    /// The outcome can be taken in: it does not count, or its verified count
    /// lies within its slots.
    pub open spec fn usable(&self) -> bool {
        self.counts() ==> self.in_bounds()
    }
}

/// The contexts that one probe verified: its candidate once per verified
/// adapter where the outcome counts, none otherwise.
pub open spec fn verified(outcome: ProbeOutcome) -> Seq<DecodeContext> {
    if outcome.counts() {
        Seq::new(
            outcome.desc_count as nat,
            |i: int| with_luid(outcome.input, outcome.descs@[i].luid),
        )
    } else {
        Seq::empty()
    }
}

/// The contexts that a run of probes verified, probe by probe.
pub open spec fn collected(outcomes: Seq<ProbeOutcome>) -> Seq<DecodeContext>
    decreases outcomes.len(),
{
    if outcomes.len() == 0 {
        Seq::empty()
    } else {
        collected(outcomes.drop_last()) + verified(outcomes.last())
    }
}

/// The decode table of a driver. The mapping is fixed: three drivers, three
/// tables.
pub fn decode_calls(driver: DecodeDriver) -> (calls: DecodeCalls)
    ensures
        calls == spec_decode_calls(driver),
{
    match driver {
        DecodeDriver::CUVID => DecodeCalls { vendor: Vendor::NVIDIA },
        DecodeDriver::AMF => DecodeCalls { vendor: Vendor::AMD },
        DecodeDriver::MFX => mfx::decode_calls(),
    }
}

/// An open decoder session: the table it is bound to, the native handle it
/// alone owns, and the frames of its latest decode call.
pub struct Decoder {
    calls: DecodeCalls,
    codec: usize,
    frames: Vec<DecodeFrame>,
    ctx: DecodeContext,
}

impl Decoder {
    /// Holds of every decoder there is: the handle is not null and the table
    /// is the one of the context's driver.
    #[verifier::type_invariant]
    spec fn bound(self) -> bool {
        self.codec != 0 && self.calls == spec_decode_calls(self.ctx.driver)
    }

    /// The native handle this decoder owns.
    pub closed spec fn handle(&self) -> usize {
        self.codec
    }

    /// The call table this decoder was bound to at construction.
    pub closed spec fn table(&self) -> DecodeCalls {
        self.calls
    }

    /// The frames of the latest decode call.
    pub closed spec fn output(&self) -> Seq<DecodeFrame> {
        self.frames@
    }

    /// The context this decoder was constructed from.
    pub closed spec fn context(&self) -> DecodeContext {
        self.ctx
    }

    /// The decoder is open: its handle is not null and its table is the one
    /// of its context's driver.
    pub open spec fn ready(&self) -> bool {
        self.handle() != 0 && self.table() == spec_decode_calls(self.context().driver)
    }

    /// The native create call to make for `ctx`.
    pub fn create_request(ctx: &DecodeContext) -> (req: CreateRequest)
        ensures
            req == (CreateRequest {
                calls: spec_decode_calls(ctx.driver),
                luid: ctx.luid,
                api: ctx.api.spec_code(),
                data_format: ctx.data_format.spec_code(),
                output_surface_format: ctx.output_surface_format.spec_code(),
            }),
    {
        CreateRequest {
            calls: decode_calls(ctx.driver),
            luid: ctx.luid,
            api: ctx.api.code(),
            data_format: ctx.data_format.code(),
            output_surface_format: ctx.output_surface_format.code(),
        }
    }

    /// Opens a decoder from what the native create call returned for `ctx`.
    /// A null handle means the combination is not supported here; anything
    /// else gives a decoder that is ready, owns that handle and has no frames.
    pub fn new(ctx: DecodeContext, codec: usize) -> (r: Result<Decoder, CodecError>)
        ensures
            codec == 0 <==> r == Err::<Decoder, CodecError>(CodecError::BackendUnavailable),
            codec != 0 <==> r.is_ok(),
            r.is_ok() ==> {
                &&& r.unwrap().ready()
                &&& r.unwrap().handle() == codec
                &&& r.unwrap().context() == ctx
                &&& r.unwrap().output().len() == 0
            },
    {
        let calls = decode_calls(ctx.driver);
        if codec == 0 {
            return Err(CodecError::BackendUnavailable);
        }
        Ok(Decoder { calls, codec, frames: Vec::new(), ctx })
    }

    /// The native handle to pass to the decode call. There is no decoder that is
    /// not open: whoever holds one holds a live handle.
    pub fn codec(&self) -> (h: usize)
        ensures
            h == self.handle(),
            self.ready(),
    {
        proof {
            use_type_invariant(self);
        }
        self.codec
    }

    /// The context this decoder was constructed from.
    pub fn ctx(&self) -> (c: DecodeContext)
        ensures
            c == self.context(),
    {
        self.ctx
    }

    /// The call table to route native calls through.
    pub fn calls(&self) -> (c: DecodeCalls)
        ensures
            c == self.table(),
    {
        self.calls
    }

    /// The frames of the latest decode call.
    pub fn frames(&self) -> (f: &Vec<DecodeFrame>)
        ensures
            f@ == self.output(),
    {
        &self.frames
    }

    /// Marshals one native output onto `frames`: a frame that names the
    /// texture, or nothing where the format code names no surface layout.
    pub fn callback(
        texture: usize,
        format: i32,
        width: i32,
        height: i32,
        frames: &mut Vec<DecodeFrame>,
        key: i32,
    )
        ensures
            final(frames)@ == appended(
                old(frames)@,
                (TextureOutput { texture, format, width, height, key }),
            ),
    {
        match SurfaceFormat::from_code(format) {
            Some(surface_format) => {
                frames.push(DecodeFrame { surface_format, width, height, texture, key: key != 0 });
            },
            None => {},
        }
    }

    /// Takes in one native decode call: `ret` is its status and `outputs` what
    /// it emitted, in order. The frames of the previous call are discarded and
    /// replaced by the marshaled outputs. A negative status fails with that
    /// status; the decoder stays open with the same handle either way. The
    /// key flag of each frame is the one the native decoder gave that picture.
    pub fn decode(&mut self, ret: i32, outputs: &Vec<TextureOutput>) -> (r: Result<
        &Vec<DecodeFrame>,
        CodecError,
    >)
        ensures
            final(self).ready(),
            final(self).handle() == old(self).handle(),
            final(self).table() == old(self).table(),
            final(self).context() == old(self).context(),
            final(self).output() == marshal_all(outputs@),
            ret < 0 <==> r == Err::<&Vec<DecodeFrame>, CodecError>(
                CodecError::ProcessingError(ret),
            ),
            ret >= 0 <==> r.is_ok(),
            r.is_ok() ==> r.unwrap()@ == marshal_all(outputs@),
    {
        proof {
            use_type_invariant(&*self);
        }
        let mut frames: Vec<DecodeFrame> = Vec::new();
        let mut i: usize = 0;
        while i < outputs.len()
            invariant
                0 <= i <= outputs@.len(),
                frames@ == marshal_all(outputs@.take(i as int)),
            decreases outputs.len() - i,
        {
            let out = outputs[i];
            Decoder::callback(
                out.texture,
                out.format,
                out.width,
                out.height,
                &mut frames,
                out.key,
            );
            proof {
                assert(outputs@.take(i + 1).drop_last() =~= outputs@.take(i as int));
                assert(outputs@.take(i + 1).last() == out);
            }
            i += 1;
        }
        assert(outputs@.take(i as int) =~= outputs@);
        self.frames = frames;
        if ret < 0 {
            Err(CodecError::ProcessingError(ret))
        } else {
            Ok(&self.frames)
        }
    }

    /// Closes the decoder and hands back the table and the handle for the one
    /// native destroy call. The decoder is consumed, so no second call can
    /// follow.
    pub fn destroy(self) -> (r: (DecodeCalls, usize))
        ensures
            r.0 == self.table(),
            r.1 == self.handle(),
            r.1 != 0,
    {
        proof {
            use_type_invariant(&self);
        }
        (self.calls, self.codec)
    }
}

/// The index of the sample bitstream to test a stream kind with.
pub fn sample_index(format: DataFormat) -> (r: Option<i32>)
    ensures
        r == spec_sample_index(format),
{
    match format {
        DataFormat::H264 => Some(0),
        DataFormat::H265 => Some(1),
        _ => None,
    }
}

/// Appends to `out` the candidate contexts of one driver.
fn tag(out: &mut Vec<DecodeContext>, driver: DecodeDriver, pairs: &Vec<InnerDecodeContext>)
    ensures
        final(out)@ == old(out)@ + tagged(driver, pairs@),
{
    let mut i: usize = 0;
    while i < pairs.len()
        invariant
            0 <= i <= pairs@.len(),
            out@ == old(out)@ + tagged(driver, pairs@.take(i as int)),
        decreases pairs.len() - i,
    {
        let n = pairs[i];
        out.push(
            DecodeContext {
                driver,
                data_format: n.dataFormat,
                api: n.api,
                output_surface_format: SurfaceFormat::SURFACE_FORMAT_BGRA,
                luid: 0,
            },
        );
        assert(out@ =~= old(out)@ + tagged(driver, pairs@.take(i + 1)));
        i += 1;
    }
    assert(pairs@.take(i as int) =~= pairs@);
}

/// The candidate contexts to probe: the plausible pairs of the three
/// backends, NVIDIA's first, then AMD's, then Intel's, each with BGRA output
/// and no adapter yet.
pub fn candidates(
    nvidia: &Vec<InnerDecodeContext>,
    amf: &Vec<InnerDecodeContext>,
    intel: &Vec<InnerDecodeContext>,
) -> (inputs: Vec<DecodeContext>)
    ensures
        inputs@ == tagged(DecodeDriver::CUVID, nvidia@) + tagged(DecodeDriver::AMF, amf@) + tagged(
            DecodeDriver::MFX,
            intel@,
        ),
{
    let mut inputs: Vec<DecodeContext> = Vec::new();
    tag(&mut inputs, DecodeDriver::CUVID, nvidia);
    tag(&mut inputs, DecodeDriver::AMF, amf);
    tag(&mut inputs, DecodeDriver::MFX, intel);
    assert(inputs@ =~= tagged(DecodeDriver::CUVID, nvidia@) + tagged(DecodeDriver::AMF, amf@)
        + tagged(DecodeDriver::MFX, intel@));
    inputs
}

/// The native capability test to run for a candidate, or none where no
/// sample bitstream matches its stream kind.
pub fn probe_request(input: &DecodeContext) -> (r: Option<ProbeRequest>)
    ensures
        r.is_some() <==> spec_sample_index(input.data_format).is_some(),
        r.is_some() ==> r.unwrap() == (ProbeRequest {
            calls: spec_decode_calls(input.driver),
            slots: MAX_ADATER_NUM_ONE_VENDER,
            api: input.api.spec_code(),
            data_format: input.data_format.spec_code(),
            output_surface_format: input.output_surface_format.spec_code(),
            sample: spec_sample_index(input.data_format).unwrap(),
        }),
{
    match sample_index(input.data_format) {
        None => None,
        Some(sample) => Some(
            ProbeRequest {
                calls: decode_calls(input.driver),
                slots: MAX_ADATER_NUM_ONE_VENDER,
                api: input.api.code(),
                data_format: input.data_format.code(),
                output_surface_format: input.output_surface_format.code(),
                sample,
            },
        ),
    }
}

/// Whether the outcome of a probe can be taken in: it either does not count,
/// or its verified count lies within its slots.
pub fn outcome_usable(outcome: &ProbeOutcome) -> (ok: bool)
    ensures
        ok == outcome.usable(),
{
    if sample_index(outcome.input.data_format).is_none() || outcome.status != 0 {
        return true;
    }
    outcome.desc_count >= 0 && outcome.desc_count as usize <= outcome.descs.len()
}

/// Appends to `out` the contexts that one probe verified: its candidate once
/// per verified adapter, bound to that adapter. A test that failed, or that
/// verified no adapter, adds nothing.
pub fn verify_probe(out: &mut Vec<DecodeContext>, outcome: &ProbeOutcome)
    requires
        outcome.usable(),
    ensures
        final(out)@ == old(out)@ + verified(*outcome),
{
    if sample_index(outcome.input.data_format).is_none() || outcome.status != 0 {
        assert(out@ =~= old(out)@ + verified(*outcome));
        return ;
    }
    let count = outcome.desc_count as usize;
    let mut i: usize = 0;
    while i < count
        invariant
            0 <= i <= count,
            count == outcome.desc_count,
            count <= outcome.descs@.len(),
            outcome.counts(),
            out@.len() == old(out)@.len() + i,
            forall|k: int| 0 <= k < old(out)@.len() ==> out@[k] == old(out)@[k],
            forall|k: int|
                old(out)@.len() <= k < out@.len() ==> #[trigger] out@[k] == with_luid(
                    outcome.input,
                    outcome.descs@[k - old(out)@.len()].luid,
                ),
        decreases count - i,
    {
        let mut bound = outcome.input;
        bound.luid = outcome.descs[i].luid;
        out.push(bound);
        i += 1;
    }
    assert(out@ =~= old(out)@ + verified(*outcome));
}

/// The verified contexts of a whole probing run, from the completions of its
/// probes in the order they came in. One bad probe adds nothing and takes
/// nothing away from the others.
pub fn available(outcomes: &Vec<ProbeOutcome>) -> (found: Vec<DecodeContext>)
    requires
        forall|i: int| 0 <= i < outcomes@.len() ==> (#[trigger] outcomes@[i]).usable(),
    ensures
        found@ == collected(outcomes@),
{
    let mut found: Vec<DecodeContext> = Vec::new();
    let mut i: usize = 0;
    while i < outcomes.len()
        invariant
            0 <= i <= outcomes@.len(),
            forall|i: int| 0 <= i < outcomes@.len() ==> (#[trigger] outcomes@[i]).usable(),
            found@ == collected(outcomes@.take(i as int)),
        decreases outcomes.len() - i,
    {
        assert(outcomes@[i as int].usable());
        verify_probe(&mut found, &outcomes[i]);
        proof {
            assert(outcomes@.take(i + 1).drop_last() =~= outcomes@.take(i as int));
        }
        i += 1;
    }
    assert(outcomes@.take(i as int) =~= outcomes@);
    found
}

/// An element of a concatenation lies in one of its two parts.
proof fn lemma_concat_contains(a: Seq<DecodeContext>, b: Seq<DecodeContext>, c: DecodeContext)
    ensures
        (a + b).contains(c) <==> a.contains(c) || b.contains(c),
{
    if a.contains(c) {
        let k = choose|k: int| 0 <= k < a.len() && a[k] == c;
        assert((a + b)[k] == c);
    }
    if b.contains(c) {
        let k = choose|k: int| 0 <= k < b.len() && b[k] == c;
        assert((a + b)[a.len() + k] == c);
    }
    if (a + b).contains(c) {
        let k = choose|k: int| 0 <= k < (a + b).len() && (a + b)[k] == c;
        if k < a.len() {
            assert(a[k] == c);
        } else {
            assert(b[k - a.len()] == c);
        }
    }
}

/// Decoding keeps what the native decoder emitted: where every output
/// carries a surface format this layer knows, there is exactly one frame per
/// output, in the same order, and each frame has the texture, the size and
/// the key flag of its own picture.
pub proof fn lemma_marshal_all_faithful(outs: Seq<TextureOutput>)
    requires
        forall|i: int| 0 <= i < outs.len() ==> (#[trigger] marshal(outs[i])).is_some(),
    ensures
        marshal_all(outs).len() == outs.len(),
        forall|i: int|
            0 <= i < outs.len() ==> marshal(outs[i]) == Some(#[trigger] marshal_all(outs)[i]),
    decreases outs.len(),
{
    if outs.len() > 0 {
        let head = outs.drop_last();
        assert forall|i: int| 0 <= i < head.len() implies (#[trigger] marshal(head[i])).is_some() by {
            assert(head[i] == outs[i]);
        }
        lemma_marshal_all_faithful(head);
        assert(marshal(outs[outs.len() - 1]).is_some());
        assert forall|i: int| 0 <= i < outs.len() implies marshal(outs[i]) == Some(
            #[trigger] marshal_all(outs)[i],
        ) by {
            if i < head.len() {
                assert(head[i] == outs[i]);
                assert(marshal_all(outs)[i] == marshal_all(head)[i]);
            }
        }
    }
}

/// Decoding never yields more frames than the native decoder emitted
/// pictures: an output is marshaled or dropped, never multiplied.
pub proof fn lemma_marshal_all_bounded(outs: Seq<TextureOutput>)
    ensures
        marshal_all(outs).len() <= outs.len(),
    decreases outs.len(),
{
    if outs.len() > 0 {
        lemma_marshal_all_bounded(outs.drop_last());
    }
}

/// A context is among the results of a probing run exactly when some probe
/// of the run verified it. The position of the probe plays no part.
pub proof fn lemma_collected_membership(outcomes: Seq<ProbeOutcome>, c: DecodeContext)
    ensures
        collected(outcomes).contains(c) <==> exists|i: int|
            0 <= i < outcomes.len() && verified(#[trigger] outcomes[i]).contains(c),
    decreases outcomes.len(),
{
    if outcomes.len() > 0 {
        let head = outcomes.drop_last();
        let a = collected(head);
        let b = verified(outcomes.last());
        let n = outcomes.len() - 1;
        lemma_collected_membership(head, c);
        lemma_concat_contains(a, b, c);
        if a.contains(c) {
            let i = choose|i: int| 0 <= i < head.len() && verified(#[trigger] head[i]).contains(c);
            assert(head[i] == outcomes[i]);
            assert(verified(outcomes[i]).contains(c));
        }
        if b.contains(c) {
            assert(verified(outcomes[n]).contains(c));
        }
        if exists|i: int| 0 <= i < outcomes.len() && verified(#[trigger] outcomes[i]).contains(c) {
            let i = choose|i: int|
                0 <= i < outcomes.len() && verified(#[trigger] outcomes[i]).contains(c);
            if i < n {
                assert(head[i] == outcomes[i]);
                assert(verified(head[i]).contains(c));
            } else {
                assert(b.contains(c));
            }
        }
    }
}

/// The result of probing is a set: two runs made of the same probes with the
/// same outcomes, completed in any order, verify the same set of contexts.
pub proof fn lemma_probe_order_irrelevant(first: Seq<ProbeOutcome>, second: Seq<ProbeOutcome>)
    requires
        forall|i: int| 0 <= i < first.len() ==> second.contains(#[trigger] first[i]),
        forall|i: int| 0 <= i < second.len() ==> first.contains(#[trigger] second[i]),
    ensures
        collected(first).to_set() == collected(second).to_set(),
{
    let sa = collected(first);
    let sb = collected(second);
    assert forall|c: DecodeContext| sa.contains(c) <==> sb.contains(c) by {
        lemma_collected_membership(first, c);
        lemma_collected_membership(second, c);
        if sa.contains(c) {
            let i = choose|i: int| 0 <= i < first.len() && verified(#[trigger] first[i]).contains(c);
            assert(second.contains(first[i]));
            let j = choose|j: int| 0 <= j < second.len() && second[j] == first[i];
            assert(verified(second[j]).contains(c));
        }
        if sb.contains(c) {
            let i = choose|i: int|
                0 <= i < second.len() && verified(#[trigger] second[i]).contains(c);
            assert(first.contains(second[i]));
            let j = choose|j: int| 0 <= j < first.len() && first[j] == second[i];
            assert(verified(first[j]).contains(c));
        }
    }
    assert(sa.to_set() =~= sb.to_set());
}

/// One failed probe takes nothing away from the others: a probe whose test
/// did not return zero leaves the results of the run as they were.
pub proof fn lemma_failed_probe_adds_nothing(outcomes: Seq<ProbeOutcome>, outcome: ProbeOutcome)
    requires
        outcome.status != 0,
    ensures
        collected(outcomes.push(outcome)) == collected(outcomes),
{
    assert(outcomes.push(outcome).drop_last() =~= outcomes);
    assert(verified(outcome) =~= Seq::<DecodeContext>::empty());
    assert(collected(outcomes) + Seq::<DecodeContext>::empty() =~= collected(outcomes));
}

/// `c` is the candidate of `outcome` bound to the adapter in slot `k`, which
/// the test of that candidate verified.
pub open spec fn verified_at(outcome: ProbeOutcome, k: int, c: DecodeContext) -> bool {
    &&& outcome.counts()
    &&& 0 <= k < outcome.desc_count
    &&& k < outcome.descs@.len()
    &&& c == with_luid(outcome.input, outcome.descs@[k].luid)
}

/// Every context that probing reports is a candidate that was probed, bound
/// to an adapter that its own test verified; nothing else about the
/// candidate is changed.
pub proof fn lemma_collected_sound(outcomes: Seq<ProbeOutcome>, c: DecodeContext)
    requires
        forall|i: int| 0 <= i < outcomes.len() ==> (#[trigger] outcomes[i]).usable(),
        collected(outcomes).contains(c),
    ensures
        exists|i: int, k: int| 0 <= i < outcomes.len() && #[trigger] verified_at(outcomes[i], k, c),
{
    lemma_collected_membership(outcomes, c);
    let i = choose|i: int| 0 <= i < outcomes.len() && verified(#[trigger] outcomes[i]).contains(c);
    let v = verified(outcomes[i]);
    let k = choose|k: int| 0 <= k < v.len() && v[k] == c;
    assert(outcomes[i].usable());
    assert(verified_at(outcomes[i], k, c));
}

} // verus!
