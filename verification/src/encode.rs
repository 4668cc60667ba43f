//! The encoder lifecycle: validation, construction from a native handle,
//! taking in encoded packets, live reconfiguration and teardown.

use vstd::prelude::*;
use crate::common::EncodeFrame;
use crate::context::{
    CodecError, DynamicContext, EncodeCalls, EncodeContext, EncodeDriver, Vendor,
};
use crate::mfx;

verus! {

/// The arguments of the native create call for an encoder.
#[derive(Debug, Clone, Copy, PartialEq, Eq, Structural)]
pub struct CreateRequest {
    pub calls: EncodeCalls,
    pub luid: i64,
    pub api: i32,
    pub data_format: i32,
    pub width: i32,
    pub height: i32,
    pub kbitrate: i32,
    pub framerate: i32,
    pub gop: i32,
}

/// The encode table bound to each driver: all three bind both live setters.
pub open spec fn spec_encode_calls(driver: EncodeDriver) -> EncodeCalls {
    EncodeCalls { vendor: driver.spec_vendor(), set_bitrate: true, set_framerate: true }
}

/// The create call that `ctx` asks for.
pub open spec fn spec_create_request(ctx: EncodeContext) -> CreateRequest {
    CreateRequest {
        calls: spec_encode_calls(ctx.f.driver),
        luid: ctx.f.luid,
        api: ctx.f.api.spec_code(),
        data_format: ctx.f.data_format.spec_code(),
        width: ctx.d.width,
        height: ctx.d.height,
        kbitrate: ctx.d.kbitrate,
        framerate: ctx.d.framerate,
        gop: ctx.d.gop,
    }
}

/// A context and a table go together: the session parameters are valid and
/// the table is the one of the vendor of the context's driver.
pub open spec fn spec_accepts(ctx: EncodeContext, calls: EncodeCalls) -> bool {
    ctx.d.spec_valid() && calls.vendor == ctx.f.driver.spec_vendor()
}

/// What a live update comes to: unsupported where the table binds no setter;
/// else refused where the value is not positive; else failed with the native
/// status where that is negative; else done.
pub open spec fn spec_update(bound: bool, value: i32, status: i32) -> Result<(), CodecError> {
    if !bound {
        Err(CodecError::UnsupportedOperation)
    } else if value <= 0 {
        Err(CodecError::InvalidConfiguration)
    } else if status < 0 {
        Err(CodecError::ProcessingError(status))
    } else {
        Ok(())
    }
}

/// Whether a live update is to be forwarded to the native setter at all.
pub open spec fn spec_forward(bound: bool, value: i32) -> Result<(), CodecError> {
    if !bound {
        Err(CodecError::UnsupportedOperation)
    } else if value <= 0 {
        Err(CodecError::InvalidConfiguration)
    } else {
        Ok(())
    }
}

/// The encode table of a driver. The mapping is fixed: three drivers, three
/// tables.
pub fn encode_calls(driver: EncodeDriver) -> (calls: EncodeCalls)
    ensures
        calls == spec_encode_calls(driver),
{
    match driver {
        EncodeDriver::NVENC => EncodeCalls {
            vendor: Vendor::NVIDIA,
            set_bitrate: true,
            set_framerate: true,
        },
        EncodeDriver::AMF => EncodeCalls {
            vendor: Vendor::AMD,
            set_bitrate: true,
            set_framerate: true,
        },
        EncodeDriver::MFX => mfx::encode_calls(),
    }
}

/// An open encoder session: the table it is bound to, the native handle it
/// alone owns, and the packets of its latest encode call.
pub struct Encoder {
    calls: EncodeCalls,
    codec: usize,
    frames: Vec<EncodeFrame>,
    ctx: EncodeContext,
}

impl Encoder {
    /// Holds of every encoder there is: the handle is not null, the table is
    /// the driver's vendor's, and the session parameters are valid.
    #[verifier::type_invariant]
    spec fn bound(self) -> bool {
        &&& self.codec != 0
        &&& self.calls.vendor == self.ctx.f.driver.spec_vendor()
        &&& self.ctx.d.spec_valid()
    }

    /// The native handle this encoder owns.
    pub closed spec fn handle(&self) -> usize {
        self.codec
    }

    /// The call table this encoder was bound to at construction.
    pub closed spec fn table(&self) -> EncodeCalls {
        self.calls
    }

    /// The packets of the latest encode call.
    pub closed spec fn output(&self) -> Seq<EncodeFrame> {
        self.frames@
    }

    /// The context this encoder runs with.
    pub closed spec fn context(&self) -> EncodeContext {
        self.ctx
    }

    /// The encoder is open: its handle is not null, its table is its
    /// driver's vendor's, and its session parameters are valid.
    pub open spec fn ready(&self) -> bool {
        &&& self.handle() != 0
        &&& self.table().vendor == self.context().f.driver.spec_vendor()
        &&& self.context().d.spec_valid()
    }

    /// The native create call to make for `ctx`, or the refusal of a context
    /// that breaks a static rule. Nothing is clamped.
    pub fn create_request(ctx: &EncodeContext) -> (r: Result<CreateRequest, CodecError>)
        ensures
            !ctx.d.spec_valid() <==> r == Err::<CreateRequest, CodecError>(
                CodecError::InvalidConfiguration,
            ),
            ctx.d.spec_valid() <==> r == Ok::<CreateRequest, CodecError>(
                spec_create_request(*ctx),
            ),
    {
        if !ctx.d.valid() {
            return Err(CodecError::InvalidConfiguration);
        }
        Ok(
            CreateRequest {
                calls: encode_calls(ctx.f.driver),
                luid: ctx.f.luid,
                api: ctx.f.api.code(),
                data_format: ctx.f.data_format.code(),
                width: ctx.d.width,
                height: ctx.d.height,
                kbitrate: ctx.d.kbitrate,
                framerate: ctx.d.framerate,
                gop: ctx.d.gop,
            },
        )
    }

    /// Opens an encoder bound to `calls` from what the native create call
    /// returned. A context that breaks a static rule, or a table of another
    /// vendor than the context's driver, is refused first; then a null handle
    /// means the combination is not supported here; anything else gives an
    /// encoder that is ready, owns that handle and has no packets.
    pub fn bind(ctx: EncodeContext, calls: EncodeCalls, codec: usize) -> (r: Result<
        Encoder,
        CodecError,
    >)
        ensures
            !spec_accepts(ctx, calls) <==> r == Err::<Encoder, CodecError>(
                CodecError::InvalidConfiguration,
            ),
            spec_accepts(ctx, calls) && codec == 0 <==> r == Err::<Encoder, CodecError>(
                CodecError::BackendUnavailable,
            ),
            spec_accepts(ctx, calls) && codec != 0 <==> r.is_ok(),
            r.is_ok() ==> {
                &&& r.unwrap().ready()
                &&& r.unwrap().handle() == codec
                &&& r.unwrap().table() == calls
                &&& r.unwrap().context() == ctx
                &&& r.unwrap().output().len() == 0
            },
    {
        if !ctx.d.valid() || calls.vendor != ctx.f.driver.vendor() {
            return Err(CodecError::InvalidConfiguration);
        }
        if codec == 0 {
            return Err(CodecError::BackendUnavailable);
        }
        Ok(Encoder { calls, codec, frames: Vec::new(), ctx })
    }

    /// Opens an encoder bound to its driver's table from what the native
    /// create call returned for `ctx`. For a valid context the result is a
    /// ready encoder or `BackendUnavailable`, nothing else.
    pub fn new(ctx: EncodeContext, codec: usize) -> (r: Result<Encoder, CodecError>)
        ensures
            !ctx.d.spec_valid() <==> r == Err::<Encoder, CodecError>(
                CodecError::InvalidConfiguration,
            ),
            ctx.d.spec_valid() && codec == 0 <==> r == Err::<Encoder, CodecError>(
                CodecError::BackendUnavailable,
            ),
            ctx.d.spec_valid() && codec != 0 <==> r.is_ok(),
            r.is_ok() ==> {
                &&& r.unwrap().ready()
                &&& r.unwrap().handle() == codec
                &&& r.unwrap().table() == spec_encode_calls(ctx.f.driver)
                &&& r.unwrap().context() == ctx
                &&& r.unwrap().output().len() == 0
            },
    {
        let calls = encode_calls(ctx.f.driver);
        Encoder::bind(ctx, calls, codec)
    }

    /// The native handle to pass to the encode call. There is no encoder that is
    /// not open: whoever holds one holds a live handle.
    pub fn codec(&self) -> (h: usize)
        ensures
            h == self.handle(),
            self.ready(),
    {
        proof {
            use_type_invariant(self);
        }
        self.codec
    }

    /// The call table to route native calls through.
    pub fn calls(&self) -> (c: EncodeCalls)
        ensures
            c == self.table(),
    {
        self.calls
    }

    /// The context this encoder runs with.
    pub fn ctx(&self) -> (c: EncodeContext)
        ensures
            c == self.context(),
    {
        self.ctx
    }

    /// The packets of the latest encode call.
    pub fn frames(&self) -> (f: &Vec<EncodeFrame>)
        ensures
            f@ == self.output(),
    {
        &self.frames
    }

    /// Takes in one native encode call: `ret` is its status and `packets` what
    /// it emitted, in order. The packets of the previous call are discarded.
    /// A negative status fails with that status; the encoder stays open with
    /// the same handle either way.
    pub fn encode(&mut self, ret: i32, packets: Vec<EncodeFrame>) -> (r: Result<
        &Vec<EncodeFrame>,
        CodecError,
    >)
        ensures
            final(self).ready(),
            final(self).handle() == old(self).handle(),
            final(self).table() == old(self).table(),
            final(self).context() == old(self).context(),
            final(self).output() == packets@,
            ret < 0 <==> r == Err::<&Vec<EncodeFrame>, CodecError>(
                CodecError::ProcessingError(ret),
            ),
            ret >= 0 <==> r.is_ok(),
            r.is_ok() ==> r.unwrap()@ == packets@,
    {
        proof {
            use_type_invariant(&*self);
        }
        self.frames = packets;
        if ret < 0 {
            Err(CodecError::ProcessingError(ret))
        } else {
            Ok(&self.frames)
        }
    }

    /// Whether a bitrate update to `kbitrate` is to be forwarded to the
    /// native setter, and if not, why.
    pub fn bitrate_request(&self, kbitrate: i32) -> (r: Result<(), CodecError>)
        ensures
            r == spec_forward(self.table().set_bitrate, kbitrate),
    {
        if !self.calls.set_bitrate {
            Err(CodecError::UnsupportedOperation)
        } else if kbitrate <= 0 {
            Err(CodecError::InvalidConfiguration)
        } else {
            Ok(())
        }
    }

    /// Whether a framerate update to `framerate` is to be forwarded to the
    /// native setter, and if not, why.
    pub fn framerate_request(&self, framerate: i32) -> (r: Result<(), CodecError>)
        ensures
            r == spec_forward(self.table().set_framerate, framerate),
    {
        if !self.calls.set_framerate {
            Err(CodecError::UnsupportedOperation)
        } else if framerate <= 0 {
            Err(CodecError::InvalidConfiguration)
        } else {
            Ok(())
        }
    }

    /// Takes in a live bitrate update. Where the table binds no bitrate
    /// setter the update is unsupported, and a bitrate that is not positive
    /// is refused, whatever `status` holds. Otherwise `status` is what the
    /// native setter returned for `kbitrate`: a negative status fails with it
    /// and changes nothing; any other records the new bitrate and changes
    /// nothing else.
    pub fn update_bitrate(&mut self, kbitrate: i32, status: i32) -> (r: Result<(), CodecError>)
        ensures
            final(self).ready(),
            final(self).handle() == old(self).handle(),
            final(self).table() == old(self).table(),
            final(self).output() == old(self).output(),
            final(self).context().f == old(self).context().f,
            r == spec_update(old(self).table().set_bitrate, kbitrate, status),
            final(self).context().d == if r.is_ok() {
                (DynamicContext { kbitrate, ..old(self).context().d })
            } else {
                old(self).context().d
            },
    {
        proof {
            use_type_invariant(&*self);
        }
        if !self.calls.set_bitrate {
            return Err(CodecError::UnsupportedOperation);
        }
        if kbitrate <= 0 {
            return Err(CodecError::InvalidConfiguration);
        }
        if status < 0 {
            return Err(CodecError::ProcessingError(status));
        }
        self.ctx.d.kbitrate = kbitrate;
        Ok(())
    }

    /// Takes in a live framerate update, in the same way as a bitrate update.
    pub fn update_framerate(&mut self, framerate: i32, status: i32) -> (r: Result<(), CodecError>)
        ensures
            final(self).ready(),
            final(self).handle() == old(self).handle(),
            final(self).table() == old(self).table(),
            final(self).output() == old(self).output(),
            final(self).context().f == old(self).context().f,
            r == spec_update(old(self).table().set_framerate, framerate, status),
            final(self).context().d == if r.is_ok() {
                (DynamicContext { framerate, ..old(self).context().d })
            } else {
                old(self).context().d
            },
    {
        proof {
            use_type_invariant(&*self);
        }
        if !self.calls.set_framerate {
            return Err(CodecError::UnsupportedOperation);
        }
        if framerate <= 0 {
            return Err(CodecError::InvalidConfiguration);
        }
        if status < 0 {
            return Err(CodecError::ProcessingError(status));
        }
        self.ctx.d.framerate = framerate;
        Ok(())
    }

    /// Closes the encoder and hands back the table and the handle for the one
    /// native destroy call. The encoder is consumed, so no second call can
    /// follow.
    pub fn destroy(self) -> (r: (EncodeCalls, usize))
        ensures
            r.0 == self.table(),
            r.1 == self.handle(),
            r.1 != 0,
    {
        proof {
            use_type_invariant(&self);
        }
        (self.calls, self.codec)
    }
}

} // verus!
