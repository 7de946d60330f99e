//! A compiled module: the engine's handle, the bytecode it was compiled from,
//! and the sandbox policy attached to it.
//!
//! The engine may keep references into the bytecode rather than copy it, so
//! the bytes are owned here for as long as the handle is, and are never
//! changed or handed out for change. Whoever releases the handle does so once,
//! before the bytes are dropped.
use vstd::prelude::*;
use crate::boundary::{flat_args, fits_boundary, WasiArgs};
use crate::error::RuntimeError;
use crate::helper::{compilation_error, failure_message};
use crate::wasi_context::{WasiCtx, WasiCtxView};

verus! {

/// A module that the engine has compiled, with handle type `H`.
#[derive(Debug)]
pub struct Module<H> {
    module: H,
    content: Vec<u8>,
    wasi_ctx: WasiCtx,
}

/// `r` is what compiling `content` gives when the engine hands back `loaded`
/// and leaves `error_buf` in its diagnostic buffer: a module holding the
/// handle, the bytes and the empty policy, or the engine's rejection.
pub open spec fn load_result<H>(
    content: Seq<u8>,
    loaded: Option<H>,
    error_buf: Seq<u8>,
    r: Result<Module<H>, RuntimeError>,
) -> bool {
    match loaded {
        Some(h) => r is Ok && r->Ok_0.handle() == h && r->Ok_0.content() == content
            && r->Ok_0.policy() == WasiCtxView::empty(),
        None => r is Err && r->Err_0 is CompilationError && r->Err_0->CompilationError_0@
            == failure_message(error_buf),
    }
}

impl<H> Module<H> {
    /// The engine's handle to the compiled module.
    pub closed spec fn handle(&self) -> H {
        self.module
    }

    /// The bytecode the module was compiled from.
    pub closed spec fn content(&self) -> Seq<u8> {
        self.content@
    }

    /// The sandbox policy attached to the module.
    pub closed spec fn policy(&self) -> WasiCtxView {
        self.wasi_ctx@
    }

    /// `after` is this module with policy `ctx` attached in place of its own:
    /// the same handle and the same bytes.
    pub open spec fn reattached(&self, ctx: WasiCtxView, after: Module<H>) -> bool {
        &&& after.handle() == self.handle()
        &&& after.content() == self.content()
        &&& after.policy() == ctx
    }

    /// Builds the module from the bytes that were handed to the engine and
    /// what the engine returned: `loaded` is the handle, or nothing when it
    /// rejected the bytes and wrote its diagnostic into `error_buf`.
    pub fn from_buf(content: Vec<u8>, loaded: Option<H>, error_buf: &[u8]) -> (r: Result<
        Module<H>,
        RuntimeError,
    >)
        ensures
            load_result(content@, loaded, error_buf@, r),
            loaded is None ==> r->Err_0->CompilationError_0@.len() > 0,
    {
        match loaded {
            Some(module) => Ok(Module { module, content, wasi_ctx: WasiCtx::new() }),
            None => Err(compilation_error(error_buf)),
        }
    }

    /// Builds the module from the outcome of reading a file and what the
    /// engine returned for the bytes read. A failed read is reported as a
    /// file error carrying the system's description, whatever `loaded` is;
    /// otherwise this is `from_buf` on the bytes read.
    pub fn from_file(read: Result<Vec<u8>, String>, loaded: Option<H>, error_buf: &[u8]) -> (r:
        Result<Module<H>, RuntimeError>)
        ensures
            match read {
                Err(e) => r is Err && r->Err_0 is WasmFileFSError && r->Err_0->WasmFileFSError_0@
                    == e@,
                Ok(content) => load_result(content@, loaded, error_buf@, r) && (loaded is None
                    ==> r->Err_0->CompilationError_0@.len() > 0),
            },
    {
        match read {
            Err(e) => Err(RuntimeError::WasmFileFSError(e)),
            Ok(content) => Module::from_buf(content, loaded, error_buf),
        }
    }

    /// Attaches `wasi_ctx` in place of the current policy and returns the
    /// flat form in which it is to be handed to the engine for this module's
    /// handle. This must happen before any instance is made from the module.
    pub fn set_wasi_context(&mut self, wasi_ctx: WasiCtx) -> (r: WasiArgs)
        requires
            fits_boundary(wasi_ctx@),
        ensures
            old(self).reattached(wasi_ctx@, *final(self)),
            r == flat_args(wasi_ctx@),
    {
        let r = wasi_ctx.flatten();
        self.wasi_ctx = wasi_ctx;
        r
    }

    /// The engine's handle to the compiled module.
    pub fn get_inner_module(&self) -> (r: &H)
        ensures
            *r == self.handle(),
    {
        &self.module
    }

    /// The bytecode the module was compiled from.
    pub fn get_content(&self) -> (r: &Vec<u8>)
        ensures
            r@ == self.content(),
    {
        &self.content
    }

    /// The sandbox policy attached to the module.
    pub fn get_wasi_context(&self) -> (r: &WasiCtx)
        ensures
            r@ == self.policy(),
    {
        &self.wasi_ctx
    }
}

/// Attaching two policies in turn leaves only the second in effect: the
/// module then holds the second policy, still the one handle it was compiled
/// with, and the same bytes, and the second attachment hands the engine the
/// flat form of the second policy alone.
pub proof fn lemma_last_policy_wins<H>(
    m0: Module<H>,
    a: WasiCtxView,
    m1: Module<H>,
    b: WasiCtxView,
    m2: Module<H>,
    pushed: WasiArgs,
)
    requires
        m0.reattached(a, m1),
        m1.reattached(b, m2),
        pushed == flat_args(b),
    ensures
        m2.policy() == b,
        m2.handle() == m0.handle(),
        m2.content() == m0.content(),
        m0.reattached(b, m2),
        pushed == flat_args(m2.policy()),
{
}

} // verus!
