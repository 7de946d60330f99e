//! The flat form in which a sandbox policy crosses to the engine: for each
//! list, either no table at all or a table of its entries with their count.
use vstd::prelude::*;
use crate::wasi_context::{WasiCtx, WasiCtxView};

verus! {

/// How one list of a sandbox policy is handed to the engine.
#[derive(Debug, Clone, Copy, PartialEq, Eq)]
pub enum ListArg {
    /// An empty list: a null table and a count of zero.
    Null,
    /// A table of the list's entries, in order, with their count (never zero).
    Table(u32),
}

/// The form in which a list of `n` entries is handed to the engine.
pub open spec fn list_arg(n: nat) -> ListArg {
    if n == 0 {
        ListArg::Null
    } else {
        ListArg::Table(n as u32)
    }
}

impl ListArg {
    /// The count that goes with the table.
    pub open spec fn spec_count(self) -> nat {
        match self {
            ListArg::Null => 0,
            ListArg::Table(n) => n as nat,
        }
    }

    /// The count that goes with the table: zero for a null one.
    pub fn count(&self) -> (r: u32)
        ensures
            r == self.spec_count(),
    {
        match self {
            ListArg::Null => 0,
            ListArg::Table(n) => *n,
        }
    }

    /// Whether the table is null.
    pub fn is_null(&self) -> (r: bool)
        ensures
            r == (self is Null),
    {
        match self {
            ListArg::Null => true,
            ListArg::Table(_) => false,
        }
    }
}

/// How each list of a sandbox policy is handed to the engine.
#[derive(Debug, Clone, Copy, PartialEq, Eq)]
pub struct WasiArgs {
    pub real_paths: ListArg,
    pub mapped_paths: ListArg,
    pub env_vars: ListArg,
    pub arguments: ListArg,
    pub allowed_dns: ListArg,
    pub allowed_address: ListArg,
}

/// The flat form of policy `v`.
pub open spec fn flat_args(v: WasiCtxView) -> WasiArgs {
    WasiArgs {
        real_paths: list_arg(v.real_paths.len()),
        mapped_paths: list_arg(v.mapped_paths.len()),
        env_vars: list_arg(v.env_vars.len()),
        arguments: list_arg(v.arguments.len()),
        allowed_dns: list_arg(v.allowed_dns.len()),
        allowed_address: list_arg(v.allowed_address.len()),
    }
}

/// Policy `v` is well formed and each of its counts fits the engine's
/// parameter: an unsigned 32-bit count for every list but the arguments,
/// whose count is a signed 32-bit one.
pub open spec fn fits_boundary(v: WasiCtxView) -> bool {
    &&& v.wf()
    &&& v.real_paths.len() <= u32::MAX
    &&& v.mapped_paths.len() <= u32::MAX
    &&& v.env_vars.len() <= u32::MAX
    &&& v.arguments.len() <= i32::MAX
    &&& v.allowed_dns.len() <= u32::MAX
    &&& v.allowed_address.len() <= u32::MAX
}

/// A list handed to the engine has a null table exactly when it is empty,
/// and its count is always the number of its entries.
pub proof fn lemma_list_arg(n: nat)
    requires
        n <= u32::MAX,
    ensures
        list_arg(n) is Null <==> n == 0,
        list_arg(n).spec_count() == n,
{
}

/// The form in which a list of `len` entries is handed to the engine.
fn list_arg_of(len: usize) -> (r: ListArg)
    requires
        len <= u32::MAX,
    ensures
        r == list_arg(len as nat),
{
    if len == 0 {
        ListArg::Null
    } else {
        ListArg::Table(len as u32)
    }
}

impl WasiCtx {
    /// Whether this policy can be handed to the engine.
    pub fn fits_boundary(&self) -> (r: bool)
        ensures
            r == fits_boundary(self@),
    {
        let n_real: usize = self.get_preopen_real_paths().len();
        let n_mapped: usize = self.get_preopen_mapped_paths().len();
        n_real == n_mapped && n_real <= u32::MAX as usize && n_mapped <= u32::MAX as usize
            && self.get_env_vars().len() <= u32::MAX as usize
            && self.get_arguments().len() <= i32::MAX as usize
            && self.get_allowed_dns().len() <= u32::MAX as usize
            && self.get_allowed_address().len() <= u32::MAX as usize
    }

    /// The flat form of this policy: each empty list as a null table, each
    /// other one as a table with the number of its entries.
    pub fn flatten(&self) -> (r: WasiArgs)
        requires
            fits_boundary(self@),
        ensures
            r == flat_args(self@),
    {
        WasiArgs {
            real_paths: list_arg_of(self.get_preopen_real_paths().len()),
            mapped_paths: list_arg_of(self.get_preopen_mapped_paths().len()),
            env_vars: list_arg_of(self.get_env_vars().len()),
            arguments: list_arg_of(self.get_arguments().len()),
            allowed_dns: list_arg_of(self.get_allowed_dns().len()),
            allowed_address: list_arg_of(self.get_allowed_address().len()),
        }
    }
}

} // verus!
