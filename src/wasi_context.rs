//! The sandbox policy: directories, environment, arguments and network
//! allow-lists granted to instances of a module, and the builder that
//! assembles it.
use vstd::prelude::*;

verus! {

/// The text of each string of `v`.
pub open spec fn strs(v: Seq<String>) -> Seq<Seq<char>> {
    v.map_values(|s: String| s@)
}

/// The text of each string slice of `v`.
pub open spec fn str_views(v: Seq<&str>) -> Seq<Seq<char>> {
    v.map_values(|s: &str| s@)
}

/// The aliases given to preopened directories `reals`: the alias at the same
/// position of `mapped` where there is one, the real path itself otherwise.
pub open spec fn aliases(reals: Seq<Seq<char>>, mapped: Seq<Seq<char>>) -> Seq<Seq<char>> {
    Seq::new(reals.len(), |i: int| if i < mapped.len() { mapped[i] } else { reals[i] })
}

/// A sandbox policy seen as lists of texts.
pub struct WasiCtxView {
    /// Real paths of the preopened directories.
    pub real_paths: Seq<Seq<char>>,
    /// Paths under which the sandbox sees them, position by position.
    pub mapped_paths: Seq<Seq<char>>,
    /// Environment assignments.
    pub env_vars: Seq<Seq<char>>,
    /// Program arguments.
    pub arguments: Seq<Seq<char>>,
    /// Names that may be looked up.
    pub allowed_dns: Seq<Seq<char>>,
    /// Network addresses that may be reached.
    pub allowed_address: Seq<Seq<char>>,
}

impl WasiCtxView {
    /// Real and alias paths are paired position by position.
    pub open spec fn wf(self) -> bool {
        self.real_paths.len() == self.mapped_paths.len()
    }

    /// The policy that grants nothing.
    pub open spec fn empty() -> WasiCtxView {
        WasiCtxView {
            real_paths: Seq::empty(),
            mapped_paths: Seq::empty(),
            env_vars: Seq::empty(),
            arguments: Seq::empty(),
            allowed_dns: Seq::empty(),
            allowed_address: Seq::empty(),
        }
    }
}

/// Copies each string slice of `v` into an owned string.
fn to_strings(v: &Vec<&str>) -> (r: Vec<String>)
    ensures
        strs(r@) == str_views(v@),
{
    let mut r: Vec<String> = Vec::new();
    let mut i: usize = 0;
    while i < v.len()
        invariant
            0 <= i <= v@.len(),
            r@.len() == i,
            forall|j: int| 0 <= j < i ==> (#[trigger] r@[j])@ == v@[j]@,
        decreases v@.len() - i,
    {
        let s: String = v[i].to_owned();
        r.push(s);
        i = i + 1;
    }
    assert(strs(r@) =~= str_views(v@));
    r
}

/// A finished sandbox policy. It is not changed once built, and may be
/// attached to any number of modules.
#[derive(Debug, Clone)]
pub struct WasiCtx {
    pre_open_real_paths: Vec<String>,
    pre_open_mapped_paths: Vec<String>,
    env_vars: Vec<String>,
    arguments: Vec<String>,
    allowed_dns: Vec<String>,
    allowed_address: Vec<String>,
}

impl View for WasiCtx {
    type V = WasiCtxView;

    closed spec fn view(&self) -> WasiCtxView {
        WasiCtxView {
            real_paths: strs(self.pre_open_real_paths@),
            mapped_paths: strs(self.pre_open_mapped_paths@),
            env_vars: strs(self.env_vars@),
            arguments: strs(self.arguments@),
            allowed_dns: strs(self.allowed_dns@),
            allowed_address: strs(self.allowed_address@),
        }
    }
}

impl WasiCtx {
    /// The policy that grants nothing.
    pub fn new() -> (r: WasiCtx)
        ensures
            r@ == WasiCtxView::empty(),
            r@.wf(),
    {
        let r = WasiCtx {
            pre_open_real_paths: Vec::new(),
            pre_open_mapped_paths: Vec::new(),
            env_vars: Vec::new(),
            arguments: Vec::new(),
            allowed_dns: Vec::new(),
            allowed_address: Vec::new(),
        };
        assert(r@.real_paths =~= Seq::empty());
        assert(r@.mapped_paths =~= Seq::empty());
        assert(r@.env_vars =~= Seq::empty());
        assert(r@.arguments =~= Seq::empty());
        assert(r@.allowed_dns =~= Seq::empty());
        assert(r@.allowed_address =~= Seq::empty());
        r
    }

    /// Real paths of the preopened directories.
    pub fn get_preopen_real_paths(&self) -> (r: &Vec<String>)
        ensures
            strs(r@) == self@.real_paths,
    {
        &self.pre_open_real_paths
    }

    /// Alias paths of the preopened directories, paired with the real ones.
    pub fn get_preopen_mapped_paths(&self) -> (r: &Vec<String>)
        ensures
            strs(r@) == self@.mapped_paths,
    {
        &self.pre_open_mapped_paths
    }

    /// Environment assignments.
    pub fn get_env_vars(&self) -> (r: &Vec<String>)
        ensures
            strs(r@) == self@.env_vars,
    {
        &self.env_vars
    }

    /// Program arguments.
    pub fn get_arguments(&self) -> (r: &Vec<String>)
        ensures
            strs(r@) == self@.arguments,
    {
        &self.arguments
    }

    /// Names that may be looked up.
    pub fn get_allowed_dns(&self) -> (r: &Vec<String>)
        ensures
            strs(r@) == self@.allowed_dns,
    {
        &self.allowed_dns
    }

    /// Network addresses that may be reached.
    pub fn get_allowed_address(&self) -> (r: &Vec<String>)
        ensures
            strs(r@) == self@.allowed_address,
    {
        &self.allowed_address
    }
}

impl Default for WasiCtx {
    fn default() -> (r: WasiCtx)
        ensures
            r@ == WasiCtxView::empty(),
    {
        WasiCtx::new()
    }
}

/// Assembles a sandbox policy. Preopened directories accumulate; each of the
/// other lists is replaced whole by its setter.
#[derive(Debug)]
pub struct WasiCtxBuilder {
    wasi_ctx: WasiCtx,
}

impl View for WasiCtxBuilder {
    type V = WasiCtxView;

    closed spec fn view(&self) -> WasiCtxView {
        self.wasi_ctx@
    }
}

impl WasiCtxBuilder {
    /// A builder of the policy that grants nothing.
    pub fn new() -> (r: WasiCtxBuilder)
        ensures
            r@ == WasiCtxView::empty(),
            r@.wf(),
    {
        WasiCtxBuilder { wasi_ctx: WasiCtx::new() }
    }

    /// Appends one preopened directory `real_path`, seen in the sandbox as
    /// `alias_path`, or under its real path when no alias is given.
    pub fn add_preopen(self, real_path: &str, alias_path: Option<&str>) -> (r: WasiCtxBuilder)
        requires
            self@.wf(),
        ensures
            r@.wf(),
            r@ == (WasiCtxView {
                real_paths: self@.real_paths.push(real_path@),
                mapped_paths: self@.mapped_paths.push(
                    match alias_path {
                        Some(a) => a@,
                        None => real_path@,
                    },
                ),
                ..self@
            }),
    {
        let mut ctx = self.wasi_ctx;
        let alias: String = match alias_path {
            Some(a) => a.to_owned(),
            None => real_path.to_owned(),
        };
        ctx.pre_open_real_paths.push(real_path.to_owned());
        ctx.pre_open_mapped_paths.push(alias);
        let r = WasiCtxBuilder { wasi_ctx: ctx };
        assert(r@.real_paths =~= self@.real_paths.push(real_path@));
        assert(r@.mapped_paths =~= self@.mapped_paths.push(
            match alias_path {
                Some(a) => a@,
                None => real_path@,
            },
        ));
        r
    }

    /// Appends the preopened directories `pre_open_path`, in order. The one at
    /// position `i` is seen in the sandbox as `mapped_path[i]` where that
    /// exists, and under its real path otherwise; aliases beyond the last
    /// directory are not used.
    pub fn set_pre_open_path(self, pre_open_path: Vec<&str>, mapped_path: Vec<&str>) -> (r:
        WasiCtxBuilder)
        requires
            self@.wf(),
        ensures
            r@.wf(),
            r@ == (WasiCtxView {
                real_paths: self@.real_paths + str_views(pre_open_path@),
                mapped_paths: self@.mapped_paths + aliases(
                    str_views(pre_open_path@),
                    str_views(mapped_path@),
                ),
                ..self@
            }),
    {
        let mut ctx = self.wasi_ctx;
        let ghost old_real = ctx.pre_open_real_paths@;
        let ghost old_mapped = ctx.pre_open_mapped_paths@;
        let ghost reals = str_views(pre_open_path@);
        let ghost maps = aliases(reals, str_views(mapped_path@));
        let mut i: usize = 0;
        while i < pre_open_path.len()
            invariant
                0 <= i <= pre_open_path@.len(),
                old_real.len() == old_mapped.len(),
                reals == str_views(pre_open_path@),
                maps == aliases(reals, str_views(mapped_path@)),
                ctx.pre_open_real_paths@.len() == old_real.len() + i,
                ctx.pre_open_mapped_paths@.len() == old_mapped.len() + i,
                forall|j: int|
                    0 <= j < old_real.len() ==> #[trigger] ctx.pre_open_real_paths@[j]
                        == old_real[j],
                forall|j: int|
                    0 <= j < old_mapped.len() ==> #[trigger] ctx.pre_open_mapped_paths@[j]
                        == old_mapped[j],
                forall|j: int|
                    0 <= j < i ==> (#[trigger] ctx.pre_open_real_paths@[old_real.len() + j])@
                        == reals[j],
                forall|j: int|
                    0 <= j < i ==> (#[trigger] ctx.pre_open_mapped_paths@[old_mapped.len()
                        + j])@ == maps[j],
                ctx.env_vars@ == self.wasi_ctx.env_vars@,
                ctx.arguments@ == self.wasi_ctx.arguments@,
                ctx.allowed_dns@ == self.wasi_ctx.allowed_dns@,
                ctx.allowed_address@ == self.wasi_ctx.allowed_address@,
            decreases pre_open_path@.len() - i,
        {
            let path: &str = pre_open_path[i];
            let alias: String = if i < mapped_path.len() {
                mapped_path[i].to_owned()
            } else {
                path.to_owned()
            };
            ctx.pre_open_real_paths.push(path.to_owned());
            ctx.pre_open_mapped_paths.push(alias);
            i = i + 1;
        }
        assert(strs(ctx.pre_open_real_paths@) =~= self@.real_paths + reals) by {
            assert forall|j: int| 0 <= j < old_real.len() + reals.len() implies #[trigger] strs(
                ctx.pre_open_real_paths@,
            )[j] == (self@.real_paths + reals)[j] by {
                if j >= old_real.len() {
                    let k = j - old_real.len();
                    assert(ctx.pre_open_real_paths@[old_real.len() + k]@ == reals[k]);
                }
            }
        }
        assert(strs(ctx.pre_open_mapped_paths@) =~= self@.mapped_paths + maps) by {
            assert forall|j: int| 0 <= j < old_mapped.len() + maps.len() implies #[trigger] strs(
                ctx.pre_open_mapped_paths@,
            )[j] == (self@.mapped_paths + maps)[j] by {
                if j >= old_mapped.len() {
                    let k = j - old_mapped.len();
                    assert(ctx.pre_open_mapped_paths@[old_mapped.len() + k]@ == maps[k]);
                }
            }
        }
        let r = WasiCtxBuilder { wasi_ctx: ctx };
        r
    }

    /// Replaces the environment assignments with `envs`.
    pub fn set_env_vars(self, envs: Vec<&str>) -> (r: WasiCtxBuilder)
        requires
            self@.wf(),
        ensures
            r@.wf(),
            r@ == (WasiCtxView { env_vars: str_views(envs@), ..self@ }),
    {
        let mut ctx = self.wasi_ctx;
        ctx.env_vars = to_strings(&envs);
        WasiCtxBuilder { wasi_ctx: ctx }
    }

    /// Replaces the program arguments with `args`.
    pub fn set_arguments(self, args: Vec<&str>) -> (r: WasiCtxBuilder)
        requires
            self@.wf(),
        ensures
            r@.wf(),
            r@ == (WasiCtxView { arguments: str_views(args@), ..self@ }),
    {
        let mut ctx = self.wasi_ctx;
        ctx.arguments = to_strings(&args);
        WasiCtxBuilder { wasi_ctx: ctx }
    }

    /// Replaces the names that may be looked up with `dns`.
    pub fn set_allowed_dns(self, dns: Vec<&str>) -> (r: WasiCtxBuilder)
        requires
            self@.wf(),
        ensures
            r@.wf(),
            r@ == (WasiCtxView { allowed_dns: str_views(dns@), ..self@ }),
    {
        let mut ctx = self.wasi_ctx;
        ctx.allowed_dns = to_strings(&dns);
        WasiCtxBuilder { wasi_ctx: ctx }
    }

    /// Replaces the network addresses that may be reached with `addresses`.
    pub fn set_allowed_address(self, addresses: Vec<&str>) -> (r: WasiCtxBuilder)
        requires
            self@.wf(),
        ensures
            r@.wf(),
            r@ == (WasiCtxView { allowed_address: str_views(addresses@), ..self@ }),
    {
        let mut ctx = self.wasi_ctx;
        ctx.allowed_address = to_strings(&addresses);
        WasiCtxBuilder { wasi_ctx: ctx }
    }

    /// The finished policy.
    pub fn build(self) -> (r: WasiCtx)
        requires
            self@.wf(),
        ensures
            r@ == self@,
            r@.wf(),
    {
        self.wasi_ctx
    }
}

} // verus!
