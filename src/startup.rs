//! The plan of the server's startup: the limits handed to the runtime and
//! the steps taken, in order, before the server runs.

use vstd::prelude::*;
use vstd::string::StringExecFns;
use crate::config::{copy_text, ServerConfig, ServerConfigView};
use crate::decimal::{decimal_text, push_decimal};

verus! {

/// One step of the startup. Every step but `Run` may fail, and a failure
/// ends the startup.
#[derive(Clone, Debug)]
pub enum Step {
    /// Read the certificate chain and the private key from these files.
    LoadTls { cert_file: String, key_file: String },
    /// Bind the plaintext listener.
    BindPlain { address: String },
    /// Bind the TLS listener with the material loaded before.
    BindTls { address: String },
    /// Serve until the process is stopped.
    Run,
}

pub ghost enum StepView {
    LoadTls { cert_file: Seq<char>, key_file: Seq<char> },
    BindPlain { address: Seq<char> },
    BindTls { address: Seq<char> },
    Run,
}

impl View for Step {
    type V = StepView;

    open spec fn view(&self) -> StepView {
        match self {
            Step::LoadTls { cert_file, key_file } => StepView::LoadTls {
                cert_file: cert_file@,
                key_file: key_file@,
            },
            Step::BindPlain { address } => StepView::BindPlain { address: address@ },
            Step::BindTls { address } => StepView::BindTls { address: address@ },
            Step::Run => StepView::Run,
        }
    }
}

/// The limits handed to the runtime, where there is one, and the steps of
/// the startup.
#[derive(Clone, Debug)]
pub struct StartupPlan {
    pub workers: Option<usize>,
    pub max_connections: Option<usize>,
    pub steps: Vec<Step>,
}

impl StartupPlan {
    pub open spec fn step_views(&self) -> Seq<StepView> {
        self.steps@.map_values(|s: Step| s@)
    }
}

/// The address `ip:port` that a listener binds.
pub open spec fn address_of(ip: Seq<char>, port: u16) -> Seq<char> {
    ip + seq![':'] + decimal_text(port as nat)
}

/// A capacity setting as handed to the runtime: zero leaves the runtime's
/// own default in place.
pub open spec fn limit_of(n: usize) -> Option<usize> {
    if n > 0 {
        Some(n)
    } else {
        None
    }
}

pub open spec fn is_bind(s: StepView) -> bool {
    s is BindPlain || s is BindTls
}

/// The steps of the startup: with an HTTPS port, the TLS material is loaded
/// first, then the plaintext and the TLS listener are bound; without one,
/// only the plaintext listener is bound.
pub open spec fn planned_steps(c: ServerConfigView) -> Seq<StepView> {
    let plain = StepView::BindPlain { address: address_of(c.server_ip, c.http_port) };
    if c.https_port == 0 {
        seq![plain, StepView::Run]
    } else {
        seq![
            StepView::LoadTls { cert_file: c.cert_file, key_file: c.key_file },
            plain,
            StepView::BindTls { address: address_of(c.server_ip, c.https_port) },
            StepView::Run,
        ]
    }
}

/// Writes the address `ip:port`.
pub fn listen_address(ip: &String, port: u16) -> (r: String)
    ensures
        r@ == address_of(ip@, port),
{
    let mut out = copy_text(ip);
    out.append(":");
    proof {
        reveal_strlit(":");
    }
    push_decimal(&mut out, port);
    out
}

fn limit(n: usize) -> (r: Option<usize>)
    ensures
        r == limit_of(n),
{
    if n > 0 {
        Some(n)
    } else {
        None
    }
}

/// Plans the startup of a server with configuration `c`.
pub fn plan_startup(c: &ServerConfig) -> (r: StartupPlan)
    ensures
        r.workers == limit_of(c.workers),
        r.max_connections == limit_of(c.max_connections),
        r.step_views() == planned_steps(c@),
{
    let mut steps: Vec<Step> = Vec::new();
    if c.https_port != 0 {
        steps.push(Step::LoadTls { cert_file: copy_text(&c.cert_file), key_file: copy_text(&c.key_file) });
    }
    steps.push(Step::BindPlain { address: listen_address(&c.server_ip, c.http_port) });
    if c.https_port != 0 {
        steps.push(Step::BindTls { address: listen_address(&c.server_ip, c.https_port) });
    }
    steps.push(Step::Run);
    let r = StartupPlan { workers: limit(c.workers), max_connections: limit(c.max_connections), steps };
    assert(r.step_views() =~= planned_steps(c@));
    r
}

/// Without an HTTPS port no TLS file is read and no TLS listener is bound.
pub proof fn no_tls_without_https_port(c: ServerConfigView)
    requires
        c.https_port == 0,
    ensures
        forall|i: int|
            0 <= i < planned_steps(c).len() ==> !(#[trigger] planned_steps(c)[i] is LoadTls)
                && !(planned_steps(c)[i] is BindTls),
{
}

/// The TLS material, where it is loaded, is loaded before any listener is
/// bound, so that a failure to load it leaves no listener behind; and with
/// an HTTPS port it is loaded.
pub proof fn tls_loaded_before_any_bind(c: ServerConfigView)
    ensures
        forall|i: int, j: int|
            0 <= i < planned_steps(c).len() && 0 <= j < planned_steps(c).len()
                && #[trigger] planned_steps(c)[i] is LoadTls && is_bind(#[trigger] planned_steps(c)[j])
                ==> i < j,
        c.https_port != 0 ==> planned_steps(c)[0] is LoadTls,
{
}

/// A capacity of zero is never handed to the runtime: it stands for the
/// runtime's default, and any other value is handed on as it is.
pub proof fn zero_capacity_means_default(n: usize)
    ensures
        n == 0 ==> limit_of(n) is None,
        n > 0 ==> limit_of(n) == Some(n),
        limit_of(n) matches Some(v) ==> v > 0,
{
}

} // verus!
