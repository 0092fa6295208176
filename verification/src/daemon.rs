//! The listener registry: unifying inherited sockets and configured
//! addresses into capability-tagged listener descriptors.
//!
//! One accept loop per planned listener and one task per accepted connection
//! run outside this crate; what is verified here is the plan those loops are
//! started from — which listener is created from what, and with which
//! capability profile — and that the control capability is granted exactly
//! to Unix-domain listeners.

pub mod service;

use vstd::prelude::*;

use crate::config::Listen;
use crate::config::ListenView;
use crate::config::address::SocketAddress;
use crate::config::address::UnixSocket;
use crate::config::address::UnixSocketView;
use crate::daemon::service::ServiceConfig;
use crate::io::SocketFormat;
use crate::io::SystemdError;
use crate::io::SystemdErrorView;
use crate::io::SystemdSocket;
use crate::io::SystemdSocketView;
use crate::io::SystemdSocketType;
use crate::text::str_eq;

verus! {

broadcast use vstd::string::group_string_axioms;

/// What one planned listener is made from.
#[derive(Debug, Clone)]
pub enum ListenerBinding {
    /// An inherited, already-listening Unix-domain socket.
    InheritedUnix { fd: i32 },
    /// An inherited, already-listening TCP socket.
    InheritedTcp { fd: i32 },
    /// A TCP address from the configuration, still to be bound.
    BindTcp { addr: SocketAddress },
    /// A Unix-domain socket address from the configuration, still to be
    /// bound.
    BindUnix { socket: UnixSocket },
}

pub enum ListenerBindingView {
    InheritedUnix { fd: i32 },
    InheritedTcp { fd: i32 },
    BindTcp { addr: SocketAddress },
    BindUnix { socket: UnixSocketView },
}

impl View for ListenerBinding {
    type V = ListenerBindingView;

    open spec fn view(&self) -> ListenerBindingView {
        match self {
            ListenerBinding::InheritedUnix { fd } => ListenerBindingView::InheritedUnix {
                fd: *fd,
            },
            ListenerBinding::InheritedTcp { fd } => ListenerBindingView::InheritedTcp { fd: *fd },
            ListenerBinding::BindTcp { addr } => ListenerBindingView::BindTcp { addr: *addr },
            ListenerBinding::BindUnix { socket } => ListenerBindingView::BindUnix {
                socket: socket@,
            },
        }
    }
}

/// One listener the accept engine will run: what to make it from, and the
/// capability profile fixed for its whole lifetime.
#[derive(Debug, Clone)]
pub struct PlannedListener {
    pub binding: ListenerBinding,
    pub profile: ServiceConfig,
}

pub struct PlannedListenerView {
    pub binding: ListenerBindingView,
    pub profile: ServiceConfig,
}

impl View for PlannedListener {
    type V = PlannedListenerView;

    open spec fn view(&self) -> PlannedListenerView {
        PlannedListenerView { binding: self.binding@, profile: self.profile }
    }
}

impl DeepView for PlannedListener {
    type V = PlannedListenerView;

    open spec fn deep_view(&self) -> PlannedListenerView {
        self.view()
    }
}

/// The listener one inherited socket becomes: an already-listening stream
/// socket of the Unix family gets the control-capable plaintext profile; an
/// already-listening stream socket of the internet family serves HTTPS when
/// the supervisor named it `https` and HTTP otherwise. A socket of any other
/// kind, a datagram socket, or a stream socket not yet listening is a fatal
/// error.
pub open spec fn spec_plan_socket(s: SystemdSocketView) -> Result<
    PlannedListenerView,
    SystemdErrorView,
> {
    if s.ty == SystemdSocketType::Unix {
        if s.format == (SocketFormat::Stream { listening: true }) {
            Ok(
                PlannedListenerView {
                    binding: ListenerBindingView::InheritedUnix { fd: s.fd },
                    profile: ServiceConfig { tls: false, allow_ctl: true },
                },
            )
        } else {
            Err(SystemdErrorView::UnsupportedSocketFormat)
        }
    } else if s.ty == SystemdSocketType::INet {
        if s.format == (SocketFormat::Stream { listening: true }) {
            Ok(
                PlannedListenerView {
                    binding: ListenerBindingView::InheritedTcp { fd: s.fd },
                    profile: ServiceConfig { tls: s.name == "https"@, allow_ctl: false },
                },
            )
        } else {
            Err(SystemdErrorView::UnsupportedSocketFormat)
        }
    } else {
        Err(SystemdErrorView::UnsupportedSocketType(s.ty))
    }
}

/// Inherited sockets planned in order; the first unusable one aborts with
/// its error.
pub open spec fn spec_plan_inherited(
    acc: Seq<PlannedListenerView>,
    socks: Seq<SystemdSocketView>,
) -> Result<Seq<PlannedListenerView>, SystemdErrorView>
    decreases socks.len(),
{
    if socks.len() == 0 {
        Ok(acc)
    } else {
        match spec_plan_socket(socks[0]) {
            Ok(e) => spec_plan_inherited(acc.push(e), socks.drop_first()),
            Err(er) => Err(er),
        }
    }
}

/// The listeners the configured listen set adds: one to-be-bound TCP
/// listener per HTTP address with the plain profile, one per HTTPS address
/// with the TLS profile, and one to-be-bound Unix-domain listener per
/// configured socket with the control-capable profile.
pub open spec fn spec_plan_configured(listen: ListenView) -> Seq<PlannedListenerView> {
    listen.http.map_values(
        |a: SocketAddress| PlannedListenerView {
            binding: ListenerBindingView::BindTcp { addr: a },
            profile: ServiceConfig { tls: false, allow_ctl: false },
        },
    ) + listen.https.map_values(
        |a: SocketAddress| PlannedListenerView {
            binding: ListenerBindingView::BindTcp { addr: a },
            profile: ServiceConfig { tls: true, allow_ctl: false },
        },
    ) + listen.unix.map_values(
        |u: UnixSocketView| PlannedListenerView {
            binding: ListenerBindingView::BindUnix { socket: u },
            profile: ServiceConfig { tls: false, allow_ctl: true },
        },
    )
}

/// The whole listener plan: the inherited sockets in order, then the
/// configured addresses.
pub open spec fn spec_full_plan(socks: Seq<SystemdSocketView>, listen: ListenView) -> Result<
    Seq<PlannedListenerView>,
    SystemdErrorView,
> {
    match spec_plan_inherited(Seq::empty(), socks) {
        Ok(inh) => Ok(inh + spec_plan_configured(listen)),
        Err(e) => Err(e),
    }
}

/// Plans one inherited socket, as [`spec_plan_socket`] describes.
fn plan_socket(s: &SystemdSocket) -> (r: Result<PlannedListener, SystemdError>)
    ensures
        r matches Ok(e) ==> spec_plan_socket(s@) == Ok::<PlannedListenerView, SystemdErrorView>(
            e@,
        ),
        r matches Err(er) ==> spec_plan_socket(s@) == Err::<PlannedListenerView, SystemdErrorView>(
            er@,
        ),
{
    let listening_stream = matches!(s.format, SocketFormat::Stream { listening: true });
    match s.ty {
        SystemdSocketType::Unix => {
            if listening_stream {
                Ok(
                    PlannedListener {
                        binding: ListenerBinding::InheritedUnix { fd: s.fd },
                        profile: ServiceConfig { tls: false, allow_ctl: true },
                    },
                )
            } else {
                Err(SystemdError::UnsupportedSocketFormat)
            }
        },
        SystemdSocketType::INet => {
            if listening_stream {
                Ok(
                    PlannedListener {
                        binding: ListenerBinding::InheritedTcp { fd: s.fd },
                        profile: ServiceConfig {
                            tls: str_eq(s.name.as_str(), "https"),
                            allow_ctl: false,
                        },
                    },
                )
            } else {
                Err(SystemdError::UnsupportedSocketFormat)
            }
        },
        _ => Err(SystemdError::UnsupportedSocketType(s.ty)),
    }
}

/// Builds the full listener plan from the inherited sockets and the
/// configured listen set, as [`spec_full_plan`] describes.
pub fn build_listener_plan(sockets: &Vec<SystemdSocket>, listen: &Listen) -> (r: Result<
    Vec<PlannedListener>,
    SystemdError,
>)
    ensures
        r matches Ok(plan) ==> spec_full_plan(sockets.deep_view(), listen@) == Ok::<
            Seq<PlannedListenerView>,
            SystemdErrorView,
        >(plan.deep_view()),
        r matches Err(e) ==> spec_full_plan(sockets.deep_view(), listen@) == Err::<
            Seq<PlannedListenerView>,
            SystemdErrorView,
        >(e@),
{
    let ghost socks_dv = sockets.deep_view();
    let mut out: Vec<PlannedListener> = Vec::new();
    proof {
        assert(socks_dv.skip(0) =~= socks_dv);
        assert(out.deep_view() =~= Seq::<PlannedListenerView>::empty());
    }
    let n = sockets.len();
    let mut i: usize = 0;
    while i < n
        invariant
            i <= n,
            n == sockets@.len(),
            socks_dv == sockets.deep_view(),
            socks_dv.len() == n,
            spec_plan_inherited(out.deep_view(), socks_dv.skip(i as int)) == spec_plan_inherited(
                Seq::empty(),
                socks_dv,
            ),
        decreases n - i,
    {
        proof {
            assert(socks_dv.skip(i as int)[0] == socks_dv[i as int]);
            assert(socks_dv[i as int] == sockets@[i as int]@);
            assert(socks_dv.skip(i as int).drop_first() =~= socks_dv.skip(i as int + 1));
        }
        let ghost pre = out.deep_view();
        match plan_socket(&sockets[i]) {
            Ok(e) => {
                out.push(e);
                proof {
                    assert(out.deep_view() =~= pre.push(out@.last()@));
                }
            },
            Err(er) => {
                return Err(er);
            },
        }
        i += 1;
    }
    proof {
        assert(socks_dv.skip(n as int) =~= Seq::<SystemdSocketView>::empty());
    }
    let ghost inherited = out.deep_view();
    let http_profile = ServiceConfig::http();
    let mut j: usize = 0;
    while j < listen.http.len()
        invariant
            j <= listen.http@.len(),
            http_profile == (ServiceConfig { tls: false, allow_ctl: false }),
            out.deep_view() =~= inherited + listen@.http.take(j as int).map_values(
                |a: SocketAddress| PlannedListenerView {
                    binding: ListenerBindingView::BindTcp { addr: a },
                    profile: ServiceConfig { tls: false, allow_ctl: false },
                },
            ),
        decreases listen.http@.len() - j,
    {
        let ghost pre = out.deep_view();
        out.push(
            PlannedListener {
                binding: ListenerBinding::BindTcp { addr: listen.http[j] },
                profile: http_profile,
            },
        );
        proof {
            assert(out.deep_view() =~= pre.push(out@.last()@));
            assert(listen@.http.take(j + 1) =~= listen@.http.take(j as int).push(
                listen@.http[j as int],
            ));
        }
        j += 1;
    }
    proof {
        assert(listen@.http.take(listen.http@.len() as int) =~= listen@.http);
    }
    let ghost with_http = out.deep_view();
    let https_profile = ServiceConfig::https();
    let mut j: usize = 0;
    while j < listen.https.len()
        invariant
            j <= listen.https@.len(),
            https_profile == (ServiceConfig { tls: true, allow_ctl: false }),
            out.deep_view() =~= with_http + listen@.https.take(j as int).map_values(
                |a: SocketAddress| PlannedListenerView {
                    binding: ListenerBindingView::BindTcp { addr: a },
                    profile: ServiceConfig { tls: true, allow_ctl: false },
                },
            ),
        decreases listen.https@.len() - j,
    {
        let ghost pre = out.deep_view();
        out.push(
            PlannedListener {
                binding: ListenerBinding::BindTcp { addr: listen.https[j] },
                profile: https_profile,
            },
        );
        proof {
            assert(out.deep_view() =~= pre.push(out@.last()@));
            assert(listen@.https.take(j + 1) =~= listen@.https.take(j as int).push(
                listen@.https[j as int],
            ));
        }
        j += 1;
    }
    proof {
        assert(listen@.https.take(listen.https@.len() as int) =~= listen@.https);
    }
    let ghost with_https = out.deep_view();
    let unix_profile = ServiceConfig::unix();
    let mut j: usize = 0;
    while j < listen.unix.len()
        invariant
            j <= listen.unix@.len(),
            listen@.unix.len() == listen.unix@.len(),
            forall|k: int| 0 <= k < listen.unix@.len() ==> listen@.unix[k] == listen.unix@[k]@,
            unix_profile == (ServiceConfig { tls: false, allow_ctl: true }),
            out.deep_view() =~= with_https + listen@.unix.take(j as int).map_values(
                |u: UnixSocketView| PlannedListenerView {
                    binding: ListenerBindingView::BindUnix { socket: u },
                    profile: ServiceConfig { tls: false, allow_ctl: true },
                },
            ),
        decreases listen.unix@.len() - j,
    {
        let ghost pre = out.deep_view();
        out.push(
            PlannedListener {
                binding: ListenerBinding::BindUnix { socket: listen.unix[j].duplicate() },
                profile: unix_profile,
            },
        );
        proof {
            assert(out.deep_view() =~= pre.push(out@.last()@));
            assert(listen@.unix.take(j + 1) =~= listen@.unix.take(j as int).push(
                listen@.unix[j as int],
            ));
        }
        j += 1;
    }
    proof {
        assert(listen@.unix.take(listen.unix@.len() as int) =~= listen@.unix);
        assert(out.deep_view() =~= inherited + spec_plan_configured(listen@));
    }
    Ok(out)
}

/// What the control-capability invariant asks of one planned listener: the
/// profile allows control exactly on Unix-domain bindings, and a
/// control-capable listener is never TLS-tagged.
pub open spec fn spec_capability_ok(e: PlannedListenerView) -> bool {
    &&& e.profile.allow_ctl <==> (e.binding is InheritedUnix || e.binding is BindUnix)
    &&& e.profile.allow_ctl ==> !e.profile.tls
}

proof fn lemma_plan_inherited_capabilities(
    acc: Seq<PlannedListenerView>,
    socks: Seq<SystemdSocketView>,
    plan: Seq<PlannedListenerView>,
)
    requires
        spec_plan_inherited(acc, socks) == Ok::<Seq<PlannedListenerView>, SystemdErrorView>(plan),
        forall|i: int| 0 <= i < acc.len() ==> spec_capability_ok(#[trigger] acc[i]),
    ensures
        forall|i: int| 0 <= i < plan.len() ==> spec_capability_ok(#[trigger] plan[i]),
    decreases socks.len(),
{
    if socks.len() == 0 {
    } else {
        match spec_plan_socket(socks[0]) {
            Ok(e) => {
                assert(spec_capability_ok(e));
                lemma_plan_inherited_capabilities(acc.push(e), socks.drop_first(), plan);
            },
            Err(er) => {},
        }
    }
}

/// Every listener made from an inherited or configured Unix-domain socket
/// allows control, and every HTTP or HTTPS listener — inherited or bound —
/// does not; no control-capable listener is TLS-tagged. This holds of every
/// plan the registry can produce.
pub proof fn lemma_unix_listeners_control_capability(
    socks: Seq<SystemdSocketView>,
    listen: ListenView,
    plan: Seq<PlannedListenerView>,
)
    requires
        spec_full_plan(socks, listen) == Ok::<Seq<PlannedListenerView>, SystemdErrorView>(plan),
    ensures
        forall|i: int| 0 <= i < plan.len() ==> spec_capability_ok(#[trigger] plan[i]),
{
    let inh = spec_plan_inherited(Seq::empty(), socks)->Ok_0;
    lemma_plan_inherited_capabilities(Seq::empty(), socks, inh);
    let cfg = spec_plan_configured(listen);
    assert(forall|i: int| 0 <= i < cfg.len() ==> spec_capability_ok(#[trigger] cfg[i]));
    assert(forall|i: int|
        0 <= i < plan.len() ==> plan[i] == if i < inh.len() {
            inh[i]
        } else {
            cfg[i - inh.len()]
        });
}

} // verus!
