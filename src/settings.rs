use vstd::prelude::*;

verus! {

/// Port the proxy listens on for HTTP unless told otherwise.
pub const DEFAULT_HTTP_PORT: u16 = 80;

/// Port the proxy listens on for HTTPS unless told otherwise.
pub const DEFAULT_HTTPS_PORT: u16 = 443;

/// The optional settings read from the environment at startup. An IPv4
/// address is held as its four octets, most significant first.
#[derive(Clone, Copy, Debug)]
pub struct FloxyEnvironment {
    /// HTTP port the proxy listens on.
    pub http_port: Option<u16>,
    /// HTTPS port the proxy listens on.
    pub https_port: Option<u16>,
    /// Address of the web application behind the proxy.
    pub webapp_ipv4: Option<[u8; 4]>,
    /// HTTP port of the web application.
    pub webapp_http_port: Option<u16>,
    /// HTTPS port of the web application.
    pub webapp_https_port: Option<u16>,
    /// Address of the gateway of the container network.
    pub flecs_gateway: Option<[u8; 4]>,
    /// Port of the management daemon.
    pub flecs_http_port: Option<u16>,
}

/// The gateway of the container network unless told otherwise.
pub open spec fn default_gateway() -> Seq<u8> {
    seq![172u8, 21u8, 0u8, 1u8]
}

/// The web application's default address: the gateway's network with host
/// part `255.254`.
pub open spec fn webapp_default(gateway: Seq<u8>) -> Seq<u8> {
    seq![gateway[0], gateway[1], 255u8, 254u8]
}

/// The web application's default address for the given gateway.
pub fn default_webapp_ipv4(gateway: &[u8; 4]) -> (r: [u8; 4])
    ensures
        r@ == webapp_default(gateway@),
{
    let r = [gateway[0], gateway[1], 255u8, 254u8];
    assert(r@ =~= webapp_default(gateway@));
    r
}

/// `o`'s value, or `d` when it is absent.
pub open spec fn or_default<T>(o: Option<T>, d: T) -> T {
    match o {
        Some(v) => v,
        None => d,
    }
}

/// The settings the proxy's configuration is generated from, with every
/// default applied.
#[derive(Clone, Copy, Debug)]
pub struct ProxySettings {
    pub http_port: u16,
    pub https_port: u16,
    pub webapp_ipv4: [u8; 4],
    pub webapp_http_port: u16,
    pub webapp_https_port: Option<u16>,
    pub flecs_gateway: [u8; 4],
}

/// The view of an optional address.
pub open spec fn addr_view(a: Option<[u8; 4]>) -> Option<Seq<u8>> {
    match a {
        Some(v) => Some(v@),
        None => None,
    }
}

/// A configuration the proxy cannot run with.
#[derive(Clone, Copy, Debug, PartialEq, Eq, Structural)]
pub enum ConfigError {
    /// The proxy's HTTP and HTTPS ports are equal.
    HttpEqualsHttps,
    /// The web application is local and shares the proxy's HTTP port.
    HttpEqualsWebappHttp,
    /// The web application is local and shares the proxy's HTTPS port.
    HttpsEqualsWebappHttps,
}

/// Whether `addr` is one of `addrs`.
pub open spec fn addr_listed(addrs: Seq<[u8; 4]>, addr: Seq<u8>) -> bool {
    exists|i: int| 0 <= i < addrs.len() && (#[trigger] addrs[i])@ == addr
}

/// The verdict on `s`, given the IPv4 addresses of the local interfaces.
pub open spec fn verdict(s: ProxySettings, local: Seq<[u8; 4]>) -> Result<(), ConfigError> {
    if s.http_port == s.https_port {
        Err(ConfigError::HttpEqualsHttps)
    } else if addr_listed(local, s.webapp_ipv4@) && s.http_port == s.webapp_http_port {
        Err(ConfigError::HttpEqualsWebappHttp)
    } else if addr_listed(local, s.webapp_ipv4@) && s.webapp_https_port == Some(s.https_port) {
        Err(ConfigError::HttpsEqualsWebappHttps)
    } else {
        Ok(())
    }
}

/// Whether two addresses are equal.
fn same_addr(a: &[u8; 4], b: &[u8; 4]) -> (r: bool)
    ensures
        r == (a@ == b@),
{
    let r = a[0] == b[0] && a[1] == b[1] && a[2] == b[2] && a[3] == b[3];
    if r {
        assert(a@ =~= b@);
    }
    r
}

impl ProxySettings {
    /// Applies the defaults to what the environment gave: ports 80 and 443,
    /// gateway `172.21.0.1`, and the web application at the gateway's
    /// network with host part `255.254`.
    pub fn from_environment(env: &FloxyEnvironment) -> (r: ProxySettings)
        ensures
            r.flecs_gateway@ == or_default(addr_view(env.flecs_gateway), default_gateway()),
            r.http_port == or_default(env.http_port, DEFAULT_HTTP_PORT),
            r.https_port == or_default(env.https_port, DEFAULT_HTTPS_PORT),
            r.webapp_ipv4@ == or_default(addr_view(env.webapp_ipv4), webapp_default(r.flecs_gateway@)),
            r.webapp_http_port == or_default(env.webapp_http_port, DEFAULT_HTTP_PORT),
            r.webapp_https_port == env.webapp_https_port,
    {
        let gateway: [u8; 4] = match env.flecs_gateway {
            Some(g) => g,
            None => {
                let g = [172u8, 21u8, 0u8, 1u8];
                assert(g@ =~= default_gateway());
                g
            },
        };
        let webapp: [u8; 4] = match env.webapp_ipv4 {
            Some(w) => w,
            None => default_webapp_ipv4(&gateway),
        };
        ProxySettings {
            http_port: match env.http_port {
                Some(p) => p,
                None => DEFAULT_HTTP_PORT,
            },
            https_port: match env.https_port {
                Some(p) => p,
                None => DEFAULT_HTTPS_PORT,
            },
            webapp_ipv4: webapp,
            webapp_http_port: match env.webapp_http_port {
                Some(p) => p,
                None => DEFAULT_HTTP_PORT,
            },
            webapp_https_port: env.webapp_https_port,
            flecs_gateway: gateway,
        }
    }

    /// Checks that the proxy's ports do not collide: its HTTP and HTTPS
    /// ports differ, and when the web application runs on a local address
    /// (one of `local_addrs`) it shares neither of the proxy's ports.
    pub fn validate(&self, local_addrs: &Vec<[u8; 4]>) -> (r: Result<(), ConfigError>)
        ensures
            r == verdict(*self, local_addrs@),
    {
        if self.http_port == self.https_port {
            return Err(ConfigError::HttpEqualsHttps);
        }
        let mut local = false;
        let mut i: usize = 0;
        while i < local_addrs.len()
            invariant
                i <= local_addrs@.len(),
                local == exists|j: int| 0 <= j < i && (#[trigger] local_addrs@[j])@ == self.webapp_ipv4@,
            decreases local_addrs.len() - i,
        {
            if same_addr(&local_addrs[i], &self.webapp_ipv4) {
                local = true;
            }
            i = i + 1;
        }
        if local {
            if self.http_port == self.webapp_http_port {
                return Err(ConfigError::HttpEqualsWebappHttp);
            }
            match self.webapp_https_port {
                Some(p) => {
                    if p == self.https_port {
                        return Err(ConfigError::HttpsEqualsWebappHttps);
                    }
                },
                None => {},
            }
        }
        Ok(())
    }
}

} // verus!
