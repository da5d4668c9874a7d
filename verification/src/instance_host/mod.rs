//! Backend handles and the orchestrators that create and destroy backends.

use vstd::prelude::*;
use vstd::string::*;

pub mod kubernetes_host;
pub mod local_host;

verus! {

/// The decimal digit that stands for `d`, for `d` below ten.
pub open spec fn digit_char(d: nat) -> char {
    if d == 0 {
        '0'
    } else if d == 1 {
        '1'
    } else if d == 2 {
        '2'
    } else if d == 3 {
        '3'
    } else if d == 4 {
        '4'
    } else if d == 5 {
        '5'
    } else if d == 6 {
        '6'
    } else if d == 7 {
        '7'
    } else if d == 8 {
        '8'
    } else {
        '9'
    }
}

/// The decimal numeral of `n`, most significant digit first, without
/// leading zeros.
pub open spec fn decimal(n: nat) -> Seq<char>
    decreases n,
{
    if n < 10 {
        seq![digit_char(n)]
    } else {
        decimal(n / 10).push(digit_char(n % 10))
    }
}

/// The text `address:port` under which a backend is known.
pub open spec fn location_text(url: Seq<char>, port: nat) -> Seq<char> {
    url + seq![':'] + decimal(port)
}

/// One decimal digit as a string slice.
fn digit_str(d: u16) -> (s: &'static str)
    requires
        d < 10,
    ensures
        s@ == seq![digit_char(d as nat)],
{
    proof {
        reveal_strlit("0");
        reveal_strlit("1");
        reveal_strlit("2");
        reveal_strlit("3");
        reveal_strlit("4");
        reveal_strlit("5");
        reveal_strlit("6");
        reveal_strlit("7");
        reveal_strlit("8");
        reveal_strlit("9");
    }
    let s: &'static str = if d == 0 {
        "0"
    } else if d == 1 {
        "1"
    } else if d == 2 {
        "2"
    } else if d == 3 {
        "3"
    } else if d == 4 {
        "4"
    } else if d == 5 {
        "5"
    } else if d == 6 {
        "6"
    } else if d == 7 {
        "7"
    } else if d == 8 {
        "8"
    } else {
        "9"
    };
    assert(s@ =~= seq![digit_char(d as nat)]);
    s
}

/// Writes a port number in decimal.
pub fn port_to_string(port: u16) -> (s: String)
    ensures
        s@ == decimal(port as nat),
    decreases port,
{
    if port < 10 {
        digit_str(port).to_owned()
    } else {
        let head = port_to_string(port / 10);
        let s = head.concat(digit_str(port % 10));
        assert(s@ =~= decimal(port as nat));
        s
    }
}

/// Why an orchestrator could not do what it was asked.
#[derive(Debug)]
pub enum HostError {
    /// The platform refused or failed; the text says why.
    ProvisioningError(String),
    /// The backend did not become reachable in time.
    ProvisioningTimeout,
    /// The tenant has no backend.
    NotFound,
}

/// What an orchestrator could not do, by its characters.
pub enum HostErrorView {
    ProvisioningError(Seq<char>),
    ProvisioningTimeout,
    NotFound,
}

impl View for HostError {
    type V = HostErrorView;

    open spec fn view(&self) -> HostErrorView {
        match self {
            HostError::ProvisioningError(cause) => HostErrorView::ProvisioningError(cause@),
            HostError::ProvisioningTimeout => HostErrorView::ProvisioningTimeout,
            HostError::NotFound => HostErrorView::NotFound,
        }
    }
}

/// The network location of a tenant's backend.
#[derive(Debug, Clone)]
pub struct Instance {
    pub url: String,
    pub port: u16,
}

impl Instance {
    pub fn new(url: String, port: u16) -> (instance: Instance)
        ensures
            instance.url == url,
            instance.port == port,
    {
        Instance { url, port }
    }

    /// The canonical cache value of this backend, `address:port`.
    pub fn get_url_with_port(&self) -> (text: String)
        ensures
            text@ == location_text(self.url@, self.port as nat),
    {
        proof {
            reveal_strlit(":");
        }
        let text = self.url.clone().concat(":").concat(port_to_string(self.port).as_str());
        assert(text@ =~= location_text(self.url@, self.port as nat));
        text
    }
}

} // verus!
