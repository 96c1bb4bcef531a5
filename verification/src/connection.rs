//! The `Connection` variant type and its per-variant rendering.
//!
//! Exactly one variant is active per value, and fields absent from a
//! variant are unrepresentable by construction. The `port` field is a
//! 16-bit unsigned integer in every variant.

use crate::render::{bool_rep, bool_str, dec_rep, u16_to_string};
use vstd::prelude::*;
use vstd::string::StringExecFns;

verus! {

/// A connection target: a closed set of three alternatives.
#[derive(Debug)]
pub enum Connection {
    /// A reliable, connection-oriented network endpoint, with an
    /// explicit flag saying whether traffic is encrypted.
    Tcp { address: String, port: u16, encryption: bool },
    /// A connectionless network endpoint; encryption is not a modelled
    /// concept for this variant.
    Udp { address: String, port: u16 },
    /// An in-process or same-machine service known only by its port;
    /// the target is implicitly the local machine, so there is no
    /// address field.
    LocalHost { port: u16 },
}

/// The canonical human-readable rendering of a connection value:
/// `tcp://{address}:{port} (encrypted: {encryption})`,
/// `udp://{address}:{port}`, or `local://{port}`.
pub open spec fn spec_describe(c: Connection) -> Seq<char> {
    match c {
        Connection::Tcp { address, port, encryption } => "tcp://"@ + address@ + ":"@ + dec_rep(
            port as nat,
        ) + " (encrypted: "@ + bool_rep(encryption) + ")"@,
        Connection::Udp { address, port } => "udp://"@ + address@ + ":"@ + dec_rep(port as nat),
        Connection::LocalHost { port } => "local://"@ + dec_rep(port as nat),
    }
}

/// The diagnostic line describing a (simulated) connection attempt:
/// distinct wording per variant.
pub open spec fn spec_connect_message(c: Connection) -> Seq<char> {
    match c {
        Connection::Tcp { address, port, encryption } => "Connecting via TCP to "@ + address@
            + ":"@ + dec_rep(port as nat) + " (encryption: "@ + bool_rep(encryption) + ")"@,
        Connection::Udp { address, port } => "Connecting via UDP to "@ + address@ + ":"@ + dec_rep(
            port as nat,
        ),
        Connection::LocalHost { port } => "Connecting to local service on port "@ + dec_rep(
            port as nat,
        ),
    }
}

/// The single business rule the dispatcher inspects: a TCP endpoint on
/// the conventionally-secure port 443 with encryption switched off.
/// The address is irrelevant, and no other variant can trigger it.
pub open spec fn spec_warning_applies(c: Connection) -> bool {
    match c {
        Connection::Tcp { port, encryption, .. } => port == 443 && !encryption,
        Connection::Udp { .. } => false,
        Connection::LocalHost { .. } => false,
    }
}

impl Connection {
    /// Pure rendering of this value, exactly `spec_describe`. Because
    /// the result is pinned to a function of the value alone, any two
    /// calls on the same value yield identical text.
    pub fn describe(&self) -> (r: String)
        ensures
            r@ == spec_describe(*self),
    {
        match self {
            Connection::Tcp { address, port, encryption } => {
                let mut s = String::from_str("tcp://");
                s.append(address.as_str());
                s.append(":");
                let p = u16_to_string(*port);
                s.append(p.as_str());
                s.append(" (encrypted: ");
                s.append(bool_str(*encryption));
                s.append(")");
                proof {
                    assert(s@ =~= spec_describe(*self));
                }
                s
            },
            Connection::Udp { address, port } => {
                let mut s = String::from_str("udp://");
                s.append(address.as_str());
                s.append(":");
                let p = u16_to_string(*port);
                s.append(p.as_str());
                proof {
                    assert(s@ =~= spec_describe(*self));
                }
                s
            },
            Connection::LocalHost { port } => {
                let mut s = String::from_str("local://");
                let p = u16_to_string(*port);
                s.append(p.as_str());
                proof {
                    assert(s@ =~= spec_describe(*self));
                }
                s
            },
        }
    }

    /// The line a (simulated) connection attempt reports, exactly
    /// `spec_connect_message`. Taking `&self`, it cannot alter any
    /// field of the value; printing the line is the caller's business.
    pub fn connect_message(&self) -> (r: String)
        ensures
            r@ == spec_connect_message(*self),
    {
        match self {
            Connection::Tcp { address, port, encryption } => {
                let mut s = String::from_str("Connecting via TCP to ");
                s.append(address.as_str());
                s.append(":");
                let p = u16_to_string(*port);
                s.append(p.as_str());
                s.append(" (encryption: ");
                s.append(bool_str(*encryption));
                s.append(")");
                proof {
                    assert(s@ =~= spec_connect_message(*self));
                }
                s
            },
            Connection::Udp { address, port } => {
                let mut s = String::from_str("Connecting via UDP to ");
                s.append(address.as_str());
                s.append(":");
                let p = u16_to_string(*port);
                s.append(p.as_str());
                proof {
                    assert(s@ =~= spec_connect_message(*self));
                }
                s
            },
            Connection::LocalHost { port } => {
                let mut s = String::from_str("Connecting to local service on port ");
                let p = u16_to_string(*port);
                s.append(p.as_str());
                proof {
                    assert(s@ =~= spec_connect_message(*self));
                }
                s
            },
        }
    }

    /// Whether the insecure-port warning applies to this value,
    /// exactly `spec_warning_applies`. The match binds only the fields
    /// the rule reads and wildcards the rest, while still covering
    /// every variant explicitly.
    pub fn needs_warning(&self) -> (r: bool)
        ensures
            r == spec_warning_applies(*self),
    {
        match self {
            Connection::Tcp { port: 443, encryption: false, .. } => true,
            Connection::Tcp { .. } => false,
            Connection::Udp { .. } => false,
            Connection::LocalHost { .. } => false,
        }
    }
}

/// Each variant's rendering carries its own scheme prefix: `tcp://`
/// for Tcp, `udp://` for Udp, `local://` for LocalHost.
pub proof fn lemma_describe_prefix(c: Connection)
    ensures
        c is Tcp ==> spec_describe(c).subrange(0, 6) == "tcp://"@,
        c is Udp ==> spec_describe(c).subrange(0, 6) == "udp://"@,
        c is LocalHost ==> spec_describe(c).subrange(0, 8) == "local://"@,
{
    reveal_strlit("tcp://");
    reveal_strlit("udp://");
    reveal_strlit("local://");
    match c {
        Connection::Tcp { .. } => {
            assert(spec_describe(c).subrange(0, 6) =~= "tcp://"@);
        },
        Connection::Udp { .. } => {
            assert(spec_describe(c).subrange(0, 6) =~= "udp://"@);
        },
        Connection::LocalHost { .. } => {
            assert(spec_describe(c).subrange(0, 8) =~= "local://"@);
        },
    }
}

/// Values of different variants are pairwise distinguishable by their
/// rendering: the scheme prefixes differ, so the texts differ.
pub proof fn lemma_variants_distinguishable(a: Connection, b: Connection)
    requires
        !(a is Tcp && b is Tcp),
        !(a is Udp && b is Udp),
        !(a is LocalHost && b is LocalHost),
    ensures
        spec_describe(a) != spec_describe(b),
{
    reveal_strlit("tcp://");
    reveal_strlit("udp://");
    reveal_strlit("local://");
    assert(a is Tcp ==> spec_describe(a)[0] == 't');
    assert(a is Udp ==> spec_describe(a)[0] == 'u');
    assert(a is LocalHost ==> spec_describe(a)[0] == 'l');
    assert(b is Tcp ==> spec_describe(b)[0] == 't');
    assert(b is Udp ==> spec_describe(b)[0] == 'u');
    assert(b is LocalHost ==> spec_describe(b)[0] == 'l');
    assert(spec_describe(a)[0] != spec_describe(b)[0]);
}

} // verus!
