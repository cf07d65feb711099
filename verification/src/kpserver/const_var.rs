use vstd::prelude::*;
use crate::util::text::string_of;

verus! {

/// The protocols the relay speaks.
#[derive(Debug, Clone, Copy, PartialEq, Eq, Structural)]
pub enum KPProtocol {
    Rtmp,
}

/// The printed name of a protocol, which is also its URL scheme.
pub open spec fn protocol_name(p: KPProtocol) -> Seq<char> {
    match p {
        KPProtocol::Rtmp => "rtmp"@,
    }
}

impl KPProtocol {
    /// The printed name of this protocol.
    pub fn to_string(&self) -> (res: String)
        ensures
            res@ == protocol_name(*self),
    {
        match self {
            KPProtocol::Rtmp => string_of("rtmp"),
        }
    }

    /// The protocol printed as `s`, if any.
    pub fn from_str(s: &str) -> (res: Option<KPProtocol>)
        ensures
            res == (if s@ == "rtmp"@ { Some(KPProtocol::Rtmp) } else { None }),
    {
        if crate::util::text::str_equal(s, "rtmp") { Some(KPProtocol::Rtmp) } else { None }
    }
}

} // verus!
