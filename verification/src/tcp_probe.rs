//! The network teardown probe's fixed parameters: the external endpoint it
//! connects to and the payload it writes before closing without reading.

use vstd::prelude::*;

verus! {

/// The fixed external endpoint the probe connects to.
pub fn tcp_endpoint() -> (r: &'static str)
    ensures
        r@ == "mirror.benchx.io:80"@,
{
    "mirror.benchx.io:80"
}

/// The fixed bytes written on the connection before teardown.
pub open spec fn tcp_payload_spec() -> Seq<u8> {
    Seq::new("TEST"@.len(), |i: int| "TEST"@[i] as u8)
}

pub fn tcp_payload() -> (r: Vec<u8>)
    ensures
        r@ == tcp_payload_spec(),
{
    let s = "TEST";
    proof {
        reveal_strlit("TEST");
        assert(vstd::string::is_ascii(s));
    }
    let v = s.as_bytes_vec();
    proof {
        broadcast use vstd::string::is_ascii_spec_bytes;

        assert(v@ =~= tcp_payload_spec());
    }
    v
}

} // verus!
