//! The handoff write: the one sequence of bytes the admission layer ever
//! sends to a backend. It is the optional proxy-protocol header immediately
//! followed by the captured handshake prefix, unmodified, assembled in one
//! pass so a single buffered write keeps the visible prefix atomic.

use vstd::prelude::*;

verus! {

/// The bytes written to the backend at handoff: the header, if any, then
/// the captured client prefix, byte for byte.
pub open spec fn spec_handoff_bytes(header: Option<Seq<u8>>, captured: Seq<u8>) -> Seq<u8> {
    match header {
        Some(h) => h + captured,
        None => captured,
    }
}

/// Assemble the handoff write: the proxy-protocol header, if the backend
/// asks for one, immediately followed by the captured handshake prefix.
pub fn handoff_bytes(header: Option<&Vec<u8>>, captured: &Vec<u8>) -> (out: Vec<u8>)
    requires
        (header matches Some(h) ==> h@.len() + captured@.len() <= usize::MAX),
    ensures
        out@ == spec_handoff_bytes(
            match header {
                Some(h) => Some(h@),
                None => None,
            },
            captured@,
        ),
{
    let mut out: Vec<u8> = Vec::new();
    if let Some(h) = header {
        let mut i: usize = 0;
        while i < h.len()
            invariant
                i <= h@.len(),
                out@ == h@.subrange(0, i as int),
            decreases h@.len() - i,
        {
            out.push(h[i]);
            i = i + 1;
            proof {
                assert(out@ =~= h@.subrange(0, i as int));
            }
        }
        proof {
            assert(out@ =~= h@);
        }
    }
    let ghost prefix: Seq<u8> = out@;
    let mut j: usize = 0;
    while j < captured.len()
        invariant
            j <= captured@.len(),
            out@ == prefix + captured@.subrange(0, j as int),
        decreases captured@.len() - j,
    {
        out.push(captured[j]);
        j = j + 1;
        proof {
            assert(out@ =~= prefix + captured@.subrange(0, j as int));
        }
    }
    proof {
        assert(out@ =~= prefix + captured@);
        assert(out@ =~= spec_handoff_bytes(
            match header {
                Some(h) => Some(h@),
                None => None,
            },
            captured@,
        ));
    }
    out
}

/// Law: the capture survives the handoff byte for byte. Whatever header is
/// chosen, the handoff write is exactly the header followed by the captured
/// bytes: no byte of the capture is lost, duplicated or reordered, and the
/// backend sees it as the unmodified tail of the write.
pub proof fn lemma_replay_preserves_capture(header: Option<Seq<u8>>, captured: Seq<u8>)
    ensures
        spec_handoff_bytes(header, captured).len() == (match header {
            Some(h) => h.len(),
            None => 0,
        }) + captured.len(),
        spec_handoff_bytes(header, captured).subrange(
            spec_handoff_bytes(header, captured).len() - captured.len(),
            spec_handoff_bytes(header, captured).len() as int,
        ) == captured,
        (header matches Some(h) ==> spec_handoff_bytes(header, captured).subrange(
            0,
            h.len() as int,
        ) == h),
        header is None ==> spec_handoff_bytes(header, captured) == captured,
{
    match header {
        Some(h) => {
            assert((h + captured).subrange(h.len() as int, (h + captured).len() as int)
                =~= captured);
            assert((h + captured).subrange(0, h.len() as int) =~= h);
        },
        None => {
            assert(spec_handoff_bytes(header, captured).subrange(0, captured.len() as int)
                =~= captured);
        },
    }
}

} // verus!
