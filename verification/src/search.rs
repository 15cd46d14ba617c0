//! Search text generating utilities.

use vstd::prelude::*;

verus! {

/// The prefix of a verbatim path: `\\?\`.
pub open spec fn verbatim_prefix() -> Seq<u8> {
    seq![0x5Cu8, 0x5Cu8, 0x3Fu8, 0x5Cu8]
}

/// The marker of a verbatim UNC path after the verbatim prefix: `UNC`.
pub open spec fn unc_marker() -> Seq<u8> {
    seq![0x55u8, 0x4Eu8, 0x43u8]
}

/// A path in the form Everything recognises, from the path's encoded bytes:
/// `\\?\UNC\server\share` becomes `\\server\share`, any other `\\?\<rest>`
/// becomes `<rest>`, and every other path stays as it is.
pub open spec fn normalized_path_ev(path: Seq<u8>) -> Seq<u8> {
    if path.len() >= 4 && path.take(4) == verbatim_prefix() {
        let rest = path.skip(4);
        if rest.len() >= 3 && rest.take(3) == unc_marker() {
            seq![0x5Cu8] + rest.skip(3)
        } else {
            rest
        }
    } else {
        path
    }
}

/// Convert a path into the form can be recognized by Everything.
///
/// Basically removes the verbatim prefix, e.g. `\\?\C:\Windows` -> `C:\Windows`.
/// Note that this does not resolve symbolic links and junctions.
/// The path is given and returned as its encoded bytes
/// (`OsStr::as_encoded_bytes`).
pub fn normalize_path_ev(path: &[u8]) -> (r: Vec<u8>)
    ensures
        r@ == normalized_path_ev(path@),
{
    let n = path.len();
    let verbatim = n >= 4 && path[0] == 0x5C && path[1] == 0x5C && path[2] == 0x3F && path[3]
        == 0x5C;
    if !verbatim {
        proof {
            if n >= 4 {
                assert(path@.take(4)[0] == path@[0]);
                assert(path@.take(4)[1] == path@[1]);
                assert(path@.take(4)[2] == path@[2]);
                assert(path@.take(4)[3] == path@[3]);
            }
        }
        return vstd::slice::slice_to_vec(path);
    }
    assert(path@.take(4) =~= verbatim_prefix());
    let unc = n >= 7 && path[4] == 0x55 && path[5] == 0x4E && path[6] == 0x43;
    let start: usize = if unc {
        6
    } else {
        4
    };
    let mut out: Vec<u8> = Vec::new();
    if unc {
        out.push(0x5C);
    }
    let mut i: usize = start + if unc {
        1
    } else {
        0
    };
    while i < n
        invariant
            start + (if unc {
                1int
            } else {
                0int
            }) <= i <= n,
            n == path@.len(),
            out@ == (if unc {
                seq![0x5Cu8]
            } else {
                Seq::<u8>::empty()
            }) + path@.subrange(start + (if unc {
                1int
            } else {
                0int
            }), i as int),
        decreases n - i,
    {
        out.push(path[i]);
        i += 1;
        proof {
            let base = start + (if unc {
                1int
            } else {
                0int
            });
            assert(path@.subrange(base, i as int) =~= path@.subrange(base, i - 1).push(
                path@[i - 1],
            ));
        }
    }
    proof {
        let rest = path@.skip(4);
        if unc {
            assert(rest.take(3) =~= unc_marker());
            assert(path@.subrange(7, n as int) =~= rest.skip(3));
        } else {
            if rest.len() >= 3 {
                assert(rest.take(3)[0] == path@[4]);
                assert(rest.take(3)[1] == path@[5]);
                assert(rest.take(3)[2] == path@[6]);
            }
            assert(path@.subrange(4, n as int) =~= rest);
        }
        assert(out@ =~= normalized_path_ev(path@));
    }
    out
}

} // verus!
