use vstd::prelude::*;

verus! {

/// The pieces a byte sequence is cut into: consecutive runs of `size` bytes, the last one
/// possibly shorter (as `<[u8]>::chunks` cuts).
pub open spec fn pieces(bytes: Seq<u8>, size: nat) -> Seq<Seq<u8>>
    recommends
        size > 0,
    decreases bytes.len(),
{
    if bytes.len() == 0 || size == 0 {
        Seq::empty()
    } else if bytes.len() <= size {
        seq![bytes]
    } else {
        seq![bytes.take(size as int)] + pieces(bytes.skip(size as int), size)
    }
}

/// How many bytes the streamed answer sends at a time.
pub const STREAM_PIECE_LEN: usize = 10;

/// Law: putting the pieces back together gives the bytes, and every piece holds between 1
/// and `size` bytes.
pub proof fn law_pieces_rejoin(bytes: Seq<u8>, size: nat)
    requires
        size > 0,
    ensures
        pieces(bytes, size).flatten() == bytes,
        forall|i: int|
            0 <= i < pieces(bytes, size).len() ==> 0 < #[trigger] pieces(bytes, size)[i].len() <= size,
    decreases bytes.len(),
{
    if bytes.len() == 0 {
        assert(bytes =~= Seq::<u8>::empty());
    } else if bytes.len() <= size {
        let p = seq![bytes];
        assert(p.drop_first() =~= Seq::<Seq<u8>>::empty());
        assert(p.drop_first().flatten() =~= Seq::<u8>::empty());
        assert(p.flatten() == p.first() + p.drop_first().flatten());
        assert(bytes + Seq::<u8>::empty() =~= bytes);
    } else {
        law_pieces_rejoin(bytes.skip(size as int), size);
        let p = pieces(bytes, size);
        assert(p.drop_first() =~= pieces(bytes.skip(size as int), size));
        assert(bytes.take(size as int) + bytes.skip(size as int) =~= bytes);
        assert(p.flatten() == p.first() + p.drop_first().flatten());
        assert forall|i: int| 0 <= i < p.len() implies 0 < #[trigger] p[i].len() <= size by {
            if i > 0 {
                assert(p[i] == pieces(bytes.skip(size as int), size)[i - 1]);
            }
        }
    }
}

/// Cuts the bytes of a streamed answer into pieces of `STREAM_PIECE_LEN` bytes, in order.
pub fn stream_pieces(bytes: &[u8]) -> (r: Vec<Vec<u8>>)
    ensures
        r@.len() == pieces(bytes@, STREAM_PIECE_LEN as nat).len(),
        forall|i: int| 0 <= i < r@.len() ==> #[trigger] r@[i]@ == pieces(bytes@, STREAM_PIECE_LEN as nat)[i],
{
    let mut out: Vec<Vec<u8>> = Vec::new();
    let mut start: usize = 0;
    let n = bytes.len();
    let ghost all = bytes@;
    proof {
        assert(all.skip(0) =~= all);
    }
    while start < n
        invariant
            n == all.len(),
            all == bytes@,
            start <= n,
            out@.len() + pieces(all.skip(start as int), STREAM_PIECE_LEN as nat).len()
                == pieces(all, STREAM_PIECE_LEN as nat).len(),
            forall|i: int| 0 <= i < out@.len() ==> #[trigger] out@[i]@ == pieces(all, STREAM_PIECE_LEN as nat)[i],
            forall|j: int|
                0 <= j < pieces(all.skip(start as int), STREAM_PIECE_LEN as nat).len() ==> #[trigger] pieces(
                    all.skip(start as int),
                    STREAM_PIECE_LEN as nat,
                )[j] == pieces(all, STREAM_PIECE_LEN as nat)[out@.len() + j],
        decreases n - start,
    {
        let end = if n - start <= STREAM_PIECE_LEN {
            n
        } else {
            start + STREAM_PIECE_LEN
        };
        let mut piece: Vec<u8> = Vec::new();
        let mut k = start;
        while k < end
            invariant
                start <= k <= end <= n,
                n == bytes@.len(),
                piece@ == bytes@.subrange(start as int, k as int),
            decreases end - k,
        {
            piece.push(bytes[k]);
            k = k + 1;
            assert(piece@ =~= bytes@.subrange(start as int, k as int));
        }
        let ghost rest = all.skip(start as int);
        proof {
            let ps = pieces(rest, STREAM_PIECE_LEN as nat);
            if rest.len() <= STREAM_PIECE_LEN {
                assert(piece@ =~= rest);
                assert(ps =~= seq![rest]);
                assert(all.skip(end as int) =~= Seq::<u8>::empty());
            } else {
                assert(piece@ =~= rest.take(STREAM_PIECE_LEN as int));
                assert(rest.skip(STREAM_PIECE_LEN as int) =~= all.skip(end as int));
                assert(ps.drop_first() =~= pieces(all.skip(end as int), STREAM_PIECE_LEN as nat));
            }
            assert(ps[0] == piece@);
        }
        out.push(piece);
        start = end;
        proof {
            let ps = pieces(rest, STREAM_PIECE_LEN as nat);
            assert forall|j: int|
                0 <= j < pieces(all.skip(start as int), STREAM_PIECE_LEN as nat).len() implies #[trigger] pieces(
                all.skip(start as int),
                STREAM_PIECE_LEN as nat,
            )[j] == pieces(all, STREAM_PIECE_LEN as nat)[out@.len() + j] by {
                assert(pieces(all.skip(start as int), STREAM_PIECE_LEN as nat)[j] == ps[j + 1]);
            }
        }
    }
    proof {
        assert(all.skip(n as int) =~= Seq::<u8>::empty());
    }
    out
}

} // verus!
