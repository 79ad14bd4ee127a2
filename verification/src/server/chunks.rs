//! Sending a benchmark's video to a client in chunks.

use crate::models::config::ServerConfig;
use crate::models::messages::{ServerMessage, ServerMessageView};
use crate::text::{split_words, words};
use vstd::prelude::*;

verus! {

/// Data in chunks of the given size; only the last may be smaller.
pub open spec fn chunks_of(data: Seq<u8>, size: nat) -> Seq<Seq<u8>>
    decreases data.len(),
{
    if data.len() == 0 || size == 0 {
        Seq::empty()
    } else if data.len() <= size {
        seq![data]
    } else {
        seq![data.take(size as int)] + chunks_of(data.skip(size as int), size)
    }
}

/// Chunks one after the other.
pub open spec fn glued(chunks: Seq<Seq<u8>>) -> Seq<u8>
    decreases chunks.len(),
{
    if chunks.len() == 0 {
        Seq::empty()
    } else {
        chunks[0] + glued(chunks.drop_first())
    }
}

/// The chunks of some data are the data: one after the other they give it, none
/// is empty or too large, and there are as many as are needed.
pub proof fn law_chunks_are_the_data(data: Seq<u8>, size: nat)
    requires
        size > 0,
    ensures
        glued(chunks_of(data, size)) == data,
        chunks_of(data, size).len() == (data.len() + size - 1) / size as int,
        forall|i: int|
            0 <= i < chunks_of(data, size).len() ==> 0 < (#[trigger] chunks_of(
                data,
                size,
            )[i]).len() <= size,
        forall|i: int|
            0 <= i < chunks_of(data, size).len() - 1 ==> (#[trigger] chunks_of(
                data,
                size,
            )[i]).len() == size,
    decreases data.len(),
{
    let all = chunks_of(data, size);
    if data.len() == 0 {
        assert((size - 1) / size as int == 0) by (nonlinear_arith)
            requires
                size > 0,
        ;
        assert(glued(all) =~= data);
    } else if data.len() <= size {
        assert(all.drop_first() =~= Seq::empty());
        assert(glued(all.drop_first()) =~= Seq::empty());
        assert(glued(all) =~= data);
        assert((data.len() + size - 1) / size as int == 1) by (nonlinear_arith)
            requires
                0 < data.len() <= size,
        ;
    } else {
        let rest = data.skip(size as int);
        law_chunks_are_the_data(rest, size);
        let more = chunks_of(rest, size);
        assert(all.drop_first() =~= more);
        assert(glued(all) =~= data);
        assert((data.len() + size - 1) / size as int == (rest.len() + size - 1) / size as int + 1)
            by (nonlinear_arith)
            requires
                data.len() == rest.len() + size,
                size > 0,
        ;
        assert forall|i: int| 0 <= i < all.len() implies 0 < (#[trigger] all[i]).len() <= size by {
            if i > 0 {
                assert(all[i] == more[i - 1]);
            }
        }
        assert forall|i: int| 0 <= i < all.len() - 1 implies (#[trigger] all[i]).len() == size by {
            if i > 0 {
                assert(all[i] == more[i - 1]);
            }
        }
    }
}

/// The views of a list of chunks.
pub open spec fn chunk_views(list: Seq<Vec<u8>>) -> Seq<Seq<u8>> {
    list.map_values(|c: Vec<u8>| c@)
}

/// The message that announces the chunks of a benchmark's video.
pub fn announce(job_id: String, format: String, params: &str) -> (r: ServerMessage)
    ensures
        r@ == (ServerMessageView::BenchmarkRequest {
            data: Seq::empty(),
            format: format@,
            params: words(params@),
            job_id: job_id@,
        }),
{
    ServerMessage::BenchmarkRequest {
        data: Vec::new(),
        format,
        params: split_words(params),
        job_id,
    }
}

fn part(data: &Vec<u8>, from: usize, to: usize) -> (r: Vec<u8>)
    requires
        from <= to <= data.len(),
    ensures
        r@ == data@.subrange(from as int, to as int),
{
    let mut r: Vec<u8> = Vec::new();
    let mut i: usize = from;
    while i < to
        invariant
            from <= i <= to <= data.len(),
            r@ == data@.subrange(from as int, i as int),
        decreases to - i,
    {
        r.push(data[i]);
        i += 1;
    }
    r
}

/// The data in chunks of the size that the settings give.
pub fn cut_chunks(config: &ServerConfig, data: &Vec<u8>) -> (r: Vec<Vec<u8>>)
    requires
        config.chunk_size > 0,
    ensures
        chunk_views(r@) == chunks_of(data@, config.chunk_size as nat),
{
    let mut r: Vec<Vec<u8>> = Vec::new();
    let chunk_size: usize = config.chunk_size;
    let ghost size = chunk_size as nat;
    let mut at: usize = 0;
    assert(data@.skip(0) =~= data@);
    assert(chunk_views(r@) + chunks_of(data@, size) =~= chunks_of(data@, size));
    while at < data.len()
        invariant
            size == chunk_size,
            chunk_size > 0,
            at <= data.len(),
            chunk_views(r@) + chunks_of(data@.skip(at as int), size) == chunks_of(data@, size),
        decreases data.len() - at,
    {
        let left: usize = data.len() - at;
        let end: usize = if left > chunk_size {
            at + chunk_size
        } else {
            data.len()
        };
        let ghost before = chunk_views(r@);
        let ghost rest = data@.skip(at as int);
        let piece = part(data, at, end);
        r.push(piece);
        proof {
            assert(chunk_views(r@) =~= before.push(piece@));
            if left > chunk_size {
                assert(piece@ =~= rest.take(size as int));
                assert(data@.skip(end as int) =~= rest.skip(size as int));
            } else {
                assert(piece@ =~= rest);
                assert(data@.skip(end as int) =~= Seq::empty());
            }
            assert(chunk_views(r@) + chunks_of(data@.skip(end as int), size) =~= before + chunks_of(
                rest,
                size,
            ));
        }
        at = end;
    }
    assert(data@.skip(at as int) =~= Seq::empty());
    assert(chunk_views(r@) =~= chunks_of(data@, size));
    r
}

} // verus!
