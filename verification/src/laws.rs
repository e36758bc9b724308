//! The laws of the paginated query engine, stated over the same views that
//! the executable functions' contracts use.
use vstd::prelude::*;
use crate::query::{
    cont_params, continuation_v, cursor_after, cursor_cont, next_request_v, opt_param,
    request_query, BuilderV, ContV, CursorV, Method, ResponseV, StreamV,
};

verus! {

/// The stream state after one fetched page whose continuation was `c`.
pub open spec fn step_v(s: StreamV, c: Option<ContV>) -> StreamV {
    StreamV { builder: s.builder, cursor: cursor_after(c) }
}

/// The stream state after a whole run: the continuations of the fetched
/// pages, in order, threaded through the state one by one.
pub open spec fn stream_after(s: StreamV, conts: Seq<Option<ContV>>) -> StreamV
    decreases conts.len(),
{
    if conts.len() == 0 {
        s
    } else {
        stream_after(step_v(s, conts[0]), conts.drop_first())
    }
}

/// After a non-empty run, the state is the specification unchanged plus the
/// cursor taken from the last page alone.
pub proof fn lemma_stream_after(s: StreamV, conts: Seq<Option<ContV>>)
    ensures
        stream_after(s, conts).builder == s.builder,
        conts.len() > 0 ==> stream_after(s, conts).cursor == cursor_after(conts.last()),
    decreases conts.len(),
{
    if conts.len() > 0 {
        lemma_stream_after(step_v(s, conts[0]), conts.drop_first());
        if conts.len() > 1 {
            assert(conts.drop_first().last() == conts.last());
        }
    }
}

/// Law (termination): over any finite response stream that ends in a page
/// with no continuation token, a query makes exactly one request per page
/// and then stops — every proper prefix of the run still has a next request,
/// and after the final page none is attempted.
pub proof fn lemma_termination(s: StreamV, conts: Seq<Option<ContV>>)
    requires
        s.cursor == CursorV::Start,
        conts.len() > 0,
        forall|i: int| 0 <= i < conts.len() - 1 ==> conts[i] is Some,
        conts.last() is None,
    ensures
        next_request_v(stream_after(s, conts)) is None,
        forall|k: int|
            0 <= k < conts.len() ==> next_request_v(
                #[trigger] stream_after(s, conts.take(k)),
            ) is Some,
{
    lemma_stream_after(s, conts);
    assert forall|k: int| 0 <= k < conts.len() implies next_request_v(
        #[trigger] stream_after(s, conts.take(k)),
    ) is Some by {
        lemma_stream_after(s, conts.take(k));
        if k > 0 {
            assert(conts.take(k).last() == conts[k - 1]);
            assert(conts[k - 1] is Some);
        }
    }
}

/// Law (idempotent restart): two streams started from the same specification
/// run identically — fed the same pages, they stand in the same state and
/// make the same requests, because pagination state lives entirely in the
/// stream's own token chain.
pub proof fn lemma_idempotent_restart(s1: StreamV, s2: StreamV, conts: Seq<Option<ContV>>)
    requires
        s1.builder == s2.builder,
        s1.cursor == CursorV::Start,
        s2.cursor == CursorV::Start,
    ensures
        stream_after(s1, conts) == stream_after(s2, conts),
        forall|k: int|
            0 <= k <= conts.len() ==> next_request_v(stream_after(s1, #[trigger] conts.take(k)))
                == next_request_v(stream_after(s2, conts.take(k))),
{
    assert(s1 =~= s2);
}

/// Law (token round-trip): the request after a page with token `(p, r)`
/// carries the pair `("NextPartitionKey", p)`; it carries
/// `("NextRowKey", r)` exactly when `r` is present, directly after, and no
/// `NextRowKey` parameter at all otherwise.
pub proof fn lemma_token_round_trip(s: StreamV, c: ContV)
    requires
        !(s.cursor is Done),
    ensures
        ({
            let q = next_request_v(step_v(s, Some(c)))->Some_0.query;
            &&& next_request_v(step_v(s, Some(c))) is Some
            &&& exists|i: int|
                0 <= i < q.len() && (#[trigger] q[i]) == ("NextPartitionKey"@, c.pk) && (
                c.rk is Some ==> i + 1 < q.len() && q[i + 1] == ("NextRowKey"@, c.rk->Some_0))
            &&& c.rk is None ==> forall|i: int| 0 <= i < q.len() ==> q[i].0 != "NextRowKey"@
        }),
{
    let q = next_request_v(step_v(s, Some(c)))->Some_0.query;
    let base = opt_param("$filter"@, s.builder.filter) + opt_param("$select"@, s.builder.select)
        + opt_param(
        "$top"@,
        match s.builder.top {
            Some(n) => Some(crate::strutil::dec_str(n as nat)),
            None => None,
        },
    );
    assert(q == base + cont_params(Some(c)));
    let i = base.len() as int;
    assert(q[i] == ("NextPartitionKey"@, c.pk));
    if c.rk is Some {
        assert(q[i + 1] == ("NextRowKey"@, c.rk->Some_0));
    } else {
        reveal_strlit("$filter");
        reveal_strlit("$select");
        reveal_strlit("$top");
        reveal_strlit("NextPartitionKey");
        reveal_strlit("NextRowKey");
        assert forall|j: int| 0 <= j < q.len() implies q[j].0 != "NextRowKey"@ by {
            assert(q.len() == base.len() + 1);
            if j < base.len() {
                assert(q[j].0 == "$filter"@ || q[j].0 == "$select"@ || q[j].0 == "$top"@);
            } else {
                assert(q[j].0 == "NextPartitionKey"@);
            }
        }
    }
}

/// Law (terminal page): the partition key is the significant half of the
/// compound token — a page whose response carried no partition-key
/// continuation header is terminal even where a row-key header stood alone,
/// and feeding it leaves the stream with no further request.  This mirrors
/// the remote service's own contract exactly.
pub proof fn lemma_partition_key_decides(s: StreamV, r: ResponseV)
    requires
        r.pk is None,
    ensures
        continuation_v(r) is None,
        next_request_v(step_v(s, continuation_v(r))) is None,
{
}

/// Law (optional-field omission): a specification with filter, selection and
/// count all absent produces a first request with no query parameter at all —
/// absent fields are omitted entirely, never emitted as empty parameters.
pub proof fn lemma_optional_field_omission(b: BuilderV)
    requires
        b.filter is None,
        b.select is None,
        b.top is None,
    ensures
        ({
            let r = next_request_v(StreamV { builder: b, cursor: CursorV::Start });
            &&& r is Some
            &&& r->Some_0.query.len() == 0
            &&& r->Some_0.method == Method::Get
        }),
{
    assert(request_query(b, cursor_cont(CursorV::Start)) =~= Seq::<(Seq<char>, Seq<char>)>::empty());
}

} // verus!
