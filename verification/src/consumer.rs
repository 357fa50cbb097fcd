use vstd::prelude::*;
use vstd::utf8::{decode_utf8, valid_utf8};

verus! {

/// A record read from the event stream: its offset and its payload, if any.
#[derive(Debug, Clone)]
pub struct FetchedRecord {
    pub offset: i64,
    pub value: Option<Vec<u8>>,
}

/// What one fetch from the event stream gave.
#[derive(Debug)]
pub enum FetchOutcome {
    /// The records read, in stream order.
    Records(Vec<FetchedRecord>),
    /// The fetch failed.
    Failed,
}

/// What the consumer does after a fetch: the offset to fetch from next, the
/// payload texts to parse and analyse (in stream order), and how long to
/// pause before the next fetch, in milliseconds.
#[derive(Debug)]
pub struct ConsumerStep {
    pub next_offset: i64,
    pub payloads: Vec<String>,
    pub pause_ms: u64,
}

/// Smallest number of bytes a fetch asks for.
pub const FETCH_MIN_BYTES: i32 = 1;

/// Bound (exclusive) on the number of bytes a fetch asks for.
pub const FETCH_MAX_BYTES: i32 = 1_000_000;

/// How long a fetch may wait for records, in milliseconds.
pub const FETCH_MAX_WAIT_MS: i32 = 1_000;

/// The pause after a failed fetch, in milliseconds.
pub open spec fn retry_pause_ms() -> u64 {
    500
}

/// Every offset of `records` can be followed by another `i64` offset.
pub open spec fn offsets_below_max(records: Seq<FetchedRecord>) -> bool {
    forall|i: int| 0 <= i < records.len() ==> #[trigger] records[i].offset < i64::MAX
}

/// The offset to read from after consuming `records` from `offset`: one past
/// the last record, or `offset` itself when there is none.
pub open spec fn offset_after(offset: int, records: Seq<FetchedRecord>) -> int {
    if records.len() == 0 {
        offset
    } else {
        records.last().offset + 1
    }
}

/// The texts of the payloads of `records`, in order, skipping records
/// without a payload and payloads that are not valid UTF-8.
pub open spec fn payloads_of(records: Seq<FetchedRecord>) -> Seq<Seq<char>>
    decreases records.len(),
{
    if records.len() == 0 {
        Seq::empty()
    } else {
        let rest = payloads_of(records.drop_last());
        match records.last().value {
            Some(v) => if valid_utf8(v@) {
                rest.push(decode_utf8(v@))
            } else {
                rest
            },
            None => rest,
        }
    }
}

/// `r` carries a payload that is valid UTF-8.
pub open spec fn has_text(r: FetchedRecord) -> bool {
    r.value matches Some(v) && valid_utf8(v@)
}

/// The characters that the payload of `r` encodes.
pub open spec fn text_of(r: FetchedRecord) -> Seq<char> {
    decode_utf8(r.value->Some_0@)
}

/// The texts of the records of `records` that carry valid UTF-8, in order:
/// one text per such record, and nothing for the others.
pub open spec fn texts_in_order(records: Seq<FetchedRecord>) -> Seq<Seq<char>> {
    records.filter(|r: FetchedRecord| has_text(r)).map_values(|r: FetchedRecord| text_of(r))
}

/// The contents of a list of strings.
pub open spec fn text_views(texts: Seq<String>) -> Seq<Seq<char>> {
    texts.map_values(|t: String| t@)
}

/// Calls `String::from_utf8` on a payload.
/// Trusted: as std documents, it succeeds exactly when the bytes are valid
/// UTF-8, and the string then holds the characters they encode (both as
/// `vstd::utf8` defines them). The error value is dropped.
#[verifier::external_body]
fn utf8_text(bytes: Vec<u8>) -> (r: Option<String>)
    ensures
        r is Some <==> valid_utf8(bytes@),
        r matches Some(t) ==> t@ == decode_utf8(bytes@),
{
    String::from_utf8(bytes).ok()
}

/// The offset the consumer starts from: the latest offset of the partition
/// when it could be read, 0 otherwise.
pub fn start_offset(latest: Option<i64>) -> (o: i64)
    ensures
        o == match latest {
            Some(l) => l,
            None => 0,
        },
{
    match latest {
        Some(l) => l,
        None => 0,
    }
}

/// Consumes a batch of records read from `offset`: advances past the last
/// record and keeps the texts of the payloads to analyse.
pub fn consume_batch(offset: i64, records: Vec<FetchedRecord>) -> (r: (i64, Vec<String>))
    requires
        offsets_below_max(records@),
    ensures
        r.0 == offset_after(offset as int, records@),
        text_views(r.1@) == payloads_of(records@),
        text_views(r.1@) == texts_in_order(records@),
        r.1@.len() == records@.filter(|x: FetchedRecord| has_text(x)).len(),
{
    let ghost recs = records@;
    let mut next = offset;
    let mut payloads: Vec<String> = Vec::new();
    for rec in it: records.into_iter()
        invariant
            it.seq() == recs,
            offsets_below_max(recs),
            next == offset_after(offset as int, recs.take(it.index() as int)),
            text_views(payloads@) == payloads_of(recs.take(it.index() as int)),
    {
        assert(recs.take(it.index() + 1).drop_last() =~= recs.take(it.index() as int));
        assert(recs[it.index() as int].offset < i64::MAX);
        next = rec.offset + 1;
        match rec.value {
            Some(v) => {
                match utf8_text(v) {
                    Some(t) => payloads.push(t),
                    None => {},
                }
            },
            None => {},
        }
        assert(text_views(payloads@) =~= payloads_of(recs.take(it.index() + 1)));
    }
    assert(recs.take(recs.len() as int) =~= recs);
    proof {
        lemma_payloads_are_texts_in_order(recs);
    }
    (next, payloads)
}

/// The consumer's decision after a fetch from `offset`: on records, advance
/// past them and analyse the texts of their payloads without pausing; on failure, keep
/// the offset, analyse nothing and pause for 500 ms.
pub fn consumer_step(offset: i64, fetch: FetchOutcome) -> (s: ConsumerStep)
    requires
        fetch matches FetchOutcome::Records(rs) ==> offsets_below_max(rs@),
    ensures
        match fetch {
            FetchOutcome::Records(rs) => {
                &&& s.next_offset == offset_after(offset as int, rs@)
                &&& text_views(s.payloads@) == payloads_of(rs@)
                &&& text_views(s.payloads@) == texts_in_order(rs@)
                &&& s.pause_ms == 0
            },
            FetchOutcome::Failed => {
                &&& s.next_offset == offset
                &&& s.payloads@.len() == 0
                &&& s.pause_ms == retry_pause_ms()
            },
        },
{
    match fetch {
        FetchOutcome::Records(records) => {
            let (next_offset, payloads) = consume_batch(offset, records);
            ConsumerStep { next_offset, payloads, pause_ms: 0 }
        },
        FetchOutcome::Failed => ConsumerStep { next_offset: offset, payloads: Vec::new(), pause_ms: 500 },
    }
}

/// Consuming two consecutive batches one after the other ends at the same
/// offset, with the same payloads in the same order, as consuming them as
/// one batch.
pub proof fn lemma_batches_compose(offset: int, a: Seq<FetchedRecord>, b: Seq<FetchedRecord>)
    ensures
        offset_after(offset_after(offset, a), b) == offset_after(offset, a + b),
        payloads_of(a) + payloads_of(b) == payloads_of(a + b),
    decreases b.len(),
{
    if b.len() == 0 {
        assert(a + b =~= a);
        assert(payloads_of(a) + payloads_of(b) =~= payloads_of(a));
    } else {
        lemma_batches_compose(offset, a, b.drop_last());
        assert((a + b).drop_last() =~= a + b.drop_last());
        assert((a + b).last() == b.last());
        match b.last().value {
            Some(v) => {
                if valid_utf8(v@) {
                    assert(payloads_of(a) + payloads_of(b) =~= (payloads_of(a) + payloads_of(
                        b.drop_last(),
                    )).push(decode_utf8(v@)));
                }
            },
            None => {},
        }
    }
}

/// Every record of `records` is at or after `offset`, as the records of a
/// fetch from `offset` are.
pub open spec fn read_from(offset: int, records: Seq<FetchedRecord>) -> bool {
    forall|i: int| 0 <= i < records.len() ==> offset <= #[trigger] records[i].offset
}

/// The offset reached from `offset` after consuming `batches` one after the
/// other (a failed fetch counts as an empty batch).
pub open spec fn offset_after_run(offset: int, batches: Seq<Seq<FetchedRecord>>) -> int
    decreases batches.len(),
{
    if batches.len() == 0 {
        offset
    } else {
        offset_after(offset_after_run(offset, batches.drop_last()), batches.last())
    }
}

/// Each batch of `batches` was read from the offset that the run had reached
/// when it was fetched.
pub open spec fn run_reads_forward(offset: int, batches: Seq<Seq<FetchedRecord>>) -> bool {
    forall|i: int|
        0 <= i < batches.len() ==> read_from(
            offset_after_run(offset, batches.take(i)),
            #[trigger] batches[i],
        )
}

/// The consumer never moves back: after a batch read from `offset`, the next
/// offset is at least `offset` (and past it when the batch is not empty).
pub proof fn lemma_offset_never_goes_back(offset: int, records: Seq<FetchedRecord>)
    requires
        read_from(offset, records),
    ensures
        offset <= offset_after(offset, records),
        records.len() > 0 ==> offset < offset_after(offset, records),
{
    if records.len() > 0 {
        assert(offset <= records[records.len() - 1].offset);
    }
}

/// Over a run of fetches, each read from where the run had got to, the
/// offsets passed to the fetches never decrease.
pub proof fn lemma_run_offsets_increase(offset: int, batches: Seq<Seq<FetchedRecord>>, i: int, j: int)
    requires
        run_reads_forward(offset, batches),
        0 <= i <= j <= batches.len(),
    ensures
        offset_after_run(offset, batches.take(i)) <= offset_after_run(offset, batches.take(j)),
    decreases j - i,
{
    if i < j {
        lemma_run_offsets_increase(offset, batches, i, j - 1);
        let prefix = batches.take(j - 1);
        assert(batches.take(j).drop_last() =~= prefix);
        assert(batches.take(j).last() == batches[j - 1]);
        assert(read_from(offset_after_run(offset, prefix), batches[j - 1]));
        lemma_offset_never_goes_back(offset_after_run(offset, prefix), batches[j - 1]);
    }
}

/// The offsets of `records` strictly increase, as within a partition.
pub open spec fn offsets_increase(records: Seq<FetchedRecord>) -> bool {
    forall|i: int, j: int|
        0 <= i < j < records.len() ==> #[trigger] records[i].offset < #[trigger] records[j].offset
}

/// The records consumed over a run of batches, in the order consumed.
pub open spec fn records_of_run(batches: Seq<Seq<FetchedRecord>>) -> Seq<FetchedRecord>
    decreases batches.len(),
{
    if batches.len() == 0 {
        Seq::empty()
    } else {
        records_of_run(batches.drop_last()) + batches.last()
    }
}

/// The payload texts handed to analysis over a run of batches: those of
/// each step, one step after the other.
pub open spec fn payloads_of_run(batches: Seq<Seq<FetchedRecord>>) -> Seq<Seq<char>>
    decreases batches.len(),
{
    if batches.len() == 0 {
        Seq::empty()
    } else {
        payloads_of_run(batches.drop_last()) + payloads_of(batches.last())
    }
}

/// Over a run of fetches, each read from the offset the run had reached and
/// each returning records in increasing offset order, every record consumed
/// has an offset of its own, the offsets come in increasing order, all lie
/// between the start offset and the offset reached, and the texts analysed
/// are those of the consumed records, in that order. So each record is
/// analysed at most once, in offset order.
pub proof fn lemma_run_consumes_each_record_once(offset: int, batches: Seq<Seq<FetchedRecord>>)
    requires
        run_reads_forward(offset, batches),
        forall|i: int| 0 <= i < batches.len() ==> offsets_increase(#[trigger] batches[i]),
    ensures
        offsets_increase(records_of_run(batches)),
        forall|k: int|
            0 <= k < records_of_run(batches).len() ==> offset <= #[trigger] records_of_run(
                batches,
            )[k].offset < offset_after_run(offset, batches),
        offset <= offset_after_run(offset, batches),
        payloads_of_run(batches) == payloads_of(records_of_run(batches)),
    decreases batches.len(),
{
    if batches.len() > 0 {
        let n = batches.len() - 1;
        let prev = batches.drop_last();
        let b = batches.last();
        assert forall|i: int| 0 <= i < prev.len() implies read_from(
            offset_after_run(offset, prev.take(i)),
            #[trigger] prev[i],
        ) by {
            assert(prev.take(i) =~= batches.take(i));
            assert(read_from(offset_after_run(offset, batches.take(i)), batches[i]));
        }
        assert forall|i: int| 0 <= i < prev.len() implies offsets_increase(#[trigger] prev[i]) by {
            assert(offsets_increase(batches[i]));
        }
        lemma_run_consumes_each_record_once(offset, prev);
        let r = records_of_run(prev);
        let o = offset_after_run(offset, prev);
        assert(batches.take(n) =~= prev);
        assert(read_from(offset_after_run(offset, batches.take(n)), batches[n]));
        assert(read_from(o, b));
        assert(offsets_increase(batches[n]));
        lemma_offset_never_goes_back(o, b);
        let all = records_of_run(batches);
        assert(all == r + b);
        assert forall|i: int, j: int| 0 <= i < j < all.len() implies #[trigger] all[i].offset
            < #[trigger] all[j].offset by {
            if j < r.len() {
                assert(all[i] == r[i] && all[j] == r[j]);
            } else if i < r.len() {
                assert(all[i] == r[i]);
                assert(all[j] == b[j - r.len()]);
                assert(o <= b[j - r.len()].offset);
            } else {
                assert(all[i] == b[i - r.len()] && all[j] == b[j - r.len()]);
            }
        }
        assert forall|k: int| 0 <= k < all.len() implies offset <= #[trigger] all[k].offset
            < offset_after_run(offset, batches) by {
            if k < r.len() {
                assert(all[k] == r[k]);
                if b.len() > 0 {
                    assert(o <= b[0].offset);
                    assert(b[0].offset <= b[b.len() - 1].offset);
                }
            } else {
                assert(all[k] == b[k - r.len()]);
                assert(o <= b[k - r.len()].offset);
                assert(b[k - r.len()].offset <= b[b.len() - 1].offset);
            }
        }
        lemma_batches_compose(o, r, b);
    } else {
        assert(records_of_run(batches) =~= Seq::<FetchedRecord>::empty());
    }
}

/// The payloads handed to analysis are, in order, the texts of exactly the
/// records that carry valid UTF-8: every such record contributes its decoded
/// text, whatever its length, and no other record contributes anything.
pub proof fn lemma_payloads_are_texts_in_order(records: Seq<FetchedRecord>)
    ensures
        payloads_of(records) == texts_in_order(records),
    decreases records.len(),
{
    reveal_with_fuel(Seq::<FetchedRecord>::filter, 1);
    if records.len() > 0 {
        lemma_payloads_are_texts_in_order(records.drop_last());
        let pred = |r: FetchedRecord| has_text(r);
        let f = |r: FetchedRecord| text_of(r);
        let rest = records.drop_last().filter(pred);
        if pred(records.last()) {
            assert(records.filter(pred) == rest.push(records.last()));
            assert(rest.push(records.last()).map_values(f) =~= rest.map_values(f).push(
                f(records.last()),
            ));
        } else {
            assert(records.filter(pred) == rest);
        }
    } else {
        assert(records.filter(|r: FetchedRecord| has_text(r)) =~= Seq::<FetchedRecord>::empty());
        assert(texts_in_order(records) =~= Seq::<Seq<char>>::empty());
    }
}

/// A single record whose payload is valid UTF-8 is handed to analysis as
/// exactly its decoded text; a record without such a payload gives nothing.
pub proof fn lemma_single_record_payload(r: FetchedRecord)
    ensures
        has_text(r) ==> payloads_of(seq![r]) == seq![text_of(r)],
        !has_text(r) ==> payloads_of(seq![r]) == Seq::<Seq<char>>::empty(),
{
    lemma_payloads_are_texts_in_order(seq![r]);
    reveal_with_fuel(Seq::<FetchedRecord>::filter, 2);
    assert(seq![r].drop_last() =~= Seq::<FetchedRecord>::empty());
    if has_text(r) {
        assert(seq![r].filter(|x: FetchedRecord| has_text(x)) =~= seq![r]);
        assert(texts_in_order(seq![r]) =~= seq![text_of(r)]);
    } else {
        assert(seq![r].filter(|x: FetchedRecord| has_text(x)) =~= Seq::<FetchedRecord>::empty());
        assert(texts_in_order(seq![r]) =~= Seq::<Seq<char>>::empty());
    }
}

} // verus!
