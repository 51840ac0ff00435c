//! The core of one detection cycle, after collection: score the cycle's
//! feature vector, then persist every collected event tagged with the
//! cycle's single risk score.
//!
//! Collection, model inference and uplink are outside collaborators; the
//! caller hands their outputs in (the event batch, each event's
//! serialized payload, the vectors the extractor produced, and the raw
//! anomaly score) and this module decides and persists.

use vstd::prelude::*;
use crate::events::Event;
use crate::features::FeatureVector;
use crate::risk::{spec_level, RiskEngine, RiskResult};
use crate::store::{blob_opens_to, SecureStore, StoreError, StoredRow};

verus! {

/// The ids of a batch of events.
pub open spec fn ids_of(es: Seq<Event>) -> Set<Seq<char>> {
    es.map_values(|e: Event| e.id@).to_set()
}

/// Whether no later event of the batch shares the id of the one at `i`;
/// with upsert semantics, that event's row is the one that survives.
pub open spec fn last_occurrence(es: Seq<Event>, i: int) -> bool {
    forall|j: int| i < j < es.len() ==> es[j].id@ != es[i].id@
}

/// What persisting a batch does to the row map: every event is upserted
/// in order under the one score, so afterwards the ids are exactly the
/// old ones plus the batch's, rows of other ids are untouched, and each
/// id's row is the batch's last event with that id — its timestamp, its
/// source as the kind, a blob that opens to its payload, and the score.
pub open spec fn persisted(
    old_rows: Map<Seq<char>, StoredRow>,
    new_rows: Map<Seq<char>, StoredRow>,
    key: Seq<u8>,
    es: Seq<Event>,
    ps: Seq<String>,
    score: u32,
) -> bool {
    &&& new_rows.dom() == old_rows.dom().union(ids_of(es))
    &&& forall|k: Seq<char>|
        old_rows.contains_key(k) && !ids_of(es).contains(k) ==> #[trigger] new_rows[k]
            == old_rows[k]
    &&& forall|i: int|
        0 <= i < es.len() && #[trigger] last_occurrence(es, i) ==> {
            &&& new_rows.contains_key(es[i].id@)
            &&& new_rows[es[i].id@].0 == es[i].ts
            &&& new_rows[es[i].id@].1 == es[i].source@
            &&& new_rows[es[i].id@].3 == Some(score)
            &&& blob_opens_to(key, new_rows[es[i].id@].2, ps[i]@)
        }
}

/// Persist every event of the batch into the store, each under its own
/// id with its serialized payload and the cycle's single risk score. On
/// an error the store keeps what was inserted before it (each statement
/// is atomic, the loop is not).
pub fn persist_cycle(
    store: &mut SecureStore,
    events: &Vec<Event>,
    payloads: &Vec<String>,
    score: u32,
) -> (r: Result<(), StoreError>)
    requires
        old(store).wf(),
        payloads@.len() == events@.len(),
    ensures
        final(store).wf(),
        final(store).key() == old(store).key(),
        r is Ok ==> persisted(
            old(store).rows(),
            final(store).rows(),
            old(store).key(),
            events@,
            payloads@,
            score,
        ),
        events@.len() == 0 ==> r is Ok && final(store).rows() == old(store).rows(),
{
    let ghost es = events@;
    let ghost ps = payloads@;
    proof {
        assert(ids_of(es.take(0)) =~= Set::<Seq<char>>::empty());
        assert(old(store).rows().dom().union(ids_of(es.take(0))) =~= old(store).rows().dom());
    }
    let mut n: usize = 0;
    while n < events.len()
        invariant
            n <= es.len(),
            es == events@,
            ps == payloads@,
            ps.len() == es.len(),
            store.wf(),
            store.key() == old(store).key(),
            persisted(
                old(store).rows(),
                store.rows(),
                old(store).key(),
                es.take(n as int),
                ps.take(n as int),
                score,
            ),
        decreases es.len() - n,
    {
        let e = &events[n];
        let ghost prev_rows = store.rows();
        let res = store.insert_event(
            e.id.as_str(),
            e.ts,
            e.source.as_str(),
            payloads[n].as_str(),
            Some(score),
        );
        match res {
            Ok(()) => {},
            Err(err) => {
                return Err(err);
            },
        }
        proof {
            let prefix = es.take(n as int);
            let prefix1 = es.take(n + 1);
            assert(prefix1 =~= prefix.push(es[n as int]));
            assert(prefix1.map_values(|e: Event| e.id@) =~= prefix.map_values(
                |e: Event| e.id@,
            ).push(es[n as int].id@));
            prefix.map_values(|e: Event| e.id@).lemma_push_to_set_commute(es[n as int].id@);
            assert(ids_of(prefix1) =~= ids_of(prefix).insert(es[n as int].id@));
            let blob = choose|blob: Seq<char>|
                store.rows() == prev_rows.insert(
                    es[n as int].id@,
                    (es[n as int].ts, es[n as int].source@, blob, Some(score)),
                ) && #[trigger] blob_opens_to(old(store).key(), blob, ps[n as int]@);
            assert(store.rows().dom() =~= old(store).rows().dom().union(ids_of(prefix1)));
            assert forall|i: int|
                0 <= i < prefix1.len() && #[trigger] last_occurrence(prefix1, i) implies {
                &&& store.rows().contains_key(prefix1[i].id@)
                &&& store.rows()[prefix1[i].id@].0 == prefix1[i].ts
                &&& store.rows()[prefix1[i].id@].1 == prefix1[i].source@
                &&& store.rows()[prefix1[i].id@].3 == Some(score)
                &&& blob_opens_to(
                    old(store).key(),
                    store.rows()[prefix1[i].id@].2,
                    ps.take(n + 1)[i]@,
                )
            } by {
                assert(prefix1[n as int] == es[n as int]);
                if i == n {
                } else {
                    assert(prefix1[i] == prefix[i]);
                    assert(prefix1[i].id@ != prefix1[n as int].id@);
                    assert forall|j: int| i < j < prefix.len() implies prefix[j].id@
                        != prefix[i].id@ by {
                        assert(prefix[j] == prefix1[j]);
                        assert(prefix1[j].id@ != prefix1[i].id@);
                    }
                    assert(last_occurrence(prefix, i));
                }
            }
            assert(persisted(
                old(store).rows(),
                store.rows(),
                old(store).key(),
                es.take(n + 1),
                ps.take(n + 1),
                score,
            ));
        }
        n = n + 1;
    }
    proof {
        assert(es.take(es.len() as int) =~= es);
        assert(ps.take(ps.len() as int) =~= ps);
    }
    Ok(())
}

/// Finish one cycle after collection and inference: attach a level to
/// the cycle's raw score — tagged with the first vector's event id and
/// timestamp, or an empty id and time zero when no vector was produced —
/// and persist every collected event with that one score. A cycle with
/// no events always completes.
pub fn complete_cycle(
    engine: &RiskEngine,
    store: &mut SecureStore,
    events: &Vec<Event>,
    payloads: &Vec<String>,
    vectors: &Vec<FeatureVector>,
    raw_score: u32,
) -> (r: Result<RiskResult, StoreError>)
    requires
        old(store).wf(),
        payloads@.len() == events@.len(),
    ensures
        final(store).wf(),
        final(store).key() == old(store).key(),
        r matches Ok(res) ==> {
            &&& res.score == raw_score
            &&& res.level == spec_level(raw_score, engine.spec_config())
            &&& vectors@.len() > 0 ==> res.event_id@ == vectors@[0].event_id@ && res.ts
                == vectors@[0].ts
            &&& vectors@.len() == 0 ==> res.event_id@ == Seq::<char>::empty() && res.ts == 0
            &&& persisted(
                old(store).rows(),
                final(store).rows(),
                old(store).key(),
                events@,
                payloads@,
                raw_score,
            )
        },
        events@.len() == 0 ==> r is Ok && final(store).rows() == old(store).rows(),
{
    let result = if vectors.len() > 0 {
        let fv = &vectors[0];
        engine.score(fv.event_id.clone(), raw_score, fv.ts)
    } else {
        engine.score(String::new(), raw_score, 0)
    };
    match persist_cycle(store, events, payloads, result.score) {
        Ok(()) => Ok(result),
        Err(e) => Err(e),
    }
}

} // verus!
