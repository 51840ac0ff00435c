//! Behavioral statistics over a window of events: per-kind counts,
//! cardinalities of distinct process names and file paths, cumulative byte
//! and size totals, and the average command-line length.
//!
//! The mathematical model is [`window_model`], a fold over the event
//! sequence with exact (unbounded) integer totals; the executable
//! [`BehavioralStats`] carries the same values with totals saturated at
//! `u64::MAX`, as [`stats_match`] states.

use vstd::prelude::*;
use vstd::utf8::encode_utf8;
use crate::events::{Event, EventKind};

verus! {

/// Exact aggregate of a window: counts and totals as unbounded integers,
/// distinct names and paths as sets.
pub ghost struct WindowModel {
    pub process_count: int,
    pub network_count: int,
    pub file_count: int,
    pub privilege_count: int,
    pub privilege_success: int,
    pub privilege_fail: int,
    pub bytes_sent: int,
    pub bytes_recv: int,
    pub file_size: int,
    pub cmdline_total: int,
    pub cmdline_count: int,
    pub process_names: Set<Seq<char>>,
    pub file_paths: Set<Seq<char>>,
}

pub open spec fn empty_model() -> WindowModel {
    WindowModel {
        process_count: 0,
        network_count: 0,
        file_count: 0,
        privilege_count: 0,
        privilege_success: 0,
        privilege_fail: 0,
        bytes_sent: 0,
        bytes_recv: 0,
        file_size: 0,
        cmdline_total: 0,
        cmdline_count: 0,
        process_names: Set::empty(),
        file_paths: Set::empty(),
    }
}

/// The length in bytes of a string's UTF-8 encoding, as a `usize` holds
/// it; for a string held in memory the two are the same.
pub open spec fn byte_len(s: Seq<char>) -> int {
    (encode_utf8(s).len() as usize) as int
}

/// How one event changes the aggregate. Command-line lengths are counted
/// in bytes of the UTF-8 encoding.
pub open spec fn model_step(m: WindowModel, e: Event) -> WindowModel {
    match e.kind {
        EventKind::Process(p) => WindowModel {
            process_count: m.process_count + 1,
            process_names: m.process_names.insert(p.name@),
            cmdline_total: m.cmdline_total + match p.cmdline {
                Some(c) => byte_len(c@),
                None => 0,
            },
            cmdline_count: m.cmdline_count + if p.cmdline is Some {
                1int
            } else {
                0int
            },
            ..m
        },
        EventKind::Network(n) => WindowModel {
            network_count: m.network_count + 1,
            bytes_sent: m.bytes_sent + n.bytes_sent,
            bytes_recv: m.bytes_recv + n.bytes_recv,
            ..m
        },
        EventKind::FileIntegrity(f) => WindowModel {
            file_count: m.file_count + 1,
            file_paths: m.file_paths.insert(f.path@),
            file_size: m.file_size + f.size,
            ..m
        },
        EventKind::Privilege(p) => WindowModel {
            privilege_count: m.privilege_count + 1,
            privilege_success: m.privilege_success + if p.success {
                1int
            } else {
                0int
            },
            privilege_fail: m.privilege_fail + if p.success {
                0int
            } else {
                1int
            },
            ..m
        },
    }
}

/// The aggregate of a whole window, folded left to right.
pub open spec fn window_model(s: Seq<Event>) -> WindowModel
    decreases s.len(),
{
    if s.len() == 0 {
        empty_model()
    } else {
        model_step(window_model(s.drop_last()), s.last())
    }
}

/// Every count in the model is bounded by the window's length, the
/// distinct sets are finite and no larger than their counts, and the
/// privilege outcomes partition the privilege count.
pub proof fn lemma_model_bounds(s: Seq<Event>)
    ensures
        ({
            let m = window_model(s);
            &&& m.process_count + m.network_count + m.file_count + m.privilege_count == s.len()
            &&& 0 <= m.process_count
            &&& 0 <= m.network_count
            &&& 0 <= m.file_count
            &&& 0 <= m.privilege_count
            &&& 0 <= m.privilege_success
            &&& 0 <= m.privilege_fail
            &&& m.privilege_success + m.privilege_fail == m.privilege_count
            &&& 0 <= m.cmdline_count <= m.process_count
            &&& 0 <= m.cmdline_total
            &&& 0 <= m.bytes_sent
            &&& 0 <= m.bytes_recv
            &&& 0 <= m.file_size
            &&& m.process_names.finite()
            &&& m.process_names.len() <= m.process_count
            &&& m.file_paths.finite()
            &&& m.file_paths.len() <= m.file_count
        }),
    decreases s.len(),
{
    if s.len() > 0 {
        lemma_model_bounds(s.drop_last());
    }
}

/// An integer clamped to what a `u64` holds.
pub open spec fn clamp_u64(x: int) -> int {
    if x > u64::MAX {
        u64::MAX as int
    } else {
        x
    }
}

/// The micro-unit average: `total * 1_000_000 / count`, clamped to a
/// `u64`; zero when nothing was counted.
pub open spec fn avg_micro(total: int, count: int) -> int {
    if count == 0 {
        0
    } else {
        clamp_u64(total * 1_000_000 / count)
    }
}

/// Aggregate statistics computed fresh from a window snapshot. Totals
/// saturate at `u64::MAX`; `avg_cmdline_len` is in micro-units (one
/// byte of average length is `1_000_000`).
#[derive(Clone, Debug)]
pub struct BehavioralStats {
    pub process_count: u32,
    pub network_count: u32,
    pub file_count: u32,
    pub privilege_count: u32,
    pub unique_process_names: u32,
    pub avg_cmdline_len: u64,
    pub total_bytes_sent: u64,
    pub total_bytes_recv: u64,
    pub unique_file_paths: u32,
    pub total_file_size: u64,
    pub privilege_success: u32,
    pub privilege_fail: u32,
}

/// The executable statistics carry exactly the model's values, with the
/// unbounded totals clamped to `u64` and the average computed from the
/// clamped total.
pub open spec fn stats_match(m: WindowModel, s: BehavioralStats) -> bool {
    &&& s.process_count == m.process_count
    &&& s.network_count == m.network_count
    &&& s.file_count == m.file_count
    &&& s.privilege_count == m.privilege_count
    &&& s.privilege_success == m.privilege_success
    &&& s.privilege_fail == m.privilege_fail
    &&& s.unique_process_names == m.process_names.len()
    &&& s.unique_file_paths == m.file_paths.len()
    &&& s.total_bytes_sent == clamp_u64(m.bytes_sent)
    &&& s.total_bytes_recv == clamp_u64(m.bytes_recv)
    &&& s.total_file_size == clamp_u64(m.file_size)
    &&& s.avg_cmdline_len == avg_micro(clamp_u64(m.cmdline_total), m.cmdline_count)
}

/// The statistics a window model yields: every count carried over, the
/// totals clamped to a `u64`, the average from the clamped total.
pub open spec fn stats_of(m: WindowModel) -> BehavioralStats {
    BehavioralStats {
        process_count: m.process_count as u32,
        network_count: m.network_count as u32,
        file_count: m.file_count as u32,
        privilege_count: m.privilege_count as u32,
        unique_process_names: m.process_names.len() as u32,
        avg_cmdline_len: avg_micro(clamp_u64(m.cmdline_total), m.cmdline_count) as u64,
        total_bytes_sent: clamp_u64(m.bytes_sent) as u64,
        total_bytes_recv: clamp_u64(m.bytes_recv) as u64,
        unique_file_paths: m.file_paths.len() as u32,
        total_file_size: clamp_u64(m.file_size) as u64,
        privilege_success: m.privilege_success as u32,
        privilege_fail: m.privilege_fail as u32,
    }
}

/// The smaller of two `u64` values.
pub open spec fn min_u64(a: u64, b: u64) -> u64 {
    if a < b {
        a
    } else {
        b
    }
}

/// The fixed encoding order of the statistics, in micro-units: counts
/// divided by 1000, privilege counts by 100, name cardinality by 500 and
/// path cardinality by 1000, the average length by 1000, and byte totals
/// by 10^9 clamped to at most 1.0.
pub open spec fn encode_features(s: BehavioralStats) -> Seq<u64> {
    seq![
        (s.process_count * 1000) as u64,
        (s.network_count * 1000) as u64,
        (s.file_count * 1000) as u64,
        (s.privilege_count * 10000) as u64,
        (s.unique_process_names * 2000) as u64,
        (s.avg_cmdline_len / 1000) as u64,
        min_u64((s.total_bytes_sent / 1000) as u64, 1_000_000),
        min_u64((s.total_bytes_recv / 1000) as u64, 1_000_000),
        (s.unique_file_paths * 1000) as u64,
        min_u64((s.total_file_size / 1000) as u64, 1_000_000),
        (s.privilege_success * 10000) as u64,
        (s.privilege_fail * 10000) as u64,
    ]
}

/// `raw` padded with zeroes, or truncated, to exactly `dim` slots.
pub open spec fn padded(raw: Seq<u64>, dim: nat) -> Seq<u64> {
    Seq::new(
        dim,
        |i: int|
            if 0 <= i < raw.len() {
                raw[i]
            } else {
                0u64
            },
    )
}

/// Whether some element of `v` reads as the string `s`.
fn contains_string(v: &Vec<String>, s: &String) -> (r: bool)
    ensures
        r == exists|k: int| 0 <= k < v@.len() && v@[k]@ == s@,
{
    let mut j: usize = 0;
    while j < v.len()
        invariant
            j <= v@.len(),
            forall|k: int| 0 <= k < j ==> v@[k]@ != s@,
        decreases v@.len() - j,
    {
        if v[j] == *s {
            return true;
        }
        j += 1;
    }
    false
}

impl BehavioralStats {
    /// Compute the aggregate of `events` in one pass. The result carries
    /// the window model's values as [`stats_match`] states.
    pub fn from_events(events: &Vec<Event>) -> (s: BehavioralStats)
        requires
            events@.len() <= u32::MAX,
        ensures
            stats_match(window_model(events@), s),
            s == stats_of(window_model(events@)),
    {
        let mut process_count: u32 = 0;
        let mut network_count: u32 = 0;
        let mut file_count: u32 = 0;
        let mut privilege_count: u32 = 0;
        let mut privilege_success: u32 = 0;
        let mut privilege_fail: u32 = 0;
        let mut bytes_sent: u64 = 0;
        let mut bytes_recv: u64 = 0;
        let mut file_size: u64 = 0;
        let mut cmdline_total: u64 = 0;
        let mut cmdline_count: u32 = 0;
        let mut names: Vec<String> = Vec::new();
        let mut paths: Vec<String> = Vec::new();

        let mut i: usize = 0;
        while i < events.len()
            invariant
                i <= events@.len(),
                events@.len() <= u32::MAX,
                ({
                    let m = window_model(events@.take(i as int));
                    &&& process_count == m.process_count
                    &&& network_count == m.network_count
                    &&& file_count == m.file_count
                    &&& privilege_count == m.privilege_count
                    &&& privilege_success == m.privilege_success
                    &&& privilege_fail == m.privilege_fail
                    &&& bytes_sent == clamp_u64(m.bytes_sent)
                    &&& bytes_recv == clamp_u64(m.bytes_recv)
                    &&& file_size == clamp_u64(m.file_size)
                    &&& cmdline_total == clamp_u64(m.cmdline_total)
                    &&& cmdline_count == m.cmdline_count
                    &&& names@.map_values(|x: String| x@).no_duplicates()
                    &&& names@.map_values(|x: String| x@).to_set() == m.process_names
                    &&& paths@.map_values(|x: String| x@).no_duplicates()
                    &&& paths@.map_values(|x: String| x@).to_set() == m.file_paths
                }),
            decreases events@.len() - i,
        {
            proof {
                lemma_model_bounds(events@.take(i as int));
                assert(events@.take(i + 1).drop_last() =~= events@.take(i as int));
                assert(events@.take(i + 1).last() == events@[i as int]);
            }
            match &events[i].kind {
                EventKind::Process(p) => {
                    process_count = process_count + 1;
                    if !contains_string(&names, &p.name) {
                        let ghost old_names = names@.map_values(|x: String| x@);
                        names.push(p.name.clone());
                        proof {
                            assert(names@.map_values(|x: String| x@) =~= old_names.push(
                                p.name@,
                            ));
                            old_names.lemma_push_to_set_commute(p.name@);
                        }
                    } else {
                        proof {
                            let mapped = names@.map_values(|x: String| x@);
                            let k = choose|k: int|
                                0 <= k < names@.len() && names@[k]@ == p.name@;
                            assert(mapped[k] == p.name@);
                            assert(mapped.contains(p.name@));
                            assert(mapped.to_set().insert(p.name@) =~= mapped.to_set());
                        }
                    }
                    match &p.cmdline {
                        Some(c) => {
                            cmdline_total = cmdline_total.saturating_add(c.as_str().len() as u64);
                            cmdline_count = cmdline_count + 1;
                        },
                        None => {},
                    }
                },
                EventKind::Network(n) => {
                    network_count = network_count + 1;
                    bytes_sent = bytes_sent.saturating_add(n.bytes_sent);
                    bytes_recv = bytes_recv.saturating_add(n.bytes_recv);
                },
                EventKind::FileIntegrity(f) => {
                    file_count = file_count + 1;
                    if !contains_string(&paths, &f.path) {
                        let ghost old_paths = paths@.map_values(|x: String| x@);
                        paths.push(f.path.clone());
                        proof {
                            assert(paths@.map_values(|x: String| x@) =~= old_paths.push(
                                f.path@,
                            ));
                            old_paths.lemma_push_to_set_commute(f.path@);
                        }
                    } else {
                        proof {
                            let mapped = paths@.map_values(|x: String| x@);
                            let k = choose|k: int|
                                0 <= k < paths@.len() && paths@[k]@ == f.path@;
                            assert(mapped[k] == f.path@);
                            assert(mapped.contains(f.path@));
                            assert(mapped.to_set().insert(f.path@) =~= mapped.to_set());
                        }
                    }
                    file_size = file_size.saturating_add(f.size);
                },
                EventKind::Privilege(p) => {
                    privilege_count = privilege_count + 1;
                    if p.success {
                        privilege_success = privilege_success + 1;
                    } else {
                        privilege_fail = privilege_fail + 1;
                    }
                },
            }
            i = i + 1;
        }
        proof {
            assert(events@.take(events@.len() as int) =~= events@);
            names@.map_values(|x: String| x@).unique_seq_to_set();
            paths@.map_values(|x: String| x@).unique_seq_to_set();
            lemma_model_bounds(events@);
        }
        let avg_cmdline_len: u64 = if cmdline_count == 0 {
            0
        } else {
            let wide: u128 = (cmdline_total as u128) * 1_000_000 / (cmdline_count as u128);
            if wide > u64::MAX as u128 {
                u64::MAX
            } else {
                wide as u64
            }
        };
        BehavioralStats {
            process_count,
            network_count,
            file_count,
            privilege_count,
            unique_process_names: names.len() as u32,
            avg_cmdline_len,
            total_bytes_sent: bytes_sent,
            total_bytes_recv: bytes_recv,
            unique_file_paths: paths.len() as u32,
            total_file_size: file_size,
            privilege_success,
            privilege_fail,
        }
    }

    /// Encode the statistics as a fixed-dimension vector in the fixed
    /// order of [`encode_features`]: slots beyond the encoded statistics
    /// are zero-filled, excess statistics are silently dropped.
    pub fn to_vector(&self, dim: usize) -> (r: Vec<u64>)
        ensures
            r@ == padded(encode_features(*self), dim as nat),
            r@.len() == dim,
    {
        let mut raw: Vec<u64> = Vec::new();
        raw.push((self.process_count as u64) * 1000);
        raw.push((self.network_count as u64) * 1000);
        raw.push((self.file_count as u64) * 1000);
        raw.push((self.privilege_count as u64) * 10000);
        raw.push((self.unique_process_names as u64) * 2000);
        raw.push(self.avg_cmdline_len / 1000);
        let sent: u64 = self.total_bytes_sent / 1000;
        raw.push(if sent < 1_000_000 { sent } else { 1_000_000 });
        let recv: u64 = self.total_bytes_recv / 1000;
        raw.push(if recv < 1_000_000 { recv } else { 1_000_000 });
        raw.push((self.unique_file_paths as u64) * 1000);
        let fsize: u64 = self.total_file_size / 1000;
        raw.push(if fsize < 1_000_000 { fsize } else { 1_000_000 });
        raw.push((self.privilege_success as u64) * 10000);
        raw.push((self.privilege_fail as u64) * 10000);
        proof {
            assert(raw@ =~= encode_features(*self));
        }
        let mut out: Vec<u64> = Vec::new();
        let mut k: usize = 0;
        while k < dim
            invariant
                k <= dim,
                raw@ == encode_features(*self),
                out@.len() == k,
                forall|j: int|
                    0 <= j < k ==> out@[j] == padded(encode_features(*self), dim as nat)[j],
            decreases dim - k,
        {
            if k < raw.len() {
                let v = raw[k];
                out.push(v);
            } else {
                out.push(0);
            }
            k = k + 1;
        }
        proof {
            assert(out@ =~= padded(encode_features(*self), dim as nat));
        }
        out
    }
}

} // verus!
