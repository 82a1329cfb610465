//! Catalog reconciliation: turns the raw observations of one scan cycle into
//! the canonical, deduplicated and ordered network catalog.

use vstd::prelude::*;
use vstd::string::*;

use crate::text::{
    dec_val, join_fields, joined, parse_decimal, prefix_digits, split_fields, split_parts, views_of,
};
use crate::types::{find_ssid, has_ssid, WifiNetwork};

verus! {

/// One raw scan observation, as reported by the backend for a single access
/// point; repeated partial scans may observe the same `ssid` several times.
#[derive(Debug)]
pub struct RawObservation {
    pub ssid: String,
    pub signal_strength: u8,
    pub secured: bool,
    pub frequency: u32,
}

/// The backend reports `ssid` as the currently associated network.
pub open spec fn is_associated(conn: Option<String>, ssid: Seq<char>) -> bool {
    match conn {
        Some(c) => c@ == ssid,
        None => false,
    }
}

/// `e` carries the data of observation `o`.
pub open spec fn obs_matches(e: WifiNetwork, o: RawObservation) -> bool {
    &&& e.ssid@ == o.ssid@
    &&& e.signal_strength == o.signal_strength
    &&& e.secured == o.secured
    &&& e.frequency == o.frequency
}

/// A canonical entry is a real observation with a non-empty `ssid`, carries
/// the maximal frequency among all observations of its `ssid`, and is
/// tagged as connected exactly when its `ssid` is the associated one.
pub open spec fn entry_from(e: WifiNetwork, obs: Seq<RawObservation>, conn: Option<String>) -> bool {
    &&& e.ssid@.len() > 0
    &&& (exists|k: int| 0 <= k < obs.len() && obs_matches(e, obs[k]))
    &&& (forall|k: int|
        0 <= k < obs.len() && obs[k].ssid@ == e.ssid@ ==> obs[k].frequency <= e.frequency)
    &&& e.connected == is_associated(conn, e.ssid@)
}

/// No two entries share an `ssid`.
pub open spec fn ssid_unique(s: Seq<WifiNetwork>) -> bool {
    forall|i: int, j: int| 0 <= i < j < s.len() ==> s[i].ssid@ != s[j].ssid@
}

/// Every observation with a non-empty `ssid` has an entry in `s`.
pub open spec fn covers(obs: Seq<RawObservation>, s: Seq<WifiNetwork>) -> bool {
    forall|k: int| 0 <= k < obs.len() && obs[k].ssid@.len() > 0 ==> has_ssid(s, obs[k].ssid@)
}

/// Canonical order: the connected entry first, then descending signal
/// strength. A total preorder.
pub open spec fn precedes(a: WifiNetwork, b: WifiNetwork) -> bool {
    ||| (a.connected && !b.connected)
    ||| (a.connected == b.connected && a.signal_strength >= b.signal_strength)
}

/// `s` is sorted by `precedes`.
pub open spec fn ordered(s: Seq<WifiNetwork>) -> bool {
    forall|i: int, j: int| 0 <= i < j < s.len() ==> precedes(s[i], s[j])
}

/// Some entry of `s` is marked connected.
pub open spec fn has_connected(s: Seq<WifiNetwork>) -> bool {
    exists|i: int| 0 <= i < s.len() && s[i].connected
}

fn associated_with(conn: &Option<String>, ssid: &String) -> (r: bool)
    ensures
        r == is_associated(*conn, ssid@),
{
    match conn {
        Some(c) => *c == *ssid,
        None => false,
    }
}

fn comes_before(a: &WifiNetwork, b: &WifiNetwork) -> (r: bool)
    ensures
        r == precedes(*a, *b),
{
    if a.connected == b.connected {
        a.signal_strength >= b.signal_strength
    } else {
        a.connected
    }
}

/// Reconciles the raw observations of one scan cycle into the canonical
/// catalog: observations with an empty `ssid` are discarded, duplicate
/// `ssid`s are merged keeping the observation with the highest frequency,
/// each entry is tagged as connected exactly when its `ssid` matches the
/// backend's associated network, and the result is ordered with the
/// connected entry first, then by descending signal strength. Pure in its
/// inputs: no hidden state.
pub fn reconcile(observations: Vec<RawObservation>, connected_ssid: Option<String>) -> (r: Vec<
    WifiNetwork,
>)
    ensures
        ssid_unique(r@),
        forall|i: int| 0 <= i < r@.len() ==> entry_from(#[trigger] r@[i], observations@, connected_ssid),
        covers(observations@, r@),
        ordered(r@),
        has_connected(r@) ==> r@[0].connected,
        forall|i: int, j: int|
            0 <= i < r@.len() && 0 <= j < r@.len() && r@[i].connected && r@[j].connected ==> i
                == j,
{
    let ghost obs = observations@;
    let mut pool: Vec<WifiNetwork> = Vec::new();
    let mut k: usize = 0;
    while k < observations.len()
        invariant
            obs == observations@,
            k <= obs.len(),
            ssid_unique(pool@),
            forall|i: int|
                0 <= i < pool@.len() ==> entry_from(
                    #[trigger] pool@[i],
                    obs.take(k as int),
                    connected_ssid,
                ),
            covers(obs.take(k as int), pool@),
        decreases obs.len() - k,
    {
        let ghost prefix = obs.take(k as int);
        let ghost prefix1 = obs.take(k as int + 1);
        proof {
            assert(prefix1.drop_last() =~= prefix);
            assert(prefix1.last() == obs[k as int]);
        }
        let o = &observations[k];
        if !o.ssid.as_str().is_empty() {
            let conn_flag = associated_with(&connected_ssid, &o.ssid);
            let entry = WifiNetwork {
                ssid: o.ssid.clone(),
                signal_strength: o.signal_strength,
                secured: o.secured,
                frequency: o.frequency,
                connected: conn_flag,
            };
            match find_ssid(&pool, &o.ssid) {
                Some(j) => {
                    if o.frequency > pool[j].frequency {
                        let ghost old_pool = pool@;
                        pool[j] = entry;
                        proof {
                            assert forall|i: int|
                                0 <= i < pool@.len() implies entry_from(
                                #[trigger] pool@[i],
                                prefix1,
                                connected_ssid,
                            ) by {
                                if i == j {
                                    assert(obs_matches(pool@[i], prefix1[k as int]));
                                    assert forall|m: int|
                                        0 <= m < prefix1.len() && prefix1[m].ssid@
                                            == pool@[i].ssid@ implies prefix1[m].frequency
                                        <= pool@[i].frequency by {
                                        if m < k {
                                            assert(prefix[m].frequency <= old_pool[j as int].frequency);
                                        }
                                    }
                                } else {
                                    assert(entry_from(old_pool[i], prefix, connected_ssid));
                                    assert(pool@[i] == old_pool[i]);
                                    assert(pool@[i].ssid@ != old_pool[j as int].ssid@);
                                    let w = choose|w: int|
                                        0 <= w < prefix.len() && obs_matches(old_pool[i], prefix[w]);
                                    assert(obs_matches(pool@[i], prefix1[w]));
                                }
                            }
                            assert(covers(prefix1, pool@)) by {
                                assert forall|m: int|
                                    0 <= m < prefix1.len() && prefix1[m].ssid@.len()
                                        > 0 implies has_ssid(pool@, prefix1[m].ssid@) by {
                                    if m < k {
                                        let w = choose|w: int|
                                            0 <= w < old_pool.len() && old_pool[w].ssid@
                                                == prefix1[m].ssid@;
                                        assert(pool@[w].ssid@ == prefix1[m].ssid@);
                                    } else {
                                        assert(pool@[j as int].ssid@ == prefix1[m].ssid@);
                                    }
                                }
                            }
                        }
                    } else {
                        proof {
                            assert forall|i: int|
                                0 <= i < pool@.len() implies entry_from(
                                #[trigger] pool@[i],
                                prefix1,
                                connected_ssid,
                            ) by {
                                assert(entry_from(pool@[i], prefix, connected_ssid));
                                let w = choose|w: int|
                                    0 <= w < prefix.len() && obs_matches(pool@[i], prefix[w]);
                                assert(obs_matches(pool@[i], prefix1[w]));
                            }
                            assert(covers(prefix1, pool@)) by {
                                assert forall|m: int|
                                    0 <= m < prefix1.len() && prefix1[m].ssid@.len()
                                        > 0 implies has_ssid(pool@, prefix1[m].ssid@) by {
                                    if m == k {
                                        assert(pool@[j as int].ssid@ == prefix1[m].ssid@);
                                    }
                                }
                            }
                        }
                    }
                },
                None => {
                    let ghost old_pool = pool@;
                    pool.push(entry);
                    proof {
                        assert forall|i: int|
                            0 <= i < pool@.len() implies entry_from(
                            #[trigger] pool@[i],
                            prefix1,
                            connected_ssid,
                        ) by {
                            if i < old_pool.len() {
                                assert(entry_from(old_pool[i], prefix, connected_ssid));
                                assert(pool@[i] == old_pool[i]);
                                let w = choose|w: int|
                                    0 <= w < prefix.len() && obs_matches(old_pool[i], prefix[w]);
                                assert(obs_matches(pool@[i], prefix1[w]));
                                assert forall|m: int|
                                    0 <= m < prefix1.len() && prefix1[m].ssid@
                                        == pool@[i].ssid@ implies prefix1[m].frequency
                                    <= pool@[i].frequency by {
                                    if m == k {
                                        assert(!has_ssid(old_pool, obs[k as int].ssid@));
                                    }
                                }
                            } else {
                                assert(obs_matches(pool@[i], prefix1[k as int]));
                                assert forall|m: int|
                                    0 <= m < prefix1.len() && prefix1[m].ssid@
                                        == pool@[i].ssid@ implies prefix1[m].frequency
                                    <= pool@[i].frequency by {
                                    if m < k {
                                        assert(has_ssid(pool@, prefix[m].ssid@)) by {
                                            assert(covers(prefix, old_pool));
                                            let w = choose|w: int|
                                                0 <= w < old_pool.len() && old_pool[w].ssid@
                                                    == prefix[m].ssid@;
                                            assert(pool@[w].ssid@ == prefix[m].ssid@);
                                        }
                                        assert(!has_ssid(old_pool, obs[k as int].ssid@));
                                        let w = choose|w: int|
                                            0 <= w < old_pool.len() && old_pool[w].ssid@
                                                == prefix[m].ssid@;
                                        assert(false);
                                    }
                                }
                            }
                        }
                        assert(ssid_unique(pool@)) by {
                            assert(!has_ssid(old_pool, obs[k as int].ssid@));
                        }
                        assert(covers(prefix1, pool@)) by {
                            assert forall|m: int|
                                0 <= m < prefix1.len() && prefix1[m].ssid@.len() > 0 implies has_ssid(
                                pool@,
                                prefix1[m].ssid@,
                            ) by {
                                if m < k {
                                    let w = choose|w: int|
                                        0 <= w < old_pool.len() && old_pool[w].ssid@
                                            == prefix1[m].ssid@;
                                    assert(pool@[w].ssid@ == prefix1[m].ssid@);
                                } else {
                                    assert(pool@[old_pool.len() as int].ssid@ == prefix1[m].ssid@);
                                }
                            }
                        }
                    }
                },
            }
        } else {
            proof {
                assert forall|i: int|
                    0 <= i < pool@.len() implies entry_from(
                    #[trigger] pool@[i],
                    prefix1,
                    connected_ssid,
                ) by {
                    assert(entry_from(pool@[i], prefix, connected_ssid));
                    let w = choose|w: int| 0 <= w < prefix.len() && obs_matches(pool@[i], prefix[w]);
                    assert(obs_matches(pool@[i], prefix1[w]));
                }
            }
        }
        k += 1;
    }
    proof {
        assert(obs.take(obs.len() as int) =~= obs);
    }
    // Selection sort: repeatedly move the least entry under `precedes` from
    // the pool to the end of the output.
    let mut out: Vec<WifiNetwork> = Vec::new();
    while pool.len() > 0
        invariant
            ssid_unique(pool@),
            ssid_unique(out@),
            forall|i: int, j: int|
                #![trigger out@[i], pool@[j]]
                0 <= i < out@.len() && 0 <= j < pool@.len() ==> out@[i].ssid@ != pool@[j].ssid@,
            forall|i: int|
                0 <= i < pool@.len() ==> entry_from(#[trigger] pool@[i], obs, connected_ssid),
            forall|i: int|
                0 <= i < out@.len() ==> entry_from(#[trigger] out@[i], obs, connected_ssid),
            forall|k2: int|
                0 <= k2 < obs.len() && obs[k2].ssid@.len() > 0 ==> has_ssid(pool@, obs[k2].ssid@)
                    || has_ssid(out@, obs[k2].ssid@),
            ordered(out@),
            forall|i: int, j: int|
                #![trigger out@[i], pool@[j]]
                0 <= i < out@.len() && 0 <= j < pool@.len() ==> precedes(out@[i], pool@[j]),
        decreases pool@.len(),
    {
        let mut m: usize = 0;
        let mut t: usize = 1;
        while t < pool.len()
            invariant
                m < pool@.len(),
                t <= pool@.len(),
                pool@.len() > 0,
                forall|u: int| 0 <= u < t ==> precedes(pool@[m as int], #[trigger] pool@[u]),
            decreases pool@.len() - t,
        {
            if !comes_before(&pool[m], &pool[t]) {
                m = t;
            }
            t += 1;
        }
        let ghost old_pool = pool@;
        let ghost old_out = out@;
        let e = pool.remove(m);
        out.push(e);
        proof {
            let mi = m as int;
            assert(pool@ =~= old_pool.subrange(0, mi) + old_pool.subrange(
                mi + 1,
                old_pool.len() as int,
            ));
            assert forall|j: int| 0 <= j < pool@.len() implies exists|j0: int|
                0 <= j0 < old_pool.len() && j0 != mi && old_pool[j0] == #[trigger] pool@[j] by {
                if j < mi {
                    assert(old_pool[j] == pool@[j]);
                } else {
                    assert(old_pool[j + 1] == pool@[j]);
                }
            }
            assert forall|k2: int|
                0 <= k2 < obs.len() && obs[k2].ssid@.len() > 0 implies has_ssid(
                pool@,
                obs[k2].ssid@,
            ) || has_ssid(out@, obs[k2].ssid@) by {
                if has_ssid(old_pool, obs[k2].ssid@) {
                    let w = choose|w: int|
                        0 <= w < old_pool.len() && old_pool[w].ssid@ == obs[k2].ssid@;
                    if w == mi {
                        assert(out@[old_out.len() as int].ssid@ == obs[k2].ssid@);
                    } else if w < mi {
                        assert(pool@[w].ssid@ == obs[k2].ssid@);
                    } else {
                        assert(pool@[w - 1].ssid@ == obs[k2].ssid@);
                    }
                } else {
                    let w = choose|w: int| 0 <= w < old_out.len() && old_out[w].ssid@ == obs[k2].ssid@;
                    assert(out@[w].ssid@ == obs[k2].ssid@);
                }
            }
        }
    }
    proof {
        if has_connected(out@) {
            let i = choose|i: int| 0 <= i < out@.len() && out@[i].connected;
            if !out@[0].connected {
                assert(precedes(out@[0], out@[i]));
                assert(false);
            }
        }
    }
    out
}

/// The line of the association report that names the active network:
/// `yes:` followed by the `ssid`.
pub open spec fn reports_active(l: Seq<char>) -> bool {
    l.len() >= 4 && l[0] == 'y' && l[1] == 'e' && l[2] == 's' && l[3] == ':'
}

/// The `ssid` named by the first active line of the report, if any.
pub open spec fn active_ssid(lines: Seq<Seq<char>>) -> Option<Seq<char>>
    decreases lines.len(),
{
    if lines.len() == 0 {
        None
    } else if reports_active(lines[0]) {
        Some(lines[0].skip(4))
    } else {
        active_ssid(lines.drop_first())
    }
}

/// Reads the currently associated `ssid` from the lines of the backend's
/// association report (`ACTIVE:SSID` fields, one line per network): the
/// remainder of the first line that starts with `yes:`.
pub fn parse_connected_ssid(lines: &Vec<String>) -> (r: Option<String>)
    ensures
        match r {
            Some(s) => active_ssid(views_of(lines@)) == Some(s@),
            None => active_ssid(views_of(lines@)) is None,
        },
{
    let ghost vs = views_of(lines@);
    let count = lines.len();
    let mut i: usize = 0;
    proof {
        assert(vs.skip(0) =~= vs);
    }
    while i < count
        invariant
            count == lines@.len(),
            vs == views_of(lines@),
            0 <= i <= count,
            active_ssid(vs) == active_ssid(vs.skip(i as int)),
        decreases count - i,
    {
        let l = &lines[i];
        let m = l.as_str().unicode_len();
        proof {
            assert(vs.skip(i as int)[0] == l@);
        }
        if m >= 4 && l.as_str().get_char(0) == 'y' && l.as_str().get_char(1) == 'e'
            && l.as_str().get_char(2) == 's' && l.as_str().get_char(3) == ':' {
            let rest = String::from_str(l.as_str().substring_char(4, m));
            proof {
                assert(rest@ =~= l@.skip(4));
            }
            return Some(rest);
        }
        proof {
            assert(vs.skip(i as int).drop_first() =~= vs.skip(i + 1));
        }
        i += 1;
    }
    proof {
        assert(vs.skip(count as int) =~= Seq::<Seq<char>>::empty());
    }
    None
}

/// The device report line names a wireless device in the `connected` state
/// (`DEVICE:TYPE:STATE` fields).
pub open spec fn wifi_connected_line(l: Seq<char>) -> bool {
    let ps = split_parts(l, ':');
    ps.len() >= 3 && ps[1] == "wifi"@ && ps[2] == "connected"@
}

/// The device report line names a wireless device, in any state.
pub open spec fn wifi_line(l: Seq<char>) -> bool {
    let ps = split_parts(l, ':');
    ps.len() >= 2 && ps[1] == "wifi"@
}

/// The device named by the first line satisfying `connected_only`.
pub open spec fn first_wifi_device(lines: Seq<Seq<char>>, connected_only: bool) -> Option<
    Seq<char>,
>
    decreases lines.len(),
{
    if lines.len() == 0 {
        None
    } else if (if connected_only {
        wifi_connected_line(lines[0])
    } else {
        wifi_line(lines[0])
    }) {
        Some(split_parts(lines[0], ':')[0])
    } else {
        first_wifi_device(lines.drop_first(), connected_only)
    }
}

/// The adapter the session reports: the first connected wireless device,
/// or failing that the first wireless device of any state.
pub open spec fn adapter_name(lines: Seq<Seq<char>>) -> Option<Seq<char>> {
    if first_wifi_device(lines, true) is Some {
        first_wifi_device(lines, true)
    } else {
        first_wifi_device(lines, false)
    }
}

fn string_eq_lit(a: &String, b: &str) -> (r: bool)
    ensures
        r == (a@ == b@),
{
    *a == String::from_str(b)
}

fn find_wifi_device(lines: &Vec<String>, connected_only: bool) -> (r: Option<String>)
    ensures
        match r {
            Some(s) => first_wifi_device(views_of(lines@), connected_only) == Some(s@),
            None => first_wifi_device(views_of(lines@), connected_only) is None,
        },
{
    let ghost vs = views_of(lines@);
    let count = lines.len();
    let mut i: usize = 0;
    proof {
        assert(vs.skip(0) =~= vs);
    }
    while i < count
        invariant
            count == lines@.len(),
            vs == views_of(lines@),
            0 <= i <= count,
            first_wifi_device(vs, connected_only) == first_wifi_device(
                vs.skip(i as int),
                connected_only,
            ),
        decreases count - i,
    {
        let l = &lines[i];
        proof {
            assert(vs.skip(i as int)[0] == l@);
        }
        let parts = split_fields(l.as_str(), ':');
        proof {
            assert(forall|j: int|
                0 <= j < parts@.len() ==> views_of(parts@)[j] == #[trigger] parts@[j]@);
        }
        let hit = if connected_only {
            parts.len() >= 3 && string_eq_lit(&parts[1], "wifi") && string_eq_lit(
                &parts[2],
                "connected",
            )
        } else {
            parts.len() >= 2 && string_eq_lit(&parts[1], "wifi")
        };
        if hit {
            return Some(parts[0].clone());
        }
        proof {
            assert(vs.skip(i as int).drop_first() =~= vs.skip(i + 1));
        }
        i += 1;
    }
    proof {
        assert(vs.skip(count as int) =~= Seq::<Seq<char>>::empty());
    }
    None
}

/// Reads the adapter name from the lines of the backend's device report
/// (`DEVICE:TYPE:STATE` fields, one line per device): the first connected
/// wireless device, or failing that any wireless device.
pub fn parse_adapter_name(lines: &Vec<String>) -> (r: Option<String>)
    ensures
        match r {
            Some(s) => adapter_name(views_of(lines@)) == Some(s@),
            None => adapter_name(views_of(lines@)) is None,
        },
{
    match find_wifi_device(lines, true) {
        Some(d) => Some(d),
        None => find_wifi_device(lines, false),
    }
}

/// The scan report line is well-formed: at least the four
/// `SIGNAL:FREQ:SECURITY:SSID` fields, with a numeric signal of at most 100
/// and a numeric frequency.
pub open spec fn scan_line_ok(l: Seq<char>) -> bool {
    let ps = split_parts(l, ':');
    &&& ps.len() >= 4
    &&& prefix_digits(ps[0]).len() > 0
    &&& dec_val(prefix_digits(ps[0])) <= 100
    &&& prefix_digits(ps[1]).len() > 0
    &&& dec_val(prefix_digits(ps[1])) <= u32::MAX
}

pub open spec fn scan_line_signal(l: Seq<char>) -> int {
    dec_val(prefix_digits(split_parts(l, ':')[0]))
}

pub open spec fn scan_line_freq(l: Seq<char>) -> int {
    dec_val(prefix_digits(split_parts(l, ':')[1]))
}

/// A network is secured when the security field is present and not the
/// empty marker `--`.
pub open spec fn scan_line_secured(l: Seq<char>) -> bool {
    let sec = split_parts(l, ':')[2];
    sec.len() > 0 && sec != "--"@
}

/// The `ssid` of the line: everything after the third separator, with any
/// further separators belonging to the name itself.
pub open spec fn scan_line_ssid(l: Seq<char>) -> Seq<char> {
    joined(split_parts(l, ':').skip(3), ':')
}

/// Reads one line of the backend's scan report
/// (`SIGNAL:FREQ:SECURITY:SSID` fields) into a raw observation; `None` for
/// a malformed line.
pub fn parse_scan_line(line: &str) -> (r: Option<RawObservation>)
    ensures
        match r {
            Some(o) => {
                &&& scan_line_ok(line@)
                &&& o.signal_strength == scan_line_signal(line@)
                &&& o.frequency == scan_line_freq(line@)
                &&& o.secured == scan_line_secured(line@)
                &&& o.ssid@ == scan_line_ssid(line@)
            },
            None => !scan_line_ok(line@),
        },
{
    let parts = split_fields(line, ':');
    proof {
        assert(forall|j: int| 0 <= j < parts@.len() ==> views_of(parts@)[j] == #[trigger] parts@[j]@);
    }
    if parts.len() < 4 {
        return None;
    }
    let signal = match parse_decimal(parts[0].as_str()) {
        Some(v) => v,
        None => {
            return None;
        },
    };
    if signal > 100 {
        return None;
    }
    let freq = match parse_decimal(parts[1].as_str()) {
        Some(v) => v,
        None => {
            return None;
        },
    };
    let secured = !parts[2].as_str().is_empty() && !string_eq_lit(&parts[2], "--");
    let ssid = join_fields(&parts, 3, ':');
    Some(
        RawObservation {
            ssid,
            signal_strength: signal as u8,
            secured,
            frequency: freq,
        },
    )
}

} // verus!
