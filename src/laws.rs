use vstd::prelude::*;
use crate::catalog::{CATALOG_LEN, MAX_LISTED, kept, listing};
use crate::server::TimeDateServer;
use crate::instant::{Instant, TimeError, shift_in_range, shifted};
use crate::parse::{Reading, in_range, is_now_text, reading, rfc3339_instant, rfc3339_span};
use crate::render::{TimeInfo, clock_12h, clock_24h, describes, four_digit_year};
use crate::server::answers;
use crate::text::text_contains;
use crate::catalog::lower_of;
use crate::zone::ZoneId;

verus! {

/// The word `now`, in any letter case, always reads as the clock reading
/// handed in, under every zone and grammar set.
pub proof fn lemma_now_reads_clock(t: Seq<char>, zone: ZoneId, now: Instant, with_date: bool)
    requires
        is_now_text(t),
        now.wf(),
    ensures
        reading(t, zone, now, with_date) == Reading::At(now.secs as int, now.nanos as int),
        in_range(now.secs as int, now.nanos as int),
{
}

/// An RFC 3339 text reads as exactly the instant it denotes, whatever the
/// zone; the answer of a time query on it is that instant shown through the
/// zone.
pub proof fn lemma_rfc3339_exact(
    t: Seq<char>,
    zone: ZoneId,
    now: Instant,
    with_date: bool,
    r: Result<TimeInfo, TimeError>,
    i: Instant,
)
    requires
        rfc3339_instant(t) == Some((i.secs as int, i.nanos as int)),
        rfc3339_span(i.secs as int, i.nanos as int),
        !is_now_text(t),
        i.wf(),
        answers(r, t, reading(t, zone, now, with_date), 0, zone),
    ensures
        reading(t, zone, now, with_date) == Reading::At(i.secs as int, i.nanos as int),
        r matches Ok(info) && describes(info, i, zone),
{
}

/// Converting a text from zone `a` to zone `b`, and the resulting timestamp
/// back from `b` to `a`, gives the same instant, wherever the timestamp can
/// carry it exactly (a four-digit year and an offset of whole minutes in `b`).
pub proof fn lemma_convert_round_trip(
    t: Seq<char>,
    a: ZoneId,
    b: ZoneId,
    now: Instant,
    i: Instant,
    there: Result<TimeInfo, TimeError>,
    back: Result<TimeInfo, TimeError>,
)
    requires
        i.wf(),
        reading(t, a, now, false) == Reading::At(i.secs as int, i.nanos as int),
        four_digit_year(i.secs + b.offset_spec(i.secs as int)),
        b.offset_spec(i.secs as int) % 60 == 0,
        answers(there, t, reading(t, a, now, false), 0, b),
        there matches Ok(info) ==> answers(
            back,
            info.timestamp@,
            reading(info.timestamp@, b, now, false),
            0,
            a,
        ),
    ensures
        there matches Ok(x) && describes(x, i, b),
        back matches Ok(y) && describes(y, i, a),
{
    let x = there->Ok_0;
    assert(describes(x, i, b));
    assert(!is_now_text(x.timestamp@));
    assert(reading(x.timestamp@, b, now, false) == Reading::At(i.secs as int, i.nanos as int));
}

/// Asking for the time `0` hours after `now` answers exactly what asking for
/// the current time answers, field by field.
pub proof fn lemma_offset_now_is_current(
    t: Seq<char>,
    zone: ZoneId,
    now: Instant,
    shifted: Result<TimeInfo, TimeError>,
    current: TimeInfo,
)
    requires
        is_now_text(t),
        now.wf(),
        answers(shifted, t, reading(t, zone, now, false), 0, zone),
        describes(current, now, zone),
    ensures
        shifted matches Ok(x) && describes(x, now, zone) && x.timestamp@ == current.timestamp@
            && x.timezone@ == current.timezone@ && x.utc_offset@ == current.utc_offset@ && x.is_dst
            == current.is_dst && x.format_12h@ == current.format_12h@ && x.format_24h@
            == current.format_24h@,
{
    assert(Instant { secs: (now.secs + 0 * 3600) as i64, nanos: now.nanos as u32 } == now);
}

/// Every listed identifier contains the filter, ignoring letter case, and no
/// listing has more than fifty entries.
pub proof fn lemma_listing_filtered(catalog: Seq<Seq<char>>, f: Seq<char>)
    ensures
        listing(catalog, Some(f)).len() <= MAX_LISTED,
        forall|k: int|
            0 <= k < listing(catalog, Some(f)).len() ==> text_contains(
                lower_of(#[trigger] listing(catalog, Some(f))[k]),
                lower_of(f),
            ),
{
    let pred = |n: Seq<char>| kept(n, Some(f));
    let all = catalog.filter(pred);
    assert forall|k: int| 0 <= k < listing(catalog, Some(f)).len() implies text_contains(
        lower_of(#[trigger] listing(catalog, Some(f))[k]),
        lower_of(f),
    ) by {
        all.lemma_filter_len(pred);
        catalog.lemma_filter_pred(pred, k);
    }
}

/// Without a filter the listing is the catalog's first fifty identifiers.
pub proof fn lemma_listing_unfiltered(catalog: Seq<Seq<char>>)
    ensures
        listing(catalog, None) == if catalog.len() <= MAX_LISTED {
            catalog
        } else {
            catalog.take(MAX_LISTED as int)
        },
{
    lemma_keep_all(catalog);
}

/// Filtering with a predicate that keeps everything changes nothing.
proof fn lemma_keep_all(s: Seq<Seq<char>>)
    ensures
        s.filter(|n: Seq<char>| kept(n, None)) == s,
    decreases s.len(),
{
    reveal(Seq::filter);
    if s.len() > 0 {
        lemma_keep_all(s.drop_last());
        assert(s.drop_last().push(s.last()) =~= s);
    }
}

} // verus!

verus! {

/// A server's unfiltered listing is the first fifty identifiers of the
/// registry, in the registry's order.
pub proof fn lemma_server_unfiltered_first_fifty(server: TimeDateServer)
    requires
        server.wf(),
    ensures
        listing(server.catalog.deep_view(), None) == server.catalog.deep_view().take(
            MAX_LISTED as int,
        ),
        listing(server.catalog.deep_view(), None).len() == MAX_LISTED,
{
    assert(server.catalog.deep_view().len() == CATALOG_LEN);
    lemma_listing_unfiltered(server.catalog.deep_view());
}

/// Every listing keeps catalog order: its entries stand in the catalog at
/// strictly increasing positions.
pub proof fn lemma_listing_in_catalog_order(catalog: Seq<Seq<char>>, filter: Option<Seq<char>>)
    ensures
        exists|pos: Seq<int>|
            #![trigger pos.len()]
            pos.len() == listing(catalog, filter).len() && (forall|j: int|
                0 <= j < pos.len() ==> 0 <= #[trigger] pos[j] < catalog.len() && catalog[pos[j]]
                    == listing(catalog, filter)[j]) && (forall|j: int, l: int|
                0 <= j < l < pos.len() ==> #[trigger] pos[j] < #[trigger] pos[l]),
{
    let pred = |n: Seq<char>| kept(n, filter);
    let pos = lemma_filter_positions(catalog, pred);
    let all = catalog.filter(pred);
    if all.len() > MAX_LISTED {
        let p2 = pos.take(MAX_LISTED as int);
        assert(p2.len() == listing(catalog, filter).len());
        assert forall|j: int| 0 <= j < p2.len() implies 0 <= #[trigger] p2[j] < catalog.len()
            && catalog[p2[j]] == listing(catalog, filter)[j] by {
            assert(p2[j] == pos[j]);
        }
        assert forall|j: int, l: int| 0 <= j < l < p2.len() implies #[trigger] p2[j] < #[trigger] p2[l] by {
            assert(p2[j] == pos[j] && p2[l] == pos[l]);
        }
    }
}

/// The positions in `s` of the entries that `s.filter(pred)` keeps.
proof fn lemma_filter_positions(s: Seq<Seq<char>>, pred: spec_fn(Seq<char>) -> bool) -> (pos: Seq<int>)
    ensures
        pos.len() == s.filter(pred).len(),
        forall|j: int| 0 <= j < pos.len() ==> 0 <= #[trigger] pos[j] < s.len() && s[pos[j]] == s.filter(pred)[j],
        forall|j: int, l: int| 0 <= j < l < pos.len() ==> #[trigger] pos[j] < #[trigger] pos[l],
    decreases s.len(),
{
    reveal(Seq::filter);
    if s.len() == 0 {
        Seq::empty()
    } else {
        let front = s.drop_last();
        let p = lemma_filter_positions(front, pred);
        if pred(s.last()) {
            let q = p.push(s.len() - 1);
            assert forall|j: int| 0 <= j < q.len() implies 0 <= #[trigger] q[j] < s.len() && s[q[j]] == s.filter(pred)[j] by {
                if j < p.len() {
                    assert(q[j] == p[j]);
                    assert(front[p[j]] == s[p[j]]);
                }
            }
            assert forall|j: int, l: int| 0 <= j < l < q.len() implies #[trigger] q[j] < #[trigger] q[l] by {
                if l < p.len() {
                    assert(q[j] == p[j] && q[l] == p[l]);
                } else {
                    assert(q[j] == p[j]);
                }
            }
            q
        } else {
            assert forall|j: int| 0 <= j < p.len() implies 0 <= #[trigger] p[j] < s.len() && s[p[j]] == s.filter(pred)[j] by {
                assert(front[p[j]] == s[p[j]]);
            }
            p
        }
    }
}

} // verus!

verus! {

/// Moving a text's instant by `h` hours, then reading the resulting timestamp
/// back and moving it by `-h` hours, gives the original instant, wherever the
/// intermediate timestamp carries its instant exactly (a four-digit year and
/// an offset of whole minutes in the zone).
pub proof fn lemma_offset_round_trip(
    t: Seq<char>,
    zone: ZoneId,
    now: Instant,
    i: Instant,
    h: int,
    there: Result<TimeInfo, TimeError>,
    back: Result<TimeInfo, TimeError>,
)
    requires
        i.wf(),
        shift_in_range(i, h),
        reading(t, zone, now, false) == Reading::At(i.secs as int, i.nanos as int),
        four_digit_year(shifted(i, h).secs + zone.offset_spec(shifted(i, h).secs as int)),
        zone.offset_spec(shifted(i, h).secs as int) % 60 == 0,
        answers(there, t, reading(t, zone, now, false), h, zone),
        there matches Ok(info) ==> answers(
            back,
            info.timestamp@,
            reading(info.timestamp@, zone, now, false),
            -h,
            zone,
        ),
    ensures
        there matches Ok(x) && describes(x, shifted(i, h), zone),
        back matches Ok(y) && describes(y, i, zone),
{
    let j = shifted(i, h);
    let x = there->Ok_0;
    assert(j == (Instant { secs: (i.secs + h * 3600) as i64, nanos: i.nanos as u32 }));
    assert(describes(x, j, zone));
    assert(!is_now_text(x.timestamp@));
    assert(reading(x.timestamp@, zone, now, false) == Reading::At(j.secs as int, j.nanos as int));
    assert((Instant { secs: (j.secs + (-h) * 3600) as i64, nanos: j.nanos as u32 }) == i);
}

} // verus!

verus! {

/// A server's listing names no zone twice, whatever the filter.
pub proof fn lemma_listing_distinct(server: TimeDateServer, filter: Option<Seq<char>>)
    requires
        server.wf(),
    ensures
        forall|j: int, l: int|
            0 <= j < l < listing(server.catalog.deep_view(), filter).len() ==> #[trigger] listing(
                server.catalog.deep_view(),
                filter,
            )[j] != #[trigger] listing(server.catalog.deep_view(), filter)[l],
{
    let cat = server.catalog.deep_view();
    let out = listing(cat, filter);
    lemma_listing_in_catalog_order(cat, filter);
    let pos = choose|pos: Seq<int>|
        #![trigger pos.len()]
        pos.len() == out.len() && (forall|j: int|
            0 <= j < pos.len() ==> 0 <= #[trigger] pos[j] < cat.len() && cat[pos[j]] == out[j]) && (
        forall|j: int, l: int| 0 <= j < l < pos.len() ==> #[trigger] pos[j] < #[trigger] pos[l]);
    assert forall|j: int, l: int| 0 <= j < l < out.len() implies #[trigger] out[j] != #[trigger] out[l] by {
        assert(pos[j] < pos[l]);
        assert(cat[pos[j]] == server.catalog@[pos[j]]@);
        assert(cat[pos[l]] == server.catalog@[pos[l]]@);
    }
}

} // verus!

verus! {

/// A wall-clock reading at a midnight shows `00:00:00` on the 24-hour clock
/// and `12:00:00 AM` on the 12-hour clock.
pub proof fn lemma_midnight_clock(l: int)
    requires
        l % 86400 == 0,
    ensures
        clock_24h(l) == seq!['0', '0', ':', '0', '0', ':', '0', '0'],
        clock_12h(l) == seq!['1', '2', ':', '0', '0', ':', '0', '0', ' ', 'A', 'M'],
{
    assert(clock_24h(l) =~= seq!['0', '0', ':', '0', '0', ':', '0', '0']);
    assert(clock_12h(l) =~= seq!['1', '2', ':', '0', '0', ':', '0', '0', ' ', 'A', 'M']);
}

} // verus!
