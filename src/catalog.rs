use vstd::prelude::*;
use vstd::string::StringExecFns;
use crate::zone::zone_lookup;
use crate::text::{contains_text, opt_view, text_contains};

verus! {

/// The lower-case form of a text, as Unicode case mapping gives it.
pub uninterp spec fn lower_of(s: Seq<char>) -> Seq<char>;

/// Relies on `str::to_lowercase`: the result depends on the characters alone.
#[verifier::external_body]
fn lowercase(s: &str) -> (r: String)
    ensures
        r@ == lower_of(s@),
{
    s.to_lowercase()
}

/// The number of zones in the registry.
pub const CATALOG_LEN: usize = 597;

/// Relies on `chrono_tz::TZ_VARIANTS` and `Tz::name`: every identifier of the
/// registry, in the registry's canonical order, each named once; each one is
/// a key that `Tz::from_str` finds.
#[verifier::external_body]
pub(crate) fn zone_catalog() -> (r: Vec<String>)
    ensures
        r@.len() == CATALOG_LEN,
        forall|k: int| 0 <= k < r@.len() ==> zone_lookup(#[trigger] r@[k]@) is Some,
        forall|j: int, k: int| 0 <= j < k < r@.len() ==> #[trigger] r@[j]@ != #[trigger] r@[k]@,
{
    chrono_tz::TZ_VARIANTS.iter().map(|tz| tz.name().to_string()).collect()
}

/// The most identifiers that one listing returns.
pub const MAX_LISTED: usize = 50;

/// The identifier is kept by the filter: always without one, else where the
/// filter occurs in it, both taken in lower case.
pub open spec fn kept(name: Seq<char>, filter: Option<Seq<char>>) -> bool {
    match filter {
        None => true,
        Some(f) => text_contains(lower_of(name), lower_of(f)),
    }
}

/// The identifiers of `catalog` that the filter keeps, in catalog order, cut
/// to the first fifty.
pub open spec fn listing(catalog: Seq<Seq<char>>, filter: Option<Seq<char>>) -> Seq<Seq<char>> {
    let all = catalog.filter(|n: Seq<char>| kept(n, filter));
    if all.len() <= MAX_LISTED {
        all
    } else {
        all.take(MAX_LISTED as int)
    }
}

/// Lists the identifiers of `catalog` that contain `filter`, ignoring letter
/// case (all of them without a filter), in catalog order, at most fifty.
pub fn select_zones(catalog: &Vec<String>, filter: Option<&str>) -> (r: Vec<String>)
    ensures
        r.deep_view() == listing(catalog.deep_view(), opt_view(filter)),
{
    let ghost cat = catalog.deep_view();
    let ghost fv = opt_view(filter);
    let ghost pred = |n: Seq<char>| kept(n, fv);
    let lower_filter: Option<String> = match filter {
        None => None,
        Some(f) => Some(lowercase(f)),
    };
    let mut r: Vec<String> = Vec::new();
    let mut i: usize = 0;
    while i < catalog.len() && r.len() < MAX_LISTED
        invariant
            cat == catalog.deep_view(),
            pred == (|n: Seq<char>| kept(n, fv)),
            fv == opt_view(filter),
            i <= catalog.len(),
            r.len() <= MAX_LISTED,
            r.deep_view() == cat.take(i as int).filter(pred),
            lower_filter matches Some(lf) ==> filter matches Some(f) && lf@ == lower_of(f@),
            lower_filter is None <==> filter is None,
        decreases catalog.len() - i,
    {
        let name = &catalog[i];
        let keep = match &lower_filter {
            None => true,
            Some(lf) => {
                let ln = lowercase(name.as_str());
                contains_text(ln.as_str(), lf.as_str())
            },
        };
        let ghost before = r.deep_view();
        proof {
            reveal(Seq::filter);
            assert(cat.take(i + 1).drop_last() =~= cat.take(i as int));
            assert(cat.take(i + 1).last() == name@);
            assert(keep == pred(name@));
        }
        if keep {
            r.push(String::from_str(name.as_str()));
        }
        i = i + 1;
        proof {
            if keep {
                assert(r.deep_view() =~= before.push(name@));
            } else {
                assert(r.deep_view() =~= before);
            }
            assert(r.deep_view() =~= cat.take(i as int).filter(pred));
        }
    }
    proof {
        assert(cat =~= cat.take(i as int) + cat.skip(i as int));
        Seq::filter_distributes_over_add(cat.take(i as int), cat.skip(i as int), pred);
        if i == catalog.len() {
            assert(cat.take(i as int) =~= cat);
        } else {
            assert(cat.filter(pred).take(MAX_LISTED as int) =~= r.deep_view());
        }
        cat.filter(pred).lemma_filter_len(pred);
    }
    r
}

} // verus!
