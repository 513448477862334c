//! The filters over normalized records. Each one keeps the records that a
//! predicate holds of, in their order, and changes none of them.

use crate::model::{Product, Severity, Vulnerability, VulnerabilityView};
use crate::text::{chars_of, contains_chars, is_substring, lowercase, to_lowercase};
use vstd::prelude::*;

verus! {

/// Records rated `severity`.
pub open spec fn rated(severity: Severity) -> spec_fn(VulnerabilityView) -> bool {
    |v: VulnerabilityView| v.severity == severity
}

/// Records rated otherwise than `severity`.
pub open spec fn rated_otherwise(severity: Severity) -> spec_fn(VulnerabilityView) -> bool {
    |v: VulnerabilityView| v.severity != severity
}

/// `needle` stands in `text`, the case of letters ignored: the lowercase
/// form of the one stands in the lowercase form of the other.
pub open spec fn stands_in(needle: Seq<char>, text: Seq<char>) -> bool {
    is_substring(lowercase(needle), lowercase(text))
}

/// Records with `needle` in the title, the case of letters ignored.
pub open spec fn titled_like(needle: Seq<char>) -> spec_fn(VulnerabilityView) -> bool {
    |v: VulnerabilityView| stands_in(needle, v.title)
}

/// Records with `needle` in the acknowledgement text, the case of letters
/// ignored. A record without acknowledgement text is never one of them.
pub open spec fn credits_like(needle: Seq<char>) -> spec_fn(VulnerabilityView) -> bool {
    |v: VulnerabilityView|
        match v.acknowledgements {
            Some(text) => stands_in(needle, text),
            None => false,
        }
}

/// Records that list `product` among the affected products; every record
/// where `product` is `All`.
pub open spec fn affecting(product: Product) -> spec_fn(VulnerabilityView) -> bool {
    |v: VulnerabilityView| product == Product::All || v.affected_products.contains(product.id_text())
}

/// The views of a sequence of records.
pub open spec fn views(records: Seq<Vulnerability>) -> Seq<VulnerabilityView> {
    Seq::new(records.len(), |i: int| records[i]@)
}

/// One more record seen: it is kept exactly where the predicate holds of it.
proof fn lemma_keep_step(
    all: Seq<Vulnerability>,
    seen: int,
    wanted: spec_fn(VulnerabilityView) -> bool,
)
    requires
        0 <= seen < all.len(),
    ensures
        views(all.take(seen + 1)).filter(wanted) == if wanted(all[seen]@) {
            views(all.take(seen)).filter(wanted).push(all[seen]@)
        } else {
            views(all.take(seen)).filter(wanted)
        },
{
    assert(views(all.take(seen + 1)) =~= views(all.take(seen)).push(all[seen]@));
    views(all.take(seen)).lemma_filter_push(all[seen]@, wanted);
}

/// Keeps the records rated `severity`.
pub fn filter_by_severity(vulns: Vec<Vulnerability>, severity: Severity) -> (kept: Vec<
    Vulnerability,
>)
    ensures
        kept.deep_view() == vulns.deep_view().filter(rated(severity)),
{
    let mut kept: Vec<Vulnerability> = Vec::new();
    let ghost all = vulns@;
    assert(views(all.take(0)) =~= Seq::<VulnerabilityView>::empty());
    assert(kept.deep_view() =~= Seq::<VulnerabilityView>::empty());
    for v in it: vulns
        invariant
            it.seq() == all,
            kept.deep_view() == views(all.take(it.index() as int)).filter(rated(severity)),
    {
        let ghost before = kept.deep_view();
        proof {
            lemma_keep_step(all, it.index() as int, rated(severity));
        }
        if v.severity == severity {
            kept.push(v);
            assert(kept.deep_view() =~= before.push(v@));
        }
    }
    assert(all.take(all.len() as int) =~= all);
    assert(views(all) =~= vulns.deep_view());
    kept
}

/// Keeps the records with `needle` in the title, the case of letters
/// ignored.
pub fn filter_by_title(vulns: Vec<Vulnerability>, needle: &str) -> (kept: Vec<Vulnerability>)
    ensures
        kept.deep_view() == vulns.deep_view().filter(titled_like(needle@)),
{
    let wanted = to_lowercase(needle);
    let wanted = chars_of(wanted.as_str());
    let mut kept: Vec<Vulnerability> = Vec::new();
    let ghost all = vulns@;
    assert(views(all.take(0)) =~= Seq::<VulnerabilityView>::empty());
    assert(kept.deep_view() =~= Seq::<VulnerabilityView>::empty());
    for v in it: vulns
        invariant
            it.seq() == all,
            wanted@ == lowercase(needle@),
            kept.deep_view() == views(all.take(it.index() as int)).filter(titled_like(needle@)),
    {
        let ghost before = kept.deep_view();
        proof {
            lemma_keep_step(all, it.index() as int, titled_like(needle@));
        }
        let title = to_lowercase(v.title.as_str());
        let title = chars_of(title.as_str());
        if contains_chars(&title, &wanted) {
            kept.push(v);
            assert(kept.deep_view() =~= before.push(v@));
        }
    }
    assert(all.take(all.len() as int) =~= all);
    assert(views(all) =~= vulns.deep_view());
    kept
}

/// Keeps the records with `needle` in the acknowledgement text, the case of
/// letters ignored. A record without acknowledgement text is dropped.
pub fn filter_by_acknowledgement(vulns: Vec<Vulnerability>, needle: &str) -> (kept: Vec<
    Vulnerability,
>)
    ensures
        kept.deep_view() == vulns.deep_view().filter(credits_like(needle@)),
{
    let wanted = to_lowercase(needle);
    let wanted = chars_of(wanted.as_str());
    let mut kept: Vec<Vulnerability> = Vec::new();
    let ghost all = vulns@;
    assert(views(all.take(0)) =~= Seq::<VulnerabilityView>::empty());
    assert(kept.deep_view() =~= Seq::<VulnerabilityView>::empty());
    for v in it: vulns
        invariant
            it.seq() == all,
            wanted@ == lowercase(needle@),
            kept.deep_view() == views(all.take(it.index() as int)).filter(credits_like(needle@)),
    {
        let ghost before = kept.deep_view();
        proof {
            lemma_keep_step(all, it.index() as int, credits_like(needle@));
        }
        let hit = match &v.acknowledgements {
            Some(text) => {
                let text = to_lowercase(text.as_str());
                let text = chars_of(text.as_str());
                contains_chars(&text, &wanted)
            },
            None => false,
        };
        if hit {
            kept.push(v);
            assert(kept.deep_view() =~= before.push(v@));
        }
    }
    assert(all.take(all.len() as int) =~= all);
    assert(views(all) =~= vulns.deep_view());
    kept
}

/// Whether `id` is one of `ids`.
fn lists(ids: &Vec<String>, id: &String) -> (r: bool)
    ensures
        r == ids.deep_view().contains(id@),
{
    let mut i: usize = 0;
    while i < ids.len()
        invariant
            i <= ids.len(),
            forall|j: int| 0 <= j < i ==> ids.deep_view()[j] != id@,
        decreases ids.len() - i,
    {
        if ids[i] == *id {
            assert(ids.deep_view()[i as int] == id@);
            return true;
        }
        i += 1;
    }
    false
}

/// Keeps the records that list `product` among the affected products.
/// With `All` nothing is looked at and the list comes back as it is.
pub fn filter_by_product(vulns: Vec<Vulnerability>, product: Product) -> (kept: Vec<
    Vulnerability,
>)
    ensures
        kept.deep_view() == vulns.deep_view().filter(affecting(product)),
        product == Product::All ==> kept == vulns,
{
    if product == Product::All {
        proof {
            lemma_all_products_keeps_all(vulns.deep_view());
        }
        return vulns;
    }
    let id = product.id_string();
    let mut kept: Vec<Vulnerability> = Vec::new();
    let ghost all = vulns@;
    assert(views(all.take(0)) =~= Seq::<VulnerabilityView>::empty());
    assert(kept.deep_view() =~= Seq::<VulnerabilityView>::empty());
    for v in it: vulns
        invariant
            it.seq() == all,
            id@ == product.id_text(),
            product != Product::All,
            kept.deep_view() == views(all.take(it.index() as int)).filter(affecting(product)),
    {
        let ghost before = kept.deep_view();
        proof {
            lemma_keep_step(all, it.index() as int, affecting(product));
        }
        if lists(&v.affected_products, &id) {
            kept.push(v);
            assert(kept.deep_view() =~= before.push(v@));
        }
    }
    assert(all.take(all.len() as int) =~= all);
    assert(views(all) =~= vulns.deep_view());
    kept
}

/// A predicate that holds of every record keeps all of them.
pub proof fn lemma_filter_keeps_all(
    records: Seq<VulnerabilityView>,
    wanted: spec_fn(VulnerabilityView) -> bool,
)
    requires
        forall|i: int| 0 <= i < records.len() ==> wanted(records[i]),
    ensures
        records.filter(wanted) == records,
    decreases records.len(),
{
    reveal(Seq::filter);
    if records.len() > 0 {
        lemma_filter_keeps_all(records.drop_last(), wanted);
        assert(records.drop_last().push(records.last()) =~= records);
    }
}

/// Narrowing to `All` products is no narrowing: the same records in the
/// same order.
pub proof fn lemma_all_products_keeps_all(records: Seq<VulnerabilityView>)
    ensures
        records.filter(affecting(Product::All)) == records,
{
    lemma_filter_keeps_all(records, affecting(Product::All));
}

/// What a filter keeps and what the opposite filter keeps are as many as
/// there were: nothing is lost and nothing comes twice.
pub proof fn lemma_filter_partitions(
    records: Seq<VulnerabilityView>,
    wanted: spec_fn(VulnerabilityView) -> bool,
    unwanted: spec_fn(VulnerabilityView) -> bool,
)
    requires
        forall|v: VulnerabilityView| #[trigger] unwanted(v) == !wanted(v),
    ensures
        records.filter(wanted).len() + records.filter(unwanted).len() == records.len(),
    decreases records.len(),
{
    reveal(Seq::filter);
    if records.len() > 0 {
        lemma_filter_partitions(records.drop_last(), wanted, unwanted);
    }
}

/// Filtering by a severity keeps records of that severity only, and as
/// many as the list held less those of another severity.
pub proof fn lemma_severity_filter_partitions(records: Seq<VulnerabilityView>, severity: Severity)
    ensures
        forall|i: int|
            0 <= i < records.filter(rated(severity)).len() ==> (#[trigger] records.filter(
                rated(severity),
            )[i]).severity == severity,
        forall|i: int|
            0 <= i < records.filter(rated(severity)).len() ==> records.contains(
                #[trigger] records.filter(rated(severity))[i],
            ),
        records.filter(rated(severity)).len() + records.filter(rated_otherwise(severity)).len()
            == records.len(),
{
    let kept = records.filter(rated(severity));
    assert forall|i: int| 0 <= i < kept.len() implies (#[trigger] kept[i]).severity == severity
        && records.contains(kept[i]) by {
        records.lemma_filter_pred(rated(severity), i);
        assert(kept.contains(kept[i]));
        records.lemma_filter_contains_rev(rated(severity), kept[i]);
    }
    lemma_filter_partitions(records, rated(severity), rated_otherwise(severity));
}

/// Two needles with the same lowercase form keep the same records by title.
pub proof fn lemma_title_filter_ignores_case(
    records: Seq<VulnerabilityView>,
    a: Seq<char>,
    b: Seq<char>,
)
    requires
        lowercase(a) == lowercase(b),
    ensures
        records.filter(titled_like(a)) == records.filter(titled_like(b)),
{
    lemma_filter_same(records, titled_like(a), titled_like(b));
}

/// Two needles with the same lowercase form keep the same records by
/// acknowledgement text.
pub proof fn lemma_acknowledgement_filter_ignores_case(
    records: Seq<VulnerabilityView>,
    a: Seq<char>,
    b: Seq<char>,
)
    requires
        lowercase(a) == lowercase(b),
    ensures
        records.filter(credits_like(a)) == records.filter(credits_like(b)),
{
    lemma_filter_same(records, credits_like(a), credits_like(b));
}

/// Two predicates that agree on the records of a list keep the same of them.
pub proof fn lemma_filter_same(
    records: Seq<VulnerabilityView>,
    p: spec_fn(VulnerabilityView) -> bool,
    q: spec_fn(VulnerabilityView) -> bool,
)
    requires
        forall|i: int| 0 <= i < records.len() ==> p(records[i]) == q(records[i]),
    ensures
        records.filter(p) == records.filter(q),
    decreases records.len(),
{
    reveal(Seq::filter);
    if records.len() > 0 {
        lemma_filter_same(records.drop_last(), p, q);
    }
}

/// Two filters give the same list in either order.
pub proof fn lemma_filters_commute(
    records: Seq<VulnerabilityView>,
    p: spec_fn(VulnerabilityView) -> bool,
    q: spec_fn(VulnerabilityView) -> bool,
)
    ensures
        records.filter(p).filter(q) == records.filter(q).filter(p),
    decreases records.len(),
{
    reveal(Seq::filter);
    if records.len() > 0 {
        let before = records.drop_last();
        let last = records.last();
        lemma_filters_commute(before, p, q);
        before.filter(p).lemma_filter_push(last, q);
        before.filter(q).lemma_filter_push(last, p);
    }
}

/// A filter keeps records of the list only, and each as it was.
pub proof fn lemma_filter_keeps_records(
    records: Seq<VulnerabilityView>,
    wanted: spec_fn(VulnerabilityView) -> bool,
)
    ensures
        forall|i: int|
            0 <= i < records.filter(wanted).len() ==> records.contains(
                #[trigger] records.filter(wanted)[i],
            ) && wanted(records.filter(wanted)[i]),
{
    let kept = records.filter(wanted);
    assert forall|i: int| 0 <= i < kept.len() implies records.contains(#[trigger] kept[i])
        && wanted(kept[i]) by {
        records.lemma_filter_pred(wanted, i);
        assert(kept.contains(kept[i]));
        records.lemma_filter_contains_rev(wanted, kept[i]);
    }
}

/// What a report is narrowed to. A criterion that is absent narrows
/// nothing, and so does the product `All`.
pub struct Criteria {
    pub severity: Option<Severity>,
    pub title: Option<String>,
    pub acknowledgement: Option<String>,
    pub product: Product,
}

/// What the criteria ask for, as mathematical values.
pub struct CriteriaView {
    pub severity: Option<Severity>,
    pub title: Option<Seq<char>>,
    pub acknowledgement: Option<Seq<char>>,
    pub product: Product,
}

impl View for Criteria {
    type V = CriteriaView;

    open spec fn view(&self) -> CriteriaView {
        CriteriaView {
            severity: self.severity,
            title: self.title.deep_view(),
            acknowledgement: self.acknowledgement.deep_view(),
            product: self.product,
        }
    }
}

/// Records that meet every criterion that is given.
pub open spec fn selected(criteria: CriteriaView) -> spec_fn(VulnerabilityView) -> bool {
    |v: VulnerabilityView|
        {
            &&& criteria.severity matches Some(severity) ==> rated(severity)(v)
            &&& criteria.title matches Some(needle) ==> titled_like(needle)(v)
            &&& criteria.acknowledgement matches Some(needle) ==> credits_like(needle)(v)
            &&& affecting(criteria.product)(v)
        }
}

/// Filtering what a filter kept keeps what both predicates hold of.
pub proof fn lemma_filter_twice(
    records: Seq<VulnerabilityView>,
    p: spec_fn(VulnerabilityView) -> bool,
    q: spec_fn(VulnerabilityView) -> bool,
    both: spec_fn(VulnerabilityView) -> bool,
)
    requires
        forall|v: VulnerabilityView| #[trigger] both(v) == (p(v) && q(v)),
    ensures
        records.filter(p).filter(q) == records.filter(both),
    decreases records.len(),
{
    reveal(Seq::filter);
    if records.len() > 0 {
        let before = records.drop_last();
        lemma_filter_twice(before, p, q, both);
        before.filter(p).lemma_filter_push(records.last(), q);
    }
}

/// Applies the criteria one after the other: severity, title,
/// acknowledgement, product. What is left are the records that meet all of
/// them, in their order.
pub fn select(vulns: Vec<Vulnerability>, criteria: &Criteria) -> (kept: Vec<Vulnerability>)
    ensures
        kept.deep_view() == vulns.deep_view().filter(selected(criteria@)),
{
    let ghost all = vulns.deep_view();
    let ghost c = criteria@;
    let ghost by_severity = |v: VulnerabilityView|
        c.severity matches Some(severity) ==> rated(severity)(v);
    let ghost by_title = |v: VulnerabilityView|
        {
            &&& by_severity(v)
            &&& c.title matches Some(needle) ==> titled_like(needle)(v)
        };
    let ghost by_acknowledgement = |v: VulnerabilityView|
        {
            &&& by_title(v)
            &&& c.acknowledgement matches Some(needle) ==> credits_like(needle)(v)
        };
    let kept = match criteria.severity {
        Some(severity) => {
            proof {
                lemma_filter_same(all, rated(severity), by_severity);
            }
            filter_by_severity(vulns, severity)
        },
        None => {
            proof {
                lemma_filter_keeps_all(all, by_severity);
            }
            vulns
        },
    };
    assert(kept.deep_view() == all.filter(by_severity));
    let kept = match &criteria.title {
        Some(needle) => {
            proof {
                lemma_filter_twice(all, by_severity, titled_like(needle@), by_title);
            }
            filter_by_title(kept, needle.as_str())
        },
        None => {
            proof {
                lemma_filter_same(all, by_severity, by_title);
            }
            kept
        },
    };
    assert(kept.deep_view() == all.filter(by_title));
    let kept = match &criteria.acknowledgement {
        Some(needle) => {
            proof {
                lemma_filter_twice(all, by_title, credits_like(needle@), by_acknowledgement);
            }
            filter_by_acknowledgement(kept, needle.as_str())
        },
        None => {
            proof {
                lemma_filter_same(all, by_title, by_acknowledgement);
            }
            kept
        },
    };
    assert(kept.deep_view() == all.filter(by_acknowledgement));
    proof {
        lemma_filter_twice(all, by_acknowledgement, affecting(c.product), selected(c));
    }
    filter_by_product(kept, criteria.product)
}

} // verus!
