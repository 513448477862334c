//! From a vulnerability entry as published to the normalized record.
//!
//! Normalization never fails: what a document leaves out or writes in a
//! form that cannot be read becomes the default of its field.

use crate::cvrf::{Acknowledgment, CVRFDocument, Note, ProductStatus, Threat};
use crate::model::{Severity, Vulnerability, VulnerabilityView};
use crate::text::{chars_of, contains_chars, is_substring, piece, piece_of, same_text};
use vstd::prelude::*;
use vstd::std_specs::convert::FromSpecImpl;
use vstd::string::StringExecFns;

verus! {

/// The threat type that states the impact.
pub const IMPACT: i32 = 0;

/// The threat type that states whether the vulnerability is disclosed and
/// exploited.
pub const EXPLOITABILITY: i32 = 1;

/// The threat type that states the severity rating.
pub const RATING: i32 = 3;

/// The product status type that lists the affected products.
pub const AFFECTED: i32 = 3;

/// The first item of `s` that `wanted` holds of.
pub open spec fn first_where<T>(s: Seq<T>, wanted: spec_fn(T) -> bool) -> Option<T>
    decreases s.len(),
{
    if s.len() == 0 {
        None
    } else if wanted(s[0]) {
        Some(s[0])
    } else {
        first_where(s.drop_first(), wanted)
    }
}

/// `first_where` finds nothing exactly where `wanted` holds of no item, and
/// otherwise the item at the least position where it holds.
pub proof fn lemma_first_where<T>(s: Seq<T>, wanted: spec_fn(T) -> bool)
    ensures
        first_where(s, wanted) is None <==> forall|i: int| 0 <= i < s.len() ==> !wanted(s[i]),
        first_where(s, wanted) is Some ==> exists|i: int|
            0 <= i < s.len() && #[trigger] s[i] == first_where(s, wanted)->0 && wanted(s[i])
                && forall|j: int| 0 <= j < i ==> !wanted(s[j]),
    decreases s.len(),
{
    if s.len() > 0 {
        let rest = s.drop_first();
        lemma_first_where(rest, wanted);
        if wanted(s[0]) {
            assert(s[0] == first_where(s, wanted)->0);
        } else {
            assert forall|i: int| 0 <= i < rest.len() implies rest[i] == s[i + 1] by {}
            if first_where(rest, wanted) is Some {
                let i = choose|i: int|
                    0 <= i < rest.len() && #[trigger] rest[i] == first_where(rest, wanted)->0
                        && wanted(rest[i]) && forall|j: int| 0 <= j < i ==> !wanted(rest[j]);
                assert(s[i + 1] == first_where(s, wanted)->0);
                assert forall|j: int| 0 <= j < i + 1 implies !wanted(s[j]) by {
                    if j > 0 {
                        assert(rest[j - 1] == s[j]);
                    }
                }
            } else {
                assert forall|i: int| 0 <= i < s.len() implies !wanted(s[i]) by {
                    if i > 0 {
                        assert(rest[i - 1] == s[i]);
                    }
                }
            }
        }
    }
}

/// Threat entries of type `kind`.
pub open spec fn threat_of(kind: i32) -> spec_fn(Threat) -> bool {
    |t: Threat| t.type_ == kind
}

/// Product status entries of type `kind`.
pub open spec fn status_of(kind: i32) -> spec_fn(ProductStatus) -> bool {
    |s: ProductStatus| s.type_ == kind
}

/// Notes with the title `title`.
pub open spec fn note_titled(title: Seq<char>) -> spec_fn(Note) -> bool {
    |n: Note| n.title@ == title
}

/// The text of a threat entry, where it has one.
pub open spec fn threat_text(t: Threat) -> Option<Seq<char>> {
    match t.description {
        Some(d) => d@,
        None => None,
    }
}

/// What the first threat entry of type `kind` states; nothing where there
/// is no such entry or it has no text.
pub open spec fn stated(threats: Seq<Threat>, kind: i32) -> Option<Seq<char>> {
    match first_where(threats, threat_of(kind)) {
        Some(t) => threat_text(t),
        None => None,
    }
}

/// A text if there is one, the empty text otherwise.
pub open spec fn or_empty(text: Option<Seq<char>>) -> Seq<char> {
    match text {
        Some(s) => s,
        None => Seq::empty(),
    }
}

/// The rating that the threat entries state: that of the first entry of
/// type `RATING`, `Unrated` where there is none, it has no text, or its text
/// names no rating.
pub open spec fn rating(threats: Seq<Threat>) -> Severity {
    match stated(threats, RATING) {
        Some(text) => match Severity::parsed(text) {
            Some(s) => s,
            None => Severity::Unrated,
        },
        None => Severity::Unrated,
    }
}

/// Whether the `k`-th of the fields that `;` separates in `text` holds
/// `Yes`. A field that is not there holds nothing.
pub open spec fn says_yes(text: Seq<char>, k: nat) -> bool {
    match piece(text, ';', k) {
        Some(field) => is_substring("Yes"@, field),
        None => false,
    }
}

/// The names of all credited contributors, in the order of the document,
/// each as far as it is given.
pub open spec fn credited(acks: Seq<Acknowledgment>) -> Seq<Option<Seq<char>>>
    decreases acks.len(),
{
    if acks.len() == 0 {
        Seq::empty()
    } else {
        credited(acks.drop_last()) + acks.last().name.deep_view()
    }
}

/// The names one after the other, with nothing between them; nothing at
/// all where one of them is missing.
pub open spec fn joined(names: Seq<Option<Seq<char>>>) -> Option<Seq<char>>
    decreases names.len(),
{
    if names.len() == 0 {
        Some(Seq::empty())
    } else {
        match (joined(names.drop_last()), names.last()) {
            (Some(before), Some(name)) => Some(before + name),
            _ => None,
        }
    }
}

/// The products that the first status entry of type `AFFECTED` lists.
pub open spec fn affected(statuses: Seq<ProductStatus>) -> Seq<Seq<char>> {
    match first_where(statuses, status_of(AFFECTED)) {
        Some(status) => match status.product_id {
            Some(ids) => ids.deep_view(),
            None => Seq::empty(),
        },
        None => Seq::empty(),
    }
}

/// The normalized record of a published entry.
pub open spec fn normalized(item: crate::cvrf::Vulnerability) -> VulnerabilityView {
    let exploitability = or_empty(stated(item.threats@, EXPLOITABILITY));
    VulnerabilityView {
        title: or_empty(item.title@),
        cve: item.cve@,
        severity: rating(item.threats@),
        cvss: if item.cvss_score_sets@.len() > 0 {
            Some(item.cvss_score_sets@[0].base_score)
        } else {
            None
        },
        impact: or_empty(stated(item.threats@, IMPACT)),
        description: match first_where(item.notes@, note_titled("Description"@)) {
            Some(note) => note.value.deep_view(),
            None => None,
        },
        acknowledgements: joined(credited(item.acknowledgments@)),
        public: says_yes(exploitability, 0),
        exploited: says_yes(exploitability, 1),
        affected_products: affected(item.product_statuses@),
    }
}

/// The normalized records of the entries of a document, in its order.
pub open spec fn normalized_all(items: Seq<crate::cvrf::Vulnerability>) -> Seq<VulnerabilityView> {
    Seq::new(items.len(), |i: int| normalized(items[i]))
}

fn find_threat(threats: &Vec<Threat>, kind: i32) -> (r: Option<&Threat>)
    ensures
        match r {
            Some(t) => first_where(threats@, threat_of(kind)) == Some(*t),
            None => first_where(threats@, threat_of(kind)) is None,
        },
{
    let mut i: usize = 0;
    assert(threats@.skip(0) =~= threats@);
    while i < threats.len()
        invariant
            i <= threats.len(),
            first_where(threats@, threat_of(kind)) == first_where(
                threats@.skip(i as int),
                threat_of(kind),
            ),
        decreases threats.len() - i,
    {
        if threats[i].type_ == kind {
            return Some(&threats[i]);
        }
        assert(threats@.skip(i as int).drop_first() =~= threats@.skip(i + 1));
        i += 1;
    }
    None
}

fn find_status(statuses: &Vec<ProductStatus>, kind: i32) -> (r: Option<&ProductStatus>)
    ensures
        match r {
            Some(s) => first_where(statuses@, status_of(kind)) == Some(*s),
            None => first_where(statuses@, status_of(kind)) is None,
        },
{
    let mut i: usize = 0;
    assert(statuses@.skip(0) =~= statuses@);
    while i < statuses.len()
        invariant
            i <= statuses.len(),
            first_where(statuses@, status_of(kind)) == first_where(
                statuses@.skip(i as int),
                status_of(kind),
            ),
        decreases statuses.len() - i,
    {
        if statuses[i].type_ == kind {
            return Some(&statuses[i]);
        }
        assert(statuses@.skip(i as int).drop_first() =~= statuses@.skip(i + 1));
        i += 1;
    }
    None
}

fn find_note<'a>(notes: &'a Vec<Note>, title: &str) -> (r: Option<&'a Note>)
    ensures
        match r {
            Some(n) => first_where(notes@, note_titled(title@)) == Some(*n),
            None => first_where(notes@, note_titled(title@)) is None,
        },
{
    let mut i: usize = 0;
    assert(notes@.skip(0) =~= notes@);
    while i < notes.len()
        invariant
            i <= notes.len(),
            first_where(notes@, note_titled(title@)) == first_where(
                notes@.skip(i as int),
                note_titled(title@),
            ),
        decreases notes.len() - i,
    {
        if same_text(notes[i].title.as_str(), title) {
            return Some(&notes[i]);
        }
        assert(notes@.skip(i as int).drop_first() =~= notes@.skip(i + 1));
        i += 1;
    }
    None
}

/// What the first threat entry of type `kind` states.
fn stated_text(threats: &Vec<Threat>, kind: i32) -> (r: Option<&String>)
    ensures
        r.deep_view() == stated(threats@, kind),
{
    match find_threat(threats, kind) {
        Some(t) => match &t.description {
            Some(d) => d.value.as_ref(),
            None => None,
        },
        None => None,
    }
}

fn text_or_empty(text: Option<&String>) -> (r: String)
    ensures
        r@ == or_empty(text.deep_view()),
{
    match text {
        Some(s) => s.clone(),
        None => String::new(),
    }
}

/// A missing name voids the whole, whatever follows it.
pub proof fn lemma_joined_void(names: Seq<Option<Seq<char>>>, more: Seq<Option<Seq<char>>>)
    requires
        joined(names) is None,
    ensures
        joined(names + more) is None,
    decreases more.len(),
{
    if more.len() == 0 {
        assert(names + more =~= names);
    } else {
        lemma_joined_void(names, more.drop_last());
        assert((names + more).drop_last() =~= names + more.drop_last());
    }
}

/// The names are joined exactly where none is missing.
pub proof fn lemma_joined_some(names: Seq<Option<Seq<char>>>)
    ensures
        joined(names) is Some <==> forall|i: int| 0 <= i < names.len() ==> names[i] is Some,
    decreases names.len(),
{
    if names.len() > 0 {
        let before = names.drop_last();
        lemma_joined_some(before);
        if joined(names) is Some {
            assert forall|i: int| 0 <= i < names.len() implies names[i] is Some by {
                if i < before.len() {
                    assert(before[i] == names[i]);
                }
            }
        } else if joined(before) is None {
            let i = choose|i: int| 0 <= i < before.len() && !(before[i] is Some);
            assert(names[i] == before[i]);
        }
    }
}

/// The names credited up to an entry are followed by those of the entry.
pub proof fn lemma_credited_step(acks: Seq<Acknowledgment>, i: int)
    requires
        0 <= i < acks.len(),
    ensures
        credited(acks.take(i + 1)) == credited(acks.take(i)) + acks[i].name.deep_view(),
{
    assert(acks.take(i + 1).drop_last() =~= acks.take(i));
}

/// The names credited up to an entry begin the names credited in all.
pub proof fn lemma_credited_prefix(acks: Seq<Acknowledgment>, i: int)
    requires
        0 <= i <= acks.len(),
    ensures
        credited(acks.take(i)).is_prefix_of(credited(acks)),
    decreases acks.len() - i,
{
    if i == acks.len() {
        assert(acks.take(i) =~= acks);
    } else {
        lemma_credited_step(acks, i);
        lemma_credited_prefix(acks, i + 1);
    }
}

fn join_names(acks: &Vec<Acknowledgment>) -> (r: Option<String>)
    ensures
        r.deep_view() == joined(credited(acks@)),
{
    let mut text = String::new();
    let mut i: usize = 0;
    assert(acks@.take(0) =~= Seq::<Acknowledgment>::empty());
    while i < acks.len()
        invariant
            i <= acks.len(),
            joined(credited(acks@.take(i as int))) == Some(text@),
        decreases acks.len() - i,
    {
        let names = &acks[i].name;
        let ghost before = credited(acks@.take(i as int));
        let ghost these = names.deep_view();
        let mut j: usize = 0;
        assert(before + these.take(0) =~= before);
        while j < names.len()
            invariant
                j <= names.len(),
                i < acks.len(),
                names@ == acks@[i as int].name@,
                these == names.deep_view(),
                before == credited(acks@.take(i as int)),
                joined(before + these.take(j as int)) == Some(text@),
            decreases names.len() - j,
        {
            proof {
                assert((before + these.take(j + 1)).drop_last() =~= before + these.take(j as int));
                assert(these[j as int] == names@[j as int]@);
            }
            match &names[j].value {
                Some(name) => {
                    text.append(name.as_str());
                },
                None => {
                    proof {
                        let void = before + these.take(j + 1);
                        lemma_credited_step(acks@, i as int);
                        lemma_credited_prefix(acks@, i + 1);
                        let upto = credited(acks@.take(i + 1));
                        let all = credited(acks@);
                        assert(upto =~= void + these.skip(j + 1));
                        lemma_joined_void(void, these.skip(j + 1));
                        assert(all =~= upto + all.skip(upto.len() as int));
                        lemma_joined_void(upto, all.skip(upto.len() as int));
                    }
                    return None;
                },
            }
            j += 1;
        }
        proof {
            assert(these.take(j as int) =~= these);
            lemma_credited_step(acks@, i as int);
        }
        i += 1;
    }
    assert(acks@.take(i as int) =~= acks@);
    Some(text)
}

/// Whether the first and the second of the fields that `;` separates in
/// `text` hold `Yes`.
fn yes_fields(text: &str) -> (r: (bool, bool))
    ensures
        r.0 == says_yes(text@, 0),
        r.1 == says_yes(text@, 1),
{
    let chars = chars_of(text);
    let yes = chars_of("Yes");
    let first = match piece_of(&chars, ';', 0) {
        Some(field) => contains_chars(&field, &yes),
        None => false,
    };
    let second = match piece_of(&chars, ';', 1) {
        Some(field) => contains_chars(&field, &yes),
        None => false,
    };
    (first, second)
}

impl FromSpecImpl<&crate::cvrf::Vulnerability> for Vulnerability {
    /// `from` is held to `normalized` by its own contract, over the views:
    /// the texts of a record are new values, which no specification names.
    open spec fn obeys_from_spec() -> bool {
        false
    }

    open spec fn from_spec(item: &crate::cvrf::Vulnerability) -> Vulnerability {
        choose|record: Vulnerability| record@ == normalized(*item)
    }
}

impl From<&crate::cvrf::Vulnerability> for Vulnerability {
    /// Normalizes a published entry. Every entry has a normalized record.
    fn from(item: &crate::cvrf::Vulnerability) -> (record: Vulnerability)
        ensures
            record@ == normalized(*item),
    {
        let title = text_or_empty(item.title.value.as_ref());
        let cve = item.cve.clone();
        let severity = match stated_text(&item.threats, RATING) {
            Some(text) => match Severity::from_str(text.as_str()) {
                Ok(found) => found,
                Err(_) => Severity::Unrated,
            },
            None => Severity::Unrated,
        };
        let cvss = if item.cvss_score_sets.len() > 0 {
            Some(item.cvss_score_sets[0].base_score)
        } else {
            None
        };
        let impact = text_or_empty(stated_text(&item.threats, IMPACT));
        let description = match find_note(&item.notes, "Description") {
            Some(note) => note.value.clone(),
            None => None,
        };
        let acknowledgements = join_names(&item.acknowledgments);
        let exploitability = text_or_empty(stated_text(&item.threats, EXPLOITABILITY));
        let (public, exploited) = yes_fields(exploitability.as_str());
        let affected_products = match find_status(&item.product_statuses, AFFECTED) {
            Some(status) => match &status.product_id {
                Some(ids) => {
                    let copy = ids.clone();
                    assert(copy.deep_view() =~= ids.deep_view());
                    copy
                },
                None => Vec::new(),
            },
            None => Vec::new(),
        };
        assert(affected_products.deep_view() =~= affected(item.product_statuses@));
        Vulnerability {
            title,
            cve,
            severity,
            cvss,
            impact,
            description,
            acknowledgements,
            public,
            exploited,
            affected_products,
        }
    }
}

/// The normalized records of all entries of a document, in the order of
/// the document.
pub fn normalize_all(document: &CVRFDocument) -> (records: Vec<Vulnerability>)
    ensures
        records.deep_view() == normalized_all(document.vulnerability@),
{
    let mut records: Vec<Vulnerability> = Vec::new();
    let mut i: usize = 0;
    while i < document.vulnerability.len()
        invariant
            i <= document.vulnerability.len(),
            records.len() == i,
            forall|j: int| 0 <= j < i ==> records@[j]@ == normalized(document.vulnerability@[j]),
        decreases document.vulnerability.len() - i,
    {
        records.push(Vulnerability::from(&document.vulnerability[i]));
        i += 1;
    }
    assert(records.deep_view() =~= normalized_all(document.vulnerability@));
    records
}

/// An entry without a threat entry of type `RATING` is normalized to
/// `Unrated`.
pub proof fn lemma_unrated_without_rating(item: crate::cvrf::Vulnerability)
    requires
        forall|i: int| 0 <= i < item.threats@.len() ==> item.threats@[i].type_ != RATING,
    ensures
        normalized(item).severity == Severity::Unrated,
{
    lemma_first_where(item.threats@, threat_of(RATING));
}

/// An entry without a product status of type `AFFECTED` is normalized to a
/// record that lists no product: the other status types are not read.
pub proof fn lemma_other_statuses_list_nothing(item: crate::cvrf::Vulnerability)
    requires
        forall|i: int|
            0 <= i < item.product_statuses@.len() ==> item.product_statuses@[i].type_ != AFFECTED,
    ensures
        normalized(item).affected_products == Seq::<Seq<char>>::empty(),
{
    lemma_first_where(item.product_statuses@, status_of(AFFECTED));
}

/// One credited contributor without a name leaves the record without
/// acknowledgement text.
pub proof fn lemma_missing_name_voids_acknowledgements(
    item: crate::cvrf::Vulnerability,
    entry: int,
    name: int,
)
    requires
        0 <= entry < item.acknowledgments@.len(),
        0 <= name < item.acknowledgments@[entry].name@.len(),
        item.acknowledgments@[entry].name@[name].value is None,
    ensures
        normalized(item).acknowledgements is None,
{
    let acks = item.acknowledgments@;
    let names = acks[entry].name.deep_view();
    let upto = credited(acks.take(entry + 1));
    let all = credited(acks);
    lemma_credited_step(acks, entry);
    lemma_credited_prefix(acks, entry + 1);
    let at = credited(acks.take(entry)).len() + name;
    assert(upto[at] == names[name]);
    assert(all[at] == upto[at]);
    assert(all[at] is None);
    lemma_joined_some(all);
}

/// Where every credited contributor is named, the record has the
/// acknowledgement text.
pub proof fn lemma_all_names_give_acknowledgements(item: crate::cvrf::Vulnerability)
    requires
        forall|entry: int, name: int|
            0 <= entry < item.acknowledgments@.len() && 0 <= name
                < item.acknowledgments@[entry].name@.len()
                ==> (#[trigger] item.acknowledgments@[entry].name@[name]).value is Some,
    ensures
        normalized(item).acknowledgements is Some,
{
    lemma_all_credited_named(item.acknowledgments@);
    lemma_joined_some(credited(item.acknowledgments@));
}

proof fn lemma_all_credited_named(acks: Seq<Acknowledgment>)
    requires
        forall|entry: int, name: int|
            0 <= entry < acks.len() && 0 <= name < acks[entry].name@.len() ==> (
            #[trigger] acks[entry].name@[name]).value is Some,
    ensures
        forall|i: int| 0 <= i < credited(acks).len() ==> credited(acks)[i] is Some,
    decreases acks.len(),
{
    if acks.len() > 0 {
        let before = acks.drop_last();
        assert forall|entry: int, name: int|
            0 <= entry < before.len() && 0 <= name < before[entry].name@.len() implies (
        #[trigger] before[entry].name@[name]).value is Some by {
            assert(before[entry] == acks[entry]);
        }
        lemma_all_credited_named(before);
        let last = acks.last().name.deep_view();
        assert forall|i: int| 0 <= i < credited(acks).len() implies credited(acks)[i] is Some by {
            if i >= credited(before).len() {
                let name = i - credited(before).len();
                assert(credited(acks)[i] == last[name]);
                assert(last[name] == acks[acks.len() - 1].name@[name]@);
            }
        }
    }
}

} // verus!
