//! The decisions of the fetch: which addresses to ask, what a response's
//! status means, and what the answers of many periods add up to. Sending
//! the requests and decoding the bodies is the caller's part.

use crate::cvrf::CVRFDocument;
use crate::model::{Vulnerability, VulnerabilityView};
use crate::normalize::{normalize_all, normalized_all};
use crate::text::{decimal, push_decimal};
use vstd::prelude::*;
use vstd::string::StringExecFns;

verus! {

/// Where the monthly documents are published; the period token follows.
pub const CVRF_URL: &'static str = "https://api.msrc.microsoft.com/cvrf/v2.0/cvrf/";

/// How many requests may be under way at once when whole years are asked
/// for.
pub const PARALLEL_REQUESTS: usize = 12;

/// The three-letter name of the `month`-th month of the year, from 0.
pub open spec fn month_name(month: int) -> Seq<char> {
    if month == 0 {
        "Jan"@
    } else if month == 1 {
        "Feb"@
    } else if month == 2 {
        "Mar"@
    } else if month == 3 {
        "Apr"@
    } else if month == 4 {
        "May"@
    } else if month == 5 {
        "Jun"@
    } else if month == 6 {
        "Jul"@
    } else if month == 7 {
        "Aug"@
    } else if month == 8 {
        "Sep"@
    } else if month == 9 {
        "Oct"@
    } else if month == 10 {
        "Nov"@
    } else {
        "Dec"@
    }
}

/// The token of a period: the year in decimal, a hyphen and the month's
/// name, as in `2021-Jan`.
pub open spec fn period_token(year: u32, month: int) -> Seq<char> {
    decimal(year as nat) + "-"@ + month_name(month)
}

/// The address of the document of a period.
pub open spec fn period_url(token: Seq<char>) -> Seq<char> {
    CVRF_URL@ + token
}

fn month_text(month: usize) -> (r: &'static str)
    requires
        month < 12,
    ensures
        r@ == month_name(month as int),
{
    if month == 0 {
        "Jan"
    } else if month == 1 {
        "Feb"
    } else if month == 2 {
        "Mar"
    } else if month == 3 {
        "Apr"
    } else if month == 4 {
        "May"
    } else if month == 5 {
        "Jun"
    } else if month == 6 {
        "Jul"
    } else if month == 7 {
        "Aug"
    } else if month == 8 {
        "Sep"
    } else if month == 9 {
        "Oct"
    } else if month == 10 {
        "Nov"
    } else {
        "Dec"
    }
}

/// The address of the document of the period that `token` names.
pub fn single_url(token: &str) -> (url: String)
    ensures
        url@ == period_url(token@),
{
    let mut url = String::from_str(CVRF_URL);
    url.append(token);
    url
}

/// The address of the document of a month of a year.
pub fn month_url(year: u32, month: usize) -> (url: String)
    requires
        month < 12,
    ensures
        url@ == period_url(period_token(year, month as int)),
{
    let mut url = String::from_str(CVRF_URL);
    push_decimal(&mut url, year as u64);
    url.append("-");
    url.append(month_text(month));
    assert(url@ =~= period_url(period_token(year, month as int)));
    url
}

/// The addresses to ask for whole years: for each month of the year, from
/// January on, that month of every year in the order given.
pub fn period_urls(years: &Vec<u32>) -> (urls: Vec<String>)
    ensures
        urls.len() == 12 * years.len(),
        forall|month: int, i: int|
            0 <= month < 12 && 0 <= i < years.len() ==> (#[trigger] urls@[month * years.len()
                + i])@ == period_url(period_token(years@[i], month)),
{
    let mut urls: Vec<String> = Vec::new();
    let mut month: usize = 0;
    while month < 12
        invariant
            month <= 12,
            urls.len() == month * years.len(),
            forall|m: int, i: int|
                0 <= m < month && 0 <= i < years.len() ==> (#[trigger] urls@[m * years.len()
                    + i])@ == period_url(period_token(years@[i], m)),
        decreases 12 - month,
    {
        let mut i: usize = 0;
        while i < years.len()
            invariant
                month < 12,
                i <= years.len(),
                urls.len() == month * years.len() + i,
                forall|m: int, k: int|
                    0 <= m < month && 0 <= k < years.len() ==> (#[trigger] urls@[m * years.len()
                        + k])@ == period_url(period_token(years@[k], m)),
                forall|k: int|
                    0 <= k < i ==> (#[trigger] urls@[month * years.len() + k])@ == period_url(
                        period_token(years@[k], month as int),
                    ),
            decreases years.len() - i,
        {
            let ghost before = urls@;
            urls.push(month_url(years[i], month));
            proof {
                assert forall|m: int, k: int| 0 <= m < month && 0 <= k < years.len() implies (
                #[trigger] urls@[m * years.len() + k])@ == period_url(
                    period_token(years@[k], m),
                ) by {
                    lemma_cell_before(m, k, month as int, years.len() as int);
                    assert(urls@[m * years.len() + k] == before[m * years.len() + k]);
                }
            }
            i += 1;
        }
        proof {
            assert((month + 1) * years.len() == month * years.len() + years.len())
                by (nonlinear_arith);
            assert forall|m: int, k: int| 0 <= m < month + 1 && 0 <= k < years.len() implies (
            #[trigger] urls@[m * years.len() + k])@ == period_url(period_token(years@[k], m)) by {
                if m == month {
                }
            }
        }
        month += 1;
    }
    urls
}

/// In a table of rows of `width` cells, a cell of an earlier row comes
/// before every cell of a later row.
proof fn lemma_cell_before(row: int, cell: int, later: int, width: int)
    requires
        0 <= row < later,
        0 <= cell < width,
    ensures
        0 <= row * width + cell < later * width,
{
    assert(row * width + width <= later * width) by (nonlinear_arith)
        requires
            row + 1 <= later,
            0 <= width,
    ;
    assert(0 <= row * width) by (nonlinear_arith)
        requires
            0 <= row,
            0 <= width,
    ;
}

/// A status that answers a request with success: one from 200 to 299.
pub open spec fn is_success(status: u16) -> bool {
    200 <= status <= 299
}

/// `StatusCode::from_u16` of reqwest, and `StatusCode::is_success` on the
/// status it makes. `from_u16` takes a number from 100 to 999 for a status
/// and refuses every other; `is_success` says whether a status is within
/// 200-299.
#[verifier::external_body]
fn success_of(status: u16) -> (r: Option<bool>)
    ensures
        r == if 100 <= status <= 999 {
            Some(is_success(status))
        } else {
            None::<bool>
        },
{
    match reqwest::StatusCode::from_u16(status) {
        Ok(code) => Some(code.is_success()),
        Err(_) => None,
    }
}

/// What is said of a period or an address that has no document.
pub open spec fn no_update(subject: Seq<char>) -> Seq<char> {
    "No Security Update found for "@ + subject
}

/// What is said of a task that ended without an answer.
pub open spec fn task_failure(reason: Seq<char>) -> Seq<char> {
    "Got a tokio::JoinError: "@ + reason
}

/// Decides on the status of a response whether its body is to be decoded.
/// Any status but a success means that `subject` has no document, which is
/// said in the error.
pub fn check_status(status: u16, subject: &str) -> (r: Result<(), String>)
    ensures
        match r {
            Ok(_) => is_success(status),
            Err(said) => !is_success(status) && said@ == no_update(subject@),
        },
{
    if let Some(true) = success_of(status) {
        Ok(())
    } else {
        let mut said = String::from_str("No Security Update found for ");
        said.append(subject);
        Err(said)
    }
}

/// The diagnostic for a task that ended without an answer.
pub fn task_failure_message(reason: &str) -> (said: String)
    ensures
        said@ == task_failure(reason@),
{
    let mut said = String::from_str("Got a tokio::JoinError: ");
    said.append(reason);
    said
}

/// What one period came to: its document, or what is to be said of its
/// failure.
pub open spec fn records_of(outcome: Result<CVRFDocument, String>) -> Seq<VulnerabilityView> {
    match outcome {
        Ok(document) => normalized_all(document.vulnerability@),
        Err(_) => Seq::empty(),
    }
}

/// The warning that one period gives rise to, if any.
pub open spec fn warning_of(outcome: Result<CVRFDocument, String>) -> Seq<Seq<char>> {
    match outcome {
        Ok(_) => Seq::empty(),
        Err(said) => seq![said@],
    }
}

/// The records of all periods that gave a document, period after period in
/// the order given, each document's records in its own order.
pub open spec fn gathered(outcomes: Seq<Result<CVRFDocument, String>>) -> Seq<VulnerabilityView>
    decreases outcomes.len(),
{
    if outcomes.len() == 0 {
        Seq::empty()
    } else {
        gathered(outcomes.drop_last()) + records_of(outcomes.last())
    }
}

/// The warnings of all periods that gave no document, in the order given.
pub open spec fn warnings(outcomes: Seq<Result<CVRFDocument, String>>) -> Seq<Seq<char>>
    decreases outcomes.len(),
{
    if outcomes.len() == 0 {
        Seq::empty()
    } else {
        warnings(outcomes.drop_last()) + warning_of(outcomes.last())
    }
}

/// Takes in the outcome of one period. A document adds its normalized
/// records behind those already found; a failure adds nothing and comes
/// back as the warning to give.
pub fn collect(found: &mut Vec<Vulnerability>, outcome: Result<CVRFDocument, String>) -> (warning:
    Option<String>)
    ensures
        final(found).deep_view() == old(found).deep_view() + records_of(outcome),
        warning.deep_view() == match outcome {
            Ok(_) => None,
            Err(said) => Some(said@),
        },
        outcome is Err ==> *final(found) == *old(found),
{
    match outcome {
        Ok(document) => {
            let mut records = normalize_all(&document);
            let ghost before = found.deep_view();
            let ghost added = records.deep_view();
            found.append(&mut records);
            assert(found.deep_view() =~= before + added);
            None
        },
        Err(said) => {
            assert(found.deep_view() + Seq::<VulnerabilityView>::empty() =~= found.deep_view());
            Some(said)
        },
    }
}

/// Adds up the outcomes of many periods: the records of those that gave a
/// document, and one warning for each that did not. No failure keeps the
/// others from counting.
pub fn aggregate(outcomes: Vec<Result<CVRFDocument, String>>) -> (r: (
    Vec<Vulnerability>,
    Vec<String>,
))
    ensures
        r.0.deep_view() == gathered(outcomes@),
        r.1.deep_view() == warnings(outcomes@),
{
    let mut found: Vec<Vulnerability> = Vec::new();
    let mut said: Vec<String> = Vec::new();
    let ghost all = outcomes@;
    assert(all.take(0) =~= Seq::<Result<CVRFDocument, String>>::empty());
    assert(found.deep_view() =~= Seq::<VulnerabilityView>::empty());
    assert(said.deep_view() =~= Seq::<Seq<char>>::empty());
    for outcome in it: outcomes
        invariant
            it.seq() == all,
            found.deep_view() == gathered(all.take(it.index() as int)),
            said.deep_view() == warnings(all.take(it.index() as int)),
    {
        let ghost i = it.index() as int;
        let ghost before = said.deep_view();
        proof {
            assert(all.take(i + 1).drop_last() =~= all.take(i));
        }
        match collect(&mut found, outcome) {
            Some(warning) => {
                said.push(warning);
                assert(said.deep_view() =~= before + seq![warning@]);
            },
            None => {
                assert(said.deep_view() =~= before + Seq::<Seq<char>>::empty());
            },
        }
    }
    assert(all.take(all.len() as int) =~= all);
    (found, said)
}

/// As many warnings are given as periods failed.
pub proof fn lemma_one_warning_per_failure(outcomes: Seq<Result<CVRFDocument, String>>)
    ensures
        warnings(outcomes).len() == outcomes.filter(
            |o: Result<CVRFDocument, String>| o is Err,
        ).len(),
    decreases outcomes.len(),
{
    reveal(Seq::filter);
    if outcomes.len() > 0 {
        lemma_one_warning_per_failure(outcomes.drop_last());
    }
}

/// The periods that failed add nothing: the records are those of the
/// periods that gave a document.
pub proof fn lemma_failures_add_nothing(outcomes: Seq<Result<CVRFDocument, String>>)
    ensures
        gathered(outcomes) == gathered(
            outcomes.filter(|o: Result<CVRFDocument, String>| o is Ok),
        ),
    decreases outcomes.len(),
{
    reveal(Seq::filter);
    let given = |o: Result<CVRFDocument, String>| o is Ok;
    if outcomes.len() > 0 {
        let before = outcomes.drop_last();
        let last = outcomes.last();
        lemma_failures_add_nothing(before);
        if last is Ok {
            assert(before.filter(given).push(last).drop_last() =~= before.filter(given));
        } else {
            assert(gathered(before) + Seq::<VulnerabilityView>::empty() =~= gathered(before));
        }
    }
}

} // verus!
