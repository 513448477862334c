//! The block of text that a normalized record is printed as.

use crate::model::{Vulnerability, VulnerabilityView};
use vstd::prelude::*;
use vstd::string::StringExecFns;

verus! {

/// A line: a label, a value and the line's end.
pub open spec fn line(label: Seq<char>, value: Seq<char>) -> Seq<char> {
    label + value + "\n"@
}

/// A line that is there only where there is a value for it.
pub open spec fn line_if(label: Seq<char>, value: Option<Seq<char>>) -> Seq<char> {
    match value {
        Some(text) => line(label, text),
        None => Seq::empty(),
    }
}

/// A truth value as it is printed.
pub open spec fn truth(b: bool) -> Seq<char> {
    if b {
        "true"@
    } else {
        "false"@
    }
}

/// The printed block of a record: title, CVE identifier, severity, the
/// base score where the record has one, impact, the description where
/// there is one, the two flags, the acknowledgements where there are any,
/// and a rule of eight hyphens. `score` is the base score as it is printed.
pub open spec fn block(v: VulnerabilityView, score: Seq<char>) -> Seq<char> {
    line(v.title, Seq::empty()) + line(v.cve, Seq::empty()) + line(
        "Severity: "@,
        v.severity.label(),
    ) + line_if(
        "CVSS: "@,
        if v.cvss is Some {
            Some(score)
        } else {
            None
        },
    ) + line("Impact: "@, v.impact) + line_if("Description: "@, v.description) + line(
        "Publicly Disclosed: "@,
        truth(v.public),
    ) + line("Exploited: "@, truth(v.exploited)) + line_if(
        "Acknowledgments: "@,
        v.acknowledgements,
    ) + "--------"@
}

fn push_line(out: &mut String, label: &str, value: &str)
    ensures
        final(out)@ == old(out)@ + line(label@, value@),
{
    out.append(label);
    out.append(value);
    out.append("\n");
    assert(out@ =~= old(out)@ + line(label@, value@));
}

fn truth_text(b: bool) -> (r: &'static str)
    ensures
        r@ == truth(b),
{
    if b {
        "true"
    } else {
        "false"
    }
}

impl Vulnerability {
    /// The printed block of the record. `score` is the base score as it is
    /// to be printed; it is not looked at where the record has no score.
    pub fn render(&self, score: &str) -> (text: String)
        ensures
            text@ == block(self@, score@),
    {
        let mut text = String::new();
        let severity = self.severity.to_string();
        proof {
            reveal_strlit("");
            assert(""@ =~= Seq::<char>::empty());
        }
        push_line(&mut text, self.title.as_str(), "");
        push_line(&mut text, self.cve.as_str(), "");
        push_line(&mut text, "Severity: ", severity.as_str());
        if self.cvss.is_some() {
            push_line(&mut text, "CVSS: ", score);
        }
        push_line(&mut text, "Impact: ", self.impact.as_str());
        if let Some(description) = &self.description {
            push_line(&mut text, "Description: ", description.as_str());
        }
        push_line(&mut text, "Publicly Disclosed: ", truth_text(self.public));
        push_line(&mut text, "Exploited: ", truth_text(self.exploited));
        if let Some(acknowledgements) = &self.acknowledgements {
            push_line(&mut text, "Acknowledgments: ", acknowledgements.as_str());
        }
        text.append("--------");
        assert(text@ =~= block(self@, score@));
        text
    }
}

} // verus!
