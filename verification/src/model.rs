//! The normalized record of a vulnerability and the enumerations it uses.

use crate::cvrf::Score;
use crate::text::{decimal, eq_ignore_ascii_case, same_text, to_decimal};
use vstd::prelude::*;
use vstd::string::StringExecFns;

verus! {

/// The severity rating of a vulnerability. `Unrated` stands for an entry
/// that carries no usable rating; documents and the command line write it
/// `None`.
#[derive(Clone, Copy, Debug, PartialEq, Eq, Structural)]
pub enum Severity {
    Critical,
    Important,
    Moderate,
    High,
    Medium,
    Low,
    Unrated,
}

/// `PossibleValue::matches` of clap, with `ignore_case` set, on a possible
/// value that has the name `name` and no alias. Built without clap's
/// `unicode` feature it compares by `str::eq_ignore_ascii_case`: the two texts
/// are equal but for the case of ASCII letters.
#[verifier::external_body]
fn name_matches(name: &'static str, input: &str) -> (r: bool)
    ensures
        r == eq_ignore_ascii_case(name@, input@),
{
    clap::builder::PossibleValue::new(name).matches(input, true)
}

impl Severity {
    /// The name under which a rating is written on the command line and
    /// read from a document.
    pub open spec fn value_name(self) -> Seq<char> {
        match self {
            Severity::Critical => "critical"@,
            Severity::Important => "important"@,
            Severity::Moderate => "moderate"@,
            Severity::High => "high"@,
            Severity::Medium => "medium"@,
            Severity::Low => "low"@,
            Severity::Unrated => "none"@,
        }
    }

    /// The text that a rating is printed as; `Unrated` prints as nothing.
    pub open spec fn label(self) -> Seq<char> {
        match self {
            Severity::Critical => "Critical"@,
            Severity::Important => "Important"@,
            Severity::Moderate => "Moderate"@,
            Severity::High => "High"@,
            Severity::Medium => "Medium"@,
            Severity::Low => "Low"@,
            Severity::Unrated => ""@,
        }
    }

    /// The rating that a text names: the first, in the order of declaration,
    /// whose value name the text matches when the case of ASCII letters is
    /// ignored.
    pub open spec fn parsed(s: Seq<char>) -> Option<Severity> {
        if eq_ignore_ascii_case(Severity::Critical.value_name(), s) {
            Some(Severity::Critical)
        } else if eq_ignore_ascii_case(Severity::Important.value_name(), s) {
            Some(Severity::Important)
        } else if eq_ignore_ascii_case(Severity::Moderate.value_name(), s) {
            Some(Severity::Moderate)
        } else if eq_ignore_ascii_case(Severity::High.value_name(), s) {
            Some(Severity::High)
        } else if eq_ignore_ascii_case(Severity::Medium.value_name(), s) {
            Some(Severity::Medium)
        } else if eq_ignore_ascii_case(Severity::Low.value_name(), s) {
            Some(Severity::Low)
        } else if eq_ignore_ascii_case(Severity::Unrated.value_name(), s) {
            Some(Severity::Unrated)
        } else {
            None
        }
    }

    /// What `from_str` says of a text that names no rating.
    pub open spec fn invalid_variant(s: Seq<char>) -> Seq<char> {
        "invalid variant: "@ + s
    }

    /// Reads a rating by its value name, ignoring the case of ASCII letters.
    pub fn from_str(s: &str) -> (r: Result<Severity, String>)
        ensures
            match r {
                Ok(v) => Severity::parsed(s@) == Some(v),
                Err(e) => Severity::parsed(s@) is None && e@ == Severity::invalid_variant(s@),
            },
    {
        if name_matches("critical", s) {
            Ok(Severity::Critical)
        } else if name_matches("important", s) {
            Ok(Severity::Important)
        } else if name_matches("moderate", s) {
            Ok(Severity::Moderate)
        } else if name_matches("high", s) {
            Ok(Severity::High)
        } else if name_matches("medium", s) {
            Ok(Severity::Medium)
        } else if name_matches("low", s) {
            Ok(Severity::Low)
        } else if name_matches("none", s) {
            Ok(Severity::Unrated)
        } else {
            let mut e = String::from_str("invalid variant: ");
            e.append(s);
            Err(e)
        }
    }

    /// The text that the rating is printed as.
    pub fn to_string(&self) -> (r: String)
        ensures
            r@ == self.label(),
    {
        String::from_str(
            match self {
                Severity::Critical => "Critical",
                Severity::Important => "Important",
                Severity::Moderate => "Moderate",
                Severity::High => "High",
                Severity::Medium => "Medium",
                Severity::Low => "Low",
                Severity::Unrated => "",
            },
        )
    }
}

impl core::str::FromStr for Severity {
    type Err = String;

    fn from_str(s: &str) -> (r: Result<Severity, String>)
        ensures
            match r {
                Ok(v) => Severity::parsed(s@) == Some(v),
                Err(e) => Severity::parsed(s@) is None && e@ == Severity::invalid_variant(s@),
            },
    {
        Severity::from_str(s)
    }
}

/// The kinds of impact that the publisher names.
pub enum Impact {
    RemoteCodeExecution,
    EscalationOfPrivilege,
    DenialOfService,
    SecurityFeatureBypass,
    InformationDisclosure,
    Spoofing,
}

/// A product to narrow a report to. `All` stands for no narrowing.
#[allow(non_camel_case_types)]
#[derive(Clone, Copy, Debug, PartialEq, Eq, Structural)]
pub enum Product {
    All,
    Win10_1809_x64,
    Win11_22H2_x64,
}

impl Product {
    /// The publisher's number for the product; 0 for `All`.
    pub open spec fn spec_code(self) -> u64 {
        match self {
            Product::All => 0,
            Product::Win10_1809_x64 => 11569,
            Product::Win11_22H2_x64 => 12086,
        }
    }

    /// The product's number as documents write it: in decimal.
    pub open spec fn id_text(self) -> Seq<char> {
        decimal(self.spec_code() as nat)
    }

    /// The product that a document's product number stands for.
    pub open spec fn named_by(s: Seq<char>) -> Option<Product> {
        if s == "11569"@ {
            Some(Product::Win10_1809_x64)
        } else if s == "12086"@ {
            Some(Product::Win11_22H2_x64)
        } else {
            None
        }
    }

    /// The publisher's number for the product; 0 for `All`.
    #[verifier::when_used_as_spec(spec_code)]
    pub fn code(self) -> (r: u64)
        ensures
            r == self.spec_code(),
    {
        match self {
            Product::All => 0,
            Product::Win10_1809_x64 => 11569,
            Product::Win11_22H2_x64 => 12086,
        }
    }

    /// The product's number as documents write it.
    pub fn id_string(self) -> (r: String)
        ensures
            r@ == self.id_text(),
    {
        to_decimal(self.code())
    }

    /// Reads a product from its number as documents write it.
    pub fn from_str(s: &str) -> (r: Result<Product, &'static str>)
        ensures
            match r {
                Ok(p) => Product::named_by(s@) == Some(p),
                Err(e) => Product::named_by(s@) is None && e@ == "Invalid product"@,
            },
    {
        if same_text(s, "11569") {
            Ok(Product::Win10_1809_x64)
        } else if same_text(s, "12086") {
            Ok(Product::Win11_22H2_x64)
        } else {
            Err("Invalid product")
        }
    }
}

impl core::str::FromStr for Product {
    type Err = &'static str;

    fn from_str(s: &str) -> (r: Result<Product, &'static str>)
        ensures
            match r {
                Ok(p) => Product::named_by(s@) == Some(p),
                Err(e) => Product::named_by(s@) is None && e@ == "Invalid product"@,
            },
    {
        Product::from_str(s)
    }
}

/// Every product but `All` is read back from its own number.
pub proof fn lemma_product_number_round_trip(p: Product)
    requires
        p != Product::All,
    ensures
        Product::named_by(p.id_text()) == Some(p),
{
    reveal_strlit("11569");
    reveal_strlit("12086");
    reveal_with_fuel(decimal, 6);
    assert(decimal(11569) =~= "11569"@);
    assert(decimal(12086) =~= "12086"@);
    assert("11569"@[1] != "12086"@[1]);
}

/// A vulnerability in normalized form.
pub struct Vulnerability {
    pub title: String,
    /// The CVE identifier; empty where the document gives none.
    pub cve: String,
    pub severity: Severity,
    /// The CVSS base score, where the document gives one.
    pub cvss: Option<Score>,
    pub impact: String,
    pub description: Option<String>,
    /// The credited contributors, joined; absent unless every one of them
    /// is named.
    pub acknowledgements: Option<String>,
    /// Publicly disclosed.
    pub public: bool,
    /// Exploited in the wild.
    pub exploited: bool,
    /// The product numbers of the affected products.
    pub affected_products: Vec<String>,
}

/// What a normalized record holds, as mathematical values.
pub struct VulnerabilityView {
    pub title: Seq<char>,
    pub cve: Seq<char>,
    pub severity: Severity,
    pub cvss: Option<Score>,
    pub impact: Seq<char>,
    pub description: Option<Seq<char>>,
    pub acknowledgements: Option<Seq<char>>,
    pub public: bool,
    pub exploited: bool,
    pub affected_products: Seq<Seq<char>>,
}

impl View for Vulnerability {
    type V = VulnerabilityView;

    open spec fn view(&self) -> VulnerabilityView {
        VulnerabilityView {
            title: self.title@,
            cve: self.cve@,
            severity: self.severity,
            cvss: self.cvss,
            impact: self.impact@,
            description: self.description.deep_view(),
            acknowledgements: self.acknowledgements.deep_view(),
            public: self.public,
            exploited: self.exploited,
            affected_products: self.affected_products.deep_view(),
        }
    }
}

impl DeepView for Vulnerability {
    type V = VulnerabilityView;

    open spec fn deep_view(&self) -> VulnerabilityView {
        self@
    }
}

impl Clone for Vulnerability {
    fn clone(&self) -> (r: Vulnerability)
        ensures
            r@ == self@,
    {
        let r = Vulnerability {
            title: self.title.clone(),
            cve: self.cve.clone(),
            severity: self.severity,
            cvss: self.cvss,
            impact: self.impact.clone(),
            description: self.description.clone(),
            acknowledgements: self.acknowledgements.clone(),
            public: self.public,
            exploited: self.exploited,
            affected_products: self.affected_products.clone(),
        };
        assert(r.affected_products.deep_view() =~= self.affected_products.deep_view());
        r
    }
}

} // verus!
