//! The CVRF v2.0 document as Microsoft's Security Update API publishes it.
//!
//! Every field that the publisher may leave out is an `Option`, so that a
//! field that is absent is told apart from one that is present and empty.

use vstd::prelude::*;

verus! {

/// A CVSS score, held as the 64 bits of the IEEE 754 binary64 number that
/// the document gives. The library carries a score through and never
/// computes with it.
#[derive(Clone, Copy, Debug)]
pub struct Score {
    pub bits: u64,
}

/// One monthly security update document.
pub struct CVRFDocument {
    pub document_title: ValueField,
    pub document_type: ValueField,
    pub document_publisher: DocumentPublisher,
    pub document_tracking: DocumentTracking,
    pub document_notes: Vec<DocumentNote>,
    /// Never read from a document: the publisher changes the shape of the
    /// product tree from time to time. Always empty.
    pub product_tree: String,
    pub vulnerability: Vec<Vulnerability>,
}

/// A text that the publisher wraps in an object and may leave out.
#[derive(Debug)]
pub struct ValueField {
    pub value: Option<String>,
}

impl View for ValueField {
    type V = Option<Seq<char>>;

    open spec fn view(&self) -> Option<Seq<char>> {
        self.value.deep_view()
    }
}

impl DeepView for ValueField {
    type V = Option<Seq<char>>;

    open spec fn deep_view(&self) -> Option<Seq<char>> {
        self@
    }
}

impl Clone for ValueField {
    fn clone(&self) -> (r: ValueField)
        ensures
            r@ == self@,
    {
        ValueField { value: self.value.clone() }
    }
}

/// Who publishes the document.
pub struct DocumentPublisher {
    pub contact_details: ValueField,
    pub issuing_authority: ValueField,
    pub type_: i32,
}

/// The identity and the history of the document.
pub struct DocumentTracking {
    pub identification: Identification,
    pub status: i32,
    pub version: String,
    pub revision_history: Vec<Revision>,
    pub initial_release_date: String,
    pub current_release_date: String,
}

/// The name of the document and its alias.
pub struct Identification {
    pub id: ValueField,
    pub alias: ValueField,
}

/// One revision of a document or of an entry.
pub struct Revision {
    pub number: String,
    pub date: String,
    pub description: ValueField,
}

/// A free-text annotation of the document.
pub struct DocumentNote {
    pub title: String,
    pub audience: String,
    pub type_: i32,
    pub ordinal: String,
    pub value: String,
}

/// A free-text annotation of a vulnerability, tagged by its title.
pub struct Note {
    pub title: String,
    pub type_: i32,
    pub ordinal: String,
    pub value: Option<String>,
}

/// The products that a document speaks of. No document is read into it.
pub struct ProductTree {
    pub branch: Vec<Branch>,
    pub full_product_name: Vec<FullProductName>,
}

/// A branch of the product tree.
pub struct Branch {
    pub items: Vec<Item>,
    pub type_: i32,
    pub name: String,
}

/// A group of products in a branch.
pub struct Item {
    pub items: Vec<ProductIDValue>,
    pub type_: i32,
    pub name: String,
}

/// A product number with the product's name, in a branch.
pub struct ProductIDValue {
    pub product_id: String,
    pub value: String,
}

/// A product number with the product's full name.
pub struct FullProductName {
    pub product_id: String,
    pub value: String,
}

/// One vulnerability entry of a document, as published.
pub struct Vulnerability {
    pub title: ValueField,
    pub notes: Vec<Note>,
    pub discovery_date_specified: bool,
    pub release_date_specified: bool,
    pub cve: String,
    pub product_statuses: Vec<ProductStatus>,
    pub threats: Vec<Threat>,
    pub cvss_score_sets: Vec<CVSSScoreSet>,
    pub remediations: Vec<Remediation>,
    pub acknowledgments: Vec<Acknowledgment>,
    pub ordinal: String,
    pub revision_history: Vec<Revision>,
}

/// The products that stand in one relation to a vulnerability; `type_` says
/// which relation.
pub struct ProductStatus {
    pub product_id: Option<Vec<String>>,
    pub type_: i32,
}

/// A typed statement about a vulnerability; `type_` says what it is about.
pub struct Threat {
    pub description: Option<ValueField>,
    pub product_id: Option<Vec<String>>,
    pub type_: i32,
    pub date_specified: bool,
}

/// The CVSS scores of a vulnerability for a set of products.
pub struct CVSSScoreSet {
    pub base_score: Score,
    pub temporal_score: Score,
    pub vector: String,
    pub product_id: Vec<String>,
}

/// An update or a workaround that remedies a vulnerability.
pub struct Remediation {
    pub description: ValueField,
    pub url: Option<String>,
    pub product_id: Option<Vec<String>>,
    pub type_: i32,
    pub date_specified: bool,
    pub affected_files: Vec<AffectedFile>,
    pub restart_required: Option<ValueField>,
    pub sub_type: Option<String>,
    pub fixed_build: Option<String>,
}

/// A file that a remediation replaces.
pub struct AffectedFile {
    pub file_name: String,
    pub file_last_modified: String,
}

/// The contributors credited for one finding.
pub struct Acknowledgment {
    pub name: Vec<ValueField>,
    pub url: Vec<String>,
}

} // verus!
