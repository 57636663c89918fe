//! The paste-sharing data model, at its interface boundary: the fields of
//! a stored paste document, the document identifier, and the error
//! payload the storage service reports. The HTTP calls that move these
//! values live outside the crate.

use vstd::prelude::*;
use vstd::pervasive::unreached;
use crate::strutil::{replace_all, spec_replace};

verus! {

/// The error payload the paste store returns for a failed request.
#[derive(Debug)]
pub struct FirestoreError {
    pub code: u16,
    pub message: String,
    pub status: String,
}

/// The fields of one stored paste: the pasted text, and who created it.
/// Either field may be absent in a malformed document; the accessors
/// demand the shape the store promises.
#[derive(Debug)]
pub struct PasteFields {
    /// The string value of the content field, when present.
    content: Option<String>,
    /// The string value of the creator field: absent, or present and
    /// possibly null.
    created_by: Option<Option<String>>,
}

impl PasteFields {
    pub closed spec fn spec_content(&self) -> Option<String> {
        self.content
    }

    pub closed spec fn spec_created_by(&self) -> Option<Option<String>> {
        self.created_by
    }

    pub fn new(content: Option<String>, created_by: Option<Option<String>>) -> (r:
        PasteFields)
        ensures
            r.spec_content() == content,
            r.spec_created_by() == created_by,
    {
        PasteFields { content, created_by }
    }

    /// The pasted text. Demands a document that carries one.
    pub fn content(&self) -> (r: &str)
        requires
            self.spec_content() is Some,
        ensures
            r@ == self.spec_content()->0@,
    {
        match &self.content {
            Option::Some(s) => s.as_str(),
            Option::None => unreached(),
        }
    }

    /// The pasted text, taking the document apart.
    pub fn into_content(self) -> (r: String)
        requires
            self.spec_content() is Some,
        ensures
            r == self.spec_content()->0,
    {
        match self.content {
            Option::Some(s) => s,
            Option::None => unreached(),
        }
    }

    /// Who created the paste, when recorded. Demands that a present
    /// creator field is not null, as the store writes it.
    pub fn created_by(&self) -> (r: Option<&str>)
        requires
            self.spec_created_by() matches Some(inner) ==> inner is Some,
        ensures
            r is Some <==> self.spec_created_by() is Some,
            r matches Some(s) ==> s@ == self.spec_created_by()->0->0@,
    {
        match &self.created_by {
            Option::Some(inner) => match inner {
                Option::Some(s) => Option::Some(s.as_str()),
                Option::None => unreached(),
            },
            Option::None => Option::None,
        }
    }
}

/// One stored paste document: its full resource name and its fields.
#[derive(Debug)]
pub struct PasteDocument {
    /// The full resource name the store assigned.
    name: String,
    pub fields: PasteFields,
}

impl PasteDocument {
    pub closed spec fn spec_name(&self) -> Seq<char> {
        self.name@
    }

    pub closed spec fn spec_fields(&self) -> PasteFields {
        self.fields
    }

    pub fn new(name: String, fields: PasteFields) -> (r: PasteDocument)
        ensures
            r.spec_name() == name@,
            r.spec_fields() == fields,
    {
        PasteDocument { name, fields }
    }

    /// The document identifier: the resource name with the collection
    /// path stripped wherever it occurs.
    pub fn id(&self) -> (r: String)
        ensures
            r@ == spec_replace(
                self.spec_name(),
                "projects/pastify-app/databases/(default)/documents/pastes/"@,
                Seq::<char>::empty(),
            ),
    {
        proof {
            reveal_strlit("projects/pastify-app/databases/(default)/documents/pastes/");
            reveal_strlit("");
            assert(""@ =~= Seq::<char>::empty());
        }
        replace_all(
            self.name.as_str(),
            "projects/pastify-app/databases/(default)/documents/pastes/",
            "",
        )
    }
}

/// Whether a paste lookup reply carries the document (only a 200 does).
pub fn is_fetch_ok(status: u16) -> (r: bool)
    ensures
        r == (status == 200),
{
    status == 200
}

/// Whether a paste creation reply carries the created document (any
/// success status does).
pub fn is_create_ok(status: u16) -> (r: bool)
    ensures
        r == (200 <= status < 300),
{
    200 <= status && status < 300
}

} // verus!
