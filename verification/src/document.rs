//! The record the workspace keeps for one open file, and the rule by which a
//! record that is opened again is reconciled with the one already stored.

use biome_parser::AnyParse;
use vstd::prelude::*;

verus! {

/// `biome_parser::AnyParse`, the root of a syntax tree with the diagnostics
/// of its parse. Nothing is known of a value of it.
#[verifier::external_type_specification]
#[verifier::external_body]
pub struct ExAnyParse(AnyParse);

/// Marks a document whose content was not parsed because it is larger than
/// its project allows.
#[derive(Clone, Copy, Debug, PartialEq, Eq, Structural)]
pub struct FileTooLarge {
    /// The content's length in bytes.
    pub size: usize,
    /// The limit that was in force when the document was opened.
    pub limit: usize,
}

/// A parsed document: the syntax tree with its diagnostics, and whether the
/// parser reported any error.
pub struct Parsed {
    pub tree: AnyParse,
    pub has_errors: bool,
}

/// `AnyParse::clone`: another handle to the same tree and diagnostics.
#[verifier::external_body]
fn clone_tree(tree: &AnyParse) -> (r: AnyParse)
    ensures
        r == *tree,
{
    tree.clone()
}

impl Clone for Parsed {
    fn clone(&self) -> (r: Parsed)
        ensures
            r == *self,
    {
        Parsed { tree: clone_tree(&self.tree), has_errors: self.has_errors }
    }
}

/// An open file.
pub struct Document {
    pub content: String,
    pub version: i32,
    /// Where the document's file source is registered.
    pub file_source_index: usize,
    /// The parse, or the reason there is none.
    pub syntax: Result<Parsed, FileTooLarge>,
    /// Set when a project scan opened the document. Such a document stays
    /// until its project is closed, whoever else opens or closes it.
    pub opened_by_scanner: bool,
}

impl Clone for Document {
    fn clone(&self) -> (r: Document)
        ensures
            r == *self,
    {
        let syntax = match &self.syntax {
            Ok(parsed) => Ok(parsed.clone()),
            Err(marker) => Err(*marker),
        };
        Document {
            content: self.content.clone(),
            version: self.version,
            file_source_index: self.file_source_index,
            syntax,
            opened_by_scanner: self.opened_by_scanner,
        }
    }
}

/// The larger of two versions.
pub open spec fn later_version(a: i32, b: i32) -> i32 {
    if a >= b {
        a
    } else {
        b
    }
}

impl Document {
    /// The document with the claims of an earlier record merged in: it is
    /// scanner-opened if either is, and carries the later of the two versions.
    /// Content, parse and file source are the document's own.
    pub open spec fn spec_raised(self, scanner: bool, version: i32) -> Document {
        Document {
            opened_by_scanner: self.opened_by_scanner || scanner,
            version: later_version(self.version, version),
            ..self
        }
    }

    /// The document as it is stored over `prior`: merged with it if there is
    /// one.
    pub open spec fn spec_over(self, prior: Option<Document>) -> Document {
        match prior {
            Some(p) => self.spec_raised(p.opened_by_scanner, p.version),
            None => self,
        }
    }

    /// Whether a record with the given claims asks more than the document
    /// grants: it is scanner-opened and the document is not, or its version is
    /// later.
    pub open spec fn spec_outranked(self, scanner: bool, version: i32) -> bool {
        (scanner && !self.opened_by_scanner) || version > self.version
    }

    /// Merges the claims of an earlier record into the document.
    pub fn raised(self, scanner: bool, version: i32) -> (r: Document)
        ensures
            r == self.spec_raised(scanner, version),
    {
        Document {
            opened_by_scanner: self.opened_by_scanner || scanner,
            version: if self.version >= version {
                self.version
            } else {
                version
            },
            ..self
        }
    }

    /// A copy of the document with the claims of an earlier record merged in.
    pub fn raised_copy(&self, scanner: bool, version: i32) -> (r: Document)
        ensures
            r == self.spec_raised(scanner, version),
    {
        self.clone().raised(scanner, version)
    }
}

} // verus!
