//! Presentation multiplexer: one immutable composite document exposed
//! through every configured surface.  No surface copies the document or
//! derives its own; each renders the single shared snapshot.

use crate::composer::CompositeDocument;
use vstd::prelude::*;

verus! {

/// One externally reachable rendering of the composite document: the raw
/// machine-readable endpoint or an interactive documentation UI.
#[derive(Clone, Copy, Debug, PartialEq, Eq, Structural)]
pub enum Surface {
    RawJson,
    SwaggerUi,
    Redoc,
    RapiDoc,
    Scalar,
}

/// One assembled document shared read-only by every configured surface.
pub struct Multiplexer {
    doc: CompositeDocument,
    surfaces: Vec<Surface>,
}

impl Multiplexer {
    /// The single shared document.
    pub closed spec fn spec_doc(&self) -> CompositeDocument {
        self.doc
    }

    /// The configured surfaces, in mount order.
    pub closed spec fn spec_surfaces(&self) -> Seq<Surface> {
        self.surfaces@
    }

    /// What a given surface renders: always the one shared document,
    /// whichever surface asks.
    pub open spec fn rendered(&self, surface: Surface) -> CompositeDocument {
        self.spec_doc()
    }

    pub fn new(doc: CompositeDocument, surfaces: Vec<Surface>) -> (m: Multiplexer)
        ensures
            m.spec_doc() == doc,
            m.spec_surfaces() == surfaces@,
    {
        Multiplexer { doc, surfaces }
    }

    /// The document handed to a surface for rendering.
    pub fn document_for(&self, surface: Surface) -> (d: &CompositeDocument)
        ensures
            *d == self.rendered(surface),
    {
        &self.doc
    }

    /// How many operations the given surface shows.
    pub fn path_count(&self, surface: Surface) -> (n: usize)
        ensures
            n == self.rendered(surface).path_entries().len(),
    {
        self.doc.paths.len()
    }

    /// How many named schemas the given surface shows.
    pub fn schema_count(&self, surface: Surface) -> (n: usize)
        ensures
            n == self.rendered(surface).schema_entries().len(),
    {
        match &self.doc.components {
            Some(c) => c.schemas.len(),
            None => 0,
        }
    }

    /// How many surfaces are mounted.
    pub fn surface_count(&self) -> (n: usize)
        ensures
            n == self.spec_surfaces().len(),
    {
        self.surfaces.len()
    }
}

/// A client fetching the raw document and a client rendering any UI
/// surface of the same process observe the same document: identical
/// operation and schema sets, hence identical counts.
pub proof fn lemma_surfaces_in_sync(m: &Multiplexer, s1: Surface, s2: Surface)
    ensures
        m.rendered(s1) == m.rendered(s2),
        m.rendered(s1).path_entries() == m.rendered(s2).path_entries(),
        m.rendered(s1).schema_entries() == m.rendered(s2).schema_entries(),
{
}

} // verus!
