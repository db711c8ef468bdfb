//! A glyph embedded in another glyph.
//!
//! A [`Component`] is the in-session form — base glyph name, placement
//! transform, and a session-local [`EntityId`] — while a
//! [`ComponentRecord`] is the persisted exchange form, which may carry an
//! identifier of its own. Importing discards the record's identifier and
//! allocates a fresh one; exporting never writes one back.

use crate::entity::{spec_allocate, EntityId, IdAllocator};
use crate::transform::Affine;
use vstd::prelude::*;

verus! {

/// An exchange-format component record, as handed over by the font-format
/// collaborator. The `base` name is not validated here, and a degenerate
/// transform is passed through uninterpreted.
#[derive(Clone, Debug)]
pub struct ComponentRecord {
    pub base: String,
    pub transform: Affine,
    pub identifier: Option<String>,
}

/// "Glyph `base` placed at `transform` inside the current glyph."
///
/// `id` is session identity, not content identity: change detection compares
/// `base` and the transform coefficients only, which [`component_same`]
/// states.
#[derive(Clone, Debug)]
pub struct Component {
    pub base: String,
    pub transform: Affine,
    pub id: EntityId,
}

/// Value equality of two components for change detection: equal base names
/// and bit-for-bit equal transforms, `id` deliberately excluded.
pub open spec fn spec_component_same(x: Component, y: Component) -> bool {
    x.base@ == y.base@ && x.transform == y.transform
}

/// Whether two components are the same for change-detection purposes.
pub fn component_same(x: &Component, y: &Component) -> (r: bool)
    ensures
        r == spec_component_same(*x, *y),
{
    x.base == y.base && crate::transform::affine_eq(&x.transform, &y.transform)
}

/// The component an import of `r` builds, given the freshly allocated `id`.
pub open spec fn spec_import(r: ComponentRecord, id: EntityId) -> Component {
    Component { base: r.base, transform: r.transform, id }
}

/// The record an export of `c` writes: `base` and `transform` verbatim,
/// identifier absent.
pub open spec fn spec_export(c: Component) -> ComponentRecord {
    ComponentRecord { base: c.base, transform: c.transform, identifier: Option::None }
}

impl Component {
    /// Builds a component from an exchange record, allocating a fresh
    /// top-level-scoped identifier from `ids`. The record's own identifier,
    /// if any, is discarded: it is not guaranteed unique or meaningful
    /// within an editing session.
    pub fn from_record(src: &ComponentRecord, ids: &mut IdAllocator) -> (c: Component)
        requires
            old(ids).wf(),
            old(ids).next < u64::MAX,
        ensures
            final(ids).wf(),
            *final(ids) == spec_allocate(*old(ids), Option::None).0,
            c == spec_import(*src, spec_allocate(*old(ids), Option::None).1),
    {
        let base = src.base.clone();
        let transform = src.transform;
        let id = ids.allocate(None);
        Component { base, transform, id }
    }

    /// Writes the component back to exchange form: `base` and `transform`
    /// verbatim, identifier always absent — session identity is never
    /// persisted.
    pub fn to_record(&self) -> (r: ComponentRecord)
        ensures
            r == spec_export(*self),
    {
        let base = self.base.clone();
        let transform = self.transform;
        let identifier = None;
        ComponentRecord { base, transform, identifier }
    }
}

/// Round trip: exporting an imported record restores `base` and every
/// transform coefficient bit-for-bit, and the exported identifier is absent
/// whatever the source record carried.
pub proof fn lemma_round_trip(r: ComponentRecord, id: EntityId)
    ensures
        spec_export(spec_import(r, id)).base == r.base,
        spec_export(spec_import(r, id)).transform == r.transform,
        spec_export(spec_import(r, id)).identifier is None,
{
}

} // verus!
