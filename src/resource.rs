use vstd::prelude::*;
use crate::strings::is_ascii_text;

verus! {

/// What every persisted entity declares about itself. The flags drive the
/// generic statements: whether an `id` is generated on insert, whether delete
/// is a soft delete through `archived_at`, and which timestamp columns are kept
/// up to date.
pub trait DatabaseResource: Sized {
    /// The entity's type name, in PascalCase.
    spec fn spec_name() -> Seq<char>;

    spec fn spec_has_id() -> bool;

    spec fn spec_is_archivable() -> bool;

    spec fn spec_is_updatable() -> bool;

    spec fn spec_is_creatable() -> bool;

    spec fn spec_is_expirable() -> bool;

    /// The type name; it is ASCII, as table names are.
    fn resource_name() -> (r: String)
        ensures
            r@ == Self::spec_name(),
            is_ascii_text(r@),
    ;

    /// An `id` column is generated on insert.
    fn has_id() -> (r: bool)
        ensures
            r == Self::spec_has_id(),
    ;

    /// Delete sets `archived_at` instead of removing the row.
    fn is_archivable() -> (r: bool)
        ensures
            r == Self::spec_is_archivable(),
    ;

    /// `updated_at` is stamped on insert and on every update.
    fn is_updatable() -> (r: bool)
        ensures
            r == Self::spec_is_updatable(),
    ;

    /// `created_at` is stamped on insert.
    fn is_creatable() -> (r: bool)
        ensures
            r == Self::spec_is_creatable(),
    ;

    /// `expires_at` is stamped on insert and moved forward on every update.
    fn is_expirable() -> (r: bool)
        ensures
            r == Self::spec_is_expirable(),
    ;
}

} // verus!
