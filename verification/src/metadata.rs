//! The metadata model: per-type and per-variant declarative records, and the
//! definition-time validation that excludes every runtime failure path.

use vstd::prelude::*;

use crate::status::AppStatus;

verus! {

/// What one variant declares: a short code, an app-status literal, an
/// optional client-safe message (empty means absent) and the variant's
/// message template, whose first `{}` placeholder takes the payload.
pub struct VariantMetadata {
    pub code: String,
    pub app_status: String,
    pub client_msg: String,
    pub template: String,
}

/// What one error type declares: a code prefix and one metadata entry per
/// variant, indexed by the variant's tag. A `None` entry is a variant whose
/// metadata is missing — a definition-time fault that validation rejects.
pub struct TypeMetadata {
    pub code_prefix: String,
    pub variants: Vec<Option<VariantMetadata>>,
}

/// A definition-time fault, carrying the tag of the first offending variant:
/// either its metadata entry is missing, or its app-status literal does not
/// parse into the target app-status type.
pub enum DefError {
    MissingMetadata(usize),
    UnparsableLiteral(usize),
}

/// The tag the fault points at.
pub open spec fn fault_tag(e: DefError) -> usize {
    match e {
        DefError::MissingMetadata(i) => i,
        DefError::UnparsableLiteral(i) => i,
    }
}

/// A variant's entry is present and its app-status literal parses into `T`.
pub open spec fn variant_ok<T: AppStatus>(v: Option<VariantMetadata>) -> bool {
    &&& v is Some
    &&& T::parse_spec(v->0.app_status@) is Some
}

/// Every variant of the type has a valid entry: once this holds, no
/// conversion can fail at runtime.
pub open spec fn type_meta_valid<T: AppStatus>(m: &TypeMetadata) -> bool {
    forall|i: int| 0 <= i < m.variants@.len() ==> variant_ok::<T>(#[trigger] m.variants@[i])
}

/// Definition-time validation: accepts exactly the metadata tables on which
/// every conversion succeeds, and otherwise reports the first faulty variant
/// and which of the two faults it carries.
pub fn validate<T: AppStatus>(meta: &TypeMetadata) -> (r: Result<(), DefError>)
    ensures
        r is Ok <==> type_meta_valid::<T>(meta),
        (r matches Err(e) ==> {
            let i = fault_tag(e) as int;
            &&& 0 <= i < meta.variants@.len()
            &&& !variant_ok::<T>(meta.variants@[i])
            &&& forall|j: int| 0 <= j < i ==> variant_ok::<T>(#[trigger] meta.variants@[j])
            &&& (e is MissingMetadata <==> meta.variants@[i] is None)
        }),
{
    let n = meta.variants.len();
    let mut i: usize = 0;
    while i < n
        invariant
            0 <= i <= n,
            n == meta.variants@.len(),
            forall|j: int| 0 <= j < i ==> variant_ok::<T>(#[trigger] meta.variants@[j]),
        decreases n - i,
    {
        match &meta.variants[i] {
            None => {
                return Err(DefError::MissingMetadata(i));
            },
            Some(v) => {
                let parsed = T::parse_status(v.app_status.as_str());
                if parsed.is_none() {
                    return Err(DefError::UnparsableLiteral(i));
                }
            },
        }
        i = i + 1;
    }
    Ok(())
}

} // verus!
