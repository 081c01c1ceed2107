//! The derivation engine: one generic converter that, given a validated
//! metadata table, a variant tag and the variant's payload text, assembles
//! the `ErrorInfo` for that variant.

use vstd::prelude::*;

use crate::info::ErrorInfo;
use crate::metadata::TypeMetadata;
use crate::metadata::type_meta_valid;
use crate::status::AppStatus;
use crate::text::render;
use crate::text::rendered;

verus! {

/// What a conversion returns, fixed field by field by the variant's metadata
/// and payload: the full code is the type's prefix followed by the variant's
/// code, the app status is the parsed literal, the client message is the
/// declared one, and the server message is the fully interpolated template.
pub open spec fn conversion_post<T: AppStatus>(
    m: &TypeMetadata,
    tag: int,
    payload: Seq<char>,
    r: ErrorInfo<T>,
) -> bool {
    let v = m.variants@[tag]->0;
    &&& r.code@ == m.code_prefix@ + v.code@
    &&& Some(r.app_code) == T::parse_spec(v.app_status@)
    &&& r.client_msg@ == v.client_msg@
    &&& r.server_msg@ == rendered(v.template@, payload)
}

/// Convert the variant `tag` of a registered type, with `payload` as the
/// variant's rendered payload text. Validity of the whole table is required,
/// so this path has no failure mode: every registered variant converts.
pub fn to_error_info<T: AppStatus>(meta: &TypeMetadata, tag: usize, payload: &str) -> (r:
    ErrorInfo<T>)
    requires
        type_meta_valid::<T>(meta),
        tag < meta.variants@.len(),
    ensures
        conversion_post::<T>(meta, tag as int, payload@, r),
{
    match &meta.variants[tag] {
        Some(v) => {
            let code = String::from_str(meta.code_prefix.as_str()).concat(v.code.as_str());
            let server_msg = render(v.template.as_str(), payload);
            ErrorInfo::new(v.app_status.as_str(), code, v.client_msg.clone(), server_msg)
        },
        None => unreached(),
    }
}

/// Two conversions of equal inputs produce field-wise equal records: the
/// conversion contract determines every field, so conversion is idempotent
/// and free of observable cross-call interaction.
pub proof fn lemma_conversion_deterministic<T: AppStatus>(
    m: &TypeMetadata,
    tag: int,
    payload: Seq<char>,
    r1: ErrorInfo<T>,
    r2: ErrorInfo<T>,
)
    requires
        conversion_post::<T>(m, tag, payload, r1),
        conversion_post::<T>(m, tag, payload, r2),
    ensures
        r1.code@ == r2.code@,
        r1.app_code == r2.app_code,
        r1.client_msg@ == r2.client_msg@,
        r1.server_msg@ == r2.server_msg@,
{
}

} // verus!
