//! A registered error type, end to end: a two-variant domain error whose
//! metadata table drives the generic converter, with the resulting record
//! pinned down to the exact strings it carries.

use vstd::prelude::*;

use crate::engine::conversion_post;
use crate::engine::to_error_info;
use crate::info::ErrorInfo;
use crate::info::ToErrorInfo;
use crate::metadata::TypeMetadata;
use crate::metadata::VariantMetadata;
use crate::metadata::type_meta_valid;
use crate::status::AppStatus;
use crate::status::digit_value;
use crate::status::lemma_u16_status_three_digits;
use crate::status::u16_status;
use crate::text::find_placeholder;
use crate::text::lemma_find_placeholder_at;
use crate::text::rendered;

verus! {

/// A domain error with one variant per failure class; the payload is the
/// variant's human-readable detail.
pub enum SampleError {
    NotFound(String),
    ServerError(String),
}

/// The table `SampleError::metadata` registers: prefix `"0A"`, and one entry
/// per variant in tag order.
pub open spec fn sample_table(m: &TypeMetadata) -> bool {
    &&& m.code_prefix@ == "0A"@
    &&& m.variants@.len() == 2
    &&& m.variants@[0] is Some
    &&& m.variants@[0]->0.code@ == "NF"@
    &&& m.variants@[0]->0.app_status@ == "404"@
    &&& m.variants@[0]->0.client_msg@ == ""@
    &&& m.variants@[0]->0.template@ == "Item {} Not found"@
    &&& m.variants@[1] is Some
    &&& m.variants@[1]->0.code@ == "SE"@
    &&& m.variants@[1]->0.app_status@ == "500"@
    &&& m.variants@[1]->0.client_msg@ == "we had a server problem, please try again later"@
    &&& m.variants@[1]->0.template@ == "Internal server error: {}"@
}

/// What converting a `SampleError` yields, field by field and string by
/// string.
pub open spec fn sample_conversion(e: &SampleError, r: ErrorInfo<u16>) -> bool {
    match e {
        SampleError::NotFound(item) => {
            &&& r.code@ == "0ANF"@
            &&& r.app_code == 404
            &&& r.client_msg@ == ""@
            &&& r.server_msg@ == "Item "@ + item@ + " Not found"@
        },
        SampleError::ServerError(detail) => {
            &&& r.code@ == "0ASE"@
            &&& r.app_code == 500
            &&& r.client_msg@ == "we had a server problem, please try again later"@
            &&& r.server_msg@ == "Internal server error: "@ + detail@
        },
    }
}

/// Both status literals of the table parse, and every entry is present, so
/// the table passes validation and every conversion succeeds.
pub proof fn lemma_sample_table_valid(m: &TypeMetadata)
    requires
        sample_table(m),
    ensures
        type_meta_valid::<u16>(m),
        u16_status("404"@) == Some(404u16),
        u16_status("500"@) == Some(500u16),
{
    reveal_strlit("404");
    reveal_strlit("500");
    assert("404"@ =~= seq!['4', '0', '4']);
    assert("500"@ =~= seq!['5', '0', '0']);
    lemma_u16_status_three_digits("404"@, '4', '0', '4');
    lemma_u16_status_three_digits("500"@, '5', '0', '0');
    assert(digit_value('4') == 4 && digit_value('0') == 0 && digit_value('5') == 5);
    assert(forall|i: int| 0 <= i < m.variants@.len() ==> #[trigger] m.variants@[i] is Some);
}

impl SampleError {
    /// The metadata registered for this type, built once at initialization
    /// and read-only afterwards.
    pub fn metadata() -> (m: TypeMetadata)
        ensures
            sample_table(&m),
    {
        let mut variants: Vec<Option<VariantMetadata>> = Vec::new();
        variants.push(
            Some(
                VariantMetadata {
                    code: String::from_str("NF"),
                    app_status: String::from_str("404"),
                    client_msg: String::from_str(""),
                    template: String::from_str("Item {} Not found"),
                },
            ),
        );
        variants.push(
            Some(
                VariantMetadata {
                    code: String::from_str("SE"),
                    app_status: String::from_str("500"),
                    client_msg: String::from_str(
                        "we had a server problem, please try again later",
                    ),
                    template: String::from_str("Internal server error: {}"),
                },
            ),
        );
        TypeMetadata { code_prefix: String::from_str("0A"), variants }
    }

    /// Convert this value through the generic engine, with the resulting
    /// record's exact contents as the contract.
    pub fn error_info(&self) -> (r: ErrorInfo<u16>)
        ensures
            sample_conversion(self, r),
    {
        let meta = Self::metadata();
        proof {
            lemma_sample_table_valid(&meta);
        }
        match self {
            SampleError::NotFound(item) => {
                let r = to_error_info::<u16>(&meta, 0, item.as_str());
                proof {
                    lemma_sample_not_found(&meta, item@, r);
                }
                r
            },
            SampleError::ServerError(detail) => {
                let r = to_error_info::<u16>(&meta, 1, detail.as_str());
                proof {
                    lemma_sample_server_error(&meta, detail@, r);
                }
                r
            },
        }
    }
}

proof fn lemma_sample_not_found(m: &TypeMetadata, item: Seq<char>, r: ErrorInfo<u16>)
    requires
        sample_table(m),
        conversion_post::<u16>(m, 0, item, r),
    ensures
        r.code@ == "0ANF"@,
        r.app_code == 404,
        r.client_msg@ == ""@,
        r.server_msg@ == "Item "@ + item + " Not found"@,
{
    lemma_sample_table_valid(m);
    reveal_strlit("0A");
    reveal_strlit("NF");
    reveal_strlit("0ANF");
    assert(r.code@ =~= "0ANF"@);
    let t = "Item {} Not found"@;
    reveal_strlit("Item {} Not found");
    assert(t.len() == 17);
    assert(t[5] == '{' && t[6] == '}');
    assert(forall|j: int| 0 <= j < 5 ==> !(t[j] == '{' && #[trigger] t[j + 1] == '}'));
    lemma_find_placeholder_at(t, 5);
    reveal_strlit("Item ");
    reveal_strlit(" Not found");
    assert(t.take(5) =~= "Item "@);
    assert(t.skip(7) =~= " Not found"@);
    assert(rendered(t, item) == "Item "@ + item + " Not found"@);
}

proof fn lemma_sample_server_error(m: &TypeMetadata, detail: Seq<char>, r: ErrorInfo<u16>)
    requires
        sample_table(m),
        conversion_post::<u16>(m, 1, detail, r),
    ensures
        r.code@ == "0ASE"@,
        r.app_code == 500,
        r.client_msg@ == "we had a server problem, please try again later"@,
        r.server_msg@ == "Internal server error: "@ + detail,
{
    lemma_sample_table_valid(m);
    reveal_strlit("0A");
    reveal_strlit("SE");
    reveal_strlit("0ASE");
    assert(r.code@ =~= "0ASE"@);
    let t = "Internal server error: {}"@;
    reveal_strlit("Internal server error: {}");
    assert(t.len() == 25);
    assert(t[23] == '{' && t[24] == '}');
    assert(forall|j: int| 0 <= j < 23 ==> !(t[j] == '{' && #[trigger] t[j + 1] == '}'));
    lemma_find_placeholder_at(t, 23);
    reveal_strlit("Internal server error: ");
    assert(t.take(23) =~= "Internal server error: "@);
    assert(rendered(t, detail) =~= "Internal server error: "@ + detail);
}

impl ToErrorInfo for SampleError {
    type T = u16;

    fn to_error_info(&self) -> (r: ErrorInfo<u16>)
        ensures
            sample_conversion(self, r),
    {
        self.error_info()
    }
}

} // verus!
