//! QE identity collateral, written out as a Cairo function that builds it.

use crate::datetime::DateTime;
use crate::format::{
    format_bytes_from_hex_string, format_bytes_from_hex_string_multiline, format_bytes_inline,
    can_close, format_bytes_multiline, has_ascii_uppercase, joined_hex, lemma_ascii_can_close,
    multiline_text,
};
use crate::render::{
    advisory_ids_text, advisory_ids_value, date_binding, date_binding_text, hex_field,
    named_datetime, read_hex_field, read_named_datetime, text_of, RenderError,
};
use crate::text::{decimal_text, push_decimal, push_text};
use vstd::prelude::*;

verus! {

/// The imports and the opening of the function `data`.
pub const PREAMBLE: &'static str = "use time::{DateTrait, Month, OffsetDateTimeTrait, TimeTrait};\nuse crate::types::enclave_identity::{\n    EnclaveIdentityV2, EnclaveIdentityV2Inner, EnclaveIdentityV2TcbLevel,\n    EnclaveIdentityV2TcbLevelItem,\n};\n\npub fn data() -> EnclaveIdentityV2 {\n";

/// The opening of a TCB level, up to its version.
pub const LEVEL_OPEN: &'static str = "                EnclaveIdentityV2TcbLevelItem {\n                    tcb: EnclaveIdentityV2TcbLevel { isvsvn: ";

/// The end of the version, the date field and the name of the status field.
pub const LEVEL_STATUS: &'static str = " },\n                    tcb_date,\n                    tcb_status: \"";

/// The end of the status and the name of the advisory field.
pub const LEVEL_ADVISORY: &'static str = "\",\n                    advisory_ids: ";

/// The end of a TCB level.
pub const LEVEL_CLOSE: &'static str = "                },\n";

/// The variable that holds the date of the TCB levels.
pub const TCB_DATE: &'static str = "tcb_date";

/// The variable that holds the issue date.
pub const ISSUE_DATE: &'static str = "issue_date";

/// The variable that holds the date of the next update.
pub const NEXT_UPDATE: &'static str = "next_update";

/// The opening of the document, up to the identifier.
pub const DOCUMENT_OPEN: &'static str = "    EnclaveIdentityV2 {\n        enclave_identity: EnclaveIdentityV2Inner {\n            id: \"";

/// The end of the identifier and the name of the version field.
pub const VERSION_FIELD: &'static str = "\",\n            version: ";

/// The end of the version, the two date fields and the name of the evaluation number field.
pub const EVALUATION_FIELD: &'static str = ",\n            issue_date,\n            next_update,\n            tcb_evaluation_data_number: ";

/// The end of the evaluation number and the opening of the `miscselect` array.
pub const MISCSELECT_OPEN: &'static str = ",\n            miscselect: array![";

/// The opening of the `miscselect_mask` array.
pub const MISCSELECT_MASK_OPEN: &'static str = "].span(),\n            miscselect_mask: array![";

/// The opening of the `attributes` array.
pub const ATTRIBUTES_OPEN: &'static str = "].span(),\n            attributes: array![";

/// The indentation of the lines of an array inside the enclave identity.
pub const INNER_INDENT: &'static str = "                ";

/// The opening of the `attributes_mask` array.
pub const ATTRIBUTES_MASK_OPEN: &'static str = "].span(),\n            attributes_mask: array![";

/// The opening of the `mrsigner` array.
pub const MRSIGNER_OPEN: &'static str = "].span(),\n            mrsigner: array![";

/// The end of the `mrsigner` array and the name of the product identifier field.
pub const PRODUCT_FIELD: &'static str = "].span(),\n            isvprodid: ";

/// The end of the product identifier and the opening of the TCB levels.
pub const LEVELS_OPEN: &'static str = ",\n            tcb_levels: array![\n";

/// The end of the TCB levels and of the enclave identity, and the opening of the `signature` array.
pub const SIGNATURE_OPEN: &'static str = "            ].span(),\n        },\n        signature: array![";

/// The indentation of the lines of the signature array.
pub const OUTER_INDENT: &'static str = "            ";

/// The end of the `signature` array, of the document and of the function.
pub const DOCUMENT_CLOSE: &'static str = "].span(),\n    }\n}\n";

/// The security version of a TCB level.
#[derive(Debug, PartialEq, Eq)]
pub struct Tcb {
    pub isvsvn: u16,
}

/// One TCB level of an enclave identity.
#[derive(Debug, PartialEq, Eq)]
pub struct TcbLevel {
    pub tcb: Tcb,
    pub tcb_date: String,
    pub tcb_status: String,
    pub advisory_ids: Option<Vec<String>>,
}

/// The signed part of a QE identity document. Byte strings are held as the
/// hexadecimal text of the document, timestamps as they are written there.
#[derive(Debug, PartialEq, Eq)]
pub struct EnclaveIdentity {
    pub id: String,
    pub version: u32,
    pub issue_date: String,
    pub next_update: String,
    pub tcb_evaluation_data_number: u32,
    pub miscselect: String,
    pub miscselect_mask: String,
    pub attributes: String,
    pub attributes_mask: String,
    pub mrsigner: String,
    pub isvprodid: u16,
    pub tcb_levels: Vec<TcbLevel>,
}

/// A QE identity document: the enclave identity and the signature over it.
#[derive(Debug, PartialEq, Eq)]
pub struct QeIdentity {
    pub enclave_identity: EnclaveIdentity,
    pub signature: String,
}

/// What has to be read out of a QE identity before it can be written.
pub struct QeIdentityFields {
    pub issue_date: DateTime,
    pub next_update: DateTime,
    pub tcb_date: Option<DateTime>,
    pub miscselect: Vec<u8>,
    pub miscselect_mask: Vec<u8>,
    pub attributes: Vec<u8>,
    pub attributes_mask: Vec<u8>,
    pub mrsigner: Vec<u8>,
    pub signature: Vec<u8>,
}

/// The content of [`QeIdentityFields`].
pub struct QeIdentityFieldsView {
    pub issue_date: DateTime,
    pub next_update: DateTime,
    pub tcb_date: Option<DateTime>,
    pub miscselect: Seq<u8>,
    pub miscselect_mask: Seq<u8>,
    pub attributes: Seq<u8>,
    pub attributes_mask: Seq<u8>,
    pub mrsigner: Seq<u8>,
    pub signature: Seq<u8>,
}

impl View for QeIdentityFields {
    type V = QeIdentityFieldsView;

    open spec fn view(&self) -> QeIdentityFieldsView {
        QeIdentityFieldsView {
            issue_date: self.issue_date,
            next_update: self.next_update,
            tcb_date: self.tcb_date,
            miscselect: self.miscselect@,
            miscselect_mask: self.miscselect_mask@,
            attributes: self.attributes@,
            attributes_mask: self.attributes_mask@,
            mrsigner: self.mrsigner@,
            signature: self.signature@,
        }
    }
}

/// The timestamp of the first TCB level, where there is a level.
pub open spec fn first_level_date(levels: Seq<TcbLevel>) -> Result<Option<DateTime>, RenderError> {
    if levels.len() == 0 {
        Ok(None)
    } else {
        match named_datetime(levels[0].tcb_date@) {
            Ok(date) => Ok(Some(date)),
            Err(e) => Err(e),
        }
    }
}

/// The timestamps and byte strings of a QE identity, read in the order in
/// which they are written out; the first that cannot be read is the error.
pub open spec fn qe_identity_fields(doc: QeIdentity) -> Result<QeIdentityFieldsView, RenderError> {
    let identity = doc.enclave_identity;
    match named_datetime(identity.issue_date@) {
        Err(e) => Err(e),
        Ok(issue_date) => match named_datetime(identity.next_update@) {
            Err(e) => Err(e),
            Ok(next_update) => match first_level_date(identity.tcb_levels@) {
                Err(e) => Err(e),
                Ok(tcb_date) => match hex_field(identity.miscselect@) {
                    Err(e) => Err(e),
                    Ok(miscselect) => match hex_field(identity.miscselect_mask@) {
                        Err(e) => Err(e),
                        Ok(miscselect_mask) => match hex_field(identity.attributes@) {
                            Err(e) => Err(e),
                            Ok(attributes) => match hex_field(identity.attributes_mask@) {
                                Err(e) => Err(e),
                                Ok(attributes_mask) => match hex_field(identity.mrsigner@) {
                                    Err(e) => Err(e),
                                    Ok(mrsigner) => match hex_field(doc.signature@) {
                                        Err(e) => Err(e),
                                        Ok(signature) => Ok(
                                            QeIdentityFieldsView {
                                                issue_date,
                                                next_update,
                                                tcb_date,
                                                miscselect,
                                                miscselect_mask,
                                                attributes,
                                                attributes_mask,
                                                mrsigner,
                                                signature,
                                            },
                                        ),
                                    },
                                },
                            },
                        },
                    },
                },
            },
        },
    }
}

/// The entry of one TCB level in the `tcb_levels` array.
pub open spec fn level_text(level: TcbLevel) -> Seq<char> {
    LEVEL_OPEN@
        + decimal_text(level.tcb.isvsvn as nat)
        + LEVEL_STATUS@
        + level.tcb_status@ + LEVEL_ADVISORY@ + advisory_ids_text(
        level.advisory_ids,
    ) + LEVEL_CLOSE@
}

/// The entries of the first `n` TCB levels.
pub open spec fn levels_text(levels: Seq<TcbLevel>, n: nat) -> Seq<char>
    decreases n,
{
    if n == 0 {
        Seq::empty()
    } else {
        levels_text(levels, (n - 1) as nat) + level_text(levels[n - 1])
    }
}

/// The statement that binds `tcb_date`, where there is a TCB level.
pub open spec fn tcb_date_text(levels: Seq<TcbLevel>, date: Option<DateTime>) -> Seq<char> {
    match date {
        Some(date) => date_binding_text(levels[0].tcb_date@, TCB_DATE@, date),
        None => Seq::empty(),
    }
}

/// The imports, the opening of the function `data`, and the statements that
/// bind its timestamps.
pub open spec fn bindings_text(doc: QeIdentity, fields: QeIdentityFieldsView) -> Seq<char> {
    let identity = doc.enclave_identity;
    PREAMBLE@
        + date_binding_text(identity.issue_date@, ISSUE_DATE@, fields.issue_date)
        + date_binding_text(identity.next_update@, NEXT_UPDATE@, fields.next_update)
        + tcb_date_text(identity.tcb_levels@, fields.tcb_date)
}

/// The opening of the document and the scalar fields of the enclave identity.
pub open spec fn scalars_text(doc: QeIdentity) -> Seq<char> {
    let identity = doc.enclave_identity;
    DOCUMENT_OPEN@
        + identity.id@ + VERSION_FIELD@ + decimal_text(identity.version as nat)
        + EVALUATION_FIELD@
        + decimal_text(identity.tcb_evaluation_data_number as nat)
}

/// The byte-string fields of the enclave identity.
pub open spec fn arrays_text(doc: QeIdentity, fields: QeIdentityFieldsView) -> Seq<char> {
    let identity = doc.enclave_identity;
    MISCSELECT_OPEN@ + joined_hex(
        fields.miscselect,
        fields.miscselect.len(),
        true,
    ) + MISCSELECT_MASK_OPEN@ + joined_hex(
        fields.miscselect_mask,
        fields.miscselect_mask.len(),
        has_ascii_uppercase(identity.miscselect_mask@),
    ) + ATTRIBUTES_OPEN@ + multiline_text(
        fields.attributes,
        16,
        INNER_INDENT@,
        false,
    ) + ATTRIBUTES_MASK_OPEN@ + multiline_text(
        fields.attributes_mask,
        16,
        INNER_INDENT@,
        has_ascii_uppercase(identity.attributes_mask@),
    ) + MRSIGNER_OPEN@ + multiline_text(
        fields.mrsigner,
        16,
        INNER_INDENT@,
        has_ascii_uppercase(identity.mrsigner@),
    )
}

/// The product identifier, the TCB levels, the signature, and the end of
/// the function.
pub open spec fn closing_text(doc: QeIdentity, fields: QeIdentityFieldsView) -> Seq<char> {
    let identity = doc.enclave_identity;
    PRODUCT_FIELD@ + decimal_text(identity.isvprodid as nat)
        + LEVELS_OPEN@ + levels_text(
        identity.tcb_levels@,
        identity.tcb_levels@.len(),
    ) + SIGNATURE_OPEN@ + multiline_text(
        fields.signature,
        16,
        OUTER_INDENT@,
        has_ascii_uppercase(doc.signature@),
    ) + DOCUMENT_CLOSE@
}

/// The Cairo source for a QE identity whose fields have been read.
pub open spec fn qe_identity_source(doc: QeIdentity, fields: QeIdentityFieldsView) -> Seq<char> {
    bindings_text(doc, fields) + scalars_text(doc) + arrays_text(doc, fields) + closing_text(
        doc,
        fields,
    )
}

/// The Cairo source for a QE identity: a function `data` that builds the
/// document, or the first field that cannot be read.
pub open spec fn qe_identity_text(doc: QeIdentity) -> Result<Seq<char>, RenderError> {
    match qe_identity_fields(doc) {
        Ok(fields) => Ok(qe_identity_source(doc, fields)),
        Err(e) => Err(e),
    }
}

/// Reads the timestamps and byte strings of a QE identity.
pub fn read_qe_identity_fields(doc: &QeIdentity) -> (r: Result<QeIdentityFields, RenderError>)
    ensures
        match qe_identity_fields(*doc) {
            Ok(fields) => r matches Ok(read) && read@ == fields,
            Err(e) => r matches Err(err) && err == e,
        },
        r matches Ok(read) ==> (read.tcb_date is Some <==> doc.enclave_identity.tcb_levels@.len()
            > 0) && 1 <= read.issue_date.month <= 12 && 1 <= read.next_update.month <= 12 && (
        read.tcb_date matches Some(date) ==> 1 <= date.month <= 12),
{
    let identity = &doc.enclave_identity;
    let issue_date = match read_named_datetime(identity.issue_date.as_str()) {
        Ok(date) => date,
        Err(e) => {
            return Err(e);
        },
    };
    let next_update = match read_named_datetime(identity.next_update.as_str()) {
        Ok(date) => date,
        Err(e) => {
            return Err(e);
        },
    };
    let tcb_date = if identity.tcb_levels.len() > 0 {
        match read_named_datetime(identity.tcb_levels[0].tcb_date.as_str()) {
            Ok(date) => Some(date),
            Err(e) => {
                return Err(e);
            },
        }
    } else {
        None
    };
    let miscselect = match read_hex_field(identity.miscselect.as_str()) {
        Ok(bytes) => bytes,
        Err(e) => {
            return Err(e);
        },
    };
    let miscselect_mask = match read_hex_field(identity.miscselect_mask.as_str()) {
        Ok(bytes) => bytes,
        Err(e) => {
            return Err(e);
        },
    };
    let attributes = match read_hex_field(identity.attributes.as_str()) {
        Ok(bytes) => bytes,
        Err(e) => {
            return Err(e);
        },
    };
    let attributes_mask = match read_hex_field(identity.attributes_mask.as_str()) {
        Ok(bytes) => bytes,
        Err(e) => {
            return Err(e);
        },
    };
    let mrsigner = match read_hex_field(identity.mrsigner.as_str()) {
        Ok(bytes) => bytes,
        Err(e) => {
            return Err(e);
        },
    };
    let signature = match read_hex_field(doc.signature.as_str()) {
        Ok(bytes) => bytes,
        Err(e) => {
            return Err(e);
        },
    };
    Ok(
        QeIdentityFields {
            issue_date,
            next_update,
            tcb_date,
            miscselect,
            miscselect_mask,
            attributes,
            attributes_mask,
            mrsigner,
            signature,
        },
    )
}

/// The entry of one TCB level.
fn level_entry(level: &TcbLevel) -> (out: String)
    ensures
        out@ == level_text(*level),
{
    let mut out =
        LEVEL_OPEN.to_owned();
    push_decimal(&mut out, level.tcb.isvsvn as u64);
    push_text(
        &mut out,
        LEVEL_STATUS,
    );
    push_text(&mut out, level.tcb_status.as_str());
    push_text(&mut out, LEVEL_ADVISORY);
    let ids = advisory_ids_value(&level.advisory_ids);
    push_text(&mut out, ids.as_str());
    push_text(&mut out, LEVEL_CLOSE);
    out
}

/// The entries of all TCB levels.
fn level_entries(levels: &[TcbLevel]) -> (out: String)
    ensures
        out@ == levels_text(levels@, levels@.len()),
{
    let mut out = String::new();
    let mut i: usize = 0;
    while i < levels.len()
        invariant
            i <= levels.len(),
            out@ == levels_text(levels@, i as nat),
        decreases levels.len() - i,
    {
        let entry = level_entry(&levels[i]);
        push_text(&mut out, entry.as_str());
        i += 1;
    }
    out
}

/// The indentation of the lines of an array inside the enclave identity.
fn inner_indent() -> (indent: &'static str)
    ensures
        indent@ == INNER_INDENT@,
        can_close(indent@),
{
    proof {
        reveal_strlit("                ");
        lemma_ascii_can_close(INNER_INDENT@);
    }
    INNER_INDENT
}

/// The indentation of the lines of the signature array.
fn outer_indent() -> (indent: &'static str)
    ensures
        indent@ == OUTER_INDENT@,
        can_close(indent@),
{
    proof {
        reveal_strlit("            ");
        lemma_ascii_can_close(OUTER_INDENT@);
    }
    OUTER_INDENT
}

/// The imports, the opening of `data`, and the timestamp bindings.
fn bindings(doc: &QeIdentity, fields: &QeIdentityFields) -> (out: String)
    requires
        fields.tcb_date is Some <==> doc.enclave_identity.tcb_levels@.len() > 0,
        1 <= fields.issue_date.month <= 12,
        1 <= fields.next_update.month <= 12,
        fields.tcb_date matches Some(date) ==> 1 <= date.month <= 12,
    ensures
        out@ == bindings_text(*doc, fields@),
{
    let identity = &doc.enclave_identity;
    let mut out =
        PREAMBLE.to_owned();
    let piece = date_binding(identity.issue_date.as_str(), ISSUE_DATE, &fields.issue_date);
    push_text(&mut out, piece.as_str());
    let piece = date_binding(identity.next_update.as_str(), NEXT_UPDATE, &fields.next_update);
    push_text(&mut out, piece.as_str());
    let piece = match &fields.tcb_date {
        Some(date) => date_binding(identity.tcb_levels[0].tcb_date.as_str(), TCB_DATE, date),
        None => String::new(),
    };
    push_text(&mut out, piece.as_str());
    out
}

/// The opening of the document and the scalar fields.
fn scalars(doc: &QeIdentity) -> (out: String)
    ensures
        out@ == scalars_text(*doc),
{
    let identity = &doc.enclave_identity;
    let mut out =
        DOCUMENT_OPEN.to_owned();
    push_text(&mut out, identity.id.as_str());
    push_text(&mut out, VERSION_FIELD);
    push_decimal(&mut out, identity.version as u64);
    push_text(
        &mut out,
        EVALUATION_FIELD,
    );
    push_decimal(&mut out, identity.tcb_evaluation_data_number as u64);
    out
}

/// The byte-string fields of the enclave identity.
fn arrays(doc: &QeIdentity, fields: &QeIdentityFields) -> (out: String)
    ensures
        out@ == arrays_text(*doc, fields@),
{
    let identity = &doc.enclave_identity;
    let indent = inner_indent();
    let mut out = MISCSELECT_OPEN.to_owned();
    let piece = format_bytes_inline(fields.miscselect.as_slice());
    push_text(&mut out, piece.as_str());
    push_text(&mut out, MISCSELECT_MASK_OPEN);
    let piece = format_bytes_from_hex_string(
        identity.miscselect_mask.as_str(),
        fields.miscselect_mask.as_slice(),
        false,
    );
    push_text(&mut out, piece.as_str());
    push_text(&mut out, ATTRIBUTES_OPEN);
    let piece = format_bytes_multiline(fields.attributes.as_slice(), 16, indent);
    push_text(&mut out, piece.as_str());
    push_text(&mut out, ATTRIBUTES_MASK_OPEN);
    let piece = format_bytes_from_hex_string_multiline(
        identity.attributes_mask.as_str(),
        fields.attributes_mask.as_slice(),
        16,
        indent,
    );
    push_text(&mut out, piece.as_str());
    push_text(&mut out, MRSIGNER_OPEN);
    let piece = format_bytes_from_hex_string_multiline(
        identity.mrsigner.as_str(),
        fields.mrsigner.as_slice(),
        16,
        indent,
    );
    push_text(&mut out, piece.as_str());
    out
}

/// The product identifier, the TCB levels, the signature, and the end of `data`.
fn closing(doc: &QeIdentity, fields: &QeIdentityFields) -> (out: String)
    ensures
        out@ == closing_text(*doc, fields@),
{
    let identity = &doc.enclave_identity;
    let mut out = PRODUCT_FIELD.to_owned();
    push_decimal(&mut out, identity.isvprodid as u64);
    push_text(&mut out, LEVELS_OPEN);
    let piece = level_entries(identity.tcb_levels.as_slice());
    push_text(&mut out, piece.as_str());
    push_text(&mut out, SIGNATURE_OPEN);
    let piece = format_bytes_from_hex_string_multiline(
        doc.signature.as_str(),
        fields.signature.as_slice(),
        16,
        outer_indent(),
    );
    push_text(&mut out, piece.as_str());
    push_text(&mut out, DOCUMENT_CLOSE);
    out
}

/// Writes a QE identity as the Cairo source of a function `data` that
/// builds it. Timestamps and hexadecimal fields are read first, in the order
/// in which they appear in the output, and the first that cannot be read is
/// returned as the error.
pub fn render_qe_identity(doc: &QeIdentity) -> (r: Result<String, RenderError>)
    ensures
        text_of(r) == qe_identity_text(*doc),
{
    let fields = match read_qe_identity_fields(doc) {
        Ok(fields) => fields,
        Err(e) => {
            return Err(e);
        },
    };
    let mut out = bindings(doc, &fields);
    push_text(&mut out, scalars(doc).as_str());
    push_text(&mut out, arrays(doc, &fields).as_str());
    push_text(&mut out, closing(doc, &fields).as_str());
    Ok(out)
}

} // verus!
