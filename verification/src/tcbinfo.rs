//! TCB info collateral, written out as a Cairo function that builds it.

use crate::ordering::{descending_set, descending_texts, texts_view};
use crate::render::{
    advisory_ids_text, advisory_ids_value, date_reference, date_reference_text, dated_binding,
    dated_binding_text, hex_inline, hex_inline_text, hex_rows, hex_rows_text, named_binding,
    lemma_sections_fail_early, named_binding_text, optional_text, optional_value, push_section,
    sections_text, text_of, then_text, RenderError,
};
use crate::format::{contains_ascii_uppercase, has_ascii_uppercase};
use crate::text::{chars_of, decimal_text, push_decimal, push_text};
use vstd::prelude::*;

verus! {

/// The imports and the opening of the function `data`.
pub const PREAMBLE: &'static str = "use time::{DateTrait, Month, OffsetDateTimeTrait, TimeTrait};\nuse crate::types::tcbinfo::{\n    TcbComponent, TcbInfoV3, TcbInfoV3Inner, TcbInfoV3TcbLevel, TcbInfoV3TcbLevelItem, TdxModule,\n    TdxModuleIdentities, TdxModuleIdentitiesTcbLevel, TdxModuleIdentitiesTcbLevelItem,\n};\n\npub fn data() -> TcbInfoV3 {\n";

/// The opening of the document, up to the identifier.
pub const DOCUMENT_OPEN: &'static str = "    TcbInfoV3 {\n        tcb_info: TcbInfoV3Inner {\n            id: \"";

/// The end of the identifier and the name of the version field.
pub const VERSION_FIELD: &'static str = "\",\n            version: ";

/// The end of the version and the two date fields.
pub const DATE_FIELDS: &'static str = ",\n            issue_date,\n            next_update,\n";

/// The opening of the `fmspc` array.
pub const FMSPC_OPEN: &'static str = "            fmspc: [";

/// The end of an array on one line.
pub const SPAN_CLOSE: &'static str = "].span(),\n";

/// The opening of the `pce_id` array.
pub const PCE_ID_OPEN: &'static str = "            pce_id: [";

/// The name of the TCB type field.
pub const TCB_TYPE_FIELD: &'static str = "            tcb_type: ";

/// The end of the TCB type and the name of the evaluation number field.
pub const EVALUATION_FIELD: &'static str = ",\n            tcb_evaluation_data_number: ";

/// The end of a field.
pub const FIELD_END: &'static str = ",\n";

/// The opening of the `tdx_module` field.
pub const MODULE_OPEN: &'static str = "            tdx_module: Option::Some(\n                TdxModule {\n";

/// The opening of the `mrsigner` array of the TDX module.
pub const MODULE_MRSIGNER_OPEN: &'static str = "                    mrsigner: array![\n";

/// An indentation of 24 spaces.
pub const INDENT_24: &'static str = "                        ";

/// The end of the `mrsigner` array of the TDX module.
pub const MODULE_MRSIGNER_CLOSE: &'static str = ",\n                    ]\n                        .span(),\n";

/// The opening of the `attributes` array of the TDX module.
pub const MODULE_ATTRIBUTES_OPEN: &'static str = "                    attributes: array![";

/// The opening of the `attributes_mask` array of the TDX module.
pub const MODULE_MASK_OPEN: &'static str = "                    attributes_mask: array![";

/// The end of the `tdx_module` field.
pub const MODULE_CLOSE: &'static str = "                },\n            ),\n";

/// The `tdx_module` field of a document without a TDX module.
pub const MODULE_NONE: &'static str = "            tdx_module: Option::None,\n";

/// The opening of the `tdx_module_identities` field.
pub const IDENTITIES_OPEN: &'static str = "            tdx_module_identities: Option::Some(\n                array![\n";

/// The opening of a TDX module identity, up to its identifier.
pub const IDENTITY_OPEN: &'static str = "                    TdxModuleIdentities {\n                        id: \"";

/// The end of a field that holds text.
pub const TEXT_FIELD_END: &'static str = "\",\n";

/// The opening of the `mrsigner` array of a TDX module identity.
pub const IDENTITY_MRSIGNER_OPEN: &'static str = "                        mrsigner: array![\n";

/// An indentation of 28 spaces.
pub const INDENT_28: &'static str = "                            ";

/// The end of the `mrsigner` array of a TDX module identity.
pub const IDENTITY_MRSIGNER_CLOSE: &'static str = ",\n                        ]\n                            .span(),\n";

/// The opening of the `attributes` array of a TDX module identity.
pub const IDENTITY_ATTRIBUTES_OPEN: &'static str = "                        attributes: array![";

/// The opening of the `attributes_mask` array of a TDX module identity.
pub const IDENTITY_MASK_OPEN: &'static str = "                        attributes_mask: array![";

/// The end of the `attributes_mask` array of a TDX module identity.
pub const IDENTITY_MASK_CLOSE: &'static str = "]\n                            .span(),\n";

/// The opening of the TCB levels of a TDX module identity.
pub const IDENTITY_LEVELS_OPEN: &'static str = "                        tcb_levels: array![\n";

/// The opening of a TCB level of a TDX module identity, up to its version.
pub const MODULE_LEVEL_OPEN: &'static str = "                            TdxModuleIdentitiesTcbLevelItem {\n                                tcb: TdxModuleIdentitiesTcbLevel { isvsvn: ";

/// The end of the version and the name of the date field.
pub const MODULE_LEVEL_DATE: &'static str = " },\n                                tcb_date: ";

/// The end of the date and the name of the status field.
pub const MODULE_LEVEL_STATUS: &'static str = ",\n                                tcb_status: \"";

/// The end of the status and the name of the advisory field.
pub const MODULE_LEVEL_ADVISORY: &'static str = "\",\n                                advisory_ids: ";

/// The end of a TCB level of a TDX module identity.
pub const MODULE_LEVEL_CLOSE: &'static str = "                            },\n";

/// The end of a TDX module identity.
pub const IDENTITY_CLOSE: &'static str = "                        ],\n                    },\n";

/// The end of the `tdx_module_identities` field.
pub const IDENTITIES_CLOSE: &'static str = "                ],\n            ),\n";

/// The `tdx_module_identities` field of a document without identities.
pub const IDENTITIES_NONE: &'static str = "            tdx_module_identities: Option::None,\n";

/// The opening of the `tcb_levels` field.
pub const LEVELS_OPEN: &'static str = "            tcb_levels: array![\n";

/// The opening of a platform TCB level, up to its SGX components.
pub const LEVEL_OPEN: &'static str = "                TcbInfoV3TcbLevelItem {\n                    tcb: TcbInfoV3TcbLevel {\n                        sgxtcbcomponents: array![\n";

/// The end of the SGX components and the name of the PCE version field.
pub const LEVEL_PCESVN: &'static str = "                        ],\n                        pcesvn: ";

/// The end of the PCE version and the opening of the TDX components.
pub const LEVEL_TDX_OPEN: &'static str = ",\n                        tdxtcbcomponents: Option::Some(\n                            array![\n";

/// The end of the TDX components and the name of the date field.
pub const LEVEL_DATE: &'static str = "                            ],\n                        ),\n                    },\n                    tcb_date: ";

/// The end of the date and the name of the status field.
pub const LEVEL_STATUS: &'static str = ",\n                    tcb_status: \"";

/// The end of the status and the name of the advisory field.
pub const LEVEL_ADVISORY: &'static str = "\",\n                    advisory_ids: ";

/// The end of a platform TCB level.
pub const LEVEL_CLOSE: &'static str = "                },\n";

/// The end of the `tcb_levels` field and of the TCB info.
pub const LEVELS_CLOSE: &'static str = "            ],\n        },\n";

/// The opening of the `signature` array.
pub const SIGNATURE_OPEN: &'static str = "        signature: array![";

/// An indentation of 12 spaces.
pub const INDENT_12: &'static str = "            ";

/// The end of the `signature` array, of the document and of the function.
pub const SIGNATURE_CLOSE: &'static str = ",\n        ].span(),\n    }\n}\n";

/// The opening of a TCB component.
pub const COMPONENT_OPEN: &'static str = "TcbComponent {\n";

/// The name of the version field of a TCB component.
pub const SVN_FIELD: &'static str = "svn: ";

/// The name of the category field of a TCB component.
pub const CATEGORY_FIELD: &'static str = "category: ";

/// The name of the type field of a TCB component.
pub const TYPE_FIELD: &'static str = "type_: ";

/// The end of a TCB component.
pub const COMPONENT_CLOSE: &'static str = "},\n";

/// An indentation of 32 spaces.
pub const INDENT_32: &'static str = "                                ";

/// An indentation of 36 spaces.
pub const INDENT_36: &'static str = "                                    ";

/// A line feed.
pub const LINE_FEED: &'static str = "\n";

/// No text.
pub const NOTHING: &'static str = "";

/// The identity of the TDX module: byte strings as hexadecimal text.
#[derive(Debug, PartialEq, Eq)]
pub struct TdxModule {
    pub mrsigner: String,
    pub attributes: String,
    pub attributes_mask: String,
}

/// The security version of a TDX module TCB level.
#[derive(Debug, PartialEq, Eq)]
pub struct ModuleTcb {
    pub isvsvn: u8,
}

/// One TCB level of a TDX module identity.
#[derive(Debug, PartialEq, Eq)]
pub struct ModuleTcbLevel {
    pub tcb: ModuleTcb,
    pub tcb_date: String,
    pub tcb_status: String,
    pub advisory_ids: Option<Vec<String>>,
}

/// One TDX module identity with its TCB levels.
#[derive(Debug, PartialEq, Eq)]
pub struct TdxModuleIdentity {
    pub id: String,
    pub mrsigner: String,
    pub attributes: String,
    pub attributes_mask: String,
    pub tcb_levels: Vec<ModuleTcbLevel>,
}

/// One component of a platform TCB.
#[derive(Debug, PartialEq, Eq)]
pub struct TcbComponent {
    pub svn: u8,
    pub category: Option<String>,
    pub type_: Option<String>,
}

/// The component versions of a platform TCB level.
#[derive(Debug, PartialEq, Eq)]
pub struct PlatformTcb {
    pub sgxtcbcomponents: Vec<TcbComponent>,
    pub pcesvn: u16,
    pub tdxtcbcomponents: Vec<TcbComponent>,
}

/// One TCB level of the platform.
#[derive(Debug, PartialEq, Eq)]
pub struct PlatformTcbLevel {
    pub tcb: PlatformTcb,
    pub tcb_date: String,
    pub tcb_status: String,
    pub advisory_ids: Option<Vec<String>>,
}

/// The signed part of a TCB info document. Byte strings are held as the
/// hexadecimal text of the document, timestamps as they are written there.
#[derive(Debug, PartialEq, Eq)]
pub struct TcbInfoBody {
    pub id: String,
    pub version: u32,
    pub issue_date: String,
    pub next_update: String,
    pub fmspc: String,
    pub pce_id: String,
    pub tcb_type: u8,
    pub tcb_evaluation_data_number: u32,
    pub tdx_module: Option<TdxModule>,
    pub tdx_module_identities: Option<Vec<TdxModuleIdentity>>,
    pub tcb_levels: Vec<PlatformTcbLevel>,
}

/// A TCB info document: the TCB info and the signature over it.
#[derive(Debug, PartialEq, Eq)]
pub struct TcbInfo {
    pub tcb_info: TcbInfoBody,
    pub signature: String,
}

/// The dates of the first `n` platform TCB levels.
pub open spec fn platform_dates(levels: Seq<PlatformTcbLevel>, n: nat) -> Seq<Seq<char>>
    decreases n,
{
    if n == 0 {
        Seq::empty()
    } else {
        platform_dates(levels, (n - 1) as nat).push(levels[n - 1].tcb_date@)
    }
}

/// The dates of the first `n` TCB levels of a TDX module identity.
pub open spec fn module_dates(levels: Seq<ModuleTcbLevel>, n: nat) -> Seq<Seq<char>>
    decreases n,
{
    if n == 0 {
        Seq::empty()
    } else {
        module_dates(levels, (n - 1) as nat).push(levels[n - 1].tcb_date@)
    }
}

/// The dates of all TCB levels of the first `n` TDX module identities.
pub open spec fn identity_dates(identities: Seq<TdxModuleIdentity>, n: nat) -> Seq<Seq<char>>
    decreases n,
{
    if n == 0 {
        Seq::empty()
    } else {
        identity_dates(identities, (n - 1) as nat) + module_dates(
            identities[n - 1].tcb_levels@,
            identities[n - 1].tcb_levels@.len(),
        )
    }
}

/// The dates of the TDX module identities, where the document has any.
pub open spec fn optional_identity_dates(identities: Option<Vec<TdxModuleIdentity>>) -> Seq<
    Seq<char>,
> {
    match identities {
        Some(identities) => identity_dates(identities@, identities@.len()),
        None => Seq::empty(),
    }
}

/// Every TCB date of the document: those of the platform TCB levels, then
/// those of the TDX module identities.
pub open spec fn all_dates(doc: TcbInfo) -> Seq<Seq<char>> {
    platform_dates(doc.tcb_info.tcb_levels@, doc.tcb_info.tcb_levels@.len())
        + optional_identity_dates(doc.tcb_info.tdx_module_identities)
}

/// The TCB dates of the document as they are bound to variables: latest
/// text first, each date once.
pub open spec fn date_order(doc: TcbInfo) -> Seq<Seq<char>> {
    descending_set(all_dates(doc), all_dates(doc).len())
}

/// The statements that bind the dates to their variables, in the order given.
pub open spec fn dated_bindings_text(order: Seq<Seq<char>>) -> Result<Seq<char>, RenderError> {
    sections_text(order.map_values(|raw: Seq<char>| dated_binding_text(raw)), order.len())
}

/// The imports, the opening of the function `data`, and the statements
/// that bind its timestamps.
pub open spec fn bindings_text(doc: TcbInfo) -> Result<Seq<char>, RenderError> {
    let t = Ok(PREAMBLE@);
    let t = then_text(t, named_binding_text(doc.tcb_info.issue_date@, "issue_date"@));
    let t = then_text(t, named_binding_text(doc.tcb_info.next_update@, "next_update"@));
    then_text(t, dated_bindings_text(date_order(doc)))
}

/// The opening of the document and the fields in front of the TDX module.
pub open spec fn summary_text(doc: TcbInfo) -> Result<Seq<char>, RenderError> {
    let info = doc.tcb_info;
    let t = Ok(
        DOCUMENT_OPEN@ + info.id@ + VERSION_FIELD@ + decimal_text(info.version as nat) + DATE_FIELDS@,
    );
    let t = then_text(t, hex_inline_text(FMSPC_OPEN@, info.fmspc@, false, SPAN_CLOSE@));
    let t = then_text(t, hex_inline_text(PCE_ID_OPEN@, info.pce_id@, false, SPAN_CLOSE@));
    then_text(
        t,
        Ok(
            TCB_TYPE_FIELD@ + decimal_text(info.tcb_type as nat) + EVALUATION_FIELD@ + decimal_text(
                info.tcb_evaluation_data_number as nat,
            ) + FIELD_END@,
        ),
    )
}

/// The `tdx_module` field.
pub open spec fn tdx_module_text(module: Option<TdxModule>) -> Result<Seq<char>, RenderError> {
    match module {
        None => Ok(MODULE_NONE@),
        Some(module) => {
            let t = hex_rows_text(
                MODULE_OPEN@ + MODULE_MRSIGNER_OPEN@,
                module.mrsigner@,
                12,
                INDENT_24@,
                NOTHING@,
                MODULE_MRSIGNER_CLOSE@,
            );
            let t = then_text(
                t,
                hex_inline_text(MODULE_ATTRIBUTES_OPEN@, module.attributes@, false, SPAN_CLOSE@),
            );
            let t = then_text(
                t,
                hex_inline_text(
                    MODULE_MASK_OPEN@,
                    module.attributes_mask@,
                    has_ascii_uppercase(module.attributes_mask@),
                    SPAN_CLOSE@,
                ),
            );
            then_text(t, Ok(MODULE_CLOSE@))
        },
    }
}

/// The entry of one TCB level of a TDX module identity.
pub open spec fn module_level_text(level: ModuleTcbLevel) -> Result<Seq<char>, RenderError> {
    let t = Ok(MODULE_LEVEL_OPEN@ + decimal_text(level.tcb.isvsvn as nat) + MODULE_LEVEL_DATE@);
    let t = then_text(t, date_reference_text(level.tcb_date@));
    then_text(
        t,
        Ok(
            MODULE_LEVEL_STATUS@ + level.tcb_status@ + MODULE_LEVEL_ADVISORY@ + advisory_ids_text(
                level.advisory_ids,
            ) + MODULE_LEVEL_CLOSE@,
        ),
    )
}

/// The entries of the TCB levels of a TDX module identity.
pub open spec fn module_levels_text(levels: Seq<ModuleTcbLevel>) -> Result<Seq<char>, RenderError> {
    sections_text(
        levels.map_values(|level: ModuleTcbLevel| module_level_text(level)),
        levels.len(),
    )
}

/// The entry of one TDX module identity.
pub open spec fn identity_text(identity: TdxModuleIdentity) -> Result<Seq<char>, RenderError> {
    let t = hex_rows_text(
        IDENTITY_OPEN@ + identity.id@ + TEXT_FIELD_END@ + IDENTITY_MRSIGNER_OPEN@,
        identity.mrsigner@,
        12,
        INDENT_28@,
        NOTHING@,
        IDENTITY_MRSIGNER_CLOSE@,
    );
    let t = then_text(
        t,
        hex_inline_text(IDENTITY_ATTRIBUTES_OPEN@, identity.attributes@, false, SPAN_CLOSE@),
    );
    let t = then_text(
        t,
        hex_inline_text(
            IDENTITY_MASK_OPEN@,
            identity.attributes_mask@,
            has_ascii_uppercase(identity.attributes_mask@),
            IDENTITY_MASK_CLOSE@,
        ),
    );
    let t = then_text(t, Ok(IDENTITY_LEVELS_OPEN@));
    let t = then_text(t, module_levels_text(identity.tcb_levels@));
    then_text(t, Ok(IDENTITY_CLOSE@))
}

/// The entries of the TDX module identities.
pub open spec fn identities_text(identities: Seq<TdxModuleIdentity>) -> Result<
    Seq<char>,
    RenderError,
> {
    sections_text(
        identities.map_values(|identity: TdxModuleIdentity| identity_text(identity)),
        identities.len(),
    )
}

/// The `tdx_module_identities` field.
pub open spec fn tdx_module_identities_text(identities: Option<Vec<TdxModuleIdentity>>) -> Result<
    Seq<char>,
    RenderError,
> {
    match identities {
        None => Ok(IDENTITIES_NONE@),
        Some(identities) => {
            let t = Ok(IDENTITIES_OPEN@);
            let t = then_text(t, identities_text(identities@));
            then_text(t, Ok(IDENTITIES_CLOSE@))
        },
    }
}

/// The entry of one TCB component. `outer` is the indentation of the
/// entry, `inner` that of its fields.
pub open spec fn component_text(component: TcbComponent, outer: Seq<char>, inner: Seq<char>)
    -> Seq<char> {
    outer + COMPONENT_OPEN@ + inner + SVN_FIELD@ + decimal_text(component.svn as nat)
        + FIELD_END@ + inner + CATEGORY_FIELD@ + optional_text(component.category) + inner
        + TYPE_FIELD@ + optional_text(component.type_) + outer + COMPONENT_CLOSE@
}

/// The entries of the first `n` TCB components.
pub open spec fn components_text(
    components: Seq<TcbComponent>,
    n: nat,
    outer: Seq<char>,
    inner: Seq<char>,
) -> Seq<char>
    decreases n,
{
    if n == 0 {
        Seq::empty()
    } else {
        components_text(components, (n - 1) as nat, outer, inner) + component_text(
            components[n - 1],
            outer,
            inner,
        )
    }
}

/// The entry of one platform TCB level.
pub open spec fn platform_level_text(level: PlatformTcbLevel) -> Result<Seq<char>, RenderError> {
    let t = Ok(
        LEVEL_OPEN@ + components_text(
            level.tcb.sgxtcbcomponents@,
            level.tcb.sgxtcbcomponents@.len(),
            INDENT_28@,
            INDENT_32@,
        ) + LEVEL_PCESVN@ + decimal_text(level.tcb.pcesvn as nat) + LEVEL_TDX_OPEN@
            + components_text(
            level.tcb.tdxtcbcomponents@,
            level.tcb.tdxtcbcomponents@.len(),
            INDENT_32@,
            INDENT_36@,
        ) + LEVEL_DATE@,
    );
    let t = then_text(t, date_reference_text(level.tcb_date@));
    then_text(
        t,
        Ok(
            LEVEL_STATUS@ + level.tcb_status@ + LEVEL_ADVISORY@ + advisory_ids_text(
                level.advisory_ids,
            ) + LEVEL_CLOSE@,
        ),
    )
}

/// The entries of the platform TCB levels.
pub open spec fn platform_levels_text(levels: Seq<PlatformTcbLevel>) -> Result<
    Seq<char>,
    RenderError,
> {
    sections_text(
        levels.map_values(|level: PlatformTcbLevel| platform_level_text(level)),
        levels.len(),
    )
}

/// The `tcb_levels` field and the end of the TCB info.
pub open spec fn tcb_levels_text(levels: Seq<PlatformTcbLevel>) -> Result<Seq<char>, RenderError> {
    let t = Ok(LEVELS_OPEN@);
    let t = then_text(t, platform_levels_text(levels));
    then_text(t, Ok(LEVELS_CLOSE@))
}

/// The `signature` field and the end of the function.
pub open spec fn signature_text(signature: Seq<char>) -> Result<Seq<char>, RenderError> {
    hex_rows_text(SIGNATURE_OPEN@, signature, 16, INDENT_12@, LINE_FEED@, SIGNATURE_CLOSE@)
}

/// The Cairo source for a TCB info document: a function `data` that builds
/// the document. Timestamps and hexadecimal fields are read as the text
/// comes to them, and the first that cannot be read is the error.
pub open spec fn tcb_info_text(doc: TcbInfo) -> Result<Seq<char>, RenderError> {
    let t = bindings_text(doc);
    let t = then_text(t, summary_text(doc));
    let t = then_text(t, tdx_module_text(doc.tcb_info.tdx_module));
    let t = then_text(t, tdx_module_identities_text(doc.tcb_info.tdx_module_identities));
    let t = then_text(t, tcb_levels_text(doc.tcb_info.tcb_levels@));
    then_text(t, signature_text(doc.signature@))
}

/// Every TCB date of the document, in the order in which the document holds them.
pub fn collect_dates(doc: &TcbInfo) -> (dates: Vec<Vec<char>>)
    ensures
        texts_view(dates@) == all_dates(*doc),
{
    let levels = &doc.tcb_info.tcb_levels;
    let mut dates: Vec<Vec<char>> = Vec::new();
    let mut i: usize = 0;
    assert(texts_view(dates@) =~= Seq::<Seq<char>>::empty());
    while i < levels.len()
        invariant
            i <= levels.len(),
            texts_view(dates@) == platform_dates(levels@, i as nat),
        decreases levels.len() - i,
    {
        let ghost before = dates@;
        let date = chars_of(levels[i].tcb_date.as_str());
        dates.push(date);
        assert(texts_view(dates@) =~= texts_view(before).push(date@));
        i += 1;
    }
    let ghost platform = texts_view(dates@);
    match &doc.tcb_info.tdx_module_identities {
        None => {
            assert(platform + Seq::<Seq<char>>::empty() =~= platform);
        },
        Some(identities) => {
            let mut k: usize = 0;
            assert(platform + Seq::<Seq<char>>::empty() =~= platform);
            while k < identities.len()
                invariant
                    k <= identities.len(),
                    texts_view(dates@) == platform + identity_dates(identities@, k as nat),
                decreases identities.len() - k,
            {
                let module_levels = &identities[k].tcb_levels;
                let ghost base = texts_view(dates@);
                let mut j: usize = 0;
                assert(base + Seq::<Seq<char>>::empty() =~= base);
                while j < module_levels.len()
                    invariant
                        j <= module_levels.len(),
                        texts_view(dates@) == base + module_dates(module_levels@, j as nat),
                    decreases module_levels.len() - j,
                {
                    let ghost before = dates@;
                    let date = chars_of(module_levels[j].tcb_date.as_str());
                    dates.push(date);
                    assert(texts_view(dates@) =~= texts_view(before).push(date@));
                    assert(base + module_dates(module_levels@, j as nat).push(date@) =~= (base
                        + module_dates(module_levels@, j as nat)).push(date@));
                    j += 1;
                }
                assert(platform + identity_dates(identities@, k as nat) + module_dates(
                    module_levels@,
                    module_levels@.len(),
                ) =~= platform + (identity_dates(identities@, k as nat) + module_dates(
                    module_levels@,
                    module_levels@.len(),
                )));
                k += 1;
            }
        },
    }
    dates
}

/// The statements that bind the dates to their variables.
fn dated_bindings(order: &[Vec<char>]) -> (r: Result<String, RenderError>)
    ensures
        text_of(r) == dated_bindings_text(texts_view(order@)),
{
    let ghost pieces = texts_view(order@).map_values(|raw: Seq<char>| dated_binding_text(raw));
    let mut out = String::new();
    let mut i: usize = 0;
    while i < order.len()
        invariant
            i <= order.len(),
            pieces == texts_view(order@).map_values(|raw: Seq<char>| dated_binding_text(raw)),
            sections_text(pieces, i as nat) == Ok::<Seq<char>, RenderError>(out@),
        decreases order.len() - i,
    {
        let piece = dated_binding(order[i].as_slice());
        proof {
            assert(texts_view(order@)[i as int] == order@[i as int]@);
            assert(pieces[i as int] == text_of(piece));
            if piece is Err {
                lemma_sections_fail_early(pieces, (i + 1) as nat, order@.len());
            }
        }
        push_section(&mut out, piece)?;
        i += 1;
    }
    Ok(out)
}

/// The imports, the opening of `data`, and the timestamp bindings.
fn bindings(doc: &TcbInfo) -> (r: Result<String, RenderError>)
    ensures
        text_of(r) == bindings_text(*doc),
{
    let mut out = PREAMBLE.to_owned();
    push_section(&mut out, named_binding(doc.tcb_info.issue_date.as_str(), "issue_date"))?;
    push_section(&mut out, named_binding(doc.tcb_info.next_update.as_str(), "next_update"))?;
    let dates = collect_dates(doc);
    let order = descending_texts(dates.as_slice());
    push_section(&mut out, dated_bindings(order.as_slice()))?;
    Ok(out)
}

/// The opening of the document and the fields in front of the TDX module.
fn summary(doc: &TcbInfo) -> (r: Result<String, RenderError>)
    ensures
        text_of(r) == summary_text(*doc),
{
    let info = &doc.tcb_info;
    let mut out = DOCUMENT_OPEN.to_owned();
    push_text(&mut out, info.id.as_str());
    push_text(&mut out, VERSION_FIELD);
    push_decimal(&mut out, info.version as u64);
    push_text(&mut out, DATE_FIELDS);
    push_section(&mut out, hex_inline(FMSPC_OPEN, info.fmspc.as_str(), false, SPAN_CLOSE))?;
    push_section(&mut out, hex_inline(PCE_ID_OPEN, info.pce_id.as_str(), false, SPAN_CLOSE))?;
    let mut tail = TCB_TYPE_FIELD.to_owned();
    push_decimal(&mut tail, info.tcb_type as u64);
    push_text(&mut tail, EVALUATION_FIELD);
    push_decimal(&mut tail, info.tcb_evaluation_data_number as u64);
    push_text(&mut tail, FIELD_END);
    push_text(&mut out, tail.as_str());
    Ok(out)
}

/// The `tdx_module` field.
fn tdx_module_field(module: &Option<TdxModule>) -> (r: Result<String, RenderError>)
    ensures
        text_of(r) == tdx_module_text(*module),
{
    match module {
        None => Ok(MODULE_NONE.to_owned()),
        Some(module) => {
            let mut open = MODULE_OPEN.to_owned();
            push_text(&mut open, MODULE_MRSIGNER_OPEN);
            let mut out = hex_rows(
                open.as_str(),
                module.mrsigner.as_str(),
                12,
                INDENT_24,
                NOTHING,
                MODULE_MRSIGNER_CLOSE,
            )?;
            push_section(
                &mut out,
                hex_inline(MODULE_ATTRIBUTES_OPEN, module.attributes.as_str(), false, SPAN_CLOSE),
            )?;
            let upper = contains_ascii_uppercase(module.attributes_mask.as_str());
            push_section(
                &mut out,
                hex_inline(MODULE_MASK_OPEN, module.attributes_mask.as_str(), upper, SPAN_CLOSE),
            )?;
            push_text(&mut out, MODULE_CLOSE);
            Ok(out)
        },
    }
}

/// The entry of one TCB level of a TDX module identity.
fn module_level(level: &ModuleTcbLevel) -> (r: Result<String, RenderError>)
    ensures
        text_of(r) == module_level_text(*level),
{
    let mut out = MODULE_LEVEL_OPEN.to_owned();
    push_decimal(&mut out, level.tcb.isvsvn as u64);
    push_text(&mut out, MODULE_LEVEL_DATE);
    push_section(&mut out, date_reference(level.tcb_date.as_str()))?;
    let mut tail = MODULE_LEVEL_STATUS.to_owned();
    push_text(&mut tail, level.tcb_status.as_str());
    push_text(&mut tail, MODULE_LEVEL_ADVISORY);
    push_text(&mut tail, advisory_ids_value(&level.advisory_ids).as_str());
    push_text(&mut tail, MODULE_LEVEL_CLOSE);
    push_text(&mut out, tail.as_str());
    Ok(out)
}

/// The entries of the TCB levels of a TDX module identity.
fn module_levels(levels: &[ModuleTcbLevel]) -> (r: Result<String, RenderError>)
    ensures
        text_of(r) == module_levels_text(levels@),
{
    let ghost pieces = levels@.map_values(|item: ModuleTcbLevel| module_level_text(item));
    let mut out = String::new();
    let mut i: usize = 0;
    while i < levels.len()
        invariant
            i <= levels.len(),
            pieces == levels@.map_values(|item: ModuleTcbLevel| module_level_text(item)),
            sections_text(pieces, i as nat) == Ok::<Seq<char>, RenderError>(out@),
        decreases levels.len() - i,
    {
        let piece = module_level(&levels[i]);
        proof {
            assert(pieces[i as int] == text_of(piece));
            if piece is Err {
                lemma_sections_fail_early(pieces, (i + 1) as nat, levels@.len());
            }
        }
        push_section(&mut out, piece)?;
        i += 1;
    }
    Ok(out)
}

/// The entry of one TDX module identity.
fn identity_entry(identity: &TdxModuleIdentity) -> (r: Result<String, RenderError>)
    ensures
        text_of(r) == identity_text(*identity),
{
    let mut open = IDENTITY_OPEN.to_owned();
    push_text(&mut open, identity.id.as_str());
    push_text(&mut open, TEXT_FIELD_END);
    push_text(&mut open, IDENTITY_MRSIGNER_OPEN);
    let mut out = hex_rows(
        open.as_str(),
        identity.mrsigner.as_str(),
        12,
        INDENT_28,
        NOTHING,
        IDENTITY_MRSIGNER_CLOSE,
    )?;
    push_section(
        &mut out,
        hex_inline(IDENTITY_ATTRIBUTES_OPEN, identity.attributes.as_str(), false, SPAN_CLOSE),
    )?;
    let upper = contains_ascii_uppercase(identity.attributes_mask.as_str());
    push_section(
        &mut out,
        hex_inline(IDENTITY_MASK_OPEN, identity.attributes_mask.as_str(), upper, IDENTITY_MASK_CLOSE),
    )?;
    push_text(&mut out, IDENTITY_LEVELS_OPEN);
    push_section(&mut out, module_levels(identity.tcb_levels.as_slice()))?;
    push_text(&mut out, IDENTITY_CLOSE);
    Ok(out)
}

/// The entries of the TDX module identities.
fn identity_entries(identities: &[TdxModuleIdentity]) -> (r: Result<String, RenderError>)
    ensures
        text_of(r) == identities_text(identities@),
{
    let ghost pieces = identities@.map_values(|item: TdxModuleIdentity| identity_text(item));
    let mut out = String::new();
    let mut i: usize = 0;
    while i < identities.len()
        invariant
            i <= identities.len(),
            pieces == identities@.map_values(|item: TdxModuleIdentity| identity_text(item)),
            sections_text(pieces, i as nat) == Ok::<Seq<char>, RenderError>(out@),
        decreases identities.len() - i,
    {
        let piece = identity_entry(&identities[i]);
        proof {
            assert(pieces[i as int] == text_of(piece));
            if piece is Err {
                lemma_sections_fail_early(pieces, (i + 1) as nat, identities@.len());
            }
        }
        push_section(&mut out, piece)?;
        i += 1;
    }
    Ok(out)
}

/// The `tdx_module_identities` field.
fn tdx_module_identities_field(identities: &Option<Vec<TdxModuleIdentity>>) -> (r: Result<
    String,
    RenderError,
>)
    ensures
        text_of(r) == tdx_module_identities_text(*identities),
{
    match identities {
        None => Ok(IDENTITIES_NONE.to_owned()),
        Some(identities) => {
            let mut out = IDENTITIES_OPEN.to_owned();
            push_section(&mut out, identity_entries(identities.as_slice()))?;
            push_text(&mut out, IDENTITIES_CLOSE);
            Ok(out)
        },
    }
}

/// The entry of one TCB component.
fn component_entry(component: &TcbComponent, outer: &str, inner: &str) -> (out: String)
    ensures
        out@ == component_text(*component, outer@, inner@),
{
    let mut out = outer.to_owned();
    push_text(&mut out, COMPONENT_OPEN);
    push_text(&mut out, inner);
    push_text(&mut out, SVN_FIELD);
    push_decimal(&mut out, component.svn as u64);
    push_text(&mut out, FIELD_END);
    push_text(&mut out, inner);
    push_text(&mut out, CATEGORY_FIELD);
    push_text(&mut out, optional_value(&component.category).as_str());
    push_text(&mut out, inner);
    push_text(&mut out, TYPE_FIELD);
    push_text(&mut out, optional_value(&component.type_).as_str());
    push_text(&mut out, outer);
    push_text(&mut out, COMPONENT_CLOSE);
    out
}

/// The entries of the TCB components.
fn component_entries(components: &[TcbComponent], outer: &str, inner: &str) -> (out: String)
    ensures
        out@ == components_text(components@, components@.len(), outer@, inner@),
{
    let mut out = String::new();
    let mut i: usize = 0;
    while i < components.len()
        invariant
            i <= components.len(),
            out@ == components_text(components@, i as nat, outer@, inner@),
        decreases components.len() - i,
    {
        push_text(&mut out, component_entry(&components[i], outer, inner).as_str());
        i += 1;
    }
    out
}

/// The entry of one platform TCB level.
fn platform_level(level: &PlatformTcbLevel) -> (r: Result<String, RenderError>)
    ensures
        text_of(r) == platform_level_text(*level),
{
    let mut out = LEVEL_OPEN.to_owned();
    push_text(
        &mut out,
        component_entries(level.tcb.sgxtcbcomponents.as_slice(), INDENT_28, INDENT_32).as_str(),
    );
    push_text(&mut out, LEVEL_PCESVN);
    push_decimal(&mut out, level.tcb.pcesvn as u64);
    push_text(&mut out, LEVEL_TDX_OPEN);
    push_text(
        &mut out,
        component_entries(level.tcb.tdxtcbcomponents.as_slice(), INDENT_32, INDENT_36).as_str(),
    );
    push_text(&mut out, LEVEL_DATE);
    push_section(&mut out, date_reference(level.tcb_date.as_str()))?;
    let mut tail = LEVEL_STATUS.to_owned();
    push_text(&mut tail, level.tcb_status.as_str());
    push_text(&mut tail, LEVEL_ADVISORY);
    push_text(&mut tail, advisory_ids_value(&level.advisory_ids).as_str());
    push_text(&mut tail, LEVEL_CLOSE);
    push_text(&mut out, tail.as_str());
    Ok(out)
}

/// The entries of the platform TCB levels.
fn platform_levels(levels: &[PlatformTcbLevel]) -> (r: Result<String, RenderError>)
    ensures
        text_of(r) == platform_levels_text(levels@),
{
    let ghost pieces = levels@.map_values(|item: PlatformTcbLevel| platform_level_text(item));
    let mut out = String::new();
    let mut i: usize = 0;
    while i < levels.len()
        invariant
            i <= levels.len(),
            pieces == levels@.map_values(|item: PlatformTcbLevel| platform_level_text(item)),
            sections_text(pieces, i as nat) == Ok::<Seq<char>, RenderError>(out@),
        decreases levels.len() - i,
    {
        let piece = platform_level(&levels[i]);
        proof {
            assert(pieces[i as int] == text_of(piece));
            if piece is Err {
                lemma_sections_fail_early(pieces, (i + 1) as nat, levels@.len());
            }
        }
        push_section(&mut out, piece)?;
        i += 1;
    }
    Ok(out)
}

/// The `tcb_levels` field and the end of the TCB info.
fn tcb_levels_field(levels: &[PlatformTcbLevel]) -> (r: Result<String, RenderError>)
    ensures
        text_of(r) == tcb_levels_text(levels@),
{
    let mut out = LEVELS_OPEN.to_owned();
    push_section(&mut out, platform_levels(levels))?;
    push_text(&mut out, LEVELS_CLOSE);
    Ok(out)
}

/// Writes a TCB info document as the Cairo source of a function `data`
/// that builds it. The TCB dates are bound to variables first, latest text
/// first and each date once; the levels then refer to those variables.
pub fn render_tcb_info(doc: &TcbInfo) -> (r: Result<String, RenderError>)
    ensures
        text_of(r) == tcb_info_text(*doc),
{
    let mut out = bindings(doc)?;
    push_section(&mut out, summary(doc))?;
    push_section(&mut out, tdx_module_field(&doc.tcb_info.tdx_module))?;
    push_section(&mut out, tdx_module_identities_field(&doc.tcb_info.tdx_module_identities))?;
    push_section(&mut out, tcb_levels_field(doc.tcb_info.tcb_levels.as_slice()))?;
    push_section(
        &mut out,
        hex_rows(SIGNATURE_OPEN, doc.signature.as_str(), 16, INDENT_12, LINE_FEED, SIGNATURE_CLOSE),
    )?;
    Ok(out)
}

} // verus!
