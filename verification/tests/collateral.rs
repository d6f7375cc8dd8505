use dcap_preprocess::datetime::DateTimeError;
use dcap_preprocess::hexstr::HexError;
use dcap_preprocess::ordering::{descending_texts, insert_text, order_of, TextOrder};
use dcap_preprocess::qeidentity::{render_qe_identity, EnclaveIdentity, QeIdentity, Tcb, TcbLevel};
use dcap_preprocess::render::{
    advisory_ids_value, date_binding, date_reference, date_variable, dated_binding, hex_inline,
    hex_rows, named_binding, optional_value, quoted_list, read_hex_field, read_named_datetime,
    RenderError,
};
use dcap_preprocess::tcbinfo::{
    collect_dates, render_tcb_info, ModuleTcb, ModuleTcbLevel, PlatformTcb, PlatformTcbLevel,
    TcbComponent, TcbInfo, TcbInfoBody, TdxModule, TdxModuleIdentity,
};

struct ExpectedDate {
    year: i32,
    month: u8,
    day: u8,
    hour: u8,
    minute: u8,
    second: u8,
    millisecond: u16,
}

fn expected_datetime(datetime_str: &str) -> Option<ExpectedDate> {
    let datetime_str = datetime_str.trim_end_matches('Z');
    let parts: Vec<&str> = datetime_str.split('T').collect();
    if parts.len() != 2 {
        return None;
    }
    let date_parts: Vec<&str> = parts[0].split('-').collect();
    if date_parts.len() != 3 {
        return None;
    }
    let time_parts: Vec<&str> = parts[1].split(':').collect();
    if time_parts.len() != 3 {
        return None;
    }
    Some(ExpectedDate {
        year: date_parts[0].parse().ok()?,
        month: date_parts[1].parse().ok()?,
        day: date_parts[2].parse().ok()?,
        hour: time_parts[0].parse().ok()?,
        minute: time_parts[1].parse().ok()?,
        second: time_parts[2].parse().ok()?,
        millisecond: 0,
    })
}

fn expected_month(month: u8) -> &'static str {
    match month {
        1 => "January",
        2 => "February",
        3 => "March",
        4 => "April",
        5 => "May",
        6 => "June",
        7 => "July",
        8 => "August",
        9 => "September",
        10 => "October",
        11 => "November",
        12 => "December",
        _ => panic!("Invalid month"),
    }
}

fn expected_inline(bytes: &[u8]) -> String {
    bytes.iter().map(|b| format!("0x{:02X}", b)).collect::<Vec<_>>().join(", ")
}

fn expected_lines(bytes: &[u8], per_line: usize, indent: &str) -> String {
    expected_lines_in_case(bytes, per_line, indent, false)
}

fn expected_from_hex(hex_str: &str, bytes: &[u8], _multiline: bool) -> String {
    let is_uppercase = hex_str.chars().any(|c| c.is_ascii_uppercase());
    bytes
        .iter()
        .map(|b| if is_uppercase { format!("0x{:02X}", b) } else { format!("0x{:02x}", b) })
        .collect::<Vec<_>>()
        .join(", ")
}

fn expected_from_hex_multiline(
    hex_str: &str,
    bytes: &[u8],
    per_line: usize,
    indent: &str,
) -> String {
    let is_uppercase = hex_str.chars().any(|c| c.is_ascii_uppercase());
    expected_lines_in_case(bytes, per_line, indent, is_uppercase)
}

fn expected_lines_in_case(bytes: &[u8], per_line: usize, indent: &str, uppercase: bool) -> String {
    let mut result = String::new();
    for (i, chunk) in bytes.chunks(per_line).enumerate() {
        if i > 0 {
            result.push(',');
        }
        result.push('\n');
        result.push_str(indent);
        result.push_str(
            &chunk
                .iter()
                .map(|b| if uppercase { format!("0x{:02X}", b) } else { format!("0x{:02x}", b) })
                .collect::<Vec<_>>()
                .join(", "),
        );
    }
    result.push_str(",\n");
    result.push_str(&indent[..indent.len() - 4]);
    result
}

fn expected_tcb_info(tcb_info: &TcbInfo) -> Option<String> {
        let mut output = String::new();

        output.push_str("use time::{DateTrait, Month, OffsetDateTimeTrait, TimeTrait};\n");
        output.push_str("use crate::types::tcbinfo::{\n");
        output.push_str("    TcbComponent, TcbInfoV3, TcbInfoV3Inner, TcbInfoV3TcbLevel, TcbInfoV3TcbLevelItem, TdxModule,\n");
        output.push_str("    TdxModuleIdentities, TdxModuleIdentitiesTcbLevel, TdxModuleIdentitiesTcbLevelItem,\n");
        output.push_str("};\n\n");

        output.push_str("pub fn data() -> TcbInfoV3 {\n");

        let issue_date = expected_datetime(&tcb_info.tcb_info.issue_date)?;
        output.push_str(&format!("    // {}\n", tcb_info.tcb_info.issue_date));
        output.push_str("    let issue_date = OffsetDateTimeTrait::new_utc(\n");
        output.push_str(&format!(
            "        DateTrait::from_calendar_date({}, Month::{}, {}).unwrap(),\n",
            issue_date.year,
            expected_month(issue_date.month),
            issue_date.day
        ));
        output.push_str(&format!(
            "        TimeTrait::from_hms_milli({}, {}, {}, {}).unwrap(),\n",
            issue_date.hour, issue_date.minute, issue_date.second, issue_date.millisecond
        ));
        output.push_str("    );\n\n");

        let next_update = expected_datetime(&tcb_info.tcb_info.next_update)?;
        output.push_str(&format!("    // {}\n", tcb_info.tcb_info.next_update));
        output.push_str("    let next_update = OffsetDateTimeTrait::new_utc(\n");
        output.push_str(&format!(
            "        DateTrait::from_calendar_date({}, Month::{}, {}).unwrap(),\n",
            next_update.year,
            expected_month(next_update.month),
            next_update.day
        ));
        output.push_str(&format!(
            "        TimeTrait::from_hms_milli({}, {}, {}, {}).unwrap(),\n",
            next_update.hour, next_update.minute, next_update.second, next_update.millisecond
        ));
        output.push_str("    );\n\n");

        let mut unique_dates = std::collections::HashSet::new();
        for tcb_level in &tcb_info.tcb_info.tcb_levels {
            unique_dates.insert(&tcb_level.tcb_date);
        }
        if let Some(tdx_module_identities) = &tcb_info.tcb_info.tdx_module_identities {
            for identity in tdx_module_identities {
                for tcb_level in &identity.tcb_levels {
                    unique_dates.insert(&tcb_level.tcb_date);
                }
            }
        }

        let mut sorted_dates: Vec<_> = unique_dates.into_iter().collect();
        sorted_dates.sort();
        sorted_dates.reverse(); // Most recent first

        for date_str in &sorted_dates {
            let date = expected_datetime(date_str)?;
            let var_name = format!("tcb_date_{}_{:02}_{:02}", date.year, date.month, date.day);
            output.push_str(&format!("    // {}\n", date_str));
            output.push_str(&format!(
                "    let {} = OffsetDateTimeTrait::new_utc(\n",
                var_name
            ));
            output.push_str(&format!(
                "        DateTrait::from_calendar_date({}, Month::{}, {}).unwrap(),\n",
                date.year,
                expected_month(date.month),
                date.day
            ));
            output.push_str(&format!(
                "        TimeTrait::from_hms_milli({}, {}, {}, {}).unwrap(),\n",
                date.hour, date.minute, date.second, date.millisecond
            ));
            output.push_str("    );\n\n");
        }

        output.push_str("    TcbInfoV3 {\n");
        output.push_str("        tcb_info: TcbInfoV3Inner {\n");
        output.push_str(&format!("            id: \"{}\",\n", tcb_info.tcb_info.id));
        output.push_str(&format!(
            "            version: {},\n",
            tcb_info.tcb_info.version
        ));
        output.push_str("            issue_date,\n");
        output.push_str("            next_update,\n");

        let fmspc_bytes = hex::decode(&tcb_info.tcb_info.fmspc).ok()?;
        output.push_str("            fmspc: [");
        for (i, byte) in fmspc_bytes.iter().enumerate() {
            if i > 0 {
                output.push_str(", ");
            }
            output.push_str(&format!("0x{:02x}", byte));
        }
        output.push_str("].span(),\n");

        let pce_id_bytes = hex::decode(&tcb_info.tcb_info.pce_id).ok()?;
        output.push_str("            pce_id: [");
        for (i, byte) in pce_id_bytes.iter().enumerate() {
            if i > 0 {
                output.push_str(", ");
            }
            output.push_str(&format!("0x{:02x}", byte));
        }
        output.push_str("].span(),\n");

        output.push_str(&format!(
            "            tcb_type: {},\n",
            tcb_info.tcb_info.tcb_type
        ));
        output.push_str(&format!(
            "            tcb_evaluation_data_number: {},\n",
            tcb_info.tcb_info.tcb_evaluation_data_number
        ));

        if let Some(tdx_module) = &tcb_info.tcb_info.tdx_module {
            output.push_str("            tdx_module: Option::Some(\n");
            output.push_str("                TdxModule {\n");

            let mrsigner_bytes = hex::decode(&tdx_module.mrsigner).ok()?;
            output.push_str("                    mrsigner: array![\n");
            for (i, chunk) in mrsigner_bytes.chunks(12).enumerate() {
                if i > 0 {
                    output.push_str(",\n");
                }
                output.push_str("                        ");
                for (j, byte) in chunk.iter().enumerate() {
                    if j > 0 {
                        output.push_str(", ");
                    }
                    output.push_str(&format!("0x{:02x}", byte));
                }
            }
            output.push_str(",\n                    ]\n                        .span(),\n");

            let attributes_bytes = hex::decode(&tdx_module.attributes).ok()?;
            output.push_str("                    attributes: array![");
            for (i, byte) in attributes_bytes.iter().enumerate() {
                if i > 0 {
                    output.push_str(", ");
                }
                output.push_str(&format!("0x{:02x}", byte));
            }
            output.push_str("].span(),\n");

            let attributes_mask_bytes = hex::decode(&tdx_module.attributes_mask).ok()?;
            output.push_str("                    attributes_mask: array![");
            for (i, byte) in attributes_mask_bytes.iter().enumerate() {
                if i > 0 {
                    output.push_str(", ");
                }
                let is_uppercase = tdx_module
                    .attributes_mask
                    .chars()
                    .any(|c| c.is_ascii_uppercase());
                if is_uppercase {
                    output.push_str(&format!("0x{:02X}", byte));
                } else {
                    output.push_str(&format!("0x{:02x}", byte));
                }
            }
            output.push_str("].span(),\n");

            output.push_str("                },\n");
            output.push_str("            ),\n");
        } else {
            output.push_str("            tdx_module: Option::None,\n");
        }

        if let Some(identities) = &tcb_info.tcb_info.tdx_module_identities {
            output.push_str("            tdx_module_identities: Option::Some(\n");
            output.push_str("                array![\n");

            for identity in identities {
                output.push_str("                    TdxModuleIdentities {\n");
                output.push_str(&format!(
                    "                        id: \"{}\",\n",
                    identity.id
                ));

                let mrsigner_bytes = hex::decode(&identity.mrsigner).ok()?;
                output.push_str("                        mrsigner: array![\n");
                for (i, chunk) in mrsigner_bytes.chunks(12).enumerate() {
                    if i > 0 {
                        output.push_str(",\n");
                    }
                    output.push_str("                            ");
                    for (j, byte) in chunk.iter().enumerate() {
                        if j > 0 {
                            output.push_str(", ");
                        }
                        output.push_str(&format!("0x{:02x}", byte));
                    }
                }
                output.push_str(
                    ",\n                        ]\n                            .span(),\n",
                );

                let attributes_bytes = hex::decode(&identity.attributes).ok()?;
                output.push_str("                        attributes: array![");
                for (i, byte) in attributes_bytes.iter().enumerate() {
                    if i > 0 {
                        output.push_str(", ");
                    }
                    output.push_str(&format!("0x{:02x}", byte));
                }
                output.push_str("].span(),\n");

                let attributes_mask_bytes = hex::decode(&identity.attributes_mask).ok()?;
                output.push_str("                        attributes_mask: array![");
                for (i, byte) in attributes_mask_bytes.iter().enumerate() {
                    if i > 0 {
                        output.push_str(", ");
                    }
                    let is_uppercase = identity
                        .attributes_mask
                        .chars()
                        .any(|c| c.is_ascii_uppercase());
                    if is_uppercase {
                        output.push_str(&format!("0x{:02X}", byte));
                    } else {
                        output.push_str(&format!("0x{:02x}", byte));
                    }
                }
                output.push_str("]\n                            .span(),\n");

                output.push_str("                        tcb_levels: array![\n");
                for tcb_level in &identity.tcb_levels {
                    output.push_str(
                        "                            TdxModuleIdentitiesTcbLevelItem {\n",
                    );
                    output.push_str(&format!("                                tcb: TdxModuleIdentitiesTcbLevel {{ isvsvn: {} }},\n", tcb_level.tcb.isvsvn));

                    let date = expected_datetime(&tcb_level.tcb_date)?;
                    let var_name =
                        format!("tcb_date_{}_{:02}_{:02}", date.year, date.month, date.day);
                    output.push_str(&format!(
                        "                                tcb_date: {},\n",
                        var_name
                    ));

                    output.push_str(&format!(
                        "                                tcb_status: \"{}\",\n",
                        tcb_level.tcb_status
                    ));

                    if let Some(advisory_ids) = &tcb_level.advisory_ids {
                        output.push_str(
                            "                                advisory_ids: Option::Some(array![",
                        );
                        for (i, id) in advisory_ids.iter().enumerate() {
                            if i > 0 {
                                output.push_str(", ");
                            }
                            output.push_str(&format!("\"{}\"", id));
                        }
                        output.push_str("].span()),\n");
                    } else {
                        output.push_str(
                            "                                advisory_ids: Option::None,\n",
                        );
                    }

                    output.push_str("                            },\n");
                }
                output.push_str("                        ],\n");

                output.push_str("                    },\n");
            }

            output.push_str("                ],\n");
            output.push_str("            ),\n");
        } else {
            output.push_str("            tdx_module_identities: Option::None,\n");
        }

        output.push_str("            tcb_levels: array![\n");
        for tcb_level in &tcb_info.tcb_info.tcb_levels {
            output.push_str("                TcbInfoV3TcbLevelItem {\n");
            output.push_str("                    tcb: TcbInfoV3TcbLevel {\n");

            output.push_str("                        sgxtcbcomponents: array![\n");
            for component in &tcb_level.tcb.sgxtcbcomponents {
                output.push_str("                            TcbComponent {\n");
                output.push_str(&format!(
                    "                                svn: {},\n",
                    component.svn
                ));

                if let Some(category) = &component.category {
                    output.push_str(&format!(
                        "                                category: Option::Some(\"{}\"),\n",
                        category
                    ));
                } else {
                    output.push_str("                                category: Option::None,\n");
                }

                if let Some(type_) = &component.type_ {
                    output.push_str(&format!(
                        "                                type_: Option::Some(\"{}\"),\n",
                        type_
                    ));
                } else {
                    output.push_str("                                type_: Option::None,\n");
                }

                output.push_str("                            },\n");
            }
            output.push_str("                        ],\n");

            output.push_str(&format!(
                "                        pcesvn: {},\n",
                tcb_level.tcb.pcesvn
            ));

            output.push_str("                        tdxtcbcomponents: Option::Some(\n");
            output.push_str("                            array![\n");
            for component in &tcb_level.tcb.tdxtcbcomponents {
                output.push_str("                                TcbComponent {\n");
                output.push_str(&format!(
                    "                                    svn: {},\n",
                    component.svn
                ));

                if let Some(category) = &component.category {
                    output.push_str(&format!(
                        "                                    category: Option::Some(\"{}\"),\n",
                        category
                    ));
                } else {
                    output
                        .push_str("                                    category: Option::None,\n");
                }

                if let Some(type_) = &component.type_ {
                    output.push_str(&format!(
                        "                                    type_: Option::Some(\"{}\"),\n",
                        type_
                    ));
                } else {
                    output.push_str("                                    type_: Option::None,\n");
                }

                output.push_str("                                },\n");
            }
            output.push_str("                            ],\n");
            output.push_str("                        ),\n");

            output.push_str("                    },\n");

            let date = expected_datetime(&tcb_level.tcb_date)?;
            let var_name = format!("tcb_date_{}_{:02}_{:02}", date.year, date.month, date.day);
            output.push_str(&format!("                    tcb_date: {},\n", var_name));

            output.push_str(&format!(
                "                    tcb_status: \"{}\",\n",
                tcb_level.tcb_status
            ));

            if let Some(advisory_ids) = &tcb_level.advisory_ids {
                output.push_str("                    advisory_ids: Option::Some(array![");
                for (i, id) in advisory_ids.iter().enumerate() {
                    if i > 0 {
                        output.push_str(", ");
                    }
                    output.push_str(&format!("\"{}\"", id));
                }
                output.push_str("].span()),\n");
            } else {
                output.push_str("                    advisory_ids: Option::None,\n");
            }

            output.push_str("                },\n");
        }
        output.push_str("            ],\n");

        output.push_str("        },\n");

        let signature_bytes = hex::decode(&tcb_info.signature).ok()?;
        output.push_str("        signature: array![");
        for (i, chunk) in signature_bytes.chunks(16).enumerate() {
            if i > 0 {
                output.push(',');
            }
            output.push_str("\n            ");
            for (j, byte) in chunk.iter().enumerate() {
                if j > 0 {
                    output.push_str(", ");
                }
                output.push_str(&format!("0x{:02x}", byte));
            }
        }
        output.push_str(",\n        ].span(),\n");

        output.push_str("    }\n");
        output.push_str("}\n");
        Some(output)
}

fn expected_qe_identity(qe_identity: &QeIdentity) -> Option<String> {
        let mut output = String::new();

        output.push_str("use time::{DateTrait, Month, OffsetDateTimeTrait, TimeTrait};\n");
        output.push_str("use crate::types::enclave_identity::{\n");
        output.push_str(
            "    EnclaveIdentityV2, EnclaveIdentityV2Inner, EnclaveIdentityV2TcbLevel,\n",
        );
        output.push_str("    EnclaveIdentityV2TcbLevelItem,\n");
        output.push_str("};\n\n");

        output.push_str("pub fn data() -> EnclaveIdentityV2 {\n");

        let issue_date = expected_datetime(&qe_identity.enclave_identity.issue_date)?;
        output.push_str(&format!("    // {}",
            qe_identity.enclave_identity.issue_date));
        output.push('\n');
        output.push_str("    let issue_date = OffsetDateTimeTrait::new_utc(\n");
        output.push_str(&format!("        DateTrait::from_calendar_date({}, Month::{}, {}).unwrap(),",
            issue_date.year,
            expected_month(issue_date.month),
            issue_date.day));
        output.push('\n');
        output.push_str(&format!("        TimeTrait::from_hms_milli({}, {}, {}, {}).unwrap(),",
            issue_date.hour, issue_date.minute, issue_date.second, issue_date.millisecond));
        output.push('\n');
        output.push_str("    );\n\n");

        let next_update = expected_datetime(&qe_identity.enclave_identity.next_update)?;
        output.push_str(&format!("    // {}",
            qe_identity.enclave_identity.next_update));
        output.push('\n');
        output.push_str("    let next_update = OffsetDateTimeTrait::new_utc(\n");
        output.push_str(&format!("        DateTrait::from_calendar_date({}, Month::{}, {}).unwrap(),",
            next_update.year,
            expected_month(next_update.month),
            next_update.day));
        output.push('\n');
        output.push_str(&format!("        TimeTrait::from_hms_milli({}, {}, {}, {}).unwrap(),",
            next_update.hour, next_update.minute, next_update.second, next_update.millisecond));
        output.push('\n');
        output.push_str("    );\n\n");

        if !qe_identity.enclave_identity.tcb_levels.is_empty() {
            let tcb_date = expected_datetime(&qe_identity.enclave_identity.tcb_levels[0].tcb_date)?;
            output.push_str(&format!("    // {}",
                qe_identity.enclave_identity.tcb_levels[0].tcb_date));
        output.push('\n');
            output.push_str("    let tcb_date = OffsetDateTimeTrait::new_utc(\n");
            output.push_str(&format!("        DateTrait::from_calendar_date({}, Month::{}, {}).unwrap(),",
                tcb_date.year,
                expected_month(tcb_date.month),
                tcb_date.day));
        output.push('\n');
            output.push_str(&format!("        TimeTrait::from_hms_milli({}, {}, {}, {}).unwrap(),",
                tcb_date.hour, tcb_date.minute, tcb_date.second, tcb_date.millisecond));
        output.push('\n');
            output.push_str("    );\n\n");
        }

        output.push_str("    EnclaveIdentityV2 {\n");
        output.push_str("        enclave_identity: EnclaveIdentityV2Inner {\n");
        output.push_str(&format!("            id: \"{}\",",
            qe_identity.enclave_identity.id));
        output.push('\n');
        output.push_str(&format!("            version: {},",
            qe_identity.enclave_identity.version));
        output.push('\n');
        output.push_str("            issue_date,\n");
        output.push_str("            next_update,\n");
        output.push_str(&format!("            tcb_evaluation_data_number: {},",
            qe_identity.enclave_identity.tcb_evaluation_data_number));
        output.push('\n');

        let miscselect_bytes = hex::decode(&qe_identity.enclave_identity.miscselect).ok()?;
        output.push_str("            miscselect: array![");
        output.push_str(&expected_inline(&miscselect_bytes));
        output.push_str("].span(),\n");

        let miscselect_mask_bytes = hex::decode(&qe_identity.enclave_identity.miscselect_mask).ok()?;
        output.push_str("            miscselect_mask: array![");
        output.push_str(&expected_from_hex(
            &qe_identity.enclave_identity.miscselect_mask,
            &miscselect_mask_bytes,
            false,
        ));
        output.push_str("].span(),\n");

        let attributes_bytes = hex::decode(&qe_identity.enclave_identity.attributes).ok()?;
        output.push_str("            attributes: array![");
        output.push_str(&expected_lines(
            &attributes_bytes,
            16,
            "                ",
        ));
        output.push_str("].span(),\n");

        let attributes_mask_bytes = hex::decode(&qe_identity.enclave_identity.attributes_mask).ok()?;
        output.push_str("            attributes_mask: array![");
        output.push_str(&expected_from_hex_multiline(
            &qe_identity.enclave_identity.attributes_mask,
            &attributes_mask_bytes,
            16,
            "                ",
        ));
        output.push_str("].span(),\n");

        let mrsigner_bytes = hex::decode(&qe_identity.enclave_identity.mrsigner).ok()?;
        output.push_str("            mrsigner: array![");
        output.push_str(&expected_from_hex_multiline(
            &qe_identity.enclave_identity.mrsigner,
            &mrsigner_bytes,
            16,
            "                ",
        ));
        output.push_str("].span(),\n");

        output.push_str(&format!("            isvprodid: {},",
            qe_identity.enclave_identity.isvprodid));
        output.push('\n');

        output.push_str("            tcb_levels: array![\n");
        for tcb_level in &qe_identity.enclave_identity.tcb_levels {
            output.push_str("                EnclaveIdentityV2TcbLevelItem {\n");
            output.push_str(&format!("                    tcb: EnclaveIdentityV2TcbLevel {{ isvsvn: {} }},",
                tcb_level.tcb.isvsvn));
        output.push('\n');
            output.push_str("                    tcb_date,\n");
            output.push_str(&format!("                    tcb_status: \"{}\",",
                tcb_level.tcb_status));
        output.push('\n');

            if let Some(advisory_ids) = &tcb_level.advisory_ids {
                output.push_str("                    advisory_ids: Option::Some(array![");
                for (i, id) in advisory_ids.iter().enumerate() {
                    if i > 0 {
                        output.push_str(", ");
                    }
                    output.push_str(&format!("\"{}\"", id));
                }
                output.push_str("].span()),\n");
            } else {
                output.push_str("                    advisory_ids: Option::None,\n");
            }
            output.push_str("                },\n");
        }
        output.push_str("            ].span(),\n");

        output.push_str("        },\n");

        let signature_bytes = hex::decode(&qe_identity.signature).ok()?;
        output.push_str("        signature: array![");
        output.push_str(&expected_from_hex_multiline(
            &qe_identity.signature,
            &signature_bytes,
            16,
            "            ",
        ));
        output.push_str("].span(),\n");

        output.push_str("    }\n");
        output.push_str("}\n");
        Some(output)
}

fn text(s: &str) -> String {
    s.to_string()
}

fn texts(items: &[&str]) -> Option<Vec<String>> {
    Some(items.iter().map(|s| s.to_string()).collect())
}

fn component(svn: u8, category: Option<&str>, type_: Option<&str>) -> TcbComponent {
    TcbComponent { svn, category: category.map(text), type_: type_.map(text) }
}

fn platform_level(date: &str, status: &str, pcesvn: u16, ids: Option<Vec<String>>) -> PlatformTcbLevel {
    PlatformTcbLevel {
        tcb: PlatformTcb {
            sgxtcbcomponents: vec![
                component(2, Some("BIOS"), Some("Early Microcode Update")),
                component(255, Some("OS/VMM"), None),
                component(0, None, None),
            ],
            pcesvn,
            tdxtcbcomponents: vec![
                component(5, Some("OS/VMM"), Some("TDX Module")),
                component(0, None, Some("only a type")),
            ],
        },
        tcb_date: text(date),
        tcb_status: text(status),
        advisory_ids: ids,
    }
}

fn module_level(isvsvn: u8, date: &str, status: &str, ids: Option<Vec<String>>) -> ModuleTcbLevel {
    ModuleTcbLevel {
        tcb: ModuleTcb { isvsvn },
        tcb_date: text(date),
        tcb_status: text(status),
        advisory_ids: ids,
    }
}

fn sample_tcb_info() -> TcbInfo {
    TcbInfo {
        tcb_info: TcbInfoBody {
            id: text("TDX"),
            version: 3,
            issue_date: text("2025-02-13T03:39:00Z"),
            next_update: text("2025-03-15T03:39:00Z"),
            fmspc: text("90c06f000000"),
            pce_id: text("0000"),
            tcb_type: 0,
            tcb_evaluation_data_number: 17,
            tdx_module: Some(TdxModule {
                mrsigner: text(
                    "000000000000000000000000000000000000000000000000000000000000000000000000000000000000000000000000",
                ),
                attributes: text("0000000000000000"),
                attributes_mask: text("FFFFFFFFFFFFFFFF"),
            }),
            tdx_module_identities: Some(vec![
                TdxModuleIdentity {
                    id: text("TDX_03"),
                    mrsigner: text(
                        "0102030405060708090a0b0c0d0e0f101112131415161718191a1b1c1d1e1f202122232425262728292a2b2c2d2e2f30",
                    ),
                    attributes: text("0000000000000000"),
                    attributes_mask: text("ffffffffffffffff"),
                    tcb_levels: vec![module_level(
                        3,
                        "2024-03-13T00:00:00Z",
                        "UpToDate",
                        None,
                    )],
                },
                TdxModuleIdentity {
                    id: text("TDX_01"),
                    mrsigner: text("aabbccddeeff00112233445566"),
                    attributes: text(""),
                    attributes_mask: text("00fF"),
                    tcb_levels: vec![
                        module_level(4, "2024-03-13T00:00:00Z", "UpToDate", texts(&[])),
                        module_level(
                            2,
                            "2023-08-09T00:00:00Z",
                            "OutOfDate",
                            texts(&["INTEL-SA-01036", "INTEL-SA-01079"]),
                        ),
                    ],
                },
            ]),
            tcb_levels: vec![
                platform_level("2024-03-13T00:00:00Z", "UpToDate", 11, None),
                platform_level(
                    "2023-08-09T00:00:00Z",
                    "OutOfDate",
                    11,
                    texts(&["INTEL-SA-00837"]),
                ),
                platform_level("2018-01-04T00:00:00Z", "Revoked", 5, texts(&["A", "B", "C"])),
                platform_level("2023-08-09T00:00:00", "OutOfDate", 65535, None),
            ],
        },
        signature: text(
            "19e5ab5e3f4e4b3e3f7a8f7e9d1c0b5a19e5ab5e3f4e4b3e3f7a8f7e9d1c0b5a19e5ab5e3f4e4b3e3f7a8f7e9d1c0b5a19e5ab5e3f4e4b3e3f7a8f7e9d1c0b5a",
        ),
    }
}

fn minimal_tcb_info() -> TcbInfo {
    TcbInfo {
        tcb_info: TcbInfoBody {
            id: text(""),
            version: 0,
            issue_date: text("1-1-1T0:0:0"),
            next_update: text("9999-12-31T23:59:59ZZ"),
            fmspc: text(""),
            pce_id: text(""),
            tcb_type: 255,
            tcb_evaluation_data_number: u32::MAX,
            tdx_module: None,
            tdx_module_identities: None,
            tcb_levels: vec![],
        },
        signature: text(""),
    }
}

fn qe_level(isvsvn: u16, date: &str, status: &str, ids: Option<Vec<String>>) -> TcbLevel {
    TcbLevel { tcb: Tcb { isvsvn }, tcb_date: text(date), tcb_status: text(status), advisory_ids: ids }
}

fn sample_qe_identity() -> QeIdentity {
    QeIdentity {
        enclave_identity: EnclaveIdentity {
            id: text("TD_QE"),
            version: 2,
            issue_date: text("2025-02-13T03:39:00Z"),
            next_update: text("2025-03-15T03:39:00Z"),
            tcb_evaluation_data_number: 17,
            miscselect: text("00000000"),
            miscselect_mask: text("FFFFFFFF"),
            attributes: text("11000000000000000000000000000000"),
            attributes_mask: text("FBFFFFFFFFFFFFFF0000000000000000"),
            mrsigner: text("DC9E2A7C6F948F17474E34A7FC43ED030F7C1563F1BABDDF6340C82E0E54A8C5"),
            isvprodid: 2,
            tcb_levels: vec![
                qe_level(4, "2024-03-13T00:00:00Z", "UpToDate", None),
                qe_level(
                    3,
                    "2023-08-09T00:00:00Z",
                    "OutOfDate",
                    texts(&["INTEL-SA-00615", "INTEL-SA-00828"]),
                ),
                qe_level(0, "not read", "Revoked", texts(&[])),
            ],
        },
        signature: text(
            "4fd1351b2c0e7f1a9c3b4d5e6f708192a3b4c5d6e7f8091a2b3c4d5e6f7081924fd1351b2c0e7f1a9c3b4d5e6f708192a3b4c5d6e7f8091a2b3c4d5e6f708192",
        ),
    }
}

fn minimal_qe_identity() -> QeIdentity {
    QeIdentity {
        enclave_identity: EnclaveIdentity {
            id: text(""),
            version: 0,
            issue_date: text("1-1-1T0:0:0"),
            next_update: text("2-2-2T0:0:0"),
            tcb_evaluation_data_number: 0,
            miscselect: text(""),
            miscselect_mask: text(""),
            attributes: text(""),
            attributes_mask: text(""),
            mrsigner: text(""),
            isvprodid: 0,
            tcb_levels: vec![],
        },
        signature: text(""),
    }
}

fn chars(s: &str) -> Vec<char> {
    s.chars().collect()
}

#[test]
fn tcb_info_sample_matches_expected_text() {
    let doc = sample_tcb_info();
    let rendered = render_tcb_info(&doc).unwrap();
    assert_eq!(Some(rendered.clone()), expected_tcb_info(&doc));
    assert!(rendered.starts_with("use time::{DateTrait, Month, OffsetDateTimeTrait, TimeTrait};\n"));
    assert!(rendered.ends_with("        ].span(),\n    }\n}\n"));
}

#[test]
fn tcb_info_binds_each_date_once_latest_first() {
    let rendered = render_tcb_info(&sample_tcb_info()).unwrap();
    let bound: Vec<&str> =
        rendered.lines().filter(|l| l.starts_with("    let tcb_date_")).collect();
    assert_eq!(
        bound,
        vec![
            "    let tcb_date_2024_03_13 = OffsetDateTimeTrait::new_utc(",
            "    let tcb_date_2023_08_09 = OffsetDateTimeTrait::new_utc(",
            "    let tcb_date_2023_08_09 = OffsetDateTimeTrait::new_utc(",
            "    let tcb_date_2018_01_04 = OffsetDateTimeTrait::new_utc(",
        ]
    );
    let comments: Vec<&str> = rendered.lines().filter(|l| l.starts_with("    // ")).collect();
    assert_eq!(
        comments,
        vec![
            "    // 2025-02-13T03:39:00Z",
            "    // 2025-03-15T03:39:00Z",
            "    // 2024-03-13T00:00:00Z",
            "    // 2023-08-09T00:00:00Z",
            "    // 2023-08-09T00:00:00",
            "    // 2018-01-04T00:00:00Z",
        ]
    );
}

#[test]
fn tcb_info_date_binding_text() {
    let rendered = render_tcb_info(&sample_tcb_info()).unwrap();
    assert!(rendered.contains(
        "    // 2018-01-04T00:00:00Z\n    let tcb_date_2018_01_04 = OffsetDateTimeTrait::new_utc(\n        DateTrait::from_calendar_date(2018, Month::January, 4).unwrap(),\n        TimeTrait::from_hms_milli(0, 0, 0, 0).unwrap(),\n    );\n\n"
    ));
    assert!(rendered.contains("                    tcb_date: tcb_date_2018_01_04,\n"));
    assert!(rendered.contains("            fmspc: [0x90, 0xc0, 0x6f, 0x00, 0x00, 0x00].span(),\n"));
    assert!(rendered.contains(
        "                    attributes_mask: array![0xFF, 0xFF, 0xFF, 0xFF, 0xFF, 0xFF, 0xFF, 0xFF].span(),\n"
    ));
}

#[test]
fn tcb_info_minimal_matches_expected_text() {
    let doc = minimal_tcb_info();
    let rendered = render_tcb_info(&doc).unwrap();
    assert_eq!(Some(rendered.clone()), expected_tcb_info(&doc));
    assert!(rendered.contains("            tdx_module: Option::None,\n"));
    assert!(rendered.contains("            tdx_module_identities: Option::None,\n"));
    assert!(rendered.contains("            tcb_levels: array![\n            ],\n"));
    assert!(rendered.contains("        signature: array![,\n        ].span(),\n"));
}

#[test]
fn tcb_info_with_empty_lists_matches_expected_text() {
    let mut doc = minimal_tcb_info();
    doc.tcb_info.tdx_module_identities = Some(vec![]);
    doc.tcb_info.tdx_module = Some(TdxModule {
        mrsigner: text(""),
        attributes: text("0a"),
        attributes_mask: text("0A"),
    });
    let mut level = platform_level("2020-10-20T01:02:03Z", "x", 0, texts(&[]));
    level.tcb.sgxtcbcomponents.clear();
    level.tcb.tdxtcbcomponents.clear();
    doc.tcb_info.tcb_levels.push(level);
    let rendered = render_tcb_info(&doc).unwrap();
    assert_eq!(Some(rendered.clone()), expected_tcb_info(&doc));
    assert!(rendered.contains("                    mrsigner: array![\n,\n                    ]\n"));
}

#[test]
fn tcb_info_matches_expected_text_for_varied_documents() {
    for variant in 0..6 {
        let mut doc = sample_tcb_info();
        match variant {
            0 => doc.tcb_info.tdx_module = None,
            1 => doc.tcb_info.tdx_module_identities = None,
            2 => doc.tcb_info.tcb_levels.clear(),
            3 => doc.signature = text("AbCd"),
            4 => doc.tcb_info.id = text("quotes \" and \\ stay as they are"),
            _ => doc.tcb_info.tcb_levels[0].tcb_date = text("+2024-3-7T1:2:3"),
        }
        let rendered = render_tcb_info(&doc).unwrap();
        assert_eq!(Some(rendered), expected_tcb_info(&doc), "variant {}", variant);
    }
}

#[test]
fn tcb_info_reports_first_unreadable_field() {
    let mut doc = sample_tcb_info();
    doc.signature = text("abc");
    assert_eq!(render_tcb_info(&doc), Err(RenderError::Hex(HexError::OddLength)));
    assert_eq!(expected_tcb_info(&doc), None);
    doc.tcb_info.tdx_module_identities.as_mut().unwrap()[1].attributes = text("zz");
    assert_eq!(
        render_tcb_info(&doc),
        Err(RenderError::Hex(HexError::InvalidHexCharacter { c: 'z', index: 0 }))
    );
    doc.tcb_info.pce_id = text("0");
    assert_eq!(render_tcb_info(&doc), Err(RenderError::Hex(HexError::OddLength)));
    doc.tcb_info.fmspc = text("0x");
    assert_eq!(
        render_tcb_info(&doc),
        Err(RenderError::Hex(HexError::InvalidHexCharacter { c: 'x', index: 1 }))
    );
    doc.tcb_info.tcb_levels[2].tcb_date = text("2018-01-04");
    assert_eq!(
        render_tcb_info(&doc),
        Err(RenderError::DateTime(DateTimeError::InvalidDateTimeFormat))
    );
    doc.tcb_info.tcb_levels[0].tcb_date = text("2024-03T00:00:00Z");
    assert_eq!(
        render_tcb_info(&doc),
        Err(RenderError::DateTime(DateTimeError::InvalidDateFormat))
    );
    doc.tcb_info.next_update = text("2025-03-15T03:39Z");
    assert_eq!(
        render_tcb_info(&doc),
        Err(RenderError::DateTime(DateTimeError::InvalidTimeFormat))
    );
    doc.tcb_info.issue_date = text("2025-02-13T03:39:0xZ");
    assert_eq!(render_tcb_info(&doc), Err(RenderError::DateTime(DateTimeError::InvalidNumber)));
    assert_eq!(expected_tcb_info(&doc), None);
}

#[test]
fn tcb_info_reports_months_without_a_name() {
    let mut doc = sample_tcb_info();
    doc.tcb_info.tcb_levels[1].tcb_date = text("2023-00-09T00:00:00Z");
    assert_eq!(render_tcb_info(&doc), Err(RenderError::InvalidMonth(0)));
    doc.tcb_info.next_update = text("2025-13-15T03:39:00Z");
    assert_eq!(render_tcb_info(&doc), Err(RenderError::InvalidMonth(13)));
    doc.tcb_info.issue_date = text("2025-255-15T03:39:00Z");
    assert_eq!(render_tcb_info(&doc), Err(RenderError::InvalidMonth(255)));
}

#[test]
fn tcb_info_dates_are_collected_in_document_order() {
    let dates = collect_dates(&sample_tcb_info());
    let expected: Vec<Vec<char>> = [
        "2024-03-13T00:00:00Z",
        "2023-08-09T00:00:00Z",
        "2018-01-04T00:00:00Z",
        "2023-08-09T00:00:00",
        "2024-03-13T00:00:00Z",
        "2024-03-13T00:00:00Z",
        "2023-08-09T00:00:00Z",
    ]
    .iter()
    .map(|s| chars(s))
    .collect();
    assert_eq!(dates, expected);
    assert!(collect_dates(&minimal_tcb_info()).is_empty());
}

#[test]
fn qe_identity_sample_matches_expected_text() {
    let doc = sample_qe_identity();
    let rendered = render_qe_identity(&doc).unwrap();
    assert_eq!(Some(rendered.clone()), expected_qe_identity(&doc));
    assert!(rendered.contains("            miscselect: array![0x00, 0x00, 0x00, 0x00].span(),\n"));
    assert!(rendered.contains("            miscselect_mask: array![0xFF, 0xFF, 0xFF, 0xFF].span(),\n"));
    assert!(rendered.contains(
        "            attributes: array![\n                0x11, 0x00, 0x00, 0x00, 0x00, 0x00, 0x00, 0x00, 0x00, 0x00, 0x00, 0x00, 0x00, 0x00, 0x00, 0x00,\n            ].span(),\n"
    ));
    assert!(rendered.contains("    // 2024-03-13T00:00:00Z\n    let tcb_date = "));
    assert!(rendered.contains(
        "                    advisory_ids: Option::Some(array![\"INTEL-SA-00615\", \"INTEL-SA-00828\"].span()),\n"
    ));
    assert!(rendered.contains("                    advisory_ids: Option::Some(array![].span()),\n"));
    assert!(rendered.contains("                    advisory_ids: Option::None,\n"));
}

#[test]
fn qe_identity_minimal_matches_expected_text() {
    let doc = minimal_qe_identity();
    let rendered = render_qe_identity(&doc).unwrap();
    assert_eq!(Some(rendered.clone()), expected_qe_identity(&doc));
    assert!(!rendered.contains("let tcb_date"));
    assert!(rendered.contains("            miscselect: array![].span(),\n"));
    assert!(rendered.contains("        signature: array![,\n        ].span(),\n"));
}

#[test]
fn qe_identity_matches_expected_text_for_varied_documents() {
    for variant in 0..5 {
        let mut doc = sample_qe_identity();
        match variant {
            0 => doc.enclave_identity.mrsigner = text("dc9e2a7c6f948f17474e34a7fc43ed030f"),
            1 => doc.enclave_identity.attributes_mask = text("fbff"),
            2 => doc.enclave_identity.miscselect_mask = text("ffffffff"),
            3 => doc.signature = text("00"),
            _ => doc.enclave_identity.tcb_levels.truncate(1),
        }
        let rendered = render_qe_identity(&doc).unwrap();
        assert_eq!(Some(rendered), expected_qe_identity(&doc), "variant {}", variant);
    }
}

#[test]
fn qe_identity_reads_only_the_first_level_date() {
    let mut doc = sample_qe_identity();
    doc.enclave_identity.tcb_levels[1].tcb_date = text("");
    assert!(render_qe_identity(&doc).is_ok());
    doc.enclave_identity.tcb_levels[0].tcb_date = text("");
    assert_eq!(
        render_qe_identity(&doc),
        Err(RenderError::DateTime(DateTimeError::InvalidDateTimeFormat))
    );
}

#[test]
fn qe_identity_reports_first_unreadable_field() {
    let mut doc = sample_qe_identity();
    doc.signature = text("0");
    assert_eq!(render_qe_identity(&doc), Err(RenderError::Hex(HexError::OddLength)));
    assert_eq!(expected_qe_identity(&doc), None);
    doc.enclave_identity.mrsigner = text("0q");
    assert_eq!(
        render_qe_identity(&doc),
        Err(RenderError::Hex(HexError::InvalidHexCharacter { c: 'q', index: 1 }))
    );
    doc.enclave_identity.attributes_mask = text("-1");
    assert_eq!(
        render_qe_identity(&doc),
        Err(RenderError::Hex(HexError::InvalidHexCharacter { c: '-', index: 0 }))
    );
    doc.enclave_identity.attributes = text("123");
    assert_eq!(render_qe_identity(&doc), Err(RenderError::Hex(HexError::OddLength)));
    doc.enclave_identity.miscselect_mask = text("0g");
    assert_eq!(
        render_qe_identity(&doc),
        Err(RenderError::Hex(HexError::InvalidHexCharacter { c: 'g', index: 1 }))
    );
    doc.enclave_identity.miscselect = text("h0");
    assert_eq!(
        render_qe_identity(&doc),
        Err(RenderError::Hex(HexError::InvalidHexCharacter { c: 'h', index: 0 }))
    );
    doc.enclave_identity.tcb_levels[0].tcb_date = text("2024-14-13T00:00:00Z");
    assert_eq!(render_qe_identity(&doc), Err(RenderError::InvalidMonth(14)));
    doc.enclave_identity.next_update = text("2025-03-15");
    assert_eq!(
        render_qe_identity(&doc),
        Err(RenderError::DateTime(DateTimeError::InvalidDateTimeFormat))
    );
    doc.enclave_identity.issue_date = text("2025-02-13T03:39:00:00Z");
    assert_eq!(
        render_qe_identity(&doc),
        Err(RenderError::DateTime(DateTimeError::InvalidTimeFormat))
    );
}

#[test]
fn texts_are_ordered_by_code_point() {
    assert_eq!(order_of(&chars("abc"), &chars("abd")), TextOrder::Before);
    assert_eq!(order_of(&chars("abd"), &chars("abc")), TextOrder::After);
    assert_eq!(order_of(&chars("abc"), &chars("abc")), TextOrder::Same);
    assert_eq!(order_of(&chars("ab"), &chars("abc")), TextOrder::Before);
    assert_eq!(order_of(&chars("abc"), &chars("ab")), TextOrder::After);
    assert_eq!(order_of(&chars(""), &chars("")), TextOrder::Same);
    assert_eq!(order_of(&chars(""), &chars("a")), TextOrder::Before);
    assert_eq!(order_of(&chars("Z"), &chars("a")), TextOrder::Before);
    assert_eq!(order_of(&chars("z"), &chars("é")), TextOrder::Before);
    assert_eq!(order_of(&chars("\u{ffff}"), &chars("\u{10000}")), TextOrder::Before);
}

#[test]
fn text_order_agrees_with_string_order() {
    let samples = ["", "a", "ab", "b", "Z", "é", "e\u{301}", "\u{ffff}", "\u{10000}", "😀", "2024", "2023Z"];
    for a in samples {
        for b in samples {
            let expected = if a < b {
                TextOrder::Before
            } else if a == b {
                TextOrder::Same
            } else {
                TextOrder::After
            };
            assert_eq!(order_of(&chars(a), &chars(b)), expected, "{:?} {:?}", a, b);
        }
    }
}

#[test]
fn descending_texts_sorts_and_drops_repeats() {
    let items: Vec<Vec<char>> =
        ["b", "a", "c", "b", "", "abc", "c", "é", "a"].iter().map(|s| chars(s)).collect();
    let expected: Vec<Vec<char>> = ["é", "c", "b", "abc", "a", ""].iter().map(|s| chars(s)).collect();
    assert_eq!(descending_texts(&items), expected);
    assert_eq!(descending_texts(&[]), Vec::<Vec<char>>::new());
}

#[test]
fn descending_texts_agree_with_sort_and_dedup() {
    let words = ["2024-03-13", "2023-08-09", "2024-03-13T", "1", "10", "2", "", "2024-03-13"];
    let items: Vec<Vec<char>> = words.iter().map(|s| chars(s)).collect();
    let mut expected: Vec<String> = words.iter().map(|s| s.to_string()).collect();
    expected.sort();
    expected.dedup();
    expected.reverse();
    let expected: Vec<Vec<char>> = expected.iter().map(|s| chars(s)).collect();
    assert_eq!(descending_texts(&items), expected);
}

#[test]
fn insert_text_keeps_order() {
    let mut order: Vec<Vec<char>> = vec![chars("m")];
    insert_text(&mut order, chars("z"));
    insert_text(&mut order, chars("a"));
    insert_text(&mut order, chars("m"));
    insert_text(&mut order, chars("n"));
    assert_eq!(order, vec![chars("z"), chars("n"), chars("m"), chars("a")]);
}

#[test]
fn date_variables_have_two_digit_months_and_days() {
    let date = read_named_datetime("2025-2-3T4:5:6Z").unwrap();
    assert_eq!(date_variable(&date), "tcb_date_2025_02_03");
    let date = read_named_datetime("5-12-255T4:5:6Z").unwrap();
    assert_eq!(date_variable(&date), "tcb_date_5_12_255");
    assert_eq!(date_reference("2024-03-13T00:00:00Z"), Ok(text("tcb_date_2024_03_13")));
    assert_eq!(date_reference("2024-13-13T00:00:00Z"), Ok(text("tcb_date_2024_13_13")));
    assert_eq!(
        date_reference("2024"),
        Err(RenderError::DateTime(DateTimeError::InvalidDateTimeFormat))
    );
}

#[test]
fn date_bindings() {
    let expected = "    // 2025-02-13T03:39:00Z\n    let issue_date = OffsetDateTimeTrait::new_utc(\n        DateTrait::from_calendar_date(2025, Month::February, 13).unwrap(),\n        TimeTrait::from_hms_milli(3, 39, 0, 0).unwrap(),\n    );\n\n";
    assert_eq!(named_binding("2025-02-13T03:39:00Z", "issue_date"), Ok(text(expected)));
    let date = read_named_datetime("2025-02-13T03:39:00Z").unwrap();
    assert_eq!(date_binding("2025-02-13T03:39:00Z", "issue_date", &date), expected);
    assert_eq!(
        dated_binding(&chars("2025-02-13T03:39:00Z")),
        Ok(expected.replace("issue_date", "tcb_date_2025_02_13"))
    );
    assert_eq!(named_binding("2025-00-13T03:39:00Z", "x"), Err(RenderError::InvalidMonth(0)));
    assert_eq!(dated_binding(&chars("2025-13-13T03:39:00Z")), Err(RenderError::InvalidMonth(13)));
    assert_eq!(
        dated_binding(&chars("")),
        Err(RenderError::DateTime(DateTimeError::InvalidDateTimeFormat))
    );
    assert_eq!(read_named_datetime("1-13-1T1:1:1"), Err(RenderError::InvalidMonth(13)));
}

#[test]
fn quoted_lists_and_optional_values() {
    assert_eq!(quoted_list(&[]), "");
    assert_eq!(quoted_list(&[text("a")]), "\"a\"");
    assert_eq!(quoted_list(&[text("a"), text(""), text("b c")]), "\"a\", \"\", \"b c\"");
    assert_eq!(advisory_ids_value(&None), "Option::None,\n");
    assert_eq!(advisory_ids_value(&texts(&[])), "Option::Some(array![].span()),\n");
    assert_eq!(
        advisory_ids_value(&texts(&["X", "Y"])),
        "Option::Some(array![\"X\", \"Y\"].span()),\n"
    );
    assert_eq!(optional_value(&None), "Option::None,\n");
    assert_eq!(optional_value(&Some(text("BIOS"))), "Option::Some(\"BIOS\"),\n");
}

#[test]
fn hex_fields_between_brackets() {
    assert_eq!(hex_inline("[", "0aFF", false, "]"), Ok(text("[0x0a, 0xff]")));
    assert_eq!(hex_inline("[", "0aFF", true, "]"), Ok(text("[0x0A, 0xFF]")));
    assert_eq!(hex_inline("[", "", true, "]"), Ok(text("[]")));
    assert_eq!(hex_inline("[", "0", true, "]"), Err(RenderError::Hex(HexError::OddLength)));
    assert_eq!(
        hex_rows("[\n", "000102", 2, "  ", "", ",\n]"),
        Ok(text("[\n  0x00, 0x01,\n  0x02,\n]"))
    );
    assert_eq!(hex_rows("[", "000102", 2, " ", "\n", "]"), Ok(text("[\n 0x00, 0x01,\n 0x02]")));
    assert_eq!(hex_rows("[", "", 2, " ", "\n", "]"), Ok(text("[]")));
    assert_eq!(
        hex_rows("[", "0 ", 2, " ", "\n", "]"),
        Err(RenderError::Hex(HexError::InvalidHexCharacter { c: ' ', index: 1 }))
    );
    assert_eq!(read_hex_field("ff00"), Ok(vec![255, 0]));
}
