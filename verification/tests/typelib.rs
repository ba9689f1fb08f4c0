use excel_com_range_probe::evidence::Record;
use excel_com_range_probe::geometry::{cell_address, checked_element_count, range_address, row_column_indices};
use excel_com_range_probe::typelib::{
    audit, audited_member, calling_convention, candidate_ids, candidate_member_name,
    candidate_owner, canonical_member_id, canonical_owner, file_evidence, function_flags,
    guid_string, invkind_name, parameter_flags, stable_id, syskind_name, targeted_interface,
    typekind_name, AuditData,
};
use excel_com_range_probe::typelib_report::sort_audit_data;
use excel_com_range_probe::variant::SafeArrayDimension;

#[test]
fn candidate_scope_is_stable_and_complete() {
    assert_eq!(candidate_ids().len(), 50);
    assert_eq!(candidate_ids()[0], "Excel.Application.Visible");
    assert_eq!(candidate_ids()[49], "Excel.Range.Sort");
}

#[test]
fn candidate_ids_split_into_owner_and_member() {
    assert_eq!(candidate_owner("Excel.Worksheet.Activate#method"), "Excel.Worksheet");
    assert_eq!(candidate_member_name("Excel.Worksheet.Activate#method"), "Activate");
    assert_eq!(candidate_owner("NoDot"), "");
    assert_eq!(candidate_member_name("NoDot#method#method"), "NoDot");
    assert_eq!(
        canonical_member_id("Excel.Worksheet", "Activate"),
        Some("Excel.Worksheet.Activate#method".to_owned())
    );
    assert_eq!(canonical_member_id("Excel.Range", "Text"), None);
}

#[test]
fn audit_scope_covers_candidates_ranges_and_generic_members() {
    assert!(audited_member("Excel.Range", "Value2"));
    assert!(audited_member("Excel.Range", "Text"));
    assert!(audited_member("Excel.Workbook", "ExportAsFixedFormat"));
    assert!(audited_member("Excel.Sheets", "Count"));
    assert!(!audited_member("Excel.Sheets", "Visible"));
}

#[test]
fn names_of_type_information() {
    assert_eq!(canonical_owner("_Application"), "Excel.Application");
    assert_eq!(canonical_owner("Chart"), "Excel.Unknown");
    assert!(targeted_interface(4, "Range"));
    assert!(!targeted_interface(5, "Range"));
    assert!(!targeted_interface(3, "Workbook"));
    assert_eq!(stable_id("member", "Range#Value 2"), "Excel.TypeLib.member.Range.Value.2");
    assert_eq!(invkind_name(4), "INVOKE_PROPERTYPUT");
    assert_eq!(invkind_name(3), "INVOKE_UNKNOWN");
    assert_eq!(calling_convention(4), "CC_STDCALL");
    assert_eq!(typekind_name(6), "TKIND_ALIAS");
    assert_eq!(syskind_name(3), "SYS_WIN64");
    assert_eq!(parameter_flags(0x31), vec!["PARAMFLAG_FIN", "PARAMFLAG_FOPT", "PARAMFLAG_FHASDEFAULT"]);
    assert_eq!(function_flags(0x461), vec!["FUNCFLAG_FDEFAULTBIND", "FUNCFLAG_FHIDDEN", "FUNCFLAG_FRESTRICTED", "FUNCFLAG_FNONBROWSABLE"]);
}

#[test]
fn guids_render_in_registry_form() {
    assert_eq!(
        guid_string(0x00020813_0000_0000_c000_000000000046),
        "{00020813-0000-0000-c000-000000000046}"
    );
}

#[test]
fn file_evidence_hashes_the_bytes() {
    let evidence = file_evidence("EXCEL.EXE".to_owned(), &b"abc".to_vec());
    assert_eq!(
        evidence.sha256,
        "ba7816bf8f01cfea414140de5dae2223b00361a396177a9cb410ff61f20015ad"
    );
    assert_eq!(evidence.basename, "EXCEL.EXE");
    assert!(evidence.registration_category.ends_with("\\1.9\\0\\Win64"));
}

#[test]
fn audit_summary_counts_records() {
    let rec = |id: &str| Record::new(id.to_owned(), "--".to_owned(), "{}".to_owned());
    let data = AuditData {
        library: rec("Excel.TypeLib"),
        coclasses: vec![rec("c")],
        interfaces: vec![rec("i1"), rec("i2")],
        members: vec![rec("m1"), rec("m2"), rec("m3")],
        parameters: Vec::new(),
        enums: vec![rec("e")],
        aliases: vec![rec("a")],
        unresolved: Vec::new(),
        documentation: Vec::new(),
        source_manifest: String::new(),
    };
    let summary = audit(&data);
    assert_eq!((summary.coclasses, summary.interfaces, summary.members, summary.parameters, summary.enums), (1, 2, 3, 0, 1));
}

fn dimension(physical: u32, lower: i32, count: u32) -> SafeArrayDimension {
    SafeArrayDimension { physical_dimension: physical, lower_bound: lower, upper_bound: lower + count as i32 - 1, element_count: count }
}

#[test]
fn addresses_and_physical_indices() {
    assert_eq!(cell_address(1, 1), "A1");
    assert_eq!(cell_address(10, 26), "Z10");
    assert_eq!(cell_address(3, 27), "AA3");
    assert_eq!(cell_address(7, 702), "ZZ7");
    assert_eq!(cell_address(7, 703), "AAA7");
    assert_eq!(range_address(2, 2, 3, 2), "B2:C4");
    let dims = vec![dimension(1, 7, 2), dimension(2, -3, 3)];
    assert_eq!(checked_element_count(&dims), Some(6));
    assert_eq!(checked_element_count(&Vec::new()), Some(1));
    assert_eq!(row_column_indices(&dims, 1, 2), Some([8, -1]));
    assert_eq!(row_column_indices(&dims, 2, 0), None);
    assert_eq!(row_column_indices(&dims[..1].to_vec(), 0, 0), None);
    let huge = vec![dimension(1, 0, u32::MAX), dimension(2, 0, u32::MAX), dimension(3, 0, 2)];
    assert_eq!(checked_element_count(&huge), None);
    let emptied = vec![dimension(1, 0, u32::MAX), dimension(2, 0, u32::MAX), dimension(3, 0, 2), dimension(4, 0, 0)];
    assert_eq!(checked_element_count(&emptied), None);
}

#[test]
fn audit_data_sorts_every_record_set_by_identifier() {
    let rec = |id: &str, status: &str| Record::new(id.to_owned(), status.to_owned(), "{}".to_owned());
    let data = AuditData {
        library: rec("Excel.TypeLib", "--"),
        coclasses: vec![rec("b", "--"), rec("a", "--")],
        interfaces: vec![rec("i2", "--"), rec("i1", "first"), rec("i1", "second")],
        members: Vec::new(),
        parameters: vec![rec("p", "--")],
        enums: vec![rec("z", "--"), rec("y", "--"), rec("x", "--")],
        aliases: Vec::new(),
        unresolved: vec![rec("u2", "--"), rec("u1", "--")],
        documentation: vec![rec("d2", "--"), rec("d1", "--")],
        source_manifest: "manifest".to_owned(),
    };
    let sorted = sort_audit_data(data);
    let ids = |records: &Vec<Record>| records.iter().map(|r| r.id.clone()).collect::<Vec<_>>();
    assert_eq!(ids(&sorted.coclasses), vec!["a", "b"]);
    assert_eq!(ids(&sorted.interfaces), vec!["i1", "i1", "i2"]);
    assert_eq!(sorted.interfaces[0].status, "first");
    assert_eq!(sorted.interfaces[1].status, "second");
    assert_eq!(ids(&sorted.enums), vec!["x", "y", "z"]);
    assert_eq!(ids(&sorted.unresolved), vec!["u1", "u2"]);
    assert_eq!(ids(&sorted.documentation), vec!["d2", "d1"]);
    assert_eq!(sorted.library.id, "Excel.TypeLib");
    assert_eq!(sorted.source_manifest, "manifest");
}
