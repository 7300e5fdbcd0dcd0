use dicom_core::{DataElement, VR};
use dicom_download_cli::gateway::parse_dicom_study_info;
use dicom_download_cli::names::generate_study_folder_name;
use dicom_download_cli::plan::study_folder_from_instance;
use dicom_object::{FileMetaTableBuilder, InMemDicomObject, Tag};

fn sample_file_bytes() -> Vec<u8> {
    let mut obj = InMemDicomObject::new_empty();
    obj.put(DataElement::new(
        Tag(0x0008, 0x0016),
        VR::UI,
        "1.2.840.10008.5.1.4.1.1.4",
    ));
    obj.put(DataElement::new(Tag(0x0008, 0x0018), VR::UI, "2.25.4242"));
    obj.put(DataElement::new(Tag(0x0010, 0x0020), VR::LO, "PAT001"));
    obj.put(DataElement::new(Tag(0x0008, 0x0020), VR::DA, "20240102"));
    obj.put(DataElement::new(Tag(0x0008, 0x0060), VR::CS, "MR"));
    obj.put(DataElement::new(Tag(0x0008, 0x0050), VR::SH, "ACC123"));
    let file_obj = obj
        .with_meta(FileMetaTableBuilder::new().transfer_syntax("1.2.840.10008.1.2.1"))
        .expect("meta table");
    let mut bytes: Vec<u8> = Vec::new();
    file_obj.write_all(&mut bytes).expect("in-memory write");
    bytes
}

#[test]
fn study_attributes_are_read_from_file_bytes() {
    let bytes = sample_file_bytes();
    let info = parse_dicom_study_info(&bytes).expect("a well-formed file parses");
    assert_eq!(info.patient_id, "PAT001");
    assert_eq!(info.study_date, "20240102");
    assert_eq!(info.modality, "MR");
    assert_eq!(info.accession_number, "ACC123");
    assert_eq!(generate_study_folder_name(&info), "PAT001_20240102_MR_ACC123");
    assert_eq!(
        study_folder_from_instance(&bytes),
        Some("PAT001_20240102_MR_ACC123".to_string())
    );
}

#[test]
fn garbage_bytes_do_not_parse() {
    let bytes = vec![0u8; 200];
    assert!(parse_dicom_study_info(&bytes).is_none());
    assert!(parse_dicom_study_info(&Vec::new()).is_none());
    assert!(study_folder_from_instance(&bytes).is_none());
}
