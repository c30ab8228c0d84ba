use los::source::dem::usgs::USGS_13_VRT_URL;
use los::source::topo::usgs::{
    USGS_USTOPO_CURRENT_METADATA_ZIP_URL, USTOPO_CSV_FILENAME, USTOPO_DB_FILENAME,
    USTOPO_ZIP_FILENAME,
};
use los::source::topo::{MetadataAction, UsgsTopoMapSource};
use std::io::Write;
use los::source::{DemSourceError, Location, SourceError, UsgsSource};
use std::collections::hash_map::DefaultHasher;
use std::hash::Hasher;

#[test]
fn cache_hash_matches_hasher_fed_tag_and_text() {
    let loc = Location::RemoteUrl("https://example.com/a.vrt".to_string());
    let mut h = DefaultHasher::new();
    h.write(&[1u8]);
    h.write("https://example.com/a.vrt".as_bytes());
    assert_eq!(loc.cache_hash(), h.finish());

    let loc = Location::LocalPath("/tmp/a.tif".to_string());
    let mut h = DefaultHasher::new();
    h.write(&[0u8]);
    h.write("/tmp/a.tif".as_bytes());
    assert_eq!(loc.cache_hash(), h.finish());
}

#[test]
fn cache_hash_is_stable_for_equal_locations() {
    let a = Location::LocalPath("/tmp/x.tif".to_string());
    let b = Location::LocalPath("/tmp/x.tif".to_string());
    assert_eq!(a.cache_hash(), b.cache_hash());
}

#[test]
fn cache_hash_tells_paths_from_urls() {
    let a = Location::LocalPath("same".to_string());
    let b = Location::RemoteUrl("same".to_string());
    assert_ne!(a.cache_hash(), b.cache_hash());
}

#[test]
fn usgs_point_in_coverage_uses_seamless_vrt() {
    match UsgsSource.dem_for_point(true) {
        Ok(Location::RemoteUrl(u)) => {
            assert_eq!(u, USGS_13_VRT_URL);
            assert_eq!(
                u,
                "https://prd-tnm.s3.amazonaws.com/StagedProducts/Elevation/13/TIFF/USGS_Seamless_DEM_13.vrt"
            );
        }
        other => panic!("unexpected result: {:?}", other),
    }
}

#[test]
fn usgs_point_out_of_coverage_is_rejected() {
    assert!(matches!(
        UsgsSource.dem_for_point(false),
        Err(DemSourceError::OutOfCoverage)
    ));
}

#[test]
fn source_error_converts_into_dem_source_error() {
    let e: DemSourceError = SourceError::Data("bad".to_string()).into();
    match e {
        DemSourceError::Source(SourceError::Data(m)) => assert_eq!(m, "bad"),
        other => panic!("unexpected error: {:?}", other),
    }
}

#[test]
fn io_error_converts_into_source_error() {
    let e: SourceError = std::io::Error::new(std::io::ErrorKind::NotFound, "gone").into();
    assert!(matches!(e, SourceError::Io(_)));
}

#[test]
fn topo_source_keeps_its_paths() {
    let s = UsgsTopoMapSource::new("/c/ustopo_current.zip".to_string(), "/c/ustopo_current.db".to_string());
    assert_eq!(s.zip_path(), "/c/ustopo_current.zip");
    assert_eq!(s.sqlite_path(), "/c/ustopo_current.db");
}

#[test]
fn topo_index_plan() {
    assert_eq!(UsgsTopoMapSource::plan_fetch(true, false), MetadataAction::UseIndex);
    assert_eq!(UsgsTopoMapSource::plan_fetch(true, true), MetadataAction::UseIndex);
    assert_eq!(
        UsgsTopoMapSource::plan_fetch(false, true),
        MetadataAction::BuildIndex { download: false }
    );
    assert_eq!(
        UsgsTopoMapSource::plan_fetch(false, false),
        MetadataAction::BuildIndex { download: true }
    );
}

#[test]
fn topo_metadata_names() {
    assert_eq!(
        USGS_USTOPO_CURRENT_METADATA_ZIP_URL,
        "https://prd-tnm.s3.amazonaws.com/StagedProducts/Maps/Metadata/ustopo_current.zip"
    );
    assert_eq!(USTOPO_CSV_FILENAME, "ustopo_current.csv");
    assert_eq!(USTOPO_ZIP_FILENAME, "ustopo_current.zip");
    assert_eq!(USTOPO_DB_FILENAME, "ustopo_current.db");
}

fn zip_with(entries: &[(&str, &[u8])]) -> Vec<u8> {
    let mut w = zip::ZipWriter::new(std::io::Cursor::new(Vec::new()));
    for (name, data) in entries {
        w.start_file(*name, zip::write::SimpleFileOptions::default())
            .unwrap();
        w.write_all(data).unwrap();
    }
    w.finish().unwrap().into_inner()
}

#[test]
fn metadata_csv_is_extracted_from_archive() {
    let csv = b"map_name,westbc,eastbc,southbc,northbc,product_url\nA,-1,0,0,1,u\n";
    let archive = zip_with(&[("other.txt", b"x"), ("ustopo_current.csv", csv)]);
    assert_eq!(UsgsTopoMapSource::metadata_csv(&archive).unwrap(), csv.to_vec());
}

#[test]
fn metadata_csv_missing_entry() {
    let archive = zip_with(&[("other.csv", b"x")]);
    match UsgsTopoMapSource::metadata_csv(&archive) {
        Err(SourceError::Data(m)) => {
            assert!(m.starts_with("Failed to find ustopo_current.csv in USGS metadata zip: "))
        }
        other => panic!("unexpected result: {:?}", other),
    }
}

#[test]
fn metadata_csv_unreadable_archive() {
    match UsgsTopoMapSource::metadata_csv(b"not a zip archive") {
        Err(SourceError::Data(m)) => {
            assert!(m.starts_with("Failed to read USGS metadata zip file: "))
        }
        other => panic!("unexpected result: {:?}", other),
    }
}
