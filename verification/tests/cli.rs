use los::cli::{parse_dem_spec, select_dem_source, DemSpecError, ReaderType, SourceType};
use los::source::Location;

#[test]
fn dem_spec_local_path_only() {
    match parse_dem_spec(Some("/data/dem.tif".to_string()), None) {
        Ok(Some(Location::LocalPath(p))) => assert_eq!(p, "/data/dem.tif"),
        other => panic!("unexpected result: {:?}", other),
    }
}

#[test]
fn dem_spec_url_only() {
    match parse_dem_spec(None, Some("https://example.com/dem.vrt".to_string())) {
        Ok(Some(Location::RemoteUrl(u))) => assert_eq!(u, "https://example.com/dem.vrt"),
        other => panic!("unexpected result: {:?}", other),
    }
}

#[test]
fn dem_spec_neither_means_no_explicit_dataset() {
    assert!(matches!(parse_dem_spec(None, None), Ok(None)));
}

#[test]
fn dem_spec_both_is_rejected() {
    let r = parse_dem_spec(Some("a.tif".to_string()), Some("https://b".to_string()));
    assert!(matches!(r, Err(DemSpecError::BothLocalAndUrl)));
}

#[test]
fn dem_spec_error_message() {
    assert_eq!(
        DemSpecError::BothLocalAndUrl.message(),
        "Cannot specify both local_dem and url_dem. Please choose one."
    );
}

#[test]
fn source_type_usgs_has_a_source() {
    assert!(SourceType::Usgs.to_source().is_some());
}

#[test]
fn source_type_opentopo_has_no_source() {
    assert!(SourceType::OpenTopo.to_source().is_none());
}

#[test]
fn reader_types_are_distinct() {
    assert!(ReaderType::Gdal != ReaderType::GeoTiff);
}

#[test]
fn source_unavailable_message() {
    assert_eq!(
        DemSpecError::SourceUnavailable.message(),
        "OpenTopo source is not implemented yet"
    );
}

#[test]
fn source_type_is_ignored_with_explicit_dataset() {
    let loc = Some(Location::LocalPath("dem.tif".to_string()));
    assert!(matches!(select_dem_source(SourceType::OpenTopo, &loc), Ok(None)));
    assert!(matches!(select_dem_source(SourceType::Usgs, &loc), Ok(None)));
}

#[test]
fn source_type_selects_source_without_dataset() {
    assert!(matches!(select_dem_source(SourceType::Usgs, &None), Ok(Some(_))));
    assert!(matches!(
        select_dem_source(SourceType::OpenTopo, &None),
        Err(DemSpecError::SourceUnavailable)
    ));
}
