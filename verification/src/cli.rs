use crate::source::{Location, UsgsSource};
use vstd::prelude::*;

verus! {

/// Which DEM source to query when no explicit dataset is given.
#[derive(Debug, Clone, Copy, PartialEq, Eq, Structural)]
pub enum SourceType {
    Usgs,
    OpenTopo,
}

impl SourceType {
    /// The DEM source of this type, when it is available: the USGS source for
    /// `Usgs`; none for `OpenTopo`, which has no implementation.
    pub fn to_source(&self) -> (r: Option<UsgsSource>)
        ensures
            r is Some <==> *self == SourceType::Usgs,
    {
        match self {
            SourceType::Usgs => Some(UsgsSource),
            SourceType::OpenTopo => None,
        }
    }
}

/// Which reader implementation opens DEM datasets.
#[derive(Debug, Clone, Copy, PartialEq, Eq, Structural)]
pub enum ReaderType {
    GeoTiff,
    Gdal,
}

/// Why the command-line DEM options cannot be honoured.
#[derive(Debug, Clone, Copy, PartialEq, Eq, Structural)]
pub enum DemSpecError {
    /// Both a local DEM file and a DEM URL were given.
    BothLocalAndUrl,
    /// The requested source type has no implementation.
    SourceUnavailable,
}

impl DemSpecError {
    /// The message shown to the user for this error.
    pub fn message(&self) -> (s: String)
        ensures
            *self == DemSpecError::BothLocalAndUrl ==> s@
                == "Cannot specify both local_dem and url_dem. Please choose one."@,
            *self == DemSpecError::SourceUnavailable ==> s@
                == "OpenTopo source is not implemented yet"@,
    {
        match self {
            DemSpecError::BothLocalAndUrl => String::from_str(
                "Cannot specify both local_dem and url_dem. Please choose one.",
            ),
            DemSpecError::SourceUnavailable => String::from_str(
                "OpenTopo source is not implemented yet",
            ),
        }
    }
}

/// The DEM source to consult: none when an explicit dataset is given, since
/// the source type is then ignored; otherwise the source of the requested
/// type, or `SourceUnavailable` when that type has no implementation.
pub fn select_dem_source(source_type: SourceType, dem_location: &Option<Location>) -> (r: Result<
    Option<UsgsSource>,
    DemSpecError,
>)
    ensures
        dem_location is Some ==> r == Ok::<Option<UsgsSource>, DemSpecError>(None),
        dem_location is None && source_type == SourceType::Usgs ==> r == Ok::<
            Option<UsgsSource>,
            DemSpecError,
        >(Some(UsgsSource)),
        dem_location is None && source_type == SourceType::OpenTopo ==> r == Err::<
            Option<UsgsSource>,
            DemSpecError,
        >(DemSpecError::SourceUnavailable),
{
    if dem_location.is_some() {
        return Ok(None);
    }
    match source_type.to_source() {
        Some(source) => Ok(Some(source)),
        None => Err(DemSpecError::SourceUnavailable),
    }
}

/// What a DEM specification denotes: a local path when only `local` is
/// given, a URL when only `url` is given, no explicit dataset when neither is
/// given, and an error when both are.
pub open spec fn dem_spec_meaning(local: Option<String>, url: Option<String>) -> Result<
    Option<Location>,
    DemSpecError,
> {
    match (local, url) {
        (Some(p), None) => Ok(Some(Location::LocalPath(p))),
        (None, Some(u)) => Ok(Some(Location::RemoteUrl(u))),
        (Some(_), Some(_)) => Err(DemSpecError::BothLocalAndUrl),
        (None, None) => Ok(None),
    }
}

/// Turns the optional `--local-dem` / `--url-dem` arguments into an explicit
/// dataset location: a local path, a URL, none at all, or an error when both
/// are given.
pub fn parse_dem_spec(local: Option<String>, url: Option<String>) -> (r: Result<
    Option<Location>,
    DemSpecError,
>)
    ensures
        r == dem_spec_meaning(local, url),
{
    match (local, url) {
        (Some(local_path), None) => Ok(Some(Location::LocalPath(local_path))),
        (None, Some(remote_url)) => Ok(Some(Location::RemoteUrl(remote_url))),
        (Some(_), Some(_)) => Err(DemSpecError::BothLocalAndUrl),
        (None, None) => Ok(None),
    }
}

/// A dataset option given alone is taken as it was given: a local path alone
/// denotes that local path, a URL alone denotes that remote URL, with the
/// same text; giving both is an error and giving neither names no dataset.
pub proof fn lemma_dem_spec_keeps_the_given_location(p: String, u: String)
    ensures
        dem_spec_meaning(Some(p), None) matches Ok(Some(Location::LocalPath(q))) && q@ == p@,
        dem_spec_meaning(None, Some(u)) matches Ok(Some(Location::RemoteUrl(v))) && v@ == u@,
        dem_spec_meaning(Some(p), Some(u)) matches Err(DemSpecError::BothLocalAndUrl),
        dem_spec_meaning(None, None) matches Ok(None),
{
}

} // verus!
