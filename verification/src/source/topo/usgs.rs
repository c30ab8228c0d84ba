//! USGS GeoPDF topographic maps.
use crate::source::traits::SourceError;
use std::io::Read;
use vstd::prelude::*;

verus! {

/// The zipped CSV index of all current US Topo maps.
pub const USGS_USTOPO_CURRENT_METADATA_ZIP_URL: &'static str =
    "https://prd-tnm.s3.amazonaws.com/StagedProducts/Maps/Metadata/ustopo_current.zip";

/// The CSV file, inside the metadata archive, that lists the maps.
pub const USTOPO_CSV_FILENAME: &'static str = "ustopo_current.csv";

/// File name of the downloaded metadata archive in the cache directory.
pub const USTOPO_ZIP_FILENAME: &'static str = "ustopo_current.zip";

/// File name of the map index database in the cache directory.
pub const USTOPO_DB_FILENAME: &'static str = "ustopo_current.db";

/// The US Topo map index, kept as a SQLite database next to the archive it
/// was built from.
#[derive(Debug, Clone)]
pub struct UsgsTopoMapSource {
    zip_path: String,
    sqlite_path: String,
}

/// What to do to make the map index available.
#[derive(Debug, Clone, Copy, PartialEq, Eq, Structural)]
pub enum MetadataAction {
    /// The index database is already built: use it as it is.
    UseIndex,
    /// Build the index database from the metadata archive, downloading the
    /// archive first when `download` is set.
    BuildIndex { download: bool },
}

/// The decompressed contents of the entry called `name` in a ZIP archive:
/// none when the archive cannot be read, holds no such entry, or the entry
/// cannot be decompressed.
pub uninterp spec fn zip_entry(archive: Seq<u8>, name: Seq<char>) -> Option<Seq<u8>>;

/// Why an entry could not be taken out of a ZIP archive; each variant holds
/// the `zip` crate's or the reader's error text.
#[derive(Debug, Clone)]
pub enum ZipEntryError {
    /// The archive itself could not be read.
    Archive(String),
    /// The archive holds no entry of that name.
    Entry(String),
    /// The entry could not be decompressed.
    Content(String),
}

/// `zip::ZipArchive::new` over the archive's bytes, then `by_name` and
/// `read_to_end` on the entry: the entry's decompressed bytes, or the stage
/// that failed with its error text. The text itself is left unstated.
#[verifier::external_body]
pub(crate) fn read_zip_entry(archive: &[u8], name: &str) -> (r: Result<Vec<u8>, ZipEntryError>)
    ensures
        r matches Ok(b) ==> zip_entry(archive@, name@) == Some(b@),
        r is Err ==> zip_entry(archive@, name@) is None,
{
    let mut zip = match zip::ZipArchive::new(std::io::Cursor::new(archive)) {
        Ok(zip) => zip,
        Err(e) => return Err(ZipEntryError::Archive(e.to_string())),
    };
    let mut entry = match zip.by_name(name) {
        Ok(entry) => entry,
        Err(e) => return Err(ZipEntryError::Entry(e.to_string())),
    };
    let mut bytes = Vec::new();
    match entry.read_to_end(&mut bytes) {
        Ok(_) => Ok(bytes),
        Err(e) => Err(ZipEntryError::Content(e.to_string())),
    }
}

/// The message for a metadata archive whose map list cannot be extracted.
pub open spec fn metadata_csv_message(error: ZipEntryError) -> Seq<char> {
    match error {
        ZipEntryError::Archive(t) => "Failed to read USGS metadata zip file: "@ + t@,
        ZipEntryError::Entry(t) => "Failed to find ustopo_current.csv in USGS metadata zip: "@
            + t@,
        ZipEntryError::Content(t) => "Failed to parse USGS metadata CSV record: "@ + t@,
    }
}

impl UsgsTopoMapSource {
    /// The CSV list of maps inside the metadata archive `archive` (its bytes):
    /// the decompressed `ustopo_current.csv` entry, or a `Data` error, with
    /// the failing stage's message, when the archive does not yield it.
    pub fn metadata_csv(archive: &[u8]) -> (r: Result<Vec<u8>, SourceError>)
        ensures
            r matches Ok(b) ==> zip_entry(archive@, USTOPO_CSV_FILENAME@) == Some(b@),
            r is Err <==> zip_entry(archive@, USTOPO_CSV_FILENAME@) is None,
            r matches Err(e) ==> (e matches SourceError::Data(m) && exists|z: ZipEntryError|
                m@ == #[trigger] metadata_csv_message(z)),
    {
        match read_zip_entry(archive, USTOPO_CSV_FILENAME) {
            Ok(bytes) => Ok(bytes),
            Err(z) => {
                let mut m = match &z {
                    ZipEntryError::Archive(_) => String::from_str(
                        "Failed to read USGS metadata zip file: ",
                    ),
                    ZipEntryError::Entry(_) => String::from_str(
                        "Failed to find ustopo_current.csv in USGS metadata zip: ",
                    ),
                    ZipEntryError::Content(_) => String::from_str(
                        "Failed to parse USGS metadata CSV record: ",
                    ),
                };
                match &z {
                    ZipEntryError::Archive(t) => m.append(t.as_str()),
                    ZipEntryError::Entry(t) => m.append(t.as_str()),
                    ZipEntryError::Content(t) => m.append(t.as_str()),
                }
                assert(m@ == metadata_csv_message(z));
                Err(SourceError::Data(m))
            },
        }
    }

    /// A source whose archive and index database live at the given paths.
    pub fn new(zip_path: String, sqlite_path: String) -> (s: Self)
        ensures
            s.zip_path_view() == zip_path@,
            s.sqlite_path_view() == sqlite_path@,
    {
        UsgsTopoMapSource { zip_path, sqlite_path }
    }

    /// The path of the metadata archive.
    pub closed spec fn zip_path_view(&self) -> Seq<char> {
        self.zip_path@
    }

    /// The path of the index database.
    pub closed spec fn sqlite_path_view(&self) -> Seq<char> {
        self.sqlite_path@
    }

    /// The path of the metadata archive.
    pub fn zip_path(&self) -> (p: &str)
        ensures
            p@ == self.zip_path_view(),
    {
        self.zip_path.as_str()
    }

    /// The path of the index database.
    pub fn sqlite_path(&self) -> (p: &str)
        ensures
            p@ == self.sqlite_path_view(),
    {
        self.sqlite_path.as_str()
    }

    /// How to make the index available, given which of its files exist: an
    /// existing database is used as it is; otherwise it is built from the
    /// archive, which is downloaded only when it is not there yet.
    pub fn plan_fetch(db_exists: bool, zip_exists: bool) -> (a: MetadataAction)
        ensures
            db_exists ==> a == MetadataAction::UseIndex,
            !db_exists ==> a == (MetadataAction::BuildIndex { download: !zip_exists }),
    {
        if db_exists {
            MetadataAction::UseIndex
        } else {
            MetadataAction::BuildIndex { download: !zip_exists }
        }
    }
}

} // verus!
