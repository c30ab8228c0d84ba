use std::collections::hash_map::DefaultHasher;
use std::hash::Hasher;
use vstd::prelude::*;
use vstd::std_specs::hash::DefaultHasherAdditionalSpecFns;

verus! {

#[verifier::external_type_specification]
#[verifier::external_body]
pub struct ExIoError(std::io::Error);

/// Why a data source could not provide what was asked of it.
#[derive(Debug)]
pub enum SourceError {
    /// A download failed; the text says how.
    Network(String),
    /// Reading or writing a local file failed.
    Io(std::io::Error),
    /// The data was missing or malformed; the text says how.
    Data(String),
}

impl From<std::io::Error> for SourceError {
    fn from(e: std::io::Error) -> (r: SourceError) {
        SourceError::Io(e)
    }
}

impl vstd::std_specs::convert::FromSpecImpl<std::io::Error> for SourceError {
    open spec fn obeys_from_spec() -> bool {
        true
    }

    open spec fn from_spec(e: std::io::Error) -> SourceError {
        SourceError::Io(e)
    }
}

/// Where a dataset lives: a path on the local file system or a remote URL.
#[derive(Debug, Clone, Hash)]
pub enum Location {
    LocalPath(String),
    RemoteUrl(String),
}

/// The sequence of byte strings that `cache_hash` feeds to the hasher:
/// one tag byte telling the two kinds of location apart, then the UTF-8
/// text of the path or URL.
pub open spec fn cache_hash_input(loc: Location) -> Seq<Seq<u8>> {
    match loc {
        Location::LocalPath(p) => seq![seq![0u8], vstd::utf8::encode_utf8(p@)],
        Location::RemoteUrl(u) => seq![seq![1u8], vstd::utf8::encode_utf8(u@)],
    }
}

impl Location {
    /// A stable key for this location, used to name cached data derived from
    /// it: the default hasher's digest of a tag byte (0 for a local path, 1
    /// for a URL) followed by the UTF-8 text of the path or URL. Locations are
    /// keyed by their text as written, so two spellings of one path (`a//b`
    /// and `a/b`) get different keys; this is not the digest that the derived
    /// `Hash` of the location would produce.
    pub fn cache_hash(&self) -> (h: u64)
        ensures
            h == DefaultHasher::spec_finish(cache_hash_input(*self)),
    {
        let mut hasher = DefaultHasher::new();
        match self {
            Location::LocalPath(p) => {
                let tag: [u8; 1] = [0u8];
                let tag_bytes = tag.as_slice();
                assert(tag_bytes@ =~= seq![0u8]);
                hasher.write(tag_bytes);
                hasher.write(p.as_str().as_bytes());
                assert(hasher@ =~= cache_hash_input(*self));
            },
            Location::RemoteUrl(u) => {
                let tag: [u8; 1] = [1u8];
                let tag_bytes = tag.as_slice();
                assert(tag_bytes@ =~= seq![1u8]);
                hasher.write(tag_bytes);
                hasher.write(u.as_str().as_bytes());
                assert(hasher@ =~= cache_hash_input(*self));
            },
        }
        hasher.finish()
    }
}

/// Cache keys of a local path and of a URL are hashed from different input,
/// whatever their text; and two locations of the same kind with the same
/// text are hashed from the same input, so they share their key.
pub proof fn lemma_cache_hash_input_identifies_location(a: Location, b: Location)
    ensures
        cache_hash_input(a) == cache_hash_input(b) <== match (a, b) {
            (Location::LocalPath(p), Location::LocalPath(q)) => p@ == q@,
            (Location::RemoteUrl(u), Location::RemoteUrl(v)) => u@ == v@,
            _ => false,
        },
        (a is LocalPath && b is RemoteUrl) ==> cache_hash_input(a) != cache_hash_input(b),
{
    if a is LocalPath && b is RemoteUrl {
        assert(cache_hash_input(a)[0][0] != cache_hash_input(b)[0][0]);
    }
}

/// The hashed input determines the location: two locations are hashed from
/// the same input only when they are of the same kind and their whole texts
/// are equal.
pub proof fn lemma_cache_hash_input_determines_location(a: Location, b: Location)
    ensures
        cache_hash_input(a) == cache_hash_input(b) ==> match (a, b) {
            (Location::LocalPath(p), Location::LocalPath(q)) => p@ == q@,
            (Location::RemoteUrl(u), Location::RemoteUrl(v)) => u@ == v@,
            _ => false,
        },
{
    if cache_hash_input(a) == cache_hash_input(b) {
        assert(cache_hash_input(a)[0] == cache_hash_input(b)[0]);
        assert(cache_hash_input(a)[0][0] == cache_hash_input(b)[0][0]);
        let ta = cache_hash_input(a)[1];
        let tb = cache_hash_input(b)[1];
        assert(ta == tb);
        match (a, b) {
            (Location::LocalPath(p), Location::LocalPath(q)) => {
                vstd::utf8::encode_utf8_decode_utf8(p@);
                vstd::utf8::encode_utf8_decode_utf8(q@);
            },
            (Location::RemoteUrl(u), Location::RemoteUrl(v)) => {
                vstd::utf8::encode_utf8_decode_utf8(u@);
                vstd::utf8::encode_utf8_decode_utf8(v@);
            },
            _ => {},
        }
    }
}

} // verus!
