//! Catalog construction: turning the files found under the storage root
//! into a transport-safe listing.
//!
//! The filesystem edge walks `root/<CATEGORY>/` (exactly two levels deep)
//! and hands this module one [`ScannedFile`] per regular file it found,
//! in listing order. Building the catalog is then pure policy, verified
//! here: a file whose name or extension is unavailable is silently
//! skipped; the first unreadable file aborts the whole build (all or
//! nothing, no partial catalog); every kept payload is re-encoded as
//! standard base64.

use vstd::prelude::*;
use base64::Engine;

verus! {

/// One regular file found under a category subdirectory, as the
/// filesystem edge observed it.
#[derive(Debug)]
pub enum ScannedFile {
    /// The file's name or extension was unavailable; the catalog skips it.
    Unnamed,
    /// The file was read whole.
    Stored { file_name: String, extension: String, content: Vec<u8> },
    /// Reading the file failed, with the reported cause.
    Unreadable { message: String },
}

/// One catalog record: the stored file's name, its extension, and its
/// payload re-encoded as standard base64 text.
#[derive(Debug)]
pub struct CatalogEntry {
    pub file_name: String,
    pub extension: String,
    pub encoded_payload: String,
}

impl View for CatalogEntry {
    type V = (Seq<char>, Seq<char>, Seq<char>);

    open spec fn view(&self) -> Self::V {
        (self.file_name@, self.extension@, self.encoded_payload@)
    }
}

/// Why a catalog build failed.
#[derive(Debug)]
pub enum CatalogError {
    /// The storage root does not exist: the store was never initialized.
    /// Distinct from an empty store, which yields an empty catalog.
    StoreNotInitialized,
    /// A stored file could not be read; the whole build is abandoned.
    ReadFailed { message: String },
}

/// What base64's `Engine::encode` returns for these bytes with the
/// `STANDARD` engine.
pub uninterp spec fn base64_of(bytes: Seq<u8>) -> Seq<char>;

/// Relies on base64's `Engine::encode` with the `STANDARD` engine:
/// standard-alphabet, padded base64 with no line wrapping, a function of
/// the input bytes alone.
#[verifier::external_body]
fn encode_base64(bytes: &Vec<u8>) -> (r: String)
    ensures
        r@ == base64_of(bytes@),
{
    base64::engine::general_purpose::STANDARD.encode(bytes)
}

/// The catalog that a sequence of scanned files yields: skipped files
/// contribute nothing, the first unreadable file aborts the build with
/// its message, and each stored file contributes its name, extension and
/// base64-encoded payload, in order.
pub open spec fn spec_catalog(files: Seq<ScannedFile>) -> Result<
    Seq<(Seq<char>, Seq<char>, Seq<char>)>,
    Seq<char>,
>
    decreases files.len(),
{
    if files.len() == 0 {
        Ok(Seq::empty())
    } else {
        match files[0] {
            ScannedFile::Unnamed => spec_catalog(files.drop_first()),
            ScannedFile::Unreadable { message } => Err(message@),
            ScannedFile::Stored { file_name, extension, content } => match spec_catalog(
                files.drop_first(),
            ) {
                Ok(rest) => Ok(seq![(file_name@, extension@, base64_of(content@))] + rest),
                Err(m) => Err(m),
            },
        }
    }
}

proof fn lemma_catalog_step(files: Seq<ScannedFile>, i: int)
    requires
        0 <= i < files.len(),
    ensures
        spec_catalog(files.skip(i)) == (match files[i] {
            ScannedFile::Unnamed => spec_catalog(files.skip(i + 1)),
            ScannedFile::Unreadable { message } => Err(message@),
            ScannedFile::Stored { file_name, extension, content } => match spec_catalog(
                files.skip(i + 1),
            ) {
                Ok(rest) => Ok(seq![(file_name@, extension@, base64_of(content@))] + rest),
                Err(m) => Err(m),
            },
        }),
{
    assert(files.skip(i).len() == files.len() - i);
    assert(files.skip(i)[0] == files[i]);
    assert(files.skip(i).drop_first() =~= files.skip(i + 1));
}

/// Builds the catalog from what the filesystem edge observed.
///
/// `root_exists` reports whether the storage root itself was there: a
/// missing root is a distinct "store not initialized" error, never an
/// empty catalog. Over an existing root the result follows
/// [`spec_catalog`]: all or nothing, skips and order included. An
/// existing root with nothing under it yields `Ok` of an empty catalog.
pub fn build_catalog(root_exists: bool, files: &Vec<ScannedFile>) -> (r: Result<
    Vec<CatalogEntry>,
    CatalogError,
>)
    ensures
        !root_exists ==> (r matches Err(e) && e == CatalogError::StoreNotInitialized),
        root_exists ==> match spec_catalog(files@) {
            Ok(records) => r matches Ok(v) && v@.map_values(|e: CatalogEntry| e@) == records,
            Err(m) => r matches Err(e) && e matches CatalogError::ReadFailed { message }
                && message@ == m,
        },
{
    if !root_exists {
        return Err(CatalogError::StoreNotInitialized);
    }
    let mut entries: Vec<CatalogEntry> = Vec::new();
    let n = files.len();
    let mut i: usize = 0;
    proof {
        assert(files@.skip(0) =~= files@);
        assert(entries@.map_values(|e: CatalogEntry| e@) =~= Seq::<
            (Seq<char>, Seq<char>, Seq<char>),
        >::empty());
    }
    while i < n
        invariant
            root_exists,
            n == files@.len(),
            i <= n,
            spec_catalog(files@) == (match spec_catalog(files@.skip(i as int)) {
                Ok(rest) => Ok::<_, Seq<char>>(
                    entries@.map_values(|e: CatalogEntry| e@) + rest,
                ),
                Err(m) => Err::<Seq<(Seq<char>, Seq<char>, Seq<char>)>, _>(m),
            }),
        decreases n - i,
    {
        proof {
            lemma_catalog_step(files@, i as int);
        }
        match &files[i] {
            ScannedFile::Unnamed => {},
            ScannedFile::Unreadable { message } => {
                return Err(CatalogError::ReadFailed { message: message.clone() });
            },
            ScannedFile::Stored { file_name, extension, content } => {
                let entry = CatalogEntry {
                    file_name: file_name.clone(),
                    extension: extension.clone(),
                    encoded_payload: encode_base64(content),
                };
                let ghost prior = entries@;
                entries.push(entry);
                proof {
                    assert(entries@.map_values(|e: CatalogEntry| e@) =~= prior.map_values(
                        |e: CatalogEntry| e@,
                    ) + seq![(file_name@, extension@, base64_of(content@))]);
                    if let Ok(rest) = spec_catalog(files@.skip(i + 1 as int)) {
                        assert(prior.map_values(|e: CatalogEntry| e@) + (seq![
                            (file_name@, extension@, base64_of(content@)),
                        ] + rest) =~= entries@.map_values(|e: CatalogEntry| e@) + rest);
                    }
                }
            },
        }
        i += 1;
    }
    proof {
        assert(files@.skip(n as int) =~= Seq::<ScannedFile>::empty());
        assert(entries@.map_values(|e: CatalogEntry| e@) + Seq::<
            (Seq<char>, Seq<char>, Seq<char>),
        >::empty() =~= entries@.map_values(|e: CatalogEntry| e@));
    }
    Ok(entries)
}

} // verus!
