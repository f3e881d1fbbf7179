//! The decompression contexts, one per category, and how their dictionaries
//! are bound: once, from the blobs of the bootstrap archive, when the store is
//! made. No context exists before that, and none is bound again.

use vstd::prelude::*;
use zstd::bulk::Decompressor;
use crate::category::{category_for, category_of, Category};
use crate::archive::Archive;
use crate::codec::{decode_frame, dictionary_outcome, fresh_engine, load_dictionary, loaded_dictionary, zstd_outcome};
use crate::escalation::{decompress_escalating, escalated, EscalationPolicy, Exhausted};

verus! {

/// The three dictionaries of the bootstrap archive.
#[derive(Clone, Copy, Debug, PartialEq, Eq, Structural)]
pub enum DictionaryBlob {
    /// `zs.zsdic`, bound to `Category::Common`.
    General,
    /// `pack.zsdic`, bound to `Category::Pack`.
    Pack,
    /// `bcett.byml.zsdic`, bound to `Category::MapData`.
    MapData,
}

/// Why no store could be set up.
#[derive(Debug)]
pub enum InitError {
    /// The bootstrap archive holds no blob of that name.
    MissingBootstrapDictionary(DictionaryBlob),
    /// The codec refused the blob as a dictionary; with its error.
    DictionaryRejected(DictionaryBlob, String),
}

/// An `InitError` over sequences.
pub enum InitErrorView {
    MissingBootstrapDictionary(DictionaryBlob),
    DictionaryRejected(DictionaryBlob, Seq<char>),
}

impl View for InitError {
    type V = InitErrorView;

    open spec fn view(&self) -> InitErrorView {
        match self {
            InitError::MissingBootstrapDictionary(which) => InitErrorView::MissingBootstrapDictionary(
                *which,
            ),
            InitError::DictionaryRejected(which, reason) => InitErrorView::DictionaryRejected(
                *which,
                reason@,
            ),
        }
    }
}

/// Why a blob cannot be bound: it is absent, or the codec refuses it.
pub open spec fn blob_failure(which: DictionaryBlob, blob: Option<Seq<u8>>) -> Option<InitErrorView> {
    match blob {
        None => Some(InitErrorView::MissingBootstrapDictionary(which)),
        Some(bytes) => match dictionary_outcome(bytes) {
            Ok(_) => None,
            Err(reason) => Some(InitErrorView::DictionaryRejected(which, reason)),
        },
    }
}

/// Why no store can be set up from three blobs: the failure of the first
/// blob, in the order general, pack, map data, that cannot be bound. `None`
/// where all three are there and accepted.
pub open spec fn setup_failure(
    general: Option<Seq<u8>>,
    pack: Option<Seq<u8>>,
    map_data: Option<Seq<u8>>,
) -> Option<InitErrorView> {
    if blob_failure(DictionaryBlob::General, general) is Some {
        blob_failure(DictionaryBlob::General, general)
    } else if blob_failure(DictionaryBlob::Pack, pack) is Some {
        blob_failure(DictionaryBlob::Pack, pack)
    } else {
        blob_failure(DictionaryBlob::MapData, map_data)
    }
}

/// A blob that may be absent, over sequences.
pub open spec fn blob_view(blob: Option<Vec<u8>>) -> Option<Seq<u8>> {
    match blob {
        Some(bytes) => Some(bytes@),
        None => None,
    }
}

/// `r` is the store that three blobs give: an error where `setup_failure`
/// names one, and else a store that decodes each category with its blob and
/// `Default` without a dictionary.
pub open spec fn sets_up(
    r: Result<DictionaryStore, InitError>,
    general: Option<Seq<u8>>,
    pack: Option<Seq<u8>>,
    map_data: Option<Seq<u8>>,
) -> bool {
    match setup_failure(general, pack, map_data) {
        Some(failure) => r is Err && r->Err_0@ == failure,
        None => {
            &&& r is Ok
            &&& r->Ok_0.dictionary(Category::Default) == Seq::<u8>::empty()
            &&& r->Ok_0.dictionary(Category::Common) == general->Some_0
            &&& r->Ok_0.dictionary(Category::Pack) == pack->Some_0
            &&& r->Ok_0.dictionary(Category::MapData) == map_data->Some_0
        },
    }
}

/// What decompression gives under a dictionary: the escalation over the
/// multipliers 2 to 29.
pub open spec fn decompressed(dictionary: Seq<u8>, data: Seq<u8>) -> Result<Seq<u8>, Seq<char>> {
    escalated(dictionary, data, 2, 30)
}

/// The largest buffer asked for on `len` input bytes, 29 times `len`, can be
/// allocated: it is at most `isize::MAX`.
pub open spec fn sizes_fit(len: int) -> bool {
    len * 29 <= usize::MAX / 2
}

/// Whether an input of `len` bytes can be handed to `decompress`.
pub fn can_decompress(len: usize) -> (r: bool)
    ensures
        r == sizes_fit(len as int),
{
    EscalationPolicy::standard().admits(len)
}

/// One category's decompression context. Its dictionary is fixed when the
/// context is made; callers that share one context take turns.
pub struct CategoryContext {
    engine: Decompressor<'static>,
}

impl CategoryContext {
    /// The dictionary bound to this context; empty for none.
    pub closed spec fn dictionary(&self) -> Seq<u8> {
        loaded_dictionary(&self.engine)
    }

    /// Decompresses `data` under this context's dictionary.
    pub fn decompress(&mut self, data: &[u8]) -> (r: Result<Vec<u8>, Exhausted>)
        requires
            sizes_fit(data@.len() as int),
        ensures
            final(self).dictionary() == old(self).dictionary(),
            match decompressed(old(self).dictionary(), data@) {
                Ok(bytes) => r is Ok && r->Ok_0@ == bytes,
                Err(reason) => r is Err && r->Err_0.last_error@ == reason,
            },
    {
        decompress_escalating(&mut self.engine, data, EscalationPolicy::standard())
    }
}

/// A buffer of 15 times `len` bytes can be allocated.
pub open spec fn bootstrap_fits(len: int) -> bool {
    len * 15 <= usize::MAX / 2
}

/// Whether a bootstrap archive of `len` bytes can be handed to
/// `unpack_bootstrap`.
pub fn can_unpack_bootstrap(len: usize) -> (r: bool)
    ensures
        r == bootstrap_fits(len as int),
{
    len <= usize::MAX / 2 / 15
}

/// Decompresses the bootstrap archive, the one archive that needs no
/// dictionary: with a context of its own that has none, in one attempt, into
/// a buffer of 15 times its length.
pub fn unpack_bootstrap(data: &[u8]) -> (r: Result<Vec<u8>, String>)
    requires
        bootstrap_fits(data@.len() as int),
    ensures
        match zstd_outcome(Seq::<u8>::empty(), data@, (data@.len() * 15) as usize) {
            Ok(bytes) => r is Ok && r->Ok_0@ == bytes,
            Err(reason) => r is Err && r->Err_0@ == reason,
        },
{
    let mut engine = fresh_engine();
    let capacity: usize = data.len() * 15;
    decode_frame(&mut engine, data, capacity)
}

/// The four contexts of a run, each with its dictionary bound.
pub struct DictionaryStore {
    plain: CategoryContext,
    common: CategoryContext,
    pack: CategoryContext,
    map_data: CategoryContext,
}

/// Binds one blob to a context of its own.
fn bind(blob: Option<&[u8]>, which: DictionaryBlob) -> (r: Result<CategoryContext, InitError>)
    ensures
        match blob_failure(
            which,
            match blob {
                Some(bytes) => Some(bytes@),
                None => None,
            },
        ) {
            Some(failure) => r is Err && r->Err_0@ == failure,
            None => r is Ok && r->Ok_0.dictionary() == blob->Some_0@,
        },
{
    match blob {
        None => Err(InitError::MissingBootstrapDictionary(which)),
        Some(bytes) => {
            let mut engine = fresh_engine();
            match load_dictionary(&mut engine, bytes) {
                Ok(()) => Ok(CategoryContext { engine }),
                Err(reason) => Err(InitError::DictionaryRejected(which, reason)),
            }
        },
    }
}

/// A blob that may be absent, borrowed.
fn borrowed(blob: &Option<Vec<u8>>) -> (r: Option<&[u8]>)
    ensures
        blob is Some <==> r is Some,
        blob is Some ==> r->Some_0@ == blob->Some_0@,
{
    match blob {
        Some(bytes) => Some(bytes.as_slice()),
        None => None,
    }
}

impl DictionaryStore {
    /// The dictionary bound to a category.
    pub closed spec fn dictionary(&self, category: Category) -> Seq<u8> {
        match category {
            Category::Default => self.plain.dictionary(),
            Category::Common => self.common.dictionary(),
            Category::Pack => self.pack.dictionary(),
            Category::MapData => self.map_data.dictionary(),
        }
    }

    /// Binds three blobs, in the order general, pack, map data, to `Common`,
    /// `Pack` and `MapData`.
    fn bind_all(general: Option<&[u8]>, pack: Option<&[u8]>, map_data: Option<&[u8]>) -> (r: Result<DictionaryStore, InitError>)
        ensures
            sets_up(
                r,
                match general {
                    Some(bytes) => Some(bytes@),
                    None => None,
                },
                match pack {
                    Some(bytes) => Some(bytes@),
                    None => None,
                },
                match map_data {
                    Some(bytes) => Some(bytes@),
                    None => None,
                },
            ),
    {
        let common = match bind(general, DictionaryBlob::General) {
            Ok(context) => context,
            Err(e) => {
                return Err(e);
            },
        };
        let pack_context = match bind(pack, DictionaryBlob::Pack) {
            Ok(context) => context,
            Err(e) => {
                return Err(e);
            },
        };
        let map_context = match bind(map_data, DictionaryBlob::MapData) {
            Ok(context) => context,
            Err(e) => {
                return Err(e);
            },
        };
        Ok(
            DictionaryStore {
                plain: CategoryContext { engine: fresh_engine() },
                common,
                pack: pack_context,
                map_data: map_context,
            },
        )
    }

    /// Sets up the store from the three blobs of the bootstrap archive, each
    /// `None` where the archive has no such member. A store comes out exactly
    /// if all three are there and the codec accepts each as a dictionary;
    /// else the error is that of the first blob, in the order general, pack,
    /// map data, that is absent (`MissingBootstrapDictionary`) or refused
    /// (`DictionaryRejected`).
    pub fn init(general: Option<Vec<u8>>, pack: Option<Vec<u8>>, map_data: Option<Vec<u8>>) -> (r: Result<DictionaryStore, InitError>)
        ensures
            sets_up(r, blob_view(general), blob_view(pack), blob_view(map_data)),
    {
        Self::bind_all(borrowed(&general), borrowed(&pack), borrowed(&map_data))
    }

    /// Sets up the store from the opened bootstrap archive: from its members
    /// `zs.zsdic`, `pack.zsdic` and `bcett.byml.zsdic`, the first of each
    /// name.
    pub fn from_archive(archive: &Archive) -> (r: Result<DictionaryStore, InitError>)
        ensures
            sets_up(
                r,
                archive.blob("zs.zsdic"@),
                archive.blob("pack.zsdic"@),
                archive.blob("bcett.byml.zsdic"@),
            ),
    {
        let general = match archive.find("zs.zsdic") {
            Some(i) => Some(archive.data(i)),
            None => None,
        };
        let pack = match archive.find("pack.zsdic") {
            Some(i) => Some(archive.data(i)),
            None => None,
        };
        let map_data = match archive.find("bcett.byml.zsdic") {
            Some(i) => Some(archive.data(i)),
            None => None,
        };
        Self::bind_all(general, pack, map_data)
    }

    /// Decompresses `data` with the context of the category that `name`
    /// falls under. No dictionary changes.
    pub fn decompress(&mut self, name: &str, data: &[u8]) -> (r: Result<Vec<u8>, Exhausted>)
        requires
            sizes_fit(data@.len() as int),
        ensures
            forall|c: Category| final(self).dictionary(c) == old(self).dictionary(c),
            match decompressed(old(self).dictionary(category_of(name@)), data@) {
                Ok(bytes) => r is Ok && r->Ok_0@ == bytes,
                Err(reason) => r is Err && r->Err_0.last_error@ == reason,
            },
    {
        match category_for(name) {
            Category::Default => self.plain.decompress(data),
            Category::Common => self.common.decompress(data),
            Category::Pack => self.pack.decompress(data),
            Category::MapData => self.map_data.decompress(data),
        }
    }

    /// Hands out the four contexts, in the order `Default`, `Common`, `Pack`,
    /// `MapData`, so that each can be guarded on its own.
    pub fn into_contexts(self) -> (r: (CategoryContext, CategoryContext, CategoryContext, CategoryContext))
        ensures
            r.0.dictionary() == self.dictionary(Category::Default),
            r.1.dictionary() == self.dictionary(Category::Common),
            r.2.dictionary() == self.dictionary(Category::Pack),
            r.3.dictionary() == self.dictionary(Category::MapData),
    {
        (self.plain, self.common, self.pack, self.map_data)
    }
}

} // verus!
