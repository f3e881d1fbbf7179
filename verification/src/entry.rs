//! What becomes of one entry: the action that its kind asks for, and what is
//! written and reported once the action's result is known.

use vstd::prelude::*;
use vstd::slice::slice_to_vec;
use vstd::string::StringExecFns;
use crate::escalation::Exhausted;
use crate::paths::{is_compressed_name, join, joined, shows_compression, strip_compression, text_path, with_text_extension, without_compression};
use crate::signature::{classify, kind_of, normalize_marker, normalized, EntryKind};
use crate::store::{decompressed, sizes_fit, CategoryContext, DictionaryStore};
use crate::category::{category_of, Category};

verus! {

/// Where an entry was found.
#[derive(Clone, Copy, Debug, PartialEq, Eq, Structural)]
pub enum Level {
    /// A file of the source tree.
    TopLevel,
    /// A member of an archive of the source tree.
    Member,
}

/// What is to be done with an entry's content.
#[derive(Clone, Copy, Debug, PartialEq, Eq, Structural)]
pub enum Action {
    /// Decode it as a structured document and write it as text.
    DecodeStructured,
    /// Decode it as a message table and write it as text.
    DecodeMessageTable,
    /// Open it as an archive and process each named member.
    ExpandArchive,
    /// Write it as it is.
    CopyThrough,
}

/// The action for a kind: an archive is expanded only at the top level, and
/// copied where it is itself a member.
pub open spec fn action_of(kind: EntryKind, level: Level) -> Action {
    match kind {
        EntryKind::Structured => Action::DecodeStructured,
        EntryKind::MessageTable => Action::DecodeMessageTable,
        EntryKind::NestedArchive => if level == Level::TopLevel {
            Action::ExpandArchive
        } else {
            Action::CopyThrough
        },
        EntryKind::Opaque => Action::CopyThrough,
    }
}

/// The action for a kind at a level.
pub fn action_for(kind: EntryKind, level: Level) -> (action: Action)
    ensures
        action == action_of(kind, level),
{
    match kind {
        EntryKind::Structured => Action::DecodeStructured,
        EntryKind::MessageTable => Action::DecodeMessageTable,
        EntryKind::NestedArchive => match level {
            Level::TopLevel => Action::ExpandArchive,
            Level::Member => Action::CopyThrough,
        },
        EntryKind::Opaque => Action::CopyThrough,
    }
}

/// An entry whose content is at hand, decompressed where its name asked for
/// it.
#[derive(Debug)]
pub struct Opened {
    /// The entry's path relative to the source root, as it was found. A
    /// warning names the entry by it.
    pub source: String,
    /// The path to write under, relative to the destination root: without the
    /// compression suffix.
    pub path: String,
    /// The content as it came: what a raw copy writes.
    pub content: Vec<u8>,
    /// The content with its marker repaired: what a decoder is handed.
    pub bytes: Vec<u8>,
    /// What is to be done with the content.
    pub action: Action,
}

/// An `Opened` over sequences.
pub struct OpenedView {
    pub source: Seq<char>,
    pub path: Seq<char>,
    pub content: Seq<u8>,
    pub bytes: Seq<u8>,
    pub action: Action,
}

impl View for Opened {
    type V = OpenedView;

    open spec fn view(&self) -> OpenedView {
        OpenedView {
            source: self.source@,
            path: self.path@,
            content: self.content@,
            bytes: self.bytes@,
            action: self.action,
        }
    }
}

/// The result of the decoding that an action asked for.
#[derive(Debug)]
pub enum Decoded {
    /// The content was decoded and serialized to this text.
    Text(String),
    /// The content could not be decoded; with the decoder's reason.
    DecodeFailed(String),
    /// The content was decoded, but the tree could not be serialized.
    SerializeFailed(String),
}

/// A `Decoded` over sequences.
pub enum DecodedView {
    Text(Seq<char>),
    DecodeFailed(Seq<char>),
    SerializeFailed(Seq<char>),
}

impl View for Decoded {
    type V = DecodedView;

    open spec fn view(&self) -> DecodedView {
        match self {
            Decoded::Text(t) => DecodedView::Text(t@),
            Decoded::DecodeFailed(r) => DecodedView::DecodeFailed(r@),
            Decoded::SerializeFailed(r) => DecodedView::SerializeFailed(r@),
        }
    }
}

/// What is written for an entry.
#[derive(Debug)]
pub enum Payload {
    Text(String),
    Raw(Vec<u8>),
}

/// A `Payload` over sequences.
pub enum PayloadView {
    Text(Seq<char>),
    Raw(Seq<u8>),
}

impl View for Payload {
    type V = PayloadView;

    open spec fn view(&self) -> PayloadView {
        match self {
            Payload::Text(t) => PayloadView::Text(t@),
            Payload::Raw(b) => PayloadView::Raw(b@),
        }
    }
}

/// A file to write: its path below the destination root, and its content.
#[derive(Debug)]
pub struct DecodedArtifact {
    pub path: String,
    pub payload: Payload,
}

/// A `DecodedArtifact` over sequences.
pub struct ArtifactView {
    pub path: Seq<char>,
    pub payload: PayloadView,
}

impl View for DecodedArtifact {
    type V = ArtifactView;

    open spec fn view(&self) -> ArtifactView {
        ArtifactView { path: self.path@, payload: self.payload@ }
    }
}

/// The kinds of warning that an entry can end with.
#[derive(Clone, Copy, Debug, PartialEq, Eq, Structural)]
pub enum WarningKind {
    DecompressionExhausted,
    StructuredDecodeFailure,
    TextSerializeFailure,
    MessageTableDecodeFailure,
}

/// A warning on one entry: its path, the kind, and the reason given by the
/// codec that failed.
#[derive(Debug)]
pub struct Diagnostic {
    pub path: String,
    pub kind: WarningKind,
    pub reason: String,
}

/// A `Diagnostic` over sequences.
pub struct DiagnosticView {
    pub path: Seq<char>,
    pub kind: WarningKind,
    pub reason: Seq<char>,
}

impl View for Diagnostic {
    type V = DiagnosticView;

    open spec fn view(&self) -> DiagnosticView {
        DiagnosticView { path: self.path@, kind: self.kind, reason: self.reason@ }
    }
}

/// How an entry ended: what is written, if anything, and the warning, if
/// any. An entry with nothing written was skipped, and then has a warning,
/// unless it is an archive, whose members are written in its place.
#[derive(Debug)]
pub struct EntryOutcome {
    pub written: Option<DecodedArtifact>,
    pub warning: Option<Diagnostic>,
}

/// An `EntryOutcome` over sequences.
pub struct OutcomeView {
    pub written: Option<ArtifactView>,
    pub warning: Option<DiagnosticView>,
}

impl View for EntryOutcome {
    type V = OutcomeView;

    open spec fn view(&self) -> OutcomeView {
        OutcomeView {
            written: match self.written {
                Some(a) => Some(a@),
                None => None,
            },
            warning: match self.warning {
                Some(d) => Some(d@),
                None => None,
            },
        }
    }
}

/// The entry found at `source` and mirrored at `target`, with the content
/// `content`, which is what was read, or what decompression gave where the
/// name shows compression.
pub open spec fn prepared(source: Seq<char>, target: Seq<char>, content: Seq<u8>, level: Level) -> OpenedView {
    OpenedView {
        source,
        path: without_compression(target),
        content,
        bytes: normalized(content),
        action: action_of(kind_of(content), level),
    }
}

/// The content written as it came, without a warning.
pub open spec fn copied(opened: OpenedView) -> OutcomeView {
    OutcomeView {
        written: Some(ArtifactView { path: opened.path, payload: PayloadView::Raw(opened.content) }),
        warning: None,
    }
}

/// The content written as it came, with a warning that names the entry as
/// it was found.
pub open spec fn copied_with_warning(opened: OpenedView, kind: WarningKind, reason: Seq<char>) -> OutcomeView {
    OutcomeView {
        written: Some(ArtifactView { path: opened.path, payload: PayloadView::Raw(opened.content) }),
        warning: Some(DiagnosticView { path: opened.source, kind, reason }),
    }
}

/// Nothing written, with a warning on the entry found at `path`.
pub open spec fn skipped(path: Seq<char>, kind: WarningKind, reason: Seq<char>) -> OutcomeView {
    OutcomeView { written: None, warning: Some(DiagnosticView { path, kind, reason }) }
}

/// The text written under the path with the text extension.
pub open spec fn written_as_text(opened: OpenedView, text: Seq<char>) -> OutcomeView {
    OutcomeView {
        written: Some(
            ArtifactView { path: with_text_extension(opened.path), payload: PayloadView::Text(text) },
        ),
        warning: None,
    }
}

/// How an entry ends, given what its action's decoding gave.
///
/// A structured document that does not decode is written as it came, without
/// the repair of its marker, with a warning; a message table that does not decode is skipped, with a warning.
/// Either is skipped with a warning where the tree does not serialize, and
/// written as text where it does. An archive that cannot be opened is
/// written raw with a warning; one that can leaves nothing to write in its
/// own name. Content that is copied through takes no decoding, and is
/// written raw whatever `decoded` says.
pub open spec fn settled(opened: OpenedView, decoded: DecodedView) -> OutcomeView {
    match opened.action {
        Action::CopyThrough => copied(opened),
        Action::ExpandArchive => match decoded {
            DecodedView::DecodeFailed(reason) => copied_with_warning(
                opened,
                WarningKind::StructuredDecodeFailure,
                reason,
            ),
            _ => OutcomeView { written: None, warning: None },
        },
        Action::DecodeStructured => match decoded {
            DecodedView::Text(text) => written_as_text(opened, text),
            DecodedView::DecodeFailed(reason) => copied_with_warning(
                opened,
                WarningKind::StructuredDecodeFailure,
                reason,
            ),
            DecodedView::SerializeFailed(reason) => skipped(
                opened.source,
                WarningKind::TextSerializeFailure,
                reason,
            ),
        },
        Action::DecodeMessageTable => match decoded {
            DecodedView::Text(text) => written_as_text(opened, text),
            DecodedView::DecodeFailed(reason) => skipped(
                opened.source,
                WarningKind::MessageTableDecodeFailure,
                reason,
            ),
            DecodedView::SerializeFailed(reason) => skipped(
                opened.source,
                WarningKind::TextSerializeFailure,
                reason,
            ),
        },
    }
}

/// Classifies content that is at hand, makes the repaired copy for the
/// decoder and fixes the output path, for an entry found at `source` and
/// mirrored at `target`.
pub fn prepare_at(source: &str, target: &str, content: Vec<u8>, level: Level) -> (opened: Opened)
    ensures
        opened@ == prepared(source@, target@, content@, level),
{
    let kind = classify(content.as_slice());
    let mut bytes = slice_to_vec(content.as_slice());
    normalize_marker(&mut bytes);
    Opened {
        source: String::from_str(source),
        path: strip_compression(target),
        content,
        bytes,
        action: action_for(kind, level),
    }
}

/// `prepare_at` for an entry that is mirrored at the path where it was found.
pub fn prepare(relative: &str, content: Vec<u8>, level: Level) -> (opened: Opened)
    ensures
        opened@ == prepared(relative@, relative@, content@, level),
{
    prepare_at(relative, relative, content, level)
}

/// The warning for an entry whose decompression used up every multiplier.
pub fn exhausted(relative: &str, failure: Exhausted) -> (d: Diagnostic)
    ensures
        d@ == (DiagnosticView {
            path: relative@,
            kind: WarningKind::DecompressionExhausted,
            reason: failure.last_error@,
        }),
{
    Diagnostic {
        path: String::from_str(relative),
        kind: WarningKind::DecompressionExhausted,
        reason: failure.last_error,
    }
}

/// What opening the entry found at `source` and mirrored at `target` gives
/// under `dictionary`: where the name shows compression, the content is
/// decompressed first, and the entry ends with a warning if that fails.
pub open spec fn opened_under(
    dictionary: Seq<u8>,
    source: Seq<char>,
    target: Seq<char>,
    data: Seq<u8>,
    level: Level,
) -> Result<OpenedView, DiagnosticView> {
    if shows_compression(source) {
        match decompressed(dictionary, data) {
            Ok(content) => Ok(prepared(source, target, content, level)),
            Err(reason) => Err(
                DiagnosticView { path: source, kind: WarningKind::DecompressionExhausted, reason },
            ),
        }
    } else {
        Ok(prepared(source, target, data, level))
    }
}

/// `r` is `expected`, seen through the views.
pub open spec fn opens_as(r: Result<Opened, Diagnostic>, expected: Result<OpenedView, DiagnosticView>) -> bool {
    match expected {
        Ok(o) => r is Ok && r->Ok_0@ == o,
        Err(d) => r is Err && r->Err_0@ == d,
    }
}

/// Where a member of an expanded archive is found: its name below the
/// archive's own path, as that was found.
pub open spec fn member_source_of(archive: OpenedView, member: Seq<char>) -> Seq<char> {
    joined(archive.source, member)
}

/// Where a member of an expanded archive is mirrored: its name below a
/// directory named after the archive.
pub open spec fn member_target_of(archive: OpenedView, member: Seq<char>) -> Seq<char> {
    joined(archive.path, member)
}

impl CategoryContext {
    /// Opens the entry found at `source` and mirrored at `target` with this
    /// context: decompresses it where its name shows compression, then
    /// prepares it.
    pub fn open_at(&mut self, source: &str, target: &str, data: Vec<u8>, level: Level) -> (r: Result<Opened, Diagnostic>)
        requires
            sizes_fit(data@.len() as int),
        ensures
            final(self).dictionary() == old(self).dictionary(),
            opens_as(r, opened_under(old(self).dictionary(), source@, target@, data@, level)),
    {
        if is_compressed_name(source) {
            match self.decompress(data.as_slice()) {
                Ok(content) => Ok(prepare_at(source, target, content, level)),
                Err(failure) => Err(exhausted(source, failure)),
            }
        } else {
            Ok(prepare_at(source, target, data, level))
        }
    }

    /// Opens a file of the source tree with this context.
    pub fn open_entry(&mut self, relative: &str, data: Vec<u8>, level: Level) -> (r: Result<Opened, Diagnostic>)
        requires
            sizes_fit(data@.len() as int),
        ensures
            final(self).dictionary() == old(self).dictionary(),
            opens_as(r, opened_under(old(self).dictionary(), relative@, relative@, data@, level)),
    {
        self.open_at(relative, relative, data, level)
    }
}

impl CategoryContext {
    /// Opens the member `member` of the expanded archive `archive` with this
    /// context: found below the archive's path, mirrored below the directory
    /// named after the archive, and never expanded itself.
    pub fn open_member(&mut self, archive: &Opened, member: &str, data: Vec<u8>) -> (r: Result<Opened, Diagnostic>)
        requires
            sizes_fit(data@.len() as int),
        ensures
            final(self).dictionary() == old(self).dictionary(),
            opens_as(
                r,
                opened_under(
                    old(self).dictionary(),
                    member_source_of(archive@, member@),
                    member_target_of(archive@, member@),
                    data@,
                    Level::Member,
                ),
            ),
    {
        let source = member_source(archive, member);
        let target = member_path(archive, member);
        self.open_at(source.as_str(), target.as_str(), data, Level::Member)
    }
}

impl DictionaryStore {
    /// Opens the entry found at `source` and mirrored at `target` with the
    /// context of the category that its name, as it was found, falls under.
    pub fn open_at(&mut self, source: &str, target: &str, data: Vec<u8>, level: Level) -> (r: Result<Opened, Diagnostic>)
        requires
            sizes_fit(data@.len() as int),
        ensures
            forall|c: Category| final(self).dictionary(c) == old(self).dictionary(c),
            opens_as(r, opened_under(old(self).dictionary(category_of(source@)), source@, target@, data@, level)),
    {
        if is_compressed_name(source) {
            match self.decompress(source, data.as_slice()) {
                Ok(content) => Ok(prepare_at(source, target, content, level)),
                Err(failure) => Err(exhausted(source, failure)),
            }
        } else {
            Ok(prepare_at(source, target, data, level))
        }
    }

    /// Opens a file of the source tree.
    pub fn open_entry(&mut self, relative: &str, data: Vec<u8>, level: Level) -> (r: Result<Opened, Diagnostic>)
        requires
            sizes_fit(data@.len() as int),
        ensures
            forall|c: Category| final(self).dictionary(c) == old(self).dictionary(c),
            opens_as(r, opened_under(old(self).dictionary(category_of(relative@)), relative@, relative@, data@, level)),
    {
        self.open_at(relative, relative, data, level)
    }

    /// Opens the member `member` of the expanded archive `archive`: found
    /// below the archive's path, mirrored below the directory named after
    /// the archive, and never expanded itself.
    pub fn open_member(&mut self, archive: &Opened, member: &str, data: Vec<u8>) -> (r: Result<Opened, Diagnostic>)
        requires
            sizes_fit(data@.len() as int),
        ensures
            forall|c: Category| final(self).dictionary(c) == old(self).dictionary(c),
            opens_as(
                r,
                opened_under(
                    old(self).dictionary(category_of(member_source_of(archive@, member@))),
                    member_source_of(archive@, member@),
                    member_target_of(archive@, member@),
                    data@,
                    Level::Member,
                ),
            ),
    {
        let source = member_source(archive, member);
        let target = member_path(archive, member);
        self.open_at(source.as_str(), target.as_str(), data, Level::Member)
    }
}

/// Writes the content as it came.
pub fn copy_through(opened: Opened) -> (out: EntryOutcome)
    ensures
        out@ == copied(opened@),
{
    EntryOutcome {
        written: Some(DecodedArtifact { path: opened.path, payload: Payload::Raw(opened.content) }),
        warning: None,
    }
}

/// Writes the content as it came and warns.
fn copy_with_warning(opened: Opened, kind: WarningKind, reason: String) -> (out: EntryOutcome)
    ensures
        out@ == copied_with_warning(opened@, kind, reason@),
{
    EntryOutcome {
        written: Some(DecodedArtifact { path: opened.path, payload: Payload::Raw(opened.content) }),
        warning: Some(Diagnostic { path: opened.source, kind, reason }),
    }
}

/// Ends an entry once the decoding that its action asked for was made.
pub fn settle(opened: Opened, decoded: Decoded) -> (out: EntryOutcome)
    ensures
        out@ == settled(opened@, decoded@),
{
    match opened.action {
        Action::CopyThrough => copy_through(opened),
        Action::ExpandArchive => match decoded {
            Decoded::DecodeFailed(reason) => copy_with_warning(
                opened,
                WarningKind::StructuredDecodeFailure,
                reason,
            ),
            _ => EntryOutcome { written: None, warning: None },
        },
        Action::DecodeStructured => match decoded {
            Decoded::Text(text) => EntryOutcome {
                written: Some(
                    DecodedArtifact { path: text_path(opened.path.as_str()), payload: Payload::Text(text) },
                ),
                warning: None,
            },
            Decoded::DecodeFailed(reason) => copy_with_warning(
                opened,
                WarningKind::StructuredDecodeFailure,
                reason,
            ),
            Decoded::SerializeFailed(reason) => EntryOutcome {
                written: None,
                warning: Some(
                    Diagnostic { path: opened.source, kind: WarningKind::TextSerializeFailure, reason },
                ),
            },
        },
        Action::DecodeMessageTable => match decoded {
            Decoded::Text(text) => EntryOutcome {
                written: Some(
                    DecodedArtifact { path: text_path(opened.path.as_str()), payload: Payload::Text(text) },
                ),
                warning: None,
            },
            Decoded::DecodeFailed(reason) => EntryOutcome {
                written: None,
                warning: Some(
                    Diagnostic { path: opened.source, kind: WarningKind::MessageTableDecodeFailure, reason },
                ),
            },
            Decoded::SerializeFailed(reason) => EntryOutcome {
                written: None,
                warning: Some(
                    Diagnostic { path: opened.source, kind: WarningKind::TextSerializeFailure, reason },
                ),
            },
        },
    }
}

/// The path under which a member of an expanded archive is mirrored: the
/// member's name below a directory named after the archive.
pub fn member_path(archive: &Opened, member: &str) -> (path: String)
    ensures
        path@ == member_target_of(archive@, member@),
{
    join(archive.path.as_str(), member)
}

/// The path at which a member of an expanded archive is found: the member's
/// name below the archive's own path.
pub fn member_source(archive: &Opened, member: &str) -> (path: String)
    ensures
        path@ == member_source_of(archive@, member@),
{
    join(archive.source.as_str(), member)
}

/// An opaque entry comes out with the bytes that went in, whatever is said
/// of its decoding: nothing is written but the content itself, under the
/// entry's own path, and no warning is given.
pub proof fn lemma_opaque_passes_through(
    source: Seq<char>,
    target: Seq<char>,
    content: Seq<u8>,
    level: Level,
    decoded: DecodedView,
)
    requires
        kind_of(content) == EntryKind::Opaque,
    ensures
        settled(prepared(source, target, content, level), decoded) == (OutcomeView {
            written: Some(
                ArtifactView { path: without_compression(target), payload: PayloadView::Raw(content) },
            ),
            warning: None,
        }),
{
}

/// A structured entry that does not decode is never lost: its content, byte
/// for byte as it was before the repair of the marker, is written under the
/// entry's own path without a text extension, and a warning names the entry
/// as it was found, with the decoder's reason.
pub proof fn lemma_undecodable_is_kept(
    source: Seq<char>,
    target: Seq<char>,
    content: Seq<u8>,
    level: Level,
    reason: Seq<char>,
)
    requires
        kind_of(content) == EntryKind::Structured,
    ensures
        ({
            let out = settled(prepared(source, target, content, level), DecodedView::DecodeFailed(reason));
            &&& out.written == Some(
                ArtifactView { path: without_compression(target), payload: PayloadView::Raw(content) },
            )
            &&& out.warning == Some(
                DiagnosticView { path: source, kind: WarningKind::StructuredDecodeFailure, reason },
            )
        }),
{
}

/// Every warning names the entry by the path at which it was found.
pub proof fn lemma_warning_names_the_source(opened: OpenedView, decoded: DecodedView)
    ensures
        settled(opened, decoded).warning is Some ==> settled(opened, decoded).warning->Some_0.path
            == opened.source,
{
}

/// What an entry opens as does not depend on what was opened before it, nor
/// on the order: every call leaves each category's dictionary as it was, and
/// under equal dictionaries an entry opens as the same thing.
pub proof fn lemma_earlier_calls_do_not_matter(
    before: DictionaryStore,
    after: DictionaryStore,
    source: Seq<char>,
    target: Seq<char>,
    data: Seq<u8>,
    level: Level,
)
    requires
        forall|c: Category| after.dictionary(c) == before.dictionary(c),
    ensures
        opened_under(after.dictionary(category_of(source)), source, target, data, level)
            == opened_under(before.dictionary(category_of(source)), source, target, data, level),
{
}

/// Only an entry that was skipped with a warning, or an archive whose
/// members stand for it, has nothing written.
pub proof fn lemma_nothing_lost_silently(opened: OpenedView, decoded: DecodedView)
    ensures
        settled(opened, decoded).written is None ==> settled(opened, decoded).warning is Some
            || opened.action == Action::ExpandArchive,
{
}

} // verus!
