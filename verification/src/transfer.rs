//! The order of the steps of an upload and of a download.
//!
//! A `Transfer` performs no input or output. It hands out one `Action` at a
//! time, and is told what came of it by an `Event`; from the two it decides
//! the next action. The one who drives it reads paths, talks to the store
//! and unpacks archives.
//!
//! An upload inspects the source path, has it archived as a file or as a
//! directory, compresses the archive, names the payload by its digest and
//! has it stored. A download lists the keys under the artifact's prefix page
//! by page; of each page it fetches, decompresses and has unpacked every key
//! that names a payload of this codec, in the order of the listing, before it
//! asks for the next page. The first failure ends the run.
//!
//! The digest in a key names the payload and nothing more: a download does
//! not compare it with the body that it fetched.

use crate::codec::{
    compress,
    decompress,
    zstd_compressed,
    zstd_decompressed,
    ARCHIVE_EXTENSION,
    CONTENT_TYPE,
};
use crate::digest::{md5_compute, md5_digest};
use crate::error::{ErrorKind, TransferError};
use crate::key::{is_archive_key, key_under, key_under_spec};
use crate::listing::{archive_keys, lemma_archive_keys_exact, select_archive_keys};
use std::path::PathBuf;
use vstd::prelude::*;
use vstd::string::*;

verus! {

/// std's owned path. A transfer carries the path it was given to the
/// actions that need it, and never looks into it.
#[verifier::external_type_specification]
#[verifier::external_body]
pub struct ExPathBuf(PathBuf);

/// `PathBuf::clone` gives a path that is equal to the one it was called on.
pub assume_specification[ <PathBuf as Clone>::clone ](path: &PathBuf) -> (copy: PathBuf)
    ensures
        copy == *path,
;

/// Where a transfer stands: which event it waits for.
#[derive(Clone, Copy, Debug, PartialEq, Eq, Structural)]
pub enum Phase {
    /// An upload waits to learn whether its source is a regular file.
    Inspecting,
    /// An upload waits for the archive of its source.
    Archiving,
    /// An upload waits for the store to take the payload.
    Storing,
    /// A download waits for a page of the listing.
    Listing,
    /// A download waits for the body of an object.
    Fetching,
    /// A download waits for an archive to be unpacked.
    Unpacking,
    /// The run has succeeded.
    Finished,
    /// The run has failed.
    Failed,
}

impl Phase {
    /// Whether the run is over.
    pub open spec fn is_terminal(self) -> bool {
        self == Phase::Finished || self == Phase::Failed
    }
}

/// What the driver is asked to do next.
#[derive(Clone, Debug, PartialEq, Eq)]
pub enum Action {
    /// Find out whether the path is a regular file.
    Inspect { path: PathBuf },
    /// Archive the one file at the path, under its base name.
    ArchiveFile { path: PathBuf },
    /// Archive the tree below the path, with paths relative to it.
    ArchiveDirectory { path: PathBuf },
    /// Store the body under the key, replacing what is there.
    Put { bucket: String, key: String, content_type: String, body: Vec<u8> },
    /// Open the listing of the keys under the prefix and get its first page.
    List { bucket: String, prefix: String },
    /// Get the next page of the listing.
    NextPage,
    /// Fetch the whole body of the object at the key.
    Get { bucket: String, key: String },
    /// Unpack the archive below the destination, replacing files that exist.
    Unpack { archive: Vec<u8>, destination: PathBuf },
    /// Nothing is left to do: the run has succeeded.
    Finish,
    /// Give up: the run has failed with this error.
    Fail { error: TransferError },
}

/// What came of the action that was handed out last.
#[derive(Clone, Debug, PartialEq, Eq)]
pub enum Event {
    /// The path was inspected.
    Inspected { is_file: bool },
    /// The source was archived into these bytes.
    Archived { archive: Vec<u8> },
    /// The store took the payload.
    Stored,
    /// The listing gave a page. An entry may lack its key.
    Page { keys: Vec<Option<String>> },
    /// The listing has no further page.
    EndOfListing,
    /// The object's body was fetched.
    Fetched { body: Vec<u8> },
    /// The archive was unpacked.
    Unpacked,
    /// The action failed.
    Failed { error: TransferError },
}

/// An action as a plain value. Of a failure it keeps the kind.
pub enum ActionView {
    Inspect { path: PathBuf },
    ArchiveFile { path: PathBuf },
    ArchiveDirectory { path: PathBuf },
    Put { bucket: Seq<char>, key: Seq<char>, content_type: Seq<char>, body: Seq<u8> },
    List { bucket: Seq<char>, prefix: Seq<char> },
    NextPage,
    Get { bucket: Seq<char>, key: Seq<char> },
    Unpack { archive: Seq<u8>, destination: PathBuf },
    Finish,
    Fail { kind: ErrorKind },
}

/// An event as a plain value. Of a failure it keeps the kind.
pub enum EventView {
    Inspected { is_file: bool },
    Archived { archive: Seq<u8> },
    Stored,
    Page { keys: Seq<Option<Seq<char>>> },
    EndOfListing,
    Fetched { body: Seq<u8> },
    Unpacked,
    Failed { kind: ErrorKind },
}

impl View for Action {
    type V = ActionView;

    open spec fn view(&self) -> ActionView {
        match self {
            Action::Inspect { path } => ActionView::Inspect { path: *path },
            Action::ArchiveFile { path } => ActionView::ArchiveFile { path: *path },
            Action::ArchiveDirectory { path } => ActionView::ArchiveDirectory { path: *path },
            Action::Put { bucket, key, content_type, body } => ActionView::Put {
                bucket: bucket@,
                key: key@,
                content_type: content_type@,
                body: body@,
            },
            Action::List { bucket, prefix } => ActionView::List { bucket: bucket@, prefix: prefix@ },
            Action::NextPage => ActionView::NextPage,
            Action::Get { bucket, key } => ActionView::Get { bucket: bucket@, key: key@ },
            Action::Unpack { archive, destination } => ActionView::Unpack {
                archive: archive@,
                destination: *destination,
            },
            Action::Finish => ActionView::Finish,
            Action::Fail { error } => ActionView::Fail { kind: error.kind },
        }
    }
}

impl View for Event {
    type V = EventView;

    open spec fn view(&self) -> EventView {
        match self {
            Event::Inspected { is_file } => EventView::Inspected { is_file: *is_file },
            Event::Archived { archive } => EventView::Archived { archive: archive@ },
            Event::Stored => EventView::Stored,
            Event::Page { keys } => EventView::Page { keys: keys.deep_view() },
            Event::EndOfListing => EventView::EndOfListing,
            Event::Fetched { body } => EventView::Fetched { body: body@ },
            Event::Unpacked => EventView::Unpacked,
            Event::Failed { error } => EventView::Failed { kind: error.kind },
        }
    }
}

/// A transfer as a plain value.
pub struct TransferView {
    /// The bucket that is written to or read from.
    pub bucket: Seq<char>,
    /// The prefix of the artifact's keys.
    pub prefix: Seq<char>,
    /// The source of an upload, or the destination of a download.
    pub path: PathBuf,
    /// Which event the transfer waits for.
    pub phase: Phase,
    /// The keys of the current page that are not unpacked yet, in the order
    /// of the listing. While an object is fetched or unpacked, its key is
    /// the first of them.
    pub remaining: Seq<Seq<char>>,
}

impl TransferView {
    /// What holds of every transfer: only keys of payloads wait to be
    /// fetched, and while an object is fetched or unpacked its key is among
    /// them.
    pub open spec fn wf(self) -> bool {
        &&& forall|i: int|
            0 <= i < self.remaining.len() ==> is_archive_key(#[trigger] self.remaining[i])
        &&& (self.phase == Phase::Fetching || self.phase == Phase::Unpacking)
            ==> self.remaining.len() > 0
    }
}

/// The request that stores a payload with the given digest.
pub open spec fn store_spec(state: TransferView, payload: Seq<u8>, digest: Seq<u8>) -> ActionView {
    ActionView::Put {
        bucket: state.bucket,
        key: key_under_spec(state.prefix, digest, ARCHIVE_EXTENSION@),
        content_type: CONTENT_TYPE@,
        body: payload,
    }
}

/// Going on with the current page: the next key is fetched, or, where none
/// is left, the next page is asked for.
pub open spec fn advance(state: TransferView) -> (TransferView, ActionView) {
    if state.remaining.len() > 0 {
        (
            TransferView { phase: Phase::Fetching, ..state },
            ActionView::Get { bucket: state.bucket, key: state.remaining[0] },
        )
    } else {
        (TransferView { phase: Phase::Listing, ..state }, ActionView::NextPage)
    }
}

/// Giving up with a failure of the given kind.
pub open spec fn fail(state: TransferView, kind: ErrorKind) -> (TransferView, ActionView) {
    (TransferView { phase: Phase::Failed, ..state }, ActionView::Fail { kind })
}

/// Ending the run with success.
pub open spec fn finish(state: TransferView) -> (TransferView, ActionView) {
    (TransferView { phase: Phase::Finished, ..state }, ActionView::Finish)
}

/// The state and the action that follow an event, or `None` where the
/// event does not answer the action that was handed out last.
pub open spec fn next(pre: TransferView, event: EventView) -> Option<(TransferView, ActionView)> {
    match event {
        EventView::Inspected { is_file } => if pre.phase == Phase::Inspecting {
            Some(
                (
                    TransferView { phase: Phase::Archiving, ..pre },
                    if is_file {
                        ActionView::ArchiveFile { path: pre.path }
                    } else {
                        ActionView::ArchiveDirectory { path: pre.path }
                    },
                ),
            )
        } else {
            None
        },
        EventView::Archived { archive } => if pre.phase == Phase::Archiving {
            match zstd_compressed(archive) {
                Some(payload) => Some(
                    (
                        TransferView { phase: Phase::Storing, ..pre },
                        store_spec(pre, payload, md5_digest(payload)),
                    ),
                ),
                None => Some(fail(pre, ErrorKind::Codec)),
            }
        } else {
            None
        },
        EventView::Stored => if pre.phase == Phase::Storing {
            Some(finish(pre))
        } else {
            None
        },
        EventView::Page { keys } => if pre.phase == Phase::Listing {
            Some(advance(TransferView { remaining: archive_keys(keys), ..pre }))
        } else {
            None
        },
        EventView::EndOfListing => if pre.phase == Phase::Listing {
            Some(finish(pre))
        } else {
            None
        },
        EventView::Fetched { body } => if pre.phase == Phase::Fetching {
            match zstd_decompressed(body) {
                Some(archive) => Some(
                    (
                        TransferView { phase: Phase::Unpacking, ..pre },
                        ActionView::Unpack { archive, destination: pre.path },
                    ),
                ),
                None => Some(fail(pre, ErrorKind::Codec)),
            }
        } else {
            None
        },
        EventView::Unpacked => if pre.phase == Phase::Unpacking {
            Some(advance(TransferView { remaining: pre.remaining.drop_first(), ..pre }))
        } else {
            None
        },
        EventView::Failed { kind } => if pre.phase.is_terminal() {
            None
        } else {
            Some(fail(pre, kind))
        },
    }
}

/// What was handed out, as a plain value.
pub open spec fn handed_out(action: Option<Action>) -> Option<ActionView> {
    match action {
        Some(a) => Some(a@),
        None => None,
    }
}

/// Whether the action gives up with exactly this error.
pub open spec fn gives_up_with(action: Option<Action>, error: TransferError) -> bool {
    action matches Some(Action::Fail { error: reported }) && reported == error
}

/// An upload or a download in progress.
pub struct Transfer {
    bucket: String,
    prefix: String,
    path: PathBuf,
    phase: Phase,
    /// The keys that were chosen from the current page.
    pending: Vec<String>,
    /// How many of them are unpacked.
    cursor: usize,
}

impl View for Transfer {
    type V = TransferView;

    closed spec fn view(&self) -> TransferView {
        TransferView {
            bucket: self.bucket@,
            prefix: self.prefix@,
            path: self.path,
            phase: self.phase,
            remaining: self.pending.deep_view().skip(self.cursor as int),
        }
    }
}

impl Transfer {
    /// What holds of every transfer: the cursor stands within the chosen
    /// keys, all of which name payloads, and while an object is fetched or
    /// unpacked the cursor stands at its key.
    #[verifier::type_invariant]
    spec fn inv(&self) -> bool {
        &&& self.cursor <= self.pending.len()
        &&& forall|i: int|
            0 <= i < self.pending.len() ==> is_archive_key(#[trigger] self.pending[i]@)
        &&& (self.phase == Phase::Fetching || self.phase == Phase::Unpacking) ==> self.cursor
            < self.pending.len()
    }

    /// Starts an upload of the source at `path` into `bucket`, under the
    /// given prefix. The first action inspects the source.
    pub fn upload(bucket: String, prefix: String, path: PathBuf) -> (run: (Transfer, Action))
        ensures
            run.0@.wf(),
            run.0@ == (TransferView {
                bucket: bucket@,
                prefix: prefix@,
                path,
                phase: Phase::Inspecting,
                remaining: Seq::empty(),
            }),
            run.1@ == (ActionView::Inspect { path }),
    {
        let action = Action::Inspect { path: path.clone() };
        let transfer = Transfer {
            bucket,
            prefix,
            path,
            phase: Phase::Inspecting,
            pending: Vec::new(),
            cursor: 0,
        };
        assert(transfer@.remaining =~= Seq::empty());
        (transfer, action)
    }

    /// Starts a download from `bucket` of what is stored under the given
    /// prefix, to be unpacked below `path`. The first action opens the
    /// listing.
    pub fn download(bucket: String, prefix: String, path: PathBuf) -> (run: (Transfer, Action))
        ensures
            run.0@.wf(),
            run.0@ == (TransferView {
                bucket: bucket@,
                prefix: prefix@,
                path,
                phase: Phase::Listing,
                remaining: Seq::empty(),
            }),
            run.1@ == (ActionView::List { bucket: bucket@, prefix: prefix@ }),
    {
        let action = Action::List { bucket: bucket.clone(), prefix: prefix.clone() };
        let transfer = Transfer {
            bucket,
            prefix,
            path,
            phase: Phase::Listing,
            pending: Vec::new(),
            cursor: 0,
        };
        assert(transfer@.remaining =~= Seq::empty());
        (transfer, action)
    }

    /// Which event the transfer waits for.
    pub fn phase(&self) -> (phase: Phase)
        ensures
            phase == self@.phase,
    {
        self.phase
    }

    /// Whether the run is over, with success or with a failure.
    pub fn is_over(&self) -> (over: bool)
        ensures
            over == self@.phase.is_terminal(),
    {
        match self.phase {
            Phase::Finished | Phase::Failed => true,
            _ => false,
        }
    }

    /// The request that stores `payload` under the key that `digest` gives
    /// it below the artifact's prefix.
    pub fn store_action(&self, payload: Vec<u8>, digest: &[u8; 16]) -> (action: Action)
        ensures
            action@ == store_spec(self@, payload@, digest@),
    {
        Action::Put {
            bucket: self.bucket.clone(),
            key: key_under(self.prefix.as_str(), digest, ARCHIVE_EXTENSION),
            content_type: String::from_str(CONTENT_TYPE),
            body: payload,
        }
    }

    /// Goes on with the current page.
    fn advance(&mut self) -> (action: Action)
        requires
            old(self).phase == Phase::Listing,
        ensures
            (final(self)@, action@) == advance(old(self)@),
    {
        proof {
            use_type_invariant(&*self);
        }
        if self.cursor < self.pending.len() {
            let key = self.pending[self.cursor].clone();
            assert(self@.remaining[0] == key@);
            self.phase = Phase::Fetching;
            Action::Get { bucket: self.bucket.clone(), key }
        } else {
            Action::NextPage
        }
    }

    /// Gives up with the given error.
    fn fail(&mut self, error: TransferError) -> (action: Action)
        ensures
            (final(self)@, action@) == fail(old(self)@, error.kind),
            action == (Action::Fail { error }),
    {
        proof {
            use_type_invariant(&*self);
        }
        self.phase = Phase::Failed;
        Action::Fail { error }
    }

    /// Takes the event that came of the last action and hands out the next
    /// action. An event that does not answer the last action is refused: the
    /// result is `None` and the transfer stays as it is. After `Finish` or
    /// `Fail` every event is refused.
    ///
    /// A failure that is reported is handed back as it is. A payload that
    /// the codec cannot compress or decompress ends the run with a codec
    /// failure. The key of a payload that is to be stored is the prefix,
    /// the thirty-two digits of the payload's digest and the extension. A
    /// body that is the compressed form of an archive is decompressed to that
    /// archive, byte for byte.
    pub fn step(&mut self, event: Event) -> (action: Option<Action>)
        ensures
            final(self)@.wf(),
            match next(old(self)@, event@) {
                Some((post, expected)) => final(self)@ == post && handed_out(action) == Some(
                    expected,
                ),
                None => *final(self) == *old(self) && action is None,
            },
            event matches Event::Failed { error } ==> action is None || gives_up_with(
                action,
                error,
            ),
            handed_out(action) matches Some(ActionView::Put { bucket, key, content_type, body })
                ==> md5_digest(body).len() == 16 && key.len() == old(self)@.prefix.len() + 32
                + ARCHIVE_EXTENSION@.len(),
            forall|archive: Seq<u8>|
                old(self)@.phase == Phase::Fetching && #[trigger] zstd_compressed(archive)
                    is Some && event@ == (EventView::Fetched {
                    body: zstd_compressed(archive).unwrap(),
                }) ==> handed_out(action) == Some(
                    ActionView::Unpack { archive, destination: old(self)@.path },
                ),
    {
        proof {
            use_type_invariant(&*self);
            assert forall|i: int| 0 <= i < self@.remaining.len() implies is_archive_key(
                #[trigger] self@.remaining[i],
            ) by {
                assert(self@.remaining[i] == self.pending[self.cursor + i]@);
            }
        }
        match event {
            Event::Inspected { is_file } => match self.phase {
                Phase::Inspecting => {
                    self.phase = Phase::Archiving;
                    if is_file {
                        Some(Action::ArchiveFile { path: self.path.clone() })
                    } else {
                        Some(Action::ArchiveDirectory { path: self.path.clone() })
                    }
                },
                _ => None,
            },
            Event::Archived { archive } => match self.phase {
                Phase::Archiving => match compress(archive.as_slice()) {
                    Ok(payload) => {
                        let digest = md5_compute(payload.as_slice());
                        let action = self.store_action(payload, &digest);
                        self.phase = Phase::Storing;
                        Some(action)
                    },
                    Err(error) => Some(self.fail(error)),
                },
                _ => None,
            },
            Event::Stored => match self.phase {
                Phase::Storing => {
                    self.phase = Phase::Finished;
                    Some(Action::Finish)
                },
                _ => None,
            },
            Event::Page { keys } => match self.phase {
                Phase::Listing => {
                    let chosen = select_archive_keys(&keys);
                    proof {
                        assert forall|i: int| 0 <= i < chosen.len() implies is_archive_key(
                            #[trigger] chosen[i]@,
                        ) by {
                            assert(chosen.deep_view()[i] == chosen[i]@);
                            lemma_archive_keys_exact(keys.deep_view(), chosen[i]@);
                        }
                    }
                    self.cursor = 0;
                    self.pending = chosen;
                    assert(self@.remaining =~= archive_keys(keys.deep_view()));
                    Some(self.advance())
                },
                _ => None,
            },
            Event::EndOfListing => match self.phase {
                Phase::Listing => {
                    self.phase = Phase::Finished;
                    Some(Action::Finish)
                },
                _ => None,
            },
            Event::Fetched { body } => match self.phase {
                Phase::Fetching => match decompress(body.as_slice()) {
                    Ok(archive) => {
                        self.phase = Phase::Unpacking;
                        Some(Action::Unpack { archive, destination: self.path.clone() })
                    },
                    Err(error) => Some(self.fail(error)),
                },
                _ => None,
            },
            Event::Unpacked => match self.phase {
                Phase::Unpacking => {
                    proof {
                        assert(self@.remaining.drop_first() =~= self.pending.deep_view().skip(
                            self.cursor + 1,
                        ));
                    }
                    self.phase = Phase::Listing;
                    self.cursor = self.cursor + 1;
                    Some(self.advance())
                },
                _ => None,
            },
            Event::Failed { error } => match self.phase {
                Phase::Finished | Phase::Failed => None,
                _ => Some(self.fail(error)),
            },
        }
    }
}

} // verus!
