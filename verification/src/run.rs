//! What holds of whole runs of a transfer.
//!
//! A run is a sequence of events, each answering the action that the
//! transfer handed out before it. The statements here are about the plain
//! values of `transfer`: they hold of every driver that reports truthfully.

use crate::codec::{zstd_compressed, ARCHIVE_EXTENSION, CONTENT_TYPE};
use crate::digest::md5_digest;
use crate::error::ErrorKind;
use crate::key::{is_archive_key, key_spec, lemma_built_key_is_archive_key, lemma_key_starts_with_prefix, prefix_spec};
use crate::listing::{archive_keys, lemma_archive_keys_exact};
use crate::transfer::{fail, next, store_spec, ActionView, EventView, Phase, TransferView};
use vstd::prelude::*;

verus! {

/// The state after a sequence of events and the actions that were handed
/// out on the way, or `None` where one of the events was refused.
pub open spec fn run(pre: TransferView, events: Seq<EventView>) -> Option<
    (TransferView, Seq<ActionView>),
>
    decreases events.len(),
{
    if events.len() == 0 {
        Some((pre, Seq::empty()))
    } else {
        match run(pre, events.drop_last()) {
            Some((mid, actions)) => match next(mid, events.last()) {
                Some((post, action)) => Some((post, actions.push(action))),
                None => None,
            },
            None => None,
        }
    }
}

/// The keys that the actions fetch, in their order.
pub open spec fn fetched_keys(actions: Seq<ActionView>) -> Seq<Seq<char>>
    decreases actions.len(),
{
    if actions.len() == 0 {
        Seq::empty()
    } else {
        match actions.last() {
            ActionView::Get { bucket, key } => fetched_keys(actions.drop_last()).push(key),
            _ => fetched_keys(actions.drop_last()),
        }
    }
}

/// How many archives the actions have unpacked.
pub open spec fn unpack_count(actions: Seq<ActionView>) -> nat
    decreases actions.len(),
{
    if actions.len() == 0 {
        0
    } else {
        match actions.last() {
            ActionView::Unpack { archive, destination } => unpack_count(actions.drop_last()) + 1,
            _ => unpack_count(actions.drop_last()),
        }
    }
}

/// The keys of payloads that the listing gave, page after page, in the
/// order of the listing.
pub open spec fn listed_payloads(events: Seq<EventView>) -> Seq<Seq<char>>
    decreases events.len(),
{
    if events.len() == 0 {
        Seq::empty()
    } else {
        match events.last() {
            EventView::Page { keys } => listed_payloads(events.drop_last()) + archive_keys(keys),
            _ => listed_payloads(events.drop_last()),
        }
    }
}

/// Whether a phase belongs to a download.
pub open spec fn in_download(phase: Phase) -> bool {
    phase != Phase::Inspecting && phase != Phase::Archiving && phase != Phase::Storing
}

/// What holds after every event of a download, of the state and of the
/// actions so far.
pub open spec fn download_invariant(
    events: Seq<EventView>,
    post: TransferView,
    actions: Seq<ActionView>,
) -> bool {
    &&& post.wf()
    &&& in_download(post.phase)
    &&& match post.phase {
        Phase::Failed => {
            &&& fetched_keys(actions).is_prefix_of(listed_payloads(events))
            &&& unpack_count(actions) <= fetched_keys(actions).len()
        },
        Phase::Fetching => {
            &&& fetched_keys(actions) + post.remaining.drop_first() == listed_payloads(events)
            &&& unpack_count(actions) + 1 == fetched_keys(actions).len()
        },
        Phase::Unpacking => {
            &&& fetched_keys(actions) + post.remaining.drop_first() == listed_payloads(events)
            &&& unpack_count(actions) == fetched_keys(actions).len()
        },
        _ => {
            &&& fetched_keys(actions) == listed_payloads(events)
            &&& unpack_count(actions) == fetched_keys(actions).len()
        },
    }
}

/// A step keeps a transfer well formed.
pub proof fn lemma_next_keeps_wf(pre: TransferView, event: EventView)
    requires
        pre.wf(),
        next(pre, event) is Some,
    ensures
        next(pre, event).unwrap().0.wf(),
{
    match event {
        EventView::Page { keys } => {
            let chosen = archive_keys(keys);
            assert forall|i: int| 0 <= i < chosen.len() implies is_archive_key(
                #[trigger] chosen[i],
            ) by {
                lemma_archive_keys_exact(keys, chosen[i]);
            }
        },
        EventView::Unpacked => {
            let rest = pre.remaining.drop_first();
            assert forall|i: int| 0 <= i < rest.len() implies is_archive_key(#[trigger] rest[i]) by {
                assert(rest[i] == pre.remaining[i + 1]);
            }
        },
        _ => {},
    }
}

/// Only keys that name a payload of this codec are fetched, and they are
/// fetched from the transfer's own bucket.
pub proof fn lemma_fetch_is_selective(pre: TransferView, event: EventView)
    requires
        pre.wf(),
    ensures
        next(pre, event) matches Some((post, ActionView::Get { bucket, key })) ==> is_archive_key(
            key,
        ) && bucket == pre.bucket,
{
    if next(pre, event) is Some {
        lemma_next_keeps_wf(pre, event);
    }
}

/// A page of a listing never makes a download fail, whatever keys it holds:
/// the keys that name no payload are passed over.
pub proof fn lemma_page_never_fails(pre: TransferView, keys: Seq<Option<Seq<char>>>)
    requires
        pre.phase == Phase::Listing,
    ensures
        next(pre, EventView::Page { keys }) matches Some((post, action)) && !(action is Fail)
            && !(post.phase == Phase::Failed),
{
}

/// Once a run has finished or failed, every event is refused: no action
/// follows a failure.
pub proof fn lemma_terminal_refuses(pre: TransferView, event: EventView)
    requires
        pre.phase.is_terminal(),
    ensures
        next(pre, event) is None,
{
}

/// A failure that is reported ends the run at once, from every phase in
/// which the run is not over, and with the kind that was reported.
pub proof fn lemma_failure_ends_run(pre: TransferView, kind: ErrorKind)
    requires
        !pre.phase.is_terminal(),
    ensures
        next(pre, EventView::Failed { kind }) == Some(
            (TransferView { phase: Phase::Failed, ..pre }, ActionView::Fail { kind }),
        ),
{
}

/// What an upload stores depends on the bucket, the prefix and the bytes of
/// the archive alone: two uploads that agree in these hand out the same
/// request, with the same key and the same body.
pub proof fn lemma_upload_is_deterministic(
    one: TransferView,
    other: TransferView,
    archive: Seq<u8>,
)
    requires
        one.phase == Phase::Archiving,
        other.phase == Phase::Archiving,
        one.bucket == other.bucket,
        one.prefix == other.prefix,
    ensures
        next(one, EventView::Archived { archive }).unwrap().1 == next(
            other,
            EventView::Archived { archive },
        ).unwrap().1,
{
}

/// The key that an upload stores a payload under is the key of the key
/// scheme for the digest of the compressed archive. It starts with the
/// prefix of the artifact, and a download recognises it as a payload. Where
/// the codec cannot compress the archive, nothing is stored and the upload
/// fails.
pub proof fn lemma_stored_key_is_found(
    pre: TransferView,
    prefix_key: Seq<char>,
    identifier: Seq<char>,
    name: Seq<char>,
    archive: Seq<u8>,
)
    requires
        pre.phase == Phase::Archiving,
        pre.prefix == prefix_spec(prefix_key, identifier, name),
    ensures
        match zstd_compressed(archive) {
            Some(payload) => {
                let key = key_spec(
                    prefix_key,
                    identifier,
                    name,
                    md5_digest(payload),
                    ARCHIVE_EXTENSION@,
                );
                &&& next(pre, EventView::Archived { archive }) == Some(
                    (
                        TransferView { phase: Phase::Storing, ..pre },
                        ActionView::Put {
                            bucket: pre.bucket,
                            key,
                            content_type: CONTENT_TYPE@,
                            body: payload,
                        },
                    ),
                )
                &&& pre.prefix.is_prefix_of(key)
                &&& is_archive_key(key)
            },
            None => next(pre, EventView::Archived { archive }) == Some(
                fail(pre, ErrorKind::Codec),
            ),
        },
{
    match zstd_compressed(archive) {
        Some(payload) => {
            lemma_key_starts_with_prefix(
                prefix_key,
                identifier,
                name,
                md5_digest(payload),
                ARCHIVE_EXTENSION@,
            );
            lemma_built_key_is_archive_key(prefix_key, identifier, name, md5_digest(payload));
        },
        None => {},
    }
}

/// The action that has a source archived.
pub open spec fn archive_action(pre: TransferView, is_file: bool) -> ActionView {
    if is_file {
        ActionView::ArchiveFile { path: pre.path }
    } else {
        ActionView::ArchiveDirectory { path: pre.path }
    }
}

/// An upload whose archive the codec can compress takes three events: the
/// source is archived as a file or as a directory, the payload is stored
/// under the key that its digest gives it, and the run is finished. Where
/// the codec cannot compress the archive, the run fails after the second
/// event and nothing is stored.
pub proof fn lemma_upload_run(pre: TransferView, is_file: bool, archive: Seq<u8>)
    requires
        pre.phase == Phase::Inspecting,
    ensures
        match zstd_compressed(archive) {
            Some(payload) => run(
                pre,
                seq![
                    EventView::Inspected { is_file },
                    EventView::Archived { archive },
                    EventView::Stored,
                ],
            ) == Some(
                (
                    TransferView { phase: Phase::Finished, ..pre },
                    seq![
                        archive_action(pre, is_file),
                        store_spec(pre, payload, md5_digest(payload)),
                        ActionView::Finish,
                    ],
                ),
            ),
            None => run(
                pre,
                seq![EventView::Inspected { is_file }, EventView::Archived { archive }],
            ) == Some(
                (
                    TransferView { phase: Phase::Failed, ..pre },
                    seq![archive_action(pre, is_file), ActionView::Fail { kind: ErrorKind::Codec }],
                ),
            ),
        },
{
    let e0 = EventView::Inspected { is_file };
    let e1 = EventView::Archived { archive };
    let e2 = EventView::Stored;
    let a0 = archive_action(pre, is_file);
    let s1 = TransferView { phase: Phase::Archiving, ..pre };
    assert(seq![e0, e1, e2].drop_last() =~= seq![e0, e1]);
    assert(seq![e0, e1].drop_last() =~= seq![e0]);
    assert(seq![e0].drop_last() =~= Seq::<EventView>::empty());
    assert(run(pre, Seq::<EventView>::empty()) == Some((pre, Seq::<ActionView>::empty())));
    assert(run(pre, seq![e0]) == Some((s1, Seq::<ActionView>::empty().push(a0))));
    assert(Seq::<ActionView>::empty().push(a0) =~= seq![a0]);
    match zstd_compressed(archive) {
        Some(payload) => {
            let a1 = store_spec(pre, payload, md5_digest(payload));
            let s2 = TransferView { phase: Phase::Storing, ..pre };
            let s3 = TransferView { phase: Phase::Finished, ..pre };
            assert(next(s1, e1) == Some((s2, a1)));
            assert(run(pre, seq![e0, e1]) == Some((s2, seq![a0].push(a1))));
            assert(seq![a0].push(a1) =~= seq![a0, a1]);
            assert(next(s2, e2) == Some((s3, ActionView::Finish)));
            assert(seq![a0, a1].push(ActionView::Finish) =~= seq![a0, a1, ActionView::Finish]);
        },
        None => {
            let a1 = ActionView::Fail { kind: ErrorKind::Codec };
            let s2 = TransferView { phase: Phase::Failed, ..pre };
            assert(next(s1, e1) == Some((s2, a1)));
            assert(seq![a0].push(a1) =~= seq![a0, a1]);
        },
    }
}

/// The invariant of a download holds after every run that begins with the
/// listing.
pub proof fn lemma_download_invariant(pre: TransferView, events: Seq<EventView>)
    requires
        pre.wf(),
        pre.phase == Phase::Listing,
        run(pre, events) is Some,
    ensures
        download_invariant(events, run(pre, events).unwrap().0, run(pre, events).unwrap().1),
    decreases events.len(),
{
    if events.len() > 0 {
        let init = events.drop_last();
        let event = events.last();
        let (mid, before) = run(pre, init).unwrap();
        let (post, action) = next(mid, event).unwrap();
        let actions = before.push(action);
        lemma_download_invariant(pre, init);
        lemma_next_keeps_wf(mid, event);
        assert(actions.drop_last() =~= before);
        assert(actions.last() == action);
        match event {
            EventView::Page { keys } => {
                let chosen = archive_keys(keys);
                if chosen.len() > 0 {
                    assert(fetched_keys(before).push(chosen[0]) + chosen.drop_first()
                        =~= fetched_keys(before) + chosen);
                }
            },
            EventView::Unpacked => {
                let rest = mid.remaining.drop_first();
                if rest.len() > 0 {
                    assert(fetched_keys(before).push(rest[0]) + rest.drop_first()
                        =~= fetched_keys(before) + rest);
                } else {
                    assert(fetched_keys(before) + rest =~= fetched_keys(before));
                }
            },
            _ => {},
        }
    }
}

/// A download that finishes has fetched exactly the keys of payloads that
/// the listing gave, each once, page after page and in the order of the
/// listing, and has unpacked as many archives. The keys that name no payload
/// were not fetched.
pub proof fn lemma_finished_download_fetched_all(pre: TransferView, events: Seq<EventView>)
    requires
        pre.wf(),
        pre.phase == Phase::Listing,
        run(pre, events) matches Some((post, actions)) && post.phase == Phase::Finished,
    ensures
        fetched_keys(run(pre, events).unwrap().1) == listed_payloads(events),
        unpack_count(run(pre, events).unwrap().1) == listed_payloads(events).len(),
{
    lemma_download_invariant(pre, events);
}

/// At every point of a download, what has been fetched is the beginning of
/// what the listing gave: nothing else is fetched, nothing is fetched out of
/// order, and no payload is skipped.
pub proof fn lemma_download_fetches_in_order(pre: TransferView, events: Seq<EventView>)
    requires
        pre.wf(),
        pre.phase == Phase::Listing,
        run(pre, events) is Some,
    ensures
        fetched_keys(run(pre, events).unwrap().1).is_prefix_of(listed_payloads(events)),
{
    lemma_download_invariant(pre, events);
    let (post, actions) = run(pre, events).unwrap();
    if post.phase == Phase::Fetching || post.phase == Phase::Unpacking {
        assert((fetched_keys(actions) + post.remaining.drop_first()).subrange(
            0,
            fetched_keys(actions).len() as int,
        ) =~= fetched_keys(actions));
    }
}

/// A listing without any key of a payload ends the download with success
/// and without a single fetch.
pub proof fn lemma_empty_download(pre: TransferView, events: Seq<EventView>)
    requires
        pre.wf(),
        pre.phase == Phase::Listing,
        run(pre, events) is Some,
        listed_payloads(events).len() == 0,
    ensures
        fetched_keys(run(pre, events).unwrap().1).len() == 0,
        unpack_count(run(pre, events).unwrap().1) == 0,
{
    lemma_download_fetches_in_order(pre, events);
    lemma_download_invariant(pre, events);
}

} // verus!
