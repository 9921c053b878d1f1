use crate::error::NativeExtensionsError;
use crate::ids::{ChannelId, DataReaderId, IsolateId};
use crate::model::{FinalizationToken, ManagerView};
use crate::progress::ProgressView;
use crate::progress_registry::ProgressKey;
use crate::request::{ReaderCall, Request};
use vstd::prelude::*;

verus! {

/// One step in the life of the reader registry.
pub enum RegistryOp<R> {
    Register { platform_reader: R, isolate_id: IsolateId },
    Dispose { reader: DataReaderId },
    Finalize { token: FinalizationToken },
}

/// The manager after one step.
pub open spec fn step<R, H: FnOnce()>(s: ManagerView<R, H>, op: RegistryOp<R>) -> ManagerView<R, H> {
    match op {
        RegistryOp::Register { platform_reader, isolate_id } => s.register(
            platform_reader,
            isolate_id,
        ),
        RegistryOp::Dispose { reader } => s.dispose(reader),
        RegistryOp::Finalize { token } => s.finalize(token),
    }
}

/// The manager after the steps `ops`, taken in order.
pub open spec fn run<R, H: FnOnce()>(s: ManagerView<R, H>, ops: Seq<RegistryOp<R>>) -> ManagerView<
    R,
    H,
>
    decreases ops.len(),
{
    if ops.len() == 0 {
        s
    } else {
        step(run(s, ops.drop_last()), ops.last())
    }
}

/// The handles that the registrations among `ops` issue, in order.
pub open spec fn issued<R, H: FnOnce()>(s: ManagerView<R, H>, ops: Seq<RegistryOp<R>>) -> Seq<
    DataReaderId,
>
    decreases ops.len(),
{
    if ops.len() == 0 {
        Seq::empty()
    } else if ops.last() is Register {
        issued(s, ops.drop_last()).push(run(s, ops.drop_last()).next_handle())
    } else {
        issued(s, ops.drop_last())
    }
}

/// Whether the manager admits the steps `ops`: no registration among them
/// finds the handles used up.
pub open spec fn admitted<R, H: FnOnce()>(s: ManagerView<R, H>, ops: Seq<RegistryOp<R>>) -> bool {
    s.next_id + issued(s, ops).len() <= i64::MAX
}

/// Every step counts the issued handles on by at most one, and a removal
/// does not count at all.
pub proof fn lemma_run_counts_registrations<R, H: FnOnce()>(
    s: ManagerView<R, H>,
    ops: Seq<RegistryOp<R>>,
)
    ensures
        run(s, ops).next_id == s.next_id + issued(s, ops).len(),
        issued(s, ops).len() <= ops.len(),
        run(s, ops).next_channel == s.next_channel,
        run(s, ops).progresses == s.progresses,
        run(s, ops).channels == s.channels,
    decreases ops.len(),
{
    if ops.len() > 0 {
        lemma_run_counts_registrations(s, ops.drop_last());
    }
}

/// Whatever is registered and removed, and in whatever order, the registry
/// stays well formed: every entry sits under a
/// handle that was issued, so a registration, which issues a handle never
/// issued before, cannot land on an entry that is already there.
pub proof fn lemma_run_preserves_wf<R, H: FnOnce()>(s: ManagerView<R, H>, ops: Seq<RegistryOp<R>>)
    requires
        s.wf(),
        admitted(s, ops),
    ensures
        run(s, ops).wf(),
    decreases ops.len(),
{
    if ops.len() > 0 {
        let before = run(s, ops.drop_last());
        lemma_run_preserves_wf(s, ops.drop_last());
        lemma_run_counts_registrations(s, ops.drop_last());
        match ops.last() {
            RegistryOp::Register { platform_reader, isolate_id } => {
                lemma_register_is_fresh(before, platform_reader, isolate_id);
            },
            _ => {},
        }
    }
}

/// A registration adds exactly one entry, under a handle that had none, and
/// leaves all other entries as they were.
pub proof fn lemma_register_is_fresh<R, H: FnOnce()>(
    s: ManagerView<R, H>,
    platform_reader: R,
    isolate_id: IsolateId,
)
    requires
        s.wf(),
        s.next_id < i64::MAX,
    ensures
        !s.readers.contains_key(s.next_handle()),
        s.register(platform_reader, isolate_id).wf(),
        s.register(platform_reader, isolate_id).get(s.next_handle()) == Ok::<
            R,
            NativeExtensionsError,
        >(platform_reader),
        forall|other: DataReaderId|
            other != s.next_handle() ==> s.register(platform_reader, isolate_id).readers.contains_key(
                other,
            ) == s.readers.contains_key(other) && s.register(platform_reader, isolate_id).get(other)
                == s.get(other),
{
}

/// Right after a removal the handle is not found.
pub proof fn lemma_get_after_dispose<R, H: FnOnce()>(s: ManagerView<R, H>, reader: DataReaderId)
    ensures
        s.dispose(reader).get(reader) == Err::<R, NativeExtensionsError>(
            NativeExtensionsError::ReaderNotFound,
        ),
{
}

/// A handle that was issued and then removed is never found again,
/// whatever is registered and removed afterwards.
pub proof fn lemma_disposed_stays_gone<R, H: FnOnce()>(
    s: ManagerView<R, H>,
    reader: DataReaderId,
    ops: Seq<RegistryOp<R>>,
)
    requires
        s.wf(),
        reader.0 < s.next_id,
        admitted(s.dispose(reader), ops),
    ensures
        run(s.dispose(reader), ops).get(reader) == Err::<R, NativeExtensionsError>(
            NativeExtensionsError::ReaderNotFound,
        ),
    decreases ops.len(),
{
    if ops.len() > 0 {
        lemma_disposed_stays_gone(s, reader, ops.drop_last());
        lemma_run_counts_registrations(s.dispose(reader), ops.drop_last());
    }
}

/// The handles that any run of registrations and removals issues count up
/// by one from the first: they are all different, and each is greater than
/// the one before.
pub proof fn lemma_issued_handles_increase<R, H: FnOnce()>(
    s: ManagerView<R, H>,
    ops: Seq<RegistryOp<R>>,
)
    requires
        s.wf(),
        admitted(s, ops),
    ensures
        forall|i: int|
            0 <= i < issued(s, ops).len() ==> (#[trigger] issued(s, ops)[i]).0 == s.next_id + i,
        forall|i: int| 0 <= i < issued(s, ops).len() ==> 1 <= (#[trigger] issued(s, ops)[i]).0,
        forall|i: int, j: int|
            0 <= i < j < issued(s, ops).len() ==> (#[trigger] issued(s, ops)[i]).0 < (
            #[trigger] issued(s, ops)[j]).0,
    decreases ops.len(),
{
    if ops.len() > 0 {
        lemma_issued_handles_increase(s, ops.drop_last());
        lemma_run_counts_registrations(s, ops.drop_last());
    }
}

/// When every step is a registration, every step issues a handle.
pub proof fn lemma_registrations_all_issue<R, H: FnOnce()>(
    s: ManagerView<R, H>,
    ops: Seq<RegistryOp<R>>,
)
    requires
        forall|i: int| 0 <= i < ops.len() ==> #[trigger] ops[i] is Register,
    ensures
        issued(s, ops).len() == ops.len(),
    decreases ops.len(),
{
    if ops.len() > 0 {
        lemma_registrations_all_issue(s, ops.drop_last());
    }
}

/// Removing an entry twice, by a disposal and by its token in either order,
/// leaves the manager as one removal does, and the second removal lets go
/// of no reader.
pub proof fn lemma_dispose_twice<R, H: FnOnce()>(s: ManagerView<R, H>, token: FinalizationToken)
    ensures
        s.dispose(token.reader).finalize(token) == s.dispose(token.reader),
        s.finalize(token).dispose(token.reader) == s.dispose(token.reader),
        s.dispose(token.reader).dispose(token.reader) == s.dispose(token.reader),
        s.dispose(token.reader).released(token.reader) is None,
        s.finalize(token).released(token.reader) is None,
{
    let once = s.dispose(token.reader);
    assert(once.readers.remove(token.reader) =~= once.readers);
}

/// A cancellation leaves the channel without a handler, so a second one
/// runs nothing and changes nothing.
pub proof fn lemma_cancel_fires_once<H: FnOnce()>(p: ProgressView<H>)
    ensures
        p.cancelled().fired_by_cancel() is None,
        p.cancelled().cancelled() == p.cancelled(),
        !p.cancelled().is_cancellable(),
        p.wf() ==> p.cancelled().wf(),
{
}

/// Once a cancellation has run a handler, the channel is cancelled for
/// good: it takes no handler any more, tells the caller that the operation
/// cannot be cancelled, and a later cancellation runs nothing.
pub proof fn lemma_cancelled_is_final<H: FnOnce()>(p: ProgressView<H>, handler: Option<H>)
    requires
        p.fired_by_cancel() is Some,
    ensures
        p.cancelled().cancelled,
        p.cancelled().with_handler(handler) == p.cancelled(),
        !p.cancelled().cancellable_notice(handler).args.cancellable,
        p.cancelled().with_handler(handler).fired_by_cancel() is None,
        p.cancelled().with_handler(handler).cancelled() == p.cancelled(),
{
}

/// After a cancellation by token, a second cancellation of the same token
/// runs nothing and changes nothing, and the channel that the first one
/// reached holds no handler any more.
pub proof fn lemma_cancel_progress_fires_once<R, H: FnOnce()>(s: ManagerView<R, H>, key: ProgressKey)
    ensures
        s.cancel_progress(key).fired_by_cancel(key) is None,
        s.cancel_progress(key).cancel_progress(key) == s.cancel_progress(key),
        s.resolve(key) matches Some(c) ==> s.cancel_progress(key).channels[c].fired_by_cancel()
            is None,
{
    let once = s.cancel_progress(key);
    assert(once.progresses.remove(key) =~= once.progresses);
}

/// Cancelling a token that has no entry runs nothing and changes nothing.
pub proof fn lemma_cancel_unknown_token_is_noop<R, H: FnOnce()>(s: ManagerView<R, H>, key: ProgressKey)
    requires
        !s.progresses.contains_key(key),
    ensures
        s.cancel_progress(key) == s,
        s.fired_by_cancel(key) is None,
{
    assert(s.progresses.remove(key) =~= s.progresses);
}

/// Handing no handler to a channel tells the caller that the operation
/// cannot be cancelled, and a cancellation after it runs nothing and
/// changes nothing.
pub proof fn lemma_clearing_handler<H: FnOnce()>(p: ProgressView<H>)
    requires
        p.wf(),
    ensures
        !p.cancellable_notice(None).args.cancellable,
        !p.with_handler(None).is_cancellable(),
        p.with_handler(None).fired_by_cancel() is None,
        p.with_handler(None).cancelled() == p.with_handler(None),
{
}

/// The same, for a channel reached through the manager: once no handler is
/// stored on the channel that answers for a token, cancelling the token
/// runs nothing and leaves every channel as it is.
pub proof fn lemma_clearing_handler_disarms_cancel<R, H: FnOnce()>(
    s: ManagerView<R, H>,
    key: ProgressKey,
    channel: ChannelId,
)
    requires
        s.wf(),
        s.resolve(key) == Some(channel),
    ensures
        s.set_cancellation_handler(channel, None).fired_by_cancel(key) is None,
        s.set_cancellation_handler(channel, None).cancel_progress(key).channels
            == s.set_cancellation_handler(channel, None).channels,
{
    let cleared = s.set_cancellation_handler(channel, None);
    assert(cleared.resolve(key) == Some(channel));
    assert(cleared.channels.insert(channel, cleared.channels[channel].cancelled())
        =~= cleared.channels);
}

/// A token reaches only a channel that was opened for it: the same token
/// of another caller, or another token of the same caller, names another
/// channel or none, and a cancellation leaves all channels but the one it
/// reaches as they are.
pub proof fn lemma_tokens_do_not_collide<R, H: FnOnce()>(
    s: ManagerView<R, H>,
    key: ProgressKey,
    channel: ChannelId,
)
    requires
        s.wf(),
        s.resolve(key) == Some(channel),
    ensures
        s.key_of(channel) == key,
        forall|other: ProgressKey|
            other != key ==> #[trigger] s.resolve(other) != Some(channel),
        forall|c: ChannelId|
            c != channel && s.channels.contains_key(c) ==> #[trigger] s.cancel_progress(
                key,
            ).channels[c] == s.channels[c],
        forall|other: ProgressKey|
            other != key ==> #[trigger] s.cancel_progress(key).progresses.get(other)
                == s.progresses.get(other),
{
}

/// A channel that is opened answers for its token at once, whatever
/// answered for the token before, and stores no handler yet.
pub proof fn lemma_opened_channel_answers<R, H: FnOnce()>(
    s: ManagerView<R, H>,
    isolate_id: IsolateId,
    progress_id: i64,
)
    requires
        s.wf(),
        s.next_channel < u64::MAX,
    ensures
        s.open_progress(isolate_id, progress_id).wf(),
        !s.channels.contains_key(s.next_channel_id()),
        s.open_progress(isolate_id, progress_id).resolve((isolate_id, progress_id)) == Some(
            s.next_channel_id(),
        ),
        s.open_progress(isolate_id, progress_id).channels[s.next_channel_id()]
            == ProgressView::<H>::fresh(isolate_id, progress_id),
        forall|c: ChannelId|
            s.channels.contains_key(c) ==> #[trigger] s.open_progress(
                isolate_id,
                progress_id,
            ).channels.contains_key(c) && s.open_progress(isolate_id, progress_id).channels[c]
                == s.channels[c],
{
}

/// The last channel opened for a token keeps the token: when an older
/// channel of the same token goes, the entry stays, and a cancellation
/// still reaches the newer channel and runs its handler, not the older one.
pub proof fn lemma_last_writer_wins<R, H: FnOnce()>(
    s: ManagerView<R, H>,
    key: ProgressKey,
    older: ChannelId,
    newer: ChannelId,
)
    requires
        s.resolve(key) == Some(newer),
        older != newer,
    ensures
        s.release_progress(older).resolve(key) == Some(newer),
        s.release_progress(older).fired_by_cancel(key) == s.fired_by_cancel(key),
        s.release_progress(older).channels[newer] == s.channels[newer],
{
}

/// A channel that goes takes the entry of its token with it if the entry
/// names it, and is not reached by anything afterwards.
pub proof fn lemma_release_removes_own_entry<R, H: FnOnce()>(
    s: ManagerView<R, H>,
    key: ProgressKey,
    channel: ChannelId,
)
    requires
        s.wf(),
        s.resolve(key) == Some(channel),
    ensures
        !s.release_progress(channel).progresses.contains_key(key),
        !s.release_progress(channel).channels.contains_key(channel),
        s.release_progress(channel).wf(),
        s.release_progress(channel).release_progress(channel) == s.release_progress(channel),
{
}

/// A fetch from a registered reader opens a channel that the caller's
/// token reaches, so that a cancellation of the token reaches the fetch.
pub proof fn lemma_fetch_can_be_cancelled<R, H: FnOnce()>(
    s: ManagerView<R, H>,
    isolate_id: IsolateId,
    reader: DataReaderId,
    progress_id: i64,
)
    requires
        s.wf(),
        s.readers.contains_key(reader),
    ensures
        s.start_fetch(isolate_id, reader, progress_id).resolve((isolate_id, progress_id)) == Some(
            s.next_channel_id(),
        ),
        s.start_fetch(isolate_id, reader, progress_id).readers == s.readers,
{
}

/// A request about a reader that is not registered fails with
/// `ReaderNotFound` and changes nothing; in particular it opens no progress
/// channel.
pub proof fn lemma_unknown_reader_fails_fast<R, H: FnOnce()>(
    s: ManagerView<R, H>,
    isolate_id: IsolateId,
    request: Request,
)
    requires
        request.reader() matches Some(reader) && !s.readers.contains_key(reader),
    ensures
        s.answer(request) == Err::<ReaderCall, NativeExtensionsError>(
            NativeExtensionsError::ReaderNotFound,
        ),
        s.after(isolate_id, request) == s,
{
}

/// A request about a registered reader goes on to that reader, and a
/// request that is about no reader is answered at once.
pub proof fn lemma_known_reader_is_asked<R, H: FnOnce()>(s: ManagerView<R, H>, request: Request)
    requires
        request.reader() matches Some(reader) ==> s.readers.contains_key(reader),
    ensures
        s.answer(request) is Ok,
        request.reader() is None <==> s.answer(request) == Ok::<
            ReaderCall,
            NativeExtensionsError,
        >(ReaderCall::Done),
{
}

} // verus!
