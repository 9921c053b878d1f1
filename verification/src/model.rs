use crate::error::NativeExtensionsError;
use crate::ids::{ChannelId, DataReaderId, IsolateId};
use crate::progress::ProgressView;
use crate::progress_registry::ProgressKey;
use crate::request::{ItemDataRequest, ReaderCall, Request, VirtualFileRequest};
use vstd::prelude::*;

verus! {

/// Binds one reader handle to the caller that holds its proxy. Firing the
/// token removes the entry of that handle; nothing else can be done with it.
#[derive(Clone, Copy, Debug, PartialEq, Eq, Structural)]
pub struct FinalizationToken {
    pub reader: DataReaderId,
    pub isolate_id: IsolateId,
}

/// What the registry keeps for one handle.
pub struct ReaderEntry<R> {
    pub platform_reader: R,
    pub finalization: FinalizationToken,
}

/// What a registration hands back to the caller.
#[derive(Clone, Copy, Debug, PartialEq, Eq, Structural)]
pub struct RegisteredDataReader {
    pub handle: DataReaderId,
    pub finalizable_handle: FinalizationToken,
}

/// The manager as a mathematical value.
pub struct ManagerView<R, H> {
    /// The handle that the next registration issues.
    pub next_id: int,
    /// The registered readers, by handle.
    pub readers: Map<DataReaderId, ReaderEntry<R>>,
    /// The identity that the next progress channel gets.
    pub next_channel: int,
    /// Which channel answers for which token of which caller.
    pub progresses: Map<ProgressKey, ChannelId>,
    /// The channels of the operations in flight.
    pub channels: Map<ChannelId, ProgressView<H>>,
}

impl<R, H: FnOnce()> ManagerView<R, H> {
    /// The manager before anything was registered.
    pub open spec fn empty() -> Self {
        ManagerView {
            next_id: 1,
            readers: Map::empty(),
            next_channel: 0,
            progresses: Map::empty(),
            channels: Map::empty(),
        }
    }

    /// Every handle and every channel identity in use was issued before,
    /// every reader's entry carries the token of its own handle, and every
    /// token names, if any channel in flight, one that was opened for it.
    pub open spec fn wf(self) -> bool {
        &&& 1 <= self.next_id <= i64::MAX
        &&& 0 <= self.next_channel <= u64::MAX
        &&& forall|id: DataReaderId| #[trigger]
            self.readers.contains_key(id) ==> 1 <= id.0 < self.next_id
                && self.readers[id].finalization.reader == id
        &&& forall|c: ChannelId| #[trigger]
            self.channels.contains_key(c) ==> c.0 < self.next_channel && self.channels[c].wf()
        &&& forall|k: ProgressKey| #[trigger]
            self.progresses.contains_key(k) ==> self.progresses[k].0 < self.next_channel
        &&& forall|k: ProgressKey| #[trigger]
            self.progresses.contains_key(k) && self.channels.contains_key(self.progresses[k])
                ==> self.channels[self.progresses[k]].isolate_id == k.0
                && self.channels[self.progresses[k]].progress_id == k.1
    }

    /// The handle that the next registration issues.
    pub open spec fn next_handle(self) -> DataReaderId {
        DataReaderId(self.next_id as i64)
    }

    /// What a registration for `isolate_id` hands back.
    pub open spec fn registered(self, isolate_id: IsolateId) -> RegisteredDataReader {
        RegisteredDataReader {
            handle: self.next_handle(),
            finalizable_handle: FinalizationToken { reader: self.next_handle(), isolate_id },
        }
    }

    /// The manager after `platform_reader` was registered for `isolate_id`.
    pub open spec fn register(self, platform_reader: R, isolate_id: IsolateId) -> Self {
        ManagerView {
            next_id: self.next_id + 1,
            readers: self.readers.insert(
                self.next_handle(),
                ReaderEntry {
                    platform_reader,
                    finalization: self.registered(isolate_id).finalizable_handle,
                },
            ),
            ..self
        }
    }

    /// The manager after the entry of `reader` was removed.
    pub open spec fn dispose(self, reader: DataReaderId) -> Self {
        ManagerView { readers: self.readers.remove(reader), ..self }
    }

    /// The manager after `token` fired.
    pub open spec fn finalize(self, token: FinalizationToken) -> Self {
        self.dispose(token.reader)
    }

    /// The reader that a removal of `reader` lets go of.
    pub open spec fn released(self, reader: DataReaderId) -> Option<R> {
        if self.readers.contains_key(reader) {
            Some(self.readers[reader].platform_reader)
        } else {
            None
        }
    }

    /// What a lookup of `reader` answers.
    pub open spec fn get(self, reader: DataReaderId) -> Result<R, NativeExtensionsError> {
        if self.readers.contains_key(reader) {
            Ok(self.readers[reader].platform_reader)
        } else {
            Err(NativeExtensionsError::ReaderNotFound)
        }
    }

    /// The identity that the next progress channel gets.
    pub open spec fn next_channel_id(self) -> ChannelId {
        ChannelId(self.next_channel as u64)
    }

    /// The manager after a channel was opened for `progress_id` of
    /// `isolate_id`. An earlier entry for the same token is overwritten; the
    /// channel it named stays in flight.
    pub open spec fn open_progress(self, isolate_id: IsolateId, progress_id: i64) -> Self {
        ManagerView {
            next_channel: self.next_channel + 1,
            progresses: self.progresses.insert((isolate_id, progress_id), self.next_channel_id()),
            channels: self.channels.insert(
                self.next_channel_id(),
                ProgressView::fresh(isolate_id, progress_id),
            ),
            ..self
        }
    }

    /// The channel in flight that answers for `key`, if there is one.
    pub open spec fn resolve(self, key: ProgressKey) -> Option<ChannelId> {
        if self.progresses.contains_key(key) && self.channels.contains_key(self.progresses[key]) {
            Some(self.progresses[key])
        } else {
            None
        }
    }

    /// The handler that a cancellation of `key` runs, if any.
    pub open spec fn fired_by_cancel(self, key: ProgressKey) -> Option<H> {
        match self.resolve(key) {
            Some(c) => self.channels[c].fired_by_cancel(),
            None => None,
        }
    }

    /// The manager after a cancellation of `key`: the entry is gone, and the
    /// channel it named, if still in flight, has given up its handler.
    pub open spec fn cancel_progress(self, key: ProgressKey) -> Self {
        ManagerView {
            progresses: self.progresses.remove(key),
            channels: match self.resolve(key) {
                Some(c) => self.channels.insert(c, self.channels[c].cancelled()),
                None => self.channels,
            },
            ..self
        }
    }

    /// The token under which `channel` was opened.
    pub open spec fn key_of(self, channel: ChannelId) -> ProgressKey {
        (self.channels[channel].isolate_id, self.channels[channel].progress_id)
    }

    /// The manager after the operation behind `channel` let go of it: the
    /// channel is gone, and with it the entry of its token if that entry
    /// names this channel. An entry that a later channel has taken over
    /// stays.
    pub open spec fn release_progress(self, channel: ChannelId) -> Self {
        if self.channels.contains_key(channel) {
            ManagerView {
                progresses: if self.progresses.get(self.key_of(channel)) == Some(channel) {
                    self.progresses.remove(self.key_of(channel))
                } else {
                    self.progresses
                },
                channels: self.channels.remove(channel),
                ..self
            }
        } else {
            self
        }
    }

    /// The manager after `handler` was handed to `channel`.
    pub open spec fn set_cancellation_handler(self, channel: ChannelId, handler: Option<H>) -> Self {
        if self.channels.contains_key(channel) {
            ManagerView {
                channels: self.channels.insert(channel, self.channels[channel].with_handler(handler)),
                ..self
            }
        } else {
            self
        }
    }

    /// How a request that needs `reader` goes on: with `call`, if the handle
    /// names a registered reader, and with `ReaderNotFound` if not.
    pub open spec fn ask(self, reader: DataReaderId, call: ReaderCall) -> Result<
        ReaderCall,
        NativeExtensionsError,
    > {
        if self.readers.contains_key(reader) {
            Ok(call)
        } else {
            Err(NativeExtensionsError::ReaderNotFound)
        }
    }

    /// The manager after a fetch from `reader` was started under
    /// `progress_id` of `isolate_id`: a channel is opened, but only if the
    /// handle names a registered reader.
    pub open spec fn start_fetch(
        self,
        isolate_id: IsolateId,
        reader: DataReaderId,
        progress_id: i64,
    ) -> Self {
        if self.readers.contains_key(reader) {
            self.open_progress(isolate_id, progress_id)
        } else {
            self
        }
    }

    /// The question that a request for the data of an item puts to the reader.
    pub open spec fn item_data_call(self, request: ItemDataRequest) -> ReaderCall {
        ReaderCall::GetDataForItem {
            reader: request.reader_handle,
            item_handle: request.item_handle,
            format: request.format,
            progress: self.next_channel_id(),
        }
    }

    /// The question that a request for an item as a file puts to the reader.
    pub open spec fn virtual_file_call(self, request: VirtualFileRequest) -> ReaderCall {
        ReaderCall::GetVirtualFileForItem {
            reader: request.reader_handle,
            item_handle: request.item_handle,
            format: request.format,
            target_folder: request.target_folder,
            progress: self.next_channel_id(),
        }
    }

    /// How `request` goes on once the manager has done its part.
    pub open spec fn answer(self, request: Request) -> Result<ReaderCall, NativeExtensionsError> {
        match request {
            Request::DisposeReader(_) => Ok(ReaderCall::Done),
            Request::GetItems(reader) => self.ask(reader, ReaderCall::GetItems { reader }),
            Request::GetItemFormats(r) => self.ask(
                r.reader_handle,
                ReaderCall::GetFormatsForItem { reader: r.reader_handle, item_handle: r.item_handle },
            ),
            Request::ItemFormatIsSynthetized(r) => self.ask(
                r.reader_handle,
                ReaderCall::ItemFormatIsSynthetized {
                    reader: r.reader_handle,
                    item_handle: r.item_handle,
                    format: r.format,
                },
            ),
            Request::GetItemSuggestedName(r) => self.ask(
                r.reader_handle,
                ReaderCall::GetSuggestedNameForItem {
                    reader: r.reader_handle,
                    item_handle: r.item_handle,
                },
            ),
            Request::GetItemData(r) => self.ask(r.reader_handle, self.item_data_call(r)),
            Request::CancelProgress(_) => Ok(ReaderCall::Done),
            Request::CanGetVirtualFile(r) => self.ask(
                r.reader_handle,
                ReaderCall::CanGetVirtualFileForItem {
                    reader: r.reader_handle,
                    item_handle: r.item_handle,
                    format: r.format,
                },
            ),
            Request::GetVirtualFile(r) => self.ask(r.reader_handle, self.virtual_file_call(r)),
        }
    }

    /// The manager after it has done its part for `request` of `isolate_id`.
    pub open spec fn after(self, isolate_id: IsolateId, request: Request) -> Self {
        match request {
            Request::DisposeReader(reader) => self.dispose(reader),
            Request::GetItemData(r) => self.start_fetch(isolate_id, r.reader_handle, r.progress_id),
            Request::CancelProgress(progress_id) => self.cancel_progress((isolate_id, progress_id)),
            Request::GetVirtualFile(r) => self.start_fetch(
                isolate_id,
                r.reader_handle,
                r.progress_id,
            ),
            _ => self,
        }
    }
}

} // verus!
