use crate::error::{NativeExtensionsError, NativeExtensionsResult};
use crate::ids::{ChannelId, DataReaderId, IsolateId};
use crate::model::{FinalizationToken, ManagerView, ReaderEntry, RegisteredDataReader};
use crate::next_id::NextId;
use crate::progress::{Notification, ProgressUpdate, ReadProgress, SetProgressCancellable};
use crate::progress_registry::ProgressRegistry;
use crate::request::{
    ItemDataRequest, ItemFormatIsSynthetizedRequest, ItemFormatsRequest, ItemSuggestedNameRequest,
    ReaderCall, Request, VirtualFileRequest, VirtualFileSupportedRequest,
};
use std::collections::HashMap;
use vstd::prelude::*;

verus! {

broadcast use vstd::std_specs::hash::group_hash_axioms;

/// Name of the channel on which the manager takes its requests.
pub const CHANNEL_NAME: &'static str = "DataReaderManager";

/// Hint for the caller's collector: the weight of the native side of one
/// reader proxy.
pub const FINALIZABLE_HANDLE_SIZE: isize = 32;

/// Keeps the registered readers and the progress channels of the operations
/// in flight. `R` is the reader as the platform provides it, `H` the handler
/// that interrupts an operation.
pub struct DataReaderManager<R, H> {
    next_id: NextId,
    readers: HashMap<i64, ReaderEntry<R>>,
    next_channel: u64,
    progresses: ProgressRegistry,
    channels: HashMap<u64, ReadProgress<H>>,
}

impl<R, H> View for DataReaderManager<R, H> {
    type V = ManagerView<R, H>;

    closed spec fn view(&self) -> ManagerView<R, H> {
        ManagerView {
            next_id: self.next_id@,
            readers: Map::new(
                |id: DataReaderId| self.readers@.contains_key(id.0),
                |id: DataReaderId| self.readers@[id.0],
            ),
            next_channel: self.next_channel as int,
            progresses: self.progresses@,
            channels: Map::new(
                |c: ChannelId| self.channels@.contains_key(c.0),
                |c: ChannelId| self.channels@[c.0]@,
            ),
        }
    }
}

impl<R, H: FnOnce()> DataReaderManager<R, H> {
    /// A manager without readers and without operations in flight. The first
    /// handle it issues is 1.
    pub fn new() -> (res: Self)
        ensures
            res@ == ManagerView::<R, H>::empty(),
            res@.wf(),
    {
        let res = DataReaderManager {
            next_id: NextId::new(),
            readers: HashMap::new(),
            next_channel: 0,
            progresses: ProgressRegistry::new(),
            channels: HashMap::new(),
        };
        assert(res@.readers =~= Map::empty());
        assert(res@.channels =~= Map::empty());
        res
    }

    /// Whether another progress channel can be opened: channel identities
    /// are never given out twice, and one is still left.
    pub fn can_open_progress(&self) -> (res: bool)
        ensures
            res == (self@.next_channel < u64::MAX),
    {
        self.next_channel < u64::MAX
    }

    /// Opens the progress channel of an operation that starts for
    /// `progress_id` of `isolate_id`, and enters it under that token. The
    /// channel stays in flight until it is released.
    pub fn new_read_progress(&mut self, isolate_id: IsolateId, progress_id: i64) -> (channel:
        ChannelId)
        requires
            old(self)@.wf(),
            old(self)@.next_channel < u64::MAX,
        ensures
            final(self)@ == old(self)@.open_progress(isolate_id, progress_id),
            final(self)@.wf(),
            channel == old(self)@.next_channel_id(),
    {
        let channel = ChannelId(self.next_channel);
        self.next_channel = self.next_channel + 1;
        self.channels.insert(channel.0, ReadProgress::new(isolate_id, progress_id));
        self.progresses.insert(isolate_id, progress_id, channel);
        proof {
            assert(final(self)@.channels =~= old(self)@.open_progress(
                isolate_id,
                progress_id,
            ).channels);
            assert(final(self)@.readers =~= old(self)@.readers);
        }
        channel
    }

    /// Whether another reader can be registered: handles are never reused,
    /// and one is still left.
    pub fn can_register(&self) -> (res: bool)
        ensures
            res == (self@.next_id < i64::MAX),
    {
        self.next_id.has_next()
    }

    /// The handle that the next registration issues.
    pub fn next_handle(&self) -> (res: DataReaderId)
        ensures
            res == self@.next_handle(),
    {
        DataReaderId(self.next_id.peek())
    }

    /// Registers `platform_reader` for `isolate_id` under a fresh handle and
    /// returns the handle with the token that, once fired, removes the entry
    /// again.
    pub fn register_platform_reader(&mut self, platform_reader: R, isolate_id: IsolateId) -> (res:
        RegisteredDataReader)
        requires
            old(self)@.wf(),
            old(self)@.next_id < i64::MAX,
        ensures
            final(self)@ == old(self)@.register(platform_reader, isolate_id),
            final(self)@.wf(),
            res == old(self)@.registered(isolate_id),
            !old(self)@.readers.contains_key(res.handle),
    {
        let id = DataReaderId(self.next_id.next_id());
        let finalizable_handle = FinalizationToken { reader: id, isolate_id };
        self.readers.insert(id.0, ReaderEntry { platform_reader, finalization: finalizable_handle });
        proof {
            assert(final(self)@.readers =~= old(self)@.register(
                platform_reader,
                isolate_id,
            ).readers);
            assert(final(self)@.channels =~= old(self)@.channels);
        }
        RegisteredDataReader { handle: id, finalizable_handle }
    }

    /// Removes the entry of `reader`. Succeeds whether or not there was one.
    pub fn dispose_reader(&mut self, reader: DataReaderId) -> (res: NativeExtensionsResult<()>)
        requires
            old(self)@.wf(),
        ensures
            final(self)@ == old(self)@.dispose(reader),
            final(self)@.wf(),
            res is Ok,
    {
        self.readers.remove(&reader.0);
        proof {
            assert(final(self)@.readers =~= old(self)@.dispose(reader).readers);
            assert(final(self)@.channels =~= old(self)@.channels);
        }
        Ok(())
    }

    /// What a fired `token` does: it removes the entry of the token's
    /// handle, as a disposal would.
    pub fn finalize(&mut self, token: FinalizationToken)
        requires
            old(self)@.wf(),
        ensures
            final(self)@ == old(self)@.finalize(token),
            final(self)@.wf(),
    {
        let _ = self.dispose_reader(token.reader);
    }

    /// The reader registered under `reader`.
    pub fn get_reader(&self, reader: DataReaderId) -> (res: NativeExtensionsResult<&R>)
        ensures
            match res {
                Ok(r) => self@.get(reader) == Ok::<R, NativeExtensionsError>(*r),
                Err(e) => self@.get(reader) == Err::<R, NativeExtensionsError>(e),
            },
    {
        if let Some(entry) = self.readers.get(&reader.0) {
            Ok(&entry.platform_reader)
        } else {
            Err(NativeExtensionsError::ReaderNotFound)
        }
    }

    /// Cancels what runs under `progress_id` of `isolate_id`: the entry is
    /// removed, and if the channel it named is still in flight, the handler
    /// stored there is taken out and run. Without an entry, or without a
    /// handler, nothing is run. Never fails.
    pub fn cancel_progress(&mut self, isolate_id: IsolateId, progress_id: i64) -> (res:
        NativeExtensionsResult<()>)
        requires
            old(self)@.wf(),
        ensures
            final(self)@ == old(self)@.cancel_progress((isolate_id, progress_id)),
            final(self)@.wf(),
            res is Ok,
            old(self)@.fired_by_cancel((isolate_id, progress_id)) matches Some(h) ==> call_ensures(
                h,
                (),
                (),
            ),
    {
        let progress = self.progresses.remove(isolate_id, progress_id);
        if let Some(channel) = progress {
            if let Some(mut progress) = self.channels.remove(&channel.0) {
                assert(old(self)@.channels.contains_key(channel));
                progress.cancel();
                self.channels.insert(channel.0, progress);
            }
        }
        proof {
            assert(final(self)@.channels =~= old(self)@.cancel_progress(
                (isolate_id, progress_id),
            ).channels);
            assert(final(self)@.readers =~= old(self)@.readers);
        }
        Ok(())
    }

    /// What happens when the operation behind `channel` lets go of it: the
    /// channel is dropped, its handler with it and not run, and the entry
    /// of its token is removed if it still names this channel.
    pub fn release_progress(&mut self, channel: ChannelId)
        requires
            old(self)@.wf(),
        ensures
            final(self)@ == old(self)@.release_progress(channel),
            final(self)@.wf(),
    {
        if let Some(progress) = self.channels.remove(&channel.0) {
            assert(old(self)@.channels.contains_key(channel));
            let isolate_id = progress.isolate_id();
            let progress_id = progress.progress_id();
            if self.progresses.get(isolate_id, progress_id) == Some(channel) {
                self.progresses.remove(isolate_id, progress_id);
            }
        }
        proof {
            assert(final(self)@.channels =~= old(self)@.release_progress(channel).channels);
            assert(final(self)@.readers =~= old(self)@.readers);
        }
    }

    /// Hands `handler` to `channel` and returns the notification that
    /// tells the caller whether the operation can now be cancelled. A
    /// channel that was cancelled takes no handler any more. On a channel
    /// that is no longer in flight nothing changes and nothing is sent.
    pub fn set_cancellation_handler(&mut self, channel: ChannelId, handler: Option<H>) -> (res:
        Option<Notification<SetProgressCancellable>>)
        requires
            old(self)@.wf(),
            handler matches Some(h) ==> call_requires(h, ()),
        ensures
            final(self)@ == old(self)@.set_cancellation_handler(channel, handler),
            final(self)@.wf(),
            res == if old(self)@.channels.contains_key(channel) {
                Some(old(self)@.channels[channel].cancellable_notice(handler))
            } else {
                None
            },
    {
        let res = if let Some(mut progress) = self.channels.remove(&channel.0) {
            assert(old(self)@.channels.contains_key(channel));
            let notice = progress.set_cancellation_handler(handler);
            self.channels.insert(channel.0, progress);
            Some(notice)
        } else {
            None
        };
        proof {
            assert(final(self)@.channels =~= old(self)@.set_cancellation_handler(
                channel,
                handler,
            ).channels);
            assert(final(self)@.readers =~= old(self)@.readers);
        }
        res
    }

    /// Returns the notification that carries `fraction` to the caller of the
    /// operation behind `channel`; none for a channel that is no longer in
    /// flight.
    pub fn report_progress<F>(&self, channel: ChannelId, fraction: Option<F>) -> (res: Option<
        Notification<ProgressUpdate<F>>,
    >)
        ensures
            res == if self@.channels.contains_key(channel) {
                Some(self@.channels[channel].progress_notice(fraction))
            } else {
                None
            },
    {
        match self.channels.get(&channel.0) {
            Some(progress) => Some(progress.report_progress(fraction)),
            None => None,
        }
    }

    /// Whether `reader` names a registered reader.
    pub fn has_reader(&self, reader: DataReaderId) -> (res: bool)
        ensures
            res == self@.readers.contains_key(reader),
    {
        self.readers.contains_key(&reader.0)
    }

    /// Starts the fetch of an item's data: resolves the reader, and only
    /// then opens the progress channel under the caller's token.
    pub fn get_item_data(&mut self, isolate_id: IsolateId, request: ItemDataRequest) -> (res:
        NativeExtensionsResult<ReaderCall>)
        requires
            old(self)@.wf(),
            old(self)@.readers.contains_key(request.reader_handle) ==> old(self)@.next_channel
                < u64::MAX,
        ensures
            final(self)@ == old(self)@.start_fetch(
                isolate_id,
                request.reader_handle,
                request.progress_id,
            ),
            final(self)@.wf(),
            res == old(self)@.ask(request.reader_handle, old(self)@.item_data_call(request)),
    {
        if !self.has_reader(request.reader_handle) {
            return Err(NativeExtensionsError::ReaderNotFound);
        }
        let progress = self.new_read_progress(isolate_id, request.progress_id);
        Ok(
            ReaderCall::GetDataForItem {
                reader: request.reader_handle,
                item_handle: request.item_handle,
                format: request.format,
                progress,
            },
        )
    }

    /// Starts the fetch of an item as a file: resolves the reader, and only
    /// then opens the progress channel under the caller's token.
    pub fn get_virtual_file(&mut self, isolate_id: IsolateId, request: VirtualFileRequest) -> (res:
        NativeExtensionsResult<ReaderCall>)
        requires
            old(self)@.wf(),
            old(self)@.readers.contains_key(request.reader_handle) ==> old(self)@.next_channel
                < u64::MAX,
        ensures
            final(self)@ == old(self)@.start_fetch(
                isolate_id,
                request.reader_handle,
                request.progress_id,
            ),
            final(self)@.wf(),
            res == old(self)@.ask(request.reader_handle, old(self)@.virtual_file_call(request)),
    {
        if !self.has_reader(request.reader_handle) {
            return Err(NativeExtensionsError::ReaderNotFound);
        }
        let progress = self.new_read_progress(isolate_id, request.progress_id);
        Ok(
            ReaderCall::GetVirtualFileForItem {
                reader: request.reader_handle,
                item_handle: request.item_handle,
                format: request.format,
                target_folder: request.target_folder,
                progress,
            },
        )
    }

    /// Does the manager's part of `request` of `isolate_id` and says how the
    /// request goes on. A request that names a reader fails with
    /// `ReaderNotFound`, and changes nothing, unless the reader is
    /// registered.
    pub fn on_method_call(&mut self, isolate_id: IsolateId, request: Request) -> (res:
        NativeExtensionsResult<ReaderCall>)
        requires
            old(self)@.wf(),
            request.opens_progress() && old(self)@.answer(request) is Ok ==> old(self)@.next_channel
                < u64::MAX,
        ensures
            final(self)@ == old(self)@.after(isolate_id, request),
            final(self)@.wf(),
            res == old(self)@.answer(request),
            request matches Request::CancelProgress(progress_id) ==> (old(self)@.fired_by_cancel(
                (isolate_id, progress_id),
            ) matches Some(h) ==> call_ensures(h, (), ())),
    {
        match request {
            Request::DisposeReader(reader) => {
                let _ = self.dispose_reader(reader);
                Ok(ReaderCall::Done)
            },
            Request::GetItems(reader) => self.get_items(reader),
            Request::GetItemFormats(r) => self.get_item_formats(r),
            Request::ItemFormatIsSynthetized(r) => self.item_format_is_synthetized(r),
            Request::GetItemSuggestedName(r) => self.get_item_suggested_name(r),
            Request::GetItemData(r) => self.get_item_data(isolate_id, r),
            Request::CancelProgress(progress_id) => {
                let _ = self.cancel_progress(isolate_id, progress_id);
                Ok(ReaderCall::Done)
            },
            Request::CanGetVirtualFile(r) => self.can_get_virtual_file(r),
            Request::GetVirtualFile(r) => self.get_virtual_file(isolate_id, r),
        }
    }

    /// Resolves the reader whose items are asked for.
    pub fn get_items(&self, reader: DataReaderId) -> (res: NativeExtensionsResult<ReaderCall>)
        ensures
            res == self@.answer(Request::GetItems(reader)),
    {
        if !self.has_reader(reader) {
            return Err(NativeExtensionsError::ReaderNotFound);
        }
        Ok(ReaderCall::GetItems { reader })
    }

    /// Resolves the reader that is asked for the formats of an item.
    pub fn get_item_formats(&self, request: ItemFormatsRequest) -> (res: NativeExtensionsResult<
        ReaderCall,
    >)
        ensures
            res == self@.answer(Request::GetItemFormats(request)),
    {
        if !self.has_reader(request.reader_handle) {
            return Err(NativeExtensionsError::ReaderNotFound);
        }
        Ok(
            ReaderCall::GetFormatsForItem {
                reader: request.reader_handle,
                item_handle: request.item_handle,
            },
        )
    }

    /// Resolves the reader that is asked whether a format is synthesized.
    pub fn item_format_is_synthetized(&self, request: ItemFormatIsSynthetizedRequest) -> (res:
        NativeExtensionsResult<ReaderCall>)
        ensures
            res == self@.answer(Request::ItemFormatIsSynthetized(request)),
    {
        if !self.has_reader(request.reader_handle) {
            return Err(NativeExtensionsError::ReaderNotFound);
        }
        Ok(
            ReaderCall::ItemFormatIsSynthetized {
                reader: request.reader_handle,
                item_handle: request.item_handle,
                format: request.format,
            },
        )
    }

    /// Resolves the reader that is asked for the name suggested for an item.
    pub fn get_item_suggested_name(&self, request: ItemSuggestedNameRequest) -> (res:
        NativeExtensionsResult<ReaderCall>)
        ensures
            res == self@.answer(Request::GetItemSuggestedName(request)),
    {
        if !self.has_reader(request.reader_handle) {
            return Err(NativeExtensionsError::ReaderNotFound);
        }
        Ok(
            ReaderCall::GetSuggestedNameForItem {
                reader: request.reader_handle,
                item_handle: request.item_handle,
            },
        )
    }

    /// Resolves the reader that is asked whether an item can be had as a file.
    pub fn can_get_virtual_file(&self, request: VirtualFileSupportedRequest) -> (res:
        NativeExtensionsResult<ReaderCall>)
        ensures
            res == self@.answer(Request::CanGetVirtualFile(request)),
    {
        if !self.has_reader(request.reader_handle) {
            return Err(NativeExtensionsError::ReaderNotFound);
        }
        Ok(
            ReaderCall::CanGetVirtualFileForItem {
                reader: request.reader_handle,
                item_handle: request.item_handle,
                format: request.format,
            },
        )
    }

    /// The channel entered under `progress_id` of `isolate_id`, if the token
    /// has an entry.
    pub fn progress_channel(&self, isolate_id: IsolateId, progress_id: i64) -> (res: Option<
        ChannelId,
    >)
        ensures
            res == self@.progresses.get((isolate_id, progress_id)),
    {
        self.progresses.get(isolate_id, progress_id)
    }

    /// Whether the operation behind `channel` is still in flight.
    pub fn is_in_flight(&self, channel: ChannelId) -> (res: bool)
        ensures
            res == self@.channels.contains_key(channel),
    {
        self.channels.contains_key(&channel.0)
    }

    /// Whether a handler is installed on `channel`; `false` for a channel
    /// that is no longer in flight.
    pub fn is_cancellable(&self, channel: ChannelId) -> (res: bool)
        ensures
            res == (self@.channels.contains_key(channel)
                && self@.channels[channel].is_cancellable()),
    {
        match self.channels.get(&channel.0) {
            Some(progress) => progress.is_cancellable(),
            None => false,
        }
    }

    /// Whether a cancellation has run a handler of `channel`; `false` for a
    /// channel that is no longer in flight.
    pub fn is_cancelled(&self, channel: ChannelId) -> (res: bool)
        ensures
            res == (self@.channels.contains_key(channel) && self@.channels[channel].cancelled),
    {
        match self.channels.get(&channel.0) {
            Some(progress) => progress.is_cancelled(),
            None => false,
        }
    }
}

} // verus!
