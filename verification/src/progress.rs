use crate::ids::IsolateId;
use vstd::prelude::*;

verus! {

/// Arguments of the `setProgressCancellable` notification.
#[derive(Clone, Copy, Debug, PartialEq, Eq)]
pub struct SetProgressCancellable {
    pub progress_id: i64,
    pub cancellable: bool,
}

/// Arguments of the `updateProgress` notification. The fraction is carried
/// through untouched; `None` stands for progress of unknown extent.
#[derive(Debug, PartialEq)]
pub struct ProgressUpdate<F> {
    pub progress_id: i64,
    pub fraction: Option<F>,
}

/// A fire-and-forget message for one caller.
#[derive(Debug, PartialEq)]
pub struct Notification<A> {
    pub isolate_id: IsolateId,
    pub args: A,
}

impl SetProgressCancellable {
    /// The method under which the notification is sent.
    pub open spec fn method_spec() -> Seq<char> {
        "setProgressCancellable"@
    }

    /// The method under which the notification is sent.
    pub fn method(&self) -> (res: &'static str)
        ensures
            res@ == Self::method_spec(),
    {
        "setProgressCancellable"
    }
}

impl<F> ProgressUpdate<F> {
    /// The method under which the notification is sent.
    pub open spec fn method_spec() -> Seq<char> {
        "updateProgress"@
    }

    /// The method under which the notification is sent.
    pub fn method(&self) -> (res: &'static str)
        ensures
            res@ == Self::method_spec(),
    {
        "updateProgress"
    }
}

/// What a progress channel is, seen from outside: whom it reports to, under
/// which token, the handler that a cancellation would run, and whether a
/// cancellation has already run one.
pub struct ProgressView<H> {
    pub isolate_id: IsolateId,
    pub progress_id: i64,
    pub cancellation_handler: Option<H>,
    pub cancelled: bool,
}

impl<H: FnOnce()> ProgressView<H> {
    /// A stored handler can always be called, and a cancelled channel
    /// stores none.
    pub open spec fn wf(self) -> bool {
        &&& self.cancellation_handler matches Some(h) ==> call_requires(h, ())
        &&& self.cancelled ==> self.cancellation_handler is None
    }

    /// A channel as it is opened: without a handler, and not cancelled.
    pub open spec fn fresh(isolate_id: IsolateId, progress_id: i64) -> Self {
        ProgressView { isolate_id, progress_id, cancellation_handler: None, cancelled: false }
    }

    pub open spec fn is_cancellable(self) -> bool {
        self.cancellation_handler is Some
    }

    /// The channel after `handler` was handed to it. A cancelled channel
    /// takes no handler any more and stays as it is.
    pub open spec fn with_handler(self, handler: Option<H>) -> Self {
        if self.cancelled {
            self
        } else {
            ProgressView { cancellation_handler: handler, ..self }
        }
    }

    /// The notification that goes out when `handler` is handed to the
    /// channel: the operation can be cancelled if there is a handler and
    /// the channel was not cancelled before.
    pub open spec fn cancellable_notice(self, handler: Option<H>) -> Notification<
        SetProgressCancellable,
    > {
        Notification {
            isolate_id: self.isolate_id,
            args: SetProgressCancellable {
                progress_id: self.progress_id,
                cancellable: handler is Some && !self.cancelled,
            },
        }
    }

    /// The notification that goes out when `fraction` is reported.
    pub open spec fn progress_notice<F>(self, fraction: Option<F>) -> Notification<
        ProgressUpdate<F>,
    > {
        Notification {
            isolate_id: self.isolate_id,
            args: ProgressUpdate { progress_id: self.progress_id, fraction },
        }
    }

    /// The handler that a cancellation runs, if any.
    pub open spec fn fired_by_cancel(self) -> Option<H> {
        self.cancellation_handler
    }

    /// The channel after a cancellation. With a handler stored, the handler
    /// is gone and the channel is cancelled for good; without one, nothing
    /// changes.
    pub open spec fn cancelled(self) -> Self {
        if self.cancellation_handler is Some {
            ProgressView { cancellation_handler: None, cancelled: true, ..self }
        } else {
            self
        }
    }
}

/// State of one progress channel. The channel is owned by the operation it
/// reports on; all of its methods are meant to run on the context that
/// created it.
pub struct ReadProgress<H> {
    isolate_id: IsolateId,
    progress_id: i64,
    cancellation_handler: Option<H>,
    cancelled: bool,
}

impl<H> View for ReadProgress<H> {
    type V = ProgressView<H>;

    closed spec fn view(&self) -> ProgressView<H> {
        ProgressView {
            isolate_id: self.isolate_id,
            progress_id: self.progress_id,
            cancellation_handler: self.cancellation_handler,
            cancelled: self.cancelled,
        }
    }
}

impl<H: FnOnce()> ReadProgress<H> {
    /// A channel for `progress_id` of `isolate_id`, not cancellable yet.
    pub fn new(isolate_id: IsolateId, progress_id: i64) -> (res: Self)
        ensures
            res@ == ProgressView::<H>::fresh(isolate_id, progress_id),
            res@.wf(),
    {
        ReadProgress { isolate_id, progress_id, cancellation_handler: None, cancelled: false }
    }

    /// Hands `handler` to the channel and returns the notification that
    /// tells the caller whether the operation can now be cancelled. The
    /// handler stored before is dropped without being run. A channel that
    /// was cancelled stores nothing: the handler is dropped, and the
    /// notification says that the operation cannot be cancelled.
    pub fn set_cancellation_handler(&mut self, handler: Option<H>) -> (notice: Notification<
        SetProgressCancellable,
    >)
        requires
            old(self)@.wf(),
            handler matches Some(h) ==> call_requires(h, ()),
        ensures
            final(self)@ == old(self)@.with_handler(handler),
            final(self)@.wf(),
            notice == old(self)@.cancellable_notice(handler),
    {
        let cancellable = handler.is_some() && !self.cancelled;
        if !self.cancelled {
            self.cancellation_handler = handler;
        }
        Notification {
            isolate_id: self.isolate_id,
            args: SetProgressCancellable { progress_id: self.progress_id, cancellable },
        }
    }

    /// Returns the notification that carries `fraction` to the caller. The
    /// channel itself does not change.
    pub fn report_progress<F>(&self, fraction: Option<F>) -> (notice: Notification<ProgressUpdate<F>>)
        ensures
            notice == self@.progress_notice(fraction),
    {
        Notification {
            isolate_id: self.isolate_id,
            args: ProgressUpdate { progress_id: self.progress_id, fraction },
        }
    }

    /// Takes the stored handler out of the channel and runs it; the channel
    /// is cancelled from then on. Without a stored handler nothing happens.
    pub fn cancel(&mut self)
        requires
            old(self)@.wf(),
        ensures
            final(self)@ == old(self)@.cancelled(),
            final(self)@.wf(),
            old(self)@.fired_by_cancel() matches Some(h) ==> call_ensures(h, (), ()),
    {
        let handler = self.cancellation_handler.take();
        if let Some(handler) = handler {
            self.cancelled = true;
            handler();
        }
    }

    pub fn isolate_id(&self) -> (res: IsolateId)
        ensures
            res == self@.isolate_id,
    {
        self.isolate_id
    }

    pub fn progress_id(&self) -> (res: i64)
        ensures
            res == self@.progress_id,
    {
        self.progress_id
    }

    pub fn is_cancellable(&self) -> (res: bool)
        ensures
            res == self@.is_cancellable(),
    {
        self.cancellation_handler.is_some()
    }

    /// Whether a cancellation has run a handler of this channel.
    pub fn is_cancelled(&self) -> (res: bool)
        ensures
            res == self@.cancelled,
    {
        self.cancelled
    }
}

} // verus!
